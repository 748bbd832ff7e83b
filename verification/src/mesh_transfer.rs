//! Replacing a mesh's data without waiting for the transfer to the device.
//!
//! New data for a mesh is first kept aside. When no transfer of the mesh is
//! under way, the waiting data is handed to a transfer; the mesh goes on
//! showing its old data until that transfer finishes, and only then takes the
//! new data. Data given while a transfer is under way waits for it to finish;
//! of several such, the last one given is transferred.
use vstd::prelude::*;

verus! {

/// The data a mesh shows, the data waiting to replace it, and whether a
/// transfer is asked for or under way.
#[derive(Debug, Clone)]
pub struct MeshTransfer<D> {
    current: D,
    new_data: Option<D>,
    transfering: bool,
}

/// The contents of a `MeshTransfer`. A transfer is asked for exactly when
/// data is waiting.
pub struct TransferView<D> {
    pub current: D,
    pub new_data: Option<D>,
    pub transfering: bool,
}

impl<D> View for MeshTransfer<D> {
    type V = TransferView<D>;

    closed spec fn view(&self) -> TransferView<D> {
        TransferView {
            current: self.current,
            new_data: self.new_data,
            transfering: self.transfering,
        }
    }
}

/// The state after `data` is given to replace the mesh's data.
pub open spec fn after_request<D>(v: TransferView<D>, data: D) -> TransferView<D> {
    TransferView { new_data: Some(data), ..v }
}

/// A transfer starts now: data is waiting and none is under way.
pub open spec fn starts_transfer<D>(v: TransferView<D>) -> bool {
    v.new_data is Some && !v.transfering
}

/// The state after the check for a transfer to start.
pub open spec fn after_start<D>(v: TransferView<D>) -> TransferView<D> {
    if starts_transfer(v) {
        TransferView { new_data: None, transfering: true, ..v }
    } else {
        v
    }
}

/// The data handed to the transfer that the check starts, if any.
pub open spec fn started_data<D>(v: TransferView<D>) -> Option<D> {
    if starts_transfer(v) {
        v.new_data
    } else {
        None
    }
}

/// The state after a transfer finished with `data`: the mesh shows it.
pub open spec fn after_finish<D>(v: TransferView<D>, data: D) -> TransferView<D> {
    TransferView { current: data, transfering: false, ..v }
}

impl<D> MeshTransfer<D> {
    /// A mesh showing `data`, with nothing waiting and no transfer.
    pub fn new(data: D) -> (r: MeshTransfer<D>)
        ensures
            r@.current == data,
            r@.new_data is None,
            !r@.transfering,
    {
        MeshTransfer { current: data, new_data: None, transfering: false }
    }

    /// The data the mesh shows.
    pub fn current(&self) -> (r: &D)
        ensures
            *r == self@.current,
    {
        &self.current
    }

    /// Whether a transfer is asked for: data is waiting.
    pub fn transfer_requested(&self) -> (r: bool)
        ensures
            r == (self@.new_data is Some),
    {
        self.new_data.is_some()
    }

    /// Whether a transfer is under way.
    pub fn transfering(&self) -> (r: bool)
        ensures
            r == self@.transfering,
    {
        self.transfering
    }

    /// Gives `data` to replace the mesh's data once transferred; it takes the
    /// place of any data still waiting.
    pub fn request(&mut self, data: D)
        ensures
            final(self)@ == after_request(old(self)@, data),
    {
        self.new_data = Some(data);
    }

    /// Starts a transfer when data is waiting and none is under way, handing
    /// out the waiting data; otherwise changes nothing.
    pub fn start_transfer(&mut self) -> (r: Option<D>)
        ensures
            r == started_data(old(self)@),
            final(self)@ == after_start(old(self)@),
            starts_transfer(old(self)@) ==> r is Some,
    {
        if self.new_data.is_some() && !self.transfering {
            self.transfering = true;
            self.new_data.take()
        } else {
            None
        }
    }

    /// Ends the transfer under way: the mesh now shows `data`.
    pub fn finish_transfer(&mut self, data: D)
        ensures
            final(self)@ == after_finish(old(self)@, data),
    {
        self.current = data;
        self.transfering = false;
    }

    /// Replaces the shown data at once, without a transfer.
    pub fn replace_now(&mut self, data: D)
        ensures
            final(self)@ == (TransferView { current: data, ..old(self)@ }),
    {
        self.current = data;
    }
}

/// The mesh shows its old data until the transfer finishes: giving new data
/// and starting its transfer leave the shown data unchanged.
pub proof fn law_old_data_until_finished<D>(v: TransferView<D>, data: D)
    ensures
        after_request(v, data).current == v.current,
        after_start(v).current == v.current,
        after_start(after_request(v, data)).current == v.current,
        after_finish(v, data).current == data,
{
}

/// At most one transfer of a mesh is under way: while one is, the check
/// starts nothing and changes nothing.
pub proof fn law_one_transfer_at_a_time<D>(v: TransferView<D>)
    requires
        v.transfering,
    ensures
        started_data(v) is None,
        after_start(v) == v,
{
}

/// Of the data given before a transfer starts, the last is transferred.
pub proof fn law_last_request_wins<D>(v: TransferView<D>, first: D, second: D)
    requires
        !v.transfering,
    ensures
        started_data(after_request(after_request(v, first), second)) == Some(second),
{
}

/// Data given while a transfer is under way waits for it: it is not started
/// before that transfer finishes, and it is started at the first check after.
pub proof fn law_waits_for_running_transfer<D>(v: TransferView<D>, data: D, done: D)
    requires
        v.transfering,
    ensures
        started_data(after_request(v, data)) is None,
        after_start(after_request(v, data)) == after_request(v, data),
        started_data(after_finish(after_request(v, data), done)) == Some(data),
{
}

/// Data given to an idle mesh is transferred by the next check, and once that
/// transfer finishes with it the mesh shows it and is idle again.
pub proof fn law_request_round_trip<D>(v: TransferView<D>, data: D)
    requires
        !v.transfering,
    ensures
        started_data(after_request(v, data)) == Some(data),
        after_finish(after_start(after_request(v, data)), data).current == data,
        after_finish(after_start(after_request(v, data)), data).new_data is None,
        !after_finish(after_start(after_request(v, data)), data).transfering,
{
}

} // verus!
