//! Choosing the graphics device and its queue families.
//!
//! The devices are described by plain values: whether a device has the
//! extensions and features the renderer enables, what kind of device it is,
//! and, for each of its queue families, whether it draws, transfers and
//! presents to the window's surface.
use vstd::prelude::*;

verus! {

/// The kind of a physical device, in the order the renderer prefers them.
#[derive(Debug, Clone, Copy, PartialEq, Eq, Structural)]
pub enum DeviceKind {
    DiscreteGpu,
    IntegratedGpu,
    VirtualGpu,
    Cpu,
    Other,
}

/// A queue family of a device.
#[derive(Debug, Clone, Copy, PartialEq, Eq, Structural)]
pub struct QueueFamily {
    /// The family supports graphics work.
    pub graphics: bool,
    /// The family supports transfers.
    pub transfer: bool,
    /// The family can present to the window's surface.
    pub presents: bool,
}

/// What the choice reads of one physical device.
pub struct DeviceInfo {
    /// The device has every extension the renderer enables.
    pub has_extensions: bool,
    /// The device has every feature the renderer enables.
    pub has_features: bool,
    pub kind: DeviceKind,
    pub families: Vec<QueueFamily>,
}

/// The chosen device, by its position, with the family that draws and
/// presents and the family, if any, that takes the transfers.
#[derive(Debug, Clone, Copy, PartialEq, Eq, Structural)]
pub struct DeviceChoice {
    pub device: usize,
    pub graphics_family: usize,
    pub transfer_family: Option<usize>,
}

/// Why no device was chosen.
#[derive(Debug, Clone, Copy, PartialEq, Eq, Structural)]
pub enum DeviceError {
    /// A device with the extensions and features has transfer families but
    /// no family that draws and presents.
    NoGraphicsQueue,
    /// No device has the extensions, the features and a family that draws and presents.
    NoDevice,
}

/// How much the renderer prefers a kind of device: lower is better.
pub open spec fn kind_rank(k: DeviceKind) -> int {
    match k {
        DeviceKind::DiscreteGpu => 0,
        DeviceKind::IntegratedGpu => 1,
        DeviceKind::VirtualGpu => 2,
        DeviceKind::Cpu => 3,
        DeviceKind::Other => 4,
    }
}

/// The family can do the renderer's drawing and presenting.
pub open spec fn draws_and_presents(f: QueueFamily) -> bool {
    f.graphics && f.presents
}

/// `i` is the first family that draws and presents.
pub open spec fn is_graphics_family(fams: Seq<QueueFamily>, i: int) -> bool {
    &&& 0 <= i < fams.len()
    &&& draws_and_presents(fams[i])
    &&& forall|j: int| 0 <= j < i ==> !draws_and_presents(#[trigger] fams[j])
}

/// The first family that draws and presents, if any.
pub open spec fn graphics_family(fams: Seq<QueueFamily>) -> Option<int> {
    if exists|i: int| is_graphics_family(fams, i) {
        Some(choose|i: int| is_graphics_family(fams, i))
    } else {
        None
    }
}

/// The family takes transfers and is not the family `g`.
pub open spec fn transfers_apart(f: QueueFamily, i: int, g: int) -> bool {
    f.transfer && i != g
}

/// `i` is the first family, other than `g`, that takes transfers.
pub open spec fn is_transfer_family(fams: Seq<QueueFamily>, g: int, i: int) -> bool {
    &&& 0 <= i < fams.len()
    &&& transfers_apart(fams[i], i, g)
    &&& forall|j: int| 0 <= j < i ==> !transfers_apart(#[trigger] fams[j], j, g)
}

/// The first family, other than `g`, that takes transfers, if any.
pub open spec fn transfer_family(fams: Seq<QueueFamily>, g: int) -> Option<int> {
    if exists|i: int| is_transfer_family(fams, g, i) {
        Some(choose|i: int| is_transfer_family(fams, g, i))
    } else {
        None
    }
}

/// Some family takes transfers.
pub open spec fn has_transfer(fams: Seq<QueueFamily>) -> bool {
    exists|i: int| 0 <= i < fams.len() && (#[trigger] fams[i]).transfer
}

/// The device has what the renderer enables.
pub open spec fn qualifies(d: DeviceInfo) -> bool {
    d.has_extensions && d.has_features
}

/// The device qualifies and has transfer families but none that draws and presents.
pub open spec fn lacks_graphics(d: DeviceInfo) -> bool {
    qualifies(d) && graphics_family(d.families@) is None && has_transfer(d.families@)
}

/// The device can be chosen.
pub open spec fn is_candidate(d: DeviceInfo) -> bool {
    qualifies(d) && graphics_family(d.families@) is Some
}

/// `i` is the first candidate of the most preferred kind among the candidates.
pub open spec fn is_best(devs: Seq<DeviceInfo>, i: int) -> bool {
    &&& 0 <= i < devs.len()
    &&& is_candidate(devs[i])
    &&& forall|j: int|
        0 <= j < devs.len() && #[trigger] is_candidate(devs[j]) ==> kind_rank(devs[i].kind) <= kind_rank(devs[j].kind)
    &&& forall|j: int| 0 <= j < i && #[trigger] is_candidate(devs[j]) ==> kind_rank(devs[i].kind) < kind_rank(devs[j].kind)
}

proof fn lemma_graphics_family_is(fams: Seq<QueueFamily>, i: int)
    requires
        is_graphics_family(fams, i),
    ensures
        graphics_family(fams) == Some(i),
{
    let c = choose|k: int| is_graphics_family(fams, k);
    if c < i {
        assert(!draws_and_presents(fams[c]));
    } else if i < c {
        assert(!draws_and_presents(fams[i]));
    }
}

proof fn lemma_transfer_family_is(fams: Seq<QueueFamily>, g: int, i: int)
    requires
        is_transfer_family(fams, g, i),
    ensures
        transfer_family(fams, g) == Some(i),
{
    let c = choose|k: int| is_transfer_family(fams, g, k);
    if c < i {
        assert(!transfers_apart(fams[c], c, g));
    } else if i < c {
        assert(!transfers_apart(fams[i], i, g));
    }
}

/// The first family of `fams` that draws and presents.
fn find_graphics_family(fams: &Vec<QueueFamily>) -> (r: Option<usize>)
    ensures
        (match r {
            Some(i) => graphics_family(fams@) == Some(i as int),
            None => graphics_family(fams@) is None,
        }),
{
    let mut i: usize = 0;
    while i < fams.len()
        invariant
            i <= fams@.len(),
            forall|j: int| 0 <= j < i ==> !draws_and_presents(#[trigger] fams@[j]),
        decreases fams@.len() - i,
    {
        if fams[i].graphics && fams[i].presents {
            proof {
                lemma_graphics_family_is(fams@, i as int);
            }
            return Some(i);
        }
        i = i + 1;
    }
    assert(!exists|k: int| is_graphics_family(fams@, k)) by {
        if exists|k: int| is_graphics_family(fams@, k) {
            let k = choose|k: int| is_graphics_family(fams@, k);
            assert(!draws_and_presents(fams@[k]));
        }
    }
    None
}

/// The first family of `fams`, other than `g`, that takes transfers.
fn find_transfer_family(fams: &Vec<QueueFamily>, g: usize) -> (r: Option<usize>)
    ensures
        (match r {
            Some(i) => transfer_family(fams@, g as int) == Some(i as int),
            None => transfer_family(fams@, g as int) is None,
        }),
{
    let mut i: usize = 0;
    while i < fams.len()
        invariant
            i <= fams@.len(),
            forall|j: int| 0 <= j < i ==> !transfers_apart(#[trigger] fams@[j], j, g as int),
        decreases fams@.len() - i,
    {
        if fams[i].transfer && i != g {
            proof {
                lemma_transfer_family_is(fams@, g as int, i as int);
            }
            return Some(i);
        }
        i = i + 1;
    }
    assert(!exists|k: int| is_transfer_family(fams@, g as int, k)) by {
        if exists|k: int| is_transfer_family(fams@, g as int, k) {
            let k = choose|k: int| is_transfer_family(fams@, g as int, k);
            assert(!transfers_apart(fams@[k], k, g as int));
        }
    }
    None
}

/// Some family of `fams` takes transfers.
fn any_transfer(fams: &Vec<QueueFamily>) -> (r: bool)
    ensures
        r == has_transfer(fams@),
{
    let mut i: usize = 0;
    while i < fams.len()
        invariant
            i <= fams@.len(),
            forall|j: int| 0 <= j < i ==> !(#[trigger] fams@[j]).transfer,
        decreases fams@.len() - i,
    {
        if fams[i].transfer {
            return true;
        }
        i = i + 1;
    }
    false
}

/// The rank of a kind, as `kind_rank` gives it.
fn rank_of(k: DeviceKind) -> (r: u8)
    ensures
        r as int == kind_rank(k),
{
    match k {
        DeviceKind::DiscreteGpu => 0,
        DeviceKind::IntegratedGpu => 1,
        DeviceKind::VirtualGpu => 2,
        DeviceKind::Cpu => 3,
        DeviceKind::Other => 4,
    }
}

/// Chooses the device the renderer runs on.
///
/// The devices with the enabled extensions and features are considered. If
/// one of them has a family that takes transfers but none that both draws and
/// presents, the choice fails with `NoGraphicsQueue`. Otherwise the candidates
/// are those with a family that draws and presents; with none the choice
/// fails with `NoDevice`. The first candidate of the most preferred kind
/// (discrete, integrated, virtual, CPU, other) is chosen, with its first
/// family that draws and presents and its first other family that transfers.
pub fn select_device(devices: &Vec<DeviceInfo>) -> (r: Result<DeviceChoice, DeviceError>)
    ensures
        (exists|k: int| 0 <= k < devices@.len() && #[trigger] lacks_graphics(devices@[k])) <==> r == Err::<
            DeviceChoice,
            DeviceError,
        >(DeviceError::NoGraphicsQueue),
        r == Err::<DeviceChoice, DeviceError>(DeviceError::NoDevice) <==> (!(exists|k: int|
            0 <= k < devices@.len() && #[trigger] lacks_graphics(devices@[k])) && !(exists|k: int|
            0 <= k < devices@.len() && #[trigger] is_candidate(devices@[k]))),
        (r matches Ok(c) ==> {
            &&& is_best(devices@, c.device as int)
            &&& graphics_family(devices@[c.device as int].families@) == Some(c.graphics_family as int)
            &&& match c.transfer_family {
                Some(t) => transfer_family(devices@[c.device as int].families@, c.graphics_family as int) == Some(
                    t as int,
                ),
                None => transfer_family(devices@[c.device as int].families@, c.graphics_family as int) is None,
            }
        }),
{
    let mut best: Option<DeviceChoice> = None;
    let mut best_rank: u8 = 0;
    let mut i: usize = 0;
    while i < devices.len()
        invariant
            i <= devices@.len(),
            forall|k: int| 0 <= k < i ==> !#[trigger] lacks_graphics(devices@[k]),
            match best {
                None => forall|k: int| 0 <= k < i ==> !#[trigger] is_candidate(devices@[k]),
                Some(c) => {
                    &&& c.device < i
                    &&& is_candidate(devices@[c.device as int])
                    &&& best_rank as int == kind_rank(devices@[c.device as int].kind)
                    &&& forall|j: int|
                        0 <= j < i && #[trigger] is_candidate(devices@[j]) ==> best_rank <= kind_rank(
                            devices@[j].kind,
                        )
                    &&& forall|j: int|
                        0 <= j < c.device && #[trigger] is_candidate(devices@[j]) ==> best_rank < kind_rank(
                            devices@[j].kind,
                        )
                    &&& graphics_family(devices@[c.device as int].families@) == Some(c.graphics_family as int)
                    &&& match c.transfer_family {
                        Some(t) => transfer_family(devices@[c.device as int].families@, c.graphics_family as int)
                            == Some(t as int),
                        None => transfer_family(devices@[c.device as int].families@, c.graphics_family as int) is None,
                    }
                },
            },
        decreases devices@.len() - i,
    {
        let d = &devices[i];
        if d.has_extensions && d.has_features {
            match find_graphics_family(&d.families) {
                None => {
                    if any_transfer(&d.families) {
                        assert(lacks_graphics(devices@[i as int]));
                        return Err(DeviceError::NoGraphicsQueue);
                    }
                },
                Some(g) => {
                    let t = find_transfer_family(&d.families, g);
                    let rank = rank_of(d.kind);
                    let replace = match best {
                        None => true,
                        Some(_) => rank < best_rank,
                    };
                    if replace {
                        best = Some(DeviceChoice { device: i, graphics_family: g, transfer_family: t });
                        best_rank = rank;
                    }
                },
            }
        }
        i = i + 1;
    }
    assert(!(exists|k: int| 0 <= k < devices@.len() && #[trigger] lacks_graphics(devices@[k])));
    match best {
        None => Err(DeviceError::NoDevice),
        Some(c) => {
            assert(exists|k: int| 0 <= k < devices@.len() && #[trigger] is_candidate(devices@[k])) by {
                assert(is_candidate(devices@[c.device as int]));
            }
            Ok(c)
        },
    }
}

impl DeviceChoice {
    /// The families to create queues on: the drawing family, then the
    /// transfer family if there is one.
    pub fn queue_families(&self) -> (r: Vec<usize>)
        ensures
            r@ == (match self.transfer_family {
                Some(t) => seq![self.graphics_family, t],
                None => seq![self.graphics_family],
            }),
    {
        match self.transfer_family {
            Some(t) => vec![self.graphics_family, t],
            None => vec![self.graphics_family],
        }
    }
}

/// The kinds of device in the order the renderer prefers them: a discrete
/// GPU, then an integrated one, then a virtual one, then a CPU, then any
/// other kind.
pub proof fn law_kind_preference()
    ensures
        kind_rank(DeviceKind::DiscreteGpu) < kind_rank(DeviceKind::IntegratedGpu),
        kind_rank(DeviceKind::IntegratedGpu) < kind_rank(DeviceKind::VirtualGpu),
        kind_rank(DeviceKind::VirtualGpu) < kind_rank(DeviceKind::Cpu),
        kind_rank(DeviceKind::Cpu) < kind_rank(DeviceKind::Other),
{
}

/// The chosen device is never of a less preferred kind than a candidate:
/// with a discrete GPU among the candidates a discrete GPU is chosen, with a
/// virtual GPU among them no CPU or other device is chosen, and a device
/// placed before the chosen one that can be chosen is of a less preferred
/// kind.
pub proof fn law_best_kind_wins(devs: Seq<DeviceInfo>, i: int, j: int)
    requires
        is_best(devs, i),
        0 <= j < devs.len(),
        is_candidate(devs[j]),
    ensures
        devs[j].kind == DeviceKind::DiscreteGpu ==> devs[i].kind == DeviceKind::DiscreteGpu,
        devs[j].kind == DeviceKind::IntegratedGpu ==> (devs[i].kind == DeviceKind::DiscreteGpu || devs[i].kind
            == DeviceKind::IntegratedGpu),
        devs[j].kind == DeviceKind::VirtualGpu ==> (devs[i].kind != DeviceKind::Cpu && devs[i].kind
            != DeviceKind::Other),
        devs[j].kind == DeviceKind::Cpu ==> devs[i].kind != DeviceKind::Other,
        j < i ==> devs[j].kind != devs[i].kind,
{
}

/// The chosen families: the graphics family is the first that both supports
/// graphics and presents to the surface; the transfer family is the first
/// other than it that supports transfers.
pub proof fn law_chosen_families(fams: Seq<QueueFamily>, g: int, t: int)
    ensures
        (graphics_family(fams) == Some(g) ==> {
            &&& 0 <= g < fams.len()
            &&& fams[g].graphics
            &&& fams[g].presents
            &&& forall|k: int| 0 <= k < g ==> !(#[trigger] fams[k].graphics && fams[k].presents)
        }),
        graphics_family(fams) is None ==> forall|k: int| 0 <= k < fams.len() ==> !(#[trigger] fams[k].graphics && fams[k].presents),
        (transfer_family(fams, g) == Some(t) ==> {
            &&& 0 <= t < fams.len()
            &&& fams[t].transfer
            &&& t != g
            &&& forall|k: int| 0 <= k < t && k != g ==> !(#[trigger] fams[k].transfer)
        }),
        transfer_family(fams, g) is None ==> forall|k: int| 0 <= k < fams.len() && k != g ==> !(#[trigger] fams[k].transfer),
{
    if graphics_family(fams) == Some(g) {
        let c = choose|k: int| is_graphics_family(fams, k);
        assert(is_graphics_family(fams, c));
        assert forall|k: int| 0 <= k < g implies !(#[trigger] fams[k].graphics && fams[k].presents) by {
            assert(!draws_and_presents(fams[k]));
        }
    }
    if graphics_family(fams) is None {
        assert forall|k: int| 0 <= k < fams.len() implies !(#[trigger] fams[k].graphics && fams[k].presents) by {
            if fams[k].graphics && fams[k].presents {
                lemma_first_of(fams, k);
            }
        }
    }
    if transfer_family(fams, g) == Some(t) {
        let c = choose|k: int| is_transfer_family(fams, g, k);
        assert(is_transfer_family(fams, g, c));
        assert forall|k: int| 0 <= k < t && k != g implies !(#[trigger] fams[k].transfer) by {
            assert(!transfers_apart(fams[k], k, g));
        }
    }
    if transfer_family(fams, g) is None {
        assert forall|k: int| 0 <= k < fams.len() && k != g implies !(#[trigger] fams[k].transfer) by {
            if fams[k].transfer {
                lemma_first_transfer_of(fams, g, k);
            }
        }
    }
}

/// Which devices can be chosen: exactly those with the enabled extensions,
/// the enabled features and a family that both draws and presents. A device
/// with the extensions and features that has a family that transfers but
/// none that draws and presents is the one that makes the choice fail.
pub proof fn law_candidates(d: DeviceInfo)
    ensures
        is_candidate(d) <==> (d.has_extensions && d.has_features && exists|k: int|
            0 <= k < d.families@.len() && (#[trigger] d.families@[k]).graphics && d.families@[k].presents),
        lacks_graphics(d) <==> (d.has_extensions && d.has_features && (forall|k: int|
            0 <= k < d.families@.len() ==> !(#[trigger] d.families@[k].graphics && d.families@[k].presents))
            && exists|k: int| 0 <= k < d.families@.len() && (#[trigger] d.families@[k]).transfer),
{
    let fams = d.families@;
    law_chosen_families(fams, 0, 0);
    if exists|k: int| 0 <= k < fams.len() && (#[trigger] fams[k]).graphics && fams[k].presents {
        let k = choose|k: int| 0 <= k < fams.len() && (#[trigger] fams[k]).graphics && fams[k].presents;
        lemma_first_of(fams, k);
    }
    if graphics_family(fams) is Some {
        let g = graphics_family(fams).unwrap();
        law_chosen_families(fams, g, 0);
    }
}

proof fn lemma_first_of(fams: Seq<QueueFamily>, k: int)
    requires
        0 <= k < fams.len(),
        draws_and_presents(fams[k]),
    ensures
        exists|m: int| is_graphics_family(fams, m),
    decreases k,
{
    if exists|q: int| 0 <= q < k && draws_and_presents(#[trigger] fams[q]) {
        let q = choose|q: int| 0 <= q < k && draws_and_presents(#[trigger] fams[q]);
        lemma_first_of(fams, q);
    } else {
        assert(is_graphics_family(fams, k));
    }
}

proof fn lemma_first_transfer_of(fams: Seq<QueueFamily>, g: int, k: int)
    requires
        0 <= k < fams.len(),
        transfers_apart(fams[k], k, g),
    ensures
        exists|m: int| is_transfer_family(fams, g, m),
    decreases k,
{
    if exists|q: int| 0 <= q < k && transfers_apart(#[trigger] fams[q], q, g) {
        let q = choose|q: int| 0 <= q < k && transfers_apart(#[trigger] fams[q], q, g);
        lemma_first_transfer_of(fams, g, q);
    } else {
        assert(is_transfer_family(fams, g, k));
    }
}

} // verus!
