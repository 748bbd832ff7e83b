//! Keyboard and mouse-button state: which keys and buttons are held, and
//! which went down or up since the last frame.
use vstd::prelude::*;

verus! {

/// What `str::to_lowercase` gives for `s`.
pub uninterp spec fn lowercase_text(s: Seq<char>) -> Seq<char>;

/// Calls `str::to_lowercase`: the text with every character replaced by its
/// lowercase mapping, as Unicode defines it. The mapping is named, not
/// written out.
#[verifier::external_body]
fn to_lowercase(s: &str) -> (r: String)
    ensures
        r@ == lowercase_text(s@),
{
    s.to_lowercase()
}

/// A logical key: one that produces text (by that text), or another key
/// (by a name that tells it apart from other keys).
#[derive(Debug)]
pub enum InputKey {
    Character(String),
    Other(String),
}

/// A mouse button.
#[derive(Debug, Clone, Copy, PartialEq, Eq, Structural)]
pub enum MouseButtonInput {
    Left,
    Right,
    Middle,
    Back,
    Forward,
    Other(u16),
}

impl View for InputKey {
    /// Whether the key produces text, and its text or name.
    type V = (bool, Seq<char>);

    open spec fn view(&self) -> (bool, Seq<char>) {
        match self {
            InputKey::Character(s) => (true, s@),
            InputKey::Other(s) => (false, s@),
        }
    }
}

impl View for MouseButtonInput {
    type V = MouseButtonInput;

    open spec fn view(&self) -> MouseButtonInput {
        *self
    }
}

/// A key or button as the input state records it.
pub trait InputId: View + Sized {
    fn same_as(&self, other: &Self) -> (r: bool)
        ensures
            r == (self@ == other@),
    ;

    fn duplicate(&self) -> (r: Self)
        ensures
            r@ == self@,
    ;
}

impl InputId for InputKey {
    fn same_as(&self, other: &Self) -> (r: bool) {
        match (self, other) {
            (InputKey::Character(a), InputKey::Character(b)) => *a == *b,
            (InputKey::Other(a), InputKey::Other(b)) => *a == *b,
            _ => false,
        }
    }

    fn duplicate(&self) -> (r: Self) {
        match self {
            InputKey::Character(s) => InputKey::Character(s.clone()),
            InputKey::Other(s) => InputKey::Other(s.clone()),
        }
    }
}

impl InputId for MouseButtonInput {
    fn same_as(&self, other: &Self) -> (r: bool) {
        *self == *other
    }

    fn duplicate(&self) -> (r: Self) {
        *self
    }
}

/// The key `key` as it is recorded: text keys by their lowercase text.
pub open spec fn normalized_key(key: (bool, Seq<char>)) -> (bool, Seq<char>) {
    if key.0 {
        (true, lowercase_text(key.1))
    } else {
        key
    }
}

/// A set of keys or buttons.
pub struct InputSet<T> {
    items: Vec<T>,
}

impl<T: InputId> View for InputSet<T> {
    type V = Set<T::V>;

    closed spec fn view(&self) -> Set<T::V> {
        self.items@.map_values(|x: T| x@).to_set()
    }
}

proof fn lemma_push_view<T: View>(s: Seq<T>, x: T)
    ensures
        s.push(x).map_values(|y: T| y@).to_set() == s.map_values(|y: T| y@).to_set().insert(x@),
{
    let m = s.map_values(|y: T| y@);
    assert(s.push(x).map_values(|y: T| y@) =~= m.push(x@));
    assert forall|a: T::V| m.push(x@).contains(a) <==> m.to_set().insert(x@).contains(a) by {
        if m.contains(a) {
            let i = choose|i: int| 0 <= i < m.len() && m[i] == a;
            assert(m.push(x@)[i] == a);
        }
        if a == x@ {
            assert(m.push(x@)[m.len() as int] == a);
        }
        if m.push(x@).contains(a) {
            let i = choose|i: int| 0 <= i < m.len() + 1 && m.push(x@)[i] == a;
            if i < m.len() {
                assert(m[i] == a);
            }
        }
    }
    assert(m.push(x@).to_set() =~= m.to_set().insert(x@));
}

impl<T: InputId> InputSet<T> {
    pub fn new() -> (r: Self)
        ensures
            r@ == Set::<T::V>::empty(),
    {
        let r = InputSet { items: Vec::new() };
        assert(r@ =~= Set::<T::V>::empty());
        r
    }

    pub fn contains(&self, item: &T) -> (r: bool)
        ensures
            r == self@.contains(item@),
    {
        let mut i: usize = 0;
        while i < self.items.len()
            invariant
                i <= self.items@.len(),
                forall|j: int| 0 <= j < i ==> #[trigger] self.items@[j]@ != item@,
            decreases self.items@.len() - i,
        {
            if self.items[i].same_as(item) {
                assert(self.items@.map_values(|x: T| x@)[i as int] == item@);
                return true;
            }
            i = i + 1;
        }
        assert(!self@.contains(item@)) by {
            if self@.contains(item@) {
                let m = self.items@.map_values(|x: T| x@);
                let k = choose|k: int| 0 <= k < m.len() && m[k] == item@;
                assert(self.items@[k]@ == item@);
            }
        }
        false
    }

    /// Adds `item`; answers whether it was absent before.
    pub fn insert(&mut self, item: T) -> (r: bool)
        ensures
            final(self)@ == old(self)@.insert(item@),
            r == !old(self)@.contains(item@),
    {
        if self.contains(&item) {
            assert(old(self)@.insert(item@) =~= old(self)@);
            false
        } else {
            proof {
                lemma_push_view(self.items@, item);
            }
            self.items.push(item);
            true
        }
    }

    /// Removes `item` where present.
    pub fn remove(&mut self, item: &T)
        ensures
            final(self)@ == old(self)@.remove(item@),
    {
        let ghost target = old(self)@.remove(item@);
        let mut i: usize = 0;
        while i < self.items.len()
            invariant
                i <= self.items@.len(),
                self@.remove(item@) == target,
                forall|j: int| 0 <= j < i ==> #[trigger] self.items@[j]@ != item@,
            decreases self.items@.len() - i,
        {
            if self.items[i].same_as(item) {
                let ghost before = self.items@;
                self.items.swap_remove(i);
                proof {
                    let mb = before.map_values(|x: T| x@);
                    let ma = self.items@.map_values(|x: T| x@);
                    assert forall|a: T::V| a != item@ implies (ma.contains(a) <==> mb.contains(a)) by {
                        if mb.contains(a) {
                            let k = choose|k: int| 0 <= k < mb.len() && mb[k] == a;
                            if k == before.len() - 1 {
                                assert(ma[i as int] == a);
                            } else {
                                assert(k != i);
                                assert(ma[k] == a);
                            }
                        }
                        if ma.contains(a) {
                            let k = choose|k: int| 0 <= k < ma.len() && ma[k] == a;
                            if k == i {
                                assert(mb[before.len() - 1] == a);
                            } else {
                                assert(mb[k] == a);
                            }
                        }
                    }
                    assert(self@.remove(item@) =~= target);
                }
            } else {
                i = i + 1;
            }
        }
        assert(!self@.contains(item@)) by {
            if self@.contains(item@) {
                let m = self.items@.map_values(|x: T| x@);
                let k = choose|k: int| 0 <= k < m.len() && m[k] == item@;
                assert(self.items@[k]@ == item@);
            }
        }
        assert(self@ =~= target);
    }

    pub fn clear(&mut self)
        ensures
            final(self)@ == Set::<T::V>::empty(),
    {
        self.items.clear();
        assert(self@ =~= Set::<T::V>::empty());
    }
}

/// Which keys and mouse buttons are held, and which went down or up since
/// the temporary state was last cleared.
pub struct InputManager {
    pub key_pressed: InputSet<InputKey>,
    pub key_down: InputSet<InputKey>,
    pub key_released: InputSet<InputKey>,
    pub button_pressed: InputSet<MouseButtonInput>,
    pub button_down: InputSet<MouseButtonInput>,
    pub button_released: InputSet<MouseButtonInput>,
}

/// The contents of an `InputManager`.
pub struct InputView {
    pub key_pressed: Set<(bool, Seq<char>)>,
    pub key_down: Set<(bool, Seq<char>)>,
    pub key_released: Set<(bool, Seq<char>)>,
    pub button_pressed: Set<MouseButtonInput>,
    pub button_down: Set<MouseButtonInput>,
    pub button_released: Set<MouseButtonInput>,
}

impl View for InputManager {
    type V = InputView;

    open spec fn view(&self) -> InputView {
        InputView {
            key_pressed: self.key_pressed@,
            key_down: self.key_down@,
            key_released: self.key_released@,
            button_pressed: self.button_pressed@,
            button_down: self.button_down@,
            button_released: self.button_released@,
        }
    }
}

/// The state after the recorded key `k` goes down: it is held, and it counts
/// as pressed this frame when it was not held before.
pub open spec fn after_key_down(s: InputView, k: (bool, Seq<char>)) -> InputView {
    InputView {
        key_down: s.key_down.insert(k),
        key_pressed: if s.key_down.contains(k) {
            s.key_pressed
        } else {
            s.key_pressed.insert(k)
        },
        ..s
    }
}

/// The state after the recorded key `k` goes up: it is no longer held, and
/// it counts as released this frame.
pub open spec fn after_key_up(s: InputView, k: (bool, Seq<char>)) -> InputView {
    InputView { key_down: s.key_down.remove(k), key_released: s.key_released.insert(k), ..s }
}

/// For any recorded key: going down holds it and counts it as pressed
/// exactly when it was not held, touching nothing else; going up frees it
/// and counts it as released, touching nothing else.
pub proof fn law_recorded_key_down_up(s: InputView, k: (bool, Seq<char>))
    ensures
        after_key_down(s, k).key_down == s.key_down.insert(k),
        !s.key_down.contains(k) ==> after_key_down(s, k).key_pressed == s.key_pressed.insert(k),
        s.key_down.contains(k) ==> after_key_down(s, k).key_pressed == s.key_pressed,
        after_key_down(s, k).key_released == s.key_released,
        after_key_down(s, k).button_down == s.button_down,
        after_key_down(s, k).button_pressed == s.button_pressed,
        after_key_down(s, k).button_released == s.button_released,
        after_key_up(s, k).key_down == s.key_down.remove(k),
        after_key_up(s, k).key_released == s.key_released.insert(k),
        after_key_up(s, k).key_pressed == s.key_pressed,
        after_key_up(s, k).button_down == s.button_down,
        after_key_up(s, k).button_pressed == s.button_pressed,
        after_key_up(s, k).button_released == s.button_released,
{
}

/// The state after the key `key` goes down, recorded by its normalized form.
pub open spec fn after_key_press(s: InputView, key: (bool, Seq<char>)) -> InputView {
    after_key_down(s, normalized_key(key))
}

/// The state after the key `key` goes up, recorded by its normalized form.
pub open spec fn after_key_release(s: InputView, key: (bool, Seq<char>)) -> InputView {
    after_key_up(s, normalized_key(key))
}

/// The state after the button `b` goes down.
pub open spec fn after_button_press(s: InputView, b: MouseButtonInput) -> InputView {
    InputView {
        button_down: s.button_down.insert(b),
        button_pressed: if s.button_down.contains(b) {
            s.button_pressed
        } else {
            s.button_pressed.insert(b)
        },
        ..s
    }
}

/// The state after the button `b` goes up.
pub open spec fn after_button_release(s: InputView, b: MouseButtonInput) -> InputView {
    InputView { button_down: s.button_down.remove(b), button_released: s.button_released.insert(b), ..s }
}

/// The state at the start of a new frame: what went down or up is forgotten,
/// what is held stays held.
pub open spec fn after_clear_temp(s: InputView) -> InputView {
    InputView {
        key_pressed: Set::empty(),
        key_released: Set::empty(),
        button_pressed: Set::empty(),
        button_released: Set::empty(),
        ..s
    }
}

impl InputManager {
    pub fn new() -> (r: InputManager)
        ensures
            r@ == (InputView {
                key_pressed: Set::empty(),
                key_down: Set::empty(),
                key_released: Set::empty(),
                button_pressed: Set::empty(),
                button_down: Set::empty(),
                button_released: Set::empty(),
            }),
    {
        InputManager {
            key_pressed: InputSet::new(),
            key_down: InputSet::new(),
            key_released: InputSet::new(),
            button_pressed: InputSet::new(),
            button_down: InputSet::new(),
            button_released: InputSet::new(),
        }
    }

    /// A text key is recorded by its lowercase text.
    fn normalize(key_code: InputKey) -> (r: InputKey)
        ensures
            r@ == normalized_key(key_code@),
    {
        match key_code {
            InputKey::Character(s) => InputKey::Character(to_lowercase(s.as_str())),
            other => other,
        }
    }

    /// Records that the key `key`, already in its recorded form, went down.
    pub fn record_key_down(&mut self, key: InputKey)
        ensures
            final(self)@ == after_key_down(old(self)@, key@),
    {
        let newly_down = self.key_down.insert(key.duplicate());
        if newly_down {
            self.key_pressed.insert(key);
        }
    }

    /// Records that the key `key`, already in its recorded form, went up.
    pub fn record_key_up(&mut self, key: InputKey)
        ensures
            final(self)@ == after_key_up(old(self)@, key@),
    {
        self.key_down.remove(&key);
        self.key_released.insert(key);
    }

    /// Records that the key `key_code` went down; text keys are recorded by
    /// their lowercase text.
    pub fn process_key_press(&mut self, key_code: InputKey)
        ensures
            final(self)@ == after_key_press(old(self)@, key_code@),
    {
        self.record_key_down(Self::normalize(key_code));
    }

    /// Records that the key `key_code` went up; text keys are recorded by
    /// their lowercase text.
    pub fn process_key_release(&mut self, key_code: InputKey)
        ensures
            final(self)@ == after_key_release(old(self)@, key_code@),
    {
        self.record_key_up(Self::normalize(key_code));
    }

    pub fn process_button_press(&mut self, button: MouseButtonInput)
        ensures
            final(self)@ == after_button_press(old(self)@, button),
    {
        let newly_down = self.button_down.insert(button);
        if newly_down {
            self.button_pressed.insert(button);
        }
    }

    pub fn process_button_release(&mut self, button: MouseButtonInput)
        ensures
            final(self)@ == after_button_release(old(self)@, button),
    {
        self.button_down.remove(&button);
        self.button_released.insert(button);
    }

    /// Forgets which keys and buttons went down or up.
    pub fn clear_temp(&mut self)
        ensures
            final(self)@ == after_clear_temp(old(self)@),
    {
        self.key_pressed.clear();
        self.key_released.clear();
        self.button_pressed.clear();
        self.button_released.clear();
    }
}

impl Default for InputManager {
    fn default() -> (r: Self)
        ensures
            r@ == (InputView {
                key_pressed: Set::empty(),
                key_down: Set::empty(),
                key_released: Set::empty(),
                button_pressed: Set::empty(),
                button_down: Set::empty(),
                button_released: Set::empty(),
            }),
    {
        Self::new()
    }
}

/// A key that goes down is held afterwards, and a key that goes up is not.
pub proof fn law_press_holds_release_frees(s: InputView, key: (bool, Seq<char>))
    ensures
        after_key_press(s, key).key_down.contains(normalized_key(key)),
        !after_key_release(s, key).key_down.contains(normalized_key(key)),
        after_key_release(s, key).key_released.contains(normalized_key(key)),
{
}

/// A key counts as pressed in a frame only when it goes down while not held:
/// going down again while held leaves the pressed keys as they were.
pub proof fn law_press_of_held_key_is_not_new(s: InputView, key: (bool, Seq<char>))
    requires
        s.key_down.contains(normalized_key(key)),
    ensures
        after_key_press(s, key).key_pressed == s.key_pressed,
        after_key_press(s, key).key_down == s.key_down,
{
    assert(s.key_down.insert(normalized_key(key)) =~= s.key_down);
}

/// Pressing a key that was not held and releasing it again leaves the held
/// keys as they were.
pub proof fn law_release_undoes_press(s: InputView, key: (bool, Seq<char>))
    requires
        !s.key_down.contains(normalized_key(key)),
    ensures
        after_key_release(after_key_press(s, key), key).key_down == s.key_down,
{
    assert(s.key_down.insert(normalized_key(key)).remove(normalized_key(key)) =~= s.key_down);
}

/// A key held across a new frame is not pressed again in that frame: it
/// counts as pressed once, in the frame it went down.
pub proof fn law_held_key_pressed_once(s: InputView, key: (bool, Seq<char>))
    ensures
        after_key_press(after_clear_temp(after_key_press(s, key)), key).key_pressed.is_empty(),
        after_key_press(after_clear_temp(after_key_press(s, key)), key).key_down.contains(normalized_key(key)),
{
}

/// Starting a new frame forgets what went down or up and keeps what is held.
pub proof fn law_clear_keeps_held(s: InputView)
    ensures
        after_clear_temp(s).key_down == s.key_down,
        after_clear_temp(s).button_down == s.button_down,
        after_clear_temp(s).key_pressed.is_empty(),
        after_clear_temp(s).key_released.is_empty(),
        after_clear_temp(s).button_pressed.is_empty(),
        after_clear_temp(s).button_released.is_empty(),
{
}

/// Key events leave the mouse buttons alone, and button events the keys.
pub proof fn law_keys_and_buttons_independent(s: InputView, key: (bool, Seq<char>), b: MouseButtonInput)
    ensures
        after_key_press(s, key).button_down == s.button_down,
        after_key_press(s, key).button_pressed == s.button_pressed,
        after_key_release(s, key).button_down == s.button_down,
        after_key_release(s, key).button_released == s.button_released,
        after_button_press(s, b).key_down == s.key_down,
        after_button_press(s, b).key_pressed == s.key_pressed,
        after_button_release(s, b).key_down == s.key_down,
        after_button_release(s, b).key_released == s.key_released,
{
}

/// The same rules hold for mouse buttons: a button held across a new frame
/// counts as pressed once, and releasing a button that was pressed from
/// rest leaves the held buttons as they were.
pub proof fn law_button_press_release(s: InputView, b: MouseButtonInput)
    ensures
        after_button_press(s, b).button_down.contains(b),
        !after_button_release(s, b).button_down.contains(b),
        after_button_press(after_clear_temp(after_button_press(s, b)), b).button_pressed.is_empty(),
        !s.button_down.contains(b) ==> after_button_release(after_button_press(s, b), b).button_down
            == s.button_down,
{
    assert(!s.button_down.contains(b) ==> s.button_down.insert(b).remove(b) =~= s.button_down);
}

/// Any key, text or not, that goes down while not held is held afterwards
/// and counts as pressed this frame; going up it counts as released. The
/// other sets are left alone.
pub proof fn law_unheld_key_press_is_pressed(s: InputView, key: (bool, Seq<char>))
    ensures
        !s.key_down.contains(normalized_key(key)) ==> after_key_press(s, key).key_pressed == s.key_pressed.insert(
            normalized_key(key),
        ),
        after_key_press(s, key).key_down == s.key_down.insert(normalized_key(key)),
        after_key_press(s, key).key_released == s.key_released,
        after_key_release(s, key).key_released == s.key_released.insert(normalized_key(key)),
        after_key_release(s, key).key_down == s.key_down.remove(normalized_key(key)),
        after_key_release(s, key).key_pressed == s.key_pressed,
{
}

/// The same holds of mouse buttons: a button that goes down while not held
/// counts as pressed, and one that goes up counts as released.
pub proof fn law_unheld_button_press_is_pressed(s: InputView, b: MouseButtonInput)
    ensures
        !s.button_down.contains(b) ==> after_button_press(s, b).button_pressed == s.button_pressed.insert(b),
        after_button_press(s, b).button_down == s.button_down.insert(b),
        after_button_press(s, b).button_released == s.button_released,
        after_button_release(s, b).button_released == s.button_released.insert(b),
        after_button_release(s, b).button_down == s.button_down.remove(b),
        after_button_release(s, b).button_pressed == s.button_pressed,
{
}

/// Keys are recorded with text keys by their lowercase text and other keys
/// as given; a text key and another key are never confused.
pub proof fn law_key_normalization(text: Seq<char>, name: Seq<char>)
    ensures
        normalized_key((true, text)) == (true, lowercase_text(text)),
        normalized_key((false, name)) == (false, name),
        normalized_key((true, text)) != normalized_key((false, name)),
{
}

} // verus!
