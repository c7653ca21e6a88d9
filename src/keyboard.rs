use crate::input::{ButtonState, ElementState};
use vstd::prelude::*;

verus! {

/// The states of a fixed set of keys (or of gamepad buttons), one per key
/// identifier from `0` to `len - 1`. Identifiers out of that range are not
/// tracked.
pub struct Keyboard {
    keys: Vec<ButtonState>,
}

/// The key states after one raw event: the key takes the state that the
/// event sets; an identifier that is not tracked changes nothing.
pub open spec fn keys_on_event(keys: Seq<ButtonState>, state: ElementState, key: usize) -> Seq<
    ButtonState,
> {
    if key < keys.len() {
        keys.update(key as int, state.target())
    } else {
        keys
    }
}

/// The key states at the start of the next frame: every key collapsed.
pub open spec fn keys_collapsed(keys: Seq<ButtonState>) -> Seq<ButtonState> {
    keys.map_values(|s: ButtonState| s.collapsed())
}

impl View for Keyboard {
    type V = Seq<ButtonState>;

    closed spec fn view(&self) -> Seq<ButtonState> {
        self.keys@
    }
}

impl Keyboard {
    /// A keyboard of `count` keys, all up.
    pub fn new(count: usize) -> (k: Keyboard)
        ensures
            k@ == Seq::new(count as nat, |_i: int| ButtonState::NotPressed),
    {
        let mut keys: Vec<ButtonState> = Vec::new();
        let mut i: usize = 0;
        while i < count
            invariant
                i <= count,
                keys@ == Seq::new(i as nat, |_i: int| ButtonState::NotPressed),
            decreases count - i,
        {
            keys.push(ButtonState::NotPressed);
            i = i + 1;
            assert(keys@ =~= Seq::new(i as nat, |_i: int| ButtonState::NotPressed));
        }
        Keyboard { keys }
    }

    /// The number of tracked keys.
    pub fn len(&self) -> (r: usize)
        ensures
            r == self@.len(),
    {
        self.keys.len()
    }

    /// Apply one raw key event. Identifiers out of range are ignored.
    pub fn process_key(&mut self, state: ElementState, key: usize)
        ensures
            final(self)@ == keys_on_event(old(self)@, state, key),
    {
        if key < self.keys.len() {
            self.keys.set(key, state.to_button_state());
        }
    }

    /// Advance to the next frame: every edge state becomes its steady state.
    pub fn clear_temporary_states(&mut self)
        ensures
            final(self)@ == keys_collapsed(old(self)@),
    {
        let ghost start = self@;
        let n = self.keys.len();
        let mut i: usize = 0;
        while i < n
            invariant
                n == start.len(),
                self@.len() == n,
                i <= n,
                forall|j: int| 0 <= j < i ==> self@[j] == start[j].collapsed(),
                forall|j: int| i <= j < n ==> self@[j] == start[j],
            decreases n - i,
        {
            let s = self.keys[i].clear_temporary();
            self.keys.set(i, s);
            i = i + 1;
        }
        assert(self@ =~= keys_collapsed(start));
    }

    /// The current state of `key`, or `None` for an identifier out of range.
    pub fn state(&self, key: usize) -> (r: Option<ButtonState>)
        ensures
            key < self@.len() ==> r == Some(self@[key as int]),
            key >= self@.len() ==> r is None,
    {
        if key < self.keys.len() {
            Some(self.keys[key])
        } else {
            None
        }
    }
}

/// Key identifiers out of range leave every tracked key as it was.
pub proof fn lemma_untracked_key_ignored(keys: Seq<ButtonState>, state: ElementState, key: usize)
    requires
        key >= keys.len(),
    ensures
        keys_on_event(keys, state, key) == keys,
{
}

/// Collapsing every key twice is the same as collapsing once.
pub proof fn lemma_keys_collapse_idempotent(keys: Seq<ButtonState>)
    ensures
        keys_collapsed(keys_collapsed(keys)) == keys_collapsed(keys),
{
    assert(keys_collapsed(keys_collapsed(keys)) =~= keys_collapsed(keys));
}

} // verus!
