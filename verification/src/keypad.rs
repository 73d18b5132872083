//! The sixteen-key input device.

use vstd::prelude::*;

verus! {

/// The lowest-numbered key from `from` up to 14 that is held down, if there
/// is one. Key 15 is never looked at.
pub open spec fn first_pressed(keys: Seq<bool>, from: int) -> Option<u8>
    decreases 15 - from,
{
    if from < 0 || from >= 15 {
        None
    } else if keys[from] {
        Some(from as u8)
    } else {
        first_pressed(keys, from + 1)
    }
}

/// Level-triggered state of the sixteen keys: a key is either held or not,
/// and the last write wins.
pub struct Keypad {
    keys: [bool; 16],
}

impl View for Keypad {
    type V = Seq<bool>;

    /// One flag per key, indexed by key number.
    closed spec fn view(&self) -> Seq<bool> {
        self.keys@
    }
}

impl Keypad {
    /// A keypad with every key released.
    pub fn new() -> (pad: Self)
        ensures
            pad@ == Seq::new(16, |k: int| false),
    {
        Self { keys: [false; 16] }
    }

    /// Records that `key` is held down.
    pub fn key_down(&mut self, key: u8)
        requires
            key < 16,
        ensures
            final(self)@ == old(self)@.update(key as int, true),
    {
        self.keys[key as usize] = true;
    }

    /// Records that `key` has been released.
    pub fn key_up(&mut self, key: u8)
        requires
            key < 16,
        ensures
            final(self)@ == old(self)@.update(key as int, false),
    {
        self.keys[key as usize] = false;
    }

    /// Whether `key` is currently held down.
    pub fn is_pressed(&self, key: u8) -> (pressed: bool)
        requires
            key < 16,
        ensures
            pressed == self@[key as int],
    {
        self.keys[key as usize]
    }
}

/// What `first_pressed` finds: the key it returns is held, lies in
/// `from..15` and has no held key of that range below it; it returns nothing
/// exactly when no key of that range is held.
pub proof fn lemma_first_pressed(keys: Seq<bool>, from: int)
    requires
        0 <= from,
    ensures
        match first_pressed(keys, from) {
            Some(key) => from <= key < 15 && keys[key as int] && forall|j: int|
                from <= j < key ==> !keys[j],
            None => forall|j: int| from <= j < 15 ==> !keys[j],
        },
    decreases 15 - from,
{
    if from < 15 && !keys[from] {
        lemma_first_pressed(keys, from + 1);
    }
}

/// Every keypad has exactly sixteen keys.
pub broadcast proof fn lemma_keypad_len(pad: Keypad)
    ensures
        #[trigger] pad@.len() == 16,
{
}

} // verus!
