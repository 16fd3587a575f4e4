//! The 16-key hexadecimal keyboard: per-key press state, plus the search
//! for the lowest-indexed pressed key used by the wait-for-key opcode.

use vstd::prelude::*;

verus! {

/// Number of keys.
pub const KEY_COUNT: usize = 16;

/// Whether any of the sixteen keys is pressed.
pub open spec fn spec_any_pressed(keys: Seq<bool>) -> bool {
    exists|k: int| 0 <= k < KEY_COUNT && keys[k]
}

/// The lowest pressed key index at or above `k`, or 16 when no key at or
/// above `k` is pressed.
pub open spec fn spec_first_pressed_from(keys: Seq<bool>, k: int) -> int
    decreases KEY_COUNT - k,
{
    if k < 0 || k >= KEY_COUNT {
        KEY_COUNT as int
    } else if keys[k] {
        k
    } else {
        spec_first_pressed_from(keys, k + 1)
    }
}

/// The lowest pressed key index, or 16 when no key is pressed.
pub open spec fn spec_first_pressed(keys: Seq<bool>) -> int {
    spec_first_pressed_from(keys, 0)
}

/// Law: the lowest-pressed-key search returns 16 exactly when no key is
/// pressed, and otherwise the index of a pressed key below which every key
/// is released.
pub proof fn lemma_first_pressed(keys: Seq<bool>, k: int)
    requires
        keys.len() == KEY_COUNT,
        0 <= k <= KEY_COUNT,
    ensures
        ({
            let r = spec_first_pressed_from(keys, k);
            &&& (r == KEY_COUNT <==> forall|j: int| k <= j < KEY_COUNT ==> !keys[j])
            &&& (r < KEY_COUNT ==> k <= r && keys[r] && (forall|j: int| k <= j < r ==> !keys[j]))
        }),
    decreases KEY_COUNT - k,
{
    if k < KEY_COUNT && !keys[k] {
        lemma_first_pressed(keys, k + 1);
    }
}

/// A keyboard of sixteen hexadecimal keys (0-9, A-F), each represented by a
/// boolean: true for pressed.
pub struct ChipKeyboard {
    keys: Vec<bool>,
}

impl ChipKeyboard {
    /// The sixteen key states.
    pub closed spec fn keys(&self) -> Seq<bool> {
        self.keys@
    }

    /// Well-formedness: exactly sixteen keys.
    pub open spec fn wf(&self) -> bool {
        self.keys().len() == KEY_COUNT
    }

    /// Initialize the keyboard with every key released.
    pub fn init() -> (k: Self)
        ensures
            k.wf(),
            k.keys() =~= Seq::new(KEY_COUNT as nat, |j: int| false),
    {
        ChipKeyboard { keys: vec![false; 16] }
    }

    /// Whether any key is currently pressed.
    pub fn any_pressed(&self) -> (b: bool)
        requires
            self.wf(),
        ensures
            b == spec_any_pressed(self.keys()),
    {
        let mut i: usize = 0;
        while i < KEY_COUNT
            invariant
                self.wf(),
                i <= KEY_COUNT,
                forall|j: int| 0 <= j < i ==> !self.keys()[j],
            decreases KEY_COUNT - i,
        {
            if self.keys[i] {
                return true;
            }
            i = i + 1;
        }
        false
    }

    /// The index of the lowest pressed key, or 16 when no key is pressed.
    pub fn which_pressed(&self) -> (r: u8)
        requires
            self.wf(),
        ensures
            r as int == spec_first_pressed(self.keys()),
    {
        let mut i: usize = 0;
        while i < KEY_COUNT
            invariant
                self.wf(),
                i <= KEY_COUNT,
                spec_first_pressed(self.keys()) == spec_first_pressed_from(self.keys(), i as int),
            decreases KEY_COUNT - i,
        {
            if self.keys[i] {
                return i as u8;
            }
            i = i + 1;
        }
        16
    }

    /// Record a key press (true) or release (false) for key `index`.
    pub fn set_key(&mut self, index: u8, value: bool)
        requires
            old(self).wf(),
            index < KEY_COUNT,
        ensures
            final(self).wf(),
            final(self).keys() == old(self).keys().update(index as int, value),
    {
        self.keys[index as usize] = value;
    }

    /// Get the state of key `index`.
    pub fn get_key(&self, index: u8) -> (b: bool)
        requires
            self.wf(),
            index < KEY_COUNT,
        ensures
            b == self.keys()[index as int],
    {
        self.keys[index as usize]
    }
}

} // verus!
