//! Key combinations.

use vstd::prelude::*;

verus! {

/// A set of keys that are pressed together.
#[derive(Debug)]
pub struct KeyShortcut {
    keys: Vec<char>,
}

impl View for KeyShortcut {
    type V = Seq<char>;

    closed spec fn view(&self) -> Seq<char> {
        self.keys@
    }
}

impl KeyShortcut {
    pub fn new(keys: Vec<char>) -> (shortcut: KeyShortcut)
        ensures
            shortcut@ == keys@,
    {
        KeyShortcut { keys }
    }

    /// Whether every one of `keys` is a key of the shortcut, in whatever
    /// order and however often it is given.
    pub fn equals_permut(&self, keys: &[char]) -> (all: bool)
        ensures
            all == forall|i: int| 0 <= i < keys@.len() ==> self@.contains(#[trigger] keys@[i]),
    {
        let mut i: usize = 0;
        while i < keys.len()
            invariant
                i <= keys@.len(),
                forall|j: int| 0 <= j < i ==> self@.contains(#[trigger] keys@[j]),
            decreases keys.len() - i,
        {
            let key = keys[i];
            let mut found = false;
            let mut k: usize = 0;
            while k < self.keys.len()
                invariant
                    k <= self.keys@.len(),
                    found == exists|j: int| 0 <= j < k && self.keys@[j] == key,
                decreases self.keys.len() - k,
            {
                if self.keys[k] == key {
                    found = true;
                }
                k += 1;
            }
            if !found {
                proof {
                    assert(!self@.contains(keys@[i as int]));
                }
                return false;
            }
            proof {
                let j = choose|j: int| 0 <= j < self.keys@.len() && self.keys@[j] == key;
                assert(self@[j] == key);
            }
            i += 1;
        }
        true
    }
}

} // verus!
