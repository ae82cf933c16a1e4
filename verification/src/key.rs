//! Abstract key presses and sequences of them.

use vstd::prelude::*;

verus! {

/// The code of a pressed key, without its modifiers.
#[derive(Clone, Copy, Debug, PartialEq, Eq, Structural)]
pub enum KeyCode {
    Char(char),
    F(u8),
    Backspace,
    Enter,
    Left,
    Right,
    Up,
    Down,
    Home,
    End,
    PageUp,
    PageDown,
    Tab,
    BackTab,
    Delete,
    Insert,
    Esc,
    Null,
}

/// A key press: a key code under at most one recognised modifier.
#[derive(Clone, Copy, Debug, PartialEq, Eq, Structural)]
pub enum Key {
    /// No modifier (or only shift).
    Plain(KeyCode),
    Ctrl(KeyCode),
    Alt(KeyCode),
    /// Any other combination of modifiers.
    Unknown(KeyCode),
}

/// An ordered sequence of key presses that has not been resolved yet.
#[derive(Clone, Debug, PartialEq, Eq)]
pub struct KeySequence {
    pub keys: Vec<Key>,
}

impl View for KeySequence {
    type V = Seq<Key>;

    open spec fn view(&self) -> Seq<Key> {
        self.keys@
    }
}

impl KeySequence {
    /// The empty sequence.
    pub fn new() -> (r: KeySequence)
        ensures
            r@ == Seq::<Key>::empty(),
    {
        KeySequence { keys: Vec::new() }
    }

    /// The sequence that holds `key` alone.
    pub fn single(key: Key) -> (r: KeySequence)
        ensures
            r@ == seq![key],
    {
        let mut keys: Vec<Key> = Vec::new();
        keys.push(key);
        KeySequence { keys }
    }

    /// A copy of this sequence with `key` appended.
    pub fn pushed(&self, key: Key) -> (r: KeySequence)
        ensures
            r@ == self@.push(key),
    {
        let mut keys: Vec<Key> = Vec::new();
        let mut i: usize = 0;
        while i < self.keys.len()
            invariant
                i <= self.keys.len(),
                keys@ == self.keys@.take(i as int),
            decreases self.keys.len() - i,
        {
            keys.push(self.keys[i]);
            assert(self.keys@.take(i as int).push(self.keys@[i as int]) == self.keys@.take(
                i as int + 1,
            ));
            i += 1;
        }
        assert(self.keys@.take(self.keys.len() as int) == self.keys@);
        keys.push(key);
        KeySequence { keys }
    }

    /// Whether `other` starts with every key of this sequence, in order.
    pub fn is_prefix(&self, other: &KeySequence) -> (r: bool)
        ensures
            r == self@.is_prefix_of(other@),
    {
        if self.keys.len() > other.keys.len() {
            return false;
        }
        let mut i: usize = 0;
        while i < self.keys.len()
            invariant
                i <= self.keys.len(),
                self.keys.len() <= other.keys.len(),
                forall|j: int| 0 <= j < i ==> self.keys@[j] == other.keys@[j],
            decreases self.keys.len() - i,
        {
            if self.keys[i] != other.keys[i] {
                return false;
            }
            i += 1;
        }
        true
    }

    /// Whether the two sequences hold the same keys in the same order.
    pub fn same_keys(&self, other: &KeySequence) -> (r: bool)
        ensures
            r == (self@ == other@),
    {
        if self.keys.len() != other.keys.len() {
            return false;
        }
        let r = self.is_prefix(other);
        proof {
            if r {
                assert(self@ =~= other@);
            }
        }
        r
    }
}

} // verus!
