//! The directional input of one frame: the set of keys held down.

use vstd::prelude::*;

verus! {

/// A directional key.
#[derive(Clone, Copy, Debug, PartialEq, Eq, Structural)]
pub enum Key {
    Up,
    Down,
    Left,
    Right,
}

/// The keys held down during a frame.
#[derive(Clone, Copy, Debug, PartialEq, Eq, Structural)]
pub struct Keys {
    pub up: bool,
    pub down: bool,
    pub left: bool,
    pub right: bool,
}

impl View for Keys {
    type V = Set<Key>;

    open spec fn view(&self) -> Set<Key> {
        Set::new(|key: Key| self.holds(key))
    }
}

impl Keys {
    /// Whether `key` is among the keys held down.
    pub open spec fn holds(&self, key: Key) -> bool {
        match key {
            Key::Up => self.up,
            Key::Down => self.down,
            Key::Left => self.left,
            Key::Right => self.right,
        }
    }

    /// No key held down.
    pub fn none() -> (r: Keys)
        ensures
            r@ == Set::<Key>::empty(),
    {
        let r = Keys { up: false, down: false, left: false, right: false };
        assert(r@ =~= Set::<Key>::empty());
        r
    }

    /// The same keys and `key`.
    pub fn with(self, key: Key) -> (r: Keys)
        ensures
            r@ == self@.insert(key),
    {
        let r = match key {
            Key::Up => Keys { up: true, ..self },
            Key::Down => Keys { down: true, ..self },
            Key::Left => Keys { left: true, ..self },
            Key::Right => Keys { right: true, ..self },
        };
        assert(r@ =~= self@.insert(key));
        r
    }

    /// Whether `key` is held down.
    pub fn is_pressed(&self, key: Key) -> (r: bool)
        ensures
            r == self@.contains(key),
    {
        match key {
            Key::Up => self.up,
            Key::Down => self.down,
            Key::Left => self.left,
            Key::Right => self.right,
        }
    }
}

} // verus!
