//! The input of one tick: which keys are held, and which were pressed since
//! the tick before.

use vstd::prelude::*;
use crate::entities::Facing;

verus! {

/// The keys the simulation reacts to.
#[derive(Clone, Copy, Debug, PartialEq, Eq, Structural)]
pub enum Key {
    Left,
    Right,
    Up,
    Down,
    Attack,
    Interact,
}

/// A set of keys, one flag for each.
#[derive(Clone, Copy, Debug, PartialEq, Eq, Structural)]
pub struct KeySet {
    pub left: bool,
    pub right: bool,
    pub up: bool,
    pub down: bool,
    pub attack: bool,
    pub interact: bool,
}

/// What the outside reports for one tick. `held` are the keys that are down
/// now; `pressed` are those that went down since the last tick; `line_width`
/// is the width that the text renderer measured for the dialogue's pending
/// line, and counts only in a tick that reveals a character.
#[derive(Clone, Copy, Debug, PartialEq, Eq, Structural)]
pub struct Input {
    pub held: KeySet,
    pub pressed: KeySet,
    pub line_width: u32,
}

impl KeySet {
    /// Whether `key` is in the set.
    pub open spec fn has(self, key: Key) -> bool {
        match key {
            Key::Left => self.left,
            Key::Right => self.right,
            Key::Up => self.up,
            Key::Down => self.down,
            Key::Attack => self.attack,
            Key::Interact => self.interact,
        }
    }

    /// The set with no key in it.
    pub open spec fn no_keys() -> KeySet {
        KeySet { left: false, right: false, up: false, down: false, attack: false, interact: false }
    }

    /// The set with no key in it.
    #[verifier::when_used_as_spec(no_keys)]
    pub fn empty() -> (keys: KeySet)
        ensures
            keys == KeySet::no_keys(),
    {
        KeySet { left: false, right: false, up: false, down: false, attack: false, interact: false }
    }

    /// Whether `key` is in the set.
    #[verifier::when_used_as_spec(has)]
    pub fn contains(self, key: Key) -> (found: bool)
        ensures
            found == self.has(key),
    {
        match key {
            Key::Left => self.left,
            Key::Right => self.right,
            Key::Up => self.up,
            Key::Down => self.down,
            Key::Attack => self.attack,
            Key::Interact => self.interact,
        }
    }

    /// Puts `key` into the set, or takes it out.
    pub fn set(&mut self, key: Key, present: bool)
        ensures
            final(self).has(key) == present,
            forall|other: Key| other != key ==> final(self).has(other) == old(self).has(other),
    {
        match key {
            Key::Left => {
                self.left = present;
            },
            Key::Right => {
                self.right = present;
            },
            Key::Up => {
                self.up = present;
            },
            Key::Down => {
                self.down = present;
            },
            Key::Attack => {
                self.attack = present;
            },
            Key::Interact => {
                self.interact = present;
            },
        }
    }
}

impl Input {
    /// The input of a tick in which no key is held and none was pressed.
    pub fn idle() -> (input: Input)
        ensures
            input == (Input { held: KeySet::no_keys(), pressed: KeySet::no_keys(), line_width: 0 }),
    {
        Input { held: KeySet::empty(), pressed: KeySet::empty(), line_width: 0 }
    }

    /// Whether `key` is down in this tick.
    pub fn is_key_down(&self, key: Key) -> (down: bool)
        ensures
            down == self.held.has(key),
    {
        self.held.contains(key)
    }

    /// Whether `key` went down since the tick before.
    pub fn is_key_pressed(&self, key: Key) -> (pressed: bool)
        ensures
            pressed == self.pressed.has(key),
    {
        self.pressed.contains(key)
    }
}

/// The direction the held keys ask for. Only one key counts in a tick: the
/// first that is held, in the order left, right, up, down.
pub open spec fn direction_held(held: KeySet) -> Facing {
    if held.left {
        Facing::Left
    } else if held.right {
        Facing::Right
    } else if held.up {
        Facing::Up
    } else if held.down {
        Facing::Down
    } else {
        Facing::Idle
    }
}

/// Resolves the held keys to one direction, by their fixed priority.
#[verifier::when_used_as_spec(direction_held)]
pub fn walk_direction(held: KeySet) -> (direction: Facing)
    ensures
        direction == direction_held(held),
{
    if held.left {
        Facing::Left
    } else if held.right {
        Facing::Right
    } else if held.up {
        Facing::Up
    } else if held.down {
        Facing::Down
    } else {
        Facing::Idle
    }
}

} // verus!
