use vstd::prelude::*;

verus! {

/// The keys that steer the camera.
#[derive(Clone, Copy, Debug, PartialEq, Eq, Structural)]
pub enum Key {
    Right,
    Left,
    Up,
    Down,
    /// Turns the camera clockwise (towards negative angles).
    RotateNegative,
    /// Turns the camera counter-clockwise (towards positive angles).
    RotatePositive,
}

/// A snapshot of which steering keys are held during one tick.
#[derive(Clone, Copy, Debug, PartialEq, Eq, Structural)]
pub struct KeyInput {
    pub right: bool,
    pub left: bool,
    pub up: bool,
    pub down: bool,
    pub rotate_negative: bool,
    pub rotate_positive: bool,
}

impl KeyInput {
    pub open spec fn is_pressed(self, key: Key) -> bool {
        match key {
            Key::Right => self.right,
            Key::Left => self.left,
            Key::Up => self.up,
            Key::Down => self.down,
            Key::RotateNegative => self.rotate_negative,
            Key::RotatePositive => self.rotate_positive,
        }
    }

    /// This snapshot with `key` set to `held`.
    pub open spec fn with_key(self, key: Key, held: bool) -> KeyInput {
        match key {
            Key::Right => KeyInput { right: held, ..self },
            Key::Left => KeyInput { left: held, ..self },
            Key::Up => KeyInput { up: held, ..self },
            Key::Down => KeyInput { down: held, ..self },
            Key::RotateNegative => KeyInput { rotate_negative: held, ..self },
            Key::RotatePositive => KeyInput { rotate_positive: held, ..self },
        }
    }

    /// No key is held.
    pub open spec fn is_idle(self) -> bool {
        forall|key: Key| !self.is_pressed(key)
    }

    /// A snapshot in which no key is held.
    pub fn new() -> (r: KeyInput)
        ensures
            r.is_idle(),
            r == (KeyInput {
                right: false,
                left: false,
                up: false,
                down: false,
                rotate_negative: false,
                rotate_positive: false,
            }),
    {
        KeyInput {
            right: false,
            left: false,
            up: false,
            down: false,
            rotate_negative: false,
            rotate_positive: false,
        }
    }

    /// Marks `key` as held.
    pub fn press(&mut self, key: Key)
        ensures
            *final(self) == old(self).with_key(key, true),
            forall|k: Key| final(self).is_pressed(k) == (k == key || old(self).is_pressed(k)),
    {
        match key {
            Key::Right => self.right = true,
            Key::Left => self.left = true,
            Key::Up => self.up = true,
            Key::Down => self.down = true,
            Key::RotateNegative => self.rotate_negative = true,
            Key::RotatePositive => self.rotate_positive = true,
        }
    }

    /// Marks `key` as no longer held.
    pub fn release(&mut self, key: Key)
        ensures
            *final(self) == old(self).with_key(key, false),
            forall|k: Key| final(self).is_pressed(k) == (k != key && old(self).is_pressed(k)),
    {
        match key {
            Key::Right => self.right = false,
            Key::Left => self.left = false,
            Key::Up => self.up = false,
            Key::Down => self.down = false,
            Key::RotateNegative => self.rotate_negative = false,
            Key::RotatePositive => self.rotate_positive = false,
        }
    }

    pub fn pressed(&self, key: Key) -> (r: bool)
        ensures
            r == self.is_pressed(key),
    {
        match key {
            Key::Right => self.right,
            Key::Left => self.left,
            Key::Up => self.up,
            Key::Down => self.down,
            Key::RotateNegative => self.rotate_negative,
            Key::RotatePositive => self.rotate_positive,
        }
    }
}

} // verus!
