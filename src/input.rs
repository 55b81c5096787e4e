use vstd::prelude::*;

verus! {

/// A key that the animation controller reacts to.
#[derive(Clone, Copy, Debug, PartialEq, Eq, Structural)]
pub enum Key {
    Space,
    ArrowUp,
    ArrowDown,
    ArrowLeft,
    ArrowRight,
    Enter,
    Digit1,
    Digit3,
    Digit5,
    KeyL,
}

/// The keys that went from released to pressed during one frame.
///
/// Presses are edges: a key held down over several frames appears only in
/// the first of them.
#[derive(Clone, Copy, Debug, PartialEq, Eq, Structural)]
pub struct KeyPresses {
    pub space: bool,
    pub up: bool,
    pub down: bool,
    pub left: bool,
    pub right: bool,
    pub enter: bool,
    pub digit1: bool,
    pub digit3: bool,
    pub digit5: bool,
    pub key_l: bool,
}

impl KeyPresses {
    /// Whether `key` was pressed in this frame.
    pub open spec fn pressed(self, key: Key) -> bool {
        match key {
            Key::Space => self.space,
            Key::ArrowUp => self.up,
            Key::ArrowDown => self.down,
            Key::ArrowLeft => self.left,
            Key::ArrowRight => self.right,
            Key::Enter => self.enter,
            Key::Digit1 => self.digit1,
            Key::Digit3 => self.digit3,
            Key::Digit5 => self.digit5,
            Key::KeyL => self.key_l,
        }
    }

    /// Whether `key` is pressed and no other key is.
    pub open spec fn presses_only(self, key: Key) -> bool {
        &&& self.space == (key == Key::Space)
        &&& self.up == (key == Key::ArrowUp)
        &&& self.down == (key == Key::ArrowDown)
        &&& self.left == (key == Key::ArrowLeft)
        &&& self.right == (key == Key::ArrowRight)
        &&& self.enter == (key == Key::Enter)
        &&& self.digit1 == (key == Key::Digit1)
        &&& self.digit3 == (key == Key::Digit3)
        &&& self.digit5 == (key == Key::Digit5)
        &&& self.key_l == (key == Key::KeyL)
    }

    /// A frame in which no key was pressed.
    pub fn none() -> (r: KeyPresses)
        ensures
            forall|k: Key| !r.pressed(k),
    {
        KeyPresses {
            space: false,
            up: false,
            down: false,
            left: false,
            right: false,
            enter: false,
            digit1: false,
            digit3: false,
            digit5: false,
            key_l: false,
        }
    }

    /// A frame in which `key` alone was pressed.
    pub fn only(key: Key) -> (r: KeyPresses)
        ensures
            r.presses_only(key),
    {
        KeyPresses {
            space: key == Key::Space,
            up: key == Key::ArrowUp,
            down: key == Key::ArrowDown,
            left: key == Key::ArrowLeft,
            right: key == Key::ArrowRight,
            enter: key == Key::Enter,
            digit1: key == Key::Digit1,
            digit3: key == Key::Digit3,
            digit5: key == Key::Digit5,
            key_l: key == Key::KeyL,
        }
    }

    /// Records a press of `key`; every other key keeps its state.
    pub fn press(&mut self, key: Key)
        ensures
            final(self).pressed(key),
            forall|k: Key| k != key ==> final(self).pressed(k) == old(self).pressed(k),
    {
        match key {
            Key::Space => self.space = true,
            Key::ArrowUp => self.up = true,
            Key::ArrowDown => self.down = true,
            Key::ArrowLeft => self.left = true,
            Key::ArrowRight => self.right = true,
            Key::Enter => self.enter = true,
            Key::Digit1 => self.digit1 = true,
            Key::Digit3 => self.digit3 = true,
            Key::Digit5 => self.digit5 = true,
            Key::KeyL => self.key_l = true,
        }
    }

    /// Whether `key` was pressed in this frame.
    pub fn is_pressed(&self, key: Key) -> (r: bool)
        ensures
            r == self.pressed(key),
    {
        match key {
            Key::Space => self.space,
            Key::ArrowUp => self.up,
            Key::ArrowDown => self.down,
            Key::ArrowLeft => self.left,
            Key::ArrowRight => self.right,
            Key::Enter => self.enter,
            Key::Digit1 => self.digit1,
            Key::Digit3 => self.digit3,
            Key::Digit5 => self.digit5,
            Key::KeyL => self.key_l,
        }
    }
}

} // verus!
