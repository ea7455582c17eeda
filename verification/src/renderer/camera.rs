//! Camera movement input.

use vstd::prelude::*;

verus! {

/// Direction keys of the fly camera.
#[derive(Debug, Clone, Copy, PartialEq, Eq)]
pub enum CameraKey {
    Forward,
    Backward,
    Left,
    Right,
    Up,
    Down,
}

/// Which movement keys are held down.
#[derive(Debug, Clone, Copy, PartialEq, Eq)]
pub struct KeysPressed {
    pub forward: bool,
    pub backward: bool,
    pub left: bool,
    pub right: bool,
    pub up: bool,
    pub down: bool,
}

impl Default for KeysPressed {
    fn default() -> (k: KeysPressed)
        ensures
            !k.forward && !k.backward && !k.left && !k.right && !k.up && !k.down,
    {
        KeysPressed { forward: false, backward: false, left: false, right: false, up: false, down: false }
    }
}

/// `keys` with `key` held exactly when `pressed`.
pub open spec fn with_key(keys: KeysPressed, key: CameraKey, pressed: bool) -> KeysPressed {
    match key {
        CameraKey::Forward => KeysPressed { forward: pressed, ..keys },
        CameraKey::Backward => KeysPressed { backward: pressed, ..keys },
        CameraKey::Left => KeysPressed { left: pressed, ..keys },
        CameraKey::Right => KeysPressed { right: pressed, ..keys },
        CameraKey::Up => KeysPressed { up: pressed, ..keys },
        CameraKey::Down => KeysPressed { down: pressed, ..keys },
    }
}

/// Whether `key` is held in `keys`.
pub open spec fn key_held(keys: KeysPressed, key: CameraKey) -> bool {
    match key {
        CameraKey::Forward => keys.forward,
        CameraKey::Backward => keys.backward,
        CameraKey::Left => keys.left,
        CameraKey::Right => keys.right,
        CameraKey::Up => keys.up,
        CameraKey::Down => keys.down,
    }
}

impl KeysPressed {
    /// Whether any movement key is held.
    pub fn any_pressed(&self) -> (b: bool)
        ensures
            b == (self.forward || self.backward || self.left || self.right || self.up || self.down),
    {
        self.forward || self.backward || self.left || self.right || self.up || self.down
    }

    /// Records a press or release of `key`.
    pub fn set(&mut self, key: CameraKey, pressed: bool)
        ensures
            *final(self) == with_key(*old(self), key, pressed),
            final(self).forward == (if key == CameraKey::Forward { pressed } else { old(self).forward }),
            final(self).backward == (if key == CameraKey::Backward { pressed } else { old(self).backward }),
            final(self).left == (if key == CameraKey::Left { pressed } else { old(self).left }),
            final(self).right == (if key == CameraKey::Right { pressed } else { old(self).right }),
            final(self).up == (if key == CameraKey::Up { pressed } else { old(self).up }),
            final(self).down == (if key == CameraKey::Down { pressed } else { old(self).down }),
    {
        match key {
            CameraKey::Forward => self.forward = pressed,
            CameraKey::Backward => self.backward = pressed,
            CameraKey::Left => self.left = pressed,
            CameraKey::Right => self.right = pressed,
            CameraKey::Up => self.up = pressed,
            CameraKey::Down => self.down = pressed,
        }
    }
}

} // verus!
