use vstd::prelude::*;

verus! {

/// The sixteen physical keys that drive the hexadecimal keypad.
///
/// The keypad is a 4x4 grid; the physical block `1234 / QWER / ASDF / ZXCV`
/// stands for the logical block `123C / 456D / 789E / A0BF`.
#[derive(Debug, Clone, Copy, PartialEq, Eq, Structural)]
pub enum Keys {
    Key1,
    Key2,
    Key3,
    Key4,
    KeyQ,
    KeyW,
    KeyE,
    KeyR,
    KeyA,
    KeyS,
    KeyD,
    KeyF,
    KeyZ,
    KeyX,
    KeyC,
    KeyV,
}

impl Keys {
    /// The logical keypad slot (0 to 15) that a physical key stands for.
    pub open spec fn logical(self) -> int {
        match self {
            Keys::Key1 => 0x1,
            Keys::Key2 => 0x2,
            Keys::Key3 => 0x3,
            Keys::Key4 => 0xC,
            Keys::KeyQ => 0x4,
            Keys::KeyW => 0x5,
            Keys::KeyE => 0x6,
            Keys::KeyR => 0xD,
            Keys::KeyA => 0x7,
            Keys::KeyS => 0x8,
            Keys::KeyD => 0x9,
            Keys::KeyF => 0xE,
            Keys::KeyZ => 0xA,
            Keys::KeyX => 0x0,
            Keys::KeyC => 0xB,
            Keys::KeyV => 0xF,
        }
    }

    /// The logical keypad slot of this key.
    pub fn index(self) -> (slot: u8)
        ensures
            slot == self.logical(),
            slot < 16,
    {
        match self {
            Keys::Key1 => 0x1,
            Keys::Key2 => 0x2,
            Keys::Key3 => 0x3,
            Keys::Key4 => 0xC,
            Keys::KeyQ => 0x4,
            Keys::KeyW => 0x5,
            Keys::KeyE => 0x6,
            Keys::KeyR => 0xD,
            Keys::KeyA => 0x7,
            Keys::KeyS => 0x8,
            Keys::KeyD => 0x9,
            Keys::KeyF => 0xE,
            Keys::KeyZ => 0xA,
            Keys::KeyX => 0x0,
            Keys::KeyC => 0xB,
            Keys::KeyV => 0xF,
        }
    }

    /// Two different physical keys never share a keypad slot, and every slot
    /// has its key.
    pub proof fn lemma_layout_is_one_to_one(a: Keys, b: Keys, slot: int)
        ensures
            0 <= a.logical() < 16,
            a != b ==> a.logical() != b.logical(),
            0 <= slot < 16 ==> exists|k: Keys| #[trigger] k.logical() == slot,
    {
        if 0 <= slot < 16 {
            let k = if slot == 0x0 {
                Keys::KeyX
            } else if slot == 0x1 {
                Keys::Key1
            } else if slot == 0x2 {
                Keys::Key2
            } else if slot == 0x3 {
                Keys::Key3
            } else if slot == 0x4 {
                Keys::KeyQ
            } else if slot == 0x5 {
                Keys::KeyW
            } else if slot == 0x6 {
                Keys::KeyE
            } else if slot == 0x7 {
                Keys::KeyA
            } else if slot == 0x8 {
                Keys::KeyS
            } else if slot == 0x9 {
                Keys::KeyD
            } else if slot == 0xA {
                Keys::KeyZ
            } else if slot == 0xB {
                Keys::KeyC
            } else if slot == 0xC {
                Keys::Key4
            } else if slot == 0xD {
                Keys::KeyR
            } else if slot == 0xE {
                Keys::KeyF
            } else {
                Keys::KeyV
            };
            assert(k.logical() == slot);
        }
    }
}

} // verus!
