//! The controller port: an eight-bit shift register behind a strobe latch.

use vstd::prelude::*;

verus! {

/// One controller. `button_status` holds one bit per button, from bit 0:
/// A, B, Select, Start, Up, Down, Left, Right.
#[derive(Clone, Copy, Debug, PartialEq, Eq, Structural)]
pub struct Joypad {
    pub strobe: bool,
    pub button_index: u8,
    pub button_status: u8,
}

impl Joypad {
    pub const RIGHT: u8 = 0b1000_0000;

    pub const LEFT: u8 = 0b0100_0000;

    pub const DOWN: u8 = 0b0010_0000;

    pub const UP: u8 = 0b0001_0000;

    pub const START: u8 = 0b0000_1000;

    pub const SELECT: u8 = 0b0000_0100;

    pub const BUTTON_B: u8 = 0b0000_0010;

    pub const BUTTON_A: u8 = 0b0000_0001;

    /// The controller after the CPU wrote `data` to its port.
    pub open spec fn after_write(self, data: u8) -> Joypad {
        let strobe = data & 1 == 1;
        Joypad {
            strobe,
            button_index: if strobe {
                0
            } else {
                self.button_index
            },
            button_status: self.button_status,
        }
    }

    /// What the next read of the port returns.
    pub open spec fn read_value(self) -> u8 {
        if self.button_index > 7 {
            1
        } else {
            (self.button_status >> self.button_index) & 1
        }
    }

    /// The controller after one read of its port.
    pub open spec fn after_read(self) -> Joypad {
        if self.button_index > 7 || self.strobe {
            self
        } else {
            Joypad {
                strobe: self.strobe,
                button_index: (self.button_index + 1) as u8,
                button_status: self.button_status,
            }
        }
    }

    pub fn new() -> (j: Joypad)
        ensures
            j == (Joypad { strobe: false, button_index: 0, button_status: 0 }),
    {
        Joypad { strobe: false, button_index: 0, button_status: 0 }
    }

    /// A write latches the strobe bit; while the strobe is high the read
    /// index is held at the first button.
    pub fn write(&mut self, data: u8)
        ensures
            *final(self) == old(self).after_write(data),
    {
        self.strobe = data & 1 == 1;
        if self.strobe {
            self.button_index = 0;
        }
    }

    /// A read hands out one button bit and moves on to the next button,
    /// unless the strobe is high; past the eighth button it returns 1.
    pub fn read(&mut self) -> (r: u8)
        ensures
            r == old(self).read_value(),
            *final(self) == old(self).after_read(),
    {
        if self.button_index > 7 {
            return 1;
        }
        let response: u8 = (self.button_status >> self.button_index) & 1;
        if !self.strobe {
            self.button_index = self.button_index + 1;
        }
        response
    }

    /// Records that the buttons in `button` are pressed or released.
    pub fn set_button_pressed_status(&mut self, button: u8, pressed: bool)
        ensures
            final(self).button_status == crate::flags::assigned(
                old(self).button_status,
                button,
                pressed,
            ),
            final(self).strobe == old(self).strobe,
            final(self).button_index == old(self).button_index,
    {
        self.button_status = crate::flags::assign(self.button_status, button, pressed);
    }
}

/// A read returns 0 or 1, and never moves the index by more than one button.
pub proof fn lemma_read_one_bit(j: Joypad)
    ensures
        j.read_value() == 0 || j.read_value() == 1,
        j.after_read().button_index == j.button_index || j.after_read().button_index
            == j.button_index + 1,
        j.after_read().button_status == j.button_status,
{
    let s = j.button_status;
    let i = j.button_index;
    assert(i <= 7 ==> ((s >> i) & 1 == 0 || (s >> i) & 1 == 1)) by (bit_vector);
}

/// With the strobe low, the k-th read after a strobe pulse returns bit k of
/// the snapshot.
pub proof fn lemma_read_bit(j: Joypad, k: u8)
    requires
        k < 8,
        j.button_index == k,
    ensures
        j.read_value() == 1 <==> crate::flags::has_all(j.button_status, 1u8 << k),
{
    let s = j.button_status;
    assert(k < 8 ==> (((s >> k) & 1 == 1) <==> (s & (1u8 << k) == (1u8 << k)))) by (bit_vector);
    assert(k < 8 ==> ((s >> k) & 1 == 0 || (s >> k) & 1 == 1)) by (bit_vector);
}

} // verus!
