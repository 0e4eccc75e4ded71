//! Controller port: a strobe bit and an 8-bit shift register that serializes
//! the pressed-button bitmap one bit per read.

use vstd::prelude::*;

verus! {

/// The eight buttons, in the order they are shifted out.
#[derive(Debug, Clone, Copy, PartialEq, Eq, Structural)]
pub enum Buttons {
    A,
    B,
    Select,
    Start,
    Up,
    Down,
    Left,
    Right,
}

impl Buttons {
    /// Position of this button in the pressed bitmap.
    pub open spec fn spec_mask(self) -> u8 {
        match self {
            Buttons::A => 0x01,
            Buttons::B => 0x02,
            Buttons::Select => 0x04,
            Buttons::Start => 0x08,
            Buttons::Up => 0x10,
            Buttons::Down => 0x20,
            Buttons::Left => 0x40,
            Buttons::Right => 0x80,
        }
    }

    /// The bitmap bit standing for this button.
    pub fn mask(self) -> (r: u8)
        ensures
            r == self.spec_mask(),
    {
        match self {
            Buttons::A => 0x01,
            Buttons::B => 0x02,
            Buttons::Select => 0x04,
            Buttons::Start => 0x08,
            Buttons::Up => 0x10,
            Buttons::Down => 0x20,
            Buttons::Left => 0x40,
            Buttons::Right => 0x80,
        }
    }
}

/// One controller: pressed-button bitmap, strobe bit, and shift index.
pub struct JoyPad {
    buttons: u8,
    strobe: bool,
    button_indx: u8,
}

/// What a read returns: bit `idx` of the bitmap while `idx < 8`, then 1.
pub open spec fn spec_read_value(buttons: u8, idx: u8) -> u8 {
    if idx < 8 {
        (buttons >> idx) & 1
    } else {
        1
    }
}

impl JoyPad {
    /// The pressed-button bitmap.
    pub closed spec fn spec_buttons(&self) -> u8 {
        self.buttons
    }

    /// The strobe bit last written.
    pub closed spec fn spec_strobe(&self) -> bool {
        self.strobe
    }

    /// The shift index: which bit the next read returns.
    pub closed spec fn spec_index(&self) -> u8 {
        self.button_indx
    }

    pub fn new() -> (r: Self)
        ensures
            r.spec_buttons() == 0,
            !r.spec_strobe(),
            r.spec_index() == 0,
    {
        JoyPad { buttons: 0, strobe: false, button_indx: 0 }
    }

    /// Port write: bit 0 is the strobe. While the strobe is high the shift
    /// index is held at 0.
    pub fn write(&mut self, data: u8)
        ensures
            final(self).spec_strobe() == (data & 1 != 0),
            final(self).spec_index() == if data & 1 != 0 {
                0u8
            } else {
                old(self).spec_index()
            },
            final(self).spec_buttons() == old(self).spec_buttons(),
    {
        self.strobe = (data & 1) != 0;
        if self.strobe {
            self.button_indx = 0;
        }
    }

    /// Port read: returns the bit selected by the shift index and, when the
    /// strobe is low, advances the index; after eight reads it returns 1.
    pub fn read(&mut self) -> (r: u8)
        ensures
            r == spec_read_value(old(self).spec_buttons(), old(self).spec_index()),
            final(self).spec_buttons() == old(self).spec_buttons(),
            final(self).spec_strobe() == old(self).spec_strobe(),
            final(self).spec_index() == if old(self).spec_index() < 8 && !old(self).spec_strobe() {
                (old(self).spec_index() + 1) as u8
            } else {
                old(self).spec_index()
            },
    {
        let mut res: u8 = 1;

        if self.button_indx < 8 {
            res = (self.buttons >> self.button_indx) & 1;
            if !self.strobe {
                self.button_indx += 1;
            }
        }

        res
    }

    /// Marks a button pressed in the bitmap.
    pub fn set_button(&mut self, button: Buttons)
        ensures
            final(self).spec_buttons() == old(self).spec_buttons() | button.spec_mask(),
            final(self).spec_strobe() == old(self).spec_strobe(),
            final(self).spec_index() == old(self).spec_index(),
    {
        self.buttons |= button.mask();
    }

    /// Marks a button released in the bitmap.
    pub fn unset_button(&mut self, button: Buttons)
        ensures
            final(self).spec_buttons() == old(self).spec_buttons() & !button.spec_mask(),
            final(self).spec_strobe() == old(self).spec_strobe(),
            final(self).spec_index() == old(self).spec_index(),
    {
        self.buttons &= !(button.mask());
    }
}

/// A byte latched with the strobe high and then read with the strobe low
/// comes back one bit per read, lowest bit first, and a ninth read gives 1:
/// after `n` reads the next read returns bit `n` of the bitmap while `n < 8`.
pub proof fn lemma_joypad_readout(buttons: u8, n: u8)
    requires
        n <= 8,
    ensures
        n < 8 ==> spec_read_value(buttons, n) == ((buttons >> n) & 1),
        n < 8 ==> (spec_read_value(buttons, n) == 1 <==> buttons & (1u8 << n) != 0),
        n == 8 ==> spec_read_value(buttons, n) == 1,
{
    assert(n < 8 ==> ((buttons >> n) & 1 == 1 <==> buttons & (1u8 << n) != 0))
        by (bit_vector);
}

} // verus!
