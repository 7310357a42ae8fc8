use vstd::prelude::*;

verus! {

/// A gamepad button. Its index in the serial read order is `index()`.
#[allow(non_camel_case_types)]
#[derive(PartialEq, Eq, Structural, Debug, Clone, Copy)]
pub enum JoypadButton {
    BUTTON_A,
    BUTTON_B,
    SELECT,
    START,
    UP,
    DOWN,
    LEFT,
    RIGHT,
}

impl JoypadButton {
    pub open spec fn index_spec(&self) -> u8 {
        match self {
            JoypadButton::BUTTON_A => 0,
            JoypadButton::BUTTON_B => 1,
            JoypadButton::SELECT => 2,
            JoypadButton::START => 3,
            JoypadButton::UP => 4,
            JoypadButton::DOWN => 5,
            JoypadButton::LEFT => 6,
            JoypadButton::RIGHT => 7,
        }
    }

    /// The button's bit in the pressed-button byte.
    pub fn mask(&self) -> (r: u8)
        ensures
            r == 1u8 << self.index_spec(),
    {
        assert(1u8 << 0u8 == 1u8 && 1u8 << 1u8 == 2u8 && 1u8 << 2u8 == 4u8 && 1u8 << 3u8 == 8u8
            && 1u8 << 4u8 == 16u8 && 1u8 << 5u8 == 32u8 && 1u8 << 6u8 == 64u8 && 1u8 << 7u8 == 128u8)
            by (bit_vector);
        match self {
            JoypadButton::BUTTON_A => 0b0000_0001,
            JoypadButton::BUTTON_B => 0b0000_0010,
            JoypadButton::SELECT => 0b0000_0100,
            JoypadButton::START => 0b0000_1000,
            JoypadButton::UP => 0b0001_0000,
            JoypadButton::DOWN => 0b0010_0000,
            JoypadButton::LEFT => 0b0100_0000,
            JoypadButton::RIGHT => 0b1000_0000,
        }
    }
}

/// The serial strobe-and-shift gamepad register ($4016).
#[derive(PartialEq, Eq, Structural, Debug, Clone, Copy)]
pub struct Joypad {
    pub strobe: bool,
    /// The next button to be reported; 8 once all have been shifted out.
    pub index: u8,
    /// The pressed-button byte, bit `i` for the button of index `i`.
    pub status: u8,
}

impl Joypad {
    pub open spec fn strobe_spec(&self) -> bool {
        self.strobe
    }

    /// The next button to be reported; 8 once all have been shifted out.
    pub open spec fn index_spec(&self) -> u8 {
        self.index
    }

    /// The pressed-button byte, bit `i` for the button of index `i`.
    pub open spec fn buttons(&self) -> u8 {
        self.status
    }

    pub open spec fn wf(&self) -> bool {
        self.index <= 8
    }

    /// The result of `read()` and the pad after it.
    pub open spec fn read_spec(&self) -> (Joypad, u8) {
        if self.index > 7 {
            (*self, 1u8)
        } else if self.strobe {
            (*self, (self.status >> self.index) & 1)
        } else {
            (Joypad { index: (self.index + 1) as u8, ..*self }, (self.status >> self.index) & 1)
        }
    }

    /// The pad after `write(data)`.
    pub open spec fn write_spec(&self, data: u8) -> Joypad {
        if data & 1 == 1 {
            Joypad { strobe: true, index: 0, ..*self }
        } else {
            Joypad { strobe: false, ..*self }
        }
    }

    /// Whether the button of index `i` is pressed.
    pub open spec fn pressed(&self, i: u8) -> bool {
        (self.buttons() >> i) & 1 == 1
    }

    pub fn new() -> (r: Self)
        ensures
            r.wf(),
            !r.strobe_spec(),
            r.index_spec() == 0,
            r.buttons() == 0,
    {
        Joypad { strobe: false, index: 0, status: 0 }
    }

    /// Sets the strobe from bit 0 of `data`; a set strobe restarts the
    /// shift at button A.
    pub fn write(&mut self, data: u8)
        requires
            old(self).wf(),
        ensures
            final(self).wf(),
            final(self).strobe_spec() == (data & 1 == 1),
            final(self).index_spec() == (if data & 1 == 1 { 0 } else { old(self).index_spec() }),
            final(self).buttons() == old(self).buttons(),
            *final(self) == old(self).write_spec(data),
    {
        self.strobe = (data & 0x01) == 0x01;
        if self.strobe {
            self.index = 0;
        }
    }

    /// Reports the button at the shift index (1 once all eight have been
    /// reported) and, unless strobing, moves to the next one.
    pub fn read(&mut self) -> (r: u8)
        requires
            old(self).wf(),
        ensures
            final(self).wf(),
            r == (if old(self).index_spec() > 7 { 1 } else { (old(self).buttons() >> old(self).index_spec()) & 1 }),
            final(self).index_spec() == (if old(self).index_spec() > 7 || old(self).strobe_spec() {
                old(self).index_spec()
            } else {
                (old(self).index_spec() + 1) as u8
            }),
            final(self).strobe_spec() == old(self).strobe_spec(),
            final(self).buttons() == old(self).buttons(),
            (*final(self), r) == old(self).read_spec(),
    {
        if self.index > 7 {
            return 0x01;
        }
        let result = (self.status >> self.index) & 1;
        if !self.strobe {
            self.index = self.index + 1;
        }
        result
    }

    /// Marks `button` as pressed or released.
    pub fn set_status(&mut self, button: JoypadButton, pressed: bool)
        requires
            old(self).wf(),
        ensures
            final(self).wf(),
            final(self).buttons() == (if pressed {
                old(self).buttons() | (1u8 << button.index_spec())
            } else {
                old(self).buttons() & !(1u8 << button.index_spec())
            }),
            final(self).strobe_spec() == old(self).strobe_spec(),
            final(self).index_spec() == old(self).index_spec(),
    {
        let m = button.mask();
        if pressed {
            self.status = self.status | m;
        } else {
            self.status = self.status & !m;
        }
    }
}

/// Pressing or releasing a button changes that button alone.
pub proof fn lemma_set_status_only_that_button(old_bits: u8, k: u8, j: u8, pressed: bool)
    requires
        k < 8,
        j < 8,
    ensures
        ({
            let nb = if pressed { old_bits | (1u8 << k) } else { old_bits & !(1u8 << k) };
            &&& (nb >> k) & 1 == (if pressed { 1u8 } else { 0u8 })
            &&& j != k ==> (nb >> j) & 1 == (old_bits >> j) & 1
        }),
{
    assert(((old_bits | (1u8 << k)) >> k) & 1 == 1 && ((old_bits & !(1u8 << k)) >> k) & 1 == 0) by (bit_vector)
        requires k < 8;
    assert(j != k ==> ((old_bits | (1u8 << k)) >> j) & 1 == (old_bits >> j) & 1
        && ((old_bits & !(1u8 << k)) >> j) & 1 == (old_bits >> j) & 1) by (bit_vector)
        requires k < 8, j < 8;
}

} // verus!
