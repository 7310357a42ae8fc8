use vstd::prelude::*;

verus! {

/// The PPU status register (`PPUSTATUS`, $2002).
///
/// Bit 5 is sprite overflow, bit 6 sprite-0 hit, bit 7 VBlank.
#[derive(PartialEq, Eq, Structural, Debug, Clone, Copy)]
pub struct StatusRegister {
    pub bits: u8,
}

impl StatusRegister {
    pub const SPRITE_OVERFLOW: u8 = 0b0010_0000;
    pub const SPRITE_ZERO_HIT: u8 = 0b0100_0000;
    pub const VBLANK_STARTED: u8 = 0b1000_0000;

    pub open spec fn vblank(&self) -> bool {
        self.bits & 0x80 != 0
    }

    /// The bits with VBlank set or cleared and the other bits kept.
    pub open spec fn with_vblank(bits: u8, on: bool) -> u8 {
        if on { bits | 0x80 } else { bits & 0x7f }
    }

    pub fn new() -> (r: Self)
        ensures
            r.bits == 0,
    {
        StatusRegister { bits: 0 }
    }

    pub fn set_vblank_status(&mut self, on: bool)
        ensures
            final(self).bits == Self::with_vblank(old(self).bits, on),
            final(self).vblank() == on,
    {
        if on {
            self.bits = self.bits | Self::VBLANK_STARTED;
        } else {
            self.bits = self.bits & 0x7f;
        }
        proof {
            let b = old(self).bits;
            assert((b | 0x80u8) & 0x80u8 != 0 && (b & 0x7fu8) & 0x80u8 == 0) by (bit_vector);
        }
    }

    pub fn is_in_vblank(&self) -> (r: bool)
        ensures
            r == self.vblank(),
    {
        self.bits & Self::VBLANK_STARTED != 0
    }

    /// The register's byte as the CPU reads it.
    pub fn read(&self) -> (r: u8)
        ensures
            r == self.bits,
    {
        self.bits
    }
}

} // verus!
