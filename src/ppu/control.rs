use vstd::prelude::*;

verus! {

/// The PPU control register (`PPUCTRL`, $2000).
///
/// ```text
/// VPHB SINN
/// |||| ||++- base nametable address (0x2000, 0x2400, 0x2800, 0x2C00)
/// |||| |+--- VRAM address increment per PPUDATA access (1 or 32)
/// |||| +---- sprite pattern table address (0x0000 or 0x1000)
/// |||+------ background pattern table address (0x0000 or 0x1000)
/// ||+------- sprite size (8 or 16 rows)
/// |+-------- master/slave select
/// +--------- generate an NMI at the start of VBlank
/// ```
#[derive(PartialEq, Eq, Structural, Debug, Clone, Copy)]
pub struct ControlRegister {
    pub bits: u8,
}

impl ControlRegister {
    pub const NAME_TABLE1: u8 = 0b0000_0001;
    pub const NAME_TABLE2: u8 = 0b0000_0010;
    pub const VRAM_ADD_INCREMENT: u8 = 0b0000_0100;
    pub const SPRITE_PATTERN_ADDRESS: u8 = 0b0000_1000;
    pub const BACKGROUND_PATTERN_ADDRESS: u8 = 0b0001_0000;
    pub const SPRITE_SIZE: u8 = 0b0010_0000;
    pub const MASTER_SLAVE_SELECT: u8 = 0b0100_0000;
    pub const GENERATE_NMI: u8 = 0b1000_0000;

    pub open spec fn nmi_enabled(&self) -> bool {
        self.bits & 0x80 != 0
    }

    pub open spec fn increment_spec(&self) -> u8 {
        if self.bits & 0x04 != 0 { 32 } else { 1 }
    }

    pub open spec fn name_table_spec(&self) -> u16 {
        if self.bits & 0x03 == 0 {
            0x2000
        } else if self.bits & 0x03 == 1 {
            0x2400
        } else if self.bits & 0x03 == 2 {
            0x2800
        } else {
            0x2c00
        }
    }

    pub open spec fn sprite_pattern_spec(&self) -> u16 {
        if self.bits & 0x08 != 0 { 0x1000 } else { 0 }
    }

    pub open spec fn background_pattern_spec(&self) -> u16 {
        if self.bits & 0x10 != 0 { 0x1000 } else { 0 }
    }

    pub fn new() -> (r: Self)
        ensures
            r.bits == 0,
    {
        ControlRegister { bits: 0 }
    }

    /// How far the VRAM address moves after each PPUDATA access.
    pub fn vram_address_increment(&self) -> (r: u8)
        ensures
            r == self.increment_spec(),
    {
        if self.bits & Self::VRAM_ADD_INCREMENT != 0 {
            32
        } else {
            1
        }
    }

    /// The base address of the active nametable.
    pub fn name_table_address(&self) -> (r: u16)
        ensures
            r == self.name_table_spec(),
    {
        let value = self.bits & 0x03;
        if value == 0 {
            0x2000
        } else if value == 1 {
            0x2400
        } else if value == 2 {
            0x2800
        } else {
            0x2c00
        }
    }

    pub fn sprite_pattern_address(&self) -> (r: u16)
        ensures
            r == self.sprite_pattern_spec(),
    {
        if self.bits & Self::SPRITE_PATTERN_ADDRESS != 0 {
            0x1000
        } else {
            0
        }
    }

    pub fn background_pattern_address(&self) -> (r: u16)
        ensures
            r == self.background_pattern_spec(),
    {
        if self.bits & Self::BACKGROUND_PATTERN_ADDRESS != 0 {
            0x1000
        } else {
            0
        }
    }

    /// Rows per sprite.
    pub fn sprite_size(&self) -> (r: u8)
        ensures
            r == (if self.bits & 0x20 != 0 { 16u8 } else { 8u8 }),
    {
        if self.bits & Self::SPRITE_SIZE != 0 {
            16
        } else {
            8
        }
    }

    pub fn master_slave_select(&self) -> (r: bool)
        ensures
            r == (self.bits & 0x40 != 0),
    {
        self.bits & Self::MASTER_SLAVE_SELECT != 0
    }

    pub fn generate_vblank_nmi(&self) -> (r: bool)
        ensures
            r == self.nmi_enabled(),
    {
        self.bits & Self::GENERATE_NMI != 0
    }

    pub fn update(&mut self, data: u8)
        ensures
            final(self).bits == data,
    {
        self.bits = data;
    }
}

} // verus!
