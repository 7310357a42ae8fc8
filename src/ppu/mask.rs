use vstd::prelude::*;

verus! {

/// The PPU mask register (`PPUMASK`, $2001).
///
/// ```text
/// BGRs bMmG
/// |||| |||+- greyscale
/// |||| ||+-- show background in the leftmost 8 pixels
/// |||| |+--- show sprites in the leftmost 8 pixels
/// |||| +---- show background
/// |||+------ show sprites
/// ||+------- emphasize red
/// |+-------- emphasize green
/// +--------- emphasize blue
/// ```
#[derive(PartialEq, Eq, Structural, Debug, Clone, Copy)]
pub struct MaskRegister {
    pub bits: u8,
}

/// A colour that the mask register can emphasize.
#[derive(PartialEq, Eq, Structural, Debug, Clone, Copy)]
pub enum Color {
    Red,
    Green,
    Blue,
}

impl MaskRegister {
    pub const GREY_SCALE: u8 = 0b0000_0001;
    pub const LEFTMOST_8PIXELS_BACKGROUND: u8 = 0b0000_0010;
    pub const LEFTMOST_8PIXELS_SPRITE: u8 = 0b0000_0100;
    pub const SHOW_BACKGROUND: u8 = 0b0000_1000;
    pub const SHOW_SPRITES: u8 = 0b0001_0000;
    pub const EMPHASIZE_RED: u8 = 0b0010_0000;
    pub const EMPHASIZE_GREEN: u8 = 0b0100_0000;
    pub const EMPHASIZE_BLUE: u8 = 0b1000_0000;

    /// The emphasized colours, red first, then blue, then green.
    pub open spec fn emphasis_spec(&self) -> Seq<Color> {
        let r: Seq<Color> = if self.bits & 0x20 != 0 { seq![Color::Red] } else { seq![] };
        let b: Seq<Color> = if self.bits & 0x80 != 0 { seq![Color::Blue] } else { seq![] };
        let g: Seq<Color> = if self.bits & 0x40 != 0 { seq![Color::Green] } else { seq![] };
        r + b + g
    }

    pub fn new() -> (r: Self)
        ensures
            r.bits == 0,
    {
        MaskRegister { bits: 0 }
    }

    pub fn is_grayscale(&self) -> (r: bool)
        ensures
            r == (self.bits & 0x01 != 0),
    {
        self.bits & Self::GREY_SCALE != 0
    }

    pub fn leftmost_8pixels_background(&self) -> (r: bool)
        ensures
            r == (self.bits & 0x02 != 0),
    {
        self.bits & Self::LEFTMOST_8PIXELS_BACKGROUND != 0
    }

    pub fn leftmost_8pixels_sprite(&self) -> (r: bool)
        ensures
            r == (self.bits & 0x04 != 0),
    {
        self.bits & Self::LEFTMOST_8PIXELS_SPRITE != 0
    }

    pub fn show_background(&self) -> (r: bool)
        ensures
            r == (self.bits & 0x08 != 0),
    {
        self.bits & Self::SHOW_BACKGROUND != 0
    }

    pub fn show_sprites(&self) -> (r: bool)
        ensures
            r == (self.bits & 0x10 != 0),
    {
        self.bits & Self::SHOW_SPRITES != 0
    }

    /// The colours whose emphasis bit is set.
    pub fn emphasize(&self) -> (r: Vec<Color>)
        ensures
            r@ == self.emphasis_spec(),
    {
        let mut result: Vec<Color> = Vec::new();
        if self.bits & Self::EMPHASIZE_RED != 0 {
            result.push(Color::Red);
        }
        if self.bits & Self::EMPHASIZE_BLUE != 0 {
            result.push(Color::Blue);
        }
        if self.bits & Self::EMPHASIZE_GREEN != 0 {
            result.push(Color::Green);
        }
        assert(result@ =~= self.emphasis_spec());
        result
    }

    pub fn update(&mut self, data: u8)
        ensures
            final(self).bits == data,
    {
        self.bits = data;
    }
}

} // verus!
