use vstd::prelude::*;

verus! {

/// How the 2 KiB of nametable RAM fill the four logical nametables.
#[allow(non_camel_case_types)]
#[derive(PartialEq, Eq, Structural, Debug, Clone, Copy)]
pub enum Mirroring {
    VERTICAL,
    HORIZONTAL,
    FOUR_SCREEN,
}

/// Why an iNES image was refused.
#[derive(PartialEq, Eq, Structural, Debug, Clone, Copy)]
pub enum RomError {
    /// The tag is wrong, or the image is cut short, or its bank counts are
    /// outside what a mapper-0 cartridge holds (1 or 2 PRG banks, at least
    /// one CHR bank).
    FormatError,
    /// The header announces iNES 2.0 (or a later version).
    UnsupportedVersion,
}

impl RomError {
    /// A short description of the error.
    pub fn message(&self) -> (r: String)
        ensures
            *self == RomError::FormatError ==> r@ == "not iNES format"@,
            *self == RomError::UnsupportedVersion ==> r@ == "not iNES 1.0"@,
    {
        match self {
            RomError::FormatError => "not iNES format".to_string(),
            RomError::UnsupportedVersion => "not iNES 1.0".to_string(),
        }
    }
}

/// A cartridge: program ROM, character ROM, mapper id and mirroring.
pub struct Rom {
    pub prg_rom: Vec<u8>,
    pub chr_rom: Vec<u8>,
    pub mapper: u8,
    pub screen_mirroring: Mirroring,
}

pub const NES_TAG_0: u8 = 0x4e;
pub const NES_TAG_1: u8 = 0x45;
pub const NES_TAG_2: u8 = 0x53;
pub const NES_TAG_3: u8 = 0x1a;
pub const PRG_ROM_PAGE_SIZE: usize = 16384;
pub const CHR_ROM_PAGE_SIZE: usize = 8192;
pub const HEADER_SIZE: usize = 16;
pub const TRAINER_SIZE: usize = 512;

/// What a cartridge is made of, as plain values.
pub struct CartridgeView {
    pub prg: Seq<u8>,
    pub chr: Seq<u8>,
    pub mapper: u8,
    pub mirroring: Mirroring,
}

pub open spec fn has_tag(raw: Seq<u8>) -> bool {
    raw.len() >= 16 && raw[0] == 0x4e && raw[1] == 0x45 && raw[2] == 0x53 && raw[3] == 0x1a
}

/// The iNES version field: bits 2-3 of byte 7.
pub open spec fn ines_version(raw: Seq<u8>) -> u8 {
    (raw[7] >> 2) & 3
}

pub open spec fn mirroring_of(flags6: u8) -> Mirroring {
    if flags6 & 0x08 != 0 {
        Mirroring::FOUR_SCREEN
    } else if flags6 & 0x01 != 0 {
        Mirroring::VERTICAL
    } else {
        Mirroring::HORIZONTAL
    }
}

/// The mapper id: high nibble from byte 7, low nibble from byte 6.
pub open spec fn mapper_of(flags6: u8, flags7: u8) -> u8 {
    (flags7 & 0xf0) | (flags6 >> 4)
}

pub open spec fn prg_start(raw: Seq<u8>) -> int {
    16 + if raw[6] & 0x04 != 0 { 512int } else { 0int }
}

pub open spec fn prg_len(raw: Seq<u8>) -> int {
    raw[4] as int * 16384
}

pub open spec fn chr_len(raw: Seq<u8>) -> int {
    raw[5] as int * 8192
}

/// Whether the bank counts and the length of the image fit together.
pub open spec fn layout_ok(raw: Seq<u8>) -> bool {
    &&& 1 <= raw[4] <= 2
    &&& raw[5] >= 1
    &&& prg_start(raw) + prg_len(raw) + chr_len(raw) <= raw.len()
}

/// The cartridge that an iNES 1.0 image holds, or why it holds none.
pub open spec fn parse_spec(raw: Seq<u8>) -> Result<CartridgeView, RomError> {
    if !has_tag(raw) {
        Err(RomError::FormatError)
    } else if ines_version(raw) != 0 {
        Err(RomError::UnsupportedVersion)
    } else if !layout_ok(raw) {
        Err(RomError::FormatError)
    } else {
        let p = prg_start(raw);
        let c = p + prg_len(raw);
        Ok(
            CartridgeView {
                prg: raw.subrange(p, c),
                chr: raw.subrange(c, c + chr_len(raw)),
                mapper: mapper_of(raw[6], raw[7]),
                mirroring: mirroring_of(raw[6]),
            },
        )
    }
}

/// The flag bits of byte 6 that select a mirroring.
pub open spec fn mirroring_bits(m: Mirroring) -> u8 {
    match m {
        Mirroring::VERTICAL => 0x01,
        Mirroring::HORIZONTAL => 0x00,
        Mirroring::FOUR_SCREEN => 0x08,
    }
}

/// The iNES 1.0 image (no trainer) of a cartridge.
pub open spec fn encode_spec(c: CartridgeView) -> Seq<u8> {
    seq![
        0x4eu8, 0x45u8, 0x53u8, 0x1au8,
        (c.prg.len() / 16384) as u8,
        (c.chr.len() / 8192) as u8,
        mirroring_bits(c.mirroring) | ((c.mapper & 0x0f) << 4),
        c.mapper & 0xf0,
        0u8, 0u8, 0u8, 0u8, 0u8, 0u8, 0u8, 0u8,
    ] + c.prg + c.chr
}

/// Whether a cartridge can be written as an iNES 1.0 image of mapper-0
/// shape: one or two PRG banks, and between 1 and 255 whole CHR banks.
pub open spec fn encodable(c: CartridgeView) -> bool {
    &&& c.prg.len() == 16384 || c.prg.len() == 32768
    &&& c.chr.len() % 8192 == 0
    &&& 8192 <= c.chr.len() <= 255 * 8192
}

impl Rom {
    pub open spec fn view_spec(&self) -> CartridgeView {
        CartridgeView {
            prg: self.prg_rom@,
            chr: self.chr_rom@,
            mapper: self.mapper,
            mirroring: self.screen_mirroring,
        }
    }

    /// Whether the cartridge keeps the invariants of a mapper-0 cartridge.
    pub open spec fn wf(&self) -> bool {
        &&& self.prg_rom.len() == 16384 || self.prg_rom.len() == 32768
        &&& self.chr_rom.len() >= 8192
    }

    /// A blank cartridge: one PRG bank and two CHR banks of zeros.
    pub fn new_empty_rom() -> (r: Result<Rom, RomError>)
        ensures
            r is Ok,
            r.unwrap().wf(),
            r.unwrap().prg_rom@ == Seq::new(16384, |i: int| 0u8),
            r.unwrap().chr_rom@ == Seq::new(16384, |i: int| 0u8),
            r.unwrap().mapper == 0,
            r.unwrap().screen_mirroring == Mirroring::VERTICAL,
    {
        let prg = zeros(PRG_ROM_PAGE_SIZE);
        let chr = zeros(16384);
        Ok(Rom { prg_rom: prg, chr_rom: chr, mapper: 0, screen_mirroring: Mirroring::VERTICAL })
    }

    /// Parses an iNES 1.0 image.
    pub fn new(raw: &Vec<u8>) -> (r: Result<Rom, RomError>)
        ensures
            match r {
                Ok(rom) => rom.wf() && parse_spec(raw@) == Ok::<CartridgeView, RomError>(rom.view_spec()),
                Err(e) => parse_spec(raw@) == Err::<CartridgeView, RomError>(e),
            },
    {
        if raw.len() < HEADER_SIZE || raw[0] != NES_TAG_0 || raw[1] != NES_TAG_1 || raw[2] != NES_TAG_2
            || raw[3] != NES_TAG_3 {
            return Err(RomError::FormatError);
        }
        let control1 = raw[6];
        let control2 = raw[7];
        let mapper = (control2 & 0xf0) | (control1 >> 4);
        let ines_ver = (control2 >> 2) & 3;
        if ines_ver != 0 {
            return Err(RomError::UnsupportedVersion);
        }
        let four_screen = control1 & 0x08 != 0;
        let vertical_mirroring = control1 & 0x01 != 0;
        let screen_mirroring = if four_screen {
            Mirroring::FOUR_SCREEN
        } else if vertical_mirroring {
            Mirroring::VERTICAL
        } else {
            Mirroring::HORIZONTAL
        };
        let prg_banks = raw[4];
        let chr_banks = raw[5];
        if prg_banks < 1 || prg_banks > 2 || chr_banks < 1 {
            return Err(RomError::FormatError);
        }
        let prg_rom_size = prg_banks as usize * PRG_ROM_PAGE_SIZE;
        let chr_rom_size = chr_banks as usize * CHR_ROM_PAGE_SIZE;
        let skip_trainer = control1 & 0x04 != 0;
        let prg_rom_start: usize = if skip_trainer { HEADER_SIZE + TRAINER_SIZE } else { HEADER_SIZE };
        let chr_rom_start = prg_rom_start + prg_rom_size;
        if raw.len() < chr_rom_start || raw.len() - chr_rom_start < chr_rom_size {
            return Err(RomError::FormatError);
        }
        let prg = copy_range(raw, prg_rom_start, prg_rom_size);
        let chr = copy_range(raw, chr_rom_start, chr_rom_size);
        Ok(Rom { prg_rom: prg, chr_rom: chr, mapper, screen_mirroring })
    }

    /// The iNES 1.0 image of this cartridge.
    pub fn encode(&self) -> (r: Vec<u8>)
        requires
            encodable(self.view_spec()),
        ensures
            r@ == encode_spec(self.view_spec()),
    {
        let mirror_bits: u8 = match self.screen_mirroring {
            Mirroring::VERTICAL => 0x01,
            Mirroring::HORIZONTAL => 0x00,
            Mirroring::FOUR_SCREEN => 0x08,
        };
        let mut r: Vec<u8> = vec![
            NES_TAG_0,
            NES_TAG_1,
            NES_TAG_2,
            NES_TAG_3,
            (self.prg_rom.len() / PRG_ROM_PAGE_SIZE) as u8,
            (self.chr_rom.len() / CHR_ROM_PAGE_SIZE) as u8,
            mirror_bits | ((self.mapper & 0x0f) << 4),
            self.mapper & 0xf0,
            0,
            0,
            0,
            0,
            0,
            0,
            0,
            0,
        ];
        append_all(&mut r, &self.prg_rom);
        append_all(&mut r, &self.chr_rom);
        assert(r@ =~= encode_spec(self.view_spec()));
        r
    }
}

/// `n` zero bytes.
pub fn zeros(n: usize) -> (r: Vec<u8>)
    ensures
        r@ == Seq::new(n as nat, |i: int| 0u8),
{
    let mut v: Vec<u8> = Vec::new();
    let mut i: usize = 0;
    while i < n
        invariant
            i <= n,
            v@ == Seq::new(i as nat, |k: int| 0u8),
        decreases n - i,
    {
        v.push(0);
        i = i + 1;
        assert(v@ =~= Seq::new(i as nat, |k: int| 0u8));
    }
    v
}

/// The `len` bytes of `raw` from `start` on.
pub fn copy_range(raw: &Vec<u8>, start: usize, len: usize) -> (r: Vec<u8>)
    requires
        start + len <= raw.len(),
    ensures
        r@ == raw@.subrange(start as int, start + len),
{
    let mut v: Vec<u8> = Vec::new();
    let mut i: usize = 0;
    while i < len
        invariant
            i <= len,
            start + len <= raw.len(),
            v@ == raw@.subrange(start as int, start + i),
        decreases len - i,
    {
        v.push(raw[start + i]);
        i = i + 1;
        assert(v@ =~= raw@.subrange(start as int, start + i));
    }
    v
}

/// Appends every byte of `src` to `dst`.
pub fn append_all(dst: &mut Vec<u8>, src: &Vec<u8>)
    ensures
        final(dst)@ == old(dst)@ + src@,
{
    let mut i: usize = 0;
    let ghost start = dst@;
    while i < src.len()
        invariant
            i <= src.len(),
            dst@ == start + src@.subrange(0, i as int),
        decreases src.len() - i,
    {
        dst.push(src[i]);
        i = i + 1;
        assert(dst@ =~= start + src@.subrange(0, i as int));
    }
    assert(src@.subrange(0, src.len() as int) =~= src@);
}

/// Parsing the image of a cartridge gives that cartridge back.
pub proof fn lemma_parse_encode(c: CartridgeView)
    requires
        encodable(c),
    ensures
        parse_spec(encode_spec(c)) == Ok::<CartridgeView, RomError>(c),
{
    let raw = encode_spec(c);
    let m = c.mapper;
    let mb = mirroring_bits(c.mirroring);
    let b6 = mb | ((m & 0x0f) << 4);
    let b7 = m & 0xf0;
    assert(raw[6] == b6 && raw[7] == b7);
    assert((b7 >> 2) & 3 == 0) by (bit_vector)
        requires b7 == m & 0xf0;
    assert(mb == 0 || mb == 1 || mb == 8);
    assert(b6 & 0x04 == 0 && (b7 & 0xf0) | (b6 >> 4) == m
        && (b6 & 0x08 != 0 <==> mb == 8) && (b6 & 0x01 != 0 <==> mb == 1)) by (bit_vector)
        requires b6 == mb | ((m & 0x0f) << 4), b7 == m & 0xf0, mb == 0 || mb == 1 || mb == 8;
    assert(mirroring_of(b6) == c.mirroring);
    let p = prg_start(raw);
    assert(p == 16);
    let c0 = p + prg_len(raw);
    assert(prg_len(raw) == c.prg.len());
    assert(chr_len(raw) == c.chr.len());
    assert(raw.subrange(p, c0) =~= c.prg);
    assert(raw.subrange(c0, c0 + chr_len(raw)) =~= c.chr);
}

} // verus!
