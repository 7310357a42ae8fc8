use nes_emu::rom::Mirroring;
use nes_emu::rom::Rom;
use nes_emu::rom::RomError;

const PRG_ROM_PAGE_SIZE: usize = 16384;
const CHR_ROM_PAGE_SIZE: usize = 8192;

struct TestRom {
    header: Vec<u8>,
    trainer: Option<Vec<u8>>,
    prg_rom: Vec<u8>,
    chr_rom: Vec<u8>,
}

fn create_test_rom(rom: TestRom) -> Vec<u8> {
    let mut result = Vec::with_capacity(
        rom.header.len() + rom.trainer.as_ref().map_or(0, |t| t.len()) + rom.prg_rom.len() + rom.chr_rom.len(),
    );
    result.extend(&rom.header);
    if let Some(t) = rom.trainer {
        result.extend(t);
    }
    result.extend(&rom.prg_rom);
    result.extend(&rom.chr_rom);
    result
}

#[test]
fn test() {
    let test_rom = create_test_rom(TestRom {
        header: vec![0x4e, 0x45, 0x53, 0x1a, 0x02, 0x01, 0x31, 0, 0, 0, 0, 0, 0, 0, 0, 0],
        trainer: None,
        prg_rom: vec![1; 2 * PRG_ROM_PAGE_SIZE],
        chr_rom: vec![2; 1 * CHR_ROM_PAGE_SIZE],
    });
    let rom = Rom::new(&test_rom).unwrap();
    assert_eq!(rom.prg_rom, vec![1; 2 * PRG_ROM_PAGE_SIZE]);
    assert_eq!(rom.chr_rom, vec![2; 1 * CHR_ROM_PAGE_SIZE]);
    assert_eq!(rom.mapper, 3);
    assert_eq!(rom.screen_mirroring, Mirroring::VERTICAL);
}

#[test]
fn test_trainer() {
    let test_rom = create_test_rom(TestRom {
        header: vec![0x4e, 0x45, 0x53, 0x1a, 0x02, 0x01, 0x31 | 0x04, 0, 0, 0, 0, 0, 0, 0, 0, 0],
        trainer: Some(vec![0; 512]),
        prg_rom: vec![1; 2 * PRG_ROM_PAGE_SIZE],
        chr_rom: vec![2; 1 * CHR_ROM_PAGE_SIZE],
    });
    let rom = Rom::new(&test_rom).unwrap();
    assert_eq!(rom.prg_rom, vec![1; 2 * PRG_ROM_PAGE_SIZE]);
    assert_eq!(rom.chr_rom, vec![2; 1 * CHR_ROM_PAGE_SIZE]);
    assert_eq!(rom.mapper, 3);
    assert_eq!(rom.screen_mirroring, Mirroring::VERTICAL);
}

#[test]
fn test_unsupported_ines20() {
    let test_rom = create_test_rom(TestRom {
        header: vec![0x4e, 0x45, 0x53, 0x1a, 0x01, 0x01, 0x31, 8, 0, 0, 0, 0, 0, 0, 0, 0],
        trainer: None,
        prg_rom: vec![1; 2 * PRG_ROM_PAGE_SIZE],
        chr_rom: vec![2; 1 * CHR_ROM_PAGE_SIZE],
    });
    let rom = Rom::new(&test_rom);
    match rom {
        Result::Ok(_) => assert!(false, "unexpected support ines2.0"),
        Result::Err(e) => assert_eq!(e.message(), "not iNES 1.0"),
    }
}

#[test]
fn rom_rejects_bad_tag() {
    let mut raw = vec![0x4e, 0x45, 0x53, 0x1b, 0x01, 0x01, 0x00, 0, 0, 0, 0, 0, 0, 0, 0, 0];
    raw.extend(vec![0; PRG_ROM_PAGE_SIZE + CHR_ROM_PAGE_SIZE]);
    match Rom::new(&raw) {
        Ok(_) => panic!("a wrong tag was accepted"),
        Err(e) => {
            assert_eq!(e, RomError::FormatError);
            assert_eq!(e.message(), "not iNES format");
        }
    }
}

#[test]
fn rom_rejects_short_image() {
    let mut raw = vec![0x4e, 0x45, 0x53, 0x1a, 0x02, 0x01, 0x00, 0, 0, 0, 0, 0, 0, 0, 0, 0];
    raw.extend(vec![0; PRG_ROM_PAGE_SIZE]);
    assert_eq!(Rom::new(&raw).err(), Some(RomError::FormatError));
    assert_eq!(Rom::new(&vec![0x4e, 0x45]).err(), Some(RomError::FormatError));
}

#[test]
fn rom_rejects_bank_counts_outside_mapper0() {
    let mut raw = vec![0x4e, 0x45, 0x53, 0x1a, 0x03, 0x01, 0x00, 0, 0, 0, 0, 0, 0, 0, 0, 0];
    raw.extend(vec![0; 3 * PRG_ROM_PAGE_SIZE + CHR_ROM_PAGE_SIZE]);
    assert_eq!(Rom::new(&raw).err(), Some(RomError::FormatError));
    let mut raw = vec![0x4e, 0x45, 0x53, 0x1a, 0x01, 0x00, 0x00, 0, 0, 0, 0, 0, 0, 0, 0, 0];
    raw.extend(vec![0; PRG_ROM_PAGE_SIZE]);
    assert_eq!(Rom::new(&raw).err(), Some(RomError::FormatError));
}

#[test]
fn rom_mirroring_and_mapper_bits() {
    let mut raw = vec![0x4e, 0x45, 0x53, 0x1a, 0x01, 0x01, 0x08 | 0x01 | 0x50, 0xa0, 0, 0, 0, 0, 0, 0, 0, 0];
    raw.extend(vec![7; PRG_ROM_PAGE_SIZE]);
    raw.extend(vec![9; CHR_ROM_PAGE_SIZE]);
    let rom = Rom::new(&raw).unwrap();
    assert_eq!(rom.screen_mirroring, Mirroring::FOUR_SCREEN);
    assert_eq!(rom.mapper, 0xa5);
    raw[6] = 0x00;
    let rom = Rom::new(&raw).unwrap();
    assert_eq!(rom.screen_mirroring, Mirroring::HORIZONTAL);
}

#[test]
fn rom_encode_then_parse_round_trips() {
    let rom = Rom {
        prg_rom: (0..32768u32).map(|i| (i % 251) as u8).collect(),
        chr_rom: (0..16384u32).map(|i| (i % 13) as u8).collect(),
        mapper: 0x47,
        screen_mirroring: Mirroring::HORIZONTAL,
    };
    let raw = rom.encode();
    assert_eq!(raw.len(), 16 + 32768 + 16384);
    assert_eq!(&raw[0..8], &[0x4e, 0x45, 0x53, 0x1a, 2, 2, 0x70, 0x40]);
    let back = Rom::new(&raw).unwrap();
    assert_eq!(back.prg_rom, rom.prg_rom);
    assert_eq!(back.chr_rom, rom.chr_rom);
    assert_eq!(back.mapper, rom.mapper);
    assert_eq!(back.screen_mirroring, rom.screen_mirroring);
}

#[test]
fn rom_empty_is_blank() {
    let rom = Rom::new_empty_rom().unwrap();
    assert_eq!(rom.prg_rom, vec![0; 16384]);
    assert_eq!(rom.chr_rom, vec![0; 16384]);
    assert_eq!(rom.mapper, 0);
    assert_eq!(rom.screen_mirroring, Mirroring::VERTICAL);
}
