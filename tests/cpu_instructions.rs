use nes_emu::bus::Bus;
use nes_emu::cpu::CpuFlags;
use nes_emu::cpu::CPU;

#[test]
fn test_0x69_adc_immidiate_for_not_c() {
    let bus = Bus::new();
    let mut cpu = CPU::new(bus);
    cpu.load_and_run(vec![0xa9, 0x55, 0x69, 0x10, 0x00]).unwrap();
    // 0x55 + 0x10 = 0x65, no CARRY, no OVERFLOW
    assert_eq!(cpu.reg_a, 0x65);
    assert!(!cpu.status.contains(CpuFlags::CARRY));
    assert!(!cpu.status.contains(CpuFlags::ZERO));
    assert!(!cpu.status.contains(CpuFlags::OVERFLOW))
}

#[test]
fn test_0x69_adc_immidiate_for_c() {
    let bus = Bus::new();
    let mut cpu = CPU::new(bus);
    cpu.load_and_run(vec![0xa9, 0x55, 0x69, 0xcc, 0x00]).unwrap();
    // 0x55 + 0xcc = 33+256, with CARRY, no OVERFLOW
    assert_eq!(cpu.reg_a, 33);
    assert!(cpu.status.contains(CpuFlags::CARRY));
    assert!(!cpu.status.contains(CpuFlags::ZERO));
    assert!(!cpu.status.contains(CpuFlags::OVERFLOW))
}

#[test]
fn test_0x69_adc_immidiate_for_v() {
    let bus = Bus::new();
    let mut cpu = CPU::new(bus);
    cpu.load_and_run(vec![0xa9, 0x40, 0x69, 0x40, 0x00]).unwrap();
    // 64 + 64 = 128(=-128), with OVERFLOW
    assert_eq!(cpu.reg_a, 0x80);
    assert!(!cpu.status.contains(CpuFlags::CARRY));
    assert!(!cpu.status.contains(CpuFlags::ZERO));
    assert!(cpu.status.contains(CpuFlags::OVERFLOW))
}

#[test]
fn test_0x69_adc_immidiate_with_carry_for_cz() {
    let bus = Bus::new();
    let mut cpu = CPU::new(bus);
    cpu.load_and_run(vec![0xa9, 0xff, 0xc9, 0x00, 0xa9, 0xfe, 0x69, 0x01, 0x00]).unwrap();
    // 0xfe + 0x01 + CARRY = 0x00 + 256 with CARRY, no OVERFLOW
    assert_eq!(cpu.reg_a, 0x00);
    assert!(cpu.status.contains(CpuFlags::CARRY));
    assert!(cpu.status.contains(CpuFlags::ZERO));
    assert!(!cpu.status.contains(CpuFlags::OVERFLOW))
}

#[test]
fn test_0x69_adc_immidiate_with_carried_overflow() {
    let bus = Bus::new();
    let mut cpu = CPU::new(bus);
    cpu.load_and_run(vec![0xa9, 0xff, 0xc9, 0x00, 0xa9, 0x80, 0x69, 0xff, 0x00]).unwrap();
    // 0x80 + 0xff + CARRY = 0x80 + 256 with CARRY, no OVERFLOW
    assert_eq!(cpu.reg_a, 0x80);
    assert!(cpu.status.contains(CpuFlags::CARRY));
    assert!(!cpu.status.contains(CpuFlags::ZERO));
    assert!(!cpu.status.contains(CpuFlags::OVERFLOW))
}

#[test]
fn test_0x29_and_with_immidiate() {
    let bus = Bus::new();
    let mut cpu = CPU::new(bus);
    cpu.load_and_run(vec![0xa9, 0xd5, 0x29, 0xab, 0x00]).unwrap();
    assert_eq!(cpu.reg_a, 0b1000_0001);
    assert!(!cpu.status.contains(CpuFlags::ZERO));
    assert!(cpu.status.contains(CpuFlags::NEGATIVE));
}

#[test]
fn test_0x0a_asl_accumulator() {
    let bus = Bus::new();
    let mut cpu = CPU::new(bus);
    cpu.load_and_run(vec![0xa9, 0b1110_0101, 0x0a, 0x00]).unwrap();
    assert_eq!(cpu.reg_a, 0b1100_1010);
    assert!(!cpu.status.contains(CpuFlags::ZERO));
    assert!(cpu.status.contains(CpuFlags::NEGATIVE));
    assert!(cpu.status.contains(CpuFlags::CARRY));
}

#[test]
fn test_0x06_asl_zeropage() {
    let bus = Bus::new();
    let mut cpu = CPU::new(bus);
    cpu.load_and_run(vec![0xa9, 0b1010_0101, 0x85, 0x03, 0x06, 0x03, 0x00]).unwrap();
    assert_eq!(cpu.memory_read_u8(0x03), 0b0100_1010);
    assert!(!cpu.status.contains(CpuFlags::ZERO));
    assert!(!cpu.status.contains(CpuFlags::NEGATIVE));
    assert!(cpu.status.contains(CpuFlags::CARRY));
}

#[test]
fn test_0x24_bit_zeropage_for_v_not_nz() {
    let bus = Bus::new();
    let mut cpu = CPU::new(bus);
    cpu.load_and_run(vec![0xa9, 0x45, 0x85, 0x03, 0xa9, 0x01, 0x24, 0x03, 0x00]).unwrap();
    assert!(!cpu.status.contains(CpuFlags::ZERO));
    assert!(cpu.status.contains(CpuFlags::OVERFLOW));
    assert!(!cpu.status.contains(CpuFlags::NEGATIVE));
}

#[test]
fn test_0x24_bit_zeropage_for_nz_not_v() {
    let bus = Bus::new();
    let mut cpu = CPU::new(bus);
    cpu.load_and_run(vec![0xa9, 0x80, 0x85, 0x03, 0xa9, 0x7f, 0x24, 0x03, 0x00]).unwrap();
    assert!(cpu.status.contains(CpuFlags::ZERO));
    assert!(!cpu.status.contains(CpuFlags::OVERFLOW));
    assert!(cpu.status.contains(CpuFlags::NEGATIVE));
}

#[test]
fn test_0x18_clc() {
    let bus = Bus::new();
    let mut cpu = CPU::new(bus);
    cpu.load_and_run(vec![0xa9, 0x80, 0x0a, 0x18, 0x00]).unwrap();
    assert!(!cpu.status.contains(CpuFlags::CARRY))
}

#[test]
fn test_0xb8_clv() {
    let bus = Bus::new();
    let mut cpu = CPU::new(bus);
    cpu.load_and_run(vec![0xa9, 0x40, 0x69, 0x40, 0xb8, 0x00]).unwrap();
    assert_eq!(cpu.reg_a, 0x80);
    assert!(!cpu.status.contains(CpuFlags::OVERFLOW))
}

#[test]
fn test_0xc9_cmp_immidiate_for_cn_not_z() {
    let bus = Bus::new();
    let mut cpu = CPU::new(bus);
    cpu.load_and_run(vec![0xa9, 0x88, 0xc9, 0x04, 0x00]).unwrap();
    assert!(cpu.status.contains(CpuFlags::CARRY));
    assert!(!cpu.status.contains(CpuFlags::ZERO));
    assert!(cpu.status.contains(CpuFlags::NEGATIVE));
}

#[test]
fn test_0xc9_cmp_immidiate_for_cz_not_n() {
    let bus = Bus::new();
    let mut cpu = CPU::new(bus);
    cpu.load_and_run(vec![0xa9, 0x08, 0xc9, 0x08, 0x00]).unwrap();
    assert!(cpu.status.contains(CpuFlags::CARRY));
    assert!(cpu.status.contains(CpuFlags::ZERO));
    assert!(!cpu.status.contains(CpuFlags::NEGATIVE));
}

#[test]
fn test_0xc9_cmp_immidiate_for_n_not_cz() {
    let bus = Bus::new();
    let mut cpu = CPU::new(bus);
    cpu.load_and_run(vec![0xa9, 0x00, 0xc9, 0x01, 0x00]).unwrap();
    assert!(!cpu.status.contains(CpuFlags::CARRY));
    assert!(!cpu.status.contains(CpuFlags::ZERO));
    assert!(cpu.status.contains(CpuFlags::NEGATIVE));
}

#[test]
fn test_0xe0_cpx_immidiate() {
    let bus = Bus::new();
    let mut cpu = CPU::new(bus);
    cpu.load_and_run(vec![0xa2, 0x88, 0xe0, 0x04, 0x00]).unwrap();
    assert!(cpu.status.contains(CpuFlags::CARRY));
    assert!(!cpu.status.contains(CpuFlags::ZERO));
    assert!(cpu.status.contains(CpuFlags::NEGATIVE));
}

#[test]
fn test_0xc0_cpy_immidiate() {
    let bus = Bus::new();
    let mut cpu = CPU::new(bus);
    cpu.load_and_run(vec![0xa0, 0x04, 0xc0, 0x88, 0x00]).unwrap();
    assert!(!cpu.status.contains(CpuFlags::CARRY));
    assert!(!cpu.status.contains(CpuFlags::ZERO));
    assert!(!cpu.status.contains(CpuFlags::NEGATIVE));
}

#[test]
fn test_0xc6_dec_zeropage_for_not_nz() {
    let bus = Bus::new();
    let mut cpu = CPU::new(bus);
    cpu.load_and_run(vec![0xa9, 0x04, 0x85, 0x05, 0xc6, 0x05, 0x00]).unwrap();
    let data = cpu.memory_read_u8(0x05);
    assert_eq!(data, 0x03);
    assert!(!cpu.status.contains(CpuFlags::ZERO));
    assert!(!cpu.status.contains(CpuFlags::NEGATIVE));
}

#[test]
fn test_0xca_dex_for_z_not_n() {
    let bus = Bus::new();
    let mut cpu = CPU::new(bus);
    cpu.load_and_run(vec![0xa9, 0x01, 0xaa, 0xca, 0x00]).unwrap();
    assert_eq!(cpu.reg_x, 0x00);
    assert!(cpu.status.contains(CpuFlags::ZERO));
    assert!(!cpu.status.contains(CpuFlags::NEGATIVE));
}

#[test]
fn test_0x88_dey_for_n_not_z() {
    let bus = Bus::new();
    let mut cpu = CPU::new(bus);
    cpu.load_and_run(vec![0xa9, 0x00, 0xa8, 0x88, 0x00]).unwrap();
    assert_eq!(cpu.reg_y, 0xff);
    assert!(!cpu.status.contains(CpuFlags::ZERO));
    assert!(cpu.status.contains(CpuFlags::NEGATIVE));
}

#[test]
fn test_0x49_eor_immidiate() {
    let bus = Bus::new();
    let mut cpu = CPU::new(bus);
    cpu.load_and_run(vec![0xa9, 0x50, 0x49, 0x14, 0x00]).unwrap();
    assert_eq!(cpu.reg_a, 0x44);
    assert!(!cpu.status.contains(CpuFlags::ZERO));
    assert!(!cpu.status.contains(CpuFlags::NEGATIVE));
}

#[test]
fn test_0xe6_inc_zeropage_for_not_nz() {
    let bus = Bus::new();
    let mut cpu = CPU::new(bus);
    cpu.load_and_run(vec![0xa9, 0x04, 0x85, 0x05, 0xe6, 0x05, 0x00]).unwrap();
    let data = cpu.memory_read_u8(0x05);
    assert_eq!(data, 0x05);
    assert!(!cpu.status.contains(CpuFlags::ZERO));
    assert!(!cpu.status.contains(CpuFlags::NEGATIVE));
}

#[test]
fn test_0xe8_inx_for_z_not_n() {
    let bus = Bus::new();
    let mut cpu = CPU::new(bus);
    cpu.load_and_run(vec![0xa9, 0xff, 0xaa, 0xe8, 0x00]).unwrap();
    assert_eq!(cpu.reg_x, 0x00);
    assert!(cpu.status.contains(CpuFlags::ZERO));
    assert!(!cpu.status.contains(CpuFlags::NEGATIVE));
}

#[test]
fn test_0xe8_inx_overflow() {
    let bus = Bus::new();
    let mut cpu = CPU::new(bus);
    cpu.load_and_run(vec![0xa9, 0xff, 0xaa, 0xe8, 0xe8, 0x00]).unwrap();
    assert_eq!(cpu.reg_x, 1);
    assert!(!cpu.status.contains(CpuFlags::ZERO));
    assert!(!cpu.status.contains(CpuFlags::NEGATIVE));
}

#[test]
fn test_0xc8_iny_for_n_not_z() {
    let bus = Bus::new();
    let mut cpu = CPU::new(bus);
    cpu.load_and_run(vec![0xa9, 0x7f, 0xa8, 0xc8, 0x00]).unwrap();
    assert_eq!(cpu.reg_y, 0x80);
    assert!(!cpu.status.contains(CpuFlags::ZERO));
    assert!(cpu.status.contains(CpuFlags::NEGATIVE));
}

#[test]
fn test_0x4c_jmp_absolute() {
    let bus = Bus::new();
    let mut cpu = CPU::new(bus);
    cpu.memory_write_u8(0x0000, 0xa9);
    cpu.memory_write_u8(0x0001, 0xaa);
    cpu.memory_write_u8(0x0002, 0x00);
    cpu.load_and_run(vec![0xa9, 0x55, 0x4c, 0x00, 0x00, 0x00]).unwrap();
    assert_eq!(cpu.reg_a, 0xaa);
}

#[test]
fn test_0x20_0x60_jsr_rts() {
    let bus = Bus::new();
    let mut cpu = CPU::new(bus);
    cpu.memory_write_u8(0x0010, 0xa9);
    cpu.memory_write_u8(0x0011, 0x02);
    cpu.memory_write_u8(0x0012, 0x60);
    cpu.load_and_run(vec![0xa9, 0x01, 0x20, 0x10, 0x00, 0xa2, 0x03, 0x00]).unwrap();
    assert_eq!(cpu.reg_a, 0x02);
    assert_eq!(cpu.reg_x, 0x03);
}

#[test]
fn test_0xa9_lda_immidiate() {
    let bus = Bus::new();
    let mut cpu = CPU::new(bus);
    cpu.load_and_run(vec![0xa9, 0x05, 0x00]).unwrap();
    assert_eq!(cpu.reg_a, 0x05);
    assert!(cpu.status.contains(CpuFlags::ZERO) == false);
    assert!(cpu.status.contains(CpuFlags::NEGATIVE) == false);
}

#[test]
fn test_0xa9_lda_immidiate_for_z() {
    let bus = Bus::new();
    let mut cpu = CPU::new(bus);
    cpu.load_and_run(vec![0xa9, 0x00, 0x00]).unwrap();
    assert!(cpu.status.contains(CpuFlags::ZERO) == true);
}

#[test]
fn test_0xa5_lda_zeropage() {
    let bus = Bus::new();
    let mut cpu = CPU::new(bus);
    cpu.memory_write_u8(0x10, 0x55);
    cpu.load_and_run(vec![0xa5, 0x10, 0x00]).unwrap();
    assert_eq!(cpu.reg_a, 0x55);
}

#[test]
fn test_0xa2_ldx_immidiate() {
    let bus = Bus::new();
    let mut cpu = CPU::new(bus);
    cpu.load_and_run(vec![0xa2, 0xa5, 0x00]).unwrap();
    assert_eq!(cpu.reg_x, 0xa5);
    assert!(!cpu.status.contains(CpuFlags::ZERO));
    assert!(cpu.status.contains(CpuFlags::NEGATIVE));
}

#[test]
fn test_0xa0_ldy_immidiate() {
    let bus = Bus::new();
    let mut cpu = CPU::new(bus);
    cpu.load_and_run(vec![0xa0, 0x5a, 0x00]).unwrap();
    assert_eq!(cpu.reg_y, 0x5a);
    assert!(!cpu.status.contains(CpuFlags::ZERO));
    assert!(!cpu.status.contains(CpuFlags::NEGATIVE));
}

#[test]
fn test_0x4a_lsr_accumulator() {
    let bus = Bus::new();
    let mut cpu = CPU::new(bus);
    cpu.load_and_run(vec![0xa9, 0b1110_0101, 0x4a, 0x00]).unwrap();
    assert_eq!(cpu.reg_a, 0b0111_0010);
    assert!(!cpu.status.contains(CpuFlags::ZERO));
    assert!(!cpu.status.contains(CpuFlags::NEGATIVE));
    assert!(cpu.status.contains(CpuFlags::CARRY));
}

#[test]
fn test_0x46_lsr_zeropage() {
    let bus = Bus::new();
    let mut cpu = CPU::new(bus);
    cpu.load_and_run(vec![0xa9, 0b1010_0101, 0x85, 0x03, 0x46, 0x03, 0x00]).unwrap();
    assert_eq!(cpu.memory_read_u8(0x03), 0b0101_0010);
    assert!(!cpu.status.contains(CpuFlags::ZERO));
    assert!(!cpu.status.contains(CpuFlags::NEGATIVE));
    assert!(cpu.status.contains(CpuFlags::CARRY));
}

#[test]
fn test_0xea_nop() {
    let bus = Bus::new();
    let mut cpu = CPU::new(bus);
    cpu.load_and_run(vec![0xea, 0xa9, 0x55, 0x00]).unwrap();
    assert_eq!(cpu.reg_a, 0x55);
}

#[test]
fn test_0x09_ora_immmidiate() {
    let bus = Bus::new();
    let mut cpu = CPU::new(bus);
    cpu.load_and_run(vec![0xa9, 0b0101_1010, 0x09, 0b1001_0100, 0x00]).unwrap();
    assert_eq!(cpu.reg_a, 0b1101_1110);
    assert!(!cpu.status.contains(CpuFlags::ZERO));
    assert!(cpu.status.contains(CpuFlags::NEGATIVE));
}

#[test]
fn test_0x48_0x68_pha_pla() {
    let bus = Bus::new();
    let mut cpu = CPU::new(bus);
    cpu.load_and_run(vec![0xa9, 0x80, 0x48, 0xa9, 0x00, 0x68, 0x00]).unwrap();
    assert_eq!(cpu.reg_a, 0x80);
    assert!(!cpu.status.contains(CpuFlags::ZERO));
    assert!(cpu.status.contains(CpuFlags::NEGATIVE));
}

#[test]
fn test_0x08_0x28_php_plp() {
    let bus = Bus::new();
    let mut cpu = CPU::new(bus);
    cpu.load_and_run(vec![0xa9, 0x80, 0x08, 0xa9, 0x00, 0x28, 0x00]).unwrap();
    assert_eq!(cpu.reg_a, 0x00);
    assert!(!cpu.status.contains(CpuFlags::ZERO));
    assert!(cpu.status.contains(CpuFlags::NEGATIVE));
}

#[test]
fn test_0x2a_rol_accumulator_with_carry() {
    let bus = Bus::new();
    let mut cpu = CPU::new(bus);
    cpu.load_and_run(vec![0xa9, 0xff, 0xc9, 0x00, 0xa9, 0b1010_0000, 0x2a, 0x00]).unwrap();
    assert_eq!(cpu.reg_a, 0b0100_0001);
    assert!(!cpu.status.contains(CpuFlags::ZERO));
    assert!(!cpu.status.contains(CpuFlags::NEGATIVE));
    assert!(cpu.status.contains(CpuFlags::CARRY));
}

#[test]
fn test_0x26_rol_zeropage_without_carry() {
    let bus = Bus::new();
    let mut cpu = CPU::new(bus);
    cpu.load_and_run(vec![0xa9, 0b0010_0101, 0x85, 0x03, 0x26, 0x03, 0x00]).unwrap();
    assert_eq!(cpu.memory_read_u8(0x03), 0b0100_1010);
    assert!(!cpu.status.contains(CpuFlags::ZERO));
    assert!(!cpu.status.contains(CpuFlags::NEGATIVE));
    assert!(!cpu.status.contains(CpuFlags::CARRY));
}

#[test]
fn test_0x6a_ror_accumulator_with_carry() {
    let bus = Bus::new();
    let mut cpu = CPU::new(bus);
    cpu.load_and_run(vec![0xa9, 0xff, 0xc9, 0x00, 0xa9, 0b1010_0000, 0x6a, 0x00]).unwrap();
    assert_eq!(cpu.reg_a, 0b1101_0000);
    assert!(!cpu.status.contains(CpuFlags::ZERO));
    assert!(cpu.status.contains(CpuFlags::NEGATIVE));
    assert!(!cpu.status.contains(CpuFlags::CARRY));
}

#[test]
fn test_0x66_ror_zeropage_without_carry() {
    let bus = Bus::new();
    let mut cpu = CPU::new(bus);
    cpu.load_and_run(vec![0xa9, 0b1010_0001, 0x85, 0x03, 0x66, 0x03, 0x00]).unwrap();
    assert_eq!(cpu.memory_read_u8(0x03), 0b0101_0000);
    assert!(!cpu.status.contains(CpuFlags::ZERO));
    assert!(!cpu.status.contains(CpuFlags::NEGATIVE));
    assert!(cpu.status.contains(CpuFlags::CARRY));
}

#[test]
fn test_0xe9_sbc_immidiate_for_not_cz() {
    let bus = Bus::new();
    let mut cpu = CPU::new(bus);
    cpu.load_and_run(vec![0xa9, 0x10, 0xe9, 0x01, 0x00]).unwrap();
    // 16 - 1 - 1 = 14, no CARRY
    assert_eq!(cpu.reg_a, 0x0e);
    assert!(cpu.status.contains(CpuFlags::CARRY));
    assert!(!cpu.status.contains(CpuFlags::ZERO));
    assert!(!cpu.status.contains(CpuFlags::OVERFLOW))
}

#[test]
fn test_0xe9_sbc_immidiate_for_v_not_cz() {
    let bus = Bus::new();
    let mut cpu = CPU::new(bus);
    cpu.load_and_run(vec![0xa9, 0x80, 0xe9, 0x7f, 0x00]).unwrap();
    // 0x80 - 0x7f - 1 = 0x00
    assert_eq!(cpu.reg_a, 0x00);
    assert!(cpu.status.contains(CpuFlags::CARRY));
    assert!(cpu.status.contains(CpuFlags::ZERO));
    assert!(cpu.status.contains(CpuFlags::OVERFLOW))
}

#[test]
fn test_0xe9_sbc_immidiate_with_carry_for_zv_not_c() {
    let bus = Bus::new();
    let mut cpu = CPU::new(bus);
    cpu.load_and_run(vec![0xa9, 0x80, 0x38, 0xe9, 0x7f, 0x00]).unwrap();
    // 0x80 - 0x7f = 0x01 with OVERFLOW, no CARRY
    assert_eq!(cpu.reg_a, 0x01);
    assert!(cpu.status.contains(CpuFlags::CARRY));
    assert!(!cpu.status.contains(CpuFlags::ZERO));
    assert!(cpu.status.contains(CpuFlags::OVERFLOW))
}

#[test]
fn test_0xe9_sbc_immidiate_with_carried_overflow() {
    let bus = Bus::new();
    let mut cpu = CPU::new(bus);
    cpu.load_and_run(vec![0xa9, 0x40, 0x38, 0xe9, 0xff, 0x00]).unwrap();
    // 0x40 - 0xff = 0x41 with CARRY, no OVERFLOW
    assert_eq!(cpu.reg_a, 0x41);
    assert!(!cpu.status.contains(CpuFlags::CARRY));
    assert!(!cpu.status.contains(CpuFlags::ZERO));
    assert!(!cpu.status.contains(CpuFlags::OVERFLOW))
}

#[test]
fn test_0x38_sec() {
    let bus = Bus::new();
    let mut cpu = CPU::new(bus);
    cpu.load_and_run(vec![0x38, 0x00]).unwrap();
    assert!(cpu.status.contains(CpuFlags::CARRY));
}

#[test]
fn test_0xf8_sed() {
    let bus = Bus::new();
    let mut cpu = CPU::new(bus);
    cpu.load_and_run(vec![0xf8, 0x00]).unwrap();
    assert!(cpu.status.contains(CpuFlags::DECIMAL_MODE));
}

#[test]
fn test_0x78_sed() {
    let bus = Bus::new();
    let mut cpu = CPU::new(bus);
    cpu.load_and_run(vec![0x78, 0x00]).unwrap();
    assert!(cpu.status.contains(CpuFlags::INTERRUPT_DISABLE));
}

#[test]
fn test_0x85_sta_to_zeropage() {
    let bus = Bus::new();
    let mut cpu = CPU::new(bus);
    cpu.load_and_run(vec![0xa9, 0x55, 0x85, 0x03, 0x00]).unwrap();
    let data = cpu.memory_read_u8(0x03);
    assert_eq!(data, 0x55);
}

#[test]
fn test_0x95_sta_to_zeropage_x() {
    let bus = Bus::new();
    let mut cpu = CPU::new(bus);
    cpu.load_and_run(vec![0xa9, 0x55, 0xaa, 0xa9, 0xaa, 0x95, 0x03, 0x00]).unwrap();
    let data = cpu.memory_read_u8(0x58);
    assert_eq!(data, 0xaa);
}

#[test]
fn test_0x86_stx_to_zeropage() {
    let bus = Bus::new();
    let mut cpu = CPU::new(bus);
    cpu.load_and_run(vec![0xa2, 0x55, 0x86, 0x03, 0x00]).unwrap();
    let data = cpu.memory_read_u8(0x03);
    assert_eq!(data, 0x55);
}

#[test]
fn test_0x84_sty_to_zeropage() {
    let bus = Bus::new();
    let mut cpu = CPU::new(bus);
    cpu.load_and_run(vec![0xa0, 0x55, 0x84, 0x03, 0x00]).unwrap();
    let data = cpu.memory_read_u8(0x03);
    assert_eq!(data, 0x55);
}

#[test]
fn test_0xaa_tax_move_a_to_x() {
    let bus = Bus::new();
    let mut cpu = CPU::new(bus);
    cpu.load_and_run(vec![0xa9, 0x0a, 0xaa, 0x00]).unwrap();
    assert_eq!(cpu.reg_x, 10);
}

#[test]
fn test_0xa8_tay_move_a_to_y() {
    let bus = Bus::new();
    let mut cpu = CPU::new(bus);
    cpu.load_and_run(vec![0xa9, 0x0a, 0xa8, 0x00]).unwrap();
    assert_eq!(cpu.reg_y, 10);
}

#[test]
fn test_0xba_tsx() {
    let bus = Bus::new();
    let mut cpu = CPU::new(bus);
    cpu.load_and_run(vec![0x48, 0xba, 0x00]).unwrap();
    assert_eq!(cpu.reg_sp, cpu.reg_x);
}

#[test]
fn test_0x8a_txa() {
    let bus = Bus::new();
    let mut cpu = CPU::new(bus);
    cpu.load_and_run(vec![0xa2, 0x55, 0x8a, 0x00]).unwrap();
    assert_eq!(cpu.reg_x, cpu.reg_a);
}

#[test]
fn test_0x9a_txs() {
    let bus = Bus::new();
    let mut cpu = CPU::new(bus);
    cpu.load_and_run(vec![0x48, 0xba, 0xe8, 0x9a, 0x00]).unwrap();
    assert_eq!(cpu.reg_x, cpu.reg_sp);
}

#[test]
fn test_0x98_tya() {
    let bus = Bus::new();
    let mut cpu = CPU::new(bus);
    cpu.load_and_run(vec![0xa0, 0x55, 0x98, 0x00]).unwrap();
    assert_eq!(cpu.reg_y, cpu.reg_a);
}

#[test]
fn test_0xe8_5_ops_working_together() {
    let bus = Bus::new();
    let mut cpu = CPU::new(bus);
    cpu.load_and_run(vec![0xa9, 0xc0, 0xaa, 0xe8, 0x00]).unwrap();
    assert_eq!(cpu.reg_x, 0xc1);
}

#[test]
fn test_0xa7_lax_zeropage() {
    let bus = Bus::new();
    let mut cpu = CPU::new(bus);
    cpu.memory_write_u8(0x10, 0x55);
    cpu.load_and_run(vec![0xa7, 0x10, 0x00]).unwrap();
    assert_eq!(cpu.reg_a, 0x55);
    assert_eq!(cpu.reg_x, 0x55);
}

#[test]
fn test_0x87_sax_zeropage() {
    let bus = Bus::new();
    let mut cpu = CPU::new(bus);
    cpu.load_and_run(vec![0xa9, 0x55, 0xa2, 0xa5, 0x87, 0x10, 0x00]).unwrap();
    assert_eq!(cpu.bus.memory_read_u8(0x10), 0x05);
    assert_eq!(cpu.reg_a, 0x55);
    assert_eq!(cpu.reg_x, 0xa5);
}

#[test]
fn test_0xeb_sbc_immidiate_for_not_cz() {
    let bus = Bus::new();
    let mut cpu = CPU::new(bus);
    cpu.load_and_run(vec![0xa9, 0x10, 0xeb, 0x01, 0x00]).unwrap();
    // 16 - 1 - 1 = 14, no CARRY
    assert_eq!(cpu.reg_a, 0x0e);
    assert!(cpu.status.contains(CpuFlags::CARRY));
    assert!(!cpu.status.contains(CpuFlags::ZERO));
    assert!(!cpu.status.contains(CpuFlags::OVERFLOW))
}

#[test]
fn test_0xc7_dcp_zeropage() {
    let bus = Bus::new();
    let mut cpu = CPU::new(bus);
    cpu.memory_write_u8(0x10, 0x55);
    cpu.load_and_run(vec![0xa9, 0x54, 0xc7, 0x10, 0x00]).unwrap();
    assert_eq!(cpu.memory_read_u8(0x10), 0x54);
    assert!(cpu.status.contains(CpuFlags::CARRY));
    assert!(cpu.status.contains(CpuFlags::ZERO));
    assert!(!cpu.status.contains(CpuFlags::NEGATIVE));
}

#[test]
fn test_0xe7_isb_zeropage() {
    let bus = Bus::new();
    let mut cpu = CPU::new(bus);
    cpu.memory_write_u8(0x10, 0x55);
    cpu.load_and_run(vec![0xa9, 0x57, 0xe7, 0x10, 0x00]).unwrap();
    assert_eq!(cpu.memory_read_u8(0x10), 0x56);
    assert_eq!(cpu.reg_a, 0x00);
    assert!(cpu.status.contains(CpuFlags::CARRY));
    assert!(cpu.status.contains(CpuFlags::ZERO));
    assert!(!cpu.status.contains(CpuFlags::NEGATIVE));
}

#[test]
fn test_0x07_slo_zeropage() {
    let bus = Bus::new();
    let mut cpu = CPU::new(bus);
    cpu.memory_write_u8(0x10, 0b1010_0001);
    cpu.load_and_run(vec![0x38, 0xa9, 0b0100_1000, 0x07, 0x10, 0x00]).unwrap();
    assert_eq!(cpu.memory_read_u8(0x10), 0b0100_0010);
    assert_eq!(cpu.reg_a, 0b0100_1010);
    assert!(!cpu.status.contains(CpuFlags::ZERO));
    assert!(!cpu.status.contains(CpuFlags::NEGATIVE));
    assert!(cpu.status.contains(CpuFlags::CARRY));
}

#[test]
fn test_0x27_rla_zeropage() {
    let bus = Bus::new();
    let mut cpu = CPU::new(bus);
    cpu.memory_write_u8(0x10, 0b0010_0001);
    cpu.load_and_run(vec![0x38, 0xa9, 0b0100_1000, 0x27, 0x10, 0x00]).unwrap();
    assert_eq!(cpu.memory_read_u8(0x10), 0b0100_0011);
    assert_eq!(cpu.reg_a, 0b0100_0000);
    assert!(!cpu.status.contains(CpuFlags::ZERO));
    assert!(!cpu.status.contains(CpuFlags::NEGATIVE));
    assert!(!cpu.status.contains(CpuFlags::CARRY));
}

#[test]
fn test_0x47_sre_zeropage() {
    let bus = Bus::new();
    let mut cpu = CPU::new(bus);
    cpu.memory_write_u8(0x10, 0b0010_0001);
    cpu.load_and_run(vec![0xa9, 0b0100_1000, 0x47, 0x10, 0x00]).unwrap();
    assert_eq!(cpu.memory_read_u8(0x10), 0b0001_0000);
    assert_eq!(cpu.reg_a, 0b0101_1000);
    assert!(!cpu.status.contains(CpuFlags::ZERO));
    assert!(!cpu.status.contains(CpuFlags::NEGATIVE));
    assert!(cpu.status.contains(CpuFlags::CARRY));
}
