use nes_emu::bus::Bus;
use nes_emu::bus::BusFault;
use nes_emu::cpu::CpuError;
use nes_emu::cpu::CpuFlags;
use nes_emu::cpu::StepResult;
use nes_emu::cpu::CPU;
use nes_emu::joypad::Joypad;
use nes_emu::joypad::JoypadButton;
use nes_emu::opcodes::OpCode;
use nes_emu::ppu::address::AddressRegister;
use nes_emu::ppu::control::ControlRegister;
use nes_emu::ppu::mask::Color;
use nes_emu::ppu::mask::MaskRegister;
use nes_emu::ppu::scroll::ScrollRegister;
use nes_emu::ppu::NesPPU;
use nes_emu::renderer::render;
use nes_emu::renderer::system_palette;
use nes_emu::renderer::Frame;
use nes_emu::rom::Mirroring;

#[test]
fn ram_mirrors_read_the_same_byte() {
    let mut bus = Bus::new();
    bus.memory_write_u8(0x0123, 0x5a);
    for k in 0..4u16 {
        assert_eq!(bus.memory_read_u8(0x0123 + 0x0800 * k), 0x5a);
    }
    bus.memory_write_u8(0x1fff, 0x77);
    assert_eq!(bus.memory_read_u8(0x07ff), 0x77);
}

#[test]
fn ram_write_then_read() {
    let mut bus = Bus::new();
    for (addr, v) in [(0x0000u16, 0x00u8), (0x0001, 0xff), (0x07ff, 0x80), (0x1234, 0x42)] {
        bus.memory_write_u8(addr, v);
        assert_eq!(bus.memory_read_u8(addr), v);
    }
}

#[test]
fn address_latch_hi_then_lo_and_reset_by_status() {
    let mut r = AddressRegister::new();
    r.update(0x23);
    r.update(0x05);
    assert_eq!(r.get(), 0x2305);
    r.update(0x7f);
    r.update(0xff);
    assert_eq!(r.get(), 0x3fff);
    r.increment(1);
    assert_eq!(r.get(), 0x0000);

    let mut ppu = NesPPU::new_empty_rom();
    ppu.write_address(0x21);
    ppu.read_status();
    ppu.write_address(0x24);
    ppu.write_address(0x07);
    assert_eq!(ppu.address.get(), 0x2407);
}

#[test]
fn address_increment_carries_into_high_byte() {
    let mut r = AddressRegister::new();
    r.update(0x21);
    r.update(0xff);
    r.increment(1);
    assert_eq!(r.get(), 0x2200);
    r.increment(32);
    assert_eq!(r.get(), 0x2220);
}

#[test]
fn scroll_register_x_then_y() {
    let mut s = ScrollRegister::new();
    s.update(10);
    s.update(20);
    assert_eq!((s.scroll_x, s.scroll_y), (10, 20));
    s.update(30);
    s.reset();
    s.update(40);
    assert_eq!((s.scroll_x, s.scroll_y), (40, 20));
}

#[test]
fn oam_dma_copies_page_in_order_with_wrap() {
    let mut bus = Bus::new();
    for i in 0..256u16 {
        bus.memory_write_u8(0x0200 + i, i as u8);
    }
    bus.memory_write_u8(0x2003, 0xfe);
    bus.memory_write_u8(0x4014, 0x02);
    assert_eq!(bus.ppu.oam_address, 0xfe);
    assert_eq!(bus.ppu.oam_data[0xfe], 0x00);
    assert_eq!(bus.ppu.oam_data[0xff], 0x01);
    assert_eq!(bus.ppu.oam_data[0x00], 0x02);
    assert_eq!(bus.ppu.oam_data[0xfd], 0xff);
}

#[test]
fn pha_pla_round_trip() {
    let mut cpu = CPU::new(Bus::new());
    cpu.load_and_run(vec![0xa9, 0x3c, 0x48, 0xa9, 0x00, 0x68, 0x00]).unwrap();
    assert_eq!(cpu.reg_a, 0x3c);
    assert_eq!(cpu.reg_sp, 0xfd);
}

#[test]
fn adc_and_sbc_and_cmp_examples() {
    let mut cpu = CPU::new(Bus::new());
    cpu.load_and_run(vec![0x18, 0xa9, 0x55, 0x69, 0x10, 0x00]).unwrap();
    assert_eq!(cpu.reg_a, 0x65);
    assert!(!cpu.status.contains(CpuFlags::CARRY));
    assert!(!cpu.status.contains(CpuFlags::OVERFLOW));

    let mut cpu = CPU::new(Bus::new());
    cpu.load_and_run(vec![0xa9, 0x55, 0x69, 0xcc, 0x00]).unwrap();
    assert_eq!(cpu.reg_a, 0x21);
    assert!(cpu.status.contains(CpuFlags::CARRY));
    assert!(!cpu.status.contains(CpuFlags::OVERFLOW));

    let mut cpu = CPU::new(Bus::new());
    cpu.load_and_run(vec![0xa9, 0x40, 0x69, 0x40, 0x00]).unwrap();
    assert_eq!(cpu.reg_a, 0x80);
    assert!(!cpu.status.contains(CpuFlags::CARRY));
    assert!(cpu.status.contains(CpuFlags::OVERFLOW));

    let mut cpu = CPU::new(Bus::new());
    cpu.load_and_run(vec![0xa9, 0x10, 0xe9, 0x01, 0x00]).unwrap();
    assert_eq!(cpu.reg_a, 0x0e);
    assert!(cpu.status.contains(CpuFlags::CARRY));

    let mut cpu = CPU::new(Bus::new());
    cpu.load_and_run(vec![0xa9, 0x88, 0xc9, 0x04, 0x00]).unwrap();
    assert!(cpu.status.contains(CpuFlags::CARRY));
    assert!(!cpu.status.contains(CpuFlags::ZERO));
    assert!(cpu.status.contains(CpuFlags::NEGATIVE));
}

#[test]
fn lda_tax_inx_program() {
    let mut cpu = CPU::new(Bus::new());
    cpu.load_and_run(vec![0xa9, 0xc0, 0xaa, 0xe8, 0x00]).unwrap();
    assert_eq!(cpu.reg_x, 0xc1);
}

#[test]
fn inx_overflow_program() {
    let mut cpu = CPU::new(Bus::new());
    cpu.load_and_run(vec![0xa9, 0xff, 0xaa, 0xe8, 0xe8, 0x00]).unwrap();
    assert_eq!(cpu.reg_x, 0x01);
    assert!(!cpu.status.contains(CpuFlags::ZERO));
}

#[test]
fn plp_forces_break_bits() {
    let mut cpu = CPU::new(Bus::new());
    cpu.load_and_run(vec![0xa9, 0xff, 0x48, 0x28, 0x00]).unwrap();
    assert_eq!(cpu.status.bits() & 0x30, 0x20);
    let mut cpu = CPU::new(Bus::new());
    cpu.load_and_run(vec![0x08, 0x68, 0x00]).unwrap();
    assert_eq!(cpu.reg_a & 0x30, 0x30);
}

#[test]
fn branch_forward_and_backward() {
    let mut cpu = CPU::new(Bus::new());
    // LDX #3; DEX; BNE -3; BRK
    cpu.load_and_run(vec![0xa2, 0x03, 0xca, 0xd0, 0xfd, 0x00]).unwrap();
    assert_eq!(cpu.reg_x, 0);
    assert_eq!(cpu.reg_pc, 0x0606);
}

#[test]
fn jmp_indirect_page_wrap() {
    let mut cpu = CPU::new(Bus::new());
    cpu.memory_write_u8(0x02ff, 0x10);
    cpu.memory_write_u8(0x0200, 0x00);
    cpu.memory_write_u8(0x0300, 0x07);
    cpu.memory_write_u8(0x0010, 0xa9);
    cpu.memory_write_u8(0x0011, 0x99);
    cpu.memory_write_u8(0x0012, 0x00);
    cpu.load_and_run(vec![0x6c, 0xff, 0x02]).unwrap();
    assert_eq!(cpu.reg_a, 0x99);
}

#[test]
fn unknown_opcode_stops() {
    let mut cpu = CPU::new(Bus::new());
    assert_eq!(cpu.load_and_run(vec![0x4b, 0x01, 0x00]), Err(CpuError::UnknownOpcode(0x4b)));
    assert!(OpCode::lookup(0x4b).is_none());
}

#[test]
fn write_to_prg_rom_stops() {
    let mut cpu = CPU::new(Bus::new());
    assert_eq!(
        cpu.load_and_run(vec![0x8d, 0x00, 0x80, 0x00]),
        Err(CpuError::Bus(BusFault::WriteToPrgRom(0x8000)))
    );
}

#[test]
fn illegal_ppu_address_stops() {
    let mut cpu = CPU::new(Bus::new());
    // LDA #$30; STA $2006; LDA #$00; STA $2006; STA $2007
    let r = cpu.load_and_run(vec![0xa9, 0x30, 0x8d, 0x06, 0x20, 0xa9, 0x00, 0x8d, 0x06, 0x20, 0x8d, 0x07, 0x20, 0x00]);
    assert_eq!(r, Err(CpuError::Bus(BusFault::IllegalPpuAddress(0x3000))));
}

#[test]
fn nmi_is_serviced_before_next_instruction() {
    let mut cpu = CPU::new(Bus::new());
    cpu.reg_pc = 0x0600;
    cpu.memory_write_u8(0x0600, 0xea);
    cpu.bus.ppu.nmi_interrupt = Some(1);
    let r = cpu.step();
    // the vector at 0xFFFA of a blank ROM is 0x0000, which holds BRK
    assert_eq!(r, Ok(StepResult::Break));
    assert_eq!(cpu.reg_pc, 0x0001);
    assert!(cpu.status.contains(CpuFlags::INTERRUPT_DISABLE));
    assert_eq!(cpu.memory_read_u8(0x01fd), 0x06);
    assert_eq!(cpu.memory_read_u8(0x01fc), 0x00);
    assert_eq!(cpu.memory_read_u8(0x01fb), 0x24);
    assert_eq!(cpu.reg_sp, 0xfa);
    assert!(cpu.bus.poll_nmi().is_none());
}

#[test]
fn ppu_enters_vblank_and_raises_nmi() {
    let mut ppu = NesPPU::new_empty_rom();
    ppu.write_control(0x80);
    let mut frames = 0;
    for _ in 0..(341 * 241 / 3 + 200) {
        if ppu.tick(3) {
            frames += 1;
        }
    }
    assert_eq!(frames, 0);
    assert!(ppu.status.is_in_vblank());
    assert_eq!(ppu.poll_nmi(), Some(1));
    for _ in 0..(341 * 21 / 3 + 10) {
        if ppu.tick(3) {
            frames += 1;
        }
    }
    assert_eq!(frames, 1);
    assert!(!ppu.status.is_in_vblank());
}

#[test]
fn enabling_nmi_during_vblank_raises_one() {
    let mut ppu = NesPPU::new_empty_rom();
    ppu.status.set_vblank_status(true);
    ppu.write_control(0x80);
    assert_eq!(ppu.poll_nmi(), Some(1));
    assert_eq!(ppu.poll_nmi(), None);
}

#[test]
fn bus_tick_reports_vsync() {
    let mut bus = Bus::new();
    bus.memory_write_u8(0x2000, 0x80);
    let mut seen = 0;
    for _ in 0..30000 {
        if bus.tick(1) {
            seen += 1;
        }
    }
    assert_eq!(seen, 1);
    assert_eq!(bus.cycles, 30000);
}

#[test]
fn palette_mirrors_and_reads_bypass_buffer() {
    let mut ppu = NesPPU::new_empty_rom();
    ppu.write_address(0x3f);
    ppu.write_address(0x10);
    ppu.write_data(0x2a);
    assert_eq!(ppu.palette_table[0], 0x2a);
    ppu.write_address(0x3f);
    ppu.write_address(0x00);
    assert_eq!(ppu.read_data(), 0x2a);
}

#[test]
fn control_and_mask_projections() {
    let mut c = ControlRegister::new();
    c.update(0b1011_1110);
    assert_eq!(c.vram_address_increment(), 32);
    assert_eq!(c.name_table_address(), 0x2800);
    assert_eq!(c.sprite_pattern_address(), 0x1000);
    assert_eq!(c.background_pattern_address(), 0x1000);
    assert_eq!(c.sprite_size(), 16);
    assert!(!c.master_slave_select());
    assert!(c.generate_vblank_nmi());
    let mut m = MaskRegister::new();
    m.update(0b1110_1001);
    assert!(m.is_grayscale());
    assert!(!m.leftmost_8pixels_background());
    assert!(m.show_background());
    assert!(!m.show_sprites());
    assert_eq!(m.emphasize(), vec![Color::Red, Color::Blue, Color::Green]);
}

#[test]
fn joypad_reports_pressed_buttons_in_order() {
    let mut pad = Joypad::new();
    pad.set_status(JoypadButton::BUTTON_A, true);
    pad.set_status(JoypadButton::START, true);
    pad.set_status(JoypadButton::LEFT, true);
    pad.set_status(JoypadButton::RIGHT, true);
    pad.write(1);
    for _ in 0..10 {
        assert_eq!(pad.read(), 1);
    }
    pad.write(0);
    let got: Vec<u8> = (0..8).map(|_| pad.read()).collect();
    assert_eq!(got, vec![1, 0, 0, 1, 0, 0, 1, 1]);
    assert_eq!(pad.read(), 1);
    pad.set_status(JoypadButton::START, false);
    pad.write(1);
    pad.write(0);
    let got: Vec<u8> = (0..8).map(|_| pad.read()).collect();
    assert_eq!(got, vec![1, 0, 0, 0, 0, 0, 1, 1]);
}

#[test]
fn system_palette_entries() {
    assert_eq!(system_palette(0), (0x80, 0x80, 0x80));
    assert_eq!(system_palette(0x21), (0x0F, 0xD7, 0xFF));
    assert_eq!(system_palette(63), (0x11, 0x11, 0x11));
    assert_eq!(system_palette(64), (0x80, 0x80, 0x80));
}

#[test]
fn frame_set_pixel() {
    let mut f = Frame::new();
    assert_eq!(f.data.len(), 256 * 240 * 3);
    f.set_pixel(1, 2, (9, 8, 7));
    let b = 2 * 3 * 256 + 3;
    assert_eq!(&f.data[b..b + 3], &[9, 8, 7]);
    f.set_pixel(255, 239, (1, 2, 3));
    assert_eq!(&f.data[f.data.len() - 3..], &[1, 2, 3]);
}

#[test]
fn render_background_tile_and_sprite() {
    let mut chr = vec![0u8; 0x2000];
    // tile 1: row 0 low plane 0x80 -> pixel (0,0) has colour 1
    chr[16] = 0x80;
    // tile 1: row 0 high plane 0x40 -> pixel (1,0) has colour 2
    chr[16 + 8] = 0x40;
    let mut ppu = NesPPU::new(chr, Mirroring::HORIZONTAL);
    ppu.vram[0] = 1;
    ppu.palette_table[0] = 0x0f;
    ppu.palette_table[1] = 0x21;
    ppu.palette_table[2] = 0x16;
    ppu.palette_table[0x12] = 0x30;
    // a sprite with tile 1 at (100, 50), flipped horizontally
    ppu.oam_data[0] = 50;
    ppu.oam_data[1] = 1;
    ppu.oam_data[2] = 0x40;
    ppu.oam_data[3] = 100;
    let mut frame = Frame::new();
    render(&ppu, &mut frame);
    let px = |f: &Frame, x: usize, y: usize| {
        let b = y * 3 * 256 + x * 3;
        (f.data[b], f.data[b + 1], f.data[b + 2])
    };
    assert_eq!(px(&frame, 0, 0), system_palette(0x21));
    assert_eq!(px(&frame, 1, 0), system_palette(0x16));
    assert_eq!(px(&frame, 2, 0), system_palette(0x0f));
    assert_eq!(px(&frame, 107, 50), system_palette(0x21 & 0));
    assert_eq!(px(&frame, 106, 50), system_palette(0x30));
}

#[test]
fn tile_viewer_draws_tile_pixels() {
    let mut chr = vec![0u8; 0x2000];
    // tile 2 of bank 1: row 0 first byte 0x80 gives value 2 at x = 0,
    // second plane 0x40 gives value 1 at x = 1
    chr[0x1000 + 32] = 0x80;
    chr[0x1000 + 32 + 8] = 0x40;
    let f = nes_emu::tile_viewer::show_tile(&chr, 1, 2);
    assert_eq!(&f.data[0..3], &[0xFF, 0x9C, 0x12]);
    assert_eq!(&f.data[3..6], &[0xD4, 0x80, 0xFF]);
    assert_eq!(&f.data[6..9], &[0x00, 0x3D, 0xA6]);
    let bank = nes_emu::tile_viewer::show_tile_bank(&chr, 1);
    let b = 10 * 3;
    assert_eq!(&bank.data[0..3], &[0x00, 0x3D, 0xA6]);
    assert_eq!(&bank.data[b * 2..b * 2 + 3], &[0xFF, 0x9C, 0x12]);
}

#[test]
fn snake_screen_is_read_from_ram() {
    let mut cpu = CPU::new(Bus::new());
    cpu.memory_write_u8(0x0200, 1);
    cpu.memory_write_u8(0x05ff, 2);
    let colors: Vec<(u8, u8, u8)> = (0..=255u8).map(|b| (b, b.wrapping_add(1), 0)).collect();
    let mut frame = vec![0u8; 32 * 3 * 32];
    assert!(nes_emu::screen::read_screen_state(&mut cpu, &mut frame, &colors));
    assert_eq!(&frame[0..3], &[1, 2, 0]);
    assert_eq!(&frame[3..6], &[0, 1, 0]);
    assert_eq!(&frame[3069..3072], &[2, 3, 0]);
    assert!(!nes_emu::screen::read_screen_state(&mut cpu, &mut frame, &colors));
}

#[test]
fn render_vertical_scroll_past_240_shows_other_table_shifted_up() {
    let mut chr = vec![0u8; 0x2000];
    // tile 1, row 2: pixel x = 0 has colour 1
    chr[16 + 2] = 0x80;
    let mut ppu = NesPPU::new(chr, Mirroring::HORIZONTAL);
    ppu.palette_table[0] = 0x0f;
    ppu.palette_table[1] = 0x21;
    // second nametable, tile row 1, column 0
    ppu.vram[0x400 + 32] = 1;
    ppu.write_scroll(0);
    ppu.write_scroll(250);
    let mut frame = Frame::new();
    render(&ppu, &mut frame);
    // nametable row 10 lands on screen row 0
    assert_eq!(&frame.data[0..3], &[0x0F, 0xD7, 0xFF]);
    assert_eq!(&frame.data[3..6], &[0x05, 0x05, 0x05]);
}

#[test]
fn load_and_run_long_program_through_mirrors() {
    let mut program = vec![0xe8u8; 0x300];
    program.push(0x00);
    let mut cpu = CPU::new(Bus::new());
    cpu.load_and_run(program).unwrap();
    assert_eq!(cpu.reg_x, 0x00);
    assert_eq!(cpu.reg_pc, 0x0901);
    assert!(cpu.status.contains(CpuFlags::ZERO));
}
