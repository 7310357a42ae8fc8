use nes_emu::ppu::control::ControlRegister;
use nes_emu::ppu::NesPPU;
use nes_emu::rom::Mirroring;

#[test]
fn test_ppu_write_vram() {
    let mut ppu = NesPPU::new_empty_rom();
    ppu.write_address(0x23);
    ppu.write_address(0x05);
    ppu.write_data(0x66);
    assert_eq!(ppu.vram[0x0305], 0x66);
}

#[test]
fn test_ppu_read_vram() {
    let mut ppu = NesPPU::new_empty_rom();
    ppu.write_control(0);
    ppu.vram[0x0305] = 0x66;
    ppu.write_address(0x23);
    ppu.write_address(0x05);
    ppu.read_data(); // read, then address+=1
    assert_eq!(ppu.address.get(), 0x2306);
    assert_eq!(ppu.read_data(), 0x66);
}

#[test]
fn test_ppu_read_over_page() {
    let mut ppu = NesPPU::new_empty_rom();
    ppu.write_control(0);
    ppu.vram[0x01ff] = 0x66;
    ppu.vram[0x0200] = 0x77; // across page

    ppu.write_address(0x21);
    ppu.write_address(0xff);

    ppu.read_data();
    assert_eq!(ppu.read_data(), 0x66);
    assert_eq!(ppu.read_data(), 0x77);
}

#[test]
fn test_ppu_vram_reads_step_32() {
    let mut ppu = NesPPU::new_empty_rom();
    ppu.write_control(ControlRegister::VRAM_ADD_INCREMENT);
    ppu.vram[0x01ff] = 0x66;
    ppu.vram[0x01ff + 32] = 0x77;
    ppu.vram[0x01ff + 64] = 0x88;

    ppu.write_address(0x21);
    ppu.write_address(0xff);

    ppu.read_data();
    assert_eq!(ppu.read_data(), 0x66);
    assert_eq!(ppu.read_data(), 0x77);
    assert_eq!(ppu.read_data(), 0x88);
}

#[test]
fn test_vram_horizontal_mirror() {
    let mut ppu = NesPPU::new(vec![0; 2048], Mirroring::HORIZONTAL);
    // HORIZONTAL -> AA'BB'
    ppu.write_address(0x24);
    ppu.write_address(0x05);
    ppu.write_data(0x66); //write to A'
    ppu.write_address(0x28);
    ppu.write_address(0x05);
    ppu.write_data(0x77); //write to B

    ppu.write_address(0x20);
    ppu.write_address(0x05);
    ppu.read_data();
    assert_eq!(ppu.read_data(), 0x66); // read A' from A

    ppu.write_address(0x2C);
    ppu.write_address(0x05);
    ppu.read_data();
    assert_eq!(ppu.read_data(), 0x77); //read B from B'
}

#[test]
fn test_vram_vertical_mirror() {
    let mut ppu = NesPPU::new(vec![0; 2048], Mirroring::VERTICAL);
    // VERTICAL -> ABA'B'
    ppu.write_address(0x20);
    ppu.write_address(0x05);
    ppu.write_data(0x66); //write to A
    ppu.write_address(0x2C);
    ppu.write_address(0x05);
    ppu.write_data(0x77); //write to B'

    ppu.write_address(0x28);
    ppu.write_address(0x05);
    ppu.read_data();
    assert_eq!(ppu.read_data(), 0x66); //read A from A'

    ppu.write_address(0x24);
    ppu.write_address(0x05);
    ppu.read_data();
    assert_eq!(ppu.read_data(), 0x77); //read B' from B
}

#[test]
fn test_status() {
    let mut ppu = NesPPU::new_empty_rom();
    ppu.vram[0x0305] = 0x66;
    ppu.write_address(0x21);
    ppu.write_address(0x23);
    ppu.write_address(0x05);
    ppu.read_data();
    assert_ne!(ppu.read_data(), 0x66);

    ppu.read_status(); // reset
    ppu.write_address(0x23);
    ppu.write_address(0x05);
    ppu.read_data();
    assert_eq!(ppu.read_data(), 0x66);
}

#[test]
fn test_vram_mirroring() {
    let mut ppu = NesPPU::new_empty_rom();
    ppu.write_control(0x00);
    ppu.vram[0x0305] = 0x66;
    ppu.write_address(0x63);
    ppu.write_address(0x05); // 0x6305 -> 0x2305
    ppu.read_data();
    assert_eq!(ppu.read_data(), 0x66);
}

#[test]
fn test_reset_vblank() {
    let mut ppu = NesPPU::new_empty_rom();
    ppu.status.set_vblank_status(true);

    assert!(ppu.status.is_in_vblank());
    let status = ppu.read_status();
    assert_eq!(status & 0x80, 0x80);
    assert_eq!(ppu.status.read() & 0x80, 0x00);
    assert!(!ppu.status.is_in_vblank());
}

#[test]
fn test_oam_read_write() {
    let mut ppu = NesPPU::new_empty_rom();
    ppu.write_oam_address(0x10);
    ppu.write_oam_data(0x66);
    ppu.write_oam_data(0x77);

    ppu.write_oam_address(0x10);
    assert_eq!(ppu.read_oam_data(), 0x66);
    ppu.write_oam_address(0x11);
    assert_eq!(ppu.read_oam_data(), 0x77);
}

#[test]
fn test_oam_dma() {
    let mut ppu = NesPPU::new_empty_rom();

    let mut data = vec![0x66; 256];
    data[0] = 0x77;
    data[0xff] = 0x88;
    ppu.write_oam_address(0x10);
    ppu.write_oam_dma(&data);

    ppu.write_oam_address(0x10);
    assert_eq!(ppu.read_oam_data(), 0x77);
    ppu.write_oam_address(0x0f);
    assert_eq!(ppu.read_oam_data(), 0x88);
    ppu.write_oam_address(0x11);
    assert_eq!(ppu.read_oam_data(), 0x66);
}
