pub mod address;
pub mod control;
pub mod mask;
pub mod scroll;
pub mod status;

use vstd::prelude::*;
use crate::rom::Mirroring;
use crate::rom::zeros;
use crate::ppu::address::AddressRegister;
use crate::ppu::address::latched;
use crate::ppu::control::ControlRegister;
use crate::ppu::mask::MaskRegister;
use crate::ppu::scroll::ScrollRegister;
use crate::ppu::status::StatusRegister;

verus! {

pub const PPU_REG_CONTROLLER: u16 = 0x2000;
pub const PPU_REG_MASK: u16 = 0x2001;
pub const PPU_REG_STATUS: u16 = 0x2002;
pub const PPU_REG_OAM_ADDRESS: u16 = 0x2003;
pub const PPU_REG_OAM_DATA: u16 = 0x2004;
pub const PPU_REG_SCROLL: u16 = 0x2005;
pub const PPU_REG_ADDRESS: u16 = 0x2006;
pub const PPU_REG_DATA: u16 = 0x2007;
pub const PPU_REG_END: u16 = 0x2008;
pub const PPU_REG_OAM_DMA: u16 = 0x4014;

/// The picture processing unit: its memories, registers and the
/// scanline/dot counter.
///
/// `vram` holds 4 KiB: the console's 2 KiB of nametable RAM, which the
/// horizontal and vertical layouts use alone, and the 2 KiB more that a
/// four-screen cartridge brings.
pub struct NesPPU {
    pub chr_rom: Vec<u8>,
    pub palette_table: Vec<u8>,
    pub vram: Vec<u8>,
    pub oam_address: u8,
    pub oam_data: Vec<u8>,
    pub internal_data_buffer: u8,
    /// The dot within the current scanline.
    pub cycles: usize,
    pub scanline: u16,
    pub nmi_interrupt: Option<u8>,
    pub mirroring: Mirroring,
    pub address: AddressRegister,
    pub control: ControlRegister,
    pub status: StatusRegister,
    pub scroll: ScrollRegister,
    pub mask: MaskRegister,
}

/// The state of a PPU as plain values.
pub struct PpuView {
    pub chr: Seq<u8>,
    pub palette: Seq<u8>,
    pub vram: Seq<u8>,
    pub oam_address: u8,
    pub oam: Seq<u8>,
    pub buffer: u8,
    pub cycles: int,
    pub scanline: int,
    pub nmi: Option<u8>,
    pub mirroring: Mirroring,
    pub address: AddressRegister,
    pub control: ControlRegister,
    pub status: StatusRegister,
    pub scroll: ScrollRegister,
    pub mask: MaskRegister,
}

impl View for NesPPU {
    type V = PpuView;

    open spec fn view(&self) -> PpuView {
        PpuView {
            chr: self.chr_rom@,
            palette: self.palette_table@,
            vram: self.vram@,
            oam_address: self.oam_address,
            oam: self.oam_data@,
            buffer: self.internal_data_buffer,
            cycles: self.cycles as int,
            scanline: self.scanline as int,
            nmi: self.nmi_interrupt,
            mirroring: self.mirroring,
            address: self.address,
            control: self.control,
            status: self.status,
            scroll: self.scroll,
            mask: self.mask,
        }
    }
}

/// The index into the 2 KiB nametable RAM of a nametable address
/// (0x2000..=0x2FFF) under a mirroring.
pub open spec fn mirror_spec(m: Mirroring, addr: u16) -> int {
    let index = addr as int - 0x2000;
    let table = index / 0x400;
    match m {
        Mirroring::HORIZONTAL => if table == 1 || table == 2 {
            index - 0x400
        } else if table == 3 {
            index - 0x800
        } else {
            index
        },
        Mirroring::VERTICAL => if table == 2 || table == 3 {
            index - 0x800
        } else {
            index
        },
        Mirroring::FOUR_SCREEN => index,
    }
}

/// The index into the 32-byte palette table of a palette address
/// (0x3F00..=0x3FFF): the table repeats every 32 bytes, and 0x10, 0x14,
/// 0x18 and 0x1C share their cells with 0x00, 0x04, 0x08 and 0x0C.
pub open spec fn palette_index_spec(addr: u16) -> int {
    let i = (addr as int - 0x3f00) % 32;
    if i == 0x10 || i == 0x14 || i == 0x18 || i == 0x1c {
        i - 0x10
    } else {
        i
    }
}

/// Whether the PPU may access `addr`; 0x3000..=0x3EFF is refused.
pub open spec fn legal_ppu_address(addr: int) -> bool {
    !(0x3000 <= addr <= 0x3eff)
}

impl PpuView {
    /// A PPU at power-up: memories cleared, registers zero, dot and
    /// scanline 0, no NMI pending.
    pub open spec fn power_up(chr: Seq<u8>, mirroring: Mirroring) -> PpuView {
        PpuView {
            chr,
            palette: Seq::new(32, |i: int| 0u8),
            vram: Seq::new(4096, |i: int| 0u8),
            oam_address: 0,
            oam: Seq::new(256, |i: int| 0u8),
            buffer: 0,
            cycles: 0,
            scanline: 0,
            nmi: None,
            mirroring,
            address: AddressRegister { hi: 0, lo: 0, is_hi: true },
            control: ControlRegister { bits: 0 },
            status: StatusRegister { bits: 0 },
            scroll: ScrollRegister { scroll_x: 0, scroll_y: 0, latch: false },
            mask: MaskRegister { bits: 0 },
        }
    }

    pub open spec fn wf(&self) -> bool {
        &&& self.palette.len() == 32
        &&& self.vram.len() == 4096
        &&& self.oam.len() == 256
        &&& self.address.wf()
        &&& self.cycles < 341
        &&& self.scanline < 262
    }

    /// The CHR byte at `addr`; 0 past the end of a short CHR ROM.
    pub open spec fn chr_at(&self, addr: int) -> u8 {
        if 0 <= addr < self.chr.len() { self.chr[addr] } else { 0 }
    }

    /// The state after the address moves on by the control stride.
    pub open spec fn stepped(&self) -> PpuView {
        PpuView { address: self.address.increment_spec(self.control.increment_spec()), ..*self }
    }

    /// What a PPUDATA read returns, and the state after it.
    pub open spec fn read_data_spec(&self) -> (PpuView, u8) {
        let addr = self.address.addr();
        let s = self.stepped();
        if addr < 0x2000 {
            (PpuView { buffer: self.chr_at(addr), ..s }, self.buffer)
        } else if addr < 0x3000 {
            (PpuView { buffer: self.vram[mirror_spec(self.mirroring, addr as u16)], ..s }, self.buffer)
        } else {
            (
                PpuView { buffer: self.vram[mirror_spec(self.mirroring, (addr - 0x1000) as u16)], ..s },
                self.palette[palette_index_spec(addr as u16)],
            )
        }
    }

    /// The state after a PPUDATA write.
    pub open spec fn write_data_spec(&self, data: u8) -> PpuView {
        let addr = self.address.addr();
        let s = self.stepped();
        if addr < 0x2000 {
            s
        } else if addr < 0x3000 {
            PpuView { vram: self.vram.update(mirror_spec(self.mirroring, addr as u16), data), ..s }
        } else {
            PpuView { palette: self.palette.update(palette_index_spec(addr as u16), data), ..s }
        }
    }

    /// The state after a write to the control register.
    pub open spec fn write_control_spec(&self, data: u8) -> PpuView {
        let c = ControlRegister { bits: data };
        if !self.control.nmi_enabled() && c.nmi_enabled() && self.status.vblank() {
            PpuView { control: c, nmi: Some(1u8), ..*self }
        } else {
            PpuView { control: c, ..*self }
        }
    }

    /// What a status read returns, and the state after it.
    pub open spec fn read_status_spec(&self) -> (PpuView, u8) {
        (
            PpuView {
                status: StatusRegister { bits: StatusRegister::with_vblank(self.status.bits, false) },
                address: AddressRegister { is_hi: true, ..self.address },
                scroll: ScrollRegister { latch: false, ..self.scroll },
                ..*self
            },
            self.status.bits,
        )
    }

    /// The state after an OAMDATA write.
    pub open spec fn write_oam_data_spec(&self, data: u8) -> PpuView {
        PpuView {
            oam: self.oam.update(self.oam_address as int, data),
            oam_address: ((self.oam_address + 1) % 256) as u8,
            ..*self
        }
    }

    /// The OAM after 256 bytes are streamed in from the OAM address on,
    /// wrapping at the end of OAM.
    pub open spec fn dma_oam(&self, data: Seq<u8>) -> Seq<u8> {
        Seq::new(256, |i: int| data[(i - self.oam_address) % 256])
    }

    /// The state after `tick(n)` and whether a frame was completed.
    #[verifier::opaque]
    pub open spec fn tick_spec(&self, n: u8) -> (PpuView, bool) {
        let c = self.cycles + n;
        if c < 341 {
            (PpuView { cycles: c, ..*self }, false)
        } else {
            let line = self.scanline + 1;
            let s = PpuView { cycles: c - 341, scanline: line, ..*self };
            let s = if line == 241 {
                PpuView {
                    status: StatusRegister { bits: StatusRegister::with_vblank(s.status.bits, true) },
                    nmi: if s.control.nmi_enabled() { Some(1u8) } else { s.nmi },
                    ..s
                }
            } else {
                s
            };
            if line >= 262 {
                (
                    PpuView {
                        scanline: 0,
                        status: StatusRegister { bits: StatusRegister::with_vblank(s.status.bits, false) },
                        ..s
                    },
                    true,
                )
            } else {
                (s, false)
            }
        }
    }
}

impl NesPPU {
    pub open spec fn wf(&self) -> bool {
        self@.wf()
    }

    /// A PPU with 8 KiB of blank CHR and horizontal mirroring.
    pub fn new_empty_rom() -> (r: Self)
        ensures
            r.wf(),
            r@ == PpuView::power_up(Seq::new(0x2000, |i: int| 0u8), Mirroring::HORIZONTAL),
    {
        NesPPU::new(zeros(0x2000), Mirroring::HORIZONTAL)
    }

    /// A PPU at power-up.
    pub fn new(chr_rom: Vec<u8>, mirroring: Mirroring) -> (r: Self)
        ensures
            r.wf(),
            r@ == PpuView::power_up(chr_rom@, mirroring),
    {
        NesPPU {
            chr_rom,
            palette_table: zeros(32),
            vram: zeros(4096),
            oam_address: 0,
            oam_data: zeros(256),
            internal_data_buffer: 0,
            cycles: 0,
            scanline: 0,
            nmi_interrupt: None,
            mirroring,
            address: AddressRegister::new(),
            control: ControlRegister::new(),
            status: StatusRegister::new(),
            scroll: ScrollRegister::new(),
            mask: MaskRegister::new(),
        }
    }

    fn increment_vram_address(&mut self)
        requires
            old(self).wf(),
        ensures
            final(self)@ == old(self)@.stepped(),
            final(self).wf(),
    {
        let inc = self.control.vram_address_increment();
        self.address.increment(inc);
    }

    /// The nametable RAM index of a nametable address.
    pub fn mirror_vram_address(&self, addr: u16) -> (r: u16)
        requires
            0x2000 <= addr <= 0x2fff,
        ensures
            r as int == mirror_spec(self.mirroring, addr),
            r < 0x1000,
            self.mirroring != Mirroring::FOUR_SCREEN ==> r < 0x800,
    {
        let index = addr - 0x2000;
        let table = index / 0x0400;
        assert(index < 0x1000 && table < 4);
        assert(table == 0 ==> index < 0x400);
        assert(table == 1 ==> 0x400 <= index < 0x800);
        assert(table == 2 ==> 0x800 <= index < 0xc00);
        assert(table == 3 ==> 0xc00 <= index);
        match self.mirroring {
            Mirroring::HORIZONTAL => if table == 1 || table == 2 {
                index - 0x0400
            } else if table == 3 {
                index - 0x0800
            } else {
                index
            },
            Mirroring::VERTICAL => if table == 2 || table == 3 {
                index - 0x0800
            } else {
                index
            },
            Mirroring::FOUR_SCREEN => index,
        }
    }

    fn palette_index(addr: u16) -> (r: usize)
        requires
            0x3f00 <= addr <= 0x3fff,
        ensures
            r as int == palette_index_spec(addr),
            r < 32,
    {
        let i = ((addr - 0x3f00) % 32) as usize;
        if i == 0x10 || i == 0x14 || i == 0x18 || i == 0x1c {
            i - 0x10
        } else {
            i
        }
    }

    fn chr_byte(&self, addr: usize) -> (r: u8)
        ensures
            r == self@.chr_at(addr as int),
    {
        if addr < self.chr_rom.len() {
            self.chr_rom[addr]
        } else {
            0
        }
    }

    /// Advances the dot counter by `cycles`; at the end of a scanline moves
    /// to the next one, enters VBlank (raising an NMI when enabled) at
    /// scanline 241, and completes the frame at scanline 262.
    pub fn tick(&mut self, cycles: u8) -> (r: bool)
        requires
            old(self).wf(),
        ensures
            final(self).wf(),
            (final(self)@, r) == old(self)@.tick_spec(cycles),
    {
        proof {
            reveal(PpuView::tick_spec);
        }
        self.cycles = self.cycles + cycles as usize;
        if self.cycles >= 341 {
            self.cycles = self.cycles - 341;
            self.scanline = self.scanline + 1;
            if self.scanline == 241 {
                self.status.set_vblank_status(true);
                if self.control.generate_vblank_nmi() {
                    self.nmi_interrupt = Some(1);
                }
            }
            if self.scanline >= 262 {
                self.scanline = 0;
                self.status.set_vblank_status(false);
                return true;
            }
        }
        false
    }

    /// Takes the pending NMI, if any.
    pub fn poll_nmi(&mut self) -> (r: Option<u8>)
        ensures
            r == old(self)@.nmi,
            final(self)@ == (PpuView { nmi: None, ..old(self)@ }),
    {
        self.nmi_interrupt.take()
    }

    pub fn write_address(&mut self, data: u8)
        requires
            old(self).wf(),
        ensures
            final(self).wf(),
            final(self)@ == (PpuView { address: old(self)@.address.update_spec(data), ..old(self)@ }),
    {
        self.address.update(data);
    }

    /// Reads PPUDATA: returns the buffered byte and refills the buffer from
    /// the current address; palette bytes come back at once. The address
    /// then moves on by the control stride.
    pub fn read_data(&mut self) -> (r: u8)
        requires
            old(self).wf(),
            legal_ppu_address(old(self)@.address.addr()),
        ensures
            final(self).wf(),
            (final(self)@, r) == old(self)@.read_data_spec(),
    {
        let addr = self.address.get();
        self.increment_vram_address();
        let data = self.internal_data_buffer;
        if addr < 0x2000 {
            self.internal_data_buffer = self.chr_byte(addr as usize);
            data
        } else if addr < 0x3000 {
            let i = self.mirror_vram_address(addr);
            self.internal_data_buffer = self.vram[i as usize];
            data
        } else {
            let i = self.mirror_vram_address(addr - 0x1000);
            self.internal_data_buffer = self.vram[i as usize];
            self.palette_table[Self::palette_index(addr)]
        }
    }

    /// Writes PPUDATA at the current address (CHR ROM writes are dropped),
    /// then moves the address on by the control stride.
    pub fn write_data(&mut self, data: u8)
        requires
            old(self).wf(),
            legal_ppu_address(old(self)@.address.addr()),
        ensures
            final(self).wf(),
            final(self)@ == old(self)@.write_data_spec(data),
    {
        let addr = self.address.get();
        if addr < 0x2000 {
        } else if addr < 0x3000 {
            let i = self.mirror_vram_address(addr);
            self.vram.set(i as usize, data);
        } else {
            let i = Self::palette_index(addr);
            self.palette_table.set(i, data);
        }
        self.increment_vram_address();
    }

    /// Stores the control byte; enabling the NMI while in VBlank raises one.
    pub fn write_control(&mut self, data: u8)
        ensures
            final(self)@ == old(self)@.write_control_spec(data),
    {
        let before_nmi_status = self.control.generate_vblank_nmi();
        self.control.update(data);
        if !before_nmi_status && self.control.generate_vblank_nmi() && self.status.is_in_vblank() {
            self.nmi_interrupt = Some(1);
        }
    }

    /// Returns the status byte, then clears VBlank and resets the address
    /// and scroll toggles.
    pub fn read_status(&mut self) -> (r: u8)
        requires
            old(self).wf(),
        ensures
            final(self).wf(),
            (final(self)@, r) == old(self)@.read_status_spec(),
    {
        let data = self.status.read();
        self.status.set_vblank_status(false);
        self.address.reset();
        self.scroll.reset();
        data
    }

    pub fn write_scroll(&mut self, data: u8)
        ensures
            final(self)@ == (PpuView { scroll: old(self)@.scroll.update_spec(data), ..old(self)@ }),
    {
        self.scroll.update(data);
    }

    pub fn write_mask(&mut self, data: u8)
        ensures
            final(self)@ == (PpuView { mask: MaskRegister { bits: data }, ..old(self)@ }),
    {
        self.mask.update(data);
    }

    pub fn write_oam_address(&mut self, data: u8)
        ensures
            final(self)@ == (PpuView { oam_address: data, ..old(self)@ }),
    {
        self.oam_address = data;
    }

    /// Writes OAM at the OAM address, which then moves on (wrapping).
    pub fn write_oam_data(&mut self, data: u8)
        requires
            old(self).wf(),
        ensures
            final(self).wf(),
            final(self)@ == old(self)@.write_oam_data_spec(data),
    {
        self.oam_data.set(self.oam_address as usize, data);
        self.oam_address = self.oam_address.wrapping_add(1);
    }

    pub fn read_oam_data(&self) -> (r: u8)
        requires
            self.wf(),
        ensures
            r == self@.oam[self@.oam_address as int],
    {
        self.oam_data[self.oam_address as usize]
    }

    /// Streams 256 bytes into OAM from the OAM address on, wrapping.
    pub fn write_oam_dma(&mut self, data: &Vec<u8>)
        requires
            old(self).wf(),
            data.len() == 256,
        ensures
            final(self).wf(),
            final(self)@ == (PpuView { oam: old(self)@.dma_oam(data@), ..old(self)@ }),
    {
        let ghost start = self.oam_address;
        let ghost before = self.oam_data@;
        let mut i: usize = 0;
        while i < 256
            invariant
                old(self).wf(),
                data.len() == 256,
                i <= 256,
                self.oam_data.len() == 256,
                self.oam_address as int == (start + i) % 256,
                start == old(self).oam_address,
                before == old(self).oam_data@,
                forall|j: int| 0 <= j < 256 ==> #[trigger] self.oam_data@[j] == if (j - start) % 256 < i {
                    data@[(j - start) % 256]
                } else {
                    before[j]
                },
                self@ == (PpuView { oam: self.oam_data@, oam_address: self.oam_address, ..old(self)@ }),
            decreases 256 - i,
        {
            self.oam_data.set(self.oam_address as usize, data[i]);
            self.oam_address = self.oam_address.wrapping_add(1);
            i = i + 1;
        }
        assert(self.oam_data@ =~= old(self)@.dma_oam(data@));
    }
}

/// After a status read, the next two address writes land in the high and
/// then the low byte, whatever the toggle was before.
pub proof fn lemma_address_after_status(p: PpuView, hi: u8, lo: u8)
    requires
        p.wf(),
    ensures
        ({
            let s = p.read_status_spec().0;
            let a = s.address.update_spec(hi);
            let b = a.update_spec(lo);
            &&& b.addr() == latched(hi, lo)
            &&& b.expects_hi()
        }),
{
    let s = p.read_status_spec().0;
    assert(s.address == AddressRegister { is_hi: true, ..p.address });
    lemma_address_two_writes(s.address, hi, lo);
}

/// Two address writes from the high-byte state land in high, then low.
pub proof fn lemma_address_two_writes(r: AddressRegister, hi: u8, lo: u8)
    requires
        r.wf(),
        r.expects_hi(),
    ensures
        r.update_spec(hi).update_spec(lo).addr() == latched(hi, lo),
        r.update_spec(hi).update_spec(lo).expects_hi(),
{
    let x = hi as int * 256 + r.lo as int;
    let m = x % 0x4000;
    assert(m / 256 == hi as int % 64 && m % 256 == r.lo as int) by (nonlinear_arith)
        requires x == hi as int * 256 + r.lo as int, m == x % 0x4000, 0 <= r.lo < 256, 0 <= hi < 256;
    let a = r.update_spec(hi);
    assert(a.hi as int == hi as int % 64);
    let y = (hi as int % 64) * 256 + lo as int;
    assert(y % 0x4000 == (hi as int * 256 + lo as int) % 0x4000) by (nonlinear_arith)
        requires y == (hi as int % 64) * 256 + lo as int, 0 <= lo < 256, 0 <= hi < 256;
}

} // verus!

verus! {

/// The register interface that the CPU sees at 0x2000..=0x2007 and 0x4014.
/// Each access relates the PPU before and after it, and its result, by a
/// predicate of the implementation.
pub trait PPU: Sized {
    /// Whether the state is one the register accesses accept.
    spec fn ppu_ok(&self) -> bool;

    /// Whether a PPUDATA access is allowed at the current address.
    spec fn data_access_ok(&self) -> bool;

    /// What a write of `data` to register `reg` (0x2000..=0x2007) leaves.
    spec fn write_effect(before: Self, after: Self, reg: u16, data: u8) -> bool;

    /// What a read of register `reg` (0x2002 or 0x2007) returns and leaves.
    spec fn read_effect(before: Self, after: Self, reg: u16, r: u8) -> bool;

    /// The byte that an OAMDATA read returns.
    spec fn oam_byte(&self) -> u8;

    /// What an OAM DMA of `data` leaves.
    spec fn dma_effect(before: Self, after: Self, data: Seq<u8>) -> bool;

    fn write_address(&mut self, data: u8)
        requires
            old(self).ppu_ok(),
        ensures
            final(self).ppu_ok(),
            Self::write_effect(*old(self), *final(self), 0x2006, data),
    ;

    fn write_data(&mut self, data: u8)
        requires
            old(self).ppu_ok(),
            old(self).data_access_ok(),
        ensures
            final(self).ppu_ok(),
            Self::write_effect(*old(self), *final(self), 0x2007, data),
    ;

    fn write_control(&mut self, data: u8)
        requires
            old(self).ppu_ok(),
        ensures
            final(self).ppu_ok(),
            Self::write_effect(*old(self), *final(self), 0x2000, data),
    ;

    fn write_scroll(&mut self, data: u8)
        requires
            old(self).ppu_ok(),
        ensures
            final(self).ppu_ok(),
            Self::write_effect(*old(self), *final(self), 0x2005, data),
    ;

    fn write_mask(&mut self, data: u8)
        requires
            old(self).ppu_ok(),
        ensures
            final(self).ppu_ok(),
            Self::write_effect(*old(self), *final(self), 0x2001, data),
    ;

    fn write_oam_address(&mut self, data: u8)
        requires
            old(self).ppu_ok(),
        ensures
            final(self).ppu_ok(),
            Self::write_effect(*old(self), *final(self), 0x2003, data),
    ;

    fn write_oam_data(&mut self, data: u8)
        requires
            old(self).ppu_ok(),
        ensures
            final(self).ppu_ok(),
            Self::write_effect(*old(self), *final(self), 0x2004, data),
    ;

    fn read_data(&mut self) -> (r: u8)
        requires
            old(self).ppu_ok(),
            old(self).data_access_ok(),
        ensures
            final(self).ppu_ok(),
            Self::read_effect(*old(self), *final(self), 0x2007, r),
    ;

    fn read_status(&mut self) -> (r: u8)
        requires
            old(self).ppu_ok(),
        ensures
            final(self).ppu_ok(),
            Self::read_effect(*old(self), *final(self), 0x2002, r),
    ;

    fn read_oam_data(&self) -> (r: u8)
        requires
            self.ppu_ok(),
        ensures
            r == self.oam_byte(),
    ;

    fn write_oam_dma(&mut self, data: &Vec<u8>)
        requires
            old(self).ppu_ok(),
            data.len() == 256,
        ensures
            final(self).ppu_ok(),
            Self::dma_effect(*old(self), *final(self), data@),
    ;
}

impl PpuView {
    /// The state after a write of `data` to register `reg`.
    pub open spec fn register_write_spec(&self, reg: u16, data: u8) -> PpuView {
        if reg == 0x2000 {
            self.write_control_spec(data)
        } else if reg == 0x2001 {
            PpuView { mask: MaskRegister { bits: data }, ..*self }
        } else if reg == 0x2003 {
            PpuView { oam_address: data, ..*self }
        } else if reg == 0x2004 {
            self.write_oam_data_spec(data)
        } else if reg == 0x2005 {
            PpuView { scroll: self.scroll.update_spec(data), ..*self }
        } else if reg == 0x2006 {
            PpuView { address: self.address.update_spec(data), ..*self }
        } else if reg == 0x2007 {
            self.write_data_spec(data)
        } else {
            *self
        }
    }
}

impl PPU for NesPPU {
    open spec fn ppu_ok(&self) -> bool {
        self.wf()
    }

    open spec fn data_access_ok(&self) -> bool {
        legal_ppu_address(self@.address.addr())
    }

    open spec fn write_effect(before: NesPPU, after: NesPPU, reg: u16, data: u8) -> bool {
        after@ == before@.register_write_spec(reg, data)
    }

    open spec fn read_effect(before: NesPPU, after: NesPPU, reg: u16, r: u8) -> bool {
        if reg == 0x2002 {
            (after@, r) == before@.read_status_spec()
        } else {
            (after@, r) == before@.read_data_spec()
        }
    }

    open spec fn oam_byte(&self) -> u8 {
        self@.oam[self@.oam_address as int]
    }

    open spec fn dma_effect(before: NesPPU, after: NesPPU, data: Seq<u8>) -> bool {
        after@ == (PpuView { oam: before@.dma_oam(data), ..before@ })
    }

    fn write_address(&mut self, data: u8) {
        NesPPU::write_address(self, data)
    }

    fn write_data(&mut self, data: u8) {
        NesPPU::write_data(self, data)
    }

    fn write_control(&mut self, data: u8) {
        NesPPU::write_control(self, data)
    }

    fn write_scroll(&mut self, data: u8) {
        NesPPU::write_scroll(self, data)
    }

    fn write_mask(&mut self, data: u8) {
        NesPPU::write_mask(self, data)
    }

    fn write_oam_address(&mut self, data: u8) {
        NesPPU::write_oam_address(self, data)
    }

    fn write_oam_data(&mut self, data: u8) {
        NesPPU::write_oam_data(self, data)
    }

    fn read_data(&mut self) -> (r: u8) {
        NesPPU::read_data(self)
    }

    fn read_status(&mut self) -> (r: u8) {
        NesPPU::read_status(self)
    }

    fn read_oam_data(&self) -> (r: u8) {
        NesPPU::read_oam_data(self)
    }

    fn write_oam_dma(&mut self, data: &Vec<u8>) {
        NesPPU::write_oam_dma(self, data)
    }
}

} // verus!
