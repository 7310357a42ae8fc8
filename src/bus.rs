use vstd::prelude::*;
use crate::joypad::Joypad;
use crate::ppu::NesPPU;
use crate::ppu::PpuView;
use crate::ppu::legal_ppu_address;
use crate::rom::Mirroring;
use crate::rom::Rom;
use crate::rom::zeros;

verus! {

/// A fatal bus access. The bus latches it, reads 0 and drops the write;
/// the CPU stops on it after the instruction.
#[derive(PartialEq, Eq, Structural, Debug, Clone, Copy)]
pub enum BusFault {
    /// A write into PRG ROM at this CPU address.
    WriteToPrgRom(u16),
    /// A PPUDATA access at this PPU address in the refused window.
    IllegalPpuAddress(u16),
}

/// The CPU's address bus: 2 KiB of RAM, PRG ROM, the PPU and gamepad 1.
pub struct Bus {
    pub cpu_vram: Vec<u8>,
    pub prg_rom: Vec<u8>,
    pub ppu: NesPPU,
    pub joypad_1: Joypad,
    pub cycles: usize,
    pub fault: Option<BusFault>,
}

/// The state of a bus as plain values.
pub struct BusView {
    pub ram: Seq<u8>,
    pub prg: Seq<u8>,
    pub ppu: PpuView,
    pub joypad: Joypad,
    pub cycles: int,
    pub fault: Option<BusFault>,
}

impl View for Bus {
    type V = BusView;

    open spec fn view(&self) -> BusView {
        BusView {
            ram: self.cpu_vram@,
            prg: self.prg_rom@,
            ppu: self.ppu@,
            joypad: self.joypad_1,
            cycles: self.cycles as int,
            fault: self.fault,
        }
    }
}

/// The register that an address of the PPU window (0x2000..=0x3FFF) selects.
pub open spec fn ppu_register(addr: u16) -> u16 {
    if 0x2008 <= addr <= 0x3fff { addr & 0x2007 } else { addr }
}

proof fn lemma_masks(addr: u16)
    ensures
        addr & 0x7ff < 0x800,
        0x2008 <= addr <= 0x3fff ==> 0x2000 <= addr & 0x2007 <= 0x2007,
{
    assert(addr & 0x7ff < 0x800 && (0x2008 <= addr <= 0x3fff ==> 0x2000 <= addr & 0x2007 <= 0x2007))
        by (bit_vector);
}

impl BusView {
    pub open spec fn wf(&self) -> bool {
        &&& self.ram.len() == 2048
        &&& self.prg.len() == 0x4000 || self.prg.len() == 0x8000
        &&& self.ppu.wf()
        &&& self.joypad.wf()
    }

    /// The PRG ROM index of a CPU address in 0x8000..=0xFFFF; a 16 KiB ROM
    /// is mirrored into both halves.
    pub open spec fn prg_index(&self, addr: u16) -> int {
        if self.prg.len() == 0x4000 {
            (addr - 0x8000) % 0x4000
        } else {
            addr - 0x8000
        }
    }

    /// What a read of `addr` returns, and the bus after it.
    #[verifier::opaque]
    pub open spec fn read_spec(&self, addr: u16) -> (BusView, u8) {
        let a = ppu_register(addr);
        if a < 0x2000 {
            (*self, self.ram[(a & 0x7ff) as int])
        } else if a == 0x2002 {
            let (p, r) = self.ppu.read_status_spec();
            (BusView { ppu: p, ..*self }, r)
        } else if a == 0x2004 {
            (*self, self.ppu.oam[self.ppu.oam_address as int])
        } else if a == 0x2007 {
            if legal_ppu_address(self.ppu.address.addr()) {
                let (p, r) = self.ppu.read_data_spec();
                (BusView { ppu: p, ..*self }, r)
            } else {
                (BusView { fault: Some(BusFault::IllegalPpuAddress(self.ppu.address.addr() as u16)), ..*self }, 0u8)
            }
        } else if a == 0x4016 {
            let (j, r) = self.joypad.read_spec();
            (BusView { joypad: j, ..*self }, r)
        } else if a >= 0x8000 {
            (*self, self.prg[self.prg_index(a)])
        } else {
            (*self, 0u8)
        }
    }

    /// The bus after a write of `data` to `addr`, other than an OAM DMA.
    #[verifier::opaque]
    pub open spec fn write_spec(&self, addr: u16, data: u8) -> BusView {
        let a = ppu_register(addr);
        if a < 0x2000 {
            BusView { ram: self.ram.update((a & 0x7ff) as int, data), ..*self }
        } else if a == 0x2000 {
            BusView { ppu: self.ppu.write_control_spec(data), ..*self }
        } else if a == 0x2001 {
            BusView { ppu: PpuView { mask: crate::ppu::mask::MaskRegister { bits: data }, ..self.ppu }, ..*self }
        } else if a == 0x2003 {
            BusView { ppu: PpuView { oam_address: data, ..self.ppu }, ..*self }
        } else if a == 0x2004 {
            BusView { ppu: self.ppu.write_oam_data_spec(data), ..*self }
        } else if a == 0x2005 {
            BusView { ppu: PpuView { scroll: self.ppu.scroll.update_spec(data), ..self.ppu }, ..*self }
        } else if a == 0x2006 {
            BusView { ppu: PpuView { address: self.ppu.address.update_spec(data), ..self.ppu }, ..*self }
        } else if a == 0x2007 {
            if legal_ppu_address(self.ppu.address.addr()) {
                BusView { ppu: self.ppu.write_data_spec(data), ..*self }
            } else {
                BusView { fault: Some(BusFault::IllegalPpuAddress(self.ppu.address.addr() as u16)), ..*self }
            }
        } else if a == 0x4016 {
            BusView { joypad: self.joypad.write_spec(data), ..*self }
        } else if a >= 0x8000 {
            BusView { fault: Some(BusFault::WriteToPrgRom(a)), ..*self }
        } else {
            *self
        }
    }

    /// The bus after the first `n` reads of an OAM DMA from `page`, and the
    /// bytes they returned.
    pub open spec fn dma_reads(&self, page: u8, n: nat) -> (BusView, Seq<u8>)
        decreases n,
    {
        if n == 0 {
            (*self, Seq::empty())
        } else {
            let (b, s) = self.dma_reads(page, (n - 1) as nat);
            let (b2, v) = b.read_spec((page as int * 256 + (n - 1)) as u16);
            (b2, s.push(v))
        }
    }

    /// The bus after a write of `data` to `addr`, OAM DMA included.
    pub open spec fn store_spec(&self, addr: u16, data: u8) -> BusView {
        if addr == 0x4014 {
            let (b, bytes) = self.dma_reads(data, 256);
            BusView { ppu: PpuView { oam: b.ppu.dma_oam(bytes), ..b.ppu }, ..b }
        } else {
            self.write_spec(addr, data)
        }
    }

    /// What a little-endian 16-bit read returns, and the bus after it.
    pub open spec fn read16_spec(&self, addr: u16) -> (BusView, u16) {
        let (b1, lo) = self.read_spec(addr);
        let (b2, hi) = b1.read_spec(((addr + 1) % 0x10000) as u16);
        (b2, (hi as int * 256 + lo as int) as u16)
    }

    /// The bus after `tick(n)`, and whether a frame was just completed.
    pub open spec fn tick_spec(&self, n: u8) -> (BusView, bool) {
        let (p, _) = self.ppu.tick_spec((n * 3) as u8);
        (
            BusView {
                ppu: p,
                cycles: if self.cycles + n <= usize::MAX {
                    self.cycles + n
                } else {
                    self.cycles + n - usize::MAX - 1
                },
                ..*self
            },
            self.ppu.nmi is None && p.nmi is Some,
        )
    }
}

impl Bus {
    pub open spec fn wf(&self) -> bool {
        self@.wf()
    }

    /// A bus with a cartridge: PRG ROM to the bus, CHR ROM and mirroring to
    /// the PPU.
    pub fn new_with_rom(rom: Rom) -> (r: Bus)
        requires
            rom.wf(),
        ensures
            r.wf(),
            r@ == (BusView {
                ram: Seq::new(2048, |i: int| 0u8),
                prg: rom.prg_rom@,
                ppu: PpuView::power_up(rom.chr_rom@, rom.screen_mirroring),
                joypad: Joypad { strobe: false, index: 0, status: 0 },
                cycles: 0,
                fault: None,
            }),
    {
        let ppu = NesPPU::new(rom.chr_rom, rom.screen_mirroring);
        Bus {
            cpu_vram: zeros(2048),
            prg_rom: rom.prg_rom,
            ppu,
            joypad_1: Joypad::new(),
            cycles: 0,
            fault: None,
        }
    }

    /// A bus with a blank 16 KiB PRG ROM and a blank PPU.
    pub fn new() -> (r: Bus)
        ensures
            r.wf(),
            r@ == (BusView {
                ram: Seq::new(2048, |i: int| 0u8),
                prg: Seq::new(0x4000, |i: int| 0u8),
                ppu: PpuView::power_up(Seq::new(0x2000, |i: int| 0u8), Mirroring::HORIZONTAL),
                joypad: Joypad { strobe: false, index: 0, status: 0 },
                cycles: 0,
                fault: None,
            }),
    {
        Bus {
            cpu_vram: zeros(2048),
            prg_rom: zeros(0x4000),
            ppu: NesPPU::new_empty_rom(),
            joypad_1: Joypad::new(),
            cycles: 0,
            fault: None,
        }
    }

    /// Counts `cycles` CPU cycles and runs the PPU three dots for each.
    /// Returns whether this raised the VBlank NMI, the moment at which a
    /// host shows the frame and polls its input.
    pub fn tick(&mut self, cycles: u8) -> (r: bool)
        requires
            old(self).wf(),
            cycles <= 85,
        ensures
            final(self).wf(),
            (final(self)@, r) == old(self)@.tick_spec(cycles),
    {
        if self.cycles <= usize::MAX - cycles as usize {
            self.cycles = self.cycles + cycles as usize;
        } else {
            self.cycles = cycles as usize - (usize::MAX - self.cycles) - 1;
        }
        let nmi_before = self.ppu.nmi_interrupt.is_some();
        self.ppu.tick(cycles * 3);
        let nmi_after = self.ppu.nmi_interrupt.is_some();
        !nmi_before && nmi_after
    }

    /// Takes the PPU's pending NMI, if any.
    pub fn poll_nmi(&mut self) -> (r: Option<u8>)
        ensures
            r == old(self)@.ppu.nmi,
            final(self)@ == (BusView { ppu: PpuView { nmi: None, ..old(self)@.ppu }, ..old(self)@ }),
    {
        self.ppu.poll_nmi()
    }

    /// Reads the byte at a CPU address.
    pub fn memory_read_u8(&mut self, addr: u16) -> (r: u8)
        requires
            old(self).wf(),
        ensures
            final(self).wf(),
            (final(self)@, r) == old(self)@.read_spec(addr),
    {
        proof {
            lemma_masks(addr);
            reveal(BusView::read_spec);
        }
        let a = if 0x2008 <= addr && addr <= 0x3fff { addr & 0x2007 } else { addr };
        if a < 0x2000 {
            self.cpu_vram[(a & 0x07ff) as usize]
        } else if a == 0x2002 {
            self.ppu.read_status()
        } else if a == 0x2004 {
            self.ppu.read_oam_data()
        } else if a == 0x2007 {
            let pa = self.ppu.address.get();
            if 0x3000 <= pa && pa <= 0x3eff {
                self.fault = Some(BusFault::IllegalPpuAddress(pa));
                0
            } else {
                self.ppu.read_data()
            }
        } else if a == 0x4016 {
            self.joypad_1.read()
        } else if a >= 0x8000 {
            let i = if self.prg_rom.len() == 0x4000 { (a - 0x8000) % 0x4000 } else { a - 0x8000 };
            self.prg_rom[i as usize]
        } else {
            0
        }
    }

    /// Writes a byte at a CPU address; a write to 0x4014 copies the page
    /// `data` into OAM.
    pub fn memory_write_u8(&mut self, addr: u16, data: u8)
        requires
            old(self).wf(),
        ensures
            final(self).wf(),
            final(self)@ == old(self)@.store_spec(addr, data),
    {
        proof {
            lemma_masks(addr);
            reveal(BusView::write_spec);
        }
        if addr == 0x4014 {
            self.oam_dma(data);
            return;
        }
        let a = if 0x2008 <= addr && addr <= 0x3fff { addr & 0x2007 } else { addr };
        if a < 0x2000 {
            self.cpu_vram.set((a & 0x07ff) as usize, data);
        } else if a == 0x2000 {
            self.ppu.write_control(data);
        } else if a == 0x2001 {
            self.ppu.write_mask(data);
        } else if a == 0x2003 {
            self.ppu.write_oam_address(data);
        } else if a == 0x2004 {
            self.ppu.write_oam_data(data);
        } else if a == 0x2005 {
            self.ppu.write_scroll(data);
        } else if a == 0x2006 {
            self.ppu.write_address(data);
        } else if a == 0x2007 {
            let pa = self.ppu.address.get();
            if 0x3000 <= pa && pa <= 0x3eff {
                self.fault = Some(BusFault::IllegalPpuAddress(pa));
            } else {
                self.ppu.write_data(data);
            }
        } else if a == 0x4016 {
            self.joypad_1.write(data);
        } else if a >= 0x8000 {
            self.fault = Some(BusFault::WriteToPrgRom(a));
        }
    }

    /// Reads the 256 bytes of CPU page `page` in order and streams them into
    /// OAM.
    fn oam_dma(&mut self, page: u8)
        requires
            old(self).wf(),
        ensures
            final(self).wf(),
            final(self)@ == old(self)@.store_spec(0x4014, page),
    {
        let mut buffer: Vec<u8> = Vec::new();
        let hi: u16 = (page as u16) * 256;
        let mut i: u16 = 0;
        while i < 256
            invariant
                self.wf(),
                i <= 256,
                hi == page as int * 256,
                (self@, buffer@) == old(self)@.dma_reads(page, i as nat),
            decreases 256 - i,
        {
            let ghost before = (self@, buffer@);
            let v = self.memory_read_u8(hi + i);
            buffer.push(v);
            proof {
                assert(old(self)@.dma_reads(page, (i + 1) as nat) == ({
                    let (b2, x) = before.0.read_spec((page as int * 256 + i) as u16);
                    (b2, before.1.push(x))
                }));
            }
            i = i + 1;
        }
        proof {
            lemma_dma_reads_len(old(self)@, page, 256);
        }
        self.ppu.write_oam_dma(&buffer);
    }

    /// Reads a little-endian 16-bit value.
    pub fn memory_read_u16(&mut self, addr: u16) -> (r: u16)
        requires
            old(self).wf(),
        ensures
            final(self).wf(),
            (final(self)@, r) == old(self)@.read16_spec(addr),
    {
        let lo = self.memory_read_u8(addr) as u16;
        let hi = self.memory_read_u8(addr.wrapping_add(1)) as u16;
        hi * 256 + lo
    }

    /// Writes a little-endian 16-bit value, low byte first.
    pub fn memory_write_u16(&mut self, addr: u16, data: u16)
        requires
            old(self).wf(),
        ensures
            final(self).wf(),
            final(self)@ == old(self)@.store_spec(addr, (data % 256) as u8).store_spec(
                ((addr + 1) % 0x10000) as u16,
                (data / 256) as u8,
            ),
    {
        let hi = (data / 256) as u8;
        let lo = (data % 256) as u8;
        self.memory_write_u8(addr, lo);
        self.memory_write_u8(addr.wrapping_add(1), hi);
    }
}

/// RAM repeats every 2 KiB through 0x0000..=0x1FFF: an address and its
/// mirrors read the same byte and leave the bus as it was.
pub proof fn lemma_ram_mirrors(b: BusView, addr: u16, k: u16)
    requires
        b.wf(),
        addr < 0x800,
        1 <= k <= 3,
    ensures
        b.read_spec((addr + 0x800 * k) as u16) == b.read_spec(addr),
        b.read_spec(addr).0 == b,
{
    reveal(BusView::read_spec);
    let m = (addr + 0x800 * k) as u16;
    assert(m & 0x7ff == addr & 0x7ff) by (bit_vector)
        requires m == addr + 0x800 * k, addr < 0x800, 1 <= k <= 3;
}

/// A write to RAM changes the one cell that the address selects and
/// nothing else.
pub proof fn lemma_ram_write(b: BusView, addr: u16, v: u8)
    requires
        b.wf(),
        addr < 0x800,
    ensures
        b.store_spec(addr, v) == (BusView { ram: b.ram.update(addr as int, v), ..b }),
{
    reveal(BusView::write_spec);
    assert(addr & 0x7ff == addr) by (bit_vector)
        requires addr < 0x800;
}

/// A read of RAM returns the byte of its cell and leaves the bus as it was.
pub proof fn lemma_ram_read(b: BusView, addr: u16)
    requires
        b.wf(),
        addr < 0x800,
    ensures
        b.read_spec(addr) == (b, b.ram[addr as int]),
{
    reveal(BusView::read_spec);
    assert(addr & 0x7ff == addr) by (bit_vector)
        requires addr < 0x800;
}

/// A byte written to RAM is read back unchanged.
pub proof fn lemma_ram_write_read(b: BusView, addr: u16, v: u8)
    requires
        b.wf(),
        addr < 0x2000,
    ensures
        b.store_spec(addr, v).read_spec(addr).1 == v,
{
    reveal(BusView::read_spec);
    reveal(BusView::write_spec);
    lemma_masks(addr);
}

/// An OAM DMA from page `page` copies the 256 bytes that the CPU reads from
/// `page * 256` on into OAM from the OAM address on, wrapping; the OAM
/// address is left as it was.
pub proof fn lemma_oam_dma(b: BusView, page: u8)
    requires
        b.wf(),
    ensures
        ({
            let (after, bytes) = b.dma_reads(page, 256);
            let r = b.store_spec(0x4014, page);
            &&& bytes.len() == 256
            &&& forall|k: int| 0 <= k < 256 ==> #[trigger] r.ppu.oam[(after.ppu.oam_address + k) % 256] == bytes[k]
            &&& r.ppu.oam_address == after.ppu.oam_address
        }),
{
    lemma_dma_reads_len(b, page, 256);
    let (after, bytes) = b.dma_reads(page, 256);
    let r = b.store_spec(0x4014, page);
    assert forall|k: int| 0 <= k < 256 implies #[trigger] r.ppu.oam[(after.ppu.oam_address + k) % 256] == bytes[k] by {
        let j = (after.ppu.oam_address + k) % 256;
        assert((j - after.ppu.oam_address) % 256 == k);
    }
}

proof fn lemma_dma_reads_len(b: BusView, page: u8, n: nat)
    ensures
        b.dma_reads(page, n).1.len() == n,
    decreases n,
{
    if n > 0 {
        lemma_dma_reads_len(b, page, (n - 1) as nat);
    }
}

} // verus!

verus! {

/// The CPU's view of memory: byte reads and writes, and the little-endian
/// 16-bit forms built on them. Each access relates the memory before and
/// after it, and its result, by a predicate of the implementation.
pub trait Memory: Sized {
    /// Whether the memory is in a state that the accesses accept.
    spec fn memory_ok(&self) -> bool;

    /// What a byte read of `addr` returns and leaves behind.
    spec fn read_effect(before: Self, after: Self, addr: u16, r: u8) -> bool;

    /// What a byte write of `data` at `addr` leaves behind.
    spec fn write_effect(before: Self, after: Self, addr: u16, data: u8) -> bool;

    /// What a 16-bit read of `addr` returns and leaves behind.
    spec fn read16_effect(before: Self, after: Self, addr: u16, r: u16) -> bool;

    /// What a 16-bit write of `data` at `addr` leaves behind.
    spec fn write16_effect(before: Self, after: Self, addr: u16, data: u16) -> bool;

    fn memory_read_u8(&mut self, addr: u16) -> (r: u8)
        requires
            old(self).memory_ok(),
        ensures
            final(self).memory_ok(),
            Self::read_effect(*old(self), *final(self), addr, r),
    ;

    fn memory_write_u8(&mut self, addr: u16, data: u8)
        requires
            old(self).memory_ok(),
        ensures
            final(self).memory_ok(),
            Self::write_effect(*old(self), *final(self), addr, data),
    ;

    fn memory_read_u16(&mut self, addr: u16) -> (r: u16)
        requires
            old(self).memory_ok(),
        ensures
            final(self).memory_ok(),
            Self::read16_effect(*old(self), *final(self), addr, r),
    ;

    fn memory_write_u16(&mut self, addr: u16, data: u16)
        requires
            old(self).memory_ok(),
        ensures
            final(self).memory_ok(),
            Self::write16_effect(*old(self), *final(self), addr, data),
    ;
}

impl Memory for Bus {
    open spec fn memory_ok(&self) -> bool {
        self.wf()
    }

    open spec fn read_effect(before: Bus, after: Bus, addr: u16, r: u8) -> bool {
        (after@, r) == before@.read_spec(addr)
    }

    open spec fn write_effect(before: Bus, after: Bus, addr: u16, data: u8) -> bool {
        after@ == before@.store_spec(addr, data)
    }

    open spec fn read16_effect(before: Bus, after: Bus, addr: u16, r: u16) -> bool {
        (after@, r) == before@.read16_spec(addr)
    }

    open spec fn write16_effect(before: Bus, after: Bus, addr: u16, data: u16) -> bool {
        after@ == before@.store_spec(addr, (data % 256) as u8).store_spec(((addr + 1) % 0x10000) as u16, (data / 256) as u8)
    }

    fn memory_read_u8(&mut self, addr: u16) -> (r: u8) {
        Bus::memory_read_u8(self, addr)
    }

    fn memory_write_u8(&mut self, addr: u16, data: u8) {
        Bus::memory_write_u8(self, addr, data)
    }

    fn memory_read_u16(&mut self, addr: u16) -> (r: u16) {
        Bus::memory_read_u16(self, addr)
    }

    fn memory_write_u16(&mut self, addr: u16, data: u16) {
        Bus::memory_write_u16(self, addr, data)
    }
}

} // verus!

verus! {

/// The bus after the writes `ws`, in order.
pub open spec fn store_all(b: BusView, ws: Seq<(u16, u8)>) -> BusView
    decreases ws.len(),
{
    if ws.len() == 0 {
        b
    } else {
        store_all(b, ws.drop_last()).store_spec(ws.last().0, ws.last().1)
    }
}

/// Whether a write at `w` lands in the RAM cell that `a` reads.
pub open spec fn same_ram_cell(w: u16, a: u16) -> bool {
    w < 0x2000 && w & 0x7ff == a & 0x7ff
}

proof fn lemma_read_keeps_ram(b: BusView, addr: u16)
    ensures
        b.read_spec(addr).0.ram == b.ram,
{
    reveal(BusView::read_spec);
}

proof fn lemma_dma_keeps_ram(b: BusView, page: u8, n: nat)
    ensures
        b.dma_reads(page, n).0.ram == b.ram,
    decreases n,
{
    if n > 0 {
        lemma_dma_keeps_ram(b, page, (n - 1) as nat);
        let (b1, _) = b.dma_reads(page, (n - 1) as nat);
        lemma_read_keeps_ram(b1, (page as int * 256 + (n - 1)) as u16);
    }
}

/// A write leaves every RAM cell it does not land in.
proof fn lemma_store_keeps_cell(b: BusView, w: u16, d: u8, a: u16)
    requires
        b.ram.len() == 2048,
        !same_ram_cell(w, a),
    ensures
        b.store_spec(w, d).ram.len() == 2048,
        b.store_spec(w, d).ram[(a & 0x7ff) as int] == b.ram[(a & 0x7ff) as int],
{
    reveal(BusView::write_spec);
    lemma_masks(a);
    lemma_masks(w);
    if w == 0x4014 {
        lemma_dma_keeps_ram(b, d, 256);
    }
}

/// A byte written to RAM is read back unchanged, whatever other writes come
/// in between, as long as none lands in the same cell.
pub proof fn lemma_ram_write_then_read(b: BusView, a: u16, v: u8, ws: Seq<(u16, u8)>)
    requires
        b.wf(),
        a < 0x2000,
        forall|i: int| 0 <= i < ws.len() ==> !same_ram_cell(#[trigger] ws[i].0, a),
    ensures
        store_all(b.store_spec(a, v), ws).read_spec(a).1 == v,
{
    lemma_masks(a);
    reveal(BusView::write_spec);
    let first = b.store_spec(a, v);
    assert(first.ram.len() == 2048 && first.ram[(a & 0x7ff) as int] == v);
    lemma_cell_kept(first, a, v, ws);
    reveal(BusView::read_spec);
}

/// A RAM cell holding `v` still holds it after writes that land elsewhere.
pub proof fn lemma_cell_kept(b: BusView, a: u16, v: u8, ws: Seq<(u16, u8)>)
    requires
        b.ram.len() == 2048,
        b.ram[(a & 0x7ff) as int] == v,
        forall|i: int| 0 <= i < ws.len() ==> !same_ram_cell(#[trigger] ws[i].0, a),
    ensures
        store_all(b, ws).ram.len() == 2048,
        store_all(b, ws).ram[(a & 0x7ff) as int] == v,
    decreases ws.len(),
{
    if ws.len() > 0 {
        let front = ws.drop_last();
        assert forall|i: int| 0 <= i < front.len() implies !same_ram_cell(#[trigger] front[i].0, a) by {
            assert(front[i] == ws[i]);
        }
        lemma_cell_kept(b, a, v, front);
        assert(!same_ram_cell(ws[ws.len() - 1].0, a));
        lemma_store_keeps_cell(store_all(b, front), ws.last().0, ws.last().1, a);
    }
}

} // verus!
