use vstd::prelude::*;
use crate::bus::Bus;
use crate::bus::BusFault;
use crate::bus::BusView;
use crate::opcodes::lookup_info;
use crate::opcodes::opcode_info;

verus! {

/// The status flag bits.
#[derive(PartialEq, Eq, Structural, Debug, Clone, Copy)]
pub struct CpuFlags {
    pub bits: u8,
}

/// `bits` with the bits of `mask` set or cleared.
pub open spec fn with_flag(bits: u8, mask: u8, on: bool) -> u8 {
    if on { bits | mask } else { bits & !mask }
}

/// `bits` with Zero and Negative set from `v`.
pub open spec fn with_nz(bits: u8, v: u8) -> u8 {
    with_flag(with_flag(bits, 0x02, v == 0), 0x80, v & 0x80 != 0)
}

impl CpuFlags {
    pub const CARRY: u8 = 0b0000_0001;
    pub const ZERO: u8 = 0b0000_0010;
    pub const INTERRUPT_DISABLE: u8 = 0b0000_0100;
    pub const DECIMAL_MODE: u8 = 0b0000_1000;
    pub const BREAK1: u8 = 0b0001_0000;
    pub const BREAK2: u8 = 0b0010_0000;
    pub const OVERFLOW: u8 = 0b0100_0000;
    pub const NEGATIVE: u8 = 0b1000_0000;

    pub fn from_bits(bits: u8) -> (r: CpuFlags)
        ensures
            r.bits == bits,
    {
        CpuFlags { bits }
    }

    pub fn bits(&self) -> (r: u8)
        ensures
            r == self.bits,
    {
        self.bits
    }

    /// Whether every bit of `mask` is set.
    pub fn contains(&self, mask: u8) -> (r: bool)
        ensures
            r == (self.bits & mask == mask),
    {
        self.bits & mask == mask
    }

    /// Sets or clears the bits of `mask`.
    pub fn set(&mut self, mask: u8, on: bool)
        ensures
            final(self).bits == with_flag(old(self).bits, mask, on),
    {
        if on {
            self.bits = self.bits | mask;
        } else {
            self.bits = self.bits & !mask;
        }
    }
}

/// How an instruction finds its operand.
#[allow(non_camel_case_types)]
#[derive(PartialEq, Eq, Structural, Debug, Clone, Copy)]
pub enum AddressingMode {
    Immediate,
    ZeroPage,
    ZeroPage_X,
    ZeroPage_Y,
    Absolute,
    Absolute_X,
    Absolute_Y,
    Indirect_X,
    Indirect_Y,
    NonAddressing,
}

pub const STACK_BASE: u16 = 0x0100;
pub const STACK_RESET: u8 = 0xfd;

/// What one step of the CPU came to.
#[derive(PartialEq, Eq, Structural, Debug, Clone, Copy)]
pub enum StepResult {
    /// An instruction ran.
    Continue,
    /// An instruction ran and its cycles raised the VBlank NMI: a frame is
    /// ready for the host.
    Frame,
    /// A BRK was fetched; the program is over.
    Break,
}

/// Why the CPU stopped.
#[derive(PartialEq, Eq, Structural, Debug, Clone, Copy)]
pub enum CpuError {
    /// The opcode is not one this CPU runs.
    UnknownOpcode(u8),
    /// The instruction made a fatal bus access.
    Bus(BusFault),
    /// A run took 2^64 - 1 steps without reaching a BRK.
    StepLimit,
}

/// The 6502 CPU with the bus it owns.
pub struct CPU {
    pub reg_a: u8,
    pub reg_x: u8,
    pub reg_y: u8,
    pub reg_sp: u8,
    pub status: CpuFlags,
    pub reg_pc: u16,
    pub bus: Bus,
}

/// The state of a CPU and its bus as plain values.
pub struct CpuView {
    pub a: u8,
    pub x: u8,
    pub y: u8,
    pub sp: u8,
    pub status: u8,
    pub pc: u16,
    pub bus: BusView,
}

impl View for CPU {
    type V = CpuView;

    open spec fn view(&self) -> CpuView {
        CpuView {
            a: self.reg_a,
            x: self.reg_x,
            y: self.reg_y,
            sp: self.reg_sp,
            status: self.status.bits,
            pc: self.reg_pc,
            bus: self.bus@,
        }
    }
}

/// A 16-bit value from its two bytes.
pub open spec fn word(hi: u8, lo: u8) -> u16 {
    (hi as int * 256 + lo as int) as u16
}

/// The signed value of a branch offset.
pub open spec fn signed(b: u8) -> int {
    if b < 128 { b as int } else { b as int - 256 }
}

/// The sum, carry and overflow of `a + v + carry`.
pub open spec fn add_spec(a: u8, v: u8, carry: bool) -> (u8, bool, bool) {
    let sum = a as int + v as int + if carry { 1int } else { 0int };
    let result = (sum % 256) as u8;
    (result, sum > 0xff, (result ^ v) & (result ^ a) & 0x80 != 0)
}

impl CpuView {
    pub open spec fn wf(&self) -> bool {
        self.bus.wf()
    }

    pub open spec fn carry(&self) -> bool {
        self.status & 0x01 == 0x01
    }

    pub open spec fn with_bus(&self, b: BusView) -> CpuView {
        CpuView { bus: b, ..*self }
    }

    pub open spec fn rd(&self, addr: u16) -> (CpuView, u8) {
        let (b, v) = self.bus.read_spec(addr);
        (self.with_bus(b), v)
    }

    pub open spec fn rd16(&self, addr: u16) -> (CpuView, u16) {
        let (b, v) = self.bus.read16_spec(addr);
        (self.with_bus(b), v)
    }

    pub open spec fn wr(&self, addr: u16, data: u8) -> CpuView {
        self.with_bus(self.bus.store_spec(addr, data))
    }

    /// The effective address of an operand at `addr`, and the state after
    /// the reads that find it.
    pub open spec fn absolute_address(&self, mode: AddressingMode, addr: u16) -> (CpuView, u16) {
        match mode {
            AddressingMode::ZeroPage => {
                let (s, p) = self.rd(addr);
                (s, p as u16)
            },
            AddressingMode::Absolute => self.rd16(addr),
            AddressingMode::ZeroPage_X => {
                let (s, p) = self.rd(addr);
                (s, ((p + self.x) % 256) as u16)
            },
            AddressingMode::ZeroPage_Y => {
                let (s, p) = self.rd(addr);
                (s, ((p + self.y) % 256) as u16)
            },
            AddressingMode::Absolute_X => {
                let (s, b) = self.rd16(addr);
                (s, ((b + self.x) % 0x10000) as u16)
            },
            AddressingMode::Absolute_Y => {
                let (s, b) = self.rd16(addr);
                (s, ((b + self.y) % 0x10000) as u16)
            },
            AddressingMode::Indirect_X => self.indirect_x(addr),
            AddressingMode::Indirect_Y => self.indirect_y(addr),
            _ => (*self, addr),
        }
    }

    /// The pointer read from zero page at `(mem[addr] + X) mod 256`, its
    /// high byte from the next zero-page cell (wrapping).
    pub open spec fn indirect_x(&self, addr: u16) -> (CpuView, u16) {
        let (s, base) = self.rd(addr);
        let ptr = ((base + self.x) % 256) as u16;
        let (s2, lo) = s.rd(ptr);
        let (s3, hi) = s2.rd(((ptr + 1) % 256) as u16);
        (s3, word(hi, lo))
    }

    /// The pointer read from zero page at `mem[addr]` (wrapping), plus Y.
    pub open spec fn indirect_y(&self, addr: u16) -> (CpuView, u16) {
        let (s, base) = self.rd(addr);
        let (s2, lo) = s.rd(base as u16);
        let (s3, hi) = s2.rd(((base + 1) % 256) as u16);
        (s3, ((word(hi, lo) + self.y) % 0x10000) as u16)
    }

    /// The operand's effective address for the instruction at PC.
    pub open spec fn operand_address(&self, mode: AddressingMode) -> (CpuView, u16) {
        if mode == AddressingMode::Immediate {
            (*self, self.pc)
        } else {
            self.absolute_address(mode, self.pc)
        }
    }

    /// The operand's address and value.
    pub open spec fn fetch(&self, mode: AddressingMode) -> (CpuView, u16, u8) {
        let (s, a) = self.operand_address(mode);
        let (s2, v) = s.rd(a);
        (s2, a, v)
    }

    pub open spec fn set_status(&self, st: u8) -> CpuView {
        CpuView { status: st, ..*self }
    }

    pub open spec fn load_a(&self, v: u8) -> CpuView {
        CpuView { a: v, status: with_nz(self.status, v), ..*self }
    }

    pub open spec fn load_x(&self, v: u8) -> CpuView {
        CpuView { x: v, status: with_nz(self.status, v), ..*self }
    }

    pub open spec fn load_y(&self, v: u8) -> CpuView {
        CpuView { y: v, status: with_nz(self.status, v), ..*self }
    }

    pub open spec fn lda(&self, mode: AddressingMode) -> CpuView {
        let (s, _, v) = self.fetch(mode);
        s.load_a(v)
    }

    pub open spec fn ldx(&self, mode: AddressingMode) -> CpuView {
        let (s, _, v) = self.fetch(mode);
        s.load_x(v)
    }

    pub open spec fn ldy(&self, mode: AddressingMode) -> CpuView {
        let (s, _, v) = self.fetch(mode);
        s.load_y(v)
    }

    /// Stores `v` at the operand's address.
    pub open spec fn store(&self, mode: AddressingMode, v: u8) -> CpuView {
        let (s, a) = self.operand_address(mode);
        s.wr(a, v)
    }

    /// A += v + Carry, with Carry, Overflow, Zero and Negative.
    pub open spec fn add_acc(&self, v: u8) -> CpuView {
        let (r, c, o) = add_spec(self.a, v, self.carry());
        CpuView { a: r, status: with_nz(with_flag(with_flag(self.status, 0x01, c), 0x40, o), r), ..*self }
    }

    pub open spec fn adc(&self, mode: AddressingMode) -> CpuView {
        let (s, _, v) = self.fetch(mode);
        s.add_acc(v)
    }

    pub open spec fn sbc(&self, mode: AddressingMode) -> CpuView {
        let (s, _, v) = self.fetch(mode);
        s.add_acc(!v)
    }

    pub open spec fn and(&self, mode: AddressingMode) -> CpuView {
        let (s, _, v) = self.fetch(mode);
        s.load_a(s.a & v)
    }

    pub open spec fn ora(&self, mode: AddressingMode) -> CpuView {
        let (s, _, v) = self.fetch(mode);
        s.load_a(s.a | v)
    }

    pub open spec fn eor(&self, mode: AddressingMode) -> CpuView {
        let (s, _, v) = self.fetch(mode);
        s.load_a(s.a ^ v)
    }

    /// Carry from `c`, Zero and Negative from `r`.
    pub open spec fn cnz(&self, c: bool, r: u8) -> u8 {
        with_nz(with_flag(self.status, 0x01, c), r)
    }

    pub open spec fn asl_acc(&self) -> CpuView {
        let r = self.a << 1u8;
        CpuView { a: r, status: self.cnz(self.a & 0x80 != 0, r), ..*self }
    }

    pub open spec fn lsr_acc(&self) -> CpuView {
        let r = self.a >> 1u8;
        CpuView { a: r, status: self.cnz(self.a & 0x01 != 0, r), ..*self }
    }

    pub open spec fn rol_acc(&self) -> CpuView {
        let r = (self.a << 1u8) | if self.carry() { 1u8 } else { 0u8 };
        CpuView { a: r, status: self.cnz(self.a & 0x80 != 0, r), ..*self }
    }

    pub open spec fn ror_acc(&self) -> CpuView {
        let r = (self.a >> 1u8) | if self.carry() { 0x80u8 } else { 0u8 };
        CpuView { a: r, status: self.cnz(self.a & 0x01 != 0, r), ..*self }
    }

    /// Reads the operand, writes back `f(v)`, sets Carry from `c(v)` and
    /// Zero and Negative from the byte written.
    pub open spec fn modify(&self, mode: AddressingMode, r: spec_fn(u8) -> u8, c: spec_fn(u8) -> bool) -> CpuView {
        let (s, a, v) = self.fetch(mode);
        let s2 = s.wr(a, r(v));
        s2.set_status(s.cnz(c(v), r(v)))
    }

    pub open spec fn asl(&self, mode: AddressingMode) -> CpuView {
        self.modify(mode, |v: u8| v << 1u8, |v: u8| v & 0x80 != 0)
    }

    pub open spec fn lsr(&self, mode: AddressingMode) -> CpuView {
        self.modify(mode, |v: u8| v >> 1u8, |v: u8| v & 0x01 != 0)
    }

    pub open spec fn rol(&self, mode: AddressingMode) -> CpuView {
        let c = self.carry();
        self.modify(mode, |v: u8| (v << 1u8) | if c { 1u8 } else { 0u8 }, |v: u8| v & 0x80 != 0)
    }

    pub open spec fn ror(&self, mode: AddressingMode) -> CpuView {
        let c = self.carry();
        self.modify(mode, |v: u8| (v >> 1u8) | if c { 0x80u8 } else { 0u8 }, |v: u8| v & 0x01 != 0)
    }

    /// Reads the operand, writes back `f(v)`, sets Zero and Negative from it.
    pub open spec fn modify_nz(&self, mode: AddressingMode, r: spec_fn(u8) -> u8) -> CpuView {
        let (s, a, v) = self.fetch(mode);
        let s2 = s.wr(a, r(v));
        s2.set_status(with_nz(s.status, r(v)))
    }

    pub open spec fn inc(&self, mode: AddressingMode) -> CpuView {
        self.modify_nz(mode, |v: u8| ((v + 1) % 256) as u8)
    }

    pub open spec fn dec(&self, mode: AddressingMode) -> CpuView {
        self.modify_nz(mode, |v: u8| ((v + 255) % 256) as u8)
    }

    /// Carry from `lhs >= rhs`, Zero and Negative from `lhs - rhs`.
    pub open spec fn compare(&self, lhs: u8, rhs: u8) -> CpuView {
        self.set_status(self.cnz(lhs >= rhs, ((lhs + 256 - rhs) % 256) as u8))
    }

    pub open spec fn cmp(&self, mode: AddressingMode) -> CpuView {
        let (s, _, v) = self.fetch(mode);
        s.compare(s.a, v)
    }

    pub open spec fn cpx(&self, mode: AddressingMode) -> CpuView {
        let (s, _, v) = self.fetch(mode);
        s.compare(s.x, v)
    }

    pub open spec fn cpy(&self, mode: AddressingMode) -> CpuView {
        let (s, _, v) = self.fetch(mode);
        s.compare(s.y, v)
    }

    pub open spec fn bit(&self, mode: AddressingMode) -> CpuView {
        let (s, _, v) = self.fetch(mode);
        s.set_status(
            with_flag(with_flag(with_flag(s.status, 0x02, s.a & v == 0), 0x40, v & 0x40 != 0), 0x80, v & 0x80 != 0),
        )
    }

    /// Takes the branch whose offset is at PC.
    pub open spec fn branch(&self) -> CpuView {
        let (s, off) = self.rd(self.pc);
        CpuView { pc: ((self.pc + 1 + signed(off)) % 0x10000) as u16, ..s }
    }

    pub open spec fn branch_if(&self, cond: bool) -> CpuView {
        if cond { self.branch() } else { *self }
    }

    pub open spec fn flag(&self, mask: u8) -> bool {
        self.status & mask == mask
    }

    pub open spec fn jmp(&self) -> CpuView {
        let (s, a) = self.rd16(self.pc);
        CpuView { pc: a, ..s }
    }

    /// JMP through a pointer; a pointer at the end of a page takes its high
    /// byte from the start of that page.
    pub open spec fn jmp_indirect(&self) -> CpuView {
        let (s, a) = self.rd16(self.pc);
        if a & 0x00ff == 0x00ff {
            let (s2, lo) = s.rd(a);
            let (s3, hi) = s2.rd(a & 0xff00);
            CpuView { pc: word(hi, lo), ..s3 }
        } else {
            let (s2, t) = s.rd16(a);
            CpuView { pc: t, ..s2 }
        }
    }

    pub open spec fn push(&self, v: u8) -> CpuView {
        let s = self.wr((0x100 + self.sp) as u16, v);
        CpuView { sp: ((self.sp + 255) % 256) as u8, ..s }
    }

    pub open spec fn pop(&self) -> (CpuView, u8) {
        let sp = ((self.sp + 1) % 256) as u8;
        CpuView { sp, ..*self }.rd((0x100 + sp) as u16)
    }

    pub open spec fn push16(&self, v: u16) -> CpuView {
        self.push((v / 256) as u8).push((v % 256) as u8)
    }

    pub open spec fn pop16(&self) -> (CpuView, u16) {
        let (s, lo) = self.pop();
        let (s2, hi) = s.pop();
        (s2, word(hi, lo))
    }

    pub open spec fn jsr(&self) -> CpuView {
        let s = self.push16(((self.pc + 1) % 0x10000) as u16);
        let (s2, a) = s.rd16(s.pc);
        CpuView { pc: a, ..s2 }
    }

    pub open spec fn rts(&self) -> CpuView {
        let (s, v) = self.pop16();
        CpuView { pc: ((v + 1) % 0x10000) as u16, ..s }
    }

    /// A status byte as PLP and RTI restore it: Break1 clear, Break2 set.
    pub open spec fn restored(v: u8) -> u8 {
        with_flag(with_flag(v, 0x10, false), 0x20, true)
    }

    pub open spec fn rti(&self) -> CpuView {
        let (s, st) = self.pop();
        let (s2, pc) = s.set_status(Self::restored(st)).pop16();
        CpuView { pc, ..s2 }
    }

    pub open spec fn pla(&self) -> CpuView {
        let (s, v) = self.pop();
        s.load_a(v)
    }

    pub open spec fn php(&self) -> CpuView {
        self.push(with_flag(with_flag(self.status, 0x10, true), 0x20, true))
    }

    pub open spec fn plp(&self) -> CpuView {
        let (s, v) = self.pop();
        s.set_status(Self::restored(v))
    }

    pub open spec fn dcp(&self, mode: AddressingMode) -> CpuView {
        let (s, a, v) = self.fetch(mode);
        let d = ((v + 255) % 256) as u8;
        let s2 = s.wr(a, d);
        s2.set_status(s.cnz(d <= s.a, ((s.a + 256 - d) % 256) as u8))
    }

    /// The state after the instruction `code`, whose addressing mode is
    /// `mode`, runs with PC at its first operand byte (BRK excepted).
    pub open spec fn execute(&self, code: u8, mode: AddressingMode) -> CpuView {
        if code < 0x40 {
            self.execute_00(code, mode)
        } else if code < 0x80 {
            self.execute_40(code, mode)
        } else if code < 0xc0 {
            self.execute_80(code, mode)
        } else if code < 0xe0 {
            self.execute_c0(code, mode)
        } else {
            self.execute_e0(code, mode)
        }
    }

    /// `execute` for the opcodes 0x00..=0x3F.
    #[verifier::opaque]
    pub open spec fn execute_00(&self, code: u8, mode: AddressingMode) -> CpuView {
        let m = mode;
        match code {
            0x29 | 0x25 | 0x35 | 0x2d | 0x3d | 0x39 | 0x21 | 0x31 => self.and(m),
            0x0a => self.asl_acc(),
            0x06 | 0x16 | 0x0e | 0x1e => self.asl(m),
            0x24 | 0x2c => self.bit(m),
            0x30 => self.branch_if(self.flag(0x80)),
            0x10 => self.branch_if(!self.flag(0x80)),
            0x18 => self.set_status(with_flag(self.status, 0x01, false)),
            0x20 => self.jsr(),
            0x09 | 0x05 | 0x15 | 0x0d | 0x1d | 0x19 | 0x01 | 0x11 => self.ora(m),
            0x08 => self.php(),
            0x28 => self.plp(),
            0x2a => self.rol_acc(),
            0x26 | 0x36 | 0x2e | 0x3e => self.rol(m),
            0x38 => self.set_status(with_flag(self.status, 0x01, true)),
            0x27 | 0x37 | 0x2f | 0x3f | 0x3b | 0x33 | 0x23 => self.rol(m).and(m),
            0x07 | 0x17 | 0x0f | 0x1f | 0x1b | 0x03 | 0x13 => self.asl(m).ora(m),
            _ => *self,
        }
    }

    /// `execute` for the opcodes 0x40..=0x7F.
    #[verifier::opaque]
    pub open spec fn execute_40(&self, code: u8, mode: AddressingMode) -> CpuView {
        let m = mode;
        match code {
            0x69 | 0x65 | 0x75 | 0x6d | 0x7d | 0x79 | 0x61 | 0x71 => self.adc(m),
            0x50 => self.branch_if(!self.flag(0x40)),
            0x70 => self.branch_if(self.flag(0x40)),
            0x58 => self.set_status(with_flag(self.status, 0x04, false)),
            0x49 | 0x45 | 0x55 | 0x4d | 0x5d | 0x59 | 0x41 | 0x51 => self.eor(m),
            0x4c => self.jmp(),
            0x6c => self.jmp_indirect(),
            0x4a => self.lsr_acc(),
            0x46 | 0x56 | 0x4e | 0x5e => self.lsr(m),
            0x48 => self.push(self.a),
            0x68 => self.pla(),
            0x6a => self.ror_acc(),
            0x66 | 0x76 | 0x6e | 0x7e => self.ror(m),
            0x40 => self.rti(),
            0x60 => self.rts(),
            0x78 => self.set_status(with_flag(self.status, 0x04, true)),
            0x47 | 0x57 | 0x4f | 0x5f | 0x5b | 0x43 | 0x53 => self.lsr(m).eor(m),
            _ => *self,
        }
    }

    /// `execute` for the opcodes 0x80..=0xBF.
    #[verifier::opaque]
    pub open spec fn execute_80(&self, code: u8, mode: AddressingMode) -> CpuView {
        let m = mode;
        match code {
            0x90 => self.branch_if(!self.flag(0x01)),
            0xb0 => self.branch_if(self.flag(0x01)),
            0xb8 => self.set_status(with_flag(self.status, 0x40, false)),
            0x88 => self.load_y(((self.y + 255) % 256) as u8),
            0xa9 | 0xa5 | 0xb5 | 0xad | 0xbd | 0xb9 | 0xa1 | 0xb1 => self.lda(m),
            0xa2 | 0xa6 | 0xb6 | 0xae | 0xbe => self.ldx(m),
            0xa0 | 0xa4 | 0xb4 | 0xac | 0xbc => self.ldy(m),
            0x85 | 0x95 | 0x8d | 0x9d | 0x99 | 0x81 | 0x91 => self.store(m, self.a),
            0x86 | 0x96 | 0x8e => self.store(m, self.x),
            0x84 | 0x94 | 0x8c => self.store(m, self.y),
            0xaa => self.load_x(self.a),
            0xa8 => self.load_y(self.a),
            0xba => self.load_x(self.sp),
            0x8a => self.load_a(self.x),
            0x9a => CpuView { sp: self.x, ..*self },
            0x98 => self.load_a(self.y),
            0xa7 | 0xb7 | 0xaf | 0xbf | 0xa3 | 0xb3 => {
                let s = self.lda(m);
                s.load_x(s.a)
            },
            0x87 | 0x97 | 0x8f | 0x83 => self.store(m, self.a & self.x),
            _ => *self,
        }
    }

    /// `execute` for the opcodes 0xC0..=0xDF.
    #[verifier::opaque]
    pub open spec fn execute_c0(&self, code: u8, mode: AddressingMode) -> CpuView {
        let m = mode;
        match code {
            0xd0 => self.branch_if(!self.flag(0x02)),
            0xd8 => self.set_status(with_flag(self.status, 0x08, false)),
            0xc9 | 0xc5 | 0xd5 | 0xcd | 0xdd | 0xd9 | 0xc1 | 0xd1 => self.cmp(m),
            0xc0 | 0xc4 | 0xcc => self.cpy(m),
            0xc6 | 0xd6 | 0xce | 0xde => self.dec(m),
            0xca => self.load_x(((self.x + 255) % 256) as u8),
            0xc8 => self.load_y(((self.y + 1) % 256) as u8),
            0xc7 | 0xd7 | 0xcf | 0xdf | 0xdb | 0xd3 | 0xc3 => self.dcp(m),
            _ => *self,
        }
    }

    /// `execute` for the opcodes 0xE0..=0xFF.
    #[verifier::opaque]
    pub open spec fn execute_e0(&self, code: u8, mode: AddressingMode) -> CpuView {
        let m = mode;
        match code {
            0xf0 => self.branch_if(self.flag(0x02)),
            0xe0 | 0xe4 | 0xec => self.cpx(m),
            0xe6 | 0xf6 | 0xee | 0xfe => self.inc(m),
            0xe8 => self.load_x(((self.x + 1) % 256) as u8),
            0xe9 | 0xe5 | 0xf5 | 0xed | 0xfd | 0xf9 | 0xe1 | 0xf1 | 0xeb => self.sbc(m),
            0xf8 => self.set_status(with_flag(self.status, 0x08, true)),
            0xe7 | 0xf7 | 0xef | 0xff | 0xfb | 0xe3 | 0xf3 => self.inc(m).sbc(m),
            _ => *self,
        }
    }

    /// The state after an NMI is serviced: PC and the status (Break1
    /// clear, Break2 set) pushed, interrupts disabled, PC from 0xFFFA, and
    /// two cycles charged to the bus.
    #[verifier::opaque]
    pub open spec fn nmi(&self) -> CpuView {
        let s = self.push16(self.pc);
        let s = s.push(Self::restored(s.status));
        let s = s.set_status(with_flag(s.status, 0x04, true));
        let (s, pc) = s.rd16(0xfffa);
        let s = CpuView { pc, ..s };
        s.with_bus(s.bus.tick_spec(2).0)
    }

    /// The state after a reset.
    pub open spec fn reset_spec(&self) -> CpuView {
        let (s, pc) = (CpuView { a: 0, x: 0, y: 0, sp: STACK_RESET, status: 0x24, ..*self }).rd16(0xfffc);
        CpuView { pc, ..s }
    }

    /// The state after the first `n` bytes of `program` are written from
    /// 0x0600 on.
    pub open spec fn load_spec(&self, program: Seq<u8>, n: nat) -> CpuView
        decreases n,
    {
        if n == 0 {
            *self
        } else {
            self.load_spec(program, (n - 1) as nat).wr((0x600 + n - 1) as u16, program[n - 1])
        }
    }

    /// One step: service a pending NMI, fetch the opcode at PC, and run it,
    /// then charge its base cycles to the bus.
    pub open spec fn step_spec(&self) -> (CpuView, Result<StepResult, CpuError>) {
        let s0 = self.with_bus(BusView { ppu: crate::ppu::PpuView { nmi: None, ..self.bus.ppu }, ..self.bus });
        let s1 = if self.bus.ppu.nmi is Some { s0.nmi() } else { s0 };
        let (s2, code) = s1.rd(s1.pc);
        let s3 = CpuView { pc: ((s1.pc + 1) % 0x10000) as u16, ..s2 };
        match opcode_info(code) {
            None => (s3, Err(CpuError::UnknownOpcode(code))),
            Some(op) => if code == 0 {
                (s3, Ok(StepResult::Break))
            } else {
                let s4 = s3.execute(code, op.mode);
                let s5 = if s4.pc == s3.pc {
                    CpuView { pc: ((s4.pc + op.len - 1) % 0x10000) as u16, ..s4 }
                } else {
                    s4
                };
                let (b, frame) = s5.bus.tick_spec(op.cycles);
                let s6 = s5.with_bus(b);
                match b.fault {
                    Some(f) => (s6, Err(CpuError::Bus(f))),
                    None => (s6, Ok(if frame { StepResult::Frame } else { StepResult::Continue })),
                }
            },
        }
    }
}

impl CPU {
    pub open spec fn wf(&self) -> bool {
        self.bus.wf()
    }

    /// A CPU on `bus` with the registers of reset, PC 0.
    pub fn new(bus: Bus) -> (r: Self)
        requires
            bus.wf(),
        ensures
            r.wf(),
            r@ == (CpuView { a: 0, x: 0, y: 0, sp: STACK_RESET, status: 0x24, pc: 0, bus: bus@ }),
    {
        CPU {
            reg_a: 0,
            reg_x: 0,
            reg_y: 0,
            reg_sp: STACK_RESET,
            status: CpuFlags { bits: 0x24 },
            reg_pc: 0,
            bus,
        }
    }

    pub fn memory_read_u8(&mut self, addr: u16) -> (r: u8)
        requires
            old(self).wf(),
        ensures
            final(self).wf(),
            (final(self)@, r) == old(self)@.rd(addr),
    {
        self.bus.memory_read_u8(addr)
    }

    pub fn memory_read_u16(&mut self, addr: u16) -> (r: u16)
        requires
            old(self).wf(),
        ensures
            final(self).wf(),
            (final(self)@, r) == old(self)@.rd16(addr),
    {
        self.bus.memory_read_u16(addr)
    }

    pub fn memory_write_u8(&mut self, addr: u16, data: u8)
        requires
            old(self).wf(),
        ensures
            final(self).wf(),
            final(self)@ == old(self)@.wr(addr, data),
    {
        self.bus.memory_write_u8(addr, data)
    }

    /// The effective address of an operand at `addr`; Immediate and
    /// NonAddressing give `addr` itself.
    pub fn get_absolute_address(&mut self, mode: &AddressingMode, addr: u16) -> (r: u16)
        requires
            old(self).wf(),
        ensures
            final(self).wf(),
            (final(self)@, r) == old(self)@.absolute_address(*mode, addr),
    {
        match mode {
            AddressingMode::ZeroPage => self.memory_read_u8(addr) as u16,
            AddressingMode::Absolute => self.memory_read_u16(addr),
            AddressingMode::ZeroPage_X => {
                let pos = self.memory_read_u8(addr);
                let r = pos.wrapping_add(self.reg_x);
                assert(r == (pos + self.reg_x) % 256);
                r as u16
            },
            AddressingMode::ZeroPage_Y => {
                let pos = self.memory_read_u8(addr);
                let r = pos.wrapping_add(self.reg_y);
                assert(r == (pos + self.reg_y) % 256);
                r as u16
            },
            AddressingMode::Absolute_X => {
                let base = self.memory_read_u16(addr);
                let r = base.wrapping_add(self.reg_x as u16);
                assert(r == (base + self.reg_x) % 0x10000);
                r
            },
            AddressingMode::Absolute_Y => {
                let base = self.memory_read_u16(addr);
                let r = base.wrapping_add(self.reg_y as u16);
                assert(r == (base + self.reg_y) % 0x10000);
                r
            },
            AddressingMode::Indirect_X => self.indirect_x(addr),
            AddressingMode::Indirect_Y => self.indirect_y(addr),
            _ => addr,
        }
    }

    /// The pointer at zero-page `mem[addr] + X`, wrapping within the page.
    fn indirect_x(&mut self, addr: u16) -> (r: u16)
        requires
            old(self).wf(),
        ensures
            final(self).wf(),
            (final(self)@, r) == old(self)@.indirect_x(addr),
    {
        let base = self.memory_read_u8(addr);
        let ghost s1 = self@;
        let ptr = base.wrapping_add(self.reg_x);
        assert(ptr as u16 == ((base + s1.x) % 256) as u16);
        let lo = self.memory_read_u8(ptr as u16);
        let ghost s2 = self@;
        let next = ptr.wrapping_add(1);
        assert(next as u16 == ((ptr as u16 + 1) % 256) as u16);
        let hi = self.memory_read_u8(next as u16);
        (hi as u16) * 256 + (lo as u16)
    }

    /// The pointer at zero-page `mem[addr]`, wrapping within the page, plus Y.
    fn indirect_y(&mut self, addr: u16) -> (r: u16)
        requires
            old(self).wf(),
        ensures
            final(self).wf(),
            (final(self)@, r) == old(self)@.indirect_y(addr),
    {
        let base = self.memory_read_u8(addr);
        let lo = self.memory_read_u8(base as u16);
        let next = base.wrapping_add(1);
        assert(next as u16 == ((base + 1) % 256) as u16);
        let hi = self.memory_read_u8(next as u16);
        let deref_base = (hi as u16) * 256 + (lo as u16);
        deref_base.wrapping_add(self.reg_y as u16)
    }

    fn get_operand_address(&mut self, mode: &AddressingMode) -> (r: u16)
        requires
            old(self).wf(),
        ensures
            final(self).wf(),
            (final(self)@, r) == old(self)@.operand_address(*mode),
    {
        if *mode == AddressingMode::Immediate {
            self.reg_pc
        } else {
            let pc = self.reg_pc;
            self.get_absolute_address(mode, pc)
        }
    }

    fn fetch_operand(&mut self, mode: &AddressingMode) -> (r: (u16, u8))
        requires
            old(self).wf(),
        ensures
            final(self).wf(),
            (final(self)@, r.0, r.1) == old(self)@.fetch(*mode),
    {
        let addr = self.get_operand_address(mode);
        let value = self.memory_read_u8(addr);
        (addr, value)
    }

    fn update_cpuflags(&mut self, data: u8)
        ensures
            final(self)@ == old(self)@.set_status(with_nz(old(self)@.status, data)),
            final(self).bus == old(self).bus,
    {
        self.status.set(CpuFlags::ZERO, data == 0);
        self.status.set(CpuFlags::NEGATIVE, data & 0x80 != 0);
    }

    fn set_flag(&mut self, mask: u8, on: bool)
        ensures
            final(self)@ == old(self)@.set_status(with_flag(old(self)@.status, mask, on)),
            final(self).bus == old(self).bus,
    {
        self.status.set(mask, on);
    }

    fn set_a(&mut self, v: u8)
        ensures
            final(self)@ == old(self)@.load_a(v),
            final(self).bus == old(self).bus,
    {
        self.reg_a = v;
        self.update_cpuflags(v);
    }

    fn set_x(&mut self, v: u8)
        ensures
            final(self)@ == old(self)@.load_x(v),
            final(self).bus == old(self).bus,
    {
        self.reg_x = v;
        self.update_cpuflags(v);
    }

    fn set_y(&mut self, v: u8)
        ensures
            final(self)@ == old(self)@.load_y(v),
            final(self).bus == old(self).bus,
    {
        self.reg_y = v;
        self.update_cpuflags(v);
    }

    fn lda(&mut self, mode: &AddressingMode)
        requires
            old(self).wf(),
        ensures
            final(self).wf(),
            final(self)@ == old(self)@.lda(*mode),
    {
        let (_, value) = self.fetch_operand(mode);
        self.set_a(value);
    }

    fn ldx(&mut self, mode: &AddressingMode)
        requires
            old(self).wf(),
        ensures
            final(self).wf(),
            final(self)@ == old(self)@.ldx(*mode),
    {
        let (_, value) = self.fetch_operand(mode);
        self.set_x(value);
    }

    fn ldy(&mut self, mode: &AddressingMode)
        requires
            old(self).wf(),
        ensures
            final(self).wf(),
            final(self)@ == old(self)@.ldy(*mode),
    {
        let (_, value) = self.fetch_operand(mode);
        self.set_y(value);
    }

    /// STA, STX, STY and SAX: stores `value` at the operand's address.
    fn store(&mut self, mode: &AddressingMode, value: u8)
        requires
            old(self).wf(),
        ensures
            final(self).wf(),
            final(self)@ == old(self)@.store(*mode, value),
    {
        let addr = self.get_operand_address(mode);
        self.memory_write_u8(addr, value);
    }

    fn add_accumulator(&mut self, value: u8)
        ensures
            final(self)@ == old(self)@.add_acc(value),
            final(self).bus == old(self).bus,
    {
        let carry: u16 = if self.status.contains(CpuFlags::CARRY) { 1 } else { 0 };
        let sum = self.reg_a as u16 + value as u16 + carry;
        self.set_flag(CpuFlags::CARRY, sum > 0xff);
        let result = (sum % 256) as u8;
        self.set_flag(CpuFlags::OVERFLOW, (result ^ value) & (result ^ self.reg_a) & 0x80 != 0);
        self.set_a(result);
    }

    fn adc(&mut self, mode: &AddressingMode)
        requires
            old(self).wf(),
        ensures
            final(self).wf(),
            final(self)@ == old(self)@.adc(*mode),
    {
        let (_, value) = self.fetch_operand(mode);
        self.add_accumulator(value);
    }

    /// SBC: A + ~mem + Carry.
    fn sbc(&mut self, mode: &AddressingMode)
        requires
            old(self).wf(),
        ensures
            final(self).wf(),
            final(self)@ == old(self)@.sbc(*mode),
    {
        let (_, value) = self.fetch_operand(mode);
        self.add_accumulator(!value);
    }

    fn and(&mut self, mode: &AddressingMode)
        requires
            old(self).wf(),
        ensures
            final(self).wf(),
            final(self)@ == old(self)@.and(*mode),
    {
        let (_, value) = self.fetch_operand(mode);
        self.set_a(self.reg_a & value);
    }

    fn ora(&mut self, mode: &AddressingMode)
        requires
            old(self).wf(),
        ensures
            final(self).wf(),
            final(self)@ == old(self)@.ora(*mode),
    {
        let (_, value) = self.fetch_operand(mode);
        self.set_a(self.reg_a | value);
    }

    fn eor(&mut self, mode: &AddressingMode)
        requires
            old(self).wf(),
        ensures
            final(self).wf(),
            final(self)@ == old(self)@.eor(*mode),
    {
        let (_, value) = self.fetch_operand(mode);
        self.set_a(self.reg_a ^ value);
    }

    fn asl_accumulator(&mut self)
        ensures
            final(self)@ == old(self)@.asl_acc(),
            final(self).bus == old(self).bus,
    {
        let value = self.reg_a;
        self.set_flag(CpuFlags::CARRY, value & 0x80 != 0);
        self.set_a(value << 1);
    }

    fn lsr_accumulator(&mut self)
        ensures
            final(self)@ == old(self)@.lsr_acc(),
            final(self).bus == old(self).bus,
    {
        let value = self.reg_a;
        self.set_flag(CpuFlags::CARRY, value & 0x01 != 0);
        self.set_a(value >> 1);
    }

    fn rol_accumulator(&mut self)
        ensures
            final(self)@ == old(self)@.rol_acc(),
            final(self).bus == old(self).bus,
    {
        let value = self.reg_a;
        let old_carry: u8 = if self.status.contains(CpuFlags::CARRY) { 1 } else { 0 };
        self.set_flag(CpuFlags::CARRY, value & 0x80 != 0);
        self.set_a((value << 1) | old_carry);
    }

    fn ror_accumulator(&mut self)
        ensures
            final(self)@ == old(self)@.ror_acc(),
            final(self).bus == old(self).bus,
    {
        let value = self.reg_a;
        let old_carry: u8 = if self.status.contains(CpuFlags::CARRY) { 0x80 } else { 0 };
        self.set_flag(CpuFlags::CARRY, value & 0x01 != 0);
        self.set_a((value >> 1) | old_carry);
    }

    fn asl(&mut self, mode: &AddressingMode)
        requires
            old(self).wf(),
        ensures
            final(self).wf(),
            final(self)@ == old(self)@.asl(*mode),
    {
        let (addr, value) = self.fetch_operand(mode);
        let r = value << 1;
        self.memory_write_u8(addr, r);
        self.set_flag(CpuFlags::CARRY, value & 0x80 != 0);
        self.update_cpuflags(r);
    }

    fn lsr(&mut self, mode: &AddressingMode)
        requires
            old(self).wf(),
        ensures
            final(self).wf(),
            final(self)@ == old(self)@.lsr(*mode),
    {
        let (addr, value) = self.fetch_operand(mode);
        let r = value >> 1;
        self.memory_write_u8(addr, r);
        self.set_flag(CpuFlags::CARRY, value & 0x01 != 0);
        self.update_cpuflags(r);
    }

    fn rol(&mut self, mode: &AddressingMode)
        requires
            old(self).wf(),
        ensures
            final(self).wf(),
            final(self)@ == old(self)@.rol(*mode),
    {
        let old_carry: u8 = if self.status.contains(CpuFlags::CARRY) { 1 } else { 0 };
        let (addr, value) = self.fetch_operand(mode);
        let r = (value << 1) | old_carry;
        self.memory_write_u8(addr, r);
        self.set_flag(CpuFlags::CARRY, value & 0x80 != 0);
        self.update_cpuflags(r);
    }

    fn ror(&mut self, mode: &AddressingMode)
        requires
            old(self).wf(),
        ensures
            final(self).wf(),
            final(self)@ == old(self)@.ror(*mode),
    {
        let old_carry: u8 = if self.status.contains(CpuFlags::CARRY) { 0x80 } else { 0 };
        let (addr, value) = self.fetch_operand(mode);
        let r = (value >> 1) | old_carry;
        self.memory_write_u8(addr, r);
        self.set_flag(CpuFlags::CARRY, value & 0x01 != 0);
        self.update_cpuflags(r);
    }

    fn inc(&mut self, mode: &AddressingMode)
        requires
            old(self).wf(),
        ensures
            final(self).wf(),
            final(self)@ == old(self)@.inc(*mode),
    {
        let (addr, value) = self.fetch_operand(mode);
        let r = value.wrapping_add(1);
        self.memory_write_u8(addr, r);
        self.update_cpuflags(r);
    }

    fn dec(&mut self, mode: &AddressingMode)
        requires
            old(self).wf(),
        ensures
            final(self).wf(),
            final(self)@ == old(self)@.dec(*mode),
    {
        let (addr, value) = self.fetch_operand(mode);
        let r = value.wrapping_sub(1);
        self.memory_write_u8(addr, r);
        self.update_cpuflags(r);
    }

    fn compare(&mut self, lhs: u8, rhs: u8)
        ensures
            final(self)@ == old(self)@.compare(lhs, rhs),
            final(self).bus == old(self).bus,
    {
        self.set_flag(CpuFlags::CARRY, lhs >= rhs);
        self.update_cpuflags(lhs.wrapping_sub(rhs));
    }

    fn cmp(&mut self, mode: &AddressingMode)
        requires
            old(self).wf(),
        ensures
            final(self).wf(),
            final(self)@ == old(self)@.cmp(*mode),
    {
        let (_, value) = self.fetch_operand(mode);
        self.compare(self.reg_a, value);
    }

    fn cpx(&mut self, mode: &AddressingMode)
        requires
            old(self).wf(),
        ensures
            final(self).wf(),
            final(self)@ == old(self)@.cpx(*mode),
    {
        let (_, value) = self.fetch_operand(mode);
        self.compare(self.reg_x, value);
    }

    fn cpy(&mut self, mode: &AddressingMode)
        requires
            old(self).wf(),
        ensures
            final(self).wf(),
            final(self)@ == old(self)@.cpy(*mode),
    {
        let (_, value) = self.fetch_operand(mode);
        self.compare(self.reg_y, value);
    }

    fn bit(&mut self, mode: &AddressingMode)
        requires
            old(self).wf(),
        ensures
            final(self).wf(),
            final(self)@ == old(self)@.bit(*mode),
    {
        let (_, value) = self.fetch_operand(mode);
        self.set_flag(CpuFlags::ZERO, self.reg_a & value == 0);
        self.set_flag(CpuFlags::OVERFLOW, value & 0x40 != 0);
        self.set_flag(CpuFlags::NEGATIVE, value & 0x80 != 0);
    }

    fn branch_if(&mut self, cond: bool)
        requires
            old(self).wf(),
        ensures
            final(self).wf(),
            final(self)@ == old(self)@.branch_if(cond),
    {
        if cond {
            let pc = self.reg_pc;
            let off = self.memory_read_u8(pc);
            let next = pc.wrapping_add(1);
            self.reg_pc = if off < 128 {
                next.wrapping_add(off as u16)
            } else {
                next.wrapping_sub(256 - off as u16)
            };
        }
    }

    fn jmp(&mut self)
        requires
            old(self).wf(),
        ensures
            final(self).wf(),
            final(self)@ == old(self)@.jmp(),
    {
        let pc = self.reg_pc;
        self.reg_pc = self.memory_read_u16(pc);
    }

    fn jmp_indirect(&mut self)
        requires
            old(self).wf(),
        ensures
            final(self).wf(),
            final(self)@ == old(self)@.jmp_indirect(),
    {
        let pc = self.reg_pc;
        let addr = self.memory_read_u16(pc);
        let indirect = if addr & 0x00ff == 0x00ff {
            let lo = self.memory_read_u8(addr);
            let hi = self.memory_read_u8(addr & 0xff00);
            (hi as u16) * 256 + (lo as u16)
        } else {
            self.memory_read_u16(addr)
        };
        self.reg_pc = indirect;
    }

    fn stack_push_u8(&mut self, data: u8)
        requires
            old(self).wf(),
        ensures
            final(self).wf(),
            final(self)@ == old(self)@.push(data),
    {
        self.memory_write_u8(STACK_BASE + self.reg_sp as u16, data);
        self.reg_sp = self.reg_sp.wrapping_sub(1);
    }

    fn stack_pop_u8(&mut self) -> (r: u8)
        requires
            old(self).wf(),
        ensures
            final(self).wf(),
            (final(self)@, r) == old(self)@.pop(),
    {
        self.reg_sp = self.reg_sp.wrapping_add(1);
        self.memory_read_u8(STACK_BASE + self.reg_sp as u16)
    }

    fn stack_push_u16(&mut self, data: u16)
        requires
            old(self).wf(),
        ensures
            final(self).wf(),
            final(self)@ == old(self)@.push16(data),
    {
        self.stack_push_u8((data / 256) as u8);
        self.stack_push_u8((data % 256) as u8);
    }

    fn stack_pop_u16(&mut self) -> (r: u16)
        requires
            old(self).wf(),
        ensures
            final(self).wf(),
            (final(self)@, r) == old(self)@.pop16(),
    {
        let lo = self.stack_pop_u8() as u16;
        let hi = self.stack_pop_u8() as u16;
        hi * 256 + lo
    }

    fn jsr(&mut self)
        requires
            old(self).wf(),
        ensures
            final(self).wf(),
            final(self)@ == old(self)@.jsr(),
    {
        self.stack_push_u16(self.reg_pc.wrapping_add(1));
        let pc = self.reg_pc;
        self.reg_pc = self.memory_read_u16(pc);
    }

    fn rts(&mut self)
        requires
            old(self).wf(),
        ensures
            final(self).wf(),
            final(self)@ == old(self)@.rts(),
    {
        self.reg_pc = self.stack_pop_u16().wrapping_add(1);
    }

    /// Break1 cleared, Break2 set.
    fn restore_status(&mut self, bits: u8)
        ensures
            final(self)@ == old(self)@.set_status(CpuView::restored(bits)),
            final(self).bus == old(self).bus,
    {
        self.status = CpuFlags { bits };
        self.set_flag(CpuFlags::BREAK1, false);
        self.set_flag(CpuFlags::BREAK2, true);
    }

    fn rti(&mut self)
        requires
            old(self).wf(),
        ensures
            final(self).wf(),
            final(self)@ == old(self)@.rti(),
    {
        let st = self.stack_pop_u8();
        self.restore_status(st);
        self.reg_pc = self.stack_pop_u16();
    }

    fn pla(&mut self)
        requires
            old(self).wf(),
        ensures
            final(self).wf(),
            final(self)@ == old(self)@.pla(),
    {
        let v = self.stack_pop_u8();
        self.set_a(v);
    }

    fn php(&mut self)
        requires
            old(self).wf(),
        ensures
            final(self).wf(),
            final(self)@ == old(self)@.php(),
    {
        let mut flags = self.status;
        flags.set(CpuFlags::BREAK1, true);
        flags.set(CpuFlags::BREAK2, true);
        self.stack_push_u8(flags.bits);
    }

    fn plp(&mut self)
        requires
            old(self).wf(),
        ensures
            final(self).wf(),
            final(self)@ == old(self)@.plp(),
    {
        let v = self.stack_pop_u8();
        self.restore_status(v);
    }

    fn dcp_unofficial(&mut self, mode: &AddressingMode)
        requires
            old(self).wf(),
        ensures
            final(self).wf(),
            final(self)@ == old(self)@.dcp(*mode),
    {
        let (addr, value) = self.fetch_operand(mode);
        let data = value.wrapping_sub(1);
        self.memory_write_u8(addr, data);
        self.set_flag(CpuFlags::CARRY, data <= self.reg_a);
        self.update_cpuflags(self.reg_a.wrapping_sub(data));
    }
}

impl CPU {
    /// Runs the instruction `code` with PC at its first operand byte.
    fn execute(&mut self, code: u8, mode: &AddressingMode)
        requires
            old(self).wf(),
        ensures
            final(self).wf(),
            final(self)@ == old(self)@.execute(code, *mode),
    {
        if code < 0x40 {
            self.execute_00(code, mode)
        } else if code < 0x80 {
            self.execute_40(code, mode)
        } else if code < 0xc0 {
            self.execute_80(code, mode)
        } else if code < 0xe0 {
            self.execute_c0(code, mode)
        } else {
            self.execute_e0(code, mode)
        }
    }

    #[verifier::rlimit(40)]
    fn execute_00(&mut self, code: u8, mode: &AddressingMode)
        requires
            old(self).wf(),
        ensures
            final(self).wf(),
            final(self)@ == old(self)@.execute_00(code, *mode),
    {
        proof {
            reveal(CpuView::execute_00);
        }
        match code {
            0x29 | 0x25 | 0x35 | 0x2d | 0x3d | 0x39 | 0x21 | 0x31 => self.and(mode),
            0x0a => self.asl_accumulator(),
            0x06 | 0x16 | 0x0e | 0x1e => self.asl(mode),
            0x24 | 0x2c => self.bit(mode),
            0x30 => {
                let c = self.status.contains(CpuFlags::NEGATIVE);
                self.branch_if(c)
            },
            0x10 => {
                let c = self.status.contains(CpuFlags::NEGATIVE);
                self.branch_if(!c)
            },
            0x18 => self.set_flag(CpuFlags::CARRY, false),
            0x20 => self.jsr(),
            0x09 | 0x05 | 0x15 | 0x0d | 0x1d | 0x19 | 0x01 | 0x11 => self.ora(mode),
            0x08 => self.php(),
            0x28 => self.plp(),
            0x2a => self.rol_accumulator(),
            0x26 | 0x36 | 0x2e | 0x3e => self.rol(mode),
            0x38 => self.set_flag(CpuFlags::CARRY, true),
            0x27 | 0x37 | 0x2f | 0x3f | 0x3b | 0x33 | 0x23 => {
                self.rol(mode);
                self.and(mode);
            },
            0x07 | 0x17 | 0x0f | 0x1f | 0x1b | 0x03 | 0x13 => {
                self.asl(mode);
                self.ora(mode);
            },
            _ => {},
        }
    }

    #[verifier::rlimit(40)]
    fn execute_40(&mut self, code: u8, mode: &AddressingMode)
        requires
            old(self).wf(),
        ensures
            final(self).wf(),
            final(self)@ == old(self)@.execute_40(code, *mode),
    {
        proof {
            reveal(CpuView::execute_40);
        }
        match code {
            0x69 | 0x65 | 0x75 | 0x6d | 0x7d | 0x79 | 0x61 | 0x71 => self.adc(mode),
            0x50 => {
                let c = self.status.contains(CpuFlags::OVERFLOW);
                self.branch_if(!c)
            },
            0x70 => {
                let c = self.status.contains(CpuFlags::OVERFLOW);
                self.branch_if(c)
            },
            0x58 => self.set_flag(CpuFlags::INTERRUPT_DISABLE, false),
            0x49 | 0x45 | 0x55 | 0x4d | 0x5d | 0x59 | 0x41 | 0x51 => self.eor(mode),
            0x4c => self.jmp(),
            0x6c => self.jmp_indirect(),
            0x4a => self.lsr_accumulator(),
            0x46 | 0x56 | 0x4e | 0x5e => self.lsr(mode),
            0x48 => self.stack_push_u8(self.reg_a),
            0x68 => self.pla(),
            0x6a => self.ror_accumulator(),
            0x66 | 0x76 | 0x6e | 0x7e => self.ror(mode),
            0x40 => self.rti(),
            0x60 => self.rts(),
            0x78 => self.set_flag(CpuFlags::INTERRUPT_DISABLE, true),
            0x47 | 0x57 | 0x4f | 0x5f | 0x5b | 0x43 | 0x53 => {
                self.lsr(mode);
                self.eor(mode);
            },
            _ => {},
        }
    }

    #[verifier::rlimit(40)]
    fn execute_80(&mut self, code: u8, mode: &AddressingMode)
        requires
            old(self).wf(),
        ensures
            final(self).wf(),
            final(self)@ == old(self)@.execute_80(code, *mode),
    {
        proof {
            reveal(CpuView::execute_80);
        }
        match code {
            0x90 => {
                let c = self.status.contains(CpuFlags::CARRY);
                self.branch_if(!c)
            },
            0xb0 => {
                let c = self.status.contains(CpuFlags::CARRY);
                self.branch_if(c)
            },
            0xb8 => self.set_flag(CpuFlags::OVERFLOW, false),
            0x88 => self.set_y(self.reg_y.wrapping_sub(1)),
            0xa9 | 0xa5 | 0xb5 | 0xad | 0xbd | 0xb9 | 0xa1 | 0xb1 => self.lda(mode),
            0xa2 | 0xa6 | 0xb6 | 0xae | 0xbe => self.ldx(mode),
            0xa0 | 0xa4 | 0xb4 | 0xac | 0xbc => self.ldy(mode),
            0x85 | 0x95 | 0x8d | 0x9d | 0x99 | 0x81 | 0x91 => self.store(mode, self.reg_a),
            0x86 | 0x96 | 0x8e => self.store(mode, self.reg_x),
            0x84 | 0x94 | 0x8c => self.store(mode, self.reg_y),
            0xaa => self.set_x(self.reg_a),
            0xa8 => self.set_y(self.reg_a),
            0xba => self.set_x(self.reg_sp),
            0x8a => self.set_a(self.reg_x),
            0x9a => {
                self.reg_sp = self.reg_x;
            },
            0x98 => self.set_a(self.reg_y),
            0xa7 | 0xb7 | 0xaf | 0xbf | 0xa3 | 0xb3 => {
                self.lda(mode);
                self.set_x(self.reg_a);
            },
            0x87 | 0x97 | 0x8f | 0x83 => self.store(mode, self.reg_a & self.reg_x),
            _ => {},
        }
    }

    #[verifier::rlimit(40)]
    fn execute_c0(&mut self, code: u8, mode: &AddressingMode)
        requires
            old(self).wf(),
        ensures
            final(self).wf(),
            final(self)@ == old(self)@.execute_c0(code, *mode),
    {
        proof {
            reveal(CpuView::execute_c0);
        }
        match code {
            0xd0 => {
                let c = self.status.contains(CpuFlags::ZERO);
                self.branch_if(!c)
            },
            0xd8 => self.set_flag(CpuFlags::DECIMAL_MODE, false),
            0xc9 | 0xc5 | 0xd5 | 0xcd | 0xdd | 0xd9 | 0xc1 | 0xd1 => self.cmp(mode),
            0xc0 | 0xc4 | 0xcc => self.cpy(mode),
            0xc6 | 0xd6 | 0xce | 0xde => self.dec(mode),
            0xca => self.set_x(self.reg_x.wrapping_sub(1)),
            0xc8 => self.set_y(self.reg_y.wrapping_add(1)),
            0xc7 | 0xd7 | 0xcf | 0xdf | 0xdb | 0xd3 | 0xc3 => self.dcp_unofficial(mode),
            _ => {},
        }
    }

    #[verifier::rlimit(40)]
    fn execute_e0(&mut self, code: u8, mode: &AddressingMode)
        requires
            old(self).wf(),
        ensures
            final(self).wf(),
            final(self)@ == old(self)@.execute_e0(code, *mode),
    {
        proof {
            reveal(CpuView::execute_e0);
        }
        match code {
            0xf0 => {
                let c = self.status.contains(CpuFlags::ZERO);
                self.branch_if(c)
            },
            0xe0 | 0xe4 | 0xec => self.cpx(mode),
            0xe6 | 0xf6 | 0xee | 0xfe => self.inc(mode),
            0xe8 => self.set_x(self.reg_x.wrapping_add(1)),
            0xe9 | 0xe5 | 0xf5 | 0xed | 0xfd | 0xf9 | 0xe1 | 0xf1 | 0xeb => self.sbc(mode),
            0xf8 => self.set_flag(CpuFlags::DECIMAL_MODE, true),
            0xe7 | 0xf7 | 0xef | 0xff | 0xfb | 0xe3 | 0xf3 => {
                self.inc(mode);
                self.sbc(mode);
            },
            _ => {},
        }
    }

    /// Services an NMI.
    fn interrupt_nmi(&mut self)
        requires
            old(self).wf(),
        ensures
            final(self).wf(),
            final(self)@ == old(self)@.nmi(),
    {
        proof {
            reveal(CpuView::nmi);
        }
        self.stack_push_u16(self.reg_pc);
        let mut flags = self.status;
        flags.set(CpuFlags::BREAK1, false);
        flags.set(CpuFlags::BREAK2, true);
        self.stack_push_u8(flags.bits);
        self.set_flag(CpuFlags::INTERRUPT_DISABLE, true);
        self.reg_pc = self.memory_read_u16(0xfffa);
        self.bus.tick(2);
    }

    /// Runs one step: services a pending NMI, fetches the opcode at PC and
    /// runs it, advancing PC past its operand unless it jumped, then charges
    /// its base cycles to the bus. A BRK ends the program and runs nothing.
    pub fn step(&mut self) -> (r: Result<StepResult, CpuError>)
        requires
            old(self).wf(),
        ensures
            final(self).wf(),
            (final(self)@, r) == old(self)@.step_spec(),
    {
        let pending = self.bus.poll_nmi();
        if pending.is_some() {
            self.interrupt_nmi();
        }
        let pc = self.reg_pc;
        let code = self.memory_read_u8(pc);
        self.reg_pc = pc.wrapping_add(1);
        let op = match lookup_info(code) {
            Some(op) => op,
            None => {
                return Err(CpuError::UnknownOpcode(code));
            },
        };
        if code == 0x00 {
            return Ok(StepResult::Break);
        }
        proof {
            crate::opcodes::lemma_opcode_bounds(code);
        }
        let pc_state = self.reg_pc;
        self.execute(code, &op.mode);
        if self.reg_pc == pc_state {
            self.reg_pc = self.reg_pc.wrapping_add((op.len - 1) as u16);
        }
        let frame = self.bus.tick(op.cycles);
        match self.bus.fault {
            Some(f) => Err(CpuError::Bus(f)),
            None => Ok(if frame { StepResult::Frame } else { StepResult::Continue }),
        }
    }

    /// Resets the registers: A = X = Y = 0, SP = 0xFD, status =
    /// InterruptDisable | Break2, PC from the vector at 0xFFFC.
    pub fn reset(&mut self)
        requires
            old(self).wf(),
        ensures
            final(self).wf(),
            final(self)@ == old(self)@.reset_spec(),
    {
        self.reg_a = 0;
        self.reg_x = 0;
        self.reg_y = 0;
        self.reg_sp = STACK_RESET;
        self.status = CpuFlags { bits: 0x24 };
        self.reg_pc = self.memory_read_u16(0xfffc);
    }

    /// Writes `program` through the bus from 0x0600 on, in order.
    pub fn load(&mut self, program: &Vec<u8>)
        requires
            old(self).wf(),
            program.len() <= 0x10000 - 0x600,
        ensures
            final(self).wf(),
            final(self)@ == old(self)@.load_spec(program@, program.len() as nat),
    {
        let mut i: usize = 0;
        while i < program.len()
            invariant
                self.wf(),
                i <= program.len() <= 0x10000 - 0x600,
                self@ == old(self)@.load_spec(program@, i as nat),
            decreases program.len() - i,
        {
            let addr: u16 = 0x0600 + i as u16;
            self.memory_write_u8(addr, program[i]);
            i = i + 1;
        }
    }

    /// Runs steps until one does not continue: a BRK, an unknown opcode or
    /// a fatal bus access. After 2^64 - 1 steps that all continued it stops
    /// with `StepLimit`.
    pub fn run(&mut self) -> (r: Result<(), CpuError>)
        requires
            old(self).wf(),
        ensures
            final(self).wf(),
            run_ends(old(self)@, final(self)@, r),
    {
        let mut budget: u64 = u64::MAX;
        let ghost mut taken: nat = 0;
        while budget > 0
            invariant
                self.wf(),
                taken + budget == u64::MAX,
                taken == 0 ==> self@ == old(self)@,
                taken > 0 ==> {
                    let (w, res) = run_from(old(self)@, (taken - 1) as nat);
                    &&& w == self@
                    &&& continues(res)
                },
            decreases budget,
        {
            let ghost before = self@;
            let step = self.step();
            proof {
                if taken > 0 {
                    assert(run_from(old(self)@, taken) == before.step_spec());
                }
                assert(run_from(old(self)@, taken) == (self@, step));
            }
            match step {
                Ok(StepResult::Break) => {
                    assert(run_from(old(self)@, taken) == (self@, Ok::<StepResult, CpuError>(StepResult::Break)));
                    return Ok(());
                },
                Ok(_) => {},
                Err(e) => {
                    assert(e != CpuError::StepLimit);
                    assert(run_from(old(self)@, taken) == (self@, Err::<StepResult, CpuError>(e)));
                    return Err(e);
                },
            }
            budget = budget - 1;
            proof {
                taken = taken + 1;
            }
        }
        Err(CpuError::StepLimit)
    }

    /// Loads `program` at 0x0600, resets, points PC at the program and runs.
    pub fn load_and_run(&mut self, program: Vec<u8>) -> (r: Result<(), CpuError>)
        requires
            old(self).wf(),
            program.len() <= 0x10000 - 0x600,
        ensures
            final(self).wf(),
            run_ends(
                CpuView { pc: 0x0600, ..old(self)@.load_spec(program@, program.len() as nat).reset_spec() },
                final(self)@,
                r,
            ),
    {
        self.load(&program);
        self.reset();
        self.reg_pc = 0x0600;
        self.run()
    }
}

/// Whether a step's outcome lets the run go on.
pub open spec fn continues(r: Result<StepResult, CpuError>) -> bool {
    r == Ok::<StepResult, CpuError>(StepResult::Continue) || r == Ok::<StepResult, CpuError>(StepResult::Frame)
}

/// The state and outcome after step `n` (counting from 0) of a run from
/// `v`, or after the earlier step at which the run stopped.
pub open spec fn run_from(v: CpuView, n: nat) -> (CpuView, Result<StepResult, CpuError>)
    decreases n,
{
    if n == 0 {
        v.step_spec()
    } else {
        let (w, r) = run_from(v, (n - 1) as nat);
        if continues(r) { w.step_spec() } else { (w, r) }
    }
}

/// How a run from `start` ended in `end` with result `r`: `Ok` at a BRK,
/// an error of a step as that step gave it, `StepLimit` after 2^64 - 1
/// steps that all continued.
pub open spec fn run_ends(start: CpuView, end: CpuView, r: Result<(), CpuError>) -> bool {
    match r {
        Ok(()) => exists|n: nat| #[trigger] run_from(start, n) == (end, Ok::<StepResult, CpuError>(StepResult::Break)),
        Err(CpuError::StepLimit) => {
            let (w, res) = run_from(start, (u64::MAX - 1) as nat);
            w == end && continues(res)
        },
        Err(e) => exists|n: nat| #[trigger] run_from(start, n) == (end, Err::<StepResult, CpuError>(e)),
    }
}

} // verus!

verus! {

/// PLP and RTI leave Break1 clear and Break2 set, whatever byte they pull;
/// an NMI pushes the status that way too, while PHP pushes both set.
pub proof fn lemma_break_bits(v: CpuView)
    requires
        v.wf(),
    ensures
        v.plp().status & 0x30 == 0x20,
        v.rti().status & 0x30 == 0x20,
        forall|b: u8| #[trigger] CpuView::restored(b) & 0x30 == 0x20,
        with_flag(with_flag(v.status, 0x10, true), 0x20, true) & 0x30 == 0x30,
{
    assert forall|b: u8| #[trigger] CpuView::restored(b) & 0x30 == 0x20 by {
        assert(((b & !0x10u8) | 0x20u8) & 0x30u8 == 0x20u8) by (bit_vector);
    }
    let st = v.status;
    assert(((st | 0x10u8) | 0x20u8) & 0x30u8 == 0x30u8) by (bit_vector);
    let (s, b) = v.pop();
    let s1 = s.set_status(CpuView::restored(b));
    let (s2, pc) = s1.pop16();
    assert(s2.status == s1.status);
}

/// PHA followed by PLA gives A back and leaves SP where it was.
pub proof fn lemma_pha_pla(v: CpuView)
    requires
        v.wf(),
    ensures
        v.push(v.a).pla().a == v.a,
        v.push(v.a).pla().sp == v.sp,
{
    let addr = (0x100 + v.sp) as u16;
    crate::bus::lemma_ram_write_read(v.bus, addr, v.a);
    let s = v.push(v.a);
    assert(((s.sp + 1) % 256) as u8 == v.sp);
}

} // verus!

verus! {

/// Setting or clearing flags outside bits 4 and 5 leaves the Break bits.
proof fn lemma_flags_keep_break()
    ensures
        forall|b: u8, m: u8, on: bool| m & 0x30 == 0 ==> #[trigger] with_flag(b, m, on) & 0x30 == b & 0x30,
        0x01u8 & 0x30 == 0 && 0x02u8 & 0x30 == 0 && 0x04u8 & 0x30 == 0 && 0x08u8 & 0x30 == 0 && 0x40u8 & 0x30 == 0
            && 0x80u8 & 0x30 == 0,
{
    assert forall|b: u8, m: u8, on: bool| m & 0x30 == 0 implies #[trigger] with_flag(b, m, on) & 0x30 == b & 0x30 by {
        assert((b | m) & 0x30 == b & 0x30 && (b & !m) & 0x30 == b & 0x30) by (bit_vector)
            requires m & 0x30 == 0;
    }
    assert(0x01u8 & 0x30 == 0 && 0x02u8 & 0x30 == 0 && 0x04u8 & 0x30 == 0 && 0x08u8 & 0x30 == 0
        && 0x40u8 & 0x30 == 0 && 0x80u8 & 0x30 == 0) by (bit_vector);
}

proof fn lemma_restored_break(b: u8)
    ensures
        CpuView::restored(b) & 0x30 == 0x20,
{
    assert(((b & !0x10u8) | 0x20u8) & 0x30u8 == 0x20u8) by (bit_vector);
}

#[verifier::rlimit(100)]
proof fn lemma_execute_00_break_bits(v: CpuView, code: u8, mode: AddressingMode)
    requires
        v.status & 0x30 == 0x20,
    ensures
        v.execute_00(code, mode).status & 0x30 == 0x20,
{
    lemma_flags_keep_break();
    reveal(CpuView::execute_00);
    let (s, b) = v.pop();
    lemma_restored_break(b);
    let s1 = s.set_status(CpuView::restored(b));
    assert(s1.pop16().0.status == s1.status);
}

#[verifier::rlimit(100)]
proof fn lemma_execute_40_break_bits(v: CpuView, code: u8, mode: AddressingMode)
    requires
        v.status & 0x30 == 0x20,
    ensures
        v.execute_40(code, mode).status & 0x30 == 0x20,
{
    lemma_flags_keep_break();
    reveal(CpuView::execute_40);
    let (s, b) = v.pop();
    lemma_restored_break(b);
    let s1 = s.set_status(CpuView::restored(b));
    assert(s1.pop16().0.status == s1.status);
}

#[verifier::rlimit(100)]
proof fn lemma_execute_80_break_bits(v: CpuView, code: u8, mode: AddressingMode)
    requires
        v.status & 0x30 == 0x20,
    ensures
        v.execute_80(code, mode).status & 0x30 == 0x20,
{
    lemma_flags_keep_break();
    reveal(CpuView::execute_80);
    let (s, b) = v.pop();
    lemma_restored_break(b);
    let s1 = s.set_status(CpuView::restored(b));
    assert(s1.pop16().0.status == s1.status);
}

#[verifier::rlimit(100)]
proof fn lemma_execute_c0_break_bits(v: CpuView, code: u8, mode: AddressingMode)
    requires
        v.status & 0x30 == 0x20,
    ensures
        v.execute_c0(code, mode).status & 0x30 == 0x20,
{
    lemma_flags_keep_break();
    reveal(CpuView::execute_c0);
    let (s, b) = v.pop();
    lemma_restored_break(b);
    let s1 = s.set_status(CpuView::restored(b));
    assert(s1.pop16().0.status == s1.status);
}

#[verifier::rlimit(100)]
proof fn lemma_execute_e0_break_bits(v: CpuView, code: u8, mode: AddressingMode)
    requires
        v.status & 0x30 == 0x20,
    ensures
        v.execute_e0(code, mode).status & 0x30 == 0x20,
{
    lemma_flags_keep_break();
    reveal(CpuView::execute_e0);
    let (s, b) = v.pop();
    lemma_restored_break(b);
    let s1 = s.set_status(CpuView::restored(b));
    assert(s1.pop16().0.status == s1.status);
}

/// Every instruction other than PLP and RTI leaves the Break bits of the
/// status register as they were; PLP and RTI set them to Break1 clear,
/// Break2 set.
proof fn lemma_execute_break_bits(v: CpuView, code: u8, mode: AddressingMode)
    requires
        v.status & 0x30 == 0x20,
    ensures
        v.execute(code, mode).status & 0x30 == 0x20,
{
    if code < 0x40 {
        lemma_execute_00_break_bits(v, code, mode);
    } else if code < 0x80 {
        lemma_execute_40_break_bits(v, code, mode);
    } else if code < 0xc0 {
        lemma_execute_80_break_bits(v, code, mode);
    } else if code < 0xe0 {
        lemma_execute_c0_break_bits(v, code, mode);
    } else {
        lemma_execute_e0_break_bits(v, code, mode);
    }
}

proof fn lemma_nmi_break_bits(v: CpuView)
    ensures
        v.nmi().status & 0x30 == v.status & 0x30,
{
    lemma_flags_keep_break();
    reveal(CpuView::nmi);
    let s = v.push16(v.pc);
    let s = s.push(CpuView::restored(s.status));
    assert(s.status == v.status);
}

/// From a status with Break1 clear and Break2 set, a step keeps it so:
/// no instruction, nor the servicing of an NMI, makes the Break bits
/// observable in the status register.
pub proof fn lemma_step_break_bits(v: CpuView)
    requires
        v.status & 0x30 == 0x20,
    ensures
        v.step_spec().0.status & 0x30 == 0x20,
{
    let s0 = v.with_bus(BusView { ppu: crate::ppu::PpuView { nmi: None, ..v.bus.ppu }, ..v.bus });
    let s1 = if v.bus.ppu.nmi is Some { s0.nmi() } else { s0 };
    let (s2, code) = s1.rd(s1.pc);
    let s3 = CpuView { pc: ((s1.pc + 1) % 0x10000) as u16, ..s2 };
    if v.bus.ppu.nmi is Some {
        lemma_nmi_break_bits(s0);
    }
    assert(s3.status == s1.status);
    if let Some(op) = opcode_info(code) {
        lemma_execute_break_bits(s3, code, op.mode);
    }
}

} // verus!

verus! {

/// Once a run has stopped, later step counts give the same end.
pub proof fn lemma_run_from_stays(v: CpuView, n: nat, m: nat)
    requires
        n <= m,
        !continues(run_from(v, n).1),
    ensures
        run_from(v, m) == run_from(v, n),
    decreases m - n,
{
    if n < m {
        lemma_run_from_stays(v, n, (m - 1) as nat);
    }
}

/// A run ends in one state only: two step counts at which the run from `v`
/// has stopped give the same state and outcome.
pub proof fn lemma_run_end_unique(v: CpuView, n1: nat, n2: nat)
    requires
        !continues(run_from(v, n1).1),
        !continues(run_from(v, n2).1),
    ensures
        run_from(v, n1) == run_from(v, n2),
{
    if n1 <= n2 {
        lemma_run_from_stays(v, n1, n2);
    } else {
        lemma_run_from_stays(v, n2, n1);
    }
}

} // verus!

verus! {

/// PLP pulls the byte above SP into the status with Break1 clear and
/// Break2 set, and moves SP up; nothing else changes.
pub proof fn lemma_plp_effect(v: CpuView)
    requires
        v.wf(),
    ensures
        ({
            let sp = ((v.sp + 1) % 256) as u8;
            let b = v.bus.ram[0x100 + sp];
            v.plp() == (CpuView { sp, status: (b & !0x10u8) | 0x20u8, ..v })
        }),
{
    let sp = ((v.sp + 1) % 256) as u8;
    crate::bus::lemma_ram_read(v.bus, (0x100 + sp) as u16);
}

/// RTI pulls the status (Break1 clear, Break2 set) and then PC, low byte
/// first, from above SP, and moves SP up by three.
pub proof fn lemma_rti_effect(v: CpuView)
    requires
        v.wf(),
    ensures
        ({
            let s1 = ((v.sp + 1) % 256) as u8;
            let s2 = ((v.sp + 2) % 256) as u8;
            let s3 = ((v.sp + 3) % 256) as u8;
            let b = v.bus.ram[0x100 + s1];
            let lo = v.bus.ram[0x100 + s2];
            let hi = v.bus.ram[0x100 + s3];
            v.rti() == (CpuView { sp: s3, status: (b & !0x10u8) | 0x20u8, pc: word(hi, lo), ..v })
        }),
{
    let s1 = ((v.sp + 1) % 256) as u8;
    let s2 = ((v.sp + 2) % 256) as u8;
    let s3 = ((v.sp + 3) % 256) as u8;
    crate::bus::lemma_ram_read(v.bus, (0x100 + s1) as u16);
    crate::bus::lemma_ram_read(v.bus, (0x100 + s2) as u16);
    crate::bus::lemma_ram_read(v.bus, (0x100 + s3) as u16);
}

/// PHP writes the status with both Break bits set at SP and moves SP down;
/// the status register itself is kept.
pub proof fn lemma_php_effect(v: CpuView)
    requires
        v.wf(),
    ensures
        v.php() == (CpuView {
            sp: ((v.sp + 255) % 256) as u8,
            bus: BusView { ram: v.bus.ram.update(0x100 + v.sp, v.status | 0x30u8), ..v.bus },
            ..v
        }),
{
    crate::bus::lemma_ram_write(v.bus, (0x100 + v.sp) as u16, with_flag(with_flag(v.status, 0x10, true), 0x20, true));
    let st = v.status;
    assert((st | 0x10u8) | 0x20u8 == st | 0x30u8) by (bit_vector);
}

/// Servicing an NMI pushes PC (high byte first) and the status with
/// Break1 clear and Break2 set, moves SP down by three, sets
/// InterruptDisable and loads PC from 0xFFFA; two cycles are charged.
pub proof fn lemma_nmi_effect(v: CpuView)
    requires
        v.wf(),
    ensures
        ({
            let s0 = v.sp;
            let s1 = ((v.sp + 255) % 256) as u8;
            let s2 = ((v.sp + 254) % 256) as u8;
            let ram = v.bus.ram.update(0x100 + s0, (v.pc / 256) as u8).update(0x100 + s1, (v.pc % 256) as u8).update(
                0x100 + s2,
                (v.status & !0x10u8) | 0x20u8,
            );
            let pushed = CpuView {
                sp: ((v.sp + 253) % 256) as u8,
                status: v.status | 0x04u8,
                bus: BusView { ram, ..v.bus },
                ..v
            };
            let (s, pc) = pushed.rd16(0xfffa);
            v.nmi() == (CpuView { pc, bus: s.bus.tick_spec(2).0, ..s })
        }),
{
    reveal(CpuView::nmi);
    let s1 = ((v.sp + 255) % 256) as u8;
    let s2 = ((v.sp + 254) % 256) as u8;
    crate::bus::lemma_ram_write(v.bus, (0x100 + v.sp) as u16, (v.pc / 256) as u8);
    let b1 = BusView { ram: v.bus.ram.update(0x100 + v.sp, (v.pc / 256) as u8), ..v.bus };
    crate::bus::lemma_ram_write(b1, (0x100 + s1) as u16, (v.pc % 256) as u8);
    let b2 = BusView { ram: b1.ram.update(0x100 + s1, (v.pc % 256) as u8), ..b1 };
    crate::bus::lemma_ram_write(b2, (0x100 + s2) as u16, CpuView::restored(v.status));
}

} // verus!

verus! {

/// PHA and a later PLA give A back, with Zero and Negative set from it,
/// and SP back where it was, when in between SP is where PHA left it and
/// the only bus traffic is writes `ws` that miss the pushed cell. The
/// other registers may change freely in between.
pub proof fn lemma_pha_pla_across(v: CpuView, w: CpuView, ws: Seq<(u16, u8)>)
    requires
        v.wf(),
        w.sp == v.push(v.a).sp,
        w.bus == crate::bus::store_all(v.push(v.a).bus, ws),
        forall|i: int| 0 <= i < ws.len() ==> !crate::bus::same_ram_cell(#[trigger] ws[i].0, (0x100 + v.sp) as u16),
    ensures
        w.pla().a == v.a,
        w.pla().sp == v.sp,
        w.pla().status == with_nz(w.status, v.a),
{
    let addr = (0x100 + v.sp) as u16;
    assert(addr & 0x7ff == addr) by (bit_vector)
        requires addr < 0x800;
    crate::bus::lemma_ram_write(v.bus, addr, v.a);
    let pushed = v.push(v.a);
    crate::bus::lemma_cell_kept(pushed.bus, addr, v.a, ws);
    assert(((pushed.sp + 1) % 256) as u8 == v.sp);
    reveal(BusView::read_spec);
}

} // verus!
