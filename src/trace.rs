use vstd::prelude::*;
use crate::cpu::AddressingMode;
use crate::cpu::CPU;
use crate::cpu::CpuView;
use crate::opcodes::lookup_info;
use crate::opcodes::mnemonic_spec;
use crate::opcodes::opcode_info;
use crate::opcodes::mnemonic;
use vstd::string::StringSliceAdditionalSpecFns;

verus! {

/// The ASCII upper-case hex digit of `n` (0..=15).
pub open spec fn hex_digit(n: u8) -> u8 {
    if n < 10 { (0x30 + n) as u8 } else { (0x41 + n - 10) as u8 }
}

/// Two upper-case hex digits.
pub open spec fn hex2(v: u8) -> Seq<u8> {
    seq![hex_digit(v / 16), hex_digit(v % 16)]
}

/// Four upper-case hex digits.
pub open spec fn hex4(v: u16) -> Seq<u8> {
    hex2((v / 256) as u8) + hex2((v % 256) as u8)
}

/// The register columns of a trace line, as ASCII:
/// ` A:hh X:hh Y:hh P:hh SP:hh`.
pub open spec fn register_columns(a: u8, x: u8, y: u8, p: u8, sp: u8) -> Seq<u8> {
    seq![0x20u8, 0x41u8, 0x3au8] + hex2(a) + seq![0x20u8, 0x58u8, 0x3au8] + hex2(x) + seq![0x20u8, 0x59u8, 0x3au8]
        + hex2(y) + seq![0x20u8, 0x50u8, 0x3au8] + hex2(p) + seq![0x20u8, 0x53u8, 0x50u8, 0x3au8] + hex2(sp)
}

/// Relies on std's `String: FromIterator<char>` (`collect`), fed each byte
/// converted with `u8 as char`: the string holds one character per byte,
/// in order, the character whose code is that byte.
#[verifier::external_body]
fn ascii_to_string(bytes: &Vec<u8>) -> (r: String)
    ensures
        r@ == bytes@.map_values(|b: u8| b as char),
{
    bytes.iter().map(|b| *b as char).collect::<String>()
}

fn push_hex_digit(out: &mut Vec<u8>, n: u8)
    requires
        n < 16,
    ensures
        final(out)@ == old(out)@.push(hex_digit(n)),
{
    if n < 10 {
        out.push(0x30 + n);
    } else {
        out.push(0x41 + n - 10);
    }
}

fn push_hex2(out: &mut Vec<u8>, v: u8)
    ensures
        final(out)@ == old(out)@ + hex2(v),
{
    push_hex_digit(out, v / 16);
    push_hex_digit(out, v % 16);
    assert(out@ =~= old(out)@ + hex2(v));
}

fn push_hex4(out: &mut Vec<u8>, v: u16)
    ensures
        final(out)@ == old(out)@ + hex4(v),
{
    push_hex2(out, (v / 256) as u8);
    push_hex2(out, (v % 256) as u8);
    assert(out@ =~= old(out)@ + hex4(v));
}

/// Appends the bytes of a string.
fn push_str(out: &mut Vec<u8>, s: &str)
    ensures
        final(out)@ == old(out)@ + s.spec_bytes(),
{
    let bytes = s.as_bytes();
    let mut i: usize = 0;
    let ghost start = out@;
    while i < bytes.len()
        invariant
            i <= bytes.len(),
            out@ == start + bytes@.subrange(0, i as int),
            start == old(out)@,
            bytes@ == s.spec_bytes(),
        decreases bytes.len() - i,
    {
        out.push(bytes[i]);
        i = i + 1;
        assert(out@ =~= start + bytes@.subrange(0, i as int));
    }
    assert(bytes@.subrange(0, bytes@.len() as int) =~= bytes@);
}

/// Appends a space, the given ASCII letters and a colon.
fn push_label(out: &mut Vec<u8>, letters: &Vec<u8>)
    ensures
        final(out)@ == old(out)@ + seq![0x20u8] + letters@ + seq![0x3au8],
{
    out.push(0x20);
    append_bytes(out, letters);
    out.push(0x3a);
    assert(out@ =~= old(out)@ + seq![0x20u8] + letters@ + seq![0x3au8]);
}

/// Pads with spaces on the right up to `width` bytes.
fn pad_right(out: &mut Vec<u8>, width: usize)
    ensures
        final(out)@ == pad_to(old(out)@, width as int),
        final(out)@.len() == if old(out)@.len() >= width { old(out)@.len() as int } else { width as int },
        final(out)@.subrange(0, old(out)@.len() as int) == old(out)@,
        forall|i: int| old(out)@.len() <= i < final(out)@.len() ==> final(out)@[i] == 0x20,
{
    while out.len() < width
        invariant
            old(out)@.len() <= out@.len() <= if old(out)@.len() >= width { old(out)@.len() as int } else { width as int },
            out@.subrange(0, old(out)@.len() as int) == old(out)@,
            forall|i: int| old(out)@.len() <= i < out@.len() ==> out@[i] == 0x20,
        decreases width - out@.len(),
    {
        out.push(0x20);
        assert(out@.subrange(0, old(out)@.len() as int) =~= old(out)@);
    }
    assert(out@ =~= pad_to(old(out)@, width as int));
}

/// Drops trailing spaces.
fn trim_end(out: &mut Vec<u8>)
    ensures
        final(out)@ == trim_spaces(old(out)@),
        final(out)@.len() <= old(out)@.len(),
        final(out)@ == old(out)@.subrange(0, final(out)@.len() as int),
        final(out)@.len() == 0 || final(out)@.last() != 0x20,
        forall|i: int| final(out)@.len() <= i < old(out)@.len() ==> old(out)@[i] == 0x20,
{
    while out.len() > 0 && out[out.len() - 1] == 0x20
        invariant
            out@.len() <= old(out)@.len(),
            out@ == old(out)@.subrange(0, out@.len() as int),
            forall|i: int| out@.len() <= i < old(out)@.len() ==> old(out)@[i] == 0x20,
            trim_spaces(out@) == trim_spaces(old(out)@),
        decreases out@.len(),
    {
        let ghost prev = out@;
        out.pop();
        assert(out@ =~= old(out)@.subrange(0, out@.len() as int));
        assert(out@ =~= prev.drop_last());
    }
}

/// Spaces appended up to width `w`.
pub open spec fn pad_to(s: Seq<u8>, w: int) -> Seq<u8> {
    if s.len() >= w {
        s
    } else {
        s + Seq::new((w - s.len()) as nat, |i: int| 0x20u8)
    }
}

/// `s` without its trailing spaces.
pub open spec fn trim_spaces(s: Seq<u8>) -> Seq<u8>
    decreases s.len(),
{
    if s.len() > 0 && s.last() == 0x20 {
        trim_spaces(s.drop_last())
    } else {
        s
    }
}

// ASCII pieces of the operand text.
pub open spec fn equals_sep() -> Seq<u8> {
    seq![0x20u8, 0x3du8, 0x20u8]
}

pub open spec fn at_sep() -> Seq<u8> {
    seq![0x20u8, 0x40u8, 0x20u8]
}

pub open spec fn dollar() -> Seq<u8> {
    seq![0x24u8]
}

/// The operand text of a two-byte instruction whose operand byte is `addr`.
pub open spec fn immediate_text(addr: u8) -> Seq<u8> {
    seq![0x23u8, 0x24u8] + hex2(addr)
}

pub open spec fn zero_page_text(oa: u16, value: u8) -> Seq<u8> {
    dollar() + hex2(oa as u8) + equals_sep() + hex2(value)
}

/// `$aa,R @ oo = vv` for the index register named by the ASCII byte `reg`.
pub open spec fn zero_page_indexed_text(addr: u8, reg: u8, oa: u16, value: u8) -> Seq<u8> {
    dollar() + hex2(addr) + seq![0x2cu8, reg] + at_sep() + hex2(oa as u8) + equals_sep() + hex2(value)
}

pub open spec fn indirect_x_text(addr: u8, x: u8, oa: u16, value: u8) -> Seq<u8> {
    seq![0x28u8, 0x24u8] + hex2(addr) + seq![0x2cu8, 0x58u8, 0x29u8] + at_sep() + hex2(((addr + x) % 256) as u8) + equals_sep()
        + hex4(oa) + equals_sep() + hex2(value)
}

pub open spec fn indirect_y_text(addr: u8, y: u8, oa: u16, value: u8) -> Seq<u8> {
    seq![0x28u8, 0x24u8] + hex2(addr) + seq![0x29u8, 0x2cu8, 0x59u8] + equals_sep() + hex4(((oa + 0x10000 - y) % 0x10000) as u16)
        + at_sep() + hex4(oa) + equals_sep() + hex2(value)
}

/// The branch target of a relative operand, as `$tttt`.
pub open spec fn relative_text(begin: u16, addr: u8) -> Seq<u8> {
    dollar() + hex4(((begin + 2 + crate::cpu::signed(addr) + 0x10000) % 0x10000) as u16)
}

/// The operand text of a two-byte instruction whose operand byte is `addr`.
pub open spec fn operand2_spec(mode: AddressingMode, begin: u16, addr: u8, oa: u16, value: u8, x: u8, y: u8) -> Seq<u8> {
    match mode {
        AddressingMode::Immediate => immediate_text(addr),
        AddressingMode::ZeroPage => zero_page_text(oa, value),
        AddressingMode::ZeroPage_X => zero_page_indexed_text(addr, 0x58, oa, value),
        AddressingMode::ZeroPage_Y => zero_page_indexed_text(addr, 0x59, oa, value),
        AddressingMode::Indirect_X => indirect_x_text(addr, x, oa, value),
        AddressingMode::Indirect_Y => indirect_y_text(addr, y, oa, value),
        AddressingMode::NonAddressing => relative_text(begin, addr),
        _ => Seq::empty(),
    }
}

/// The operand text of a three-byte instruction whose operand word is
/// `addr`, and the state after the reads it takes.
#[verifier::opaque]
pub open spec fn operand3_spec(v: CpuView, code: u8, mode: AddressingMode, addr: u16, oa: u16, value: u8) -> (CpuView, Seq<u8>) {
    match mode {
        AddressingMode::NonAddressing => if code == 0x6c {
            let (s, target) = if addr & 0x00ff == 0x00ff {
                let (s1, lo) = v.rd(addr);
                let (s2, hi) = s1.rd(addr & 0xff00);
                (s2, crate::cpu::word(hi, lo))
            } else {
                v.rd16(addr)
            };
            (s, seq![0x28u8, 0x24u8] + hex4(addr) + seq![0x29u8] + equals_sep() + hex4(target))
        } else {
            (v, dollar() + hex4(addr))
        },
        AddressingMode::Absolute => (v, dollar() + hex4(oa) + equals_sep() + hex2(value)),
        AddressingMode::Absolute_X => (v, dollar() + hex4(addr) + seq![0x2cu8, 0x58u8] + at_sep() + hex4(oa) + equals_sep() + hex2(value)),
        AddressingMode::Absolute_Y => (v, dollar() + hex4(addr) + seq![0x2cu8, 0x59u8] + at_sep() + hex4(oa) + equals_sep() + hex2(value)),
        _ => (v, Seq::empty()),
    }
}

/// `PPPP  bytes    MNEM operand`, trailing spaces dropped, padded to 47.
#[verifier::opaque]
pub open spec fn assemble_spec(begin: u16, dump: Seq<u8>, name: Seq<u8>, operand: Seq<u8>) -> Seq<u8> {
    let l = pad_to(hex4(begin) + seq![0x20u8, 0x20u8] + dump, 14) + seq![0x20u8];
    let l = if name.len() <= 4 { pad_to(l, 19 - name.len()) } else { l };
    pad_to(trim_spaces(l + name + seq![0x20u8] + operand), 47)
}

/// The address and value of the operand of an instruction whose operand
/// bytes start at `at` (0 and 0 for Immediate and NonAddressing), and the
/// state after the reads.
#[verifier::opaque]
pub open spec fn operand_value_spec(v: CpuView, mode: AddressingMode, at: u16) -> (CpuView, u16, u8) {
    if mode == AddressingMode::Immediate || mode == AddressingMode::NonAddressing {
        (v, 0u16, 0u8)
    } else {
        let (t, a) = v.absolute_address(mode, at);
        let (t2, x) = t.rd(a);
        (t2, a, x)
    }
}

/// The instruction's bytes in hex and its operand text, and the state
/// after the reads.
#[verifier::opaque]
pub open spec fn dump_operand_spec(
    v: CpuView,
    code: u8,
    len: u8,
    mode: AddressingMode,
    begin: u16,
    oa: u16,
    value: u8,
) -> (CpuView, Seq<u8>, Seq<u8>) {
    let at = ((begin + 1) % 0x10000) as u16;
    if len == 2 {
        let (t, addr) = v.rd(at);
        (t, hex2(code) + seq![0x20u8] + hex2(addr), operand2_spec(mode, begin, addr, oa, value, t.x, t.y))
    } else if len == 3 {
        let (t, addr) = v.rd16(at);
        let (t2, text) = operand3_spec(t, code, mode, addr, oa, value);
        (t2, hex2(code) + seq![0x20u8] + hex2((addr % 256) as u8) + seq![0x20u8] + hex2((addr / 256) as u8), text)
    } else {
        (
            v,
            hex2(code),
            if code == 0x0a || code == 0x4a || code == 0x2a || code == 0x6a {
                seq![0x41u8, 0x20u8]
            } else {
                Seq::empty()
            },
        )
    }
}

/// The length and addressing mode that the trace gives an opcode.
pub open spec fn trace_shape(code: u8) -> (u8, AddressingMode) {
    match opcode_info(code) {
        Some(op) => (op.len, op.mode),
        None => (1u8, AddressingMode::NonAddressing),
    }
}

/// The trace line of the instruction at PC (as ASCII), and the state after
/// the reads that build it.
pub open spec fn trace_spec(v: CpuView) -> (CpuView, Seq<u8>) {
    let begin = v.pc;
    let (s1, code) = v.rd(begin);
    let (len, mode) = trace_shape(code);
    let (s2, oa, value) = operand_value_spec(s1, mode, ((begin + 1) % 0x10000) as u16);
    let (s3, dump, operand) = dump_operand_spec(s2, code, len, mode, begin, oa, value);
    let name = vstd::utf8::encode_utf8(mnemonic_spec(code));
    (s3, assemble_spec(begin, dump, name, operand) + register_columns(s3.a, s3.x, s3.y, s3.status, s3.sp))
}

fn operand_text_2(mode: AddressingMode, begin: u16, addr: u8, operand_addr: u16, value: u8, x: u8, y: u8) -> (r: Vec<u8>)
    ensures
        r@ == operand2_spec(mode, begin, addr, operand_addr, value, x, y),
{
    reveal(operand2_spec);
    match mode {
        AddressingMode::Immediate => immediate(addr),
        AddressingMode::ZeroPage => zero_page(operand_addr, value),
        AddressingMode::ZeroPage_X => zero_page_indexed(addr, 0x58, operand_addr, value),
        AddressingMode::ZeroPage_Y => zero_page_indexed(addr, 0x59, operand_addr, value),
        AddressingMode::Indirect_X => indirect_x(addr, x, operand_addr, value),
        AddressingMode::Indirect_Y => indirect_y(addr, y, operand_addr, value),
        AddressingMode::NonAddressing => relative(begin, addr),
        _ => Vec::new(),
    }
}

fn immediate(addr: u8) -> (r: Vec<u8>)
    ensures
        r@ == immediate_text(addr),
{
    let mut t: Vec<u8> = Vec::new();
    append_bytes(&mut t, &vec![0x23, 0x24]);
    push_hex2(&mut t, addr);
    assert(t@ =~= immediate_text(addr));
    t
}

fn zero_page(operand_addr: u16, value: u8) -> (r: Vec<u8>)
    ensures
        r@ == zero_page_text(operand_addr, value),
{
    let mut t: Vec<u8> = Vec::new();
    append_bytes(&mut t, &vec![0x24]);
    push_hex2(&mut t, operand_addr as u8);
    append_bytes(&mut t, &vec![0x20, 0x3d, 0x20]);
    push_hex2(&mut t, value);
    assert(t@ =~= zero_page_text(operand_addr, value));
    t
}

fn relative(begin: u16, addr: u8) -> (r: Vec<u8>)
    ensures
        r@ == relative_text(begin, addr),
{
    let next = begin.wrapping_add(2);
    let target = if addr < 128 {
        next.wrapping_add(addr as u16)
    } else {
        next.wrapping_sub(256 - addr as u16)
    };
    assert(target == ((begin + 2 + crate::cpu::signed(addr) + 0x10000) % 0x10000) as u16);
    let mut t: Vec<u8> = Vec::new();
    append_bytes(&mut t, &vec![0x24]);
    push_hex4(&mut t, target);
    assert(t@ =~= relative_text(begin, addr));
    t
}

fn zero_page_indexed(addr: u8, reg: u8, operand_addr: u16, value: u8) -> (r: Vec<u8>)
    ensures
        r@ == zero_page_indexed_text(addr, reg, operand_addr, value),
{
    let mut t: Vec<u8> = Vec::new();
    append_bytes(&mut t, &vec![0x24]);
    push_hex2(&mut t, addr);
    append_bytes(&mut t, &vec![0x2c, reg]);
    append_bytes(&mut t, &vec![0x20, 0x40, 0x20]);
    push_hex2(&mut t, operand_addr as u8);
    append_bytes(&mut t, &vec![0x20, 0x3d, 0x20]);
    push_hex2(&mut t, value);
    assert(t@ =~= zero_page_indexed_text(addr, reg, operand_addr, value));
    t
}

fn indirect_x(addr: u8, x: u8, operand_addr: u16, value: u8) -> (r: Vec<u8>)
    ensures
        r@ == indirect_x_text(addr, x, operand_addr, value),
{
    let mut t: Vec<u8> = Vec::new();
    append_bytes(&mut t, &vec![0x28, 0x24]);
    push_hex2(&mut t, addr);
    append_bytes(&mut t, &vec![0x2c, 0x58, 0x29]);
    append_bytes(&mut t, &vec![0x20, 0x40, 0x20]);
    push_hex2(&mut t, addr.wrapping_add(x));
    append_bytes(&mut t, &vec![0x20, 0x3d, 0x20]);
    push_hex4(&mut t, operand_addr);
    append_bytes(&mut t, &vec![0x20, 0x3d, 0x20]);
    push_hex2(&mut t, value);
    assert(t@ =~= indirect_x_text(addr, x, operand_addr, value));
    t
}

#[verifier::rlimit(40)]
fn indirect_y(addr: u8, y: u8, operand_addr: u16, value: u8) -> (r: Vec<u8>)
    ensures
        r@ == indirect_y_text(addr, y, operand_addr, value),
{
    let base = operand_addr.wrapping_sub(y as u16);
    assert(base == ((operand_addr + 0x10000 - y) % 0x10000) as u16);
    let mut t: Vec<u8> = Vec::new();
    append_bytes(&mut t, &vec![0x28, 0x24]);
    push_hex2(&mut t, addr);
    append_bytes(&mut t, &vec![0x29, 0x2c, 0x59]);
    append_bytes(&mut t, &vec![0x20, 0x3d, 0x20]);
    push_hex4(&mut t, base);
    append_bytes(&mut t, &vec![0x20, 0x40, 0x20]);
    push_hex4(&mut t, operand_addr);
    append_bytes(&mut t, &vec![0x20, 0x3d, 0x20]);
    push_hex2(&mut t, value);
    assert(t@ =~= indirect_y_text(addr, y, operand_addr, value));
    t
}

fn operand_text_3(cpu: &mut CPU, code: u8, mode: AddressingMode, addr: u16, operand_addr: u16, value: u8) -> (r: Vec<u8>)
    requires
        old(cpu).wf(),
    ensures
        final(cpu).wf(),
        (final(cpu)@, r@) == operand3_spec(old(cpu)@, code, mode, addr, operand_addr, value),
{
    reveal(operand3_spec);
    let mut operand: Vec<u8> = Vec::new();
    match mode {
        AddressingMode::NonAddressing => {
            if code == 0x6c {
                let jmp_addr = if addr & 0x00ff == 0x00ff {
                    let lo = cpu.memory_read_u8(addr);
                    let hi = cpu.memory_read_u8(addr & 0xff00);
                    (hi as u16) * 256 + (lo as u16)
                } else {
                    cpu.memory_read_u16(addr)
                };
                append_bytes(&mut operand, &vec![0x28, 0x24]);
                push_hex4(&mut operand, addr);
                append_bytes(&mut operand, &vec![0x29]);
                append_bytes(&mut operand, &vec![0x20, 0x3d, 0x20]);
                push_hex4(&mut operand, jmp_addr);
            } else {
                append_bytes(&mut operand, &vec![0x24]);
                push_hex4(&mut operand, addr);
            }
        },
        AddressingMode::Absolute => {
            append_bytes(&mut operand, &vec![0x24]);
            push_hex4(&mut operand, operand_addr);
            append_bytes(&mut operand, &vec![0x20, 0x3d, 0x20]);
            push_hex2(&mut operand, value);
        },
        AddressingMode::Absolute_X | AddressingMode::Absolute_Y => {
            append_bytes(&mut operand, &vec![0x24]);
            push_hex4(&mut operand, addr);
            if mode == AddressingMode::Absolute_X {
                append_bytes(&mut operand, &vec![0x2c, 0x58]);
            } else {
                append_bytes(&mut operand, &vec![0x2c, 0x59]);
            }
            append_bytes(&mut operand, &vec![0x20, 0x40, 0x20]);
            push_hex4(&mut operand, operand_addr);
            append_bytes(&mut operand, &vec![0x20, 0x3d, 0x20]);
            push_hex2(&mut operand, value);
        },
        _ => {},
    }
    assert(operand@ =~= operand3_spec(old(cpu)@, code, mode, addr, operand_addr, value).1);
    operand
}

/// `PPPP  bytes    MNEM operand`, trailing spaces dropped, padded to 47.
fn assemble(begin: u16, dump: &Vec<u8>, name: &str, operand: &Vec<u8>) -> (r: Vec<u8>)
    ensures
        r@ == assemble_spec(begin, dump@, name.spec_bytes(), operand@),
{
    reveal(assemble_spec);
    let mut line: Vec<u8> = Vec::new();
    push_hex4(&mut line, begin);
    line.push(0x20);
    line.push(0x20);
    append_bytes(&mut line, dump);
    assert(line@ =~= hex4(begin) + seq![0x20u8, 0x20u8] + dump@);
    pad_right(&mut line, 14);
    line.push(0x20);
    let ghost l1 = pad_to(hex4(begin) + seq![0x20u8, 0x20u8] + dump@, 14) + seq![0x20u8];
    assert(line@ =~= l1);
    let name_len = name.as_bytes().len();
    if name_len <= 4 {
        pad_right(&mut line, 19 - name_len);
    }
    let ghost l2 = if name.spec_bytes().len() <= 4 { pad_to(l1, 19 - name.spec_bytes().len()) } else { l1 };
    assert(line@ =~= l2);
    push_str(&mut line, name);
    line.push(0x20);
    append_bytes(&mut line, operand);
    assert(line@ =~= l2 + name.spec_bytes() + seq![0x20u8] + operand@);
    trim_end(&mut line);
    pad_right(&mut line, 47);
    line
}

/// `line` followed by the register columns, as a string.
fn with_registers(line: Vec<u8>, a: u8, x: u8, y: u8, p: u8, sp: u8) -> (r: String)
    ensures
        r@ == (line@ + register_columns(a, x, y, p, sp)).map_values(|b: u8| b as char),
{
    let mut line = line;
    let mut regs: Vec<u8> = Vec::new();
    push_label(&mut regs, &vec![0x41]);
    push_hex2(&mut regs, a);
    push_label(&mut regs, &vec![0x58]);
    push_hex2(&mut regs, x);
    push_label(&mut regs, &vec![0x59]);
    push_hex2(&mut regs, y);
    push_label(&mut regs, &vec![0x50]);
    push_hex2(&mut regs, p);
    push_label(&mut regs, &vec![0x53, 0x50]);
    push_hex2(&mut regs, sp);
    assert(regs@ =~= register_columns(a, x, y, p, sp));
    append_bytes(&mut line, &regs);
    ascii_to_string(&line)
}

fn operand_value(cpu: &mut CPU, mode: AddressingMode, at: u16) -> (r: (u16, u8))
    requires
        old(cpu).wf(),
    ensures
        final(cpu).wf(),
        (final(cpu)@, r.0, r.1) == operand_value_spec(old(cpu)@, mode, at),
{
    reveal(operand_value_spec);
    if mode == AddressingMode::Immediate || mode == AddressingMode::NonAddressing {
        (0, 0)
    } else {
        let abs_addr = cpu.get_absolute_address(&mode, at);
        let v = cpu.memory_read_u8(abs_addr);
        (abs_addr, v)
    }
}

fn dump_and_operand(cpu: &mut CPU, code: u8, len: u8, mode: AddressingMode, begin: u16, operand_addr: u16, value: u8) -> (r: (
    Vec<u8>,
    Vec<u8>,
))
    requires
        old(cpu).wf(),
    ensures
        final(cpu).wf(),
        (final(cpu)@, r.0@, r.1@) == dump_operand_spec(old(cpu)@, code, len, mode, begin, operand_addr, value),
{
    reveal(dump_operand_spec);
    let operand_at = begin.wrapping_add(1);
    let mut dump: Vec<u8> = Vec::new();
    push_hex2(&mut dump, code);
    if len == 2 {
        let addr = cpu.memory_read_u8(operand_at);
        dump.push(0x20);
        push_hex2(&mut dump, addr);
        assert(dump@ =~= hex2(code) + seq![0x20u8] + hex2(addr));
        let operand = operand_text_2(mode, begin, addr, operand_addr, value, cpu.reg_x, cpu.reg_y);
        (dump, operand)
    } else if len == 3 {
        let addr = cpu.memory_read_u16(operand_at);
        dump.push(0x20);
        push_hex2(&mut dump, (addr % 256) as u8);
        dump.push(0x20);
        push_hex2(&mut dump, (addr / 256) as u8);
        assert(dump@ =~= hex2(code) + seq![0x20u8] + hex2((addr % 256) as u8) + seq![0x20u8] + hex2((addr / 256) as u8));
        let operand = operand_text_3(cpu, code, mode, addr, operand_addr, value);
        (dump, operand)
    } else {
        let mut operand: Vec<u8> = Vec::new();
        if code == 0x0a || code == 0x4a || code == 0x2a || code == 0x6a {
            append_bytes(&mut operand, &vec![0x41, 0x20]);
            assert(operand@ =~= seq![0x41u8, 0x20u8]);
        }
        assert(dump@ =~= hex2(code));
        (dump, operand)
    }
}

/// One line of disassembly and register dump for the instruction at PC,
/// in the column layout of the nestest reference log: address, the
/// instruction's bytes, mnemonic, operand (with the live value at its
/// address), then A, X, Y, P and SP. The operand's value is read through
/// the bus as the instruction would read it.
pub fn trace(cpu: &mut CPU) -> (r: String)
    requires
        old(cpu).wf(),
    ensures
        final(cpu).wf(),
        final(cpu)@ == trace_spec(old(cpu)@).0,
        r@ == trace_spec(old(cpu)@).1.map_values(|b: u8| b as char),
{
    let begin = cpu.reg_pc;
    let code = cpu.memory_read_u8(begin);
    let (len, mode): (u8, AddressingMode) = match lookup_info(code) {
        Some(op) => (op.len, op.mode),
        None => (1, AddressingMode::NonAddressing),
    };
    let operand_at = begin.wrapping_add(1);
    let (operand_addr, value) = operand_value(cpu, mode, operand_at);
    let (dump, operand) = dump_and_operand(cpu, code, len, mode, begin, operand_addr, value);
    let name = mnemonic(code);
    let line = assemble(begin, &dump, name, &operand);
    with_registers(line, cpu.reg_a, cpu.reg_x, cpu.reg_y, cpu.status.bits, cpu.reg_sp)
}

fn append_bytes(out: &mut Vec<u8>, src: &Vec<u8>)
    ensures
        final(out)@ == old(out)@ + src@,
{
    crate::rom::append_all(out, src);
}

} // verus!
