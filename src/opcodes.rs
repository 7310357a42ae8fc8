use vstd::prelude::*;
use crate::cpu::AddressingMode;

verus! {

/// Length in bytes, base cycle count and addressing mode of an opcode.
#[derive(PartialEq, Eq, Structural, Debug, Clone, Copy)]
pub struct OpInfo {
    pub len: u8,
    pub cycles: u8,
    pub mode: AddressingMode,
}

/// An opcode descriptor.
pub struct OpCode {
    pub code: u8,
    pub mnemonic: &'static str,
    pub len: u8,
    pub cycles: u8,
    pub mode: AddressingMode,
}

/// The opcodes this CPU runs: the official set, the undocumented LAX, SAX,
/// DCP, ISB, SLO, RLA, SRE, the SBC alias 0xEB and the NOP variants.
pub open spec fn opcode_info(code: u8) -> Option<OpInfo> {
    match code {
        0x00 => Some(OpInfo { len: 1, cycles: 7, mode: AddressingMode::NonAddressing }),
        0x01 | 0x21 | 0x41 | 0x61 | 0x81 | 0x83 | 0xa1 | 0xa3 | 0xc1 | 0xe1 => Some(OpInfo { len: 2, cycles: 6, mode: AddressingMode::Indirect_X }),
        0x02 | 0x0a | 0x12 | 0x18 | 0x1a | 0x22 | 0x2a | 0x32 | 0x38 | 0x3a | 0x42
        | 0x4a | 0x52 | 0x58 | 0x5a | 0x62 | 0x6a | 0x72 | 0x78 | 0x7a | 0x88 | 0x8a
        | 0x92 | 0x98 | 0x9a | 0xa8 | 0xaa | 0xb2 | 0xb8 | 0xba | 0xc8 | 0xca | 0xd2
        | 0xd8 | 0xda | 0xe8 | 0xea | 0xf2 | 0xf8 | 0xfa => Some(OpInfo { len: 1, cycles: 2, mode: AddressingMode::NonAddressing }),
        0x03 | 0x23 | 0x43 | 0xc3 | 0xe3 => Some(OpInfo { len: 2, cycles: 8, mode: AddressingMode::Indirect_X }),
        0x04 | 0x05 | 0x24 | 0x25 | 0x44 | 0x45 | 0x64 | 0x65 | 0x84 | 0x85 | 0x86
        | 0x87 | 0xa4 | 0xa5 | 0xa6 | 0xa7 | 0xc4 | 0xc5 | 0xe4 | 0xe5 => Some(OpInfo { len: 2, cycles: 3, mode: AddressingMode::ZeroPage }),
        0x06 | 0x07 | 0x26 | 0x27 | 0x46 | 0x47 | 0x66 | 0xc6 | 0xc7 | 0xe6 | 0xe7 => Some(OpInfo { len: 2, cycles: 5, mode: AddressingMode::ZeroPage }),
        0x08 | 0x48 => Some(OpInfo { len: 1, cycles: 3, mode: AddressingMode::NonAddressing }),
        0x09 | 0x29 | 0x49 | 0x69 | 0x80 | 0x82 | 0x89 | 0xa0 | 0xa2 | 0xa9 | 0xc0
        | 0xc2 | 0xc9 | 0xe0 | 0xe2 | 0xe9 | 0xeb => Some(OpInfo { len: 2, cycles: 2, mode: AddressingMode::Immediate }),
        0x0c | 0x0d | 0x2c | 0x2d | 0x4d | 0x6d | 0x8c | 0x8d | 0x8e | 0x8f | 0xac
        | 0xad | 0xae | 0xaf | 0xcc | 0xcd | 0xec | 0xed => Some(OpInfo { len: 3, cycles: 4, mode: AddressingMode::Absolute }),
        0x0e | 0x0f | 0x2e | 0x2f | 0x4e | 0x4f | 0x6e | 0xce | 0xcf | 0xee | 0xef => Some(OpInfo { len: 3, cycles: 6, mode: AddressingMode::Absolute }),
        0x10 | 0x30 | 0x50 | 0x70 | 0x90 | 0xb0 | 0xd0 | 0xf0 => Some(OpInfo { len: 2, cycles: 2, mode: AddressingMode::NonAddressing }),
        0x11 | 0x31 | 0x51 | 0x71 | 0xb1 | 0xb3 | 0xd1 | 0xf1 => Some(OpInfo { len: 2, cycles: 5, mode: AddressingMode::Indirect_Y }),
        0x13 | 0x33 | 0x53 | 0xd3 | 0xf3 => Some(OpInfo { len: 2, cycles: 8, mode: AddressingMode::Indirect_Y }),
        0x14 | 0x15 | 0x34 | 0x35 | 0x54 | 0x55 | 0x74 | 0x75 | 0x94 | 0x95 | 0xb4
        | 0xb5 | 0xd4 | 0xd5 | 0xf4 | 0xf5 => Some(OpInfo { len: 2, cycles: 4, mode: AddressingMode::ZeroPage_X }),
        0x16 | 0x17 | 0x36 | 0x37 | 0x56 | 0x57 | 0x76 | 0xd6 | 0xd7 | 0xf6 | 0xf7 => Some(OpInfo { len: 2, cycles: 6, mode: AddressingMode::ZeroPage_X }),
        0x19 | 0x39 | 0x59 | 0x79 | 0xb9 | 0xbe | 0xbf | 0xd9 | 0xf9 => Some(OpInfo { len: 3, cycles: 4, mode: AddressingMode::Absolute_Y }),
        0x1b | 0x3b | 0x5b | 0xdb | 0xfb => Some(OpInfo { len: 3, cycles: 7, mode: AddressingMode::Absolute_Y }),
        0x1c | 0x1d | 0x3c | 0x3d | 0x5c | 0x5d | 0x7c | 0x7d | 0xbc | 0xbd | 0xdc
        | 0xdd | 0xfc | 0xfd => Some(OpInfo { len: 3, cycles: 4, mode: AddressingMode::Absolute_X }),
        0x1e | 0x1f | 0x3e | 0x3f | 0x5e | 0x5f | 0x7e | 0xde | 0xdf | 0xfe | 0xff => Some(OpInfo { len: 3, cycles: 7, mode: AddressingMode::Absolute_X }),
        0x20 => Some(OpInfo { len: 3, cycles: 6, mode: AddressingMode::NonAddressing }),
        0x28 | 0x68 => Some(OpInfo { len: 1, cycles: 4, mode: AddressingMode::NonAddressing }),
        0x40 | 0x60 => Some(OpInfo { len: 1, cycles: 6, mode: AddressingMode::NonAddressing }),
        0x4c | 0x6c => Some(OpInfo { len: 3, cycles: 3, mode: AddressingMode::NonAddressing }),
        0x91 => Some(OpInfo { len: 2, cycles: 6, mode: AddressingMode::Indirect_Y }),
        0x96 | 0x97 | 0xb6 | 0xb7 => Some(OpInfo { len: 2, cycles: 4, mode: AddressingMode::ZeroPage_Y }),
        0x99 => Some(OpInfo { len: 3, cycles: 5, mode: AddressingMode::Absolute_Y }),
        0x9d => Some(OpInfo { len: 3, cycles: 5, mode: AddressingMode::Absolute_X }),
        _ => None,
    }
}

/// Looks up the descriptor of an opcode.
pub fn lookup_info(code: u8) -> (r: Option<OpInfo>)
    ensures
        r == opcode_info(code),
{
    match code {
        0x00 => Some(OpInfo { len: 1, cycles: 7, mode: AddressingMode::NonAddressing }),
        0x01 | 0x21 | 0x41 | 0x61 | 0x81 | 0x83 | 0xa1 | 0xa3 | 0xc1 | 0xe1 => Some(OpInfo { len: 2, cycles: 6, mode: AddressingMode::Indirect_X }),
        0x02 | 0x0a | 0x12 | 0x18 | 0x1a | 0x22 | 0x2a | 0x32 | 0x38 | 0x3a | 0x42
        | 0x4a | 0x52 | 0x58 | 0x5a | 0x62 | 0x6a | 0x72 | 0x78 | 0x7a | 0x88 | 0x8a
        | 0x92 | 0x98 | 0x9a | 0xa8 | 0xaa | 0xb2 | 0xb8 | 0xba | 0xc8 | 0xca | 0xd2
        | 0xd8 | 0xda | 0xe8 | 0xea | 0xf2 | 0xf8 | 0xfa => Some(OpInfo { len: 1, cycles: 2, mode: AddressingMode::NonAddressing }),
        0x03 | 0x23 | 0x43 | 0xc3 | 0xe3 => Some(OpInfo { len: 2, cycles: 8, mode: AddressingMode::Indirect_X }),
        0x04 | 0x05 | 0x24 | 0x25 | 0x44 | 0x45 | 0x64 | 0x65 | 0x84 | 0x85 | 0x86
        | 0x87 | 0xa4 | 0xa5 | 0xa6 | 0xa7 | 0xc4 | 0xc5 | 0xe4 | 0xe5 => Some(OpInfo { len: 2, cycles: 3, mode: AddressingMode::ZeroPage }),
        0x06 | 0x07 | 0x26 | 0x27 | 0x46 | 0x47 | 0x66 | 0xc6 | 0xc7 | 0xe6 | 0xe7 => Some(OpInfo { len: 2, cycles: 5, mode: AddressingMode::ZeroPage }),
        0x08 | 0x48 => Some(OpInfo { len: 1, cycles: 3, mode: AddressingMode::NonAddressing }),
        0x09 | 0x29 | 0x49 | 0x69 | 0x80 | 0x82 | 0x89 | 0xa0 | 0xa2 | 0xa9 | 0xc0
        | 0xc2 | 0xc9 | 0xe0 | 0xe2 | 0xe9 | 0xeb => Some(OpInfo { len: 2, cycles: 2, mode: AddressingMode::Immediate }),
        0x0c | 0x0d | 0x2c | 0x2d | 0x4d | 0x6d | 0x8c | 0x8d | 0x8e | 0x8f | 0xac
        | 0xad | 0xae | 0xaf | 0xcc | 0xcd | 0xec | 0xed => Some(OpInfo { len: 3, cycles: 4, mode: AddressingMode::Absolute }),
        0x0e | 0x0f | 0x2e | 0x2f | 0x4e | 0x4f | 0x6e | 0xce | 0xcf | 0xee | 0xef => Some(OpInfo { len: 3, cycles: 6, mode: AddressingMode::Absolute }),
        0x10 | 0x30 | 0x50 | 0x70 | 0x90 | 0xb0 | 0xd0 | 0xf0 => Some(OpInfo { len: 2, cycles: 2, mode: AddressingMode::NonAddressing }),
        0x11 | 0x31 | 0x51 | 0x71 | 0xb1 | 0xb3 | 0xd1 | 0xf1 => Some(OpInfo { len: 2, cycles: 5, mode: AddressingMode::Indirect_Y }),
        0x13 | 0x33 | 0x53 | 0xd3 | 0xf3 => Some(OpInfo { len: 2, cycles: 8, mode: AddressingMode::Indirect_Y }),
        0x14 | 0x15 | 0x34 | 0x35 | 0x54 | 0x55 | 0x74 | 0x75 | 0x94 | 0x95 | 0xb4
        | 0xb5 | 0xd4 | 0xd5 | 0xf4 | 0xf5 => Some(OpInfo { len: 2, cycles: 4, mode: AddressingMode::ZeroPage_X }),
        0x16 | 0x17 | 0x36 | 0x37 | 0x56 | 0x57 | 0x76 | 0xd6 | 0xd7 | 0xf6 | 0xf7 => Some(OpInfo { len: 2, cycles: 6, mode: AddressingMode::ZeroPage_X }),
        0x19 | 0x39 | 0x59 | 0x79 | 0xb9 | 0xbe | 0xbf | 0xd9 | 0xf9 => Some(OpInfo { len: 3, cycles: 4, mode: AddressingMode::Absolute_Y }),
        0x1b | 0x3b | 0x5b | 0xdb | 0xfb => Some(OpInfo { len: 3, cycles: 7, mode: AddressingMode::Absolute_Y }),
        0x1c | 0x1d | 0x3c | 0x3d | 0x5c | 0x5d | 0x7c | 0x7d | 0xbc | 0xbd | 0xdc
        | 0xdd | 0xfc | 0xfd => Some(OpInfo { len: 3, cycles: 4, mode: AddressingMode::Absolute_X }),
        0x1e | 0x1f | 0x3e | 0x3f | 0x5e | 0x5f | 0x7e | 0xde | 0xdf | 0xfe | 0xff => Some(OpInfo { len: 3, cycles: 7, mode: AddressingMode::Absolute_X }),
        0x20 => Some(OpInfo { len: 3, cycles: 6, mode: AddressingMode::NonAddressing }),
        0x28 | 0x68 => Some(OpInfo { len: 1, cycles: 4, mode: AddressingMode::NonAddressing }),
        0x40 | 0x60 => Some(OpInfo { len: 1, cycles: 6, mode: AddressingMode::NonAddressing }),
        0x4c | 0x6c => Some(OpInfo { len: 3, cycles: 3, mode: AddressingMode::NonAddressing }),
        0x91 => Some(OpInfo { len: 2, cycles: 6, mode: AddressingMode::Indirect_Y }),
        0x96 | 0x97 | 0xb6 | 0xb7 => Some(OpInfo { len: 2, cycles: 4, mode: AddressingMode::ZeroPage_Y }),
        0x99 => Some(OpInfo { len: 3, cycles: 5, mode: AddressingMode::Absolute_Y }),
        0x9d => Some(OpInfo { len: 3, cycles: 5, mode: AddressingMode::Absolute_X }),
        _ => None,
    }
}

/// The mnemonic of each opcode of the table.
pub open spec fn mnemonic_spec(code: u8) -> Seq<char> {
    match code {
        0x00 => "BRK"@,
        0x01 | 0x05 | 0x09 | 0x0d | 0x11 | 0x15 | 0x19 | 0x1d => "ORA"@,
        0x02 | 0x04 | 0x0c | 0x12 | 0x14 | 0x1a | 0x1c | 0x22 | 0x32 | 0x34 | 0x3a
        | 0x3c | 0x42 | 0x44 | 0x52 | 0x54 | 0x5a | 0x5c | 0x62 | 0x64 | 0x72 | 0x74
        | 0x7a | 0x7c | 0x80 | 0x82 | 0x89 | 0x92 | 0xb2 | 0xc2 | 0xd2 | 0xd4 | 0xda
        | 0xdc | 0xe2 | 0xf2 | 0xf4 | 0xfa | 0xfc => "*NOP"@,
        0x03 | 0x07 | 0x0f | 0x13 | 0x17 | 0x1b | 0x1f => "*SLO"@,
        0x06 | 0x0a | 0x0e | 0x16 | 0x1e => "ASL"@,
        0x08 => "PHP"@,
        0x10 => "BPL"@,
        0x18 => "CLC"@,
        0x20 => "JSR"@,
        0x21 | 0x25 | 0x29 | 0x2d | 0x31 | 0x35 | 0x39 | 0x3d => "AND"@,
        0x23 | 0x27 | 0x2f | 0x33 | 0x37 | 0x3b | 0x3f => "*RLA"@,
        0x24 | 0x2c => "BIT"@,
        0x26 | 0x2a | 0x2e | 0x36 | 0x3e => "ROL"@,
        0x28 => "PLP"@,
        0x30 => "BMI"@,
        0x38 => "SEC"@,
        0x40 => "RTI"@,
        0x41 | 0x45 | 0x49 | 0x4d | 0x51 | 0x55 | 0x59 | 0x5d => "EOR"@,
        0x43 | 0x47 | 0x4f | 0x53 | 0x57 | 0x5b | 0x5f => "*SRE"@,
        0x46 | 0x4a | 0x4e | 0x56 | 0x5e => "LSR"@,
        0x48 => "PHA"@,
        0x4c | 0x6c => "JMP"@,
        0x50 => "BVC"@,
        0x58 => "CLI"@,
        0x60 => "RTS"@,
        0x61 | 0x65 | 0x69 | 0x6d | 0x71 | 0x75 | 0x79 | 0x7d => "ADC"@,
        0x66 | 0x6a | 0x6e | 0x76 | 0x7e => "ROR"@,
        0x68 => "PLA"@,
        0x70 => "BVS"@,
        0x78 => "SEI"@,
        0x81 | 0x85 | 0x8d | 0x91 | 0x95 | 0x99 | 0x9d => "STA"@,
        0x83 | 0x87 | 0x8f | 0x97 => "*SAX"@,
        0x84 | 0x8c | 0x94 => "STY"@,
        0x86 | 0x8e | 0x96 => "STX"@,
        0x88 => "DEY"@,
        0x8a => "TXA"@,
        0x90 => "BCC"@,
        0x98 => "TYA"@,
        0x9a => "TXS"@,
        0xa0 | 0xa4 | 0xac | 0xb4 | 0xbc => "LDY"@,
        0xa1 | 0xa5 | 0xa9 | 0xad | 0xb1 | 0xb5 | 0xb9 | 0xbd => "LDA"@,
        0xa2 | 0xa6 | 0xae | 0xb6 | 0xbe => "LDX"@,
        0xa3 | 0xa7 | 0xaf | 0xb3 | 0xb7 | 0xbf => "*LAX"@,
        0xa8 => "TAY"@,
        0xaa => "TAX"@,
        0xb0 => "BCS"@,
        0xb8 => "CLV"@,
        0xba => "TSX"@,
        0xc0 | 0xc4 | 0xcc => "CPY"@,
        0xc1 | 0xc5 | 0xc9 | 0xcd | 0xd1 | 0xd5 | 0xd9 | 0xdd => "CMP"@,
        0xc3 | 0xc7 | 0xcf | 0xd3 | 0xd7 | 0xdb | 0xdf => "*DCP"@,
        0xc6 | 0xce | 0xd6 | 0xde => "DEC"@,
        0xc8 => "INY"@,
        0xca => "DEX"@,
        0xd0 => "BNE"@,
        0xd8 => "CLD"@,
        0xe0 | 0xe4 | 0xec => "CPX"@,
        0xe1 | 0xe5 | 0xe9 | 0xed | 0xf1 | 0xf5 | 0xf9 | 0xfd => "SBC"@,
        0xe3 | 0xe7 | 0xef | 0xf3 | 0xf7 | 0xfb | 0xff => "*ISB"@,
        0xe6 | 0xee | 0xf6 | 0xfe => "INC"@,
        0xe8 => "INX"@,
        0xea => "NOP"@,
        0xeb => "*SBC"@,
        0xf0 => "BEQ"@,
        0xf8 => "SED"@,
        _ => "???"@,
    }
}

/// The mnemonic of an opcode, with a leading `*` for undocumented ones;
/// `???` for an opcode outside the table.
pub fn mnemonic(code: u8) -> (r: &'static str)
    ensures
        r@ == mnemonic_spec(code),
{
    match code {
        0x00 => "BRK",
        0x01 | 0x05 | 0x09 | 0x0d | 0x11 | 0x15 | 0x19 | 0x1d => "ORA",
        0x02 | 0x04 | 0x0c | 0x12 | 0x14 | 0x1a | 0x1c | 0x22 | 0x32 | 0x34 | 0x3a
        | 0x3c | 0x42 | 0x44 | 0x52 | 0x54 | 0x5a | 0x5c | 0x62 | 0x64 | 0x72 | 0x74
        | 0x7a | 0x7c | 0x80 | 0x82 | 0x89 | 0x92 | 0xb2 | 0xc2 | 0xd2 | 0xd4 | 0xda
        | 0xdc | 0xe2 | 0xf2 | 0xf4 | 0xfa | 0xfc => "*NOP",
        0x03 | 0x07 | 0x0f | 0x13 | 0x17 | 0x1b | 0x1f => "*SLO",
        0x06 | 0x0a | 0x0e | 0x16 | 0x1e => "ASL",
        0x08 => "PHP",
        0x10 => "BPL",
        0x18 => "CLC",
        0x20 => "JSR",
        0x21 | 0x25 | 0x29 | 0x2d | 0x31 | 0x35 | 0x39 | 0x3d => "AND",
        0x23 | 0x27 | 0x2f | 0x33 | 0x37 | 0x3b | 0x3f => "*RLA",
        0x24 | 0x2c => "BIT",
        0x26 | 0x2a | 0x2e | 0x36 | 0x3e => "ROL",
        0x28 => "PLP",
        0x30 => "BMI",
        0x38 => "SEC",
        0x40 => "RTI",
        0x41 | 0x45 | 0x49 | 0x4d | 0x51 | 0x55 | 0x59 | 0x5d => "EOR",
        0x43 | 0x47 | 0x4f | 0x53 | 0x57 | 0x5b | 0x5f => "*SRE",
        0x46 | 0x4a | 0x4e | 0x56 | 0x5e => "LSR",
        0x48 => "PHA",
        0x4c | 0x6c => "JMP",
        0x50 => "BVC",
        0x58 => "CLI",
        0x60 => "RTS",
        0x61 | 0x65 | 0x69 | 0x6d | 0x71 | 0x75 | 0x79 | 0x7d => "ADC",
        0x66 | 0x6a | 0x6e | 0x76 | 0x7e => "ROR",
        0x68 => "PLA",
        0x70 => "BVS",
        0x78 => "SEI",
        0x81 | 0x85 | 0x8d | 0x91 | 0x95 | 0x99 | 0x9d => "STA",
        0x83 | 0x87 | 0x8f | 0x97 => "*SAX",
        0x84 | 0x8c | 0x94 => "STY",
        0x86 | 0x8e | 0x96 => "STX",
        0x88 => "DEY",
        0x8a => "TXA",
        0x90 => "BCC",
        0x98 => "TYA",
        0x9a => "TXS",
        0xa0 | 0xa4 | 0xac | 0xb4 | 0xbc => "LDY",
        0xa1 | 0xa5 | 0xa9 | 0xad | 0xb1 | 0xb5 | 0xb9 | 0xbd => "LDA",
        0xa2 | 0xa6 | 0xae | 0xb6 | 0xbe => "LDX",
        0xa3 | 0xa7 | 0xaf | 0xb3 | 0xb7 | 0xbf => "*LAX",
        0xa8 => "TAY",
        0xaa => "TAX",
        0xb0 => "BCS",
        0xb8 => "CLV",
        0xba => "TSX",
        0xc0 | 0xc4 | 0xcc => "CPY",
        0xc1 | 0xc5 | 0xc9 | 0xcd | 0xd1 | 0xd5 | 0xd9 | 0xdd => "CMP",
        0xc3 | 0xc7 | 0xcf | 0xd3 | 0xd7 | 0xdb | 0xdf => "*DCP",
        0xc6 | 0xce | 0xd6 | 0xde => "DEC",
        0xc8 => "INY",
        0xca => "DEX",
        0xd0 => "BNE",
        0xd8 => "CLD",
        0xe0 | 0xe4 | 0xec => "CPX",
        0xe1 | 0xe5 | 0xe9 | 0xed | 0xf1 | 0xf5 | 0xf9 | 0xfd => "SBC",
        0xe3 | 0xe7 | 0xef | 0xf3 | 0xf7 | 0xfb | 0xff => "*ISB",
        0xe6 | 0xee | 0xf6 | 0xfe => "INC",
        0xe8 => "INX",
        0xea => "NOP",
        0xeb => "*SBC",
        0xf0 => "BEQ",
        0xf8 => "SED",
        _ => "???",
    }
}

impl OpCode {
    pub fn new(code: u8, mnemonic: &'static str, len: u8, cycles: u8, mode: AddressingMode) -> (r: Self)
        ensures
            r.code == code,
            r.mnemonic == mnemonic,
            r.len == len,
            r.cycles == cycles,
            r.mode == mode,
    {
        OpCode { code, mnemonic, len, cycles, mode }
    }

    /// The descriptor of `code`, if the CPU runs it.
    pub fn lookup(code: u8) -> (r: Option<OpCode>)
        ensures
            r is Some <==> opcode_info(code) is Some,
            r is Some ==> r.unwrap().code == code && opcode_info(code) == Some(
                OpInfo { len: r.unwrap().len, cycles: r.unwrap().cycles, mode: r.unwrap().mode },
            ),
    {
        match lookup_info(code) {
            Some(info) => Some(OpCode::new(code, mnemonic(code), info.len, info.cycles, info.mode)),
            None => None,
        }
    }
}

/// Every opcode of the table is one to three bytes long and takes at most
/// eight base cycles.
pub proof fn lemma_opcode_bounds(code: u8)
    ensures
        opcode_info(code) is Some ==> 1 <= opcode_info(code).unwrap().len <= 3
            && opcode_info(code).unwrap().cycles <= 8,
{
}

} // verus!
