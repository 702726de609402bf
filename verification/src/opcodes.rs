//! The opcode table: every one of the 256 opcode bytes maps to a mnemonic,
//! an instruction length in bytes, a base cycle count and an addressing
//! mode. Page-cross and branch penalties are not part of the base cycles;
//! the executor adds them. Unofficial opcodes carry a `*` prefix in their
//! mnemonic, as the nestest log prints them.
use vstd::prelude::*;

use crate::cpu::AddressingMode;

verus! {

pub struct OpCode {
    pub code: u8,
    pub mnemonic: &'static str,
    pub len: u8,
    pub cycles: u8,
    pub mode: AddressingMode,
}

impl OpCode {
    fn new(code: u8, mnemonic: &'static str, len: u8, cycles: u8, mode: AddressingMode) -> (r:
        OpCode)
        ensures
            r == (OpCode { code, mnemonic, len, cycles, mode }),
    {
        OpCode { code, mnemonic, len, cycles, mode }
    }
}

/// The instruction length in bytes for `code`.
pub open spec fn op_len(code: u8) -> u8 {
    match code {
        0x00 | 0x02 | 0x08 | 0x0a | 0x12 | 0x18 | 0x1a | 0x22 | 0x28 | 0x2a | 0x32 | 0x38 | 0x3a | 0x40 | 0x42 | 0x48 | 0x4a | 0x52 | 0x58 | 0x5a | 0x60 | 0x62 | 0x68 | 0x6a | 0x72 | 0x78 | 0x7a | 0x88 | 0x8a | 0x92 | 0x98 | 0x9a | 0xa8 | 0xaa | 0xb2 | 0xb8 | 0xba | 0xc8 | 0xca | 0xd2 | 0xd8 | 0xda | 0xe8 | 0xea | 0xf2 | 0xf8 | 0xfa => 1u8,
        0x0c | 0x0d | 0x0e | 0x0f | 0x19 | 0x1b | 0x1c | 0x1d | 0x1e | 0x1f | 0x20 | 0x2c | 0x2d | 0x2e | 0x2f | 0x39 | 0x3b | 0x3c | 0x3d | 0x3e | 0x3f | 0x4c | 0x4d | 0x4e | 0x4f | 0x59 | 0x5b | 0x5c | 0x5d | 0x5e | 0x5f | 0x6c | 0x6d | 0x6e | 0x6f | 0x79 | 0x7b | 0x7c | 0x7d | 0x7e | 0x7f | 0x8c | 0x8d | 0x8e | 0x8f | 0x99 | 0x9b | 0x9c | 0x9d | 0x9e | 0x9f | 0xac | 0xad | 0xae | 0xaf | 0xb9 | 0xbb | 0xbc | 0xbd | 0xbe | 0xbf | 0xcc | 0xcd | 0xce | 0xcf | 0xd9 | 0xdb | 0xdc | 0xdd | 0xde | 0xdf | 0xec | 0xed | 0xee | 0xef | 0xf9 | 0xfb | 0xfc | 0xfd | 0xfe | 0xff => 3u8,
        _ => 2u8,
    }
}

/// The base cycle count for `code`.
pub open spec fn op_cycles(code: u8) -> u8 {
    match code {
        0x00 | 0x1b | 0x1e | 0x1f | 0x3b | 0x3e | 0x3f | 0x5b | 0x5e | 0x5f | 0x7b | 0x7e | 0x7f | 0xdb | 0xde | 0xdf | 0xfb | 0xfe | 0xff => 7u8,
        0x01 | 0x0e | 0x0f | 0x16 | 0x17 | 0x20 | 0x21 | 0x2e | 0x2f | 0x36 | 0x37 | 0x40 | 0x41 | 0x4e | 0x4f | 0x56 | 0x57 | 0x60 | 0x61 | 0x6e | 0x6f | 0x76 | 0x77 | 0x81 | 0x83 | 0x91 | 0x93 | 0xa1 | 0xa3 | 0xc1 | 0xce | 0xcf | 0xd6 | 0xd7 | 0xe1 | 0xee | 0xef | 0xf6 | 0xf7 => 6u8,
        0x03 | 0x13 | 0x23 | 0x33 | 0x43 | 0x53 | 0x63 | 0x73 | 0xc3 | 0xd3 | 0xe3 | 0xf3 => 8u8,
        0x04 | 0x05 | 0x08 | 0x24 | 0x25 | 0x44 | 0x45 | 0x48 | 0x4c | 0x64 | 0x65 | 0x84 | 0x85 | 0x86 | 0x87 | 0xa4 | 0xa5 | 0xa6 | 0xa7 | 0xc4 | 0xc5 | 0xe4 | 0xe5 => 3u8,
        0x06 | 0x07 | 0x11 | 0x26 | 0x27 | 0x31 | 0x46 | 0x47 | 0x51 | 0x66 | 0x67 | 0x6c | 0x71 | 0x99 | 0x9b | 0x9c | 0x9d | 0x9e | 0x9f | 0xb1 | 0xb3 | 0xc6 | 0xc7 | 0xd1 | 0xe6 | 0xe7 | 0xf1 => 5u8,
        0x0c | 0x0d | 0x14 | 0x15 | 0x19 | 0x1c | 0x1d | 0x28 | 0x2c | 0x2d | 0x34 | 0x35 | 0x39 | 0x3c | 0x3d | 0x4d | 0x54 | 0x55 | 0x59 | 0x5c | 0x5d | 0x68 | 0x6d | 0x74 | 0x75 | 0x79 | 0x7c | 0x7d | 0x8c | 0x8d | 0x8e | 0x8f | 0x94 | 0x95 | 0x96 | 0x97 | 0xac | 0xad | 0xae | 0xaf | 0xb4 | 0xb5 | 0xb6 | 0xb7 | 0xb9 | 0xbb | 0xbc | 0xbd | 0xbe | 0xbf | 0xcc | 0xcd | 0xd4 | 0xd5 | 0xd9 | 0xdc | 0xdd | 0xec | 0xed | 0xf4 | 0xf5 | 0xf9 | 0xfc | 0xfd => 4u8,
        _ => 2u8,
    }
}

/// The addressing mode for `code`.
pub open spec fn op_mode(code: u8) -> AddressingMode {
    match code {
        0x01 | 0x03 | 0x21 | 0x23 | 0x41 | 0x43 | 0x61 | 0x63 | 0x81 | 0x83 | 0xa1 | 0xa3 | 0xc1 | 0xc3 | 0xe1 | 0xe3 => AddressingMode::Indirect_X,
        0x04 | 0x05 | 0x06 | 0x07 | 0x24 | 0x25 | 0x26 | 0x27 | 0x44 | 0x45 | 0x46 | 0x47 | 0x64 | 0x65 | 0x66 | 0x67 | 0x84 | 0x85 | 0x86 | 0x87 | 0xa4 | 0xa5 | 0xa6 | 0xa7 | 0xc4 | 0xc5 | 0xc6 | 0xc7 | 0xe4 | 0xe5 | 0xe6 | 0xe7 => AddressingMode::ZeroPage,
        0x09 | 0x0b | 0x29 | 0x2b | 0x49 | 0x4b | 0x69 | 0x6b | 0x80 | 0x82 | 0x89 | 0x8b | 0xa0 | 0xa2 | 0xa9 | 0xab | 0xc0 | 0xc2 | 0xc9 | 0xcb | 0xe0 | 0xe2 | 0xe9 | 0xeb => AddressingMode::Immediate,
        0x0c | 0x0d | 0x0e | 0x0f | 0x2c | 0x2d | 0x2e | 0x2f | 0x4d | 0x4e | 0x4f | 0x6d | 0x6e | 0x6f | 0x8c | 0x8d | 0x8e | 0x8f | 0xac | 0xad | 0xae | 0xaf | 0xcc | 0xcd | 0xce | 0xcf | 0xec | 0xed | 0xee | 0xef => AddressingMode::Absolute,
        0x11 | 0x13 | 0x31 | 0x33 | 0x51 | 0x53 | 0x71 | 0x73 | 0x91 | 0x93 | 0xb1 | 0xb3 | 0xd1 | 0xd3 | 0xf1 | 0xf3 => AddressingMode::Indirect_Y,
        0x14 | 0x15 | 0x16 | 0x17 | 0x34 | 0x35 | 0x36 | 0x37 | 0x54 | 0x55 | 0x56 | 0x57 | 0x74 | 0x75 | 0x76 | 0x77 | 0x94 | 0x95 | 0xb4 | 0xb5 | 0xd4 | 0xd5 | 0xd6 | 0xd7 | 0xf4 | 0xf5 | 0xf6 | 0xf7 => AddressingMode::ZeroPage_X,
        0x19 | 0x1b | 0x39 | 0x3b | 0x59 | 0x5b | 0x79 | 0x7b | 0x99 | 0x9b | 0x9e | 0x9f | 0xb9 | 0xbb | 0xbe | 0xbf | 0xd9 | 0xdb | 0xf9 | 0xfb => AddressingMode::Absolute_Y,
        0x1c | 0x1d | 0x1e | 0x1f | 0x3c | 0x3d | 0x3e | 0x3f | 0x5c | 0x5d | 0x5e | 0x5f | 0x7c | 0x7d | 0x7e | 0x7f | 0x9c | 0x9d | 0xbc | 0xbd | 0xdc | 0xdd | 0xde | 0xdf | 0xfc | 0xfd | 0xfe | 0xff => AddressingMode::Absolute_X,
        0x96 | 0x97 | 0xb6 | 0xb7 => AddressingMode::ZeroPage_Y,
        _ => AddressingMode::NoneAddressing,
    }
}

/// The mnemonic for `code`.
pub open spec fn op_mnemonic(code: u8) -> Seq<char> {
    match code {
        0x00 => "BRK"@,
        0x01 | 0x05 | 0x09 | 0x0d | 0x11 | 0x15 | 0x19 | 0x1d => "ORA"@,
        0x03 | 0x07 | 0x0f | 0x13 | 0x17 | 0x1b | 0x1f => "*SLO"@,
        0x06 | 0x0a | 0x0e | 0x16 | 0x1e => "ASL"@,
        0x08 => "PHP"@,
        0x0b | 0x2b => "*ANC"@,
        0x10 => "BPL"@,
        0x18 => "CLC"@,
        0x20 => "JSR"@,
        0x21 | 0x25 | 0x29 | 0x2d | 0x31 | 0x35 | 0x39 | 0x3d => "AND"@,
        0x23 | 0x27 | 0x2f | 0x33 | 0x37 | 0x3b | 0x3f => "*RLA"@,
        0x24 | 0x2c => "BIT"@,
        0x26 | 0x2a | 0x2e | 0x36 | 0x3e => "ROL"@,
        0x28 => "PLP"@,
        0x30 => "BMI"@,
        0x38 => "SEC"@,
        0x40 => "RTI"@,
        0x41 | 0x45 | 0x49 | 0x4d | 0x51 | 0x55 | 0x59 | 0x5d => "EOR"@,
        0x43 | 0x47 | 0x4f | 0x53 | 0x57 | 0x5b | 0x5f => "*SRE"@,
        0x46 | 0x4a | 0x4e | 0x56 | 0x5e => "LSR"@,
        0x48 => "PHA"@,
        0x4b => "*ALR"@,
        0x4c | 0x6c => "JMP"@,
        0x50 => "BVC"@,
        0x58 => "CLI"@,
        0x60 => "RTS"@,
        0x61 | 0x65 | 0x69 | 0x6d | 0x71 | 0x75 | 0x79 | 0x7d => "ADC"@,
        0x63 | 0x67 | 0x6f | 0x73 | 0x77 | 0x7b | 0x7f => "*RRA"@,
        0x66 | 0x6a | 0x6e | 0x76 | 0x7e => "ROR"@,
        0x68 => "PLA"@,
        0x6b => "*ARR"@,
        0x70 => "BVS"@,
        0x78 => "SEI"@,
        0x81 | 0x85 | 0x8d | 0x91 | 0x95 | 0x99 | 0x9d => "STA"@,
        0x83 | 0x87 | 0x8f | 0x97 => "*SAX"@,
        0x84 | 0x8c | 0x94 => "STY"@,
        0x86 | 0x8e | 0x96 => "STX"@,
        0x88 => "DEY"@,
        0x8a => "TXA"@,
        0x8b => "*XAA"@,
        0x90 => "BCC"@,
        0x93 | 0x9f => "*AHX"@,
        0x98 => "TYA"@,
        0x9a => "TXS"@,
        0x9b => "*TAS"@,
        0x9c => "*SHY"@,
        0x9e => "*SHX"@,
        0xa0 | 0xa4 | 0xac | 0xb4 | 0xbc => "LDY"@,
        0xa1 | 0xa5 | 0xa9 | 0xad | 0xb1 | 0xb5 | 0xb9 | 0xbd => "LDA"@,
        0xa2 | 0xa6 | 0xae | 0xb6 | 0xbe => "LDX"@,
        0xa3 | 0xa7 | 0xaf | 0xb3 | 0xb7 | 0xbf => "*LAX"@,
        0xa8 => "TAY"@,
        0xaa => "TAX"@,
        0xab => "*LXA"@,
        0xb0 => "BCS"@,
        0xb8 => "CLV"@,
        0xba => "TSX"@,
        0xbb => "*LAS"@,
        0xc0 | 0xc4 | 0xcc => "CPY"@,
        0xc1 | 0xc5 | 0xc9 | 0xcd | 0xd1 | 0xd5 | 0xd9 | 0xdd => "CMP"@,
        0xc3 | 0xc7 | 0xcf | 0xd3 | 0xd7 | 0xdb | 0xdf => "*DCP"@,
        0xc6 | 0xce | 0xd6 | 0xde => "DEC"@,
        0xc8 => "INY"@,
        0xca => "DEX"@,
        0xcb => "*AXS"@,
        0xd0 => "BNE"@,
        0xd8 => "CLD"@,
        0xe0 | 0xe4 | 0xec => "CPX"@,
        0xe1 | 0xe5 | 0xe9 | 0xed | 0xf1 | 0xf5 | 0xf9 | 0xfd => "SBC"@,
        0xe3 | 0xe7 | 0xef | 0xf3 | 0xf7 | 0xfb | 0xff => "*ISB"@,
        0xe6 | 0xee | 0xf6 | 0xfe => "INC"@,
        0xe8 => "INX"@,
        0xea => "NOP"@,
        0xeb => "*SBC"@,
        0xf0 => "BEQ"@,
        0xf8 => "SED"@,
        _ => "*NOP"@,
    }
}

/// Look up the table entry for an opcode byte. The table is total: every
/// byte has an entry.
pub fn opcode_for(code: u8) -> (r: OpCode)
    ensures
        r.code == code,
        r.len == op_len(code),
        r.cycles == op_cycles(code),
        r.mode == op_mode(code),
        r.mnemonic@ == op_mnemonic(code),
        1 <= r.len <= 3,
{
    if code <= 0x0f {
        opcode_row_0(code)
    } else if code <= 0x1f {
        opcode_row_1(code)
    } else if code <= 0x2f {
        opcode_row_2(code)
    } else if code <= 0x3f {
        opcode_row_3(code)
    } else if code <= 0x4f {
        opcode_row_4(code)
    } else if code <= 0x5f {
        opcode_row_5(code)
    } else if code <= 0x6f {
        opcode_row_6(code)
    } else if code <= 0x7f {
        opcode_row_7(code)
    } else if code <= 0x8f {
        opcode_row_8(code)
    } else if code <= 0x9f {
        opcode_row_9(code)
    } else if code <= 0xaf {
        opcode_row_a(code)
    } else if code <= 0xbf {
        opcode_row_b(code)
    } else if code <= 0xcf {
        opcode_row_c(code)
    } else if code <= 0xdf {
        opcode_row_d(code)
    } else if code <= 0xef {
        opcode_row_e(code)
    } else {
        opcode_row_f(code)
    }
}

fn opcode_row_0(code: u8) -> (r: OpCode)
    requires
        0x00 <= code <= 0x0f,
    ensures
        r.code == code,
        r.len == op_len(code),
        r.cycles == op_cycles(code),
        r.mode == op_mode(code),
        r.mnemonic@ == op_mnemonic(code),
        1 <= r.len <= 3,
{
    match code {
        0x00 => OpCode::new(0x00, "BRK", 1, 7, AddressingMode::NoneAddressing),
        0x01 => OpCode::new(0x01, "ORA", 2, 6, AddressingMode::Indirect_X),
        0x02 => OpCode::new(0x02, "*NOP", 1, 2, AddressingMode::NoneAddressing),
        0x03 => OpCode::new(0x03, "*SLO", 2, 8, AddressingMode::Indirect_X),
        0x04 => OpCode::new(0x04, "*NOP", 2, 3, AddressingMode::ZeroPage),
        0x05 => OpCode::new(0x05, "ORA", 2, 3, AddressingMode::ZeroPage),
        0x06 => OpCode::new(0x06, "ASL", 2, 5, AddressingMode::ZeroPage),
        0x07 => OpCode::new(0x07, "*SLO", 2, 5, AddressingMode::ZeroPage),
        0x08 => OpCode::new(0x08, "PHP", 1, 3, AddressingMode::NoneAddressing),
        0x09 => OpCode::new(0x09, "ORA", 2, 2, AddressingMode::Immediate),
        0x0a => OpCode::new(0x0a, "ASL", 1, 2, AddressingMode::NoneAddressing),
        0x0b => OpCode::new(0x0b, "*ANC", 2, 2, AddressingMode::Immediate),
        0x0c => OpCode::new(0x0c, "*NOP", 3, 4, AddressingMode::Absolute),
        0x0d => OpCode::new(0x0d, "ORA", 3, 4, AddressingMode::Absolute),
        0x0e => OpCode::new(0x0e, "ASL", 3, 6, AddressingMode::Absolute),
        _ => OpCode::new(0x0f, "*SLO", 3, 6, AddressingMode::Absolute),
    }
}

fn opcode_row_1(code: u8) -> (r: OpCode)
    requires
        0x10 <= code <= 0x1f,
    ensures
        r.code == code,
        r.len == op_len(code),
        r.cycles == op_cycles(code),
        r.mode == op_mode(code),
        r.mnemonic@ == op_mnemonic(code),
        1 <= r.len <= 3,
{
    match code {
        0x10 => OpCode::new(0x10, "BPL", 2, 2, AddressingMode::NoneAddressing),
        0x11 => OpCode::new(0x11, "ORA", 2, 5, AddressingMode::Indirect_Y),
        0x12 => OpCode::new(0x12, "*NOP", 1, 2, AddressingMode::NoneAddressing),
        0x13 => OpCode::new(0x13, "*SLO", 2, 8, AddressingMode::Indirect_Y),
        0x14 => OpCode::new(0x14, "*NOP", 2, 4, AddressingMode::ZeroPage_X),
        0x15 => OpCode::new(0x15, "ORA", 2, 4, AddressingMode::ZeroPage_X),
        0x16 => OpCode::new(0x16, "ASL", 2, 6, AddressingMode::ZeroPage_X),
        0x17 => OpCode::new(0x17, "*SLO", 2, 6, AddressingMode::ZeroPage_X),
        0x18 => OpCode::new(0x18, "CLC", 1, 2, AddressingMode::NoneAddressing),
        0x19 => OpCode::new(0x19, "ORA", 3, 4, AddressingMode::Absolute_Y),
        0x1a => OpCode::new(0x1a, "*NOP", 1, 2, AddressingMode::NoneAddressing),
        0x1b => OpCode::new(0x1b, "*SLO", 3, 7, AddressingMode::Absolute_Y),
        0x1c => OpCode::new(0x1c, "*NOP", 3, 4, AddressingMode::Absolute_X),
        0x1d => OpCode::new(0x1d, "ORA", 3, 4, AddressingMode::Absolute_X),
        0x1e => OpCode::new(0x1e, "ASL", 3, 7, AddressingMode::Absolute_X),
        _ => OpCode::new(0x1f, "*SLO", 3, 7, AddressingMode::Absolute_X),
    }
}

fn opcode_row_2(code: u8) -> (r: OpCode)
    requires
        0x20 <= code <= 0x2f,
    ensures
        r.code == code,
        r.len == op_len(code),
        r.cycles == op_cycles(code),
        r.mode == op_mode(code),
        r.mnemonic@ == op_mnemonic(code),
        1 <= r.len <= 3,
{
    match code {
        0x20 => OpCode::new(0x20, "JSR", 3, 6, AddressingMode::NoneAddressing),
        0x21 => OpCode::new(0x21, "AND", 2, 6, AddressingMode::Indirect_X),
        0x22 => OpCode::new(0x22, "*NOP", 1, 2, AddressingMode::NoneAddressing),
        0x23 => OpCode::new(0x23, "*RLA", 2, 8, AddressingMode::Indirect_X),
        0x24 => OpCode::new(0x24, "BIT", 2, 3, AddressingMode::ZeroPage),
        0x25 => OpCode::new(0x25, "AND", 2, 3, AddressingMode::ZeroPage),
        0x26 => OpCode::new(0x26, "ROL", 2, 5, AddressingMode::ZeroPage),
        0x27 => OpCode::new(0x27, "*RLA", 2, 5, AddressingMode::ZeroPage),
        0x28 => OpCode::new(0x28, "PLP", 1, 4, AddressingMode::NoneAddressing),
        0x29 => OpCode::new(0x29, "AND", 2, 2, AddressingMode::Immediate),
        0x2a => OpCode::new(0x2a, "ROL", 1, 2, AddressingMode::NoneAddressing),
        0x2b => OpCode::new(0x2b, "*ANC", 2, 2, AddressingMode::Immediate),
        0x2c => OpCode::new(0x2c, "BIT", 3, 4, AddressingMode::Absolute),
        0x2d => OpCode::new(0x2d, "AND", 3, 4, AddressingMode::Absolute),
        0x2e => OpCode::new(0x2e, "ROL", 3, 6, AddressingMode::Absolute),
        _ => OpCode::new(0x2f, "*RLA", 3, 6, AddressingMode::Absolute),
    }
}

fn opcode_row_3(code: u8) -> (r: OpCode)
    requires
        0x30 <= code <= 0x3f,
    ensures
        r.code == code,
        r.len == op_len(code),
        r.cycles == op_cycles(code),
        r.mode == op_mode(code),
        r.mnemonic@ == op_mnemonic(code),
        1 <= r.len <= 3,
{
    match code {
        0x30 => OpCode::new(0x30, "BMI", 2, 2, AddressingMode::NoneAddressing),
        0x31 => OpCode::new(0x31, "AND", 2, 5, AddressingMode::Indirect_Y),
        0x32 => OpCode::new(0x32, "*NOP", 1, 2, AddressingMode::NoneAddressing),
        0x33 => OpCode::new(0x33, "*RLA", 2, 8, AddressingMode::Indirect_Y),
        0x34 => OpCode::new(0x34, "*NOP", 2, 4, AddressingMode::ZeroPage_X),
        0x35 => OpCode::new(0x35, "AND", 2, 4, AddressingMode::ZeroPage_X),
        0x36 => OpCode::new(0x36, "ROL", 2, 6, AddressingMode::ZeroPage_X),
        0x37 => OpCode::new(0x37, "*RLA", 2, 6, AddressingMode::ZeroPage_X),
        0x38 => OpCode::new(0x38, "SEC", 1, 2, AddressingMode::NoneAddressing),
        0x39 => OpCode::new(0x39, "AND", 3, 4, AddressingMode::Absolute_Y),
        0x3a => OpCode::new(0x3a, "*NOP", 1, 2, AddressingMode::NoneAddressing),
        0x3b => OpCode::new(0x3b, "*RLA", 3, 7, AddressingMode::Absolute_Y),
        0x3c => OpCode::new(0x3c, "*NOP", 3, 4, AddressingMode::Absolute_X),
        0x3d => OpCode::new(0x3d, "AND", 3, 4, AddressingMode::Absolute_X),
        0x3e => OpCode::new(0x3e, "ROL", 3, 7, AddressingMode::Absolute_X),
        _ => OpCode::new(0x3f, "*RLA", 3, 7, AddressingMode::Absolute_X),
    }
}

fn opcode_row_4(code: u8) -> (r: OpCode)
    requires
        0x40 <= code <= 0x4f,
    ensures
        r.code == code,
        r.len == op_len(code),
        r.cycles == op_cycles(code),
        r.mode == op_mode(code),
        r.mnemonic@ == op_mnemonic(code),
        1 <= r.len <= 3,
{
    match code {
        0x40 => OpCode::new(0x40, "RTI", 1, 6, AddressingMode::NoneAddressing),
        0x41 => OpCode::new(0x41, "EOR", 2, 6, AddressingMode::Indirect_X),
        0x42 => OpCode::new(0x42, "*NOP", 1, 2, AddressingMode::NoneAddressing),
        0x43 => OpCode::new(0x43, "*SRE", 2, 8, AddressingMode::Indirect_X),
        0x44 => OpCode::new(0x44, "*NOP", 2, 3, AddressingMode::ZeroPage),
        0x45 => OpCode::new(0x45, "EOR", 2, 3, AddressingMode::ZeroPage),
        0x46 => OpCode::new(0x46, "LSR", 2, 5, AddressingMode::ZeroPage),
        0x47 => OpCode::new(0x47, "*SRE", 2, 5, AddressingMode::ZeroPage),
        0x48 => OpCode::new(0x48, "PHA", 1, 3, AddressingMode::NoneAddressing),
        0x49 => OpCode::new(0x49, "EOR", 2, 2, AddressingMode::Immediate),
        0x4a => OpCode::new(0x4a, "LSR", 1, 2, AddressingMode::NoneAddressing),
        0x4b => OpCode::new(0x4b, "*ALR", 2, 2, AddressingMode::Immediate),
        0x4c => OpCode::new(0x4c, "JMP", 3, 3, AddressingMode::NoneAddressing),
        0x4d => OpCode::new(0x4d, "EOR", 3, 4, AddressingMode::Absolute),
        0x4e => OpCode::new(0x4e, "LSR", 3, 6, AddressingMode::Absolute),
        _ => OpCode::new(0x4f, "*SRE", 3, 6, AddressingMode::Absolute),
    }
}

fn opcode_row_5(code: u8) -> (r: OpCode)
    requires
        0x50 <= code <= 0x5f,
    ensures
        r.code == code,
        r.len == op_len(code),
        r.cycles == op_cycles(code),
        r.mode == op_mode(code),
        r.mnemonic@ == op_mnemonic(code),
        1 <= r.len <= 3,
{
    match code {
        0x50 => OpCode::new(0x50, "BVC", 2, 2, AddressingMode::NoneAddressing),
        0x51 => OpCode::new(0x51, "EOR", 2, 5, AddressingMode::Indirect_Y),
        0x52 => OpCode::new(0x52, "*NOP", 1, 2, AddressingMode::NoneAddressing),
        0x53 => OpCode::new(0x53, "*SRE", 2, 8, AddressingMode::Indirect_Y),
        0x54 => OpCode::new(0x54, "*NOP", 2, 4, AddressingMode::ZeroPage_X),
        0x55 => OpCode::new(0x55, "EOR", 2, 4, AddressingMode::ZeroPage_X),
        0x56 => OpCode::new(0x56, "LSR", 2, 6, AddressingMode::ZeroPage_X),
        0x57 => OpCode::new(0x57, "*SRE", 2, 6, AddressingMode::ZeroPage_X),
        0x58 => OpCode::new(0x58, "CLI", 1, 2, AddressingMode::NoneAddressing),
        0x59 => OpCode::new(0x59, "EOR", 3, 4, AddressingMode::Absolute_Y),
        0x5a => OpCode::new(0x5a, "*NOP", 1, 2, AddressingMode::NoneAddressing),
        0x5b => OpCode::new(0x5b, "*SRE", 3, 7, AddressingMode::Absolute_Y),
        0x5c => OpCode::new(0x5c, "*NOP", 3, 4, AddressingMode::Absolute_X),
        0x5d => OpCode::new(0x5d, "EOR", 3, 4, AddressingMode::Absolute_X),
        0x5e => OpCode::new(0x5e, "LSR", 3, 7, AddressingMode::Absolute_X),
        _ => OpCode::new(0x5f, "*SRE", 3, 7, AddressingMode::Absolute_X),
    }
}

fn opcode_row_6(code: u8) -> (r: OpCode)
    requires
        0x60 <= code <= 0x6f,
    ensures
        r.code == code,
        r.len == op_len(code),
        r.cycles == op_cycles(code),
        r.mode == op_mode(code),
        r.mnemonic@ == op_mnemonic(code),
        1 <= r.len <= 3,
{
    match code {
        0x60 => OpCode::new(0x60, "RTS", 1, 6, AddressingMode::NoneAddressing),
        0x61 => OpCode::new(0x61, "ADC", 2, 6, AddressingMode::Indirect_X),
        0x62 => OpCode::new(0x62, "*NOP", 1, 2, AddressingMode::NoneAddressing),
        0x63 => OpCode::new(0x63, "*RRA", 2, 8, AddressingMode::Indirect_X),
        0x64 => OpCode::new(0x64, "*NOP", 2, 3, AddressingMode::ZeroPage),
        0x65 => OpCode::new(0x65, "ADC", 2, 3, AddressingMode::ZeroPage),
        0x66 => OpCode::new(0x66, "ROR", 2, 5, AddressingMode::ZeroPage),
        0x67 => OpCode::new(0x67, "*RRA", 2, 5, AddressingMode::ZeroPage),
        0x68 => OpCode::new(0x68, "PLA", 1, 4, AddressingMode::NoneAddressing),
        0x69 => OpCode::new(0x69, "ADC", 2, 2, AddressingMode::Immediate),
        0x6a => OpCode::new(0x6a, "ROR", 1, 2, AddressingMode::NoneAddressing),
        0x6b => OpCode::new(0x6b, "*ARR", 2, 2, AddressingMode::Immediate),
        0x6c => OpCode::new(0x6c, "JMP", 3, 5, AddressingMode::NoneAddressing),
        0x6d => OpCode::new(0x6d, "ADC", 3, 4, AddressingMode::Absolute),
        0x6e => OpCode::new(0x6e, "ROR", 3, 6, AddressingMode::Absolute),
        _ => OpCode::new(0x6f, "*RRA", 3, 6, AddressingMode::Absolute),
    }
}

fn opcode_row_7(code: u8) -> (r: OpCode)
    requires
        0x70 <= code <= 0x7f,
    ensures
        r.code == code,
        r.len == op_len(code),
        r.cycles == op_cycles(code),
        r.mode == op_mode(code),
        r.mnemonic@ == op_mnemonic(code),
        1 <= r.len <= 3,
{
    match code {
        0x70 => OpCode::new(0x70, "BVS", 2, 2, AddressingMode::NoneAddressing),
        0x71 => OpCode::new(0x71, "ADC", 2, 5, AddressingMode::Indirect_Y),
        0x72 => OpCode::new(0x72, "*NOP", 1, 2, AddressingMode::NoneAddressing),
        0x73 => OpCode::new(0x73, "*RRA", 2, 8, AddressingMode::Indirect_Y),
        0x74 => OpCode::new(0x74, "*NOP", 2, 4, AddressingMode::ZeroPage_X),
        0x75 => OpCode::new(0x75, "ADC", 2, 4, AddressingMode::ZeroPage_X),
        0x76 => OpCode::new(0x76, "ROR", 2, 6, AddressingMode::ZeroPage_X),
        0x77 => OpCode::new(0x77, "*RRA", 2, 6, AddressingMode::ZeroPage_X),
        0x78 => OpCode::new(0x78, "SEI", 1, 2, AddressingMode::NoneAddressing),
        0x79 => OpCode::new(0x79, "ADC", 3, 4, AddressingMode::Absolute_Y),
        0x7a => OpCode::new(0x7a, "*NOP", 1, 2, AddressingMode::NoneAddressing),
        0x7b => OpCode::new(0x7b, "*RRA", 3, 7, AddressingMode::Absolute_Y),
        0x7c => OpCode::new(0x7c, "*NOP", 3, 4, AddressingMode::Absolute_X),
        0x7d => OpCode::new(0x7d, "ADC", 3, 4, AddressingMode::Absolute_X),
        0x7e => OpCode::new(0x7e, "ROR", 3, 7, AddressingMode::Absolute_X),
        _ => OpCode::new(0x7f, "*RRA", 3, 7, AddressingMode::Absolute_X),
    }
}

fn opcode_row_8(code: u8) -> (r: OpCode)
    requires
        0x80 <= code <= 0x8f,
    ensures
        r.code == code,
        r.len == op_len(code),
        r.cycles == op_cycles(code),
        r.mode == op_mode(code),
        r.mnemonic@ == op_mnemonic(code),
        1 <= r.len <= 3,
{
    match code {
        0x80 => OpCode::new(0x80, "*NOP", 2, 2, AddressingMode::Immediate),
        0x81 => OpCode::new(0x81, "STA", 2, 6, AddressingMode::Indirect_X),
        0x82 => OpCode::new(0x82, "*NOP", 2, 2, AddressingMode::Immediate),
        0x83 => OpCode::new(0x83, "*SAX", 2, 6, AddressingMode::Indirect_X),
        0x84 => OpCode::new(0x84, "STY", 2, 3, AddressingMode::ZeroPage),
        0x85 => OpCode::new(0x85, "STA", 2, 3, AddressingMode::ZeroPage),
        0x86 => OpCode::new(0x86, "STX", 2, 3, AddressingMode::ZeroPage),
        0x87 => OpCode::new(0x87, "*SAX", 2, 3, AddressingMode::ZeroPage),
        0x88 => OpCode::new(0x88, "DEY", 1, 2, AddressingMode::NoneAddressing),
        0x89 => OpCode::new(0x89, "*NOP", 2, 2, AddressingMode::Immediate),
        0x8a => OpCode::new(0x8a, "TXA", 1, 2, AddressingMode::NoneAddressing),
        0x8b => OpCode::new(0x8b, "*XAA", 2, 2, AddressingMode::Immediate),
        0x8c => OpCode::new(0x8c, "STY", 3, 4, AddressingMode::Absolute),
        0x8d => OpCode::new(0x8d, "STA", 3, 4, AddressingMode::Absolute),
        0x8e => OpCode::new(0x8e, "STX", 3, 4, AddressingMode::Absolute),
        _ => OpCode::new(0x8f, "*SAX", 3, 4, AddressingMode::Absolute),
    }
}

fn opcode_row_9(code: u8) -> (r: OpCode)
    requires
        0x90 <= code <= 0x9f,
    ensures
        r.code == code,
        r.len == op_len(code),
        r.cycles == op_cycles(code),
        r.mode == op_mode(code),
        r.mnemonic@ == op_mnemonic(code),
        1 <= r.len <= 3,
{
    match code {
        0x90 => OpCode::new(0x90, "BCC", 2, 2, AddressingMode::NoneAddressing),
        0x91 => OpCode::new(0x91, "STA", 2, 6, AddressingMode::Indirect_Y),
        0x92 => OpCode::new(0x92, "*NOP", 1, 2, AddressingMode::NoneAddressing),
        0x93 => OpCode::new(0x93, "*AHX", 2, 6, AddressingMode::Indirect_Y),
        0x94 => OpCode::new(0x94, "STY", 2, 4, AddressingMode::ZeroPage_X),
        0x95 => OpCode::new(0x95, "STA", 2, 4, AddressingMode::ZeroPage_X),
        0x96 => OpCode::new(0x96, "STX", 2, 4, AddressingMode::ZeroPage_Y),
        0x97 => OpCode::new(0x97, "*SAX", 2, 4, AddressingMode::ZeroPage_Y),
        0x98 => OpCode::new(0x98, "TYA", 1, 2, AddressingMode::NoneAddressing),
        0x99 => OpCode::new(0x99, "STA", 3, 5, AddressingMode::Absolute_Y),
        0x9a => OpCode::new(0x9a, "TXS", 1, 2, AddressingMode::NoneAddressing),
        0x9b => OpCode::new(0x9b, "*TAS", 3, 5, AddressingMode::Absolute_Y),
        0x9c => OpCode::new(0x9c, "*SHY", 3, 5, AddressingMode::Absolute_X),
        0x9d => OpCode::new(0x9d, "STA", 3, 5, AddressingMode::Absolute_X),
        0x9e => OpCode::new(0x9e, "*SHX", 3, 5, AddressingMode::Absolute_Y),
        _ => OpCode::new(0x9f, "*AHX", 3, 5, AddressingMode::Absolute_Y),
    }
}

fn opcode_row_a(code: u8) -> (r: OpCode)
    requires
        0xa0 <= code <= 0xaf,
    ensures
        r.code == code,
        r.len == op_len(code),
        r.cycles == op_cycles(code),
        r.mode == op_mode(code),
        r.mnemonic@ == op_mnemonic(code),
        1 <= r.len <= 3,
{
    match code {
        0xa0 => OpCode::new(0xa0, "LDY", 2, 2, AddressingMode::Immediate),
        0xa1 => OpCode::new(0xa1, "LDA", 2, 6, AddressingMode::Indirect_X),
        0xa2 => OpCode::new(0xa2, "LDX", 2, 2, AddressingMode::Immediate),
        0xa3 => OpCode::new(0xa3, "*LAX", 2, 6, AddressingMode::Indirect_X),
        0xa4 => OpCode::new(0xa4, "LDY", 2, 3, AddressingMode::ZeroPage),
        0xa5 => OpCode::new(0xa5, "LDA", 2, 3, AddressingMode::ZeroPage),
        0xa6 => OpCode::new(0xa6, "LDX", 2, 3, AddressingMode::ZeroPage),
        0xa7 => OpCode::new(0xa7, "*LAX", 2, 3, AddressingMode::ZeroPage),
        0xa8 => OpCode::new(0xa8, "TAY", 1, 2, AddressingMode::NoneAddressing),
        0xa9 => OpCode::new(0xa9, "LDA", 2, 2, AddressingMode::Immediate),
        0xaa => OpCode::new(0xaa, "TAX", 1, 2, AddressingMode::NoneAddressing),
        0xab => OpCode::new(0xab, "*LXA", 2, 2, AddressingMode::Immediate),
        0xac => OpCode::new(0xac, "LDY", 3, 4, AddressingMode::Absolute),
        0xad => OpCode::new(0xad, "LDA", 3, 4, AddressingMode::Absolute),
        0xae => OpCode::new(0xae, "LDX", 3, 4, AddressingMode::Absolute),
        _ => OpCode::new(0xaf, "*LAX", 3, 4, AddressingMode::Absolute),
    }
}

fn opcode_row_b(code: u8) -> (r: OpCode)
    requires
        0xb0 <= code <= 0xbf,
    ensures
        r.code == code,
        r.len == op_len(code),
        r.cycles == op_cycles(code),
        r.mode == op_mode(code),
        r.mnemonic@ == op_mnemonic(code),
        1 <= r.len <= 3,
{
    match code {
        0xb0 => OpCode::new(0xb0, "BCS", 2, 2, AddressingMode::NoneAddressing),
        0xb1 => OpCode::new(0xb1, "LDA", 2, 5, AddressingMode::Indirect_Y),
        0xb2 => OpCode::new(0xb2, "*NOP", 1, 2, AddressingMode::NoneAddressing),
        0xb3 => OpCode::new(0xb3, "*LAX", 2, 5, AddressingMode::Indirect_Y),
        0xb4 => OpCode::new(0xb4, "LDY", 2, 4, AddressingMode::ZeroPage_X),
        0xb5 => OpCode::new(0xb5, "LDA", 2, 4, AddressingMode::ZeroPage_X),
        0xb6 => OpCode::new(0xb6, "LDX", 2, 4, AddressingMode::ZeroPage_Y),
        0xb7 => OpCode::new(0xb7, "*LAX", 2, 4, AddressingMode::ZeroPage_Y),
        0xb8 => OpCode::new(0xb8, "CLV", 1, 2, AddressingMode::NoneAddressing),
        0xb9 => OpCode::new(0xb9, "LDA", 3, 4, AddressingMode::Absolute_Y),
        0xba => OpCode::new(0xba, "TSX", 1, 2, AddressingMode::NoneAddressing),
        0xbb => OpCode::new(0xbb, "*LAS", 3, 4, AddressingMode::Absolute_Y),
        0xbc => OpCode::new(0xbc, "LDY", 3, 4, AddressingMode::Absolute_X),
        0xbd => OpCode::new(0xbd, "LDA", 3, 4, AddressingMode::Absolute_X),
        0xbe => OpCode::new(0xbe, "LDX", 3, 4, AddressingMode::Absolute_Y),
        _ => OpCode::new(0xbf, "*LAX", 3, 4, AddressingMode::Absolute_Y),
    }
}

fn opcode_row_c(code: u8) -> (r: OpCode)
    requires
        0xc0 <= code <= 0xcf,
    ensures
        r.code == code,
        r.len == op_len(code),
        r.cycles == op_cycles(code),
        r.mode == op_mode(code),
        r.mnemonic@ == op_mnemonic(code),
        1 <= r.len <= 3,
{
    match code {
        0xc0 => OpCode::new(0xc0, "CPY", 2, 2, AddressingMode::Immediate),
        0xc1 => OpCode::new(0xc1, "CMP", 2, 6, AddressingMode::Indirect_X),
        0xc2 => OpCode::new(0xc2, "*NOP", 2, 2, AddressingMode::Immediate),
        0xc3 => OpCode::new(0xc3, "*DCP", 2, 8, AddressingMode::Indirect_X),
        0xc4 => OpCode::new(0xc4, "CPY", 2, 3, AddressingMode::ZeroPage),
        0xc5 => OpCode::new(0xc5, "CMP", 2, 3, AddressingMode::ZeroPage),
        0xc6 => OpCode::new(0xc6, "DEC", 2, 5, AddressingMode::ZeroPage),
        0xc7 => OpCode::new(0xc7, "*DCP", 2, 5, AddressingMode::ZeroPage),
        0xc8 => OpCode::new(0xc8, "INY", 1, 2, AddressingMode::NoneAddressing),
        0xc9 => OpCode::new(0xc9, "CMP", 2, 2, AddressingMode::Immediate),
        0xca => OpCode::new(0xca, "DEX", 1, 2, AddressingMode::NoneAddressing),
        0xcb => OpCode::new(0xcb, "*AXS", 2, 2, AddressingMode::Immediate),
        0xcc => OpCode::new(0xcc, "CPY", 3, 4, AddressingMode::Absolute),
        0xcd => OpCode::new(0xcd, "CMP", 3, 4, AddressingMode::Absolute),
        0xce => OpCode::new(0xce, "DEC", 3, 6, AddressingMode::Absolute),
        _ => OpCode::new(0xcf, "*DCP", 3, 6, AddressingMode::Absolute),
    }
}

fn opcode_row_d(code: u8) -> (r: OpCode)
    requires
        0xd0 <= code <= 0xdf,
    ensures
        r.code == code,
        r.len == op_len(code),
        r.cycles == op_cycles(code),
        r.mode == op_mode(code),
        r.mnemonic@ == op_mnemonic(code),
        1 <= r.len <= 3,
{
    match code {
        0xd0 => OpCode::new(0xd0, "BNE", 2, 2, AddressingMode::NoneAddressing),
        0xd1 => OpCode::new(0xd1, "CMP", 2, 5, AddressingMode::Indirect_Y),
        0xd2 => OpCode::new(0xd2, "*NOP", 1, 2, AddressingMode::NoneAddressing),
        0xd3 => OpCode::new(0xd3, "*DCP", 2, 8, AddressingMode::Indirect_Y),
        0xd4 => OpCode::new(0xd4, "*NOP", 2, 4, AddressingMode::ZeroPage_X),
        0xd5 => OpCode::new(0xd5, "CMP", 2, 4, AddressingMode::ZeroPage_X),
        0xd6 => OpCode::new(0xd6, "DEC", 2, 6, AddressingMode::ZeroPage_X),
        0xd7 => OpCode::new(0xd7, "*DCP", 2, 6, AddressingMode::ZeroPage_X),
        0xd8 => OpCode::new(0xd8, "CLD", 1, 2, AddressingMode::NoneAddressing),
        0xd9 => OpCode::new(0xd9, "CMP", 3, 4, AddressingMode::Absolute_Y),
        0xda => OpCode::new(0xda, "*NOP", 1, 2, AddressingMode::NoneAddressing),
        0xdb => OpCode::new(0xdb, "*DCP", 3, 7, AddressingMode::Absolute_Y),
        0xdc => OpCode::new(0xdc, "*NOP", 3, 4, AddressingMode::Absolute_X),
        0xdd => OpCode::new(0xdd, "CMP", 3, 4, AddressingMode::Absolute_X),
        0xde => OpCode::new(0xde, "DEC", 3, 7, AddressingMode::Absolute_X),
        _ => OpCode::new(0xdf, "*DCP", 3, 7, AddressingMode::Absolute_X),
    }
}

fn opcode_row_e(code: u8) -> (r: OpCode)
    requires
        0xe0 <= code <= 0xef,
    ensures
        r.code == code,
        r.len == op_len(code),
        r.cycles == op_cycles(code),
        r.mode == op_mode(code),
        r.mnemonic@ == op_mnemonic(code),
        1 <= r.len <= 3,
{
    match code {
        0xe0 => OpCode::new(0xe0, "CPX", 2, 2, AddressingMode::Immediate),
        0xe1 => OpCode::new(0xe1, "SBC", 2, 6, AddressingMode::Indirect_X),
        0xe2 => OpCode::new(0xe2, "*NOP", 2, 2, AddressingMode::Immediate),
        0xe3 => OpCode::new(0xe3, "*ISB", 2, 8, AddressingMode::Indirect_X),
        0xe4 => OpCode::new(0xe4, "CPX", 2, 3, AddressingMode::ZeroPage),
        0xe5 => OpCode::new(0xe5, "SBC", 2, 3, AddressingMode::ZeroPage),
        0xe6 => OpCode::new(0xe6, "INC", 2, 5, AddressingMode::ZeroPage),
        0xe7 => OpCode::new(0xe7, "*ISB", 2, 5, AddressingMode::ZeroPage),
        0xe8 => OpCode::new(0xe8, "INX", 1, 2, AddressingMode::NoneAddressing),
        0xe9 => OpCode::new(0xe9, "SBC", 2, 2, AddressingMode::Immediate),
        0xea => OpCode::new(0xea, "NOP", 1, 2, AddressingMode::NoneAddressing),
        0xeb => OpCode::new(0xeb, "*SBC", 2, 2, AddressingMode::Immediate),
        0xec => OpCode::new(0xec, "CPX", 3, 4, AddressingMode::Absolute),
        0xed => OpCode::new(0xed, "SBC", 3, 4, AddressingMode::Absolute),
        0xee => OpCode::new(0xee, "INC", 3, 6, AddressingMode::Absolute),
        _ => OpCode::new(0xef, "*ISB", 3, 6, AddressingMode::Absolute),
    }
}

fn opcode_row_f(code: u8) -> (r: OpCode)
    requires
        0xf0 <= code <= 0xff,
    ensures
        r.code == code,
        r.len == op_len(code),
        r.cycles == op_cycles(code),
        r.mode == op_mode(code),
        r.mnemonic@ == op_mnemonic(code),
        1 <= r.len <= 3,
{
    match code {
        0xf0 => OpCode::new(0xf0, "BEQ", 2, 2, AddressingMode::NoneAddressing),
        0xf1 => OpCode::new(0xf1, "SBC", 2, 5, AddressingMode::Indirect_Y),
        0xf2 => OpCode::new(0xf2, "*NOP", 1, 2, AddressingMode::NoneAddressing),
        0xf3 => OpCode::new(0xf3, "*ISB", 2, 8, AddressingMode::Indirect_Y),
        0xf4 => OpCode::new(0xf4, "*NOP", 2, 4, AddressingMode::ZeroPage_X),
        0xf5 => OpCode::new(0xf5, "SBC", 2, 4, AddressingMode::ZeroPage_X),
        0xf6 => OpCode::new(0xf6, "INC", 2, 6, AddressingMode::ZeroPage_X),
        0xf7 => OpCode::new(0xf7, "*ISB", 2, 6, AddressingMode::ZeroPage_X),
        0xf8 => OpCode::new(0xf8, "SED", 1, 2, AddressingMode::NoneAddressing),
        0xf9 => OpCode::new(0xf9, "SBC", 3, 4, AddressingMode::Absolute_Y),
        0xfa => OpCode::new(0xfa, "*NOP", 1, 2, AddressingMode::NoneAddressing),
        0xfb => OpCode::new(0xfb, "*ISB", 3, 7, AddressingMode::Absolute_Y),
        0xfc => OpCode::new(0xfc, "*NOP", 3, 4, AddressingMode::Absolute_X),
        0xfd => OpCode::new(0xfd, "SBC", 3, 4, AddressingMode::Absolute_X),
        0xfe => OpCode::new(0xfe, "INC", 3, 7, AddressingMode::Absolute_X),
        _ => OpCode::new(0xff, "*ISB", 3, 7, AddressingMode::Absolute_X),
    }
}

} // verus!
