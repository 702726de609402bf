//! The trace formatter: one nestest-format line per instruction, built
//! before the instruction executes. The line shows PC, the instruction
//! bytes, the mnemonic, an operand rendering that includes the current
//! effective target and its contents, and the register file. Tracing
//! reads memory without charging cycles or touching any register.
use vstd::prelude::*;

use crate::bits::{hi8, lo8, lemma_and_ff_bound, lemma_nib_hi_bound, lemma_nib_lo_bound,
    lemma_shr8_bound, lemma_sign_ext8, make16, sign_ext8, wadd16, wadd8, wsub16};
use crate::cpu::{AddressingMode, CPU};
use crate::opcodes::{op_len, op_mnemonic, op_mode, opcode_for};
use crate::state::{rd16, rd8, resolve_at, CpuState};

verus! {

/// The uppercase hexadecimal digit for a nibble.
pub open spec fn hexd(n: u8) -> char {
    if n == 0 {
        '0'
    } else if n == 1 {
        '1'
    } else if n == 2 {
        '2'
    } else if n == 3 {
        '3'
    } else if n == 4 {
        '4'
    } else if n == 5 {
        '5'
    } else if n == 6 {
        '6'
    } else if n == 7 {
        '7'
    } else if n == 8 {
        '8'
    } else if n == 9 {
        '9'
    } else if n == 10 {
        'A'
    } else if n == 11 {
        'B'
    } else if n == 12 {
        'C'
    } else if n == 13 {
        'D'
    } else if n == 14 {
        'E'
    } else {
        'F'
    }
}

/// Two uppercase hex digits of a byte.
pub open spec fn hex2(v: u8) -> Seq<char> {
    seq![hexd(v >> 4), hexd(v & 0x0F)]
}

/// Four uppercase hex digits of a word.
pub open spec fn hex4(w: u16) -> Seq<char> {
    hex2(hi8(w)) + hex2(lo8(w))
}

/// `n` spaces.
pub open spec fn spaces(n: nat) -> Seq<char>
    decreases n,
{
    if n == 0 {
        Seq::empty()
    } else {
        spaces((n - 1) as nat) + seq![' ']
    }
}

pub proof fn lemma_spaces_len(n: nat)
    ensures
        spaces(n).len() == n,
    decreases n,
{
    if n > 0 {
        lemma_spaces_len((n - 1) as nat);
    }
}

/// `s` padded with spaces on the right to width `w`.
pub open spec fn pad_to(s: Seq<char>, w: nat) -> Seq<char> {
    if s.len() >= w {
        s
    } else {
        s + spaces((w - s.len()) as nat)
    }
}

/// The effective target of the traced instruction and the byte there,
/// for the modes that name a memory operand; immediate and implicit
/// modes report zeros.
pub open spec fn trace_target(s: CpuState, mode: AddressingMode) -> (u16, u8) {
    match mode {
        AddressingMode::Immediate | AddressingMode::NoneAddressing => (0u16, 0u8),
        _ => {
            let (addr, crossed) = resolve_at(s, mode, wadd16(s.pc, 1));
            (addr, rd8(s, addr))
        },
    }
}

/// The operand column of the trace line for the instruction at `s.pc`
/// with opcode `code`, rendered from the current register and memory
/// values.
pub open spec fn operand_text(s: CpuState, code: u8) -> Seq<char> {
    let mode = op_mode(code);
    let target = trace_target(s, mode);
    let mem_addr = target.0;
    let data = target.1;
    if op_len(code) == 1 {
        if code == 0x0a || code == 0x4a || code == 0x2a || code == 0x6a {
            seq!['A']
        } else {
            Seq::empty()
        }
    } else if op_len(code) == 2 {
        let address = rd8(s, wadd16(s.pc, 1));
        match mode {
            AddressingMode::Immediate => "#$"@ + hex2(address),
            AddressingMode::ZeroPage => "$"@ + hex2(lo8(mem_addr)) + " = "@ + hex2(data),
            AddressingMode::ZeroPage_X => "$"@ + hex2(address) + ",X @ "@ + hex2(lo8(mem_addr))
                + " = "@ + hex2(data),
            AddressingMode::ZeroPage_Y => "$"@ + hex2(address) + ",Y @ "@ + hex2(lo8(mem_addr))
                + " = "@ + hex2(data),
            AddressingMode::Indirect_X => "($"@ + hex2(address) + ",X) @ "@ + hex2(
                wadd8(address, s.x),
            ) + " = "@ + hex4(mem_addr) + " = "@ + hex2(data),
            AddressingMode::Indirect_Y => "($"@ + hex2(address) + "),Y = "@ + hex4(
                wsub16(mem_addr, s.y as u16),
            ) + " @ "@ + hex4(mem_addr) + " = "@ + hex2(data),
            AddressingMode::NoneAddressing => "$"@ + hex4(
                wadd16(wadd16(s.pc, 2), sign_ext8(address)),
            ),
            _ => Seq::empty(),
        }
    } else {
        let address = rd16(s, wadd16(s.pc, 1));
        match mode {
            AddressingMode::NoneAddressing => {
                if code == 0x6c {
                    let jmp_addr = if address & 0x00FF == 0x00FF {
                        make16(rd8(s, address), rd8(s, (address & 0xFF00) as u16))
                    } else {
                        rd16(s, address)
                    };
                    "($"@ + hex4(address) + ") = "@ + hex4(jmp_addr)
                } else {
                    "$"@ + hex4(address)
                }
            },
            AddressingMode::Absolute => "$"@ + hex4(mem_addr) + " = "@ + hex2(data),
            AddressingMode::Absolute_X => "$"@ + hex4(address) + ",X @ "@ + hex4(mem_addr)
                + " = "@ + hex2(data),
            AddressingMode::Absolute_Y => "$"@ + hex4(address) + ",Y @ "@ + hex4(mem_addr)
                + " = "@ + hex2(data),
            _ => Seq::empty(),
        }
    }
}

/// The instruction bytes, space-separated and padded to eight columns.
pub open spec fn hexdump_text(s: CpuState, code: u8) -> Seq<char> {
    if op_len(code) == 1 {
        hex2(code) + "      "@
    } else if op_len(code) == 2 {
        hex2(code) + " "@ + hex2(rd8(s, wadd16(s.pc, 1))) + "   "@
    } else {
        hex2(code) + " "@ + hex2(rd8(s, wadd16(s.pc, 1))) + " "@ + hex2(rd8(s, wadd16(s.pc, 2)))
    }
}

/// The mnemonic, right-aligned in four columns.
pub open spec fn mnemonic_text(code: u8) -> Seq<char> {
    if op_mnemonic(code).len() == 3 {
        " "@ + op_mnemonic(code)
    } else {
        op_mnemonic(code)
    }
}

/// The assembly column: PC, instruction bytes, mnemonic and operand.
pub open spec fn asm_text(s: CpuState, code: u8) -> Seq<char> {
    let opnd = operand_text(s, code);
    let head = hex4(s.pc) + "  "@ + hexdump_text(s, code) + " "@ + mnemonic_text(code);
    if opnd.len() == 0 {
        head
    } else {
        head + " "@ + opnd
    }
}

/// The whole trace line: the assembly column padded to 47 characters,
/// then the registers.
pub open spec fn trace_line(s: CpuState) -> Seq<char> {
    let code = rd8(s, s.pc);
    pad_to(asm_text(s, code), 47) + " A:"@ + hex2(s.a) + " X:"@ + hex2(s.x) + " Y:"@ + hex2(s.y)
        + " P:"@ + hex2(s.p) + " SP:"@ + hex2(s.sp)
}

/// One uppercase hex digit as a string slice.
fn hex_char(n: u8) -> (r: &'static str)
    requires
        n < 16,
    ensures
        r@ == seq![hexd(n)],
{
    proof {
        reveal_strlit("0");
        reveal_strlit("1");
        reveal_strlit("2");
        reveal_strlit("3");
        reveal_strlit("4");
        reveal_strlit("5");
        reveal_strlit("6");
        reveal_strlit("7");
        reveal_strlit("8");
        reveal_strlit("9");
        reveal_strlit("A");
        reveal_strlit("B");
        reveal_strlit("C");
        reveal_strlit("D");
        reveal_strlit("E");
        reveal_strlit("F");
    }
    let r = match n {
        0 => "0",
        1 => "1",
        2 => "2",
        3 => "3",
        4 => "4",
        5 => "5",
        6 => "6",
        7 => "7",
        8 => "8",
        9 => "9",
        10 => "A",
        11 => "B",
        12 => "C",
        13 => "D",
        14 => "E",
        _ => "F",
    };
    proof {
        assert(r@ =~= seq![hexd(n)]);
    }
    r
}

/// Append two uppercase hex digits of `v`.
fn push_hex2(out: &mut String, v: u8)
    ensures
        final(out)@ == old(out)@ + hex2(v),
{
    proof {
        lemma_nib_hi_bound(v);
        lemma_nib_lo_bound(v);
    }
    out.append(hex_char(v >> 4));
    out.append(hex_char(v & 0x0F));
    proof {
        assert(final(out)@ =~= old(out)@ + hex2(v));
    }
}

/// Append four uppercase hex digits of `w`.
fn push_hex4(out: &mut String, w: u16)
    ensures
        final(out)@ == old(out)@ + hex4(w),
{
    proof {
        lemma_shr8_bound(w);
        lemma_and_ff_bound(w);
    }
    push_hex2(out, (w >> 8) as u8);
    push_hex2(out, (w & 0xFF) as u8);
    proof {
        assert(final(out)@ =~= old(out)@ + hex4(w));
    }
}

/// Append `n` spaces.
fn push_spaces(out: &mut String, n: usize)
    ensures
        final(out)@ == old(out)@ + spaces(n as nat),
{
    proof {
        assert(old(out)@ + spaces(0) =~= old(out)@);
    }
    let mut i: usize = 0;
    while i < n
        invariant
            i <= n,
            out@ == old(out)@ + spaces(i as nat),
        decreases n - i,
    {
        out.append(" ");
        proof {
            reveal_strlit(" ");
            lemma_spaces_len(i as nat);
            assert((old(out)@ + spaces(i as nat)) + " "@ =~= old(out)@ + spaces(i as nat + 1));
        }
        i += 1;
    }
}

/// Render the trace line for the instruction the processor is about to
/// execute. Tracing reads through the resolver but leaves the whole
/// machine state untouched.
pub fn trace(cpu: &mut CPU) -> (r: String)
    ensures
        r@ == trace_line(old(cpu)@),
        *final(cpu) == *old(cpu),
{
    let code = cpu.bus.mem_read(cpu.program_counter);
    let op = opcode_for(code);
    let counter = cpu.program_counter;

    let (mem_addr, data) = match op.mode {
        AddressingMode::Immediate | AddressingMode::NoneAddressing => (0u16, 0u8),
        _ => {
            let (addr, _crossed) = cpu.get_absolute_address(&op.mode, counter.wrapping_add(1));
            (addr, cpu.bus.mem_read(addr))
        },
    };

    let mut tmp = String::new();
    if op.len == 1 {
        match code {
            0x0a | 0x4a | 0x2a | 0x6a => {
                tmp.append("A");
                proof {
                    reveal_strlit("A");
                    assert(tmp@ =~= operand_text(old(cpu)@, code));
                }
            },
            _ => {},
        }
    } else if op.len == 2 {
        let address = cpu.bus.mem_read(counter.wrapping_add(1));
        match op.mode {
            AddressingMode::Immediate => {
                tmp.append("#$");
                push_hex2(&mut tmp, address);
            },
            AddressingMode::ZeroPage => {
                tmp.append("$");
                push_hex2(&mut tmp, (mem_addr & 0xFF) as u8);
                tmp.append(" = ");
                push_hex2(&mut tmp, data);
            },
            AddressingMode::ZeroPage_X => {
                tmp.append("$");
                push_hex2(&mut tmp, address);
                tmp.append(",X @ ");
                push_hex2(&mut tmp, (mem_addr & 0xFF) as u8);
                tmp.append(" = ");
                push_hex2(&mut tmp, data);
            },
            AddressingMode::ZeroPage_Y => {
                tmp.append("$");
                push_hex2(&mut tmp, address);
                tmp.append(",Y @ ");
                push_hex2(&mut tmp, (mem_addr & 0xFF) as u8);
                tmp.append(" = ");
                push_hex2(&mut tmp, data);
            },
            AddressingMode::Indirect_X => {
                tmp.append("($");
                push_hex2(&mut tmp, address);
                tmp.append(",X) @ ");
                push_hex2(&mut tmp, address.wrapping_add(cpu.register_x));
                tmp.append(" = ");
                push_hex4(&mut tmp, mem_addr);
                tmp.append(" = ");
                push_hex2(&mut tmp, data);
            },
            AddressingMode::Indirect_Y => {
                tmp.append("($");
                push_hex2(&mut tmp, address);
                tmp.append("),Y = ");
                push_hex4(&mut tmp, mem_addr.wrapping_sub(cpu.register_y as u16));
                tmp.append(" @ ");
                push_hex4(&mut tmp, mem_addr);
                tmp.append(" = ");
                push_hex2(&mut tmp, data);
            },
            AddressingMode::NoneAddressing => {
                proof {
                    lemma_sign_ext8(address);
                }
                let target = counter.wrapping_add(2).wrapping_add((address as i8) as u16);
                tmp.append("$");
                push_hex4(&mut tmp, target);
            },
            _ => {},
        }
        proof {
            assert(tmp@ =~= operand_text(old(cpu)@, code));
        }
    } else {
        let address = cpu.bus.mem_read_u16(counter.wrapping_add(1));
        match op.mode {
            AddressingMode::NoneAddressing => {
                if code == 0x6c {
                    let jmp_addr = if address & 0x00FF == 0x00FF {
                        let lo = cpu.bus.mem_read(address);
                        let hi = cpu.bus.mem_read(address & 0xFF00);
                        (hi as u16) << 8 | (lo as u16)
                    } else {
                        cpu.bus.mem_read_u16(address)
                    };
                    tmp.append("($");
                    push_hex4(&mut tmp, address);
                    tmp.append(") = ");
                    push_hex4(&mut tmp, jmp_addr);
                } else {
                    tmp.append("$");
                    push_hex4(&mut tmp, address);
                }
            },
            AddressingMode::Absolute => {
                tmp.append("$");
                push_hex4(&mut tmp, mem_addr);
                tmp.append(" = ");
                push_hex2(&mut tmp, data);
            },
            AddressingMode::Absolute_X => {
                tmp.append("$");
                push_hex4(&mut tmp, address);
                tmp.append(",X @ ");
                push_hex4(&mut tmp, mem_addr);
                tmp.append(" = ");
                push_hex2(&mut tmp, data);
            },
            AddressingMode::Absolute_Y => {
                tmp.append("$");
                push_hex4(&mut tmp, address);
                tmp.append(",Y @ ");
                push_hex4(&mut tmp, mem_addr);
                tmp.append(" = ");
                push_hex2(&mut tmp, data);
            },
            _ => {},
        }
        proof {
            assert(tmp@ =~= operand_text(old(cpu)@, code));
        }
    }
    proof {
        assert(tmp@ == operand_text(old(cpu)@, code));
    }

    let mut line = String::new();
    push_hex4(&mut line, counter);
    line.append("  ");
    push_hex2(&mut line, code);
    if op.len == 1 {
        line.append("      ");
    } else if op.len == 2 {
        line.append(" ");
        let b1 = cpu.bus.mem_read(counter.wrapping_add(1));
        push_hex2(&mut line, b1);
        line.append("   ");
    } else {
        line.append(" ");
        let b1 = cpu.bus.mem_read(counter.wrapping_add(1));
        push_hex2(&mut line, b1);
        line.append(" ");
        let b2 = cpu.bus.mem_read(counter.wrapping_add(2));
        push_hex2(&mut line, b2);
    }
    proof {
        assert(line@ =~= hex4(old(cpu)@.pc) + "  "@ + hexdump_text(old(cpu)@, code));
    }
    line.append(" ");
    let mnemonic_len = op.mnemonic.unicode_len();
    if mnemonic_len == 3 {
        line.append(" ");
    }
    line.append(op.mnemonic);
    proof {
        assert(line@ =~= hex4(old(cpu)@.pc) + "  "@ + hexdump_text(old(cpu)@, code) + " "@
            + mnemonic_text(code));
    }
    if tmp.as_str().unicode_len() > 0 {
        line.append(" ");
        line.append(tmp.as_str());
    }
    proof {
        assert(line@ =~= asm_text(old(cpu)@, code));
    }

    let ghost asm_ghost = line@;
    let asm_len = line.as_str().unicode_len();
    if asm_len < 47 {
        push_spaces(&mut line, 47 - asm_len);
    }
    proof {
        assert(line@ == pad_to(asm_ghost, 47));
    }

    line.append(" A:");
    push_hex2(&mut line, cpu.register_a);
    line.append(" X:");
    push_hex2(&mut line, cpu.register_x);
    line.append(" Y:");
    push_hex2(&mut line, cpu.register_y);
    line.append(" P:");
    push_hex2(&mut line, cpu.status.bits());
    line.append(" SP:");
    push_hex2(&mut line, cpu.stack_pointer);
    proof {
        assert(line@ =~= trace_line(old(cpu)@));
    }
    line
}

} // verus!
