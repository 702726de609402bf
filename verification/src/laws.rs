//! General laws of the core, each proved for every input: flag semantics,
//! the arithmetic of ADC and SBC, what loads, stores and the DEC-then-CMP
//! composite do, stack and status round-trips, zero-page pointer wrap,
//! the indirect-jump page bug, and the cycle accounting of branches and
//! page-crossing reads.
use vstd::prelude::*;

use crate::bits::{lemma_make16_split, make16, sign_ext8, wadd16, wadd64, wadd8};
use crate::cpu::{BREAK, BREAK2, CARRY, DECIMAL_MODE, INTERRUPT_DISABLE, NEGATIVE, OVERFLOW,
    ZERO};
use crate::state::{adc_spec, adc_value, and_spec, branch_spec, carry_in, compare_spec, CpuState,
    eor_spec, has_flags, instr_spec, lda_spec, ldx_spec, ldy_spec, nop_read_spec, operand,
    ora_spec, page_crossed, php_spec, plp_spec, pop16, pop8, push16, push8, rd8, resolve_at,
    sbc_spec, sbc_value, set_a, sta_spec, step_spec, zn, jmp_indirect_spec, rd16};
use crate::cpu::AddressingMode;

verus! {

/// How `zn` treats the status byte: Z becomes set exactly when the value
/// is zero, N exactly when its bit 7 is set, and every other flag --
/// carry, interrupt-disable, decimal, break and the unused bit as much
/// as overflow -- keeps its old state.
pub proof fn lemma_zn_flags(p: u8, v: u8)
    by (bit_vector)
    ensures
        has_flags(zn(p, v), ZERO) <==> v == 0,
        has_flags(zn(p, v), NEGATIVE) <==> (v & 0x80) != 0,
        zn(p, v) & CARRY == p & CARRY,
        zn(p, v) & OVERFLOW == p & OVERFLOW,
        zn(p, v) & INTERRUPT_DISABLE == p & INTERRUPT_DISABLE,
        zn(p, v) & DECIMAL_MODE == p & DECIMAL_MODE,
        zn(p, v) & BREAK == p & BREAK,
        zn(p, v) & BREAK2 == p & BREAK2,
{
}

/// A register write reflects its value in the flags: after loading `v`
/// into the accumulator, Z holds exactly when `v` is zero and N exactly
/// when bit 7 of `v` is set. Every instruction that updates Z and N does
/// so through `zn`, so the same holds of each destination register.
pub proof fn lemma_set_a_flags(s: CpuState, v: u8)
    ensures
        set_a(s, v).a == v,
        has_flags(set_a(s, v).p, ZERO) <==> v == 0,
        has_flags(set_a(s, v).p, NEGATIVE) <==> (v & 0x80) != 0,
{
    lemma_zn_flags(s.p, v);
}

/// Carry is untouched by the overflow-flag update, and setting or
/// clearing carry lands as asked.
proof fn lemma_carry_independent(p: u8)
    by (bit_vector)
    ensures
        (p | OVERFLOW) & CARRY == p & CARRY,
        (p & !OVERFLOW) & CARRY == p & CARRY,
        has_flags(p | CARRY, CARRY),
        !has_flags(p & !CARRY, CARRY),
        has_flags(p | OVERFLOW, OVERFLOW),
        !has_flags(p & !OVERFLOW, OVERFLOW),
        (p | CARRY) & OVERFLOW == p & OVERFLOW,
        (p & !CARRY) & OVERFLOW == p & OVERFLOW,
{
}

/// ADC arithmetic, for every accumulator, operand and carry-in: the new
/// accumulator is the sum modulo 256, carry out holds exactly when the
/// sum reaches 256, overflow holds exactly when operand and old
/// accumulator agree in sign while the result disagrees, and Z/N
/// reflect the result.
pub proof fn lemma_adc(s: CpuState, m: u8)
    ensures
        adc_value(s, m).a == (s.a + m + carry_in(s.p)) % 256,
        has_flags(adc_value(s, m).p, CARRY) <==> s.a + m + carry_in(s.p) >= 256,
        has_flags(adc_value(s, m).p, OVERFLOW) <==> ((m ^ adc_value(s, m).a) & (adc_value(s, m).a
            ^ s.a) & 0x80) != 0,
        has_flags(adc_value(s, m).p, ZERO) <==> adc_value(s, m).a == 0,
        has_flags(adc_value(s, m).p, NEGATIVE) <==> adc_value(s, m).a >= 0x80,
{
    let sum = s.a + m + carry_in(s.p);
    let result = (sum % 256) as u8;
    let p1 = if sum > 0xFF { s.p | CARRY } else { s.p & !CARRY };
    let p2 = if (m ^ result) & (result ^ s.a) & 0x80 != 0 { p1 | OVERFLOW } else {
        p1 & !OVERFLOW
    };
    lemma_zn_flags(p2, result);
    lemma_carry_independent(p1);
    lemma_carry_independent(s.p);
    assert((result & 0x80 != 0) <==> result >= 0x80) by (bit_vector);
}

/// SBC is ADC of the bitwise complement: for every state and operand,
/// subtracting `m` is adding `(!m) & 0xFF`.
pub proof fn lemma_sbc_is_adc_of_complement(s: CpuState, m: u8)
    ensures
        sbc_value(s, m) == adc_value(s, ((!m) & 0xFF) as u8),
{
    assert(!m == ((!m) & 0xFF) as u8) by (bit_vector);
}

/// At the addressing-mode level: for every state and mode, SBC performs
/// ADC of the complemented memory operand, page-cross penalty included.
pub proof fn lemma_sbc_spec_is_adc_of_complement(s: CpuState, mode: AddressingMode)
    ensures
        sbc_spec(s, mode) == ({
            let (addr, crossed) = operand(s, mode);
            crate::state::cross_tick(
                adc_value(s, (((!rd8(s, addr)) & 0xFF) as u8)),
                crossed,
            )
        }),
{
    let (addr, crossed) = operand(s, mode);
    lemma_sbc_is_adc_of_complement(s, rd8(s, addr));
}

/// Stack round-trip for bytes: a push followed by a pop returns the
/// pushed byte and restores the stack pointer, for every stack pointer,
/// including the wrap at the page boundary.
pub proof fn lemma_stack_byte_roundtrip(s: CpuState, v: u8)
    requires
        s.mem.len() == 0x10000,
    ensures
        pop8(push8(s, v)).1 == v,
        pop8(push8(s, v)).0.sp == s.sp,
        pop8(push8(s, v)).0.pc == s.pc,
{
}

/// Stack round-trip for words, for every stack pointer, wrap included.
pub proof fn lemma_stack_word_roundtrip(s: CpuState, w: u16)
    requires
        s.mem.len() == 0x10000,
    ensures
        pop16(push16(s, w)).1 == w,
        pop16(push16(s, w)).0.sp == s.sp,
{
    lemma_make16_split(w, 0, 0);
}

/// PLP after PHP yields the old status with the break flag forced clear
/// and the unused flag forced set, and restores the stack pointer.
pub proof fn lemma_php_plp(s: CpuState)
    requires
        s.mem.len() == 0x10000,
    ensures
        plp_spec(php_spec(s)).p == (s.p & !BREAK) | BREAK2,
        plp_spec(php_spec(s)).sp == s.sp,
{
    let p = s.p;
    assert((((p | BREAK) | BREAK2) & !BREAK) | BREAK2 == (p & !BREAK) | BREAK2) by (bit_vector);
}

/// The indirect addressing modes fetch the high byte of their pointer
/// with a zero-page wrap: the byte after pointer `$FF` comes from `$00`,
/// never from `$100`.
pub proof fn lemma_indirect_high_byte_wraps(s: CpuState, at: u16)
    ensures
        resolve_at(s, AddressingMode::Indirect_X, at).0 == ({
            let ptr = wadd8(rd8(s, at), s.x);
            make16(rd8(s, ptr as u16), rd8(s, (((ptr + 1) as int % 256) as u16)))
        }),
        resolve_at(s, AddressingMode::Indirect_Y, at).0 == ({
            let base = rd8(s, at);
            wadd16(
                make16(rd8(s, base as u16), rd8(s, (((base + 1) as int % 256) as u16))),
                s.y as u16,
            )
        }),
{
    let ptr = wadd8(rd8(s, at), s.x);
    let base = rd8(s, at);
    assert(wadd8(ptr, 1) as int == (ptr + 1) as int % 256);
    assert(wadd8(base, 1) as int == (base + 1) as int % 256);
}

/// JMP indirect reproduces the hardware page bug: when the pointer's
/// low byte is `$FF`, the high byte of the target comes from the start
/// of the pointer's own page; for every other pointer the target is the
/// plain little-endian word behind it.
pub proof fn lemma_jmp_indirect_page_bug(s: CpuState)
    ensures
        rd16(s, s.pc) & 0x00FF == 0x00FF ==> jmp_indirect_spec(s).pc == make16(
            rd8(s, rd16(s, s.pc)),
            rd8(s, (rd16(s, s.pc) & 0xFF00) as u16),
        ),
        rd16(s, s.pc) & 0x00FF != 0x00FF ==> jmp_indirect_spec(s).pc == rd16(s, rd16(s, s.pc)),
{
}

/// A branch not taken changes nothing at all; a taken branch moves PC
/// to the offset target (one extra cycle, and one more when the target
/// lies in a different page than the instruction that follows) and
/// touches nothing else: no register, no flag, no memory.
pub proof fn lemma_branch(s: CpuState, cond: bool)
    ensures
        !cond ==> branch_spec(s, cond) == s,
        cond ==> branch_spec(s, cond).pc == wadd16(wadd16(s.pc, 1), sign_ext8(rd8(s, s.pc))),
        cond ==> branch_spec(s, cond).cycles == wadd64(
            s.cycles,
            if page_crossed(wadd16(s.pc, 1), wadd16(wadd16(s.pc, 1), sign_ext8(rd8(s, s.pc)))) {
                2
            } else {
                1
            },
        ),
        branch_spec(s, cond).a == s.a && branch_spec(s, cond).x == s.x && branch_spec(s, cond).y
            == s.y && branch_spec(s, cond).p == s.p && branch_spec(s, cond).sp == s.sp
            && branch_spec(s, cond).mem == s.mem,
{
}

/// Branch timing at the level of a whole instruction step, for each of
/// the eight branch opcodes: the step charges the base two cycles, plus
/// one when taken, plus one more when the taken branch crosses a page.
pub proof fn lemma_branch_step_cycles(s: CpuState, code: u8)
    requires
        rd8(s, s.pc) == code,
        code == 0xf0 || code == 0xd0 || code == 0x70 || code == 0x50 || code == 0x30 || code
            == 0x10 || code == 0xb0 || code == 0x90,
    ensures
        step_spec(s).cycles == wadd64(
            s.cycles,
            ({
                let taken = branch_taken(code, s.p);
                let next = wadd16(s.pc, 2);
                let target = wadd16(next, sign_ext8(rd8(s, wadd16(s.pc, 1))));
                if !taken {
                    2
                } else if page_crossed(next, target) {
                    4
                } else {
                    3
                }
            }),
        ),
{
    reveal(instr_spec);
}

/// DCP is DEC then CMP: for every state and mode, the operand is
/// decremented in memory and carry holds exactly when A is at least the
/// decremented value, with Z/N on the wrapping difference.
pub proof fn lemma_dcp(s: CpuState, mode: AddressingMode)
    ensures
        crate::state::dcp_spec(s, mode).mem == s.mem.update(
            operand(s, mode).0 as int,
            crate::bits::wsub8(rd8(s, operand(s, mode).0), 1),
        ),
        has_flags(crate::state::dcp_spec(s, mode).p, CARRY) <==> s.a >= crate::bits::wsub8(
            rd8(s, operand(s, mode).0),
            1,
        ),
{
    let d2 = crate::bits::wsub8(rd8(s, operand(s, mode).0), 1);
    let s2 = crate::state::wr8(s, operand(s, mode).0, d2);
    let p1 = if s2.a >= d2 { s2.p | CARRY } else { s2.p & !CARRY };
    lemma_zn_flags(p1, crate::bits::wsub8(s2.a, d2));
    lemma_carry_independent(s2.p);
}

/// Which of the branch opcodes is taken under status `p`.
pub open spec fn branch_taken(code: u8, p: u8) -> bool {
    match code {
        0xf0 => has_flags(p, ZERO),
        0xd0 => !has_flags(p, ZERO),
        0x70 => has_flags(p, OVERFLOW),
        0x50 => !has_flags(p, OVERFLOW),
        0x30 => has_flags(p, NEGATIVE),
        0x10 => !has_flags(p, NEGATIVE),
        0xb0 => has_flags(p, CARRY),
        _ => !has_flags(p, CARRY),
    }
}

/// What a load does besides timing: A takes the byte at the effective
/// address, Z and N reflect it, and X, Y, SP, PC and memory stay.
pub proof fn lemma_lda_loads(s: CpuState, mode: AddressingMode)
    ensures
        lda_spec(s, mode).a == rd8(s, operand(s, mode).0),
        has_flags(lda_spec(s, mode).p, ZERO) <==> rd8(s, operand(s, mode).0) == 0,
        has_flags(lda_spec(s, mode).p, NEGATIVE) <==> rd8(s, operand(s, mode).0) & 0x80 != 0,
        lda_spec(s, mode).x == s.x && lda_spec(s, mode).y == s.y && lda_spec(s, mode).sp == s.sp
            && lda_spec(s, mode).pc == s.pc && lda_spec(s, mode).mem == s.mem,
{
    lemma_zn_flags(s.p, rd8(s, operand(s, mode).0));
}

/// What a store does: the accumulator lands at the effective address,
/// and every register, every flag, all other memory and the clock stay
/// (no store ever pays a page-cross penalty).
pub proof fn lemma_sta_stores(s: CpuState, mode: AddressingMode)
    ensures
        sta_spec(s, mode).mem == s.mem.update(operand(s, mode).0 as int, s.a),
        sta_spec(s, mode).a == s.a && sta_spec(s, mode).x == s.x && sta_spec(s, mode).y == s.y
            && sta_spec(s, mode).p == s.p && sta_spec(s, mode).sp == s.sp && sta_spec(s, mode).pc
            == s.pc && sta_spec(s, mode).cycles == s.cycles,
{
}

/// Page-cross timing for the indexed modes: the read-type instructions
/// charge one extra cycle exactly when the effective address crossed a
/// page, and the store never charges it.
pub proof fn lemma_page_cross_penalty(s: CpuState, mode: AddressingMode, reg: u8)
    requires
        mode == AddressingMode::Absolute_X || mode == AddressingMode::Absolute_Y || mode
            == AddressingMode::Indirect_Y,
    ensures
        lda_spec(s, mode).cycles == wadd64(s.cycles, if operand(s, mode).1 { 1 } else { 0 }),
        ldx_spec(s, mode).cycles == wadd64(s.cycles, if operand(s, mode).1 { 1 } else { 0 }),
        ldy_spec(s, mode).cycles == wadd64(s.cycles, if operand(s, mode).1 { 1 } else { 0 }),
        adc_spec(s, mode).cycles == wadd64(s.cycles, if operand(s, mode).1 { 1 } else { 0 }),
        sbc_spec(s, mode).cycles == wadd64(s.cycles, if operand(s, mode).1 { 1 } else { 0 }),
        and_spec(s, mode).cycles == wadd64(s.cycles, if operand(s, mode).1 { 1 } else { 0 }),
        ora_spec(s, mode).cycles == wadd64(s.cycles, if operand(s, mode).1 { 1 } else { 0 }),
        eor_spec(s, mode).cycles == wadd64(s.cycles, if operand(s, mode).1 { 1 } else { 0 }),
        compare_spec(s, mode, reg).cycles == wadd64(
            s.cycles,
            if operand(s, mode).1 { 1 } else { 0 },
        ),
        nop_read_spec(s, mode).cycles == wadd64(s.cycles, if operand(s, mode).1 { 1 } else { 0 }),
        sta_spec(s, mode).cycles == s.cycles,
{
}

} // verus!
