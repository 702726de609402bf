//! The mathematical model of the processor: a record of the architectural
//! state (registers, flags, memory, cycle clock, interrupt latch) and spec
//! functions giving the exact effect of every addressing mode, instruction
//! and interrupt. The executable core in `cpu` is proved to follow these
//! functions step for step.
use vstd::prelude::*;

use crate::bits::{hi8, lo8, make16, sign_ext8, wadd16, wadd64, wadd8, wsub8};
use crate::cpu::{AddressingMode, BREAK, BREAK2, CARRY, DECIMAL_MODE, INTERRUPT_DISABLE,
    NEGATIVE, OVERFLOW, ZERO};
use crate::opcodes::{op_cycles, op_len, op_mode};

verus! {

/// The architectural state of the machine, as the contracts speak of it.
#[verifier::ext_equal]
pub struct CpuState {
    pub a: u8,
    pub x: u8,
    pub y: u8,
    pub p: u8,
    pub sp: u8,
    pub pc: u16,
    pub mem: Seq<u8>,
    pub cycles: u64,
    pub nmi: Option<u8>,
}

/// The byte at `addr`.
pub open spec fn rd8(s: CpuState, addr: u16) -> u8 {
    s.mem[addr as int]
}

/// The little-endian word at `addr`, the high byte read with a 16-bit wrap.
pub open spec fn rd16(s: CpuState, addr: u16) -> u16 {
    make16(rd8(s, addr), rd8(s, wadd16(addr, 1)))
}

/// The state with `data` stored at `addr`.
pub open spec fn wr8(s: CpuState, addr: u16, data: u8) -> CpuState {
    CpuState { mem: s.mem.update(addr as int, data), ..s }
}

/// The state with `n` cycles charged to the clock.
pub open spec fn tick(s: CpuState, n: u8) -> CpuState {
    CpuState { cycles: wadd64(s.cycles, n as u64), ..s }
}

/// `p` with the Zero and Negative flags set from `v`: Z iff `v` is zero,
/// N iff bit 7 of `v` is set.
pub open spec fn zn(p: u8, v: u8) -> u8 {
    let p1 = if v == 0 { p | ZERO } else { p & !ZERO };
    if v & 0x80 != 0 { p1 | NEGATIVE } else { p1 & !NEGATIVE }
}

/// `p` with only the Negative flag set from `v` (the memory forms of
/// ROL/ROR leave Z alone).
pub open spec fn n_only(p: u8, v: u8) -> u8 {
    if v & 0x80 != 0 { p | NEGATIVE } else { p & !NEGATIVE }
}

/// Whether every flag of `mask` is set in `p`.
pub open spec fn has_flags(p: u8, mask: u8) -> bool {
    p & mask == mask
}

/// The state with the accumulator loaded with `v` and Z/N updated.
pub open spec fn set_a(s: CpuState, v: u8) -> CpuState {
    CpuState { a: v, p: zn(s.p, v), ..s }
}

/// Whether `a` and `b` lie in different 256-byte pages.
pub open spec fn page_crossed(a: u16, b: u16) -> bool {
    a & 0xFF00 != b & 0xFF00
}

/// The effective address for `mode` with the operand bytes at `at`, plus
/// whether the indexed modes crossed a page. The zero-page indexed and
/// indirect modes wrap at the zero-page boundary; the absolute indexed
/// modes add in full 16 bits. For `NoneAddressing` the result is
/// meaningless (the executable resolver refuses that mode).
pub open spec fn resolve_at(s: CpuState, mode: AddressingMode, at: u16) -> (u16, bool) {
    match mode {
        AddressingMode::Immediate => (at, false),
        AddressingMode::ZeroPage => (rd8(s, at) as u16, false),
        AddressingMode::Absolute => (rd16(s, at), false),
        AddressingMode::ZeroPage_X => (wadd8(rd8(s, at), s.x) as u16, false),
        AddressingMode::ZeroPage_Y => (wadd8(rd8(s, at), s.y) as u16, false),
        AddressingMode::Absolute_X => {
            let base = rd16(s, at);
            let addr = wadd16(base, s.x as u16);
            (addr, page_crossed(base, addr))
        },
        AddressingMode::Absolute_Y => {
            let base = rd16(s, at);
            let addr = wadd16(base, s.y as u16);
            (addr, page_crossed(base, addr))
        },
        AddressingMode::Indirect_X => {
            let ptr = wadd8(rd8(s, at), s.x);
            (make16(rd8(s, ptr as u16), rd8(s, wadd8(ptr, 1) as u16)), false)
        },
        AddressingMode::Indirect_Y => {
            let base = rd8(s, at);
            let deref_base = make16(rd8(s, base as u16), rd8(s, wadd8(base, 1) as u16));
            let deref = wadd16(deref_base, s.y as u16);
            (deref, page_crossed(deref_base, deref))
        },
        AddressingMode::NoneAddressing => (0, false),
    }
}

/// The operand address for `mode`, with the operand bytes at the current
/// program counter.
pub open spec fn operand(s: CpuState, mode: AddressingMode) -> (u16, bool) {
    resolve_at(s, mode, s.pc)
}

/// One extra cycle if an indexed read crossed a page.
pub open spec fn cross_tick(s: CpuState, crossed: bool) -> CpuState {
    if crossed { tick(s, 1) } else { s }
}

// ---------------------------------------------------------------------
// Stack
// ---------------------------------------------------------------------

/// A byte pushed: stored at `$0100 | SP`, then SP decremented with wrap.
pub open spec fn push8(s: CpuState, v: u8) -> CpuState {
    let s1 = wr8(s, (0x0100 + s.sp as u16) as u16, v);
    CpuState { sp: wsub8(s.sp, 1), ..s1 }
}

/// A byte popped: SP incremented with wrap, then read from `$0100 | SP`.
pub open spec fn pop8(s: CpuState) -> (CpuState, u8) {
    let sp1 = wadd8(s.sp, 1);
    (CpuState { sp: sp1, ..s }, rd8(s, (0x0100 + sp1 as u16) as u16))
}

/// A word pushed high byte first, so the low byte ends on top.
pub open spec fn push16(s: CpuState, w: u16) -> CpuState {
    push8(push8(s, hi8(w)), lo8(w))
}

/// A word popped low byte first.
pub open spec fn pop16(s: CpuState) -> (CpuState, u16) {
    let (s1, lo) = pop8(s);
    let (s2, hi) = pop8(s1);
    (s2, make16(lo, hi))
}

// ---------------------------------------------------------------------
// Arithmetic and logic
// ---------------------------------------------------------------------

/// The carry-in bit of `p`.
pub open spec fn carry_in(p: u8) -> int {
    if has_flags(p, CARRY) { 1 } else { 0 }
}

/// ADC's effect with operand `v`: A takes the low byte of `A + v + C`,
/// carry out iff the sum exceeds 255, overflow iff the operand and the
/// old accumulator agree in sign and the result disagrees, Z/N from the
/// result.
pub open spec fn adc_value(s: CpuState, v: u8) -> CpuState {
    let sum = s.a + v + carry_in(s.p);
    let result = (sum % 256) as u8;
    let p1 = if sum > 0xFF { s.p | CARRY } else { s.p & !CARRY };
    let p2 = if (v ^ result) & (result ^ s.a) & 0x80 != 0 { p1 | OVERFLOW } else {
        p1 & !OVERFLOW
    };
    set_a(CpuState { p: p2, ..s }, result)
}

/// SBC is ADC of the complemented operand.
pub open spec fn sbc_value(s: CpuState, v: u8) -> CpuState {
    adc_value(s, !v)
}

pub open spec fn adc_spec(s: CpuState, mode: AddressingMode) -> CpuState {
    let (addr, crossed) = operand(s, mode);
    cross_tick(adc_value(s, rd8(s, addr)), crossed)
}

pub open spec fn sbc_spec(s: CpuState, mode: AddressingMode) -> CpuState {
    let (addr, crossed) = operand(s, mode);
    cross_tick(sbc_value(s, rd8(s, addr)), crossed)
}

pub open spec fn and_spec(s: CpuState, mode: AddressingMode) -> CpuState {
    let (addr, crossed) = operand(s, mode);
    cross_tick(set_a(s, s.a & rd8(s, addr)), crossed)
}

pub open spec fn eor_spec(s: CpuState, mode: AddressingMode) -> CpuState {
    let (addr, crossed) = operand(s, mode);
    cross_tick(set_a(s, s.a ^ rd8(s, addr)), crossed)
}

pub open spec fn ora_spec(s: CpuState, mode: AddressingMode) -> CpuState {
    let (addr, crossed) = operand(s, mode);
    cross_tick(set_a(s, s.a | rd8(s, addr)), crossed)
}

/// CMP/CPX/CPY against `reg`: carry iff `reg >= M`, Z/N on `reg - M`
/// modulo 256.
pub open spec fn compare_spec(s: CpuState, mode: AddressingMode, reg: u8) -> CpuState {
    let (addr, crossed) = operand(s, mode);
    let data = rd8(s, addr);
    let p1 = if reg >= data { s.p | CARRY } else { s.p & !CARRY };
    cross_tick(CpuState { p: zn(p1, wsub8(reg, data)), ..s }, crossed)
}

/// BIT: Z from `A & M`, N from bit 7 of `M`, V from bit 6 of `M`.
pub open spec fn bit_spec(s: CpuState, mode: AddressingMode) -> CpuState {
    let (addr, crossed) = operand(s, mode);
    let data = rd8(s, addr);
    let p1 = if s.a & data == 0 { s.p | ZERO } else { s.p & !ZERO };
    let p2 = if data & 0x80 != 0 { p1 | NEGATIVE } else { p1 & !NEGATIVE };
    let p3 = if data & 0x40 != 0 { p2 | OVERFLOW } else { p2 & !OVERFLOW };
    CpuState { p: p3, ..s }
}

// ---------------------------------------------------------------------
// Loads, stores, transfers
// ---------------------------------------------------------------------

pub open spec fn lda_spec(s: CpuState, mode: AddressingMode) -> CpuState {
    let (addr, crossed) = operand(s, mode);
    cross_tick(set_a(s, rd8(s, addr)), crossed)
}

pub open spec fn ldx_spec(s: CpuState, mode: AddressingMode) -> CpuState {
    let (addr, crossed) = operand(s, mode);
    let v = rd8(s, addr);
    cross_tick(CpuState { x: v, p: zn(s.p, v), ..s }, crossed)
}

pub open spec fn ldy_spec(s: CpuState, mode: AddressingMode) -> CpuState {
    let (addr, crossed) = operand(s, mode);
    let v = rd8(s, addr);
    cross_tick(CpuState { y: v, p: zn(s.p, v), ..s }, crossed)
}

pub open spec fn tax_spec(s: CpuState) -> CpuState {
    CpuState { x: s.a, p: zn(s.p, s.a), ..s }
}

/// LAX loads A and X together (no page-cross penalty in this core).
pub open spec fn lax_spec(s: CpuState, mode: AddressingMode) -> CpuState {
    let (addr, crossed) = operand(s, mode);
    tax_spec(set_a(s, rd8(s, addr)))
}

pub open spec fn sta_spec(s: CpuState, mode: AddressingMode) -> CpuState {
    let (addr, crossed) = operand(s, mode);
    wr8(s, addr, s.a)
}

pub open spec fn stx_spec(s: CpuState, mode: AddressingMode) -> CpuState {
    let (addr, crossed) = operand(s, mode);
    wr8(s, addr, s.x)
}

pub open spec fn sty_spec(s: CpuState, mode: AddressingMode) -> CpuState {
    let (addr, crossed) = operand(s, mode);
    wr8(s, addr, s.y)
}

pub open spec fn sax_spec(s: CpuState, mode: AddressingMode) -> CpuState {
    let (addr, crossed) = operand(s, mode);
    wr8(s, addr, s.a & s.x)
}

// ---------------------------------------------------------------------
// Shifts and rotates
// ---------------------------------------------------------------------

pub open spec fn asl_acc_spec(s: CpuState) -> CpuState {
    let d = s.a;
    let p1 = if d & 0x80 != 0 { s.p | CARRY } else { s.p & !CARRY };
    set_a(CpuState { p: p1, ..s }, d << 1)
}

pub open spec fn asl_spec(s: CpuState, mode: AddressingMode) -> (CpuState, u8) {
    let (addr, crossed) = operand(s, mode);
    let d = rd8(s, addr);
    let p1 = if d & 0x80 != 0 { s.p | CARRY } else { s.p & !CARRY };
    let d2 = d << 1;
    let s2 = wr8(CpuState { p: p1, ..s }, addr, d2);
    (CpuState { p: zn(s2.p, d2), ..s2 }, d2)
}

pub open spec fn lsr_acc_spec(s: CpuState) -> CpuState {
    let d = s.a;
    let p1 = if d & 1 != 0 { s.p | CARRY } else { s.p & !CARRY };
    set_a(CpuState { p: p1, ..s }, d >> 1)
}

pub open spec fn lsr_spec(s: CpuState, mode: AddressingMode) -> (CpuState, u8) {
    let (addr, crossed) = operand(s, mode);
    let d = rd8(s, addr);
    let p1 = if d & 1 != 0 { s.p | CARRY } else { s.p & !CARRY };
    let d2 = d >> 1;
    let s2 = wr8(CpuState { p: p1, ..s }, addr, d2);
    (CpuState { p: zn(s2.p, d2), ..s2 }, d2)
}

pub open spec fn rol_acc_spec(s: CpuState) -> CpuState {
    let d = s.a;
    let carry_bit: u8 = if has_flags(s.p, CARRY) { 1 } else { 0 };
    let p1 = if d & 0x80 != 0 { s.p | CARRY } else { s.p & !CARRY };
    set_a(CpuState { p: p1, ..s }, (d << 1) | carry_bit)
}

/// The memory form of ROL updates only N on the stored value; Z is
/// left alone, a quirk this core keeps for log compatibility.
pub open spec fn rol_spec(s: CpuState, mode: AddressingMode) -> (CpuState, u8) {
    let (addr, crossed) = operand(s, mode);
    let d = rd8(s, addr);
    let carry_bit: u8 = if has_flags(s.p, CARRY) { 1 } else { 0 };
    let p1 = if d & 0x80 != 0 { s.p | CARRY } else { s.p & !CARRY };
    let d2 = (d << 1) | carry_bit;
    let s2 = wr8(CpuState { p: p1, ..s }, addr, d2);
    (CpuState { p: n_only(s2.p, d2), ..s2 }, d2)
}

pub open spec fn ror_acc_spec(s: CpuState) -> CpuState {
    let d = s.a;
    let carry_bit: u8 = if has_flags(s.p, CARRY) { 0x80 } else { 0 };
    let p1 = if d & 1 != 0 { s.p | CARRY } else { s.p & !CARRY };
    set_a(CpuState { p: p1, ..s }, (d >> 1) | carry_bit)
}

/// The memory form of ROR updates only N, as with ROL.
pub open spec fn ror_spec(s: CpuState, mode: AddressingMode) -> (CpuState, u8) {
    let (addr, crossed) = operand(s, mode);
    let d = rd8(s, addr);
    let carry_bit: u8 = if has_flags(s.p, CARRY) { 0x80 } else { 0 };
    let p1 = if d & 1 != 0 { s.p | CARRY } else { s.p & !CARRY };
    let d2 = (d >> 1) | carry_bit;
    let s2 = wr8(CpuState { p: p1, ..s }, addr, d2);
    (CpuState { p: n_only(s2.p, d2), ..s2 }, d2)
}

// ---------------------------------------------------------------------
// Increment, decrement
// ---------------------------------------------------------------------

pub open spec fn inc_spec(s: CpuState, mode: AddressingMode) -> (CpuState, u8) {
    let (addr, crossed) = operand(s, mode);
    let d2 = wadd8(rd8(s, addr), 1);
    let s2 = wr8(s, addr, d2);
    (CpuState { p: zn(s2.p, d2), ..s2 }, d2)
}

pub open spec fn dec_spec(s: CpuState, mode: AddressingMode) -> (CpuState, u8) {
    let (addr, crossed) = operand(s, mode);
    let d2 = wsub8(rd8(s, addr), 1);
    let s2 = wr8(s, addr, d2);
    (CpuState { p: zn(s2.p, d2), ..s2 }, d2)
}

pub open spec fn inx_spec(s: CpuState) -> CpuState {
    let v = wadd8(s.x, 1);
    CpuState { x: v, p: zn(s.p, v), ..s }
}

pub open spec fn iny_spec(s: CpuState) -> CpuState {
    let v = wadd8(s.y, 1);
    CpuState { y: v, p: zn(s.p, v), ..s }
}

pub open spec fn dex_spec(s: CpuState) -> CpuState {
    let v = wsub8(s.x, 1);
    CpuState { x: v, p: zn(s.p, v), ..s }
}

pub open spec fn dey_spec(s: CpuState) -> CpuState {
    let v = wsub8(s.y, 1);
    CpuState { y: v, p: zn(s.p, v), ..s }
}

// ---------------------------------------------------------------------
// Control flow
// ---------------------------------------------------------------------

pub open spec fn jmp_spec(s: CpuState) -> CpuState {
    CpuState { pc: rd16(s, s.pc), ..s }
}

/// JMP indirect, with the hardware page-boundary bug: a pointer whose low
/// byte is `$FF` fetches its high byte from the start of the same page.
pub open spec fn jmp_indirect_spec(s: CpuState) -> CpuState {
    let ptr = rd16(s, s.pc);
    let target = if ptr & 0x00FF == 0x00FF {
        make16(rd8(s, ptr), rd8(s, (ptr & 0xFF00) as u16))
    } else {
        rd16(s, ptr)
    };
    CpuState { pc: target, ..s }
}

/// JSR pushes the address of the last byte of the instruction, then reads
/// the target from the (possibly just overwritten) operand bytes.
pub open spec fn jsr_spec(s: CpuState) -> CpuState {
    let s1 = push16(s, wadd16(s.pc, 1));
    CpuState { pc: rd16(s1, s.pc), ..s1 }
}

pub open spec fn rts_spec(s: CpuState) -> CpuState {
    let (s1, w) = pop16(s);
    CpuState { pc: wadd16(w, 1), ..s1 }
}

/// RTI pops P (with B cleared and the unused bit forced on), then PC.
pub open spec fn rti_spec(s: CpuState) -> CpuState {
    let (s1, v) = pop8(s);
    let s2 = CpuState { p: (v & !BREAK) | BREAK2, ..s1 };
    let (s3, w) = pop16(s2);
    CpuState { pc: w, ..s3 }
}

/// A conditional branch: if taken it costs one extra cycle, and one more
/// when the target lies in a different page than the next instruction.
pub open spec fn branch_spec(s: CpuState, cond: bool) -> CpuState {
    if cond {
        let s1 = tick(s, 1);
        let target = wadd16(wadd16(s.pc, 1), sign_ext8(rd8(s, s.pc)));
        let s2 = if page_crossed(wadd16(s.pc, 1), target) { tick(s1, 1) } else { s1 };
        CpuState { pc: target, ..s2 }
    } else {
        s
    }
}

pub open spec fn php_spec(s: CpuState) -> CpuState {
    push8(s, s.p | BREAK | BREAK2)
}

pub open spec fn plp_spec(s: CpuState) -> CpuState {
    let (s1, v) = pop8(s);
    CpuState { p: (v & !BREAK) | BREAK2, ..s1 }
}

pub open spec fn pha_spec(s: CpuState) -> CpuState {
    push8(s, s.a)
}

pub open spec fn pla_spec(s: CpuState) -> CpuState {
    let (s1, v) = pop8(s);
    set_a(s1, v)
}

// ---------------------------------------------------------------------
// Remaining unofficial instructions
// ---------------------------------------------------------------------

/// DCP is DEC then CMP: memory is decremented with wrap, then compared
/// against A, so carry holds exactly when A is at least the decremented
/// value, and Z/N reflect their wrapping difference.
pub open spec fn dcp_spec(s: CpuState, mode: AddressingMode) -> CpuState {
    let (addr, crossed) = operand(s, mode);
    let d2 = wsub8(rd8(s, addr), 1);
    let s2 = wr8(s, addr, d2);
    let p1 = if s2.a >= d2 { s2.p | CARRY } else { s2.p & !CARRY };
    CpuState { p: zn(p1, wsub8(s2.a, d2)), ..s2 }
}

/// AXS in this core masks X with Y (not A with X) before subtracting.
pub open spec fn axs_spec(s: CpuState, mode: AddressingMode) -> CpuState {
    let (addr, crossed) = operand(s, mode);
    let data = rd8(s, addr);
    let x2 = wsub8(s.x & s.y, data);
    let p1 = if data <= x2 { s.p | CARRY } else { s.p & !CARRY };
    CpuState { x: x2, p: zn(p1, x2), ..s }
}

/// ARR: AND then rotate right through carry, with C from bit 6 and V from
/// bits 5 and 6 of the result.
pub open spec fn arr_spec(s: CpuState, mode: AddressingMode) -> CpuState {
    let (addr, crossed) = operand(s, mode);
    let s2 = ror_acc_spec(set_a(s, s.a & rd8(s, addr)));
    let result = s2.a;
    let bit_5 = (result >> 5) & 1;
    let bit_6 = (result >> 6) & 1;
    let p1 = if bit_6 == 1 { s2.p | CARRY } else { s2.p & !CARRY };
    let p2 = if bit_5 ^ bit_6 == 1 { p1 | OVERFLOW } else { p1 & !OVERFLOW };
    CpuState { p: zn(p2, result), ..s2 }
}

pub open spec fn alr_spec(s: CpuState, mode: AddressingMode) -> CpuState {
    let (addr, crossed) = operand(s, mode);
    lsr_acc_spec(set_a(s, rd8(s, addr) & s.a))
}

/// ANC: AND, then copy N into C.
pub open spec fn anc_spec(s: CpuState, mode: AddressingMode) -> CpuState {
    let (addr, crossed) = operand(s, mode);
    let s2 = set_a(s, s.a & rd8(s, addr));
    if has_flags(s2.p, NEGATIVE) {
        CpuState { p: s2.p | CARRY, ..s2 }
    } else {
        CpuState { p: s2.p & !CARRY, ..s2 }
    }
}

pub open spec fn lxa_spec(s: CpuState, mode: AddressingMode) -> CpuState {
    let (addr, crossed) = operand(s, mode);
    tax_spec(set_a(s, rd8(s, addr) & s.a))
}

/// LAS: memory AND SP into A, X and SP.
pub open spec fn las_spec(s: CpuState, mode: AddressingMode) -> CpuState {
    let (addr, crossed) = operand(s, mode);
    let result = rd8(s, addr) & s.sp;
    CpuState { a: result, x: result, sp: result, p: zn(s.p, result), ..s }
}

/// TAS: SP takes A AND X; memory at the indexed target takes SP masked
/// with the high byte of the target plus one.
pub open spec fn tas_spec(s: CpuState) -> CpuState {
    let sp2 = s.a & s.x;
    let s1 = CpuState { sp: sp2, ..s };
    let addr = wadd16(rd16(s1, s1.pc), s1.y as u16);
    wr8(s1, addr, wadd8(hi8(addr), 1) & sp2)
}

/// XAA: copy X to A (updating Z/N), then AND with the immediate operand.
pub open spec fn xaa_spec(s: CpuState, mode: AddressingMode) -> CpuState {
    let s1 = CpuState { a: s.x, p: zn(s.p, s.x), ..s };
    let (addr, crossed) = operand(s1, mode);
    set_a(s1, s1.a & rd8(s1, addr))
}

/// AHX with a zero-page pointer: store A AND X AND the high byte of the
/// target.
pub open spec fn ahx_indirect_y_spec(s: CpuState) -> CpuState {
    let pos = rd8(s, s.pc);
    let addr = wadd16(rd16(s, pos as u16), s.y as u16);
    wr8(s, addr, s.a & s.x & hi8(addr))
}

pub open spec fn ahx_absolute_y_spec(s: CpuState) -> CpuState {
    let addr = wadd16(rd16(s, s.pc), s.y as u16);
    wr8(s, addr, s.a & s.x & hi8(addr))
}

/// SHX: store X masked with the target's high byte plus one.
pub open spec fn shx_spec(s: CpuState) -> CpuState {
    let addr = wadd16(rd16(s, s.pc), s.y as u16);
    wr8(s, addr, s.x & wadd8(hi8(addr), 1))
}

/// SHY: store Y masked with the target's high byte plus one.
pub open spec fn shy_spec(s: CpuState) -> CpuState {
    let addr = wadd16(rd16(s, s.pc), s.x as u16);
    wr8(s, addr, s.y & wadd8(hi8(addr), 1))
}

/// A two- or three-byte NOP that still reads its operand and pays the
/// page-cross penalty.
pub open spec fn nop_read_spec(s: CpuState, mode: AddressingMode) -> CpuState {
    let (addr, crossed) = operand(s, mode);
    cross_tick(s, crossed)
}

// ---------------------------------------------------------------------
// Interrupts and the instruction step
// ---------------------------------------------------------------------

/// Servicing a non-maskable interrupt: push PC, push P with B clear and
/// the unused bit set, set the interrupt-disable flag, charge two cycles,
/// jump through the vector at `$FFFA`.
pub open spec fn nmi_spec(s: CpuState) -> CpuState {
    let s1 = push16(s, s.pc);
    let s2 = push8(s1, (s1.p & !BREAK) | BREAK2);
    let s3 = tick(CpuState { p: s2.p | INTERRUPT_DISABLE, ..s2 }, 2);
    CpuState { pc: rd16(s3, 0xFFFA), ..s3 }
}

/// The semantic effect of the instruction with opcode `code`, starting
/// from the state just after the opcode fetch (PC already past the opcode
/// byte). Cycle charging of the base cycles and the length-based PC
/// advance are handled by `step_spec`. Marked opaque so that reasoning
/// about a whole step with a symbolic opcode stays tractable; the
/// dispatch proofs reveal it.
#[verifier::opaque]
pub open spec fn instr_spec(s: CpuState, code: u8) -> CpuState {
    let mode = op_mode(code);
    match code {
        0x69 | 0x65 | 0x75 | 0x6d | 0x7d | 0x79 | 0x61 | 0x71 => adc_spec(s, mode),
        0xe9 | 0xe5 | 0xf5 | 0xed | 0xfd | 0xf9 | 0xe1 | 0xf1 | 0xeb => sbc_spec(s, mode),
        0x29 | 0x25 | 0x35 | 0x2d | 0x3d | 0x39 | 0x21 | 0x31 => and_spec(s, mode),
        0x49 | 0x45 | 0x55 | 0x4d | 0x5d | 0x59 | 0x41 | 0x51 => eor_spec(s, mode),
        0x09 | 0x05 | 0x15 | 0x0d | 0x1d | 0x19 | 0x01 | 0x11 => ora_spec(s, mode),
        0xc9 | 0xc5 | 0xd5 | 0xcd | 0xdd | 0xd9 | 0xc1 | 0xd1 => compare_spec(s, mode, s.a),
        0xc0 | 0xc4 | 0xcc => compare_spec(s, mode, s.y),
        0xe0 | 0xe4 | 0xec => compare_spec(s, mode, s.x),
        0x24 | 0x2c => bit_spec(s, mode),
        0x4c => jmp_spec(s),
        0x6c => jmp_indirect_spec(s),
        0x20 => jsr_spec(s),
        0x60 => rts_spec(s),
        0x40 => rti_spec(s),
        0xf0 => branch_spec(s, has_flags(s.p, ZERO)),
        0xd0 => branch_spec(s, !has_flags(s.p, ZERO)),
        0x70 => branch_spec(s, has_flags(s.p, OVERFLOW)),
        0x50 => branch_spec(s, !has_flags(s.p, OVERFLOW)),
        0x30 => branch_spec(s, has_flags(s.p, NEGATIVE)),
        0x10 => branch_spec(s, !has_flags(s.p, NEGATIVE)),
        0xb0 => branch_spec(s, has_flags(s.p, CARRY)),
        0x90 => branch_spec(s, !has_flags(s.p, CARRY)),
        0xa9 | 0xa5 | 0xb5 | 0xad | 0xbd | 0xb9 | 0xa1 | 0xb1 => lda_spec(s, mode),
        0xa2 | 0xa6 | 0xb6 | 0xae | 0xbe => ldx_spec(s, mode),
        0xa0 | 0xa4 | 0xb4 | 0xac | 0xbc => ldy_spec(s, mode),
        0xa7 | 0xb7 | 0xaf | 0xbf | 0xa3 | 0xb3 => lax_spec(s, mode),
        0x85 | 0x95 | 0x8d | 0x9d | 0x99 | 0x81 | 0x91 => sta_spec(s, mode),
        0x86 | 0x96 | 0x8e => stx_spec(s, mode),
        0x84 | 0x94 | 0x8c => sty_spec(s, mode),
        0x87 | 0x97 | 0x8f | 0x83 => sax_spec(s, mode),
        0x0a => asl_acc_spec(s),
        0x06 | 0x16 | 0x0e | 0x1e => asl_spec(s, mode).0,
        0x4a => lsr_acc_spec(s),
        0x46 | 0x56 | 0x4e | 0x5e => lsr_spec(s, mode).0,
        0x2a => rol_acc_spec(s),
        0x26 | 0x36 | 0x2e | 0x3e => rol_spec(s, mode).0,
        0x6a => ror_acc_spec(s),
        0x66 | 0x76 | 0x6e | 0x7e => ror_spec(s, mode).0,
        0xe6 | 0xf6 | 0xee | 0xfe => inc_spec(s, mode).0,
        0xe8 => inx_spec(s),
        0xc8 => iny_spec(s),
        0xc6 | 0xd6 | 0xce | 0xde => dec_spec(s, mode).0,
        0xca => dex_spec(s),
        0x88 => dey_spec(s),
        0xaa => tax_spec(s),
        0xa8 => CpuState { y: s.a, p: zn(s.p, s.a), ..s },
        // TXA and TYA set the flags twice over the same value, as the
        // executor does; the second update changes nothing.
        0x8a => set_a(set_a(s, s.x), s.x),
        0x98 => set_a(set_a(s, s.y), s.y),
        0xba => CpuState { x: s.sp, p: zn(s.p, s.sp), ..s },
        0x9a => CpuState { sp: s.x, ..s },
        0x48 => pha_spec(s),
        0x68 => pla_spec(s),
        0x08 => php_spec(s),
        0x28 => plp_spec(s),
        0xf8 => CpuState { p: s.p | DECIMAL_MODE, ..s },
        0xd8 => CpuState { p: s.p & !DECIMAL_MODE, ..s },
        0x78 => CpuState { p: s.p | INTERRUPT_DISABLE, ..s },
        0x58 => CpuState { p: s.p & !INTERRUPT_DISABLE, ..s },
        0x38 => CpuState { p: s.p | CARRY, ..s },
        0x18 => CpuState { p: s.p & !CARRY, ..s },
        0xb8 => CpuState { p: s.p & !OVERFLOW, ..s },
        0x04 | 0x44 | 0x64 | 0x14 | 0x34 | 0x54 | 0x74 | 0xd4 | 0xf4 | 0x0c | 0x1c | 0x3c
            | 0x5c | 0x7c | 0xdc | 0xfc => nop_read_spec(s, mode),
        0xc7 | 0xd7 | 0xcf | 0xdf | 0xdb | 0xd3 | 0xc3 => dcp_spec(s, mode),
        0x27 | 0x37 | 0x2f | 0x3f | 0x3b | 0x33 | 0x23 => {
            let (s2, d) = rol_spec(s, mode);
            set_a(s2, d & s2.a)
        },
        0x67 | 0x77 | 0x6f | 0x7f | 0x7b | 0x63 | 0x73 => {
            let (s2, d) = ror_spec(s, mode);
            adc_value(s2, d)
        },
        0x07 | 0x17 | 0x0f | 0x1f | 0x1b | 0x03 | 0x13 => {
            let (s2, d) = asl_spec(s, mode);
            set_a(s2, d | s2.a)
        },
        0x47 | 0x57 | 0x4f | 0x5f | 0x5b | 0x43 | 0x53 => {
            let (s2, d) = lsr_spec(s, mode);
            set_a(s2, d ^ s2.a)
        },
        0xe7 | 0xf7 | 0xef | 0xff | 0xfb | 0xe3 | 0xf3 => {
            let (s2, d) = inc_spec(s, mode);
            sbc_value(s2, d)
        },
        0xcb => axs_spec(s, mode),
        0x6b => arr_spec(s, mode),
        0x4b => alr_spec(s, mode),
        0x0b | 0x2b => anc_spec(s, mode),
        0xab => lxa_spec(s, mode),
        0x8b => xaa_spec(s, mode),
        0xbb => las_spec(s, mode),
        0x9b => tas_spec(s),
        0x93 => ahx_indirect_y_spec(s),
        0x9f => ahx_absolute_y_spec(s),
        0x9e => shx_spec(s),
        0x9c => shy_spec(s),
        _ => s,
    }
}

/// One full instruction step: fetch the opcode, advance PC past it, stop
/// on BRK, otherwise run the instruction, charge its base cycles and, if
/// the instruction left PC alone, advance PC over the operand bytes.
pub open spec fn step_spec(s: CpuState) -> CpuState {
    let code = rd8(s, s.pc);
    let s1 = CpuState { pc: wadd16(s.pc, 1), ..s };
    if code == 0x00 {
        s1
    } else {
        let s2 = instr_spec(s1, code);
        let s3 = tick(s2, op_cycles(code));
        if s2.pc == s1.pc {
            CpuState { pc: wadd16(s3.pc, (op_len(code) - 1) as u16), ..s3 }
        } else {
            s3
        }
    }
}

/// The state after interrupt service at the top of a run-loop iteration:
/// a latched non-maskable interrupt is taken (and the latch cleared)
/// before anything is fetched.
pub open spec fn serviced(s: CpuState) -> CpuState {
    if s.nmi.is_some() {
        nmi_spec(CpuState { nmi: None, ..s })
    } else {
        s
    }
}

/// The opcode byte a run-loop iteration starting from `s` fetches, after
/// interrupt service.
pub open spec fn fetch_byte(s: CpuState) -> u8 {
    rd8(serviced(s), serviced(s).pc)
}

/// One iteration of the run loop: interrupt service, then one
/// instruction step.
pub open spec fn run_step_spec(s: CpuState) -> CpuState {
    step_spec(serviced(s))
}

/// `n` iterations of the run loop.
pub open spec fn runs(s: CpuState, n: nat) -> CpuState
    decreases n,
{
    if n == 0 {
        s
    } else {
        run_step_spec(runs(s, (n - 1) as nat))
    }
}

/// Whether `t` is where a run starting from `s` stops: every iteration
/// before the `n`-th fetched a non-BRK opcode, and either the `n`-th
/// fetch read BRK and `t` is the state just past it, or the whole
/// 2^64 - 1 instruction budget was spent and `t` is the state after it.
pub open spec fn run_outcome(s: CpuState, t: CpuState, n: nat) -> bool {
    &&& forall|m: nat| m < n ==> fetch_byte(#[trigger] runs(s, m)) != 0
    &&& {
        ||| (fetch_byte(runs(s, n)) == 0 && t == runs(s, n + 1))
        ||| (n == u64::MAX as nat && t == runs(s, n))
    }
}

/// `mem` with `data` written starting at `base`.
pub open spec fn store_seq(mem: Seq<u8>, base: int, data: Seq<u8>) -> Seq<u8> {
    Seq::new(mem.len(), |i: int| if base <= i < base + data.len() { data[i - base] } else {
        mem[i]
    })
}

/// The reset state: registers cleared, P at its reset value, SP at `$FD`,
/// PC loaded from the vector at `$FFFC`.
pub open spec fn reset_spec(s: CpuState) -> CpuState {
    CpuState { a: 0, x: 0, y: 0, p: 0b100100, sp: 0xfd, pc: rd16(s, 0xFFFC), ..s }
}

/// The state a hosted program starts from: the program stored at `$0600`,
/// the machine reset, and PC forced to `$0600`.
pub open spec fn start_spec(s: CpuState, program: Seq<u8>) -> CpuState {
    let loaded = CpuState { mem: store_seq(s.mem, 0x0600, program), ..s };
    CpuState { pc: 0x0600, ..reset_spec(loaded) }
}

} // verus!
