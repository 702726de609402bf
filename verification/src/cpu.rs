//! The processor core: registers, the status flag set, the addressing-mode
//! resolver, and the instruction executor, all proved to follow the
//! transition functions in `state`.
use vstd::prelude::*;

use crate::bits::{lemma_and_ff_bound, lemma_shr8_bound, lemma_sign_ext8, lemma_u16_as_u8,
    make16, wadd16};
use crate::bus::Bus;
use crate::opcodes::{opcode_for, OpCode};
use crate::state::{adc_value, alr_spec, anc_spec, arr_spec, asl_acc_spec, asl_spec, axs_spec,
    bit_spec, branch_spec, compare_spec, CpuState, dcp_spec, dec_spec, dex_spec, dey_spec,
    fetch_byte, has_flags, inc_spec, instr_spec, inx_spec, iny_spec, jmp_indirect_spec,
    jmp_spec, jsr_spec,
    las_spec, lax_spec, lda_spec, ldx_spec, ldy_spec, lsr_acc_spec, lsr_spec, lxa_spec, n_only,
    nmi_spec, operand, php_spec, plp_spec, pop16, pop8, push16, push8, rd8, resolve_at,
    rol_acc_spec, rol_spec, ror_acc_spec, ror_spec, rti_spec, run_step_spec, runs, sax_spec,
    set_a, sta_spec, step_spec, store_seq, stx_spec, sty_spec, tas_spec, tax_spec, zn};

verus! {

pub const CARRY: u8 = 0b0000_0001;

pub const ZERO: u8 = 0b0000_0010;

pub const INTERRUPT_DISABLE: u8 = 0b0000_0100;

pub const DECIMAL_MODE: u8 = 0b0000_1000;

pub const BREAK: u8 = 0b0001_0000;

pub const BREAK2: u8 = 0b0010_0000;

pub const OVERFLOW: u8 = 0b0100_0000;

pub const NEGATIVE: u8 = 0b1000_0000;

pub const STACK: u16 = 0x0100;

pub const STACK_RESET: u8 = 0xfd;

/// The processor status register: a set of eight flags over one byte.
#[derive(Clone, Copy, PartialEq, Eq, Structural, Debug)]
pub struct CpuFlags {
    pub bits: u8,
}

impl CpuFlags {
    pub fn from_bits_truncate(bits: u8) -> (r: CpuFlags)
        ensures
            r.bits == bits,
    {
        CpuFlags { bits }
    }

    /// Whether every flag of `mask` is set.
    pub fn contains(&self, mask: u8) -> (r: bool)
        ensures
            r == has_flags(self.bits, mask),
    {
        self.bits & mask == mask
    }

    pub fn insert(&mut self, mask: u8)
        ensures
            final(self).bits == old(self).bits | mask,
    {
        self.bits = self.bits | mask;
    }

    pub fn remove(&mut self, mask: u8)
        ensures
            final(self).bits == old(self).bits & !mask,
    {
        self.bits = self.bits & !mask;
    }

    pub fn set(&mut self, mask: u8, value: bool)
        ensures
            final(self).bits == (if value { old(self).bits | mask } else { old(self).bits & !mask }),
    {
        if value {
            self.insert(mask);
        } else {
            self.remove(mask);
        }
    }

    pub fn bits(&self) -> (r: u8)
        ensures
            r == self.bits,
    {
        self.bits
    }
}

#[allow(non_camel_case_types)]
#[derive(Clone, Copy, Debug)]
pub enum AddressingMode {
    Immediate,
    ZeroPage,
    ZeroPage_X,
    ZeroPage_Y,
    Absolute,
    Absolute_X,
    Absolute_Y,
    Indirect_X,
    Indirect_Y,
    NoneAddressing,
}

/// The kinds of hardware interrupt this core services.
#[derive(Clone, Copy, PartialEq, Eq)]
pub enum InterruptType {
    NMI,
}

/// The memory interface the processor exposes to a host: byte and
/// little-endian word access, described through the `mem_view` of the
/// implementor.
pub trait Mem {
    spec fn mem_view(&self) -> Seq<u8>;

    fn mem_read(&mut self, addr: u16) -> (r: u8)
        ensures
            final(self).mem_view() == old(self).mem_view(),
            r == old(self).mem_view()[addr as int],
    ;

    fn mem_write(&mut self, addr: u16, data: u8)
        ensures
            final(self).mem_view() == old(self).mem_view().update(addr as int, data),
    ;

    fn mem_read_u16(&mut self, pos: u16) -> (r: u16)
        ensures
            final(self).mem_view() == old(self).mem_view(),
            r == make16(
                old(self).mem_view()[pos as int],
                old(self).mem_view()[wadd16(pos, 1) as int],
            ),
    ;

    fn mem_write_u16(&mut self, pos: u16, data: u16)
        ensures
            final(self).mem_view() == old(self).mem_view().update(
                pos as int,
                (data & 0xFF) as u8,
            ).update(wadd16(pos, 1) as int, (data >> 8) as u8),
    ;
}

pub struct CPU {
    pub register_a: u8,
    pub register_x: u8,
    pub register_y: u8,
    pub status: CpuFlags,
    pub program_counter: u16,
    pub stack_pointer: u8,
    pub bus: Bus,
}

impl View for CPU {
    type V = CpuState;

    open spec fn view(&self) -> CpuState {
        CpuState {
            a: self.register_a,
            x: self.register_x,
            y: self.register_y,
            p: self.status.bits,
            sp: self.stack_pointer,
            pc: self.program_counter,
            mem: self.bus.memory@,
            cycles: self.bus.cycles,
            nmi: self.bus.nmi_interrupt,
        }
    }
}

impl Mem for CPU {
    open spec fn mem_view(&self) -> Seq<u8> {
        self.bus.memory@
    }

    fn mem_read(&mut self, addr: u16) -> (r: u8) {
        self.bus.mem_read(addr)
    }

    fn mem_write(&mut self, addr: u16, data: u8) {
        self.bus.mem_write(addr, data);
    }

    fn mem_read_u16(&mut self, pos: u16) -> (r: u16) {
        self.bus.mem_read_u16(pos)
    }

    fn mem_write_u16(&mut self, pos: u16, data: u16) {
        self.bus.mem_write_u16(pos, data);
    }
}

/// Whether two addresses lie in different 256-byte pages.
fn page_cross(addr1: u16, addr2: u16) -> (r: bool)
    ensures
        r == crate::state::page_crossed(addr1, addr2),
{
    addr1 & 0xFF00 != addr2 & 0xFF00
}

impl CPU {
    /// A processor wired to `bus`, in the reset register state except that
    /// PC is zero.
    pub fn new(bus: Bus) -> (r: CPU)
        ensures
            r.register_a == 0,
            r.register_x == 0,
            r.register_y == 0,
            r.status.bits == 0b100100,
            r.program_counter == 0,
            r.stack_pointer == STACK_RESET,
            r.bus == bus,
    {
        CPU {
            register_a: 0,
            register_x: 0,
            register_y: 0,
            status: CpuFlags::from_bits_truncate(0b100100),
            program_counter: 0,
            stack_pointer: STACK_RESET,
            bus,
        }
    }

    /// The effective address for `mode` with the operand bytes at `addr`,
    /// and whether an indexed mode crossed a page.
    pub fn get_absolute_address(&mut self, mode: &AddressingMode, addr: u16) -> (r: (u16, bool))
        requires
            *mode != AddressingMode::NoneAddressing,
        ensures
            *final(self) == *old(self),
            r == resolve_at(old(self)@, *mode, addr),
    {
        match mode {
            AddressingMode::Immediate => (addr, false),
            AddressingMode::ZeroPage => (self.bus.mem_read(addr) as u16, false),
            AddressingMode::Absolute => (self.bus.mem_read_u16(addr), false),
            AddressingMode::ZeroPage_X => {
                let pos = self.bus.mem_read(addr);
                (pos.wrapping_add(self.register_x) as u16, false)
            },
            AddressingMode::ZeroPage_Y => {
                let pos = self.bus.mem_read(addr);
                (pos.wrapping_add(self.register_y) as u16, false)
            },
            AddressingMode::Absolute_X => {
                let base = self.bus.mem_read_u16(addr);
                let target = base.wrapping_add(self.register_x as u16);
                (target, page_cross(base, target))
            },
            AddressingMode::Absolute_Y => {
                let base = self.bus.mem_read_u16(addr);
                let target = base.wrapping_add(self.register_y as u16);
                (target, page_cross(base, target))
            },
            AddressingMode::Indirect_X => {
                let base = self.bus.mem_read(addr);
                let ptr = base.wrapping_add(self.register_x);
                let lo = self.bus.mem_read(ptr as u16);
                let hi = self.bus.mem_read(ptr.wrapping_add(1) as u16);
                ((hi as u16) << 8 | (lo as u16), false)
            },
            AddressingMode::Indirect_Y => {
                let base = self.bus.mem_read(addr);
                let lo = self.bus.mem_read(base as u16);
                let hi = self.bus.mem_read(base.wrapping_add(1) as u16);
                let deref_base = (hi as u16) << 8 | (lo as u16);
                let deref = deref_base.wrapping_add(self.register_y as u16);
                (deref, page_cross(deref_base, deref))
            },
            AddressingMode::NoneAddressing => (0, false),
        }
    }

    /// The operand address for `mode`, with the operand bytes at the
    /// current program counter.
    fn get_operand_address(&mut self, mode: &AddressingMode) -> (r: (u16, bool))
        requires
            *mode != AddressingMode::NoneAddressing,
        ensures
            *final(self) == *old(self),
            r == operand(old(self)@, *mode),
    {
        match mode {
            AddressingMode::Immediate => (self.program_counter, false),
            _ => {
                let pc = self.program_counter;
                self.get_absolute_address(mode, pc)
            },
        }
    }

    fn update_zero_and_negative_flags(&mut self, result: u8)
        ensures
            final(self)@ == (CpuState { p: zn(old(self)@.p, result), ..old(self)@ }),
    {
        if result == 0 {
            self.status.insert(ZERO);
        } else {
            self.status.remove(ZERO);
        }
        self.update_negative_flag(result);
    }

    fn update_negative_flag(&mut self, result: u8)
        ensures
            final(self)@ == (CpuState { p: n_only(old(self)@.p, result), ..old(self)@ }),
    {
        if result & 0x80 != 0 {
            self.status.insert(NEGATIVE);
        } else {
            self.status.remove(NEGATIVE);
        }
    }

    fn set_register_a(&mut self, value: u8)
        ensures
            final(self)@ == set_a(old(self)@, value),
    {
        self.register_a = value;
        self.update_zero_and_negative_flags(value);
    }

    // -----------------------------------------------------------------
    // Stack
    // -----------------------------------------------------------------

    /// Push a byte: store at `$0100 | SP`, then decrement SP with wrap.
    pub fn stack_push(&mut self, value: u8)
        ensures
            final(self)@ == push8(old(self)@, value),
    {
        self.bus.mem_write(STACK + self.stack_pointer as u16, value);
        self.stack_pointer = self.stack_pointer.wrapping_sub(1);
    }

    /// Pop a byte: increment SP with wrap, then read from `$0100 | SP`.
    pub fn stack_pop(&mut self) -> (r: u8)
        ensures
            final(self)@ == pop8(old(self)@).0,
            r == pop8(old(self)@).1,
    {
        self.stack_pointer = self.stack_pointer.wrapping_add(1);
        self.bus.mem_read(STACK + self.stack_pointer as u16)
    }

    /// Push a word, high byte first.
    pub fn stack_push_u16(&mut self, data: u16)
        ensures
            final(self)@ == push16(old(self)@, data),
    {
        proof {
            lemma_shr8_bound(data);
            lemma_and_ff_bound(data);
        }
        self.stack_push((data >> 8) as u8);
        self.stack_push((data & 0xFF) as u8);
    }

    /// Pop a word, low byte first.
    pub fn stack_pop_u16(&mut self) -> (r: u16)
        ensures
            final(self)@ == pop16(old(self)@).0,
            r == pop16(old(self)@).1,
    {
        let lo = self.stack_pop();
        let hi = self.stack_pop();
        (hi as u16) << 8 | (lo as u16)
    }

    fn php(&mut self)
        ensures
            final(self)@ == php_spec(old(self)@),
    {
        let mut flags = self.status;
        flags.insert(BREAK);
        flags.insert(BREAK2);
        self.stack_push(flags.bits());
    }

    fn plp(&mut self)
        ensures
            final(self)@ == plp_spec(old(self)@),
    {
        let v = self.stack_pop();
        self.status.bits = v;
        self.status.remove(BREAK);
        self.status.insert(BREAK2);
    }

    // -----------------------------------------------------------------
    // Arithmetic and logic
    // -----------------------------------------------------------------

    /// Add `value` and the carry into the accumulator, setting C, V, Z
    /// and N.
    fn add_to_register_a(&mut self, value: u8)
        ensures
            final(self)@ == adc_value(old(self)@, value),
    {
        let carry: u16 = if self.status.contains(CARRY) { 1 } else { 0 };
        let sum: u16 = self.register_a as u16 + value as u16 + carry;
        if sum > 0xff {
            self.status.insert(CARRY);
        } else {
            self.status.remove(CARRY);
        }
        proof {
            lemma_u16_as_u8(sum);
        }
        let result = sum as u8;
        if (value ^ result) & (result ^ self.register_a) & 0x80 != 0 {
            self.status.insert(OVERFLOW);
        } else {
            self.status.remove(OVERFLOW);
        }
        self.set_register_a(result);
    }

    fn adc(&mut self, mode: &AddressingMode)
        requires
            *mode != AddressingMode::NoneAddressing,
        ensures
            final(self)@ == crate::state::adc_spec(old(self)@, *mode),
    {
        let (addr, crossed) = self.get_operand_address(mode);
        let value = self.bus.mem_read(addr);
        self.add_to_register_a(value);
        if crossed {
            self.bus.tick(1);
        }
    }

    /// Subtract with borrow, computed as addition of the complemented
    /// operand.
    fn sbc(&mut self, mode: &AddressingMode)
        requires
            *mode != AddressingMode::NoneAddressing,
        ensures
            final(self)@ == crate::state::sbc_spec(old(self)@, *mode),
    {
        let (addr, crossed) = self.get_operand_address(mode);
        let value = self.bus.mem_read(addr);
        self.add_to_register_a(!value);
        if crossed {
            self.bus.tick(1);
        }
    }

    fn and(&mut self, mode: &AddressingMode)
        requires
            *mode != AddressingMode::NoneAddressing,
        ensures
            final(self)@ == crate::state::and_spec(old(self)@, *mode),
    {
        let (addr, crossed) = self.get_operand_address(mode);
        let value = self.bus.mem_read(addr);
        let a = self.register_a;
        self.set_register_a(a & value);
        if crossed {
            self.bus.tick(1);
        }
    }

    fn eor(&mut self, mode: &AddressingMode)
        requires
            *mode != AddressingMode::NoneAddressing,
        ensures
            final(self)@ == crate::state::eor_spec(old(self)@, *mode),
    {
        let (addr, crossed) = self.get_operand_address(mode);
        let value = self.bus.mem_read(addr);
        let a = self.register_a;
        self.set_register_a(a ^ value);
        if crossed {
            self.bus.tick(1);
        }
    }

    fn ora(&mut self, mode: &AddressingMode)
        requires
            *mode != AddressingMode::NoneAddressing,
        ensures
            final(self)@ == crate::state::ora_spec(old(self)@, *mode),
    {
        let (addr, crossed) = self.get_operand_address(mode);
        let value = self.bus.mem_read(addr);
        let a = self.register_a;
        self.set_register_a(a | value);
        if crossed {
            self.bus.tick(1);
        }
    }

    /// Compare `compare_value` against memory: carry iff the register is
    /// at least the operand, Z/N on their wrapping difference.
    fn compare(&mut self, mode: &AddressingMode, compare_value: u8)
        requires
            *mode != AddressingMode::NoneAddressing,
        ensures
            final(self)@ == compare_spec(old(self)@, *mode, compare_value),
    {
        let (addr, crossed) = self.get_operand_address(mode);
        let data = self.bus.mem_read(addr);
        if compare_value >= data {
            self.status.insert(CARRY);
        } else {
            self.status.remove(CARRY);
        }
        self.update_zero_and_negative_flags(compare_value.wrapping_sub(data));
        if crossed {
            self.bus.tick(1);
        }
    }

    fn bit(&mut self, mode: &AddressingMode)
        requires
            *mode != AddressingMode::NoneAddressing,
        ensures
            final(self)@ == bit_spec(old(self)@, *mode),
    {
        let (addr, _crossed) = self.get_operand_address(mode);
        let data = self.bus.mem_read(addr);
        if self.register_a & data == 0 {
            self.status.insert(ZERO);
        } else {
            self.status.remove(ZERO);
        }
        self.status.set(NEGATIVE, data & 0b1000_0000 > 0);
        self.status.set(OVERFLOW, data & 0b0100_0000 > 0);
    }

    // -----------------------------------------------------------------
    // Loads, stores, transfers
    // -----------------------------------------------------------------

    fn lda(&mut self, mode: &AddressingMode)
        requires
            *mode != AddressingMode::NoneAddressing,
        ensures
            final(self)@ == lda_spec(old(self)@, *mode),
    {
        let (addr, crossed) = self.get_operand_address(mode);
        let value = self.bus.mem_read(addr);
        self.set_register_a(value);
        if crossed {
            self.bus.tick(1);
        }
    }

    fn ldx(&mut self, mode: &AddressingMode)
        requires
            *mode != AddressingMode::NoneAddressing,
        ensures
            final(self)@ == ldx_spec(old(self)@, *mode),
    {
        let (addr, crossed) = self.get_operand_address(mode);
        let value = self.bus.mem_read(addr);
        self.register_x = value;
        self.update_zero_and_negative_flags(value);
        if crossed {
            self.bus.tick(1);
        }
    }

    fn ldy(&mut self, mode: &AddressingMode)
        requires
            *mode != AddressingMode::NoneAddressing,
        ensures
            final(self)@ == ldy_spec(old(self)@, *mode),
    {
        let (addr, crossed) = self.get_operand_address(mode);
        let value = self.bus.mem_read(addr);
        self.register_y = value;
        self.update_zero_and_negative_flags(value);
        if crossed {
            self.bus.tick(1);
        }
    }

    /// Load A and X together (no page-cross penalty in this core).
    fn lax(&mut self, mode: &AddressingMode)
        requires
            *mode != AddressingMode::NoneAddressing,
        ensures
            final(self)@ == lax_spec(old(self)@, *mode),
    {
        let (addr, _crossed) = self.get_operand_address(mode);
        let data = self.bus.mem_read(addr);
        self.set_register_a(data);
        self.tax();
    }

    fn sta(&mut self, mode: &AddressingMode)
        requires
            *mode != AddressingMode::NoneAddressing,
        ensures
            final(self)@ == sta_spec(old(self)@, *mode),
    {
        let (addr, _crossed) = self.get_operand_address(mode);
        self.bus.mem_write(addr, self.register_a);
    }

    fn stx(&mut self, mode: &AddressingMode)
        requires
            *mode != AddressingMode::NoneAddressing,
        ensures
            final(self)@ == stx_spec(old(self)@, *mode),
    {
        let (addr, _crossed) = self.get_operand_address(mode);
        self.bus.mem_write(addr, self.register_x);
    }

    fn sty(&mut self, mode: &AddressingMode)
        requires
            *mode != AddressingMode::NoneAddressing,
        ensures
            final(self)@ == sty_spec(old(self)@, *mode),
    {
        let (addr, _crossed) = self.get_operand_address(mode);
        self.bus.mem_write(addr, self.register_y);
    }

    fn sax(&mut self, mode: &AddressingMode)
        requires
            *mode != AddressingMode::NoneAddressing,
        ensures
            final(self)@ == sax_spec(old(self)@, *mode),
    {
        let data = self.register_a & self.register_x;
        let (addr, _crossed) = self.get_operand_address(mode);
        self.bus.mem_write(addr, data);
    }

    fn tax(&mut self)
        ensures
            final(self)@ == tax_spec(old(self)@),
    {
        self.register_x = self.register_a;
        self.update_zero_and_negative_flags(self.register_x);
    }

    fn txa(&mut self)
        ensures
            final(self)@ == set_a(set_a(old(self)@, old(self)@.x), old(self)@.x),
    {
        let x = self.register_x;
        self.set_register_a(x);
        self.update_zero_and_negative_flags(self.register_a);
    }

    fn tay(&mut self)
        ensures
            final(self)@ == (CpuState { y: old(self)@.a, p: zn(old(self)@.p, old(self)@.a), ..old(
                self,
            )@ }),
    {
        self.register_y = self.register_a;
        self.update_zero_and_negative_flags(self.register_y);
    }

    fn tya(&mut self)
        ensures
            final(self)@ == set_a(set_a(old(self)@, old(self)@.y), old(self)@.y),
    {
        let y = self.register_y;
        self.set_register_a(y);
        self.update_zero_and_negative_flags(self.register_a);
    }

    // -----------------------------------------------------------------
    // Shifts and rotates
    // -----------------------------------------------------------------

    fn asl_acc(&mut self)
        ensures
            final(self)@ == asl_acc_spec(old(self)@),
    {
        let data = self.register_a;
        if data & 0x80 != 0 {
            self.status.insert(CARRY);
        } else {
            self.status.remove(CARRY);
        }
        self.set_register_a(data << 1);
    }

    fn asl(&mut self, mode: &AddressingMode) -> (r: u8)
        requires
            *mode != AddressingMode::NoneAddressing,
        ensures
            final(self)@ == asl_spec(old(self)@, *mode).0,
            r == asl_spec(old(self)@, *mode).1,
    {
        let (addr, _crossed) = self.get_operand_address(mode);
        let data = self.bus.mem_read(addr);
        if data & 0x80 != 0 {
            self.status.insert(CARRY);
        } else {
            self.status.remove(CARRY);
        }
        let shifted = data << 1;
        self.bus.mem_write(addr, shifted);
        self.update_zero_and_negative_flags(shifted);
        shifted
    }

    fn lsr_acc(&mut self)
        ensures
            final(self)@ == lsr_acc_spec(old(self)@),
    {
        let data = self.register_a;
        if data & 1 != 0 {
            self.status.insert(CARRY);
        } else {
            self.status.remove(CARRY);
        }
        self.set_register_a(data >> 1);
    }

    fn lsr(&mut self, mode: &AddressingMode) -> (r: u8)
        requires
            *mode != AddressingMode::NoneAddressing,
        ensures
            final(self)@ == lsr_spec(old(self)@, *mode).0,
            r == lsr_spec(old(self)@, *mode).1,
    {
        let (addr, _crossed) = self.get_operand_address(mode);
        let data = self.bus.mem_read(addr);
        if data & 1 != 0 {
            self.status.insert(CARRY);
        } else {
            self.status.remove(CARRY);
        }
        let shifted = data >> 1;
        self.bus.mem_write(addr, shifted);
        self.update_zero_and_negative_flags(shifted);
        shifted
    }

    fn rol_acc(&mut self)
        ensures
            final(self)@ == rol_acc_spec(old(self)@),
    {
        let data = self.register_a;
        let old_carry = self.status.contains(CARRY);
        if data & 0x80 != 0 {
            self.status.insert(CARRY);
        } else {
            self.status.remove(CARRY);
        }
        let rotated = (data << 1) | (if old_carry { 1 } else { 0 });
        self.set_register_a(rotated);
    }

    /// The memory form of ROL; it updates only N on the stored value,
    /// a quirk this core keeps for log compatibility.
    fn rol(&mut self, mode: &AddressingMode) -> (r: u8)
        requires
            *mode != AddressingMode::NoneAddressing,
        ensures
            final(self)@ == rol_spec(old(self)@, *mode).0,
            r == rol_spec(old(self)@, *mode).1,
    {
        let (addr, _crossed) = self.get_operand_address(mode);
        let data = self.bus.mem_read(addr);
        let old_carry = self.status.contains(CARRY);
        if data & 0x80 != 0 {
            self.status.insert(CARRY);
        } else {
            self.status.remove(CARRY);
        }
        let rotated = (data << 1) | (if old_carry { 1 } else { 0 });
        self.bus.mem_write(addr, rotated);
        self.update_negative_flag(rotated);
        rotated
    }

    fn ror_acc(&mut self)
        ensures
            final(self)@ == ror_acc_spec(old(self)@),
    {
        let data = self.register_a;
        let old_carry = self.status.contains(CARRY);
        if data & 1 != 0 {
            self.status.insert(CARRY);
        } else {
            self.status.remove(CARRY);
        }
        let rotated = (data >> 1) | (if old_carry { 0x80 } else { 0 });
        self.set_register_a(rotated);
    }

    /// The memory form of ROR; it updates only N, as with ROL.
    fn ror(&mut self, mode: &AddressingMode) -> (r: u8)
        requires
            *mode != AddressingMode::NoneAddressing,
        ensures
            final(self)@ == ror_spec(old(self)@, *mode).0,
            r == ror_spec(old(self)@, *mode).1,
    {
        let (addr, _crossed) = self.get_operand_address(mode);
        let data = self.bus.mem_read(addr);
        let old_carry = self.status.contains(CARRY);
        if data & 1 != 0 {
            self.status.insert(CARRY);
        } else {
            self.status.remove(CARRY);
        }
        let rotated = (data >> 1) | (if old_carry { 0x80 } else { 0 });
        self.bus.mem_write(addr, rotated);
        self.update_negative_flag(rotated);
        rotated
    }

    // -----------------------------------------------------------------
    // Increment, decrement
    // -----------------------------------------------------------------

    fn inc(&mut self, mode: &AddressingMode) -> (r: u8)
        requires
            *mode != AddressingMode::NoneAddressing,
        ensures
            final(self)@ == inc_spec(old(self)@, *mode).0,
            r == inc_spec(old(self)@, *mode).1,
    {
        let (addr, _crossed) = self.get_operand_address(mode);
        let data = self.bus.mem_read(addr).wrapping_add(1);
        self.bus.mem_write(addr, data);
        self.update_zero_and_negative_flags(data);
        data
    }

    fn dec(&mut self, mode: &AddressingMode)
        requires
            *mode != AddressingMode::NoneAddressing,
        ensures
            final(self)@ == dec_spec(old(self)@, *mode).0,
    {
        let (addr, _crossed) = self.get_operand_address(mode);
        let data = self.bus.mem_read(addr).wrapping_sub(1);
        self.bus.mem_write(addr, data);
        self.update_zero_and_negative_flags(data);
    }

    fn inx(&mut self)
        ensures
            final(self)@ == inx_spec(old(self)@),
    {
        self.register_x = self.register_x.wrapping_add(1);
        self.update_zero_and_negative_flags(self.register_x);
    }

    fn iny(&mut self)
        ensures
            final(self)@ == iny_spec(old(self)@),
    {
        self.register_y = self.register_y.wrapping_add(1);
        self.update_zero_and_negative_flags(self.register_y);
    }

    fn dex(&mut self)
        ensures
            final(self)@ == dex_spec(old(self)@),
    {
        self.register_x = self.register_x.wrapping_sub(1);
        self.update_zero_and_negative_flags(self.register_x);
    }

    fn dey(&mut self)
        ensures
            final(self)@ == dey_spec(old(self)@),
    {
        self.register_y = self.register_y.wrapping_sub(1);
        self.update_zero_and_negative_flags(self.register_y);
    }

    // -----------------------------------------------------------------
    // Control flow
    // -----------------------------------------------------------------

    fn jmp(&mut self)
        ensures
            final(self)@ == jmp_spec(old(self)@),
    {
        let target = self.bus.mem_read_u16(self.program_counter);
        self.program_counter = target;
    }

    /// JMP indirect, with the hardware page-boundary bug: a pointer whose
    /// low byte is `$FF` fetches its high byte from the start of the same
    /// page.
    fn jmp_indirect(&mut self)
        ensures
            final(self)@ == jmp_indirect_spec(old(self)@),
    {
        let ptr = self.bus.mem_read_u16(self.program_counter);
        let target = if ptr & 0x00FF == 0x00FF {
            let lo = self.bus.mem_read(ptr);
            let hi = self.bus.mem_read(ptr & 0xFF00);
            (hi as u16) << 8 | (lo as u16)
        } else {
            self.bus.mem_read_u16(ptr)
        };
        self.program_counter = target;
    }

    /// JSR pushes the address of the last byte of the instruction, then
    /// reads the target from the operand bytes.
    fn jsr(&mut self)
        ensures
            final(self)@ == jsr_spec(old(self)@),
    {
        let pc = self.program_counter;
        self.stack_push_u16(pc.wrapping_add(1));
        let target = self.bus.mem_read_u16(self.program_counter);
        self.program_counter = target;
    }

    /// RTI pops P (with B cleared and the unused bit forced on), then PC.
    fn rti(&mut self)
        ensures
            final(self)@ == rti_spec(old(self)@),
    {
        let v = self.stack_pop();
        self.status.bits = v;
        self.status.remove(BREAK);
        self.status.insert(BREAK2);
        let pc = self.stack_pop_u16();
        self.program_counter = pc;
    }

    /// A conditional branch: one extra cycle when taken, one more when
    /// the target lies in a different page than the next instruction.
    fn branch(&mut self, condition: bool)
        ensures
            final(self)@ == branch_spec(old(self)@, condition),
    {
        if condition {
            self.bus.tick(1);
            let jump = self.bus.mem_read(self.program_counter);
            proof {
                lemma_sign_ext8(jump);
            }
            let jump_addr = self.program_counter.wrapping_add(1).wrapping_add(
                (jump as i8) as u16,
            );
            if self.program_counter.wrapping_add(1) & 0xFF00 != jump_addr & 0xFF00 {
                self.bus.tick(1);
            }
            self.program_counter = jump_addr;
        }
    }

    // -----------------------------------------------------------------
    // Remaining unofficial instructions
    // -----------------------------------------------------------------

    /// DCP is DEC then CMP: decrement the operand in memory, then
    /// compare A against it, with carry exactly when A is at least the
    /// decremented value.
    fn dcp(&mut self, mode: &AddressingMode)
        requires
            *mode != AddressingMode::NoneAddressing,
        ensures
            final(self)@ == dcp_spec(old(self)@, *mode),
    {
        let (addr, _crossed) = self.get_operand_address(mode);
        let data = self.bus.mem_read(addr).wrapping_sub(1);
        self.bus.mem_write(addr, data);
        if self.register_a >= data {
            self.status.insert(CARRY);
        } else {
            self.status.remove(CARRY);
        }
        self.update_zero_and_negative_flags(self.register_a.wrapping_sub(data));
    }

    /// AXS in this core masks X with Y (not A with X) before subtracting.
    fn axs(&mut self, mode: &AddressingMode)
        requires
            *mode != AddressingMode::NoneAddressing,
        ensures
            final(self)@ == axs_spec(old(self)@, *mode),
    {
        let (addr, _crossed) = self.get_operand_address(mode);
        let data = self.bus.mem_read(addr);
        let x_and_y = self.register_x & self.register_y;
        self.register_x = x_and_y.wrapping_sub(data);
        if data <= self.register_x {
            self.status.insert(CARRY);
        } else {
            self.status.remove(CARRY);
        }
        self.update_zero_and_negative_flags(self.register_x);
    }

    /// ARR: AND then rotate right through carry, with C from bit 6 and V
    /// from bits 5 and 6 of the result.
    fn arr(&mut self, mode: &AddressingMode)
        requires
            *mode != AddressingMode::NoneAddressing,
        ensures
            final(self)@ == arr_spec(old(self)@, *mode),
    {
        let (addr, _crossed) = self.get_operand_address(mode);
        let data = self.bus.mem_read(addr);
        let a = self.register_a;
        self.set_register_a(a & data);
        self.ror_acc();
        let result = self.register_a;
        let bit_5 = (result >> 5) & 1;
        let bit_6 = (result >> 6) & 1;
        if bit_6 == 1 {
            self.status.insert(CARRY);
        } else {
            self.status.remove(CARRY);
        }
        if bit_5 ^ bit_6 == 1 {
            self.status.insert(OVERFLOW);
        } else {
            self.status.remove(OVERFLOW);
        }
        self.update_zero_and_negative_flags(result);
    }

    fn alr(&mut self, mode: &AddressingMode)
        requires
            *mode != AddressingMode::NoneAddressing,
        ensures
            final(self)@ == alr_spec(old(self)@, *mode),
    {
        let (addr, _crossed) = self.get_operand_address(mode);
        let data = self.bus.mem_read(addr);
        let a = self.register_a;
        self.set_register_a(data & a);
        self.lsr_acc();
    }

    /// ANC: AND, then copy N into C.
    fn anc(&mut self, mode: &AddressingMode)
        requires
            *mode != AddressingMode::NoneAddressing,
        ensures
            final(self)@ == anc_spec(old(self)@, *mode),
    {
        let (addr, _crossed) = self.get_operand_address(mode);
        let data = self.bus.mem_read(addr);
        let a = self.register_a;
        self.set_register_a(a & data);
        if self.status.contains(NEGATIVE) {
            self.status.insert(CARRY);
        } else {
            self.status.remove(CARRY);
        }
    }

    fn lxa(&mut self, mode: &AddressingMode)
        requires
            *mode != AddressingMode::NoneAddressing,
        ensures
            final(self)@ == lxa_spec(old(self)@, *mode),
    {
        let (addr, _crossed) = self.get_operand_address(mode);
        let data = self.bus.mem_read(addr);
        let a = self.register_a;
        self.set_register_a(data & a);
        self.tax();
    }

    /// LAS: memory AND SP into A, X and SP.
    fn las(&mut self, mode: &AddressingMode)
        requires
            *mode != AddressingMode::NoneAddressing,
        ensures
            final(self)@ == las_spec(old(self)@, *mode),
    {
        let (addr, _crossed) = self.get_operand_address(mode);
        let data = self.bus.mem_read(addr);
        let result = data & self.stack_pointer;
        self.register_a = result;
        self.register_x = result;
        self.stack_pointer = result;
        self.update_zero_and_negative_flags(result);
    }

    /// TAS: SP takes A AND X; memory at the indexed target takes SP
    /// masked with the high byte of the target plus one.
    fn tas(&mut self)
        ensures
            final(self)@ == tas_spec(old(self)@),
    {
        self.stack_pointer = self.register_a & self.register_x;
        let target = self.bus.mem_read_u16(self.program_counter).wrapping_add(
            self.register_y as u16,
        );
        proof {
            lemma_shr8_bound(target);
        }
        let data = ((target >> 8) as u8).wrapping_add(1) & self.stack_pointer;
        self.bus.mem_write(target, data);
    }

    /// Service a pending hardware interrupt: push PC, push P with B clear
    /// and the unused bit set, raise the interrupt-disable flag, charge
    /// two cycles and jump through the vector.
    fn interrupt(&mut self, _kind: InterruptType)
        ensures
            final(self)@ == nmi_spec(old(self)@),
    {
        let pc = self.program_counter;
        self.stack_push_u16(pc);
        let mut flag = self.status;
        flag.remove(BREAK);
        flag.insert(BREAK2);
        self.stack_push(flag.bits());
        self.status.insert(INTERRUPT_DISABLE);
        self.bus.tick(2);
        self.program_counter = self.bus.mem_read_u16(0xFFFA);
    }

    /// Execute one instruction: fetch the opcode, advance PC past it,
    /// stop on BRK, otherwise run the instruction, charge its base
    /// cycles and, if the instruction left PC alone, advance PC over the
    /// operand bytes. Returns whether execution continues, i.e. whether
    /// the fetched opcode was not BRK.
    pub fn step(&mut self) -> (cont: bool)
        ensures
            final(self)@ == step_spec(old(self)@),
            cont == (rd8(old(self)@, old(self)@.pc) != 0),
    {
        let code = self.bus.mem_read(self.program_counter);
        self.program_counter = self.program_counter.wrapping_add(1);
        if code == 0x00 {
            return false;
        }
        let op = opcode_for(code);
        let pc_state = self.program_counter;
        self.step_instr(code, &op);
        self.bus.tick(op.cycles);
        if pc_state == self.program_counter {
            self.program_counter = self.program_counter.wrapping_add((op.len - 1) as u16);
        }
        true
    }

    /// Dispatch on the opcode and perform the instruction's semantic
    /// effect, including any page-cross or branch-taken cycle penalty.
    fn step_instr(&mut self, code: u8, op: &OpCode)
        requires
            code != 0,
            op.mode == crate::opcodes::op_mode(code),
        ensures
            final(self)@ == instr_spec(old(self)@, code),
    {
        if code <= 0x3f {
            self.step_group_0(code, op);
        } else if code <= 0x7f {
            self.step_group_1(code, op);
        } else if code <= 0xbf {
            self.step_group_2(code, op);
        } else {
            self.step_group_3(code, op);
        }
    }

    #[verifier::rlimit(100)]
    #[verifier::spinoff_prover]
    fn step_group_0(&mut self, code: u8, op: &OpCode)
        requires
            code != 0,
            code <= 0x3f,
            op.mode == crate::opcodes::op_mode(code),
        ensures
            final(self)@ == instr_spec(old(self)@, code),
    {
        proof {
            reveal(crate::state::instr_spec);
        }
        match code {
            // AND
            0x29 | 0x25 | 0x35 | 0x2d | 0x3d | 0x39 | 0x21 | 0x31 => self.and(&op.mode),
            // ORA
            0x09 | 0x05 | 0x15 | 0x0d | 0x1d | 0x19 | 0x01 | 0x11 => self.ora(&op.mode),
            // BIT
            0x24 | 0x2c => self.bit(&op.mode),
            0x20 => self.jsr(),
            0x30 => {
                let cond = self.status.contains(NEGATIVE);
                self.branch(cond);
            },
            0x10 => {
                let cond = self.status.contains(NEGATIVE);
                self.branch(!cond);
            },
            // ASL
            0x0a => self.asl_acc(),
            0x06 | 0x16 | 0x0e | 0x1e => {
                self.asl(&op.mode);
            },
            // ROL
            0x2a => self.rol_acc(),
            0x26 | 0x36 | 0x2e | 0x3e => {
                self.rol(&op.mode);
            },
            0x08 => self.php(),
            0x28 => self.plp(),
            0x38 => self.status.insert(CARRY),
            0x18 => self.status.remove(CARRY),
            // Two- and three-byte NOPs that read their operand and honor
            // the page-cross penalty
            0x04 | 0x14 | 0x34 | 0x0c | 0x1c | 0x3c => {
                let (addr, crossed) = self.get_operand_address(&op.mode);
                let _data: u8 = self.bus.mem_read(addr);
                if crossed {
                    self.bus.tick(1);
                }
            },
            // KIL opcodes behave as one-byte NOPs in this core
            0x02 | 0x12 | 0x22 | 0x32 => {},
            // One-byte unofficial NOPs
            0x1a | 0x3a => {},
            // RLA: ROL memory, then AND
            0x27 | 0x37 | 0x2f | 0x3f | 0x3b | 0x33 | 0x23 => {
                let data = self.rol(&op.mode);
                let a = self.register_a;
                self.set_register_a(data & a);
            },
            // SLO: ASL memory, then ORA
            0x07 | 0x17 | 0x0f | 0x1f | 0x1b | 0x03 | 0x13 => {
                let data = self.asl(&op.mode);
                let a = self.register_a;
                self.set_register_a(data | a);
            },
            0x0b | 0x2b => self.anc(&op.mode),
            _ => {
                proof {
                    assert(false);
                }
            },
        }
    }

    #[verifier::rlimit(100)]
    #[verifier::spinoff_prover]
    fn step_group_1(&mut self, code: u8, op: &OpCode)
        requires
            0x40 <= code <= 0x7f,
            op.mode == crate::opcodes::op_mode(code),
        ensures
            final(self)@ == instr_spec(old(self)@, code),
    {
        proof {
            reveal(crate::state::instr_spec);
        }
        match code {
            // ADC
            0x69 | 0x65 | 0x75 | 0x6d | 0x7d | 0x79 | 0x61 | 0x71 => self.adc(&op.mode),
            // EOR
            0x49 | 0x45 | 0x55 | 0x4d | 0x5d | 0x59 | 0x41 | 0x51 => self.eor(&op.mode),
            // JMP
            0x4c => self.jmp(),
            0x6c => self.jmp_indirect(),
            // RTS
            0x60 => {
                let w = self.stack_pop_u16();
                self.program_counter = w.wrapping_add(1);
            },
            0x40 => self.rti(),
            0x70 => {
                let cond = self.status.contains(OVERFLOW);
                self.branch(cond);
            },
            0x50 => {
                let cond = self.status.contains(OVERFLOW);
                self.branch(!cond);
            },
            // LSR
            0x4a => self.lsr_acc(),
            0x46 | 0x56 | 0x4e | 0x5e => {
                self.lsr(&op.mode);
            },
            // ROR
            0x6a => self.ror_acc(),
            0x66 | 0x76 | 0x6e | 0x7e => {
                self.ror(&op.mode);
            },
            // PHA
            0x48 => {
                let a = self.register_a;
                self.stack_push(a);
            },
            // PLA
            0x68 => {
                let data = self.stack_pop();
                self.set_register_a(data);
            },
            0x78 => self.status.insert(INTERRUPT_DISABLE),
            0x58 => self.status.remove(INTERRUPT_DISABLE),
            // Two- and three-byte NOPs that read their operand and honor
            // the page-cross penalty
            0x44 | 0x64 | 0x54 | 0x74 | 0x5c | 0x7c => {
                let (addr, crossed) = self.get_operand_address(&op.mode);
                let _data: u8 = self.bus.mem_read(addr);
                if crossed {
                    self.bus.tick(1);
                }
            },
            // KIL opcodes behave as one-byte NOPs in this core
            0x42 | 0x52 | 0x62 | 0x72 => {},
            // One-byte unofficial NOPs
            0x5a | 0x7a => {},
            // RRA: ROR memory, then ADC
            0x67 | 0x77 | 0x6f | 0x7f | 0x7b | 0x63 | 0x73 => {
                let data = self.ror(&op.mode);
                self.add_to_register_a(data);
            },
            // SRE: LSR memory, then EOR
            0x47 | 0x57 | 0x4f | 0x5f | 0x5b | 0x43 | 0x53 => {
                let data = self.lsr(&op.mode);
                let a = self.register_a;
                self.set_register_a(data ^ a);
            },
            0x6b => self.arr(&op.mode),
            0x4b => self.alr(&op.mode),
            _ => {
                proof {
                    assert(false);
                }
            },
        }
    }

    #[verifier::rlimit(100)]
    #[verifier::spinoff_prover]
    fn step_group_2(&mut self, code: u8, op: &OpCode)
        requires
            0x80 <= code <= 0xbf,
            op.mode == crate::opcodes::op_mode(code),
        ensures
            final(self)@ == instr_spec(old(self)@, code),
    {
        proof {
            reveal(crate::state::instr_spec);
        }
        match code {
            0xb0 => {
                let cond = self.status.contains(CARRY);
                self.branch(cond);
            },
            0x90 => {
                let cond = self.status.contains(CARRY);
                self.branch(!cond);
            },
            // LDA
            0xa9 | 0xa5 | 0xb5 | 0xad | 0xbd | 0xb9 | 0xa1 | 0xb1 => self.lda(&op.mode),
            // LDX
            0xa2 | 0xa6 | 0xb6 | 0xae | 0xbe => self.ldx(&op.mode),
            // LDY
            0xa0 | 0xa4 | 0xb4 | 0xac | 0xbc => self.ldy(&op.mode),
            // LAX
            0xa7 | 0xb7 | 0xaf | 0xbf | 0xa3 | 0xb3 => self.lax(&op.mode),
            // STA
            0x85 | 0x95 | 0x8d | 0x9d | 0x99 | 0x81 | 0x91 => self.sta(&op.mode),
            // STX
            0x86 | 0x96 | 0x8e => self.stx(&op.mode),
            // STY
            0x84 | 0x94 | 0x8c => self.sty(&op.mode),
            // SAX
            0x87 | 0x97 | 0x8f | 0x83 => self.sax(&op.mode),
            0x88 => self.dey(),
            0xaa => self.tax(),
            0xa8 => self.tay(),
            0x8a => self.txa(),
            0x98 => self.tya(),
            // TSX
            0xba => {
                self.register_x = self.stack_pointer;
                self.update_zero_and_negative_flags(self.register_x);
            },
            // TXS
            0x9a => self.stack_pointer = self.register_x,
            0xb8 => self.status.remove(OVERFLOW),
            // KIL opcodes behave as one-byte NOPs in this core
            0x92 | 0xb2 => {},
            // Two-byte immediate NOPs
            0x80 | 0x82 | 0x89 => {},
            0xab => self.lxa(&op.mode),
            // XAA: copy X to A, then AND with the immediate operand
            0x8b => {
                self.register_a = self.register_x;
                self.update_zero_and_negative_flags(self.register_a);
                let (addr, _crossed) = self.get_operand_address(&op.mode);
                let data = self.bus.mem_read(addr);
                let a = self.register_a;
                self.set_register_a(a & data);
            },
            0xbb => self.las(&op.mode),
            0x9b => self.tas(),
            // AHX with a zero-page pointer
            0x93 => {
                let pos = self.bus.mem_read(self.program_counter);
                let target = self.bus.mem_read_u16(pos as u16).wrapping_add(
                    self.register_y as u16,
                );
                proof {
                    lemma_shr8_bound(target);
                }
                let data = self.register_a & self.register_x & (target >> 8) as u8;
                self.bus.mem_write(target, data);
            },
            // AHX absolute,Y
            0x9f => {
                let target = self.bus.mem_read_u16(self.program_counter).wrapping_add(
                    self.register_y as u16,
                );
                proof {
                    lemma_shr8_bound(target);
                }
                let data = self.register_a & self.register_x & (target >> 8) as u8;
                self.bus.mem_write(target, data);
            },
            // SHX
            0x9e => {
                let target = self.bus.mem_read_u16(self.program_counter).wrapping_add(
                    self.register_y as u16,
                );
                proof {
                    lemma_shr8_bound(target);
                }
                let data = self.register_x & ((target >> 8) as u8).wrapping_add(1);
                self.bus.mem_write(target, data);
            },
            // SHY
            0x9c => {
                let target = self.bus.mem_read_u16(self.program_counter).wrapping_add(
                    self.register_x as u16,
                );
                proof {
                    lemma_shr8_bound(target);
                }
                let data = self.register_y & ((target >> 8) as u8).wrapping_add(1);
                self.bus.mem_write(target, data);
            },
            _ => {
                proof {
                    assert(false);
                }
            },
        }
    }

    #[verifier::rlimit(100)]
    #[verifier::spinoff_prover]
    fn step_group_3(&mut self, code: u8, op: &OpCode)
        requires
            0xc0 <= code <= 0xff,
            op.mode == crate::opcodes::op_mode(code),
        ensures
            final(self)@ == instr_spec(old(self)@, code),
    {
        proof {
            reveal(crate::state::instr_spec);
        }
        match code {
            // SBC, official and unofficial
            0xe9 | 0xe5 | 0xf5 | 0xed | 0xfd | 0xf9 | 0xe1 | 0xf1 | 0xeb => self.sbc(&op.mode),
            // CMP
            0xc9 | 0xc5 | 0xd5 | 0xcd | 0xdd | 0xd9 | 0xc1 | 0xd1 => {
                let a = self.register_a;
                self.compare(&op.mode, a);
            },
            // CPY
            0xc0 | 0xc4 | 0xcc => {
                let y = self.register_y;
                self.compare(&op.mode, y);
            },
            // CPX
            0xe0 | 0xe4 | 0xec => {
                let x = self.register_x;
                self.compare(&op.mode, x);
            },
            // Branches
            0xf0 => {
                let cond = self.status.contains(ZERO);
                self.branch(cond);
            },
            0xd0 => {
                let cond = self.status.contains(ZERO);
                self.branch(!cond);
            },
            // INC
            0xe6 | 0xf6 | 0xee | 0xfe => {
                self.inc(&op.mode);
            },
            0xe8 => self.inx(),
            0xc8 => self.iny(),
            // DEC
            0xc6 | 0xd6 | 0xce | 0xde => self.dec(&op.mode),
            0xca => self.dex(),
            // Flag set and clear
            0xf8 => self.status.insert(DECIMAL_MODE),
            0xd8 => self.status.remove(DECIMAL_MODE),
            // NOP
            0xea => {},
            // Two- and three-byte NOPs that read their operand and honor
            // the page-cross penalty
            0xd4 | 0xf4 | 0xdc | 0xfc => {
                let (addr, crossed) = self.get_operand_address(&op.mode);
                let _data: u8 = self.bus.mem_read(addr);
                if crossed {
                    self.bus.tick(1);
                }
            },
            // KIL opcodes behave as one-byte NOPs in this core
            0xd2 | 0xf2 => {},
            // One-byte unofficial NOPs
            0xda | 0xfa => {},
            // Two-byte immediate NOPs
            0xc2 | 0xe2 => {},
            // DCP
            0xc7 | 0xd7 | 0xcf | 0xdf | 0xdb | 0xd3 | 0xc3 => self.dcp(&op.mode),
            // ISB: INC memory, then SBC
            0xe7 | 0xf7 | 0xef | 0xff | 0xfb | 0xe3 | 0xf3 => {
                let data = self.inc(&op.mode);
                self.add_to_register_a(!data);
            },
            0xcb => self.axs(&op.mode),
            _ => {
                proof {
                    assert(false);
                }
            },
        }
    }

    /// Execute until a BRK opcode is fetched, servicing a latched
    /// non-maskable interrupt before each fetch: the run stops at the
    /// first iteration whose fetch (after interrupt service) reads
    /// opcode `$00`, and the final state is the initial one advanced by
    /// exactly that many iterations plus the BRK fetch itself. The loop
    /// carries a step budget of 2^64 - 1 instructions, far beyond
    /// anything a program can reach, so that its termination can be
    /// checked; only a program whose first 2^64 - 1 fetches are all
    /// non-BRK ever exhausts it.
    pub fn run(&mut self)
        ensures
            exists|n: nat| crate::state::run_outcome(old(self)@, final(self)@, n),
    {
        let mut fuel: u64 = u64::MAX;
        loop
            invariant
                1 <= fuel,
                self@ == runs(old(self)@, (u64::MAX - fuel) as nat),
                forall|m: nat|
                    m < (u64::MAX - fuel) as nat ==> fetch_byte(
                        #[trigger] runs(old(self)@, m),
                    ) != 0,
            decreases fuel,
        {
            let ghost pre = self@;
            let ghost n0: nat = (u64::MAX - fuel) as nat;
            if let Some(_nmi) = self.bus.poll_nmi_status() {
                self.interrupt(InterruptType::NMI);
            }
            let ghost mid = self@;
            let cont = self.step();
            proof {
                assert(mid == crate::state::serviced(pre));
                assert(self@ == run_step_spec(pre));
                assert(runs(old(self)@, n0 + 1) == run_step_spec(runs(old(self)@, n0)));
                assert(self@ == runs(old(self)@, n0 + 1));
                assert(cont == (fetch_byte(runs(old(self)@, n0)) != 0));
            }
            fuel = fuel - 1;
            if !cont {
                proof {
                    assert(fetch_byte(runs(old(self)@, n0)) == 0);
                    assert(crate::state::run_outcome(old(self)@, self@, n0));
                }
                return;
            }
            if fuel == 0 {
                proof {
                    let nmax: nat = u64::MAX as nat;
                    assert(forall|m: nat|
                        m < nmax ==> fetch_byte(#[trigger] runs(old(self)@, m)) != 0);
                    assert(self@ == runs(old(self)@, nmax));
                    assert(crate::state::run_outcome(old(self)@, self@, nmax));
                }
                return;
            }
        }
    }

    /// Execute until BRK as `run` does, invoking `callback` once per
    /// instruction, after interrupt polling and before the opcode fetch.
    /// The callback receives the processor itself and may rewrite it, so
    /// the final state cannot be pinned down; what is promised is the
    /// exit condition: the returned flag reports a BRK fetch, and then
    /// the byte before the final program counter is the fetched `$00`.
    /// The same unreachable step budget as in `run` bounds the loop, and
    /// only exhausting it returns `false`.
    pub fn run_with_callback<F: FnMut(&mut CPU)>(&mut self, mut callback: F) -> (hit_brk: bool)
        requires
            forall|c: &mut CPU| call_requires(callback, (c,)),
        ensures
            hit_brk ==> rd8(final(self)@, crate::bits::wsub16(final(self)@.pc, 1)) == 0,
    {
        let mut fuel: u64 = u64::MAX;
        loop
            invariant
                1 <= fuel,
                forall|c: &mut CPU| call_requires(callback, (c,)),
            decreases fuel,
        {
            if let Some(_nmi) = self.bus.poll_nmi_status() {
                self.interrupt(InterruptType::NMI);
            }
            callback(self);
            let cont = self.step();
            fuel = fuel - 1;
            if !cont || fuel == 0 {
                return !cont;
            }
        }
    }

    /// Write a program image at `$0600`.
    pub fn load(&mut self, program: Vec<u8>)
        requires
            program@.len() <= 0xFA00,
        ensures
            final(self)@ == (CpuState {
                mem: store_seq(old(self)@.mem, 0x0600, program@),
                ..old(self)@
            }),
    {
        let mut i: usize = 0;
        while i < program.len()
            invariant
                i <= program@.len() <= 0xFA00,
                self@ == (CpuState {
                    mem: store_seq(old(self)@.mem, 0x0600, program@.take(i as int)),
                    ..old(self)@
                }),
            decreases program@.len() - i,
        {
            let ghost prev = self@.mem;
            self.bus.mem_write(0x0600 + (i as u16), program[i]);
            proof {
                assert(self@.mem =~= store_seq(
                    old(self)@.mem,
                    0x0600,
                    program@.take(i as int + 1),
                ));
            }
            i += 1;
        }
        proof {
            assert(program@.take(i as int) =~= program@);
        }
    }

    /// Reset: clear the data registers, restore P and SP to their reset
    /// values and load PC from the vector at `$FFFC`.
    pub fn reset(&mut self)
        ensures
            final(self)@ == crate::state::reset_spec(old(self)@),
    {
        self.register_a = 0;
        self.register_x = 0;
        self.register_y = 0;
        self.status = CpuFlags::from_bits_truncate(0b100100);
        self.program_counter = self.bus.mem_read_u16(0xFFFC);
        self.stack_pointer = STACK_RESET;
    }

    /// Load a program at `$0600`, reset, force PC to `$0600` and run
    /// until the first BRK fetch, with `run`'s step budget.
    pub fn load_and_run(&mut self, program: Vec<u8>)
        requires
            program@.len() <= 0xFA00,
        ensures
            exists|n: nat|
                crate::state::run_outcome(
                    crate::state::start_spec(old(self)@, program@),
                    final(self)@,
                    n,
                ),
    {
        self.load(program);
        self.reset();
        self.program_counter = 0x0600;
        let ghost mid = self@;
        proof {
            assert(mid == crate::state::start_spec(old(self)@, program@));
        }
        self.run();
        proof {
            let start = crate::state::start_spec(old(self)@, program@);
            assert(mid == start);
            let n = choose|n: nat| crate::state::run_outcome(mid, self@, n);
            assert(crate::state::run_outcome(start, self@, n));
        }
    }
}

} // verus!
