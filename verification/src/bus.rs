//! The memory bus the processor runs against: a flat 64 KiB address space,
//! a free-running cycle counter, and a latch for the non-maskable interrupt.
//! External hardware is out of scope here; a host raises an interrupt by
//! setting the latch between instructions.
use vstd::prelude::*;

use crate::bits::{make16, wadd16, wadd64};

verus! {

pub struct Bus {
    pub memory: [u8; 65536],
    pub cycles: u64,
    pub nmi_interrupt: Option<u8>,
}

impl Bus {
    /// A bus with zeroed memory, a cycle counter at zero and no pending
    /// interrupt.
    pub fn new() -> (r: Bus)
        ensures
            r.memory@ == Seq::new(65536, |i: int| 0u8),
            r.cycles == 0,
            r.nmi_interrupt.is_none(),
    {
        let b = Bus { memory: [0u8; 65536], cycles: 0, nmi_interrupt: None };
        proof {
            assert(b.memory@ =~= Seq::new(65536, |i: int| 0u8));
        }
        b
    }

    /// Read the byte at `addr`.
    pub fn mem_read(&self, addr: u16) -> (r: u8)
        ensures
            r == self.memory@[addr as int],
    {
        self.memory[addr as usize]
    }

    /// Write `data` to `addr`.
    pub fn mem_write(&mut self, addr: u16, data: u8)
        ensures
            final(self).memory@ == old(self).memory@.update(addr as int, data),
            final(self).cycles == old(self).cycles,
            final(self).nmi_interrupt == old(self).nmi_interrupt,
    {
        self.memory[addr as usize] = data;
    }

    /// Read the little-endian 16-bit word whose low byte sits at `pos`;
    /// the high byte is fetched from the next address, wrapping at the top
    /// of the address space.
    pub fn mem_read_u16(&self, pos: u16) -> (r: u16)
        ensures
            r == make16(self.memory@[pos as int], self.memory@[wadd16(pos, 1) as int]),
    {
        let lo = self.mem_read(pos);
        let hi = self.mem_read(pos.wrapping_add(1));
        (hi as u16) << 8 | (lo as u16)
    }

    /// Write a 16-bit word little-endian at `pos`, the high byte to the
    /// next address with the same wrap.
    pub fn mem_write_u16(&mut self, pos: u16, data: u16)
        ensures
            final(self).memory@ == old(self).memory@.update(pos as int, (data & 0xFF) as u8)
                .update(wadd16(pos, 1) as int, (data >> 8) as u8),
            final(self).cycles == old(self).cycles,
            final(self).nmi_interrupt == old(self).nmi_interrupt,
    {
        proof {
            crate::bits::lemma_and_ff_bound(data);
            crate::bits::lemma_shr8_bound(data);
        }
        self.mem_write(pos, (data & 0xFF) as u8);
        self.mem_write(pos.wrapping_add(1), (data >> 8) as u8);
    }

    /// Advance the cycle clock by `n` processor cycles.
    pub fn tick(&mut self, n: u8)
        ensures
            final(self).cycles == wadd64(old(self).cycles, n as u64),
            final(self).memory@ == old(self).memory@,
            final(self).nmi_interrupt == old(self).nmi_interrupt,
    {
        self.cycles = self.cycles.wrapping_add(n as u64);
    }

    /// Return and clear the latched non-maskable interrupt, if any.
    pub fn poll_nmi_status(&mut self) -> (r: Option<u8>)
        ensures
            r == old(self).nmi_interrupt,
            final(self).nmi_interrupt.is_none(),
            final(self).memory@ == old(self).memory@,
            final(self).cycles == old(self).cycles,
    {
        let r = self.nmi_interrupt;
        self.nmi_interrupt = None;
        r
    }
}

} // verus!
