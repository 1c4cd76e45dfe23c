// The bus the stand-alone CPU model runs on: the plain memory map, the output
// latch written by ATP and the input lines read by ITA.
use vstd::prelude::*;
use crate::memory_map::MemoryBus as MemoryMap;
use crate::memory_map::{
    STANDARD_USER_MEMORY_BEGIN, STANDARD_USER_MEMORY_END, STANDARD_USER_SYSTEM_MEMORY_BEGIN,
    STANDARD_USER_SYSTEM_MEMORY_END, ROM_SIZE,
};

verus! {

pub struct MemoryBus {
    pub map: MemoryMap,
    pub output_port: u8,
    pub input_port: u8,
}

/// The address after `a`, wrapping at the top of the 64 KB space.
pub open spec fn next_addr(a: u16) -> u16 {
    if a == 0xFFFF { 0 } else { (a + 1) as u16 }
}

/// The address before `a`, wrapping at the bottom of the 64 KB space.
pub open spec fn prev_addr(a: u16) -> u16 {
    if a == 0 { 0xFFFF } else { (a - 1) as u16 }
}

impl MemoryBus {
    pub open spec fn wf(&self) -> bool {
        self.map.wf()
    }

    /// The byte the CPU reads at `addr`.
    pub open spec fn byte(&self, addr: u16) -> u8 {
        self.map.byte_at(addr as u32)
    }

    /// The little-endian word at `addr` and the address after it.
    pub open spec fn word(&self, addr: u16) -> u16 {
        ((self.byte(next_addr(addr)) as u16) << 8u16) | (self.byte(addr) as u16)
    }

    /// `next` is this bus after `v` was written at `addr`: RAM takes it,
    /// ROM and unmapped addresses ignore it.
    pub open spec fn stored(&self, next: MemoryBus, addr: u16, v: u8) -> bool {
        let a = addr as u32;
        &&& next.output_port == self.output_port
        &&& next.input_port == self.input_port
        &&& next.map.rom@ == self.map.rom@
        &&& next.map.standard_user_memory@ == (if STANDARD_USER_MEMORY_BEGIN <= a <= STANDARD_USER_MEMORY_END {
            self.map.standard_user_memory@.update(a - STANDARD_USER_MEMORY_BEGIN, v)
        } else {
            self.map.standard_user_memory@
        })
        &&& next.map.standard_user_system_memory@ == (if STANDARD_USER_SYSTEM_MEMORY_BEGIN <= a <= STANDARD_USER_SYSTEM_MEMORY_END {
            self.map.standard_user_system_memory@.update(a - STANDARD_USER_SYSTEM_MEMORY_BEGIN, v)
        } else {
            self.map.standard_user_system_memory@
        })
    }

    /// A bus over a fresh memory map with the given ROM; both latches clear.
    pub fn new(rom: Vec<u8>) -> (r: Self)
        requires
            rom@.len() == ROM_SIZE,
        ensures
            r.wf(),
            r.map.rom@ == rom@,
            r.output_port == 0,
            r.input_port == 0,
            forall|a: u16| 0x4000 <= a <= 0x47FF ==> #[trigger] r.byte(a) == 0xFF,
    {
        MemoryBus { map: MemoryMap::new(rom), output_port: 0, input_port: 0 }
    }

    pub fn read_byte(&self, addr: u16) -> (r: u8)
        requires
            self.wf(),
        ensures
            r == self.byte(addr),
    {
        self.map.read_byte(addr as u32, false, false)
    }

    pub fn write_byte(&mut self, addr: u16, v: u8)
        requires
            old(self).wf(),
        ensures
            final(self).wf(),
            old(self).stored(*final(self), addr, v),
    {
        self.map.write_byte(addr as u32, false, false, v);
    }

    /// ATP drives the accumulator onto the output latch.
    pub fn write_output_port(&mut self, v: u8)
        ensures
            *final(self) == (MemoryBus { output_port: v, ..*old(self) }),
    {
        self.output_port = v;
    }

    /// ITA samples the input lines.
    pub fn read_keyboard_input(&self) -> (r: u8)
        ensures
            r == self.input_port,
    {
        self.input_port
    }
}

/// Addresses backed by RAM: the user area and the system area.
pub open spec fn in_ram(a: u16) -> bool {
    (0x4000 <= a <= 0x47FF) || (0x7600 <= a <= 0x7BFF)
}

/// Two stores below S, the high byte first, read back from the new S
/// upwards as the low byte then the high byte: what PSH Rreg writes, POP
/// Rreg returns, as long as both stack bytes are in RAM.
pub proof fn lemma_push_then_pop(m0: MemoryBus, mid: MemoryBus, m2: MemoryBus, s: u16, rh: u8, rl: u8)
    requires
        m0.wf(),
        in_ram(prev_addr(s)),
        in_ram(prev_addr(prev_addr(s))),
        m0.stored(mid, prev_addr(s), rh),
        mid.stored(m2, prev_addr(prev_addr(s)), rl),
    ensures
        m2.byte(prev_addr(prev_addr(s))) == rl,
        m2.byte(next_addr(prev_addr(prev_addr(s)))) == rh,
{
    lemma_stored_read_back(m0, mid, prev_addr(s), prev_addr(prev_addr(s)), rh);
    lemma_stored_read_back(mid, m2, prev_addr(prev_addr(s)), prev_addr(s), rl);
}

/// A RAM byte reads back what was written; any other address is unchanged.
pub proof fn lemma_stored_read_back(m: MemoryBus, m2: MemoryBus, addr: u16, other: u16, v: u8)
    requires
        m.wf(),
        m.stored(m2, addr, v),
        in_ram(addr),
        other != addr,
    ensures
        m2.wf(),
        m2.byte(addr) == v,
        m2.byte(other) == m.byte(other),
{
}

} // verus!
