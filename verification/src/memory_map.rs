// A plain PC-1500 memory map: 2 KB user RAM, 1.5 KB system RAM and the ROM,
// without I/O devices.
use vstd::prelude::*;

verus! {

pub const STANDARD_USER_MEMORY_BEGIN: u32 = 0x4000;
pub const STANDARD_USER_MEMORY_END: u32 = 0x47FF;
pub const STANDARD_USER_MEMORY_SIZE: usize = 0x800;
pub const STANDARD_USER_SYSTEM_MEMORY_BEGIN: u32 = 0x7600;
pub const STANDARD_USER_SYSTEM_MEMORY_END: u32 = 0x7BFF;
pub const STANDARD_USER_SYSTEM_MEMORY_SIZE: usize = 0x600;
pub const ROM_BEGIN: u32 = 0xC000;
pub const ROM_END: u32 = 0xFFFF;
pub const ROM_SIZE: usize = 0x4000;

pub struct MemoryBus {
    pub rom: Vec<u8>,
    pub standard_user_memory: Vec<u8>,
    pub standard_user_system_memory: Vec<u8>,
}

impl MemoryBus {
    pub open spec fn wf(&self) -> bool {
        &&& self.rom@.len() == ROM_SIZE
        &&& self.standard_user_memory@.len() == STANDARD_USER_MEMORY_SIZE
        &&& self.standard_user_system_memory@.len() == STANDARD_USER_SYSTEM_MEMORY_SIZE
    }

    /// The byte at `addr`: RAM, ROM, or 0xFF where nothing is mapped.
    pub open spec fn byte_at(&self, addr: u32) -> u8 {
        if STANDARD_USER_MEMORY_BEGIN <= addr <= STANDARD_USER_MEMORY_END {
            self.standard_user_memory@[addr - STANDARD_USER_MEMORY_BEGIN]
        } else if STANDARD_USER_SYSTEM_MEMORY_BEGIN <= addr <= STANDARD_USER_SYSTEM_MEMORY_END {
            self.standard_user_system_memory@[addr - STANDARD_USER_SYSTEM_MEMORY_BEGIN]
        } else if ROM_BEGIN <= addr <= ROM_END {
            self.rom@[addr - ROM_BEGIN]
        } else {
            0xFF
        }
    }

    /// Both RAM areas filled with 0xFF, and the given ROM image.
    pub fn new(rom: Vec<u8>) -> (r: Self)
        requires
            rom@.len() == ROM_SIZE,
        ensures
            r.wf(),
            r.rom@ == rom@,
            forall|i: int| 0 <= i < STANDARD_USER_MEMORY_SIZE ==> r.standard_user_memory@[i] == 0xFF,
            forall|i: int| 0 <= i < STANDARD_USER_SYSTEM_MEMORY_SIZE ==> r.standard_user_system_memory@[i] == 0xFF,
    {
        let mut user: Vec<u8> = Vec::new();
        let mut i: usize = 0;
        while i < STANDARD_USER_MEMORY_SIZE
            invariant
                i <= STANDARD_USER_MEMORY_SIZE,
                user@.len() == i,
                forall|j: int| 0 <= j < i ==> user@[j] == 0xFF,
            decreases STANDARD_USER_MEMORY_SIZE - i,
        {
            user.push(0xFF);
            i = i + 1;
        }
        let mut sys: Vec<u8> = Vec::new();
        let mut k: usize = 0;
        while k < STANDARD_USER_SYSTEM_MEMORY_SIZE
            invariant
                k <= STANDARD_USER_SYSTEM_MEMORY_SIZE,
                sys@.len() == k,
                forall|j: int| 0 <= j < k ==> sys@[j] == 0xFF,
            decreases STANDARD_USER_SYSTEM_MEMORY_SIZE - k,
        {
            sys.push(0xFF);
            k = k + 1;
        }
        Self { rom, standard_user_memory: user, standard_user_system_memory: sys }
    }

    pub fn standard_user_memory(&self) -> (r: &Vec<u8>)
        ensures
            r@ == self.standard_user_memory@,
    {
        &self.standard_user_memory
    }

    /// Reads a byte; the PV and PU bank lines do not change the map.
    pub fn read_byte(&self, addr: u32, pv: bool, pu: bool) -> (r: u8)
        requires
            self.wf(),
            addr <= 0xFFFF,
        ensures
            r == self.byte_at(addr),
    {
        if STANDARD_USER_MEMORY_BEGIN <= addr && addr <= STANDARD_USER_MEMORY_END {
            self.standard_user_memory[(addr - STANDARD_USER_MEMORY_BEGIN) as usize]
        } else if STANDARD_USER_SYSTEM_MEMORY_BEGIN <= addr && addr <= STANDARD_USER_SYSTEM_MEMORY_END {
            self.standard_user_system_memory[(addr - STANDARD_USER_SYSTEM_MEMORY_BEGIN) as usize]
        } else if ROM_BEGIN <= addr && addr <= ROM_END {
            self.rom[(addr - ROM_BEGIN) as usize]
        } else {
            0xFF
        }
    }

    /// Writes a byte to RAM; ROM and unmapped addresses ignore it.
    pub fn write_byte(&mut self, addr: u32, pv: bool, pu: bool, value: u8)
        requires
            old(self).wf(),
        ensures
            final(self).wf(),
            final(self).rom@ == old(self).rom@,
            STANDARD_USER_MEMORY_BEGIN <= addr <= STANDARD_USER_MEMORY_END ==> final(self).standard_user_memory@
                == old(self).standard_user_memory@.update(addr - STANDARD_USER_MEMORY_BEGIN, value),
            !(STANDARD_USER_MEMORY_BEGIN <= addr <= STANDARD_USER_MEMORY_END) ==> final(self).standard_user_memory@
                == old(self).standard_user_memory@,
            STANDARD_USER_SYSTEM_MEMORY_BEGIN <= addr <= STANDARD_USER_SYSTEM_MEMORY_END
                ==> final(self).standard_user_system_memory@ == old(self).standard_user_system_memory@.update(
                addr - STANDARD_USER_SYSTEM_MEMORY_BEGIN, value),
            !(STANDARD_USER_SYSTEM_MEMORY_BEGIN <= addr <= STANDARD_USER_SYSTEM_MEMORY_END)
                ==> final(self).standard_user_system_memory@ == old(self).standard_user_system_memory@,
    {
        if STANDARD_USER_MEMORY_BEGIN <= addr && addr <= STANDARD_USER_MEMORY_END {
            self.standard_user_memory.set((addr - STANDARD_USER_MEMORY_BEGIN) as usize, value);
        } else if STANDARD_USER_SYSTEM_MEMORY_BEGIN <= addr && addr <= STANDARD_USER_SYSTEM_MEMORY_END {
            self.standard_user_system_memory.set((addr - STANDARD_USER_SYSTEM_MEMORY_BEGIN) as usize, value);
        }
    }
}

/// A RAM byte reads back what was written, and the write leaves other
/// addresses alone.
pub proof fn lemma_bus_read_after_write(m: MemoryBus, m2: MemoryBus, addr: u32, other: u32, value: u8)
    requires
        m.wf(),
        m2.wf(),
        m2.rom@ == m.rom@,
        STANDARD_USER_MEMORY_BEGIN <= addr <= STANDARD_USER_MEMORY_END,
        m2.standard_user_memory@ == m.standard_user_memory@.update(addr - STANDARD_USER_MEMORY_BEGIN, value),
        m2.standard_user_system_memory@ == m.standard_user_system_memory@,
        other != addr,
    ensures
        m2.byte_at(addr) == value,
        m2.byte_at(other) == m.byte_at(other),
{
}

} // verus!
