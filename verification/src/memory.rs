// PC-1500 address decoding: user RAM, system RAM (with its mirror), ROM, and
// the LH5810 registers in the ME1 bank.
use vstd::prelude::*;
use crate::{Pc1500, Pc1500View};
use crate::lh5810::Reg;

verus! {

pub const INITIAL_VALUE: u8 = 0xFF;
pub const STANDARD_USER_MEMORY_BEGIN: u32 = 0x4000;
pub const STANDARD_USER_MEMORY_END: u32 = 0x57FF;
pub const STANDARD_USER_MEMORY_SIZE: usize = 0x1800;
pub const STANDARD_USER_SYSTEM_MEMORY_BEGIN: u32 = 0x7600;
pub const STANDARD_USER_SYSTEM_MEMORY_END: u32 = 0x7FFF;
pub const STANDARD_USER_SYSTEM_MEMORY_SIZE: usize = 0xA00;
pub const ROM_BEGIN: u32 = 0xC000;
pub const ROM_END: u32 = 0xFFFF;
pub const ROM_SIZE: usize = 0x4000;
/// Where the preloaded program starts in user RAM.
pub const PRELOAD_ADDRESS: u32 = 0x40C5;

pub struct MemoryBus {
    pub rom: Vec<u8>,
    pub standard_user_memory: Vec<u8>,
    pub standard_user_system_memory: Vec<u8>,
}

/// The system RAM at power-on: all 0xFF except the BASIC program pointers,
/// which frame a preloaded program of `len` bytes at 0x40C5.
pub open spec fn initial_system_memory(len: nat) -> Seq<u8> {
    let end = (0x40C5 + len) as u16;
    Seq::new(STANDARD_USER_SYSTEM_MEMORY_SIZE as nat, |i: int|
        if i == 0x261 || i == 0x265 { 0x40u8 }
        else if i == 0x262 || i == 0x266 { 0xC5u8 }
        else if i == 0x267 { (end >> 8u16) as u8 }
        else if i == 0x268 { (end & 0xFF) as u8 }
        else { INITIAL_VALUE })
}

/// The user RAM at power-on: zero, with the preloaded program at 0x40C5.
pub open spec fn initial_user_memory(program: Seq<u8>) -> Seq<u8> {
    Seq::new(STANDARD_USER_MEMORY_SIZE as nat, |i: int|
        if 0xC5 <= i < 0xC5 + program.len() { program[i - 0xC5] } else { 0u8 })
}

impl MemoryBus {
    pub open spec fn wf(&self) -> bool {
        &&& self.rom@.len() == ROM_SIZE
        &&& self.standard_user_memory@.len() == STANDARD_USER_MEMORY_SIZE
        &&& self.standard_user_system_memory@.len() == STANDARD_USER_SYSTEM_MEMORY_SIZE
    }

    /// The bus with the given ROM image and a program preloaded in user RAM.
    pub fn new(rom: Vec<u8>, program: &Vec<u8>) -> (r: Self)
        requires
            rom@.len() == ROM_SIZE,
            0xC5 + program@.len() <= STANDARD_USER_MEMORY_SIZE,
        ensures
            r.wf(),
            r.rom@ == rom@,
            r.standard_user_memory@ == initial_user_memory(program@),
            r.standard_user_system_memory@ == initial_system_memory(program@.len()),
    {
        let mut user: Vec<u8> = Vec::new();
        let mut i: usize = 0;
        while i < STANDARD_USER_MEMORY_SIZE
            invariant
                i <= STANDARD_USER_MEMORY_SIZE,
                0xC5 + program@.len() <= STANDARD_USER_MEMORY_SIZE,
                user@.len() == i,
                forall|j: int| 0 <= j < i ==> user@[j] == initial_user_memory(program@)[j],
            decreases STANDARD_USER_MEMORY_SIZE - i,
        {
            if 0xC5 <= i && i < 0xC5 + program.len() {
                user.push(program[i - 0xC5]);
            } else {
                user.push(0u8);
            }
            i = i + 1;
        }
        let end: u16 = 0x40C5u16 + (program.len() as u16);
        let end_high: u8 = (end >> 8u16) as u8;
        let end_low: u8 = (end & 0xFF) as u8;
        let mut sys: Vec<u8> = Vec::new();
        let mut k: usize = 0;
        while k < STANDARD_USER_SYSTEM_MEMORY_SIZE
            invariant
                k <= STANDARD_USER_SYSTEM_MEMORY_SIZE,
                sys@.len() == k,
                end_high == ((0x40C5 + program@.len()) as u16 >> 8u16) as u8,
                end_low == (((0x40C5 + program@.len()) as u16) & 0xFF) as u8,
                forall|j: int| 0 <= j < k ==> sys@[j] == initial_system_memory(program@.len())[j],
            decreases STANDARD_USER_SYSTEM_MEMORY_SIZE - k,
        {
            let v: u8 = if k == 0x261 || k == 0x265 { 0x40 } else if k == 0x262 || k == 0x266 { 0xC5 }
                else if k == 0x267 { end_high } else if k == 0x268 { end_low } else { INITIAL_VALUE };
            sys.push(v);
            k = k + 1;
        }
        assert(user@ =~= initial_user_memory(program@));
        assert(sys@ =~= initial_system_memory(program@.len()));
        MemoryBus { rom, standard_user_memory: user, standard_user_system_memory: sys }
    }
}

/// The 0x7000-0x75FF window shows system RAM 0x7600-0x77FF.
pub open spec fn mirror(addr: u32) -> u32 {
    if 0x7000 <= addr <= 0x75FF { (addr & 0x1FF) | 0x7600 } else { addr }
}

/// LH5810 register behind a readable ME1 address.
pub open spec fn read_port(addr: u32) -> Option<Reg> {
    if addr == 0x1F005 { Some(Reg::U) }
    else if addr == 0x1F006 { Some(Reg::L) }
    else if addr == 0x1F007 { Some(Reg::F) }
    else if addr == 0x1F008 { Some(Reg::OPC) }
    else if addr == 0x1F009 { Some(Reg::G) }
    else if addr == 0x1F00A { Some(Reg::MSK) }
    else if addr == 0x1F00B { Some(Reg::IF) }
    else if addr == 0x1F00C { Some(Reg::DDA) }
    else if addr == 0x1F00D { Some(Reg::DDB) }
    else if addr == 0x1F00E { Some(Reg::OPA) }
    else if addr == 0x1F00F { Some(Reg::OPB) }
    else { None }
}

/// LH5810 register behind a writable ME1 address (RESET is write-only).
pub open spec fn write_port(addr: u32) -> Option<Reg> {
    if addr == 0x1F004 { Some(Reg::RESET) } else { read_port(addr) }
}

pub proof fn lemma_mirror_range(addr: u32)
    ensures
        0x7000 <= addr <= 0x75FF ==> 0x7600 <= mirror(addr) <= 0x77FF,
        !(0x7000 <= addr <= 0x75FF) ==> mirror(addr) == addr,
{
    assert(0x7000 <= addr <= 0x75FF ==> 0x7600 <= ((addr & 0x1FF) | 0x7600) <= 0x77FF) by (bit_vector);
}

fn port_for_read(addr: u32) -> (r: Option<Reg>)
    ensures
        r == read_port(addr),
{
    if addr == 0x1F005 { Some(Reg::U) }
    else if addr == 0x1F006 { Some(Reg::L) }
    else if addr == 0x1F007 { Some(Reg::F) }
    else if addr == 0x1F008 { Some(Reg::OPC) }
    else if addr == 0x1F009 { Some(Reg::G) }
    else if addr == 0x1F00A { Some(Reg::MSK) }
    else if addr == 0x1F00B { Some(Reg::IF) }
    else if addr == 0x1F00C { Some(Reg::DDA) }
    else if addr == 0x1F00D { Some(Reg::DDB) }
    else if addr == 0x1F00E { Some(Reg::OPA) }
    else if addr == 0x1F00F { Some(Reg::OPB) }
    else { None }
}

fn port_for_write(addr: u32) -> (r: Option<Reg>)
    ensures
        r == write_port(addr),
{
    if addr == 0x1F004 { Some(Reg::RESET) } else { port_for_read(addr) }
}

impl Pc1500View {
    /// Byte seen by the CPU at `addr` (bit 16 selects the ME1 bank).
    pub open spec fn mem_read(&self, addr: u32) -> u8 {
        let a = mirror(addr);
        if read_port(a).is_some() {
            self.io.reg_spec(read_port(a).unwrap())
        } else if STANDARD_USER_MEMORY_BEGIN <= a <= STANDARD_USER_MEMORY_END {
            self.user[a - STANDARD_USER_MEMORY_BEGIN]
        } else if STANDARD_USER_SYSTEM_MEMORY_BEGIN <= a <= STANDARD_USER_SYSTEM_MEMORY_END {
            self.sys[a - STANDARD_USER_SYSTEM_MEMORY_BEGIN]
        } else if ROM_BEGIN <= a <= ROM_END {
            self.rom[a - ROM_BEGIN]
        } else {
            INITIAL_VALUE
        }
    }

    /// The machine after the CPU writes `value` at `addr`: RAM stores it,
    /// LH5810 registers take it at the current machine time, ROM and unmapped
    /// addresses ignore it.
    pub open spec fn mem_write(self, addr: u32, value: u8) -> Pc1500View {
        let a = mirror(addr);
        if write_port(a).is_some() {
            Pc1500View { io: self.io.set_reg_spec(write_port(a).unwrap(), value, self.cpu.timer_state), ..self }
        } else if STANDARD_USER_MEMORY_BEGIN <= a <= STANDARD_USER_MEMORY_END {
            Pc1500View { user: self.user.update(a - STANDARD_USER_MEMORY_BEGIN, value), ..self }
        } else if STANDARD_USER_SYSTEM_MEMORY_BEGIN <= a <= STANDARD_USER_SYSTEM_MEMORY_END {
            Pc1500View { sys: self.sys.update(a - STANDARD_USER_SYSTEM_MEMORY_BEGIN, value), ..self }
        } else {
            self
        }
    }
}

impl Pc1500 {
    fn mirror_addresses(&self, addr: u32) -> (r: u32)
        ensures
            r == mirror(addr),
    {
        if addr >= 0x7000 && addr <= 0x75FF {
            return addr & 0x1FF | 0x7600;
        }
        addr
    }

    pub fn read_byte(&self, addr: u32) -> (r: u8)
        requires
            self.wf(),
        ensures
            r == self@.mem_read(addr),
    {
        let a = self.mirror_addresses(addr);
        proof { lemma_mirror_range(addr); }
        match port_for_read(a) {
            Some(reg) => self.lh5810.get_reg(reg),
            None => {
                if STANDARD_USER_MEMORY_BEGIN <= a && a <= STANDARD_USER_MEMORY_END {
                    self.memory.standard_user_memory[(a - STANDARD_USER_MEMORY_BEGIN) as usize]
                } else if STANDARD_USER_SYSTEM_MEMORY_BEGIN <= a && a <= STANDARD_USER_SYSTEM_MEMORY_END {
                    self.memory.standard_user_system_memory[(a - STANDARD_USER_SYSTEM_MEMORY_BEGIN) as usize]
                } else if ROM_BEGIN <= a && a <= ROM_END {
                    self.memory.rom[(a - ROM_BEGIN) as usize]
                } else {
                    INITIAL_VALUE
                }
            },
        }
    }

    pub fn write_byte(&mut self, addr: u32, value: u8)
        requires
            old(self).wf(),
        ensures
            final(self).wf(),
            final(self)@ == old(self)@.mem_write(addr, value),
    {
        let a = self.mirror_addresses(addr);
        proof { lemma_mirror_range(addr); }
        match port_for_write(a) {
            Some(reg) => {
                let ts = self.lh5801.timer_state();
                self.lh5810.set_reg(reg, value, ts);
            },
            None => {
                if STANDARD_USER_MEMORY_BEGIN <= a && a <= STANDARD_USER_MEMORY_END {
                    self.memory.standard_user_memory.set((a - STANDARD_USER_MEMORY_BEGIN) as usize, value);
                } else if STANDARD_USER_SYSTEM_MEMORY_BEGIN <= a && a <= STANDARD_USER_SYSTEM_MEMORY_END {
                    self.memory.standard_user_system_memory.set((a - STANDARD_USER_SYSTEM_MEMORY_BEGIN) as usize, value);
                }
            },
        }
    }
}

/// A RAM byte reads back what was last written to it, and a write leaves
/// every other address as it was; writes to ROM change nothing.
pub proof fn lemma_ram_read_after_write(m: Pc1500View, addr: u32, other: u32, value: u8)
    requires
        m.wf(),
        STANDARD_USER_MEMORY_BEGIN <= mirror(addr) <= STANDARD_USER_MEMORY_END
            || STANDARD_USER_SYSTEM_MEMORY_BEGIN <= mirror(addr) <= STANDARD_USER_SYSTEM_MEMORY_END,
        read_port(mirror(other)).is_none(),
        mirror(other) != mirror(addr),
    ensures
        m.mem_write(addr, value).mem_read(addr) == value,
        m.mem_write(addr, value).mem_read(other) == m.mem_read(other),
{
    lemma_mirror_range(addr);
    lemma_mirror_range(other);
}

/// Writing to ROM leaves the machine unchanged.
pub proof fn lemma_rom_write_ignored(m: Pc1500View, addr: u32, value: u8)
    requires
        ROM_BEGIN <= addr <= ROM_END,
    ensures
        m.mem_write(addr, value) == m,
{
}

} // verus!
