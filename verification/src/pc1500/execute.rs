// Instruction execution for the stand-alone LH5801 model: operand fetch,
// the ME0/ME1 addressing modes, and the decoder for the opcodes it knows.
use vstd::prelude::*;
use crate::lh5801::{lo_byte, hi_byte, with_lo, with_hi, with_flag};
use crate::pc1500::cpu::{Lh5801Cpu, ZF, CF, VF, HF, bit_in, decimal_adjust};
use crate::pc1500::memory::{MemoryBus, next_addr, prev_addr, in_ram, lemma_stored_read_back};

verus! {

/// One of the three pointer registers.
#[derive(Clone, Copy, Debug, PartialEq, Eq, Structural)]
pub enum Rreg {
    X,
    Y,
    U,
}

/// `p` moved by a signed 8-bit displacement, wrapping at 64 KB.
pub open spec fn displaced(p: u16, offset: i8) -> u16 {
    (p + offset) as u16
}

/// The pointer register `r` of `c`.
pub open spec fn rreg(c: Lh5801Cpu, r: Rreg) -> u16 {
    match r {
        Rreg::X => c.x,
        Rreg::Y => c.y,
        Rreg::U => c.u,
    }
}

/// `c` with the pointer register `r` set to `v`.
pub open spec fn with_rreg(c: Lh5801Cpu, r: Rreg, v: u16) -> Lh5801Cpu {
    match r {
        Rreg::X => Lh5801Cpu { x: v, ..c },
        Rreg::Y => Lh5801Cpu { y: v, ..c },
        Rreg::U => Lh5801Cpu { u: v, ..c },
    }
}

/// Z set from `v`, other flags kept.
pub open spec fn zero_from(c: Lh5801Cpu, v: u8) -> Lh5801Cpu {
    Lh5801Cpu { flags: with_flag(c.flags, ZF, v == 0), ..c }
}

/// The flags after adding `i` to a memory byte `v`: Z from the sum, C from the
/// carry out.
pub open spec fn add_mem_flags(f: u8, v: u8, i: u8) -> u8 {
    with_flag(with_flag(f, ZF, v.wrapping_add(i) == 0), CF, v + i > 0xFF)
}

/// The flags after comparing a byte `v` with `i`: Z on equal, C when below.
pub open spec fn compare_flags(f: u8, v: u8, i: u8) -> u8 {
    with_flag(with_flag(f, ZF, v.wrapping_sub(i) == 0), CF, v < i)
}

/// Opcodes of the arithmetic, logic, bit-test and branch group.
pub open spec fn arith_op(op: u8) -> bool {
    match op {
        0x02 | 0x12 | 0x22 | 0x82 | 0x92 | 0xA2 | 0x03 | 0x13 | 0x23 | 0xA3 | 0xB3 | 0x4F | 0x5F | 0x6F
        | 0xEF | 0x09 | 0x19 | 0x29 | 0xA9 | 0xB9 | 0x49 | 0x59 | 0x69 | 0xE9 | 0x0F | 0x1F | 0x2F | 0xAF
        | 0x8F | 0x9F | 0x8B | 0x9B | 0x83 | 0x93 | 0x81 | 0x91 | 0x87 | 0x97 | 0x85 | 0x95 | 0xBF | 0x4D
        | 0x5D | 0x6D | 0xED => true,
        _ => false,
    }
}

/// Opcodes of the compare, decimal and control group.
pub open spec fn compare_op(op: u8) -> bool {
    match op {
        0x8E | 0xF7 | 0x06 | 0x16 | 0x26 | 0x86 | 0x96 | 0xA6 | 0x07 | 0x17 | 0x27 | 0xA7 | 0xB7 | 0x4E
        | 0x5E | 0x6E | 0x4C | 0x5C | 0x6C | 0x8C | 0x9C | 0xAC | 0x0C | 0x1C | 0x2C => true,
        _ => false,
    }
}

/// Opcodes that load A, a register part or S.
pub open spec fn load_op(op: u8) -> bool {
    match op {
        0x04 | 0x14 | 0x24 | 0x84 | 0x94 | 0xA4 | 0x05 | 0x15 | 0x25 | 0xA5 | 0xB5 | 0x4A | 0x5A | 0x6A
        | 0x48 | 0x58 | 0x68 | 0xAA | 0x47 | 0x57 | 0x67 | 0x45 | 0x55 | 0x65 => true,
        _ => false,
    }
}

/// Opcodes that store A.
pub open spec fn store_op(op: u8) -> bool {
    match op {
        0x0A | 0x1A | 0x2A | 0x08 | 0x18 | 0x28 | 0x0E | 0x1E | 0x2E | 0xAE | 0x43 | 0x53 | 0x63 | 0x41
        | 0x51 | 0x61 => true,
        _ => false,
    }
}

/// Prefix bytes whose second byte is read and ignored.
pub open spec fn empty_prefix(op: u8) -> bool {
    match op {
        0x01 | 0x21 | 0x11 | 0x35 | 0x0D | 0x1D | 0x2D | 0x3D => true,
        _ => false,
    }
}

/// Opcodes the decoder knows, the FD prefix included.
pub open spec fn main_known(op: u8) -> bool {
    arith_op(op) || compare_op(op) || load_op(op) || store_op(op) || empty_prefix(op) || op == 0xFD
}

/// Whether a conditional branch opcode takes its branch under `f`.
pub open spec fn branch_taken(op: u8, f: u8) -> bool {
    match op {
        0x8F => f & VF != 0,
        0x9F => f & VF == 0,
        0x8B => f & ZF != 0,
        0x9B => f & ZF == 0,
        0x83 => f & CF != 0,
        0x93 | 0x91 | 0x81 => f & CF == 0,
        0x87 => f & HF != 0,
        0x97 | 0x95 | 0x85 => f & HF == 0,
        _ => false,
    }
}

/// Cycles of a one-byte-opcode instruction (not FD) under flags `f`.
pub open spec fn main_cycles(op: u8, f: u8) -> int {
    match op {
        0x03 | 0x13 | 0x23 | 0x09 | 0x19 | 0x29 | 0x0F | 0x1F | 0x2F | 0x07 | 0x17 | 0x27 | 0x8C | 0x9C
        | 0xAC | 0x0C | 0x1C | 0x2C | 0x05 | 0x15 | 0x25 | 0x47 | 0x57 | 0x67 | 0x45 | 0x55 | 0x65 | 0x0E
        | 0x1E | 0x2E | 0x43 | 0x53 | 0x63 | 0x41 | 0x51 | 0x61 | 0xAA => 7,
        0xA3 | 0xA9 | 0xAF | 0x8E | 0xA7 | 0xA5 | 0xAE => 8,
        0xB3 | 0xB9 | 0xBF | 0xB7 | 0x4C | 0x5C | 0x6C | 0xB5 | 0x4A | 0x5A | 0x6A | 0x48 | 0x58 | 0x68 => 6,
        0x4F | 0x5F | 0x6F | 0x49 | 0x59 | 0x69 | 0x4D | 0x5D | 0x6D | 0x4E | 0x5E | 0x6E => 9,
        0xEF | 0xE9 | 0xED => 11,
        0x8F | 0x9F | 0x8B | 0x9B | 0x83 | 0x93 | 0x81 | 0x91 | 0x87 | 0x97 | 0x85 | 0x95 =>
            if branch_taken(op, f) { 8 } else { 5 },
        _ => 5,
    }
}

/// One-byte opcodes that write memory.
pub open spec fn main_writes(op: u8) -> bool {
    match op {
        0x4F | 0x5F | 0x6F | 0xEF | 0x49 | 0x59 | 0x69 | 0xE9 | 0x0E | 0x1E | 0x2E | 0xAE | 0x43 | 0x53
        | 0x63 | 0x41 | 0x51 | 0x61 => true,
        _ => false,
    }
}

/// Second bytes after FD of the arithmetic, logic, test and control group.
pub open spec fn fd_arith_op(op: u8) -> bool {
    match op {
        0x03 | 0x13 | 0x23 | 0xA3 | 0x4F | 0x5F | 0x6F | 0xEF | 0xCA | 0xDA | 0xEA | 0xF1 | 0x09 | 0x19
        | 0x29 | 0xA9 | 0x49 | 0x59 | 0x69 | 0xE9 | 0xCE | 0xDE | 0xCC | 0xEC | 0x0F | 0x1F | 0x2F | 0xAF
        | 0x4D | 0x5D | 0x6D | 0xED | 0x8E | 0xF7 | 0x07 | 0x17 | 0x27 | 0xA7 | 0x8C | 0x9C | 0xAC | 0x0C
        | 0x1C | 0x2C => true,
        _ => false,
    }
}

/// Second bytes after FD of the timer, port, test, compare and decimal
/// instructions.
pub open spec fn fd_control_op(op: u8) -> bool {
    match op {
        0xCE | 0xDE | 0xCC | 0xEC | 0x0F | 0x1F | 0x2F | 0xAF | 0x4D | 0x5D | 0x6D | 0xED | 0x8E | 0xF7
        | 0x07 | 0x17 | 0x27 | 0xA7 | 0x8C | 0x9C | 0xAC | 0x0C | 0x1C | 0x2C => true,
        _ => false,
    }
}

/// Second bytes after FD of the transfer group.
pub open spec fn fd_transfer_op(op: u8) -> bool {
    match op {
        0x05 | 0x15 | 0x25 | 0xA5 | 0x08 | 0x18 | 0x28 | 0x48 | 0x58 | 0x0E | 0x1E | 0x2E | 0xAE | 0x4A
        | 0x5A | 0x6A | 0x4E | 0x5E | 0xC8 | 0x88 | 0x98 | 0xA8 | 0x8A | 0x0A | 0x1A | 0x2A | 0xBA
        | 0xAA => true,
        _ => false,
    }
}

/// Cycles of the FD-prefixed instruction with second byte `op`.
pub open spec fn fd_cycles(op: u8) -> int {
    match op {
        0x03 | 0x13 | 0x23 | 0x09 | 0x19 | 0x29 | 0x0F | 0x1F | 0x2F | 0x07 | 0x17 | 0x27 | 0x8C | 0x9C
        | 0xAC | 0x0C | 0x1C | 0x2C | 0x05 | 0x15 | 0x25 | 0x0E | 0x1E | 0x2E => 9,
        0xA3 | 0xA9 | 0xAF | 0xA7 | 0xA5 | 0xAE => 10,
        0x4F | 0x5F | 0x6F | 0x49 | 0x59 | 0x69 | 0x4D | 0x5D | 0x6D => 11,
        0xEF | 0xE9 | 0xED => 13,
        0xCA | 0xDA | 0xEA => 6,
        0xCE | 0xDE | 0xCC | 0xBA | 0xAA => 2,
        0xEC | 0x8E => 8,
        0xC8 | 0x8A => 3,
        _ => 5,
    }
}

/// FD-prefixed instructions that write memory or the output latch.
pub open spec fn fd_writes(op: u8) -> bool {
    match op {
        0x4F | 0x5F | 0x6F | 0xEF | 0x49 | 0x59 | 0x69 | 0xE9 | 0x0E | 0x1E | 0x2E | 0xAE | 0xC8 | 0x88
        | 0x98 | 0xA8 | 0xCC => true,
        _ => false,
    }
}

/// The machine after A is loaded with `v`: Z follows it.
pub open spec fn loaded(c: Lh5801Cpu, v: u8) -> Lh5801Cpu {
    zero_from(Lh5801Cpu { a: v, ..c }, v)
}

/// The machine after CPA with operand `v`.
pub open spec fn after_cpa(c: Lh5801Cpu, v: u8) -> Lh5801Cpu {
    let a = c.a;
    let res = a.wrapping_sub(v);
    Lh5801Cpu {
        flags: with_flag(with_flag(with_flag(with_flag(c.flags, ZF, res == 0), CF, a < v),
            HF, (a & 0x0F) < (v & 0x0F)),
            VF, (a & 0x80) != (v & 0x80) && (a & 0x80) != (res & 0x80)),
        ..c
    }
}

/// The registers after an instruction of the arithmetic group.
pub open spec fn model_arith(op: u8, c: Lh5801Cpu, m: MemoryBus) -> Lh5801Cpu {
    match op {
        0x02 => after_adc(c, lo_byte(c.x)),
        0x12 => after_adc(c, lo_byte(c.y)),
        0x22 => after_adc(c, lo_byte(c.u)),
        0x82 => after_adc(c, hi_byte(c.x)),
        0x92 => after_adc(c, hi_byte(c.y)),
        0xA2 => after_adc(c, hi_byte(c.u)),
        0x03 => after_adc(c, m.byte(c.x)),
        0x13 => after_adc(c, m.byte(c.y)),
        0x23 => after_adc(c, m.byte(c.u)),
        0xA3 => after_adc(skip(c, 2), m.byte(m.word(c.p))),
        0xB3 => after_adc(skip(c, 1), m.byte(c.p)),
        0x4F => Lh5801Cpu { flags: add_mem_flags(c.flags, m.byte(c.x), m.byte(c.p)), ..skip(c, 1) },
        0x5F => Lh5801Cpu { flags: add_mem_flags(c.flags, m.byte(c.y), m.byte(c.p)), ..skip(c, 1) },
        0x6F => Lh5801Cpu { flags: add_mem_flags(c.flags, m.byte(c.u), m.byte(c.p)), ..skip(c, 1) },
        0xEF => Lh5801Cpu { flags: add_mem_flags(c.flags, m.byte(m.word(c.p)), m.byte(next_addr(next_addr(c.p)))), ..skip(c, 3) },
        0x09 => after_logic(c, c.a & m.byte(c.x)),
        0x19 => after_logic(c, c.a & m.byte(c.y)),
        0x29 => after_logic(c, c.a & m.byte(c.u)),
        0xA9 => after_logic(skip(c, 2), c.a & m.byte(m.word(c.p))),
        0xB9 => after_logic(skip(c, 1), c.a & m.byte(c.p)),
        0x49 => zero_from(skip(c, 1), m.byte(c.x) & m.byte(c.p)),
        0x59 => zero_from(skip(c, 1), m.byte(c.y) & m.byte(c.p)),
        0x69 => zero_from(skip(c, 1), m.byte(c.u) & m.byte(c.p)),
        0xE9 => zero_from(skip(c, 3), m.byte(m.word(c.p)) & m.byte(next_addr(next_addr(c.p)))),
        0x0F => Lh5801Cpu { flags: with_flag(c.flags, ZF, c.x == 0), ..c },
        0x1F => Lh5801Cpu { flags: with_flag(c.flags, ZF, c.y == 0), ..c },
        0x2F => Lh5801Cpu { flags: with_flag(c.flags, ZF, c.u == 0), ..c },
        0xAF => zero_from(skip(c, 2), m.byte(m.word(c.p))),
        0x8F => if branch_taken(op, c.flags) { Lh5801Cpu { p: displaced(next_addr(c.p), m.byte(c.p) as i8), ..c } } else { skip(c, 1) },
        0x9F => if branch_taken(op, c.flags) { Lh5801Cpu { p: displaced(next_addr(c.p), m.byte(c.p) as i8), ..c } } else { skip(c, 1) },
        0x8B => if branch_taken(op, c.flags) { Lh5801Cpu { p: displaced(next_addr(c.p), m.byte(c.p) as i8), ..c } } else { skip(c, 1) },
        0x9B => if branch_taken(op, c.flags) { Lh5801Cpu { p: displaced(next_addr(c.p), m.byte(c.p) as i8), ..c } } else { skip(c, 1) },
        0x83 => if branch_taken(op, c.flags) { Lh5801Cpu { p: displaced(next_addr(c.p), m.byte(c.p) as i8), ..c } } else { skip(c, 1) },
        0x93 => if branch_taken(op, c.flags) { Lh5801Cpu { p: displaced(next_addr(c.p), m.byte(c.p) as i8), ..c } } else { skip(c, 1) },
        0x81 => if branch_taken(op, c.flags) { Lh5801Cpu { p: displaced(next_addr(c.p), m.byte(c.p) as i8), ..c } } else { skip(c, 1) },
        0x91 => if branch_taken(op, c.flags) { Lh5801Cpu { p: displaced(next_addr(c.p), m.byte(c.p) as i8), ..c } } else { skip(c, 1) },
        0x87 => if branch_taken(op, c.flags) { Lh5801Cpu { p: displaced(next_addr(c.p), m.byte(c.p) as i8), ..c } } else { skip(c, 1) },
        0x97 => if branch_taken(op, c.flags) { Lh5801Cpu { p: displaced(next_addr(c.p), m.byte(c.p) as i8), ..c } } else { skip(c, 1) },
        0x85 => if branch_taken(op, c.flags) { Lh5801Cpu { p: displaced(next_addr(c.p), m.byte(c.p) as i8), ..c } } else { skip(c, 1) },
        0x95 => if branch_taken(op, c.flags) { Lh5801Cpu { p: displaced(next_addr(c.p), m.byte(c.p) as i8), ..c } } else { skip(c, 1) },
        0xBF => skip(c, 1),
        0x4D => skip(c, 1),
        0x5D => skip(c, 1),
        0x6D => skip(c, 1),
        0xED => skip(c, 3),
        _ => c,
    }
}

/// The registers after an instruction of the compare group.
pub open spec fn model_compare(op: u8, c: Lh5801Cpu, m: MemoryBus) -> Lh5801Cpu {
    match op {
        0x8E => c,
        0xF7 => Lh5801Cpu { interrupt_enabled: false, ..c },
        0x06 => after_cpa(c, lo_byte(c.x)),
        0x16 => after_cpa(c, lo_byte(c.y)),
        0x26 => after_cpa(c, lo_byte(c.u)),
        0x86 => after_cpa(c, hi_byte(c.x)),
        0x96 => after_cpa(c, hi_byte(c.y)),
        0xA6 => after_cpa(c, hi_byte(c.u)),
        0x07 => after_cpa(c, m.byte(c.x)),
        0x17 => after_cpa(c, m.byte(c.y)),
        0x27 => after_cpa(c, m.byte(c.u)),
        0xA7 => after_cpa(skip(c, 2), m.byte(m.word(c.p))),
        0xB7 => after_cpa(skip(c, 1), m.byte(c.p)),
        0x4E => Lh5801Cpu { flags: compare_flags(c.flags, m.byte(c.x), m.byte(c.p)), ..skip(c, 1) },
        0x5E => Lh5801Cpu { flags: compare_flags(c.flags, m.byte(c.y), m.byte(c.p)), ..skip(c, 1) },
        0x6E => Lh5801Cpu { flags: compare_flags(c.flags, m.byte(c.u), m.byte(c.p)), ..skip(c, 1) },
        0x4C => Lh5801Cpu { flags: compare_flags(c.flags, hi_byte(c.x), m.byte(c.p)), ..skip(c, 1) },
        0x5C => Lh5801Cpu { flags: compare_flags(c.flags, hi_byte(c.y), m.byte(c.p)), ..skip(c, 1) },
        0x6C => Lh5801Cpu { flags: compare_flags(c.flags, hi_byte(c.u), m.byte(c.p)), ..skip(c, 1) },
        0x8C => after_dca(c, m.byte(c.x)),
        0x9C => after_dca(c, m.byte(c.y)),
        0xAC => after_dca(c, m.byte(c.u)),
        0x0C => after_dcs(c, m.byte(c.x)),
        0x1C => after_dcs(c, m.byte(c.y)),
        0x2C => after_dcs(c, m.byte(c.u)),
        _ => c,
    }
}

/// The registers after an instruction of the load group.
pub open spec fn model_load(op: u8, c: Lh5801Cpu, m: MemoryBus) -> Lh5801Cpu {
    match op {
        0x04 => loaded(c, lo_byte(c.x)),
        0x14 => loaded(c, lo_byte(c.y)),
        0x24 => loaded(c, lo_byte(c.u)),
        0x84 => loaded(c, hi_byte(c.x)),
        0x94 => loaded(c, hi_byte(c.y)),
        0xA4 => loaded(c, hi_byte(c.u)),
        0x05 => loaded(c, m.byte(c.x)),
        0x15 => loaded(c, m.byte(c.y)),
        0x25 => loaded(c, m.byte(c.u)),
        0xA5 => loaded(skip(c, 2), m.byte(m.word(c.p))),
        0xB5 => loaded(skip(c, 1), m.byte(c.p)),
        0x4A => with_rreg(skip(c, 1), Rreg::X, with_lo(rreg(c, Rreg::X), m.byte(c.p))),
        0x5A => with_rreg(skip(c, 1), Rreg::Y, with_lo(rreg(c, Rreg::Y), m.byte(c.p))),
        0x6A => with_rreg(skip(c, 1), Rreg::U, with_lo(rreg(c, Rreg::U), m.byte(c.p))),
        0x48 => with_rreg(skip(c, 1), Rreg::X, with_hi(rreg(c, Rreg::X), m.byte(c.p))),
        0x58 => with_rreg(skip(c, 1), Rreg::Y, with_hi(rreg(c, Rreg::Y), m.byte(c.p))),
        0x68 => with_rreg(skip(c, 1), Rreg::U, with_hi(rreg(c, Rreg::U), m.byte(c.p))),
        0xAA => Lh5801Cpu { s: m.word(c.p), ..skip(c, 2) },
        0x47 => with_rreg(loaded(c, m.byte(rreg(c, Rreg::X))), Rreg::X, prev_addr(rreg(c, Rreg::X))),
        0x57 => with_rreg(loaded(c, m.byte(rreg(c, Rreg::Y))), Rreg::Y, prev_addr(rreg(c, Rreg::Y))),
        0x67 => with_rreg(loaded(c, m.byte(rreg(c, Rreg::U))), Rreg::U, prev_addr(rreg(c, Rreg::U))),
        0x45 => with_rreg(loaded(c, m.byte(rreg(c, Rreg::X))), Rreg::X, next_addr(rreg(c, Rreg::X))),
        0x55 => with_rreg(loaded(c, m.byte(rreg(c, Rreg::Y))), Rreg::Y, next_addr(rreg(c, Rreg::Y))),
        0x65 => with_rreg(loaded(c, m.byte(rreg(c, Rreg::U))), Rreg::U, next_addr(rreg(c, Rreg::U))),
        _ => c,
    }
}

/// The registers after an instruction of the store group.
pub open spec fn model_store(op: u8, c: Lh5801Cpu, m: MemoryBus) -> Lh5801Cpu {
    match op {
        0x0A => with_rreg(c, Rreg::X, with_lo(rreg(c, Rreg::X), c.a)),
        0x1A => with_rreg(c, Rreg::Y, with_lo(rreg(c, Rreg::Y), c.a)),
        0x2A => with_rreg(c, Rreg::U, with_lo(rreg(c, Rreg::U), c.a)),
        0x08 => with_rreg(c, Rreg::X, with_hi(rreg(c, Rreg::X), c.a)),
        0x18 => with_rreg(c, Rreg::Y, with_hi(rreg(c, Rreg::Y), c.a)),
        0x28 => with_rreg(c, Rreg::U, with_hi(rreg(c, Rreg::U), c.a)),
        0x0E => c,
        0x1E => c,
        0x2E => c,
        0xAE => skip(c, 2),
        0x43 => with_rreg(c, Rreg::X, prev_addr(rreg(c, Rreg::X))),
        0x53 => with_rreg(c, Rreg::Y, prev_addr(rreg(c, Rreg::Y))),
        0x63 => with_rreg(c, Rreg::U, prev_addr(rreg(c, Rreg::U))),
        0x41 => with_rreg(c, Rreg::X, next_addr(rreg(c, Rreg::X))),
        0x51 => with_rreg(c, Rreg::Y, next_addr(rreg(c, Rreg::Y))),
        0x61 => with_rreg(c, Rreg::U, next_addr(rreg(c, Rreg::U))),
        _ => c,
    }
}

/// The registers after the one-byte-opcode instruction `op` (not FD), from
/// `c` just after the opcode was fetched and the bus `m` before the
/// instruction; an opcode the model does not know changes nothing.
pub open spec fn model_after(op: u8, c: Lh5801Cpu, m: MemoryBus) -> Lh5801Cpu {
    if arith_op(op) {
        model_arith(op, c, m)
    } else if compare_op(op) {
        model_compare(op, c, m)
    } else if load_op(op) {
        model_load(op, c, m)
    } else if store_op(op) {
        model_store(op, c, m)
    } else if empty_prefix(op) {
        skip(c, 1)
    } else {
        c
    }
}

/// How the one-byte-opcode instruction `op` changes the bus `m` into `m2`.
pub open spec fn model_writes(op: u8, c: Lh5801Cpu, m: MemoryBus, m2: MemoryBus) -> bool {
    match op {
        0x4F => m.stored(m2, c.x, m.byte(c.x).wrapping_add(m.byte(c.p))),
        0x5F => m.stored(m2, c.y, m.byte(c.y).wrapping_add(m.byte(c.p))),
        0x6F => m.stored(m2, c.u, m.byte(c.u).wrapping_add(m.byte(c.p))),
        0xEF => m.stored(m2, m.word(c.p), m.byte(m.word(c.p)).wrapping_add(m.byte(next_addr(next_addr(c.p))))),
        0x49 => m.stored(m2, c.x, m.byte(c.x) & m.byte(c.p)),
        0x59 => m.stored(m2, c.y, m.byte(c.y) & m.byte(c.p)),
        0x69 => m.stored(m2, c.u, m.byte(c.u) & m.byte(c.p)),
        0xE9 => m.stored(m2, m.word(c.p), m.byte(m.word(c.p)) & m.byte(next_addr(next_addr(c.p)))),
        0x0E => m.stored(m2, c.x, c.a),
        0x1E => m.stored(m2, c.y, c.a),
        0x2E => m.stored(m2, c.u, c.a),
        0x43 => m.stored(m2, c.x, c.a),
        0x53 => m.stored(m2, c.y, c.a),
        0x63 => m.stored(m2, c.u, c.a),
        0x41 => m.stored(m2, c.x, c.a),
        0x51 => m.stored(m2, c.y, c.a),
        0x61 => m.stored(m2, c.u, c.a),
        0xAE => m.stored(m2, m.word(c.p), c.a),
        _ => m2 == m,
    }
}

/// The machine after ADR: A added to the pointer register `r`, Z from the
/// new value, C when the new value plus A passes 0xFFFF.
pub open spec fn after_adr(c: Lh5801Cpu, r: Rreg) -> Lh5801Cpu {
    let v = rreg(c, r).wrapping_add(c.a as u16);
    Lh5801Cpu { flags: with_flag(with_flag(c.flags, ZF, v == 0), CF, v + c.a > 0xFFFF), ..with_rreg(c, r, v) }
}

/// The registers after an FD-prefixed instruction of the arithmetic and control group.
pub open spec fn model_fd_arith(op: u8, c: Lh5801Cpu, m: MemoryBus) -> Lh5801Cpu {
    match op {
        0x03 => after_adc(c, m.byte(m.word(c.x))),
        0x13 => after_adc(c, m.byte(m.word(c.y))),
        0x23 => after_adc(c, m.byte(m.word(c.u))),
        0xA3 => after_adc(skip(c, 2), m.byte(m.word(m.word(c.p)))),
        0x4F => Lh5801Cpu { flags: add_mem_flags(c.flags, m.byte(m.word(c.x)), m.byte(c.p)), ..skip(c, 1) },
        0x5F => Lh5801Cpu { flags: add_mem_flags(c.flags, m.byte(m.word(c.y)), m.byte(c.p)), ..skip(c, 1) },
        0x6F => Lh5801Cpu { flags: add_mem_flags(c.flags, m.byte(m.word(c.u)), m.byte(c.p)), ..skip(c, 1) },
        0xEF => Lh5801Cpu { flags: add_mem_flags(c.flags, m.byte(m.word(m.word(c.p))), m.byte(next_addr(next_addr(c.p)))), ..skip(c, 3) },
        0xCA => after_adr(c, Rreg::X),
        0xDA => after_adr(c, Rreg::Y),
        0xEA => after_adr(c, Rreg::U),
        0xF1 => c,
        0x09 => after_logic(c, c.a & m.byte(m.word(c.x))),
        0x19 => after_logic(c, c.a & m.byte(m.word(c.y))),
        0x29 => after_logic(c, c.a & m.byte(m.word(c.u))),
        0xA9 => after_logic(skip(c, 2), c.a & m.byte(m.word(m.word(c.p)))),
        0x49 => zero_from(skip(c, 1), m.byte(m.word(c.x)) & m.byte(c.p)),
        0x59 => zero_from(skip(c, 1), m.byte(m.word(c.y)) & m.byte(c.p)),
        0x69 => zero_from(skip(c, 1), m.byte(m.word(c.u)) & m.byte(c.p)),
        0xE9 => zero_from(skip(c, 3), m.byte(m.word(m.word(c.p))) & m.byte(next_addr(next_addr(c.p)))),
        0xCE => Lh5801Cpu { timer_register: (c.a as u16) & 0x00FF, ..c },
        0xDE => Lh5801Cpu { timer_register: ((c.timer_register & 0xFF00) | (c.a as u16)) | 0x0100, ..c },
        0xCC => c,
        0xEC => Lh5801Cpu { t_register: c.a, ..c },
        0x0F => zero_from(c, m.byte(m.word(c.x))),
        0x1F => zero_from(c, m.byte(m.word(c.y))),
        0x2F => zero_from(c, m.byte(m.word(c.u))),
        0xAF => zero_from(skip(c, 2), m.byte(m.word(m.word(c.p)))),
        0x4D => skip(c, 1),
        0x5D => skip(c, 1),
        0x6D => skip(c, 1),
        0xED => skip(c, 3),
        0x8E => c,
        0xF7 => Lh5801Cpu { interrupt_enabled: false, ..c },
        0x07 => after_cpa(c, m.byte(m.word(c.x))),
        0x17 => after_cpa(c, m.byte(m.word(c.y))),
        0x27 => after_cpa(c, m.byte(m.word(c.u))),
        0xA7 => after_cpa(skip(c, 2), m.byte(m.word(m.word(c.p)))),
        0x8C => after_dca(c, m.byte(m.word(c.x))),
        0x9C => after_dca(c, m.byte(m.word(c.y))),
        0xAC => after_dca(c, m.byte(m.word(c.u))),
        0x0C => after_dcs(c, m.byte(m.word(c.x))),
        0x1C => after_dcs(c, m.byte(m.word(c.y))),
        0x2C => after_dcs(c, m.byte(m.word(c.u))),
        _ => c,
    }
}

/// The registers after an FD-prefixed transfer.
pub open spec fn model_fd_transfer(op: u8, c: Lh5801Cpu, m: MemoryBus) -> Lh5801Cpu {
    match op {
        0x05 => loaded(c, m.byte(m.word(c.x))),
        0x15 => loaded(c, m.byte(m.word(c.y))),
        0x25 => loaded(c, m.byte(m.word(c.u))),
        0xA5 => loaded(skip(c, 2), m.byte(m.word(m.word(c.p)))),
        0x08 => Lh5801Cpu { x: c.y, ..c },
        0x18 => Lh5801Cpu { y: c.x, ..c },
        0x28 => Lh5801Cpu { u: c.x, ..c },
        0x48 => Lh5801Cpu { s: c.x, ..c },
        0x58 => Lh5801Cpu { p: c.x, ..c },
        0x0E => c,
        0x1E => c,
        0x2E => c,
        0xAE => skip(c, 2),
        0x4A => Lh5801Cpu { y: c.x, ..c },
        0x5A => Lh5801Cpu { x: c.y, ..c },
        0x6A => Lh5801Cpu { x: c.u, ..c },
        0x4E => Lh5801Cpu { s: c.x, ..c },
        0x5E => Lh5801Cpu { p: c.x, ..c },
        0xC8 => Lh5801Cpu { s: prev_addr(c.s), ..c },
        0x88 => Lh5801Cpu { s: prev_addr(prev_addr(c.s)), ..c },
        0x98 => Lh5801Cpu { s: prev_addr(prev_addr(c.s)), ..c },
        0xA8 => Lh5801Cpu { s: prev_addr(prev_addr(c.s)), ..c },
        0x8A => zero_from(Lh5801Cpu { a: m.byte(c.s), s: next_addr(c.s), ..c }, m.byte(c.s)),
        0x0A => with_rreg(Lh5801Cpu { s: next_addr(next_addr(c.s)), ..c }, Rreg::X, with_hi(with_lo(rreg(c, Rreg::X), m.byte(c.s)), m.byte(next_addr(c.s)))),
        0x1A => with_rreg(Lh5801Cpu { s: next_addr(next_addr(c.s)), ..c }, Rreg::Y, with_hi(with_lo(rreg(c, Rreg::Y), m.byte(c.s)), m.byte(next_addr(c.s)))),
        0x2A => with_rreg(Lh5801Cpu { s: next_addr(next_addr(c.s)), ..c }, Rreg::U, with_hi(with_lo(rreg(c, Rreg::U), m.byte(c.s)), m.byte(next_addr(c.s)))),
        0xBA => Lh5801Cpu { t_register: c.a, ..c },
        0xAA => zero_from(Lh5801Cpu { a: c.t_register, ..c }, c.t_register),
        _ => c,
    }
}

/// The registers after the FD-prefixed instruction with second byte `op`,
/// from `c` just after that byte was fetched and the bus `m` before the
/// instruction; an unknown second byte changes nothing.
pub open spec fn model_fd_after(op: u8, c: Lh5801Cpu, m: MemoryBus) -> Lh5801Cpu {
    if fd_arith_op(op) {
        model_fd_arith(op, c, m)
    } else if fd_transfer_op(op) {
        model_fd_transfer(op, c, m)
    } else {
        c
    }
}

/// How the FD-prefixed instruction with second byte `op` changes the bus.
pub open spec fn model_fd_writes(op: u8, c: Lh5801Cpu, m: MemoryBus, m2: MemoryBus) -> bool {
    match op {
        0x4F => m.stored(m2, m.word(c.x), m.byte(m.word(c.x)).wrapping_add(m.byte(c.p))),
        0x5F => m.stored(m2, m.word(c.y), m.byte(m.word(c.y)).wrapping_add(m.byte(c.p))),
        0x6F => m.stored(m2, m.word(c.u), m.byte(m.word(c.u)).wrapping_add(m.byte(c.p))),
        0xEF => m.stored(m2, m.word(m.word(c.p)), m.byte(m.word(m.word(c.p))).wrapping_add(m.byte(next_addr(next_addr(c.p))))),
        0x49 => m.stored(m2, m.word(c.x), m.byte(m.word(c.x)) & m.byte(c.p)),
        0x59 => m.stored(m2, m.word(c.y), m.byte(m.word(c.y)) & m.byte(c.p)),
        0x69 => m.stored(m2, m.word(c.u), m.byte(m.word(c.u)) & m.byte(c.p)),
        0xE9 => m.stored(m2, m.word(m.word(c.p)), m.byte(m.word(m.word(c.p))) & m.byte(next_addr(next_addr(c.p)))),
        0x0E => m.stored(m2, m.word(c.x), c.a),
        0x1E => m.stored(m2, m.word(c.y), c.a),
        0x2E => m.stored(m2, m.word(c.u), c.a),
        0xAE => m.stored(m2, m.word(m.word(c.p)), c.a),
        0xC8 => m.stored(m2, prev_addr(c.s), c.a),
        0x88 => exists|mid: MemoryBus| m.stored(mid, prev_addr(c.s), hi_byte(c.x)) && mid.stored(m2, prev_addr(prev_addr(c.s)), lo_byte(c.x)),
        0x98 => exists|mid: MemoryBus| m.stored(mid, prev_addr(c.s), hi_byte(c.y)) && mid.stored(m2, prev_addr(prev_addr(c.s)), lo_byte(c.y)),
        0xA8 => exists|mid: MemoryBus| m.stored(mid, prev_addr(c.s), hi_byte(c.u)) && mid.stored(m2, prev_addr(prev_addr(c.s)), lo_byte(c.u)),
        0xCC => m2 == (MemoryBus { output_port: c.a, ..m }),
        _ => m2 == m,
    }
}

/// Executable test of `fd_arith_op`.
fn fd_arith(op: u8) -> (r: bool)
    ensures
        r == fd_arith_op(op),
{
    match op {
        0x03 | 0x13 | 0x23 | 0xA3 | 0x4F | 0x5F | 0x6F | 0xEF | 0xCA | 0xDA | 0xEA | 0xF1 | 0x09 | 0x19
        | 0x29 | 0xA9 | 0x49 | 0x59 | 0x69 | 0xE9 | 0xCE | 0xDE | 0xCC | 0xEC | 0x0F | 0x1F | 0x2F | 0xAF
        | 0x4D | 0x5D | 0x6D | 0xED | 0x8E | 0xF7 | 0x07 | 0x17 | 0x27 | 0xA7 | 0x8C | 0x9C | 0xAC | 0x0C
        | 0x1C | 0x2C => true,
        _ => false,
    }
}

/// Executable test of `fd_transfer_op`.
fn fd_transfer(op: u8) -> (r: bool)
    ensures
        r == fd_transfer_op(op),
{
    match op {
        0x05 | 0x15 | 0x25 | 0xA5 | 0x08 | 0x18 | 0x28 | 0x48 | 0x58 | 0x0E | 0x1E | 0x2E | 0xAE | 0x4A
        | 0x5A | 0x6A | 0x4E | 0x5E | 0xC8 | 0x88 | 0x98 | 0xA8 | 0x8A | 0x0A | 0x1A | 0x2A | 0xBA
        | 0xAA => true,
        _ => false,
    }
}

/// Executable test of `arith_op`.
fn is_arith(op: u8) -> (r: bool)
    ensures
        r == arith_op(op),
{
    match op {
        0x02 | 0x12 | 0x22 | 0x82 | 0x92 | 0xA2 | 0x03 | 0x13 | 0x23 | 0xA3 | 0xB3 | 0x4F | 0x5F | 0x6F
        | 0xEF | 0x09 | 0x19 | 0x29 | 0xA9 | 0xB9 | 0x49 | 0x59 | 0x69 | 0xE9 | 0x0F | 0x1F | 0x2F | 0xAF
        | 0x8F | 0x9F | 0x8B | 0x9B | 0x83 | 0x93 | 0x81 | 0x91 | 0x87 | 0x97 | 0x85 | 0x95 | 0xBF | 0x4D
        | 0x5D | 0x6D | 0xED => true,
        _ => false,
    }
}

/// Executable test of `compare_op`.
fn is_compare(op: u8) -> (r: bool)
    ensures
        r == compare_op(op),
{
    match op {
        0x8E | 0xF7 | 0x06 | 0x16 | 0x26 | 0x86 | 0x96 | 0xA6 | 0x07 | 0x17 | 0x27 | 0xA7 | 0xB7 | 0x4E
        | 0x5E | 0x6E | 0x4C | 0x5C | 0x6C | 0x8C | 0x9C | 0xAC | 0x0C | 0x1C | 0x2C => true,
        _ => false,
    }
}

/// Executable test of `load_op`.
fn is_load(op: u8) -> (r: bool)
    ensures
        r == load_op(op),
{
    match op {
        0x04 | 0x14 | 0x24 | 0x84 | 0x94 | 0xA4 | 0x05 | 0x15 | 0x25 | 0xA5 | 0xB5 | 0x4A | 0x5A | 0x6A
        | 0x48 | 0x58 | 0x68 | 0xAA | 0x47 | 0x57 | 0x67 | 0x45 | 0x55 | 0x65 => true,
        _ => false,
    }
}

/// Executable test of `store_op`.
fn is_store(op: u8) -> (r: bool)
    ensures
        r == store_op(op),
{
    match op {
        0x0A | 0x1A | 0x2A | 0x08 | 0x18 | 0x28 | 0x0E | 0x1E | 0x2E | 0xAE | 0x43 | 0x53 | 0x63 | 0x41
        | 0x51 | 0x61 => true,
        _ => false,
    }
}

impl Lh5801Cpu {
    // ---- bus access ----

    fn read(&self, memory: &MemoryBus, addr: u16) -> (r: u8)
        requires
            memory.wf(),
        ensures
            r == memory.byte(addr),
    {
        memory.read_byte(addr)
    }

    fn write(&self, memory: &mut MemoryBus, addr: u16, val: u8)
        requires
            old(memory).wf(),
        ensures
            final(memory).wf(),
            old(memory).stored(*final(memory), addr, val),
    {
        memory.write_byte(addr, val);
    }

    /// The byte at P; P moves past it.
    fn imm8(&mut self, memory: &MemoryBus) -> (r: u8)
        requires
            memory.wf(),
        ensures
            r == memory.byte(old(self).p),
            *final(self) == (Lh5801Cpu { p: next_addr(old(self).p), ..*old(self) }),
    {
        let val = self.read(memory, self.p);
        let next = self.p.wrapping_add(1);
        *self = Lh5801Cpu { p: next, ..*self };
        val
    }

    /// The little-endian word at P; P moves past it.
    fn imm16(&mut self, memory: &MemoryBus) -> (r: u16)
        requires
            memory.wf(),
        ensures
            r == memory.word(old(self).p),
            *final(self) == (Lh5801Cpu { p: next_addr(next_addr(old(self).p)), ..*old(self) }),
    {
        let lo = self.imm8(memory) as u16;
        let hi = self.imm8(memory) as u16;
        (hi << 8u16) | lo
    }

    /// (Rreg): the byte the register points at.
    fn read_me0(&self, memory: &MemoryBus, rreg: u16) -> (r: u8)
        requires
            memory.wf(),
        ensures
            r == memory.byte(rreg),
    {
        self.read(memory, rreg)
    }

    /// #(Rreg): the byte at the address stored where the register points.
    fn read_me1(&self, memory: &MemoryBus, rreg: u16) -> (r: u8)
        requires
            memory.wf(),
        ensures
            r == memory.byte(memory.word(rreg)),
    {
        let addr = self.read_word_me0(memory, rreg);
        self.read(memory, addr)
    }

    fn write_me0(&self, memory: &mut MemoryBus, rreg: u16, val: u8)
        requires
            old(memory).wf(),
        ensures
            final(memory).wf(),
            old(memory).stored(*final(memory), rreg, val),
    {
        self.write(memory, rreg, val);
    }

    fn write_me1(&self, memory: &mut MemoryBus, rreg: u16, val: u8)
        requires
            old(memory).wf(),
        ensures
            final(memory).wf(),
            old(memory).stored(*final(memory), old(memory).word(rreg), val),
    {
        let addr = self.read_word_me0(memory, rreg);
        self.write(memory, addr, val);
    }

    fn read_word_me0(&self, memory: &MemoryBus, addr: u16) -> (r: u16)
        requires
            memory.wf(),
        ensures
            r == memory.word(addr),
    {
        let lo = self.read(memory, addr) as u16;
        let hi = self.read(memory, addr.wrapping_add(1)) as u16;
        (hi << 8u16) | lo
    }

    /// (ab): the byte at the address that follows the opcode.
    fn read_ab_me0(&mut self, memory: &MemoryBus) -> (r: u8)
        requires
            memory.wf(),
        ensures
            r == memory.byte(memory.word(old(self).p)),
            *final(self) == (Lh5801Cpu { p: next_addr(next_addr(old(self).p)), ..*old(self) }),
    {
        let addr = self.imm16(memory);
        self.read(memory, addr)
    }

    /// #(ab): one more indirection than (ab).
    fn read_ab_me1(&mut self, memory: &MemoryBus) -> (r: u8)
        requires
            memory.wf(),
        ensures
            r == memory.byte(memory.word(memory.word(old(self).p))),
            *final(self) == (Lh5801Cpu { p: next_addr(next_addr(old(self).p)), ..*old(self) }),
    {
        let addr = self.imm16(memory);
        let target = self.read_word_me0(memory, addr);
        self.read(memory, target)
    }

    // ---- register parts by selector ----

    fn rreg_value(&self, r: Rreg) -> (v: u16)
        ensures
            v == rreg(*self, r),
    {
        match r {
            Rreg::X => self.x,
            Rreg::Y => self.y,
            Rreg::U => self.u,
        }
    }

    fn set_rreg(&mut self, r: Rreg, v: u16)
        ensures
            *final(self) == with_rreg(*old(self), r, v),
    {
        match r {
            Rreg::X => self.x = v,
            Rreg::Y => self.y = v,
            Rreg::U => self.u = v,
        }
    }

    fn set_rl(&mut self, r: Rreg, val: u8)
        ensures
            *final(self) == with_rreg(*old(self), r, with_lo(rreg(*old(self), r), val)),
    {
        match r {
            Rreg::X => self.set_xl(val),
            Rreg::Y => self.set_yl(val),
            Rreg::U => self.set_ul(val),
        }
    }

    fn set_rh(&mut self, r: Rreg, val: u8)
        ensures
            *final(self) == with_rreg(*old(self), r, with_hi(rreg(*old(self), r), val)),
    {
        match r {
            Rreg::X => self.set_xh(val),
            Rreg::Y => self.set_yh(val),
            Rreg::U => self.set_uh(val),
        }
    }
}

impl Lh5801Cpu {
    // ---- arithmetic and logic on memory ----

    /// ADI (ab),i: adds `immediate` to the byte at `addr`; Z and C follow.
    fn adi_ab_i(&mut self, memory: &mut MemoryBus, addr: u16, immediate: u8)
        requires
            old(memory).wf(),
        ensures
            final(memory).wf(),
            old(memory).stored(*final(memory), addr, old(memory).byte(addr).wrapping_add(immediate)),
            *final(self) == (Lh5801Cpu {
                flags: add_mem_flags(old(self).flags, old(memory).byte(addr), immediate),
                ..*old(self)
            }),
    {
        let val = self.read(memory, addr);
        let result = val.wrapping_add(immediate);
        self.write(memory, addr, result);
        self.set_zero_flag(result == 0);
        self.set_carry_flag((val as u16) + (immediate as u16) > 0xFF);
    }

    fn adi_x_i(&mut self, memory: &mut MemoryBus, immediate: u8)
        requires
            old(memory).wf(),
        ensures
            final(memory).wf(),
            old(memory).stored(*final(memory), old(self).x, old(memory).byte(old(self).x).wrapping_add(immediate)),
            *final(self) == (Lh5801Cpu {
                flags: add_mem_flags(old(self).flags, old(memory).byte(old(self).x), immediate),
                ..*old(self)
            }),
    {
        let x = self.x;
        self.adi_ab_i(memory, x, immediate);
    }

    fn adi_y_i(&mut self, memory: &mut MemoryBus, immediate: u8)
        requires
            old(memory).wf(),
        ensures
            final(memory).wf(),
            old(memory).stored(*final(memory), old(self).y, old(memory).byte(old(self).y).wrapping_add(immediate)),
            *final(self) == (Lh5801Cpu {
                flags: add_mem_flags(old(self).flags, old(memory).byte(old(self).y), immediate),
                ..*old(self)
            }),
    {
        let y = self.y;
        self.adi_ab_i(memory, y, immediate);
    }

    fn adi_u_i(&mut self, memory: &mut MemoryBus, immediate: u8)
        requires
            old(memory).wf(),
        ensures
            final(memory).wf(),
            old(memory).stored(*final(memory), old(self).u, old(memory).byte(old(self).u).wrapping_add(immediate)),
            *final(self) == (Lh5801Cpu {
                flags: add_mem_flags(old(self).flags, old(memory).byte(old(self).u), immediate),
                ..*old(self)
            }),
    {
        let u = self.u;
        self.adi_ab_i(memory, u, immediate);
    }

    /// ADI #(ab),i: the same on the byte whose address is stored at `addr`.
    fn adi_indirect_ab_i(&mut self, memory: &mut MemoryBus, addr: u16, immediate: u8)
        requires
            old(memory).wf(),
        ensures
            final(memory).wf(),
            ({
                let t = old(memory).word(addr);
                &&& old(memory).stored(*final(memory), t, old(memory).byte(t).wrapping_add(immediate))
                &&& *final(self) == (Lh5801Cpu {
                    flags: add_mem_flags(old(self).flags, old(memory).byte(t), immediate),
                    ..*old(self)
                })
            }),
    {
        let target = self.read_word_me0(memory, addr);
        self.adi_ab_i(memory, target, immediate);
    }

    fn adi_indirect_x_i(&mut self, memory: &mut MemoryBus, immediate: u8)
        requires
            old(memory).wf(),
        ensures
            final(memory).wf(),
            ({
                let t = old(memory).word(old(self).x);
                &&& old(memory).stored(*final(memory), t, old(memory).byte(t).wrapping_add(immediate))
                &&& *final(self) == (Lh5801Cpu {
                    flags: add_mem_flags(old(self).flags, old(memory).byte(t), immediate),
                    ..*old(self)
                })
            }),
    {
        let x = self.x;
        self.adi_indirect_ab_i(memory, x, immediate);
    }

    fn adi_indirect_y_i(&mut self, memory: &mut MemoryBus, immediate: u8)
        requires
            old(memory).wf(),
        ensures
            final(memory).wf(),
            ({
                let t = old(memory).word(old(self).y);
                &&& old(memory).stored(*final(memory), t, old(memory).byte(t).wrapping_add(immediate))
                &&& *final(self) == (Lh5801Cpu {
                    flags: add_mem_flags(old(self).flags, old(memory).byte(t), immediate),
                    ..*old(self)
                })
            }),
    {
        let y = self.y;
        self.adi_indirect_ab_i(memory, y, immediate);
    }

    fn adi_indirect_u_i(&mut self, memory: &mut MemoryBus, immediate: u8)
        requires
            old(memory).wf(),
        ensures
            final(memory).wf(),
            ({
                let t = old(memory).word(old(self).u);
                &&& old(memory).stored(*final(memory), t, old(memory).byte(t).wrapping_add(immediate))
                &&& *final(self) == (Lh5801Cpu {
                    flags: add_mem_flags(old(self).flags, old(memory).byte(t), immediate),
                    ..*old(self)
                })
            }),
    {
        let u = self.u;
        self.adi_indirect_ab_i(memory, u, immediate);
    }

    /// ANI (ab),i: ANDs `immediate` into the byte at `addr`; Z follows.
    fn ani_ab_i(&mut self, memory: &mut MemoryBus, addr: u16, immediate: u8)
        requires
            old(memory).wf(),
        ensures
            final(memory).wf(),
            old(memory).stored(*final(memory), addr, old(memory).byte(addr) & immediate),
            *final(self) == zero_from(*old(self), old(memory).byte(addr) & immediate),
    {
        let val = self.read(memory, addr);
        let result = val & immediate;
        self.write(memory, addr, result);
        self.set_zero_flag(result == 0);
    }

    fn ani_x_i(&mut self, memory: &mut MemoryBus, immediate: u8)
        requires
            old(memory).wf(),
        ensures
            final(memory).wf(),
            old(memory).stored(*final(memory), old(self).x, old(memory).byte(old(self).x) & immediate),
            *final(self) == zero_from(*old(self), old(memory).byte(old(self).x) & immediate),
    {
        let x = self.x;
        self.ani_ab_i(memory, x, immediate);
    }

    fn ani_y_i(&mut self, memory: &mut MemoryBus, immediate: u8)
        requires
            old(memory).wf(),
        ensures
            final(memory).wf(),
            old(memory).stored(*final(memory), old(self).y, old(memory).byte(old(self).y) & immediate),
            *final(self) == zero_from(*old(self), old(memory).byte(old(self).y) & immediate),
    {
        let y = self.y;
        self.ani_ab_i(memory, y, immediate);
    }

    fn ani_u_i(&mut self, memory: &mut MemoryBus, immediate: u8)
        requires
            old(memory).wf(),
        ensures
            final(memory).wf(),
            old(memory).stored(*final(memory), old(self).u, old(memory).byte(old(self).u) & immediate),
            *final(self) == zero_from(*old(self), old(memory).byte(old(self).u) & immediate),
    {
        let u = self.u;
        self.ani_ab_i(memory, u, immediate);
    }

    /// ANI #(ab),i: the same on the byte whose address is stored at `addr`.
    fn ani_indirect_ab_i(&mut self, memory: &mut MemoryBus, addr: u16, immediate: u8)
        requires
            old(memory).wf(),
        ensures
            final(memory).wf(),
            ({
                let t = old(memory).word(addr);
                &&& old(memory).stored(*final(memory), t, old(memory).byte(t) & immediate)
                &&& *final(self) == zero_from(*old(self), old(memory).byte(t) & immediate)
            }),
    {
        let target = self.read_word_me0(memory, addr);
        self.ani_ab_i(memory, target, immediate);
    }

    fn ani_indirect_x_i(&mut self, memory: &mut MemoryBus, immediate: u8)
        requires
            old(memory).wf(),
        ensures
            final(memory).wf(),
            ({
                let t = old(memory).word(old(self).x);
                &&& old(memory).stored(*final(memory), t, old(memory).byte(t) & immediate)
                &&& *final(self) == zero_from(*old(self), old(memory).byte(t) & immediate)
            }),
    {
        let x = self.x;
        self.ani_indirect_ab_i(memory, x, immediate);
    }

    fn ani_indirect_y_i(&mut self, memory: &mut MemoryBus, immediate: u8)
        requires
            old(memory).wf(),
        ensures
            final(memory).wf(),
            ({
                let t = old(memory).word(old(self).y);
                &&& old(memory).stored(*final(memory), t, old(memory).byte(t) & immediate)
                &&& *final(self) == zero_from(*old(self), old(memory).byte(t) & immediate)
            }),
    {
        let y = self.y;
        self.ani_indirect_ab_i(memory, y, immediate);
    }

    fn ani_indirect_u_i(&mut self, memory: &mut MemoryBus, immediate: u8)
        requires
            old(memory).wf(),
        ensures
            final(memory).wf(),
            ({
                let t = old(memory).word(old(self).u);
                &&& old(memory).stored(*final(memory), t, old(memory).byte(t) & immediate)
                &&& *final(self) == zero_from(*old(self), old(memory).byte(t) & immediate)
            }),
    {
        let u = self.u;
        self.ani_indirect_ab_i(memory, u, immediate);
    }

    // ---- tests and compares ----

    /// BIT on a pointer register: Z when the register is zero.
    fn bit_x(&mut self)
        ensures
            *final(self) == (Lh5801Cpu { flags: with_flag(old(self).flags, ZF, old(self).x == 0), ..*old(self) }),
    {
        let z = self.x == 0;
        self.set_zero_flag(z);
    }

    fn bit_y(&mut self)
        ensures
            *final(self) == (Lh5801Cpu { flags: with_flag(old(self).flags, ZF, old(self).y == 0), ..*old(self) }),
    {
        let z = self.y == 0;
        self.set_zero_flag(z);
    }

    fn bit_u(&mut self)
        ensures
            *final(self) == (Lh5801Cpu { flags: with_flag(old(self).flags, ZF, old(self).u == 0), ..*old(self) }),
    {
        let z = self.u == 0;
        self.set_zero_flag(z);
    }

    fn bit_ab(&mut self, memory: &MemoryBus, addr: u16)
        requires
            memory.wf(),
        ensures
            *final(self) == zero_from(*old(self), memory.byte(addr)),
    {
        let val = self.read(memory, addr);
        self.set_zero_flag(val == 0);
    }

    fn bit_indirect_ab(&mut self, memory: &MemoryBus, addr: u16)
        requires
            memory.wf(),
        ensures
            *final(self) == zero_from(*old(self), memory.byte(memory.word(addr))),
    {
        let target = self.read_word_me0(memory, addr);
        let val = self.read(memory, target);
        self.set_zero_flag(val == 0);
    }

    fn bit_indirect_x(&mut self, memory: &MemoryBus)
        requires
            memory.wf(),
        ensures
            *final(self) == zero_from(*old(self), memory.byte(memory.word(old(self).x))),
    {
        let val = self.read_me1(memory, self.x);
        self.set_zero_flag(val == 0);
    }

    fn bit_indirect_y(&mut self, memory: &MemoryBus)
        requires
            memory.wf(),
        ensures
            *final(self) == zero_from(*old(self), memory.byte(memory.word(old(self).y))),
    {
        let val = self.read_me1(memory, self.y);
        self.set_zero_flag(val == 0);
    }

    fn bit_indirect_u(&mut self, memory: &MemoryBus)
        requires
            memory.wf(),
        ensures
            *final(self) == zero_from(*old(self), memory.byte(memory.word(old(self).u))),
    {
        let val = self.read_me1(memory, self.u);
        self.set_zero_flag(val == 0);
    }

    /// A relative jump by a signed displacement.
    fn branch(&mut self, offset: i8)
        ensures
            *final(self) == (Lh5801Cpu { p: displaced(old(self).p, offset), ..*old(self) }),
    {
        let target = ((self.p as i32) + (offset as i32)) as u16;
        *self = Lh5801Cpu { p: target, ..*self };
    }

    /// BII A,i: the input test is not wired here; nothing changes.
    fn bii_a_i(&mut self, immediate: u8)
        ensures
            *final(self) == *old(self),
    {
        let _tested = self.a & immediate;
    }

    /// BII (ab),i: the operand is read; nothing changes.
    fn bii_ab_i(&mut self, memory: &MemoryBus, addr: u16, immediate: u8)
        requires
            memory.wf(),
        ensures
            *final(self) == *old(self),
    {
        let _tested = self.read(memory, addr) & immediate;
    }

    /// BII #(ab),i: the operand is read through one more indirection.
    fn bii_indirect_ab_i(&mut self, memory: &MemoryBus, addr: u16, immediate: u8)
        requires
            memory.wf(),
        ensures
            *final(self) == *old(self),
    {
        let target = self.read_word_me0(memory, addr);
        let _tested = self.read(memory, target) & immediate;
    }

    /// CIN: interrupts off.
    fn cin(&mut self)
        ensures
            *final(self) == (Lh5801Cpu { interrupt_enabled: false, ..*old(self) }),
    {
        *self = Lh5801Cpu { interrupt_enabled: false, ..*self };
    }

    /// CPA: flags of A minus `val`; A keeps its value.
    fn cpa_with_flags(&mut self, val: u8)
        ensures
            ({
                let a = old(self).a;
                let res = a.wrapping_sub(val);
                *final(self) == (Lh5801Cpu {
                    flags: with_flag(with_flag(with_flag(with_flag(old(self).flags, ZF, res == 0), CF, a < val),
                        HF, (a & 0x0F) < (val & 0x0F)),
                        VF, (a & 0x80) != (val & 0x80) && (a & 0x80) != (res & 0x80)),
                    ..*old(self)
                })
            }),
    {
        let a = self.a;
        let result = a.wrapping_sub(val);
        self.set_zero_flag(result == 0);
        self.set_carry_flag(a < val);
        self.set_half_carry_flag((a & 0x0F) < (val & 0x0F));
        let overflow = (a & 0x80) != (val & 0x80) && (a & 0x80) != (result & 0x80);
        self.set_overflow_flag(overflow);
    }

    /// CPI on a byte: Z on equal, C when the byte is below `immediate`.
    fn cpi_byte(&mut self, val: u8, immediate: u8)
        ensures
            *final(self) == (Lh5801Cpu { flags: compare_flags(old(self).flags, val, immediate), ..*old(self) }),
    {
        let result = val.wrapping_sub(immediate);
        self.set_zero_flag(result == 0);
        self.set_carry_flag(val < immediate);
    }

    fn cpi_x_i(&mut self, memory: &MemoryBus, immediate: u8)
        requires
            memory.wf(),
        ensures
            *final(self) == (Lh5801Cpu { flags: compare_flags(old(self).flags, memory.byte(old(self).x), immediate), ..*old(self) }),
    {
        let val = self.read_me0(memory, self.x);
        self.cpi_byte(val, immediate);
    }

    fn cpi_y_i(&mut self, memory: &MemoryBus, immediate: u8)
        requires
            memory.wf(),
        ensures
            *final(self) == (Lh5801Cpu { flags: compare_flags(old(self).flags, memory.byte(old(self).y), immediate), ..*old(self) }),
    {
        let val = self.read_me0(memory, self.y);
        self.cpi_byte(val, immediate);
    }

    fn cpi_u_i(&mut self, memory: &MemoryBus, immediate: u8)
        requires
            memory.wf(),
        ensures
            *final(self) == (Lh5801Cpu { flags: compare_flags(old(self).flags, memory.byte(old(self).u), immediate), ..*old(self) }),
    {
        let val = self.read_me0(memory, self.u);
        self.cpi_byte(val, immediate);
    }

    fn cpi_xh_i(&mut self, immediate: u8)
        ensures
            *final(self) == (Lh5801Cpu { flags: compare_flags(old(self).flags, hi_byte(old(self).x), immediate), ..*old(self) }),
    {
        let val = self.xh();
        self.cpi_byte(val, immediate);
    }

    fn cpi_yh_i(&mut self, immediate: u8)
        ensures
            *final(self) == (Lh5801Cpu { flags: compare_flags(old(self).flags, hi_byte(old(self).y), immediate), ..*old(self) }),
    {
        let val = self.yh();
        self.cpi_byte(val, immediate);
    }

    fn cpi_uh_i(&mut self, immediate: u8)
        ensures
            *final(self) == (Lh5801Cpu { flags: compare_flags(old(self).flags, hi_byte(old(self).u), immediate), ..*old(self) }),
    {
        let val = self.uh();
        self.cpi_byte(val, immediate);
    }

    /// ADR: A is added to the pointer register; Z from the new value, and C
    /// when the new value plus A passes 0xFFFF.
    fn adr(&mut self, r: Rreg)
        ensures
            ({
                let a = old(self).a;
                let v = rreg(*old(self), r).wrapping_add(a as u16);
                *final(self) == (Lh5801Cpu {
                    flags: with_flag(with_flag(old(self).flags, ZF, v == 0), CF, v + a > 0xFFFF),
                    ..with_rreg(*old(self), r, v)
                })
            }),
    {
        let a_val = self.a;
        let result = self.rreg_value(r).wrapping_add(a_val as u16);
        self.set_rreg(r, result);
        self.set_zero_flag(result == 0);
        self.set_carry_flag((result as u32) + (a_val as u32) > 0xFFFF);
    }

    fn adr_x(&mut self)
        ensures
            ({
                let v = old(self).x.wrapping_add(old(self).a as u16);
                *final(self) == (Lh5801Cpu {
                    x: v,
                    flags: with_flag(with_flag(old(self).flags, ZF, v == 0), CF, v + old(self).a > 0xFFFF),
                    ..*old(self)
                })
            }),
    {
        self.adr(Rreg::X);
    }

    fn adr_y(&mut self)
        ensures
            ({
                let v = old(self).y.wrapping_add(old(self).a as u16);
                *final(self) == (Lh5801Cpu {
                    y: v,
                    flags: with_flag(with_flag(old(self).flags, ZF, v == 0), CF, v + old(self).a > 0xFFFF),
                    ..*old(self)
                })
            }),
    {
        self.adr(Rreg::Y);
    }

    fn adr_u(&mut self)
        ensures
            ({
                let v = old(self).u.wrapping_add(old(self).a as u16);
                *final(self) == (Lh5801Cpu {
                    u: v,
                    flags: with_flag(with_flag(old(self).flags, ZF, v == 0), CF, v + old(self).a > 0xFFFF),
                    ..*old(self)
                })
            }),
    {
        self.adr(Rreg::U);
    }

    /// AEX is not modelled here: nothing changes.
    fn aex(&mut self)
        ensures
            *final(self) == *old(self),
    {
    }
}

impl Lh5801Cpu {
    // ---- transfers ----

    /// LDA from a register part: A takes it, Z follows.
    pub(crate) fn lda_rl(&mut self, reg: u8) -> (r: u8)
        ensures
            r == 5,
            *final(self) == zero_from(Lh5801Cpu { a: reg, ..*old(self) }, reg),
    {
        self.a = reg;
        self.set_zero_flag(reg == 0);
        5
    }

    pub(crate) fn lda_rh(&mut self, reg: u8) -> (r: u8)
        ensures
            r == 5,
            *final(self) == zero_from(Lh5801Cpu { a: reg, ..*old(self) }, reg),
    {
        self.a = reg;
        self.set_zero_flag(reg == 0);
        5
    }

    /// LDA (Rreg).
    pub(crate) fn lda_rreg(&mut self, memory: &MemoryBus, rreg: u16) -> (r: u8)
        requires
            memory.wf(),
        ensures
            r == 7,
            *final(self) == zero_from(Lh5801Cpu { a: memory.byte(rreg), ..*old(self) }, memory.byte(rreg)),
    {
        let val = self.read_me0(memory, rreg);
        self.a = val;
        self.set_zero_flag(val == 0);
        7
    }

    /// LDA #(Rreg).
    pub(crate) fn lda_rreg_indirect(&mut self, memory: &MemoryBus, rreg: u16) -> (r: u8)
        requires
            memory.wf(),
        ensures
            r == 9,
            ({
                let v = memory.byte(memory.word(rreg));
                *final(self) == zero_from(Lh5801Cpu { a: v, ..*old(self) }, v)
            }),
    {
        let val = self.read_me1(memory, rreg);
        self.a = val;
        self.set_zero_flag(val == 0);
        9
    }

    /// LDA (ab).
    pub(crate) fn lda_ab(&mut self, memory: &MemoryBus) -> (r: u8)
        requires
            memory.wf(),
        ensures
            r == 8,
            ({
                let v = memory.byte(memory.word(old(self).p));
                *final(self) == zero_from(Lh5801Cpu { a: v, p: next_addr(next_addr(old(self).p)), ..*old(self) }, v)
            }),
    {
        let val = self.read_ab_me0(memory);
        self.a = val;
        self.set_zero_flag(val == 0);
        8
    }

    /// LDA #(ab).
    pub(crate) fn lda_ab_indirect(&mut self, memory: &MemoryBus) -> (r: u8)
        requires
            memory.wf(),
        ensures
            r == 10,
            ({
                let v = memory.byte(memory.word(memory.word(old(self).p)));
                *final(self) == zero_from(Lh5801Cpu { a: v, p: next_addr(next_addr(old(self).p)), ..*old(self) }, v)
            }),
    {
        let val = self.read_ab_me1(memory);
        self.a = val;
        self.set_zero_flag(val == 0);
        10
    }

    /// LDE: A from (Rreg), then the register steps down.
    pub(crate) fn lde_rreg(&mut self, memory: &MemoryBus, rreg: &mut u16) -> (r: u8)
        requires
            memory.wf(),
        ensures
            r == 7,
            *final(rreg) == prev_addr(*old(rreg)),
            *final(self) == zero_from(Lh5801Cpu { a: memory.byte(*old(rreg)), ..*old(self) }, memory.byte(*old(rreg))),
    {
        let val = self.read_me0(memory, *rreg);
        self.a = val;
        self.set_zero_flag(val == 0);
        *rreg = rreg.wrapping_sub(1);
        7
    }

    /// LIN: A from (Rreg), then the register steps up.
    pub(crate) fn lin_rreg(&mut self, memory: &MemoryBus, rreg: &mut u16) -> (r: u8)
        requires
            memory.wf(),
        ensures
            r == 7,
            *final(rreg) == next_addr(*old(rreg)),
            *final(self) == zero_from(Lh5801Cpu { a: memory.byte(*old(rreg)), ..*old(self) }, memory.byte(*old(rreg))),
    {
        let val = self.read_me0(memory, *rreg);
        self.a = val;
        self.set_zero_flag(val == 0);
        *rreg = rreg.wrapping_add(1);
        7
    }

    /// LDI A,i.
    pub(crate) fn ldi_a(&mut self, memory: &MemoryBus) -> (r: u8)
        requires
            memory.wf(),
        ensures
            r == 6,
            ({
                let v = memory.byte(old(self).p);
                *final(self) == zero_from(Lh5801Cpu { a: v, p: next_addr(old(self).p), ..*old(self) }, v)
            }),
    {
        let immediate = self.imm8(memory);
        self.a = immediate;
        self.set_zero_flag(immediate == 0);
        6
    }

    /// LDI RL,i: the low byte of `r` takes the immediate; no flags change.
    pub(crate) fn ldi_rl(&mut self, memory: &MemoryBus, r: Rreg) -> (c: u8)
        requires
            memory.wf(),
        ensures
            c == 6,
            ({
                let moved = Lh5801Cpu { p: next_addr(old(self).p), ..*old(self) };
                *final(self) == with_rreg(moved, r, with_lo(rreg(*old(self), r), memory.byte(old(self).p)))
            }),
    {
        let immediate = self.imm8(memory);
        self.set_rl(r, immediate);
        6
    }

    /// LDI RH,i: the high byte of `r` takes the immediate.
    pub(crate) fn ldi_rh(&mut self, memory: &MemoryBus, r: Rreg) -> (c: u8)
        requires
            memory.wf(),
        ensures
            c == 6,
            ({
                let moved = Lh5801Cpu { p: next_addr(old(self).p), ..*old(self) };
                *final(self) == with_rreg(moved, r, with_hi(rreg(*old(self), r), memory.byte(old(self).p)))
            }),
    {
        let immediate = self.imm8(memory);
        self.set_rh(r, immediate);
        6
    }

    /// LDI S,i: S takes the word that follows.
    pub(crate) fn ldi_s(&mut self, memory: &MemoryBus) -> (r: u8)
        requires
            memory.wf(),
        ensures
            r == 7,
            *final(self) == (Lh5801Cpu { s: memory.word(old(self).p), p: next_addr(next_addr(old(self).p)), ..*old(self) }),
    {
        let immediate = self.imm16(memory);
        self.s = immediate;
        7
    }

    /// STA RL: the low byte of `r` takes A.
    pub(crate) fn sta_rl(&mut self, r: Rreg) -> (c: u8)
        ensures
            c == 5,
            *final(self) == with_rreg(*old(self), r, with_lo(rreg(*old(self), r), old(self).a)),
    {
        let a = self.a;
        self.set_rl(r, a);
        5
    }

    /// STA RH: the high byte of `r` takes A.
    pub(crate) fn sta_rh(&mut self, r: Rreg) -> (c: u8)
        ensures
            c == 5,
            *final(self) == with_rreg(*old(self), r, with_hi(rreg(*old(self), r), old(self).a)),
    {
        let a = self.a;
        self.set_rh(r, a);
        5
    }

    /// STA (Rreg).
    pub(crate) fn sta_rreg(&mut self, memory: &mut MemoryBus, rreg: u16) -> (r: u8)
        requires
            old(memory).wf(),
        ensures
            r == 7,
            final(memory).wf(),
            old(memory).stored(*final(memory), rreg, old(self).a),
            *final(self) == *old(self),
    {
        self.write_me0(memory, rreg, self.a);
        7
    }

    /// STA #(Rreg).
    pub(crate) fn sta_rreg_indirect(&mut self, memory: &mut MemoryBus, rreg: u16) -> (r: u8)
        requires
            old(memory).wf(),
        ensures
            r == 9,
            final(memory).wf(),
            old(memory).stored(*final(memory), old(memory).word(rreg), old(self).a),
            *final(self) == *old(self),
    {
        self.write_me1(memory, rreg, self.a);
        9
    }

    /// STA (ab).
    pub(crate) fn sta_ab(&mut self, memory: &mut MemoryBus, addr: u16) -> (r: u8)
        requires
            old(memory).wf(),
        ensures
            r == 8,
            final(memory).wf(),
            old(memory).stored(*final(memory), addr, old(self).a),
            *final(self) == *old(self),
    {
        self.write(memory, addr, self.a);
        8
    }

    /// STA #(ab).
    pub(crate) fn sta_ab_indirect(&mut self, memory: &mut MemoryBus, addr: u16) -> (r: u8)
        requires
            old(memory).wf(),
        ensures
            r == 10,
            final(memory).wf(),
            old(memory).stored(*final(memory), old(memory).word(addr), old(self).a),
            *final(self) == *old(self),
    {
        let target = self.read_word_me0(memory, addr);
        self.write(memory, target, self.a);
        10
    }

    /// SDE: A to (Rreg), then the register steps down.
    pub(crate) fn sde_rreg(&mut self, memory: &mut MemoryBus, rreg: &mut u16) -> (r: u8)
        requires
            old(memory).wf(),
        ensures
            r == 7,
            final(memory).wf(),
            old(memory).stored(*final(memory), *old(rreg), old(self).a),
            *final(rreg) == prev_addr(*old(rreg)),
            *final(self) == *old(self),
    {
        self.write_me0(memory, *rreg, self.a);
        *rreg = rreg.wrapping_sub(1);
        7
    }

    /// SIN: A to (Rreg), then the register steps up.
    pub(crate) fn sin_rreg(&mut self, memory: &mut MemoryBus, rreg: &mut u16) -> (r: u8)
        requires
            old(memory).wf(),
        ensures
            r == 7,
            final(memory).wf(),
            old(memory).stored(*final(memory), *old(rreg), old(self).a),
            *final(rreg) == next_addr(*old(rreg)),
            *final(self) == *old(self),
    {
        self.write_me0(memory, *rreg, self.a);
        *rreg = rreg.wrapping_add(1);
        7
    }

    /// PSH A: S steps down and A is stored there.
    pub(crate) fn psh_a(&mut self, memory: &mut MemoryBus) -> (r: u8)
        requires
            old(memory).wf(),
        ensures
            r == 3,
            final(memory).wf(),
            old(memory).stored(*final(memory), prev_addr(old(self).s), old(self).a),
            *final(self) == (Lh5801Cpu { s: prev_addr(old(self).s), ..*old(self) }),
    {
        let s = self.s.wrapping_sub(1);
        *self = Lh5801Cpu { s: s, ..*self };
        self.write(memory, s, self.a);
        3
    }

    /// PSH Rreg: the high byte goes below S, then the low byte below that.
    pub(crate) fn psh_rreg(&mut self, memory: &mut MemoryBus, rh: u8, rl: u8) -> (r: u8)
        requires
            old(memory).wf(),
        ensures
            r == 5,
            final(memory).wf(),
            final(memory).map.rom@ == old(memory).map.rom@,
            exists|mid: MemoryBus|
                old(memory).stored(mid, prev_addr(old(self).s), rh)
                && mid.stored(*final(memory), prev_addr(prev_addr(old(self).s)), rl),
            *final(self) == (Lh5801Cpu { s: prev_addr(prev_addr(old(self).s)), ..*old(self) }),
    {
        let s1 = self.s.wrapping_sub(1);
        *self = Lh5801Cpu { s: s1, ..*self };
        self.write(memory, s1, rh);
        let ghost mid = *memory;
        let s2 = s1.wrapping_sub(1);
        *self = Lh5801Cpu { s: s2, ..*self };
        self.write(memory, s2, rl);
        5
    }

    /// POP A: A from (S), S steps up, Z follows.
    pub(crate) fn pop_a(&mut self, memory: &MemoryBus) -> (r: u8)
        requires
            memory.wf(),
        ensures
            r == 3,
            ({
                let v = memory.byte(old(self).s);
                *final(self) == zero_from(Lh5801Cpu { a: v, s: next_addr(old(self).s), ..*old(self) }, v)
            }),
    {
        let v = self.read(memory, self.s);
        let s = self.s.wrapping_add(1);
        *self = Lh5801Cpu { a: v, s: s, ..*self };
        self.set_zero_flag(v == 0);
        3
    }

    /// POP Rreg: the low byte from (S), then the high byte from the next
    /// address; S steps up twice and no flags change.
    pub(crate) fn pop_rreg(&mut self, memory: &MemoryBus, r: Rreg) -> (c: u8)
        requires
            memory.wf(),
        ensures
            c == 5,
            ({
                let s0 = old(self).s;
                let v = with_hi(with_lo(rreg(*old(self), r), memory.byte(s0)), memory.byte(next_addr(s0)));
                *final(self) == with_rreg(Lh5801Cpu { s: next_addr(next_addr(s0)), ..*old(self) }, r, v)
            }),
    {
        let rl = self.read(memory, self.s);
        let s1 = self.s.wrapping_add(1);
        *self = Lh5801Cpu { s: s1, ..*self };
        self.set_rl(r, rl);
        let rh = self.read(memory, s1);
        let s2 = s1.wrapping_add(1);
        *self = Lh5801Cpu { s: s2, ..*self };
        self.set_rh(r, rh);
        5
    }

    /// ATT: T takes A.
    pub(crate) fn att(&mut self) -> (r: u8)
        ensures
            r == 2,
            *final(self) == (Lh5801Cpu { t_register: old(self).a, ..*old(self) }),
    {
        *self = Lh5801Cpu { t_register: self.a, ..*self };
        2
    }

    /// TTA: A takes T, Z follows.
    pub(crate) fn tta(&mut self) -> (r: u8)
        ensures
            r == 2,
            *final(self) == zero_from(Lh5801Cpu { a: old(self).t_register, ..*old(self) }, old(self).t_register),
    {
        let t = self.t_register;
        *self = Lh5801Cpu { a: t, ..*self };
        self.set_zero_flag(t == 0);
        2
    }

    /// ATP: A goes out on the output latch.
    pub(crate) fn atp(&mut self, memory: &mut MemoryBus) -> (r: u8)
        ensures
            r == 2,
            *final(memory) == (MemoryBus { output_port: old(self).a, ..*old(memory) }),
            *final(self) == *old(self),
    {
        memory.write_output_port(self.a);
        2
    }

    /// ITA: A from the input lines, Z follows.
    pub(crate) fn ita(&mut self, memory: &MemoryBus) -> (r: u8)
        ensures
            r == 2,
            *final(self) == zero_from(Lh5801Cpu { a: memory.input_port, ..*old(self) }, memory.input_port),
    {
        let v = memory.read_keyboard_input();
        self.a = v;
        self.set_zero_flag(v == 0);
        2
    }
}

impl Lh5801Cpu {
    // ---- the decoder, by opcode group ----

    /// ADC, ADI, AND, ANI, BIT, the conditional branches and BII.
    #[verifier::rlimit(100)]
    fn exec_arith(&mut self, op: u8, memory: &mut MemoryBus) -> (r: u8)
        requires
            arith_op(op),
            old(memory).wf(),
        ensures
            final(memory).wf(),
            final(memory).map.rom@ == old(memory).map.rom@,
            r == main_cycles(op, old(self).flags),
            !main_writes(op) ==> *final(memory) == *old(memory),
            *final(self) == model_arith(op, *old(self), *old(memory)),
            model_writes(op, *old(self), *old(memory), *final(memory)),
    {
        match op {
            0x02 => { let v = self.xl(); self.a = self.adc_with_flags(v); 5 },
            0x12 => { let v = self.yl(); self.a = self.adc_with_flags(v); 5 },
            0x22 => { let v = self.ul(); self.a = self.adc_with_flags(v); 5 },
            0x82 => { let v = self.xh(); self.a = self.adc_with_flags(v); 5 },
            0x92 => { let v = self.yh(); self.a = self.adc_with_flags(v); 5 },
            0xA2 => { let v = self.uh(); self.a = self.adc_with_flags(v); 5 },
            0x03 => { let v = self.read_me0(memory, self.x); self.a = self.adc_with_flags(v); 7 },
            0x13 => { let v = self.read_me0(memory, self.y); self.a = self.adc_with_flags(v); 7 },
            0x23 => { let v = self.read_me0(memory, self.u); self.a = self.adc_with_flags(v); 7 },
            0xA3 => { let v = self.read_ab_me0(memory); self.a = self.adc_with_flags(v); 8 },
            0xB3 => { let i = self.imm8(memory); self.a = self.adc_with_flags(i); 6 },
            0x4F => { let i = self.imm8(memory); self.adi_x_i(memory, i); 9 },
            0x5F => { let i = self.imm8(memory); self.adi_y_i(memory, i); 9 },
            0x6F => { let i = self.imm8(memory); self.adi_u_i(memory, i); 9 },
            0xEF => { let addr = self.imm16(memory); let i = self.imm8(memory); self.adi_ab_i(memory, addr, i); 11 },
            0x09 => { let v = self.read_me0(memory, self.x); self.a = self.and_with_flags(v); 7 },
            0x19 => { let v = self.read_me0(memory, self.y); self.a = self.and_with_flags(v); 7 },
            0x29 => { let v = self.read_me0(memory, self.u); self.a = self.and_with_flags(v); 7 },
            0xA9 => { let v = self.read_ab_me0(memory); self.a = self.and_with_flags(v); 8 },
            0xB9 => { let i = self.imm8(memory); self.a = self.and_with_flags(i); 6 },
            0x49 => { let i = self.imm8(memory); self.ani_x_i(memory, i); 9 },
            0x59 => { let i = self.imm8(memory); self.ani_y_i(memory, i); 9 },
            0x69 => { let i = self.imm8(memory); self.ani_u_i(memory, i); 9 },
            0xE9 => { let addr = self.imm16(memory); let i = self.imm8(memory); self.ani_ab_i(memory, addr, i); 11 },
            0x0F => { self.bit_x(); 7 },
            0x1F => { self.bit_y(); 7 },
            0x2F => { self.bit_u(); 7 },
            0xAF => { let addr = self.imm16(memory); self.bit_ab(memory, addr); 8 },
            _ => self.exec_branch(op, memory),
        }
    }

    /// The conditional branches and BII.
    #[verifier::rlimit(100)]
    fn exec_branch(&mut self, op: u8, memory: &mut MemoryBus) -> (r: u8)
        requires
            op == 0x8F || op == 0x9F || op == 0x8B || op == 0x9B || op == 0x83 || op == 0x93 || op == 0x81
                || op == 0x91 || op == 0x87 || op == 0x97 || op == 0x85 || op == 0x95 || op == 0xBF || op == 0x4D
                || op == 0x5D || op == 0x6D || op == 0xED,
            old(memory).wf(),
        ensures
            final(memory).wf(),
            final(memory).map.rom@ == old(memory).map.rom@,
            r == main_cycles(op, old(self).flags),
            !main_writes(op) ==> *final(memory) == *old(memory),
            *final(self) == model_arith(op, *old(self), *old(memory)),
            model_writes(op, *old(self), *old(memory), *final(memory)),
    {
        match op {
            0x8F | 0x9F | 0x8B | 0x9B | 0x83 | 0x93 | 0x81 | 0x91 | 0x87 | 0x97 | 0x85 | 0x95 => {
                let taken = self.branch_condition(op);
                let offset = self.imm8(memory) as i8;
                if taken {
                    self.branch(offset);
                    8
                } else {
                    5
                }
            },
            0xBF => { let i = self.imm8(memory); self.bii_a_i(i); 6 },
            0x4D => { let i = self.imm8(memory); let x = self.x; self.bii_ab_i(memory, x, i); 9 },
            0x5D => { let i = self.imm8(memory); let y = self.y; self.bii_ab_i(memory, y, i); 9 },
            0x6D => { let i = self.imm8(memory); let u = self.u; self.bii_ab_i(memory, u, i); 9 },
            _ => { let addr = self.imm16(memory); let i = self.imm8(memory); self.bii_ab_i(memory, addr, i); 11 },
        }
    }

    /// Whether the conditional branch `op` is taken under the current flags.
    fn branch_condition(&self, op: u8) -> (r: bool)
        ensures
            r == branch_taken(op, self.flags),
    {
        match op {
            0x8F => self.get_overflow_flag(),
            0x9F => !self.get_overflow_flag(),
            0x8B => self.get_zero_flag(),
            0x9B => !self.get_zero_flag(),
            0x83 => self.get_carry_flag(),
            0x93 | 0x91 | 0x81 => !self.get_carry_flag(),
            0x87 => self.get_half_carry_flag(),
            0x97 | 0x95 | 0x85 => !self.get_half_carry_flag(),
            _ => false,
        }
    }
}

impl Lh5801Cpu {
    /// CDV, CIN, CPA, CPI, DCA and DCS.
    #[verifier::rlimit(100)]
    fn exec_compare(&mut self, op: u8, memory: &mut MemoryBus) -> (r: u8)
        requires
            compare_op(op),
            old(memory).wf(),
        ensures
            final(memory).wf(),
            r == main_cycles(op, old(self).flags),
            *final(memory) == *old(memory),
            *final(self) == model_compare(op, *old(self), *old(memory)),
            model_writes(op, *old(self), *old(memory), *final(memory)),
    {
        match op {
            0x8E => self.cdv(),
            0xF7 => { self.cin(); 5 },
            0x06 => { let v = self.xl(); self.cpa_with_flags(v); 5 },
            0x16 => { let v = self.yl(); self.cpa_with_flags(v); 5 },
            0x26 => { let v = self.ul(); self.cpa_with_flags(v); 5 },
            0x86 => { let v = self.xh(); self.cpa_with_flags(v); 5 },
            0x96 => { let v = self.yh(); self.cpa_with_flags(v); 5 },
            0xA6 => { let v = self.uh(); self.cpa_with_flags(v); 5 },
            0x07 => { let v = self.read_me0(memory, self.x); self.cpa_with_flags(v); 7 },
            0x17 => { let v = self.read_me0(memory, self.y); self.cpa_with_flags(v); 7 },
            0x27 => { let v = self.read_me0(memory, self.u); self.cpa_with_flags(v); 7 },
            0xA7 => { let v = self.read_ab_me0(memory); self.cpa_with_flags(v); 8 },
            0xB7 => { let i = self.imm8(memory); self.cpa_with_flags(i); 6 },
            0x4E => { let i = self.imm8(memory); self.cpi_x_i(memory, i); 9 },
            0x5E => { let i = self.imm8(memory); self.cpi_y_i(memory, i); 9 },
            0x6E => { let i = self.imm8(memory); self.cpi_u_i(memory, i); 9 },
            0x4C => { let i = self.imm8(memory); self.cpi_xh_i(i); 6 },
            0x5C => { let i = self.imm8(memory); self.cpi_yh_i(i); 6 },
            0x6C => { let i = self.imm8(memory); self.cpi_uh_i(i); 6 },
            _ => self.exec_decimal(op, memory),
        }
    }

    /// DCA and DCS on the byte a pointer register addresses.
    #[verifier::rlimit(100)]
    fn exec_decimal(&mut self, op: u8, memory: &mut MemoryBus) -> (r: u8)
        requires
            op == 0x8C || op == 0x9C || op == 0xAC || op == 0x0C || op == 0x1C || op == 0x2C,
            old(memory).wf(),
        ensures
            final(memory).wf(),
            r == main_cycles(op, old(self).flags),
            *final(memory) == *old(memory),
            *final(self) == model_compare(op, *old(self), *old(memory)),
            model_writes(op, *old(self), *old(memory), *final(memory)),
    {
        match op {
            0x8C => { let x = self.x; self.dca_me0(memory, x); 7 },
            0x9C => { let y = self.y; self.dca_me0(memory, y); 7 },
            0xAC => { let u = self.u; self.dca_me0(memory, u); 7 },
            0x0C => { let x = self.x; self.dcs_me0(memory, x); 7 },
            0x1C => { let y = self.y; self.dcs_me0(memory, y); 7 },
            _ => { let u = self.u; self.dcs_me0(memory, u); 7 },
        }
    }

    /// DCA with the byte at `addr`.
    fn dca_me0(&mut self, memory: &MemoryBus, addr: u16)
        requires
            memory.wf(),
        ensures
            *final(self) == after_dca(*old(self), memory.byte(addr)),
    {
        let v = self.read_me0(memory, addr);
        self.a = self.dca_with_flags(v);
    }

    /// DCS with the byte at `addr`.
    fn dcs_me0(&mut self, memory: &MemoryBus, addr: u16)
        requires
            memory.wf(),
        ensures
            *final(self) == after_dcs(*old(self), memory.byte(addr)),
    {
        let v = self.read_me0(memory, addr);
        self.a = self.dcs_with_flags(v);
    }

    /// LDA, LDI, LDE and LIN.
    #[verifier::rlimit(100)]
    fn exec_load(&mut self, op: u8, memory: &mut MemoryBus) -> (r: u8)
        requires
            load_op(op),
            old(memory).wf(),
        ensures
            final(memory).wf(),
            r == main_cycles(op, old(self).flags),
            *final(memory) == *old(memory),
            *final(self) == model_load(op, *old(self), *old(memory)),
            model_writes(op, *old(self), *old(memory), *final(memory)),
    {
        match op {
            0x04 => { let v = self.xl(); self.lda_rl(v) },
            0x14 => { let v = self.yl(); self.lda_rl(v) },
            0x24 => { let v = self.ul(); self.lda_rl(v) },
            0x84 => { let v = self.xh(); self.lda_rh(v) },
            0x94 => { let v = self.yh(); self.lda_rh(v) },
            0xA4 => { let v = self.uh(); self.lda_rh(v) },
            0x05 => { let x = self.x; self.lda_rreg(memory, x) },
            0x15 => { let y = self.y; self.lda_rreg(memory, y) },
            0x25 => { let u = self.u; self.lda_rreg(memory, u) },
            0xA5 => self.lda_ab(memory),
            0xB5 => self.ldi_a(memory),
            0x4A => self.ldi_rl(memory, Rreg::X),
            0x5A => self.ldi_rl(memory, Rreg::Y),
            0x6A => self.ldi_rl(memory, Rreg::U),
            0x48 => self.ldi_rh(memory, Rreg::X),
            0x58 => self.ldi_rh(memory, Rreg::Y),
            0x68 => self.ldi_rh(memory, Rreg::U),
            0xAA => self.ldi_s(memory),
            _ => self.exec_lde_lin(op, memory),
        }
    }

    /// LDE and LIN: A from the byte a pointer register addresses, then the
    /// register steps down or up.
    fn exec_lde_lin(&mut self, op: u8, memory: &MemoryBus) -> (r: u8)
        requires
            op == 0x47 || op == 0x57 || op == 0x67 || op == 0x45 || op == 0x55 || op == 0x65,
            memory.wf(),
        ensures
            r == 7,
            *final(self) == model_load(op, *old(self), *memory),
    {
        match op {
            0x47 => { let mut x = self.x; let c = self.lde_rreg(memory, &mut x); self.x = x; c },
            0x57 => { let mut y = self.y; let c = self.lde_rreg(memory, &mut y); self.y = y; c },
            0x67 => { let mut u = self.u; let c = self.lde_rreg(memory, &mut u); self.u = u; c },
            0x45 => { let mut x = self.x; let c = self.lin_rreg(memory, &mut x); self.x = x; c },
            0x55 => { let mut y = self.y; let c = self.lin_rreg(memory, &mut y); self.y = y; c },
            _ => { let mut u = self.u; let c = self.lin_rreg(memory, &mut u); self.u = u; c },
        }
    }

    /// STA, SDE and SIN.
    #[verifier::rlimit(100)]
    fn exec_store(&mut self, op: u8, memory: &mut MemoryBus) -> (r: u8)
        requires
            store_op(op),
            old(memory).wf(),
        ensures
            final(memory).wf(),
            final(memory).map.rom@ == old(memory).map.rom@,
            r == main_cycles(op, old(self).flags),
            !main_writes(op) ==> *final(memory) == *old(memory),
            *final(self) == model_store(op, *old(self), *old(memory)),
            model_writes(op, *old(self), *old(memory), *final(memory)),
    {
        match op {
            0x0A => self.sta_rl(Rreg::X),
            0x1A => self.sta_rl(Rreg::Y),
            0x2A => self.sta_rl(Rreg::U),
            0x08 => self.sta_rh(Rreg::X),
            0x18 => self.sta_rh(Rreg::Y),
            0x28 => self.sta_rh(Rreg::U),
            0x0E => { let x = self.x; self.sta_rreg(memory, x) },
            0x1E => { let y = self.y; self.sta_rreg(memory, y) },
            0x2E => { let u = self.u; self.sta_rreg(memory, u) },
            0xAE => { let addr = self.imm16(memory); self.sta_ab(memory, addr) },
            0x43 => { let mut x = self.x; let c = self.sde_rreg(memory, &mut x); self.x = x; c },
            0x53 => { let mut y = self.y; let c = self.sde_rreg(memory, &mut y); self.y = y; c },
            0x63 => { let mut u = self.u; let c = self.sde_rreg(memory, &mut u); self.u = u; c },
            0x41 => { let mut x = self.x; let c = self.sin_rreg(memory, &mut x); self.x = x; c },
            0x51 => { let mut y = self.y; let c = self.sin_rreg(memory, &mut y); self.y = y; c },
            _ => { let mut u = self.u; let c = self.sin_rreg(memory, &mut u); self.u = u; c },
        }
    }
}

impl Lh5801Cpu {
    /// FD-prefixed arithmetic, logic, test and control instructions.
    #[verifier::rlimit(100)]
    fn exec_fd_arith(&mut self, op: u8, memory: &mut MemoryBus) -> (r: u8)
        requires
            fd_arith_op(op),
            old(memory).wf(),
        ensures
            final(memory).wf(),
            final(memory).map.rom@ == old(memory).map.rom@,
            r == fd_cycles(op),
            !fd_writes(op) ==> *final(memory) == *old(memory),
            *final(self) == model_fd_arith(op, *old(self), *old(memory)),
            model_fd_writes(op, *old(self), *old(memory), *final(memory)),
    {
        match op {
            0x03 => { let v = self.read_me1(memory, self.x); self.a = self.adc_with_flags(v); 9 },
            0x13 => { let v = self.read_me1(memory, self.y); self.a = self.adc_with_flags(v); 9 },
            0x23 => { let v = self.read_me1(memory, self.u); self.a = self.adc_with_flags(v); 9 },
            0xA3 => { let v = self.read_ab_me1(memory); self.a = self.adc_with_flags(v); 10 },
            0x4F => { let i = self.imm8(memory); self.adi_indirect_x_i(memory, i); 11 },
            0x5F => { let i = self.imm8(memory); self.adi_indirect_y_i(memory, i); 11 },
            0x6F => { let i = self.imm8(memory); self.adi_indirect_u_i(memory, i); 11 },
            0xEF => {
                let addr = self.imm16(memory);
                let i = self.imm8(memory);
                self.adi_indirect_ab_i(memory, addr, i);
                13
            },
            0xCA => { self.adr_x(); 6 },
            0xDA => { self.adr_y(); 6 },
            0xEA => { self.adr_u(); 6 },
            0xF1 => { self.aex(); 5 },
            0x09 => { let v = self.read_me1(memory, self.x); self.a = self.and_with_flags(v); 9 },
            0x19 => { let v = self.read_me1(memory, self.y); self.a = self.and_with_flags(v); 9 },
            0x29 => { let v = self.read_me1(memory, self.u); self.a = self.and_with_flags(v); 9 },
            0xA9 => { let v = self.read_ab_me1(memory); self.a = self.and_with_flags(v); 10 },
            0x49 => { let i = self.imm8(memory); self.ani_indirect_x_i(memory, i); 11 },
            0x59 => { let i = self.imm8(memory); self.ani_indirect_y_i(memory, i); 11 },
            0x69 => { let i = self.imm8(memory); self.ani_indirect_u_i(memory, i); 11 },
            0xE9 => {
                let addr = self.imm16(memory);
                let i = self.imm8(memory);
                self.ani_indirect_ab_i(memory, addr, i);
                13
            },
            _ => self.exec_fd_control(op, memory),
        }
    }

    /// FD-prefixed timer, port, test, compare and decimal instructions.
    #[verifier::rlimit(100)]
    fn exec_fd_control(&mut self, op: u8, memory: &mut MemoryBus) -> (r: u8)
        requires
            fd_control_op(op),
            old(memory).wf(),
        ensures
            final(memory).wf(),
            final(memory).map.rom@ == old(memory).map.rom@,
            r == fd_cycles(op),
            !fd_writes(op) ==> *final(memory) == *old(memory),
            *final(self) == model_fd_arith(op, *old(self), *old(memory)),
            model_fd_writes(op, *old(self), *old(memory), *final(memory)),
    {
        match op {
            0xCE => self.am0(),
            0xDE => self.am1(),
            0xCC => self.atp(memory),
            0xEC => { self.att(); 8 },
            0x0F => { self.bit_indirect_x(memory); 9 },
            0x1F => { self.bit_indirect_y(memory); 9 },
            0x2F => { self.bit_indirect_u(memory); 9 },
            0xAF => { let addr = self.imm16(memory); self.bit_indirect_ab(memory, addr); 10 },
            0x4D => { let i = self.imm8(memory); let x = self.x; self.bii_indirect_ab_i(memory, x, i); 11 },
            0x5D => { let i = self.imm8(memory); let y = self.y; self.bii_indirect_ab_i(memory, y, i); 11 },
            0x6D => { let i = self.imm8(memory); let u = self.u; self.bii_indirect_ab_i(memory, u, i); 11 },
            0xED => {
                let addr = self.imm16(memory);
                let i = self.imm8(memory);
                self.bii_indirect_ab_i(memory, addr, i);
                13
            },
            0x8E => self.cdv(),
            0xF7 => { self.cin(); 5 },
            0x07 => { let v = self.read_me1(memory, self.x); self.cpa_with_flags(v); 9 },
            0x17 => { let v = self.read_me1(memory, self.y); self.cpa_with_flags(v); 9 },
            0x27 => { let v = self.read_me1(memory, self.u); self.cpa_with_flags(v); 9 },
            0xA7 => { let v = self.read_ab_me1(memory); self.cpa_with_flags(v); 10 },
            0x8C => { let v = self.read_me1(memory, self.x); self.a = self.dca_with_flags(v); 9 },
            0x9C => { let v = self.read_me1(memory, self.y); self.a = self.dca_with_flags(v); 9 },
            0xAC => { let v = self.read_me1(memory, self.u); self.a = self.dca_with_flags(v); 9 },
            0x0C => { let v = self.read_me1(memory, self.x); self.a = self.dcs_with_flags(v); 9 },
            0x1C => { let v = self.read_me1(memory, self.y); self.a = self.dcs_with_flags(v); 9 },
            _ => { let v = self.read_me1(memory, self.u); self.a = self.dcs_with_flags(v); 9 },
        }
    }

    /// FD-prefixed transfers: LDA, LDX, STA, STX, PSH, POP, ATT and TTA.
    #[verifier::rlimit(100)]
    fn exec_fd_transfer(&mut self, op: u8, memory: &mut MemoryBus) -> (r: u8)
        requires
            fd_transfer_op(op),
            old(memory).wf(),
        ensures
            final(memory).wf(),
            final(memory).map.rom@ == old(memory).map.rom@,
            r == fd_cycles(op),
            !fd_writes(op) ==> *final(memory) == *old(memory),
            *final(self) == model_fd_transfer(op, *old(self), *old(memory)),
            model_fd_writes(op, *old(self), *old(memory), *final(memory)),
    {
        match op {
            0x05 => { let x = self.x; self.lda_rreg_indirect(memory, x) },
            0x15 => { let y = self.y; self.lda_rreg_indirect(memory, y) },
            0x25 => { let u = self.u; self.lda_rreg_indirect(memory, u) },
            0xA5 => self.lda_ab_indirect(memory),
            0x08 => { self.x = self.y; 5 },
            0x18 => { self.y = self.x; 5 },
            0x28 => { self.u = self.x; 5 },
            0x48 => { self.s = self.x; 5 },
            0x58 => { self.p = self.x; 5 },
            0x0E => { let x = self.x; self.sta_rreg_indirect(memory, x) },
            0x1E => { let y = self.y; self.sta_rreg_indirect(memory, y) },
            0x2E => { let u = self.u; self.sta_rreg_indirect(memory, u) },
            0xAE => { let addr = self.imm16(memory); self.sta_ab_indirect(memory, addr) },
            0x4A => { self.y = self.x; 5 },
            0x5A => { self.x = self.y; 5 },
            0x6A => { self.x = self.u; 5 },
            0x4E => { self.s = self.x; 5 },
            0x5E => { self.p = self.x; 5 },
            0xC8 => self.psh_a(memory),
            0x88 => { let h = self.xh(); let l = self.xl(); self.psh_rreg(memory, h, l) },
            0x98 => { let h = self.yh(); let l = self.yl(); self.psh_rreg(memory, h, l) },
            0xA8 => { let h = self.uh(); let l = self.ul(); self.psh_rreg(memory, h, l) },
            0x8A => self.pop_a(memory),
            0x0A => self.pop_rreg(memory, Rreg::X),
            0x1A => self.pop_rreg(memory, Rreg::Y),
            0x2A => self.pop_rreg(memory, Rreg::U),
            0xBA => self.att(),
            _ => self.tta(),
        }
    }

    /// Decodes the byte after an FD prefix and runs that instruction.
    /// Returns the cycle count; an unknown second byte costs 5 cycles and
    /// changes nothing but P.
    #[verifier::rlimit(40)]
    fn execute_fd_prefix(&mut self, memory: &mut MemoryBus) -> (r: u8)
        requires
            old(memory).wf(),
        ensures
            final(memory).wf(),
            final(memory).map.rom@ == old(memory).map.rom@,
            r == fd_cycles(old(memory).byte(old(self).p)),
            !fd_writes(old(memory).byte(old(self).p)) ==> *final(memory) == *old(memory),
            !fd_arith_op(old(memory).byte(old(self).p)) && !fd_transfer_op(old(memory).byte(old(self).p))
                ==> *final(self) == (Lh5801Cpu { p: next_addr(old(self).p), ..*old(self) }),
            *final(self) == model_fd_after(old(memory).byte(old(self).p), skip(*old(self), 1), *old(memory)),
            model_fd_writes(old(memory).byte(old(self).p), skip(*old(self), 1), *old(memory), *final(memory)),
    {
        let second = self.imm8(memory);
        if fd_arith(second) {
            self.exec_fd_arith(second, memory)
        } else if fd_transfer(second) {
            self.exec_fd_transfer(second, memory)
        } else {
            5
        }
    }
}

impl Lh5801Cpu {
    /// A prefix whose second byte this model does not decode: the byte is
    /// read, and the instruction costs 5 cycles.
    fn execute_empty_prefix(&mut self, memory: &MemoryBus) -> (r: u8)
        requires
            memory.wf(),
        ensures
            r == 5,
            *final(self) == (Lh5801Cpu { p: next_addr(old(self).p), ..*old(self) }),
    {
        let _second = self.imm8(memory);
        5
    }

    /// The 01 prefix.
    fn execute_01_prefix(&mut self, memory: &MemoryBus) -> (r: u8)
        requires
            memory.wf(),
        ensures
            r == 5,
            *final(self) == (Lh5801Cpu { p: next_addr(old(self).p), ..*old(self) }),
    {
        self.execute_empty_prefix(memory)
    }

    /// The 21 prefix.
    fn execute_21_prefix(&mut self, memory: &MemoryBus) -> (r: u8)
        requires
            memory.wf(),
        ensures
            r == 5,
            *final(self) == (Lh5801Cpu { p: next_addr(old(self).p), ..*old(self) }),
    {
        self.execute_empty_prefix(memory)
    }

    /// The 11 prefix.
    fn execute_11_prefix(&mut self, memory: &MemoryBus) -> (r: u8)
        requires
            memory.wf(),
        ensures
            r == 5,
            *final(self) == (Lh5801Cpu { p: next_addr(old(self).p), ..*old(self) }),
    {
        self.execute_empty_prefix(memory)
    }

    /// The 05 prefix (05 itself decodes as LDA (X)).
    fn execute_05_prefix(&mut self, memory: &MemoryBus) -> (r: u8)
        requires
            memory.wf(),
        ensures
            r == 5,
            *final(self) == (Lh5801Cpu { p: next_addr(old(self).p), ..*old(self) }),
    {
        self.execute_empty_prefix(memory)
    }

    /// The 15 prefix (15 itself decodes as LDA (Y)).
    fn execute_15_prefix(&mut self, memory: &MemoryBus) -> (r: u8)
        requires
            memory.wf(),
        ensures
            r == 5,
            *final(self) == (Lh5801Cpu { p: next_addr(old(self).p), ..*old(self) }),
    {
        self.execute_empty_prefix(memory)
    }

    /// The 25 prefix (25 itself decodes as LDA (U)).
    fn execute_25_prefix(&mut self, memory: &MemoryBus) -> (r: u8)
        requires
            memory.wf(),
        ensures
            r == 5,
            *final(self) == (Lh5801Cpu { p: next_addr(old(self).p), ..*old(self) }),
    {
        self.execute_empty_prefix(memory)
    }

    /// The 35 prefix.
    fn execute_35_prefix(&mut self, memory: &MemoryBus) -> (r: u8)
        requires
            memory.wf(),
        ensures
            r == 5,
            *final(self) == (Lh5801Cpu { p: next_addr(old(self).p), ..*old(self) }),
    {
        self.execute_empty_prefix(memory)
    }

    /// The 0D prefix.
    fn execute_0d_prefix(&mut self, memory: &MemoryBus) -> (r: u8)
        requires
            memory.wf(),
        ensures
            r == 5,
            *final(self) == (Lh5801Cpu { p: next_addr(old(self).p), ..*old(self) }),
    {
        self.execute_empty_prefix(memory)
    }

    /// The 1D prefix.
    fn execute_1d_prefix(&mut self, memory: &MemoryBus) -> (r: u8)
        requires
            memory.wf(),
        ensures
            r == 5,
            *final(self) == (Lh5801Cpu { p: next_addr(old(self).p), ..*old(self) }),
    {
        self.execute_empty_prefix(memory)
    }

    /// The 2D prefix.
    fn execute_2d_prefix(&mut self, memory: &MemoryBus) -> (r: u8)
        requires
            memory.wf(),
        ensures
            r == 5,
            *final(self) == (Lh5801Cpu { p: next_addr(old(self).p), ..*old(self) }),
    {
        self.execute_empty_prefix(memory)
    }

    /// The 3D prefix.
    fn execute_3d_prefix(&mut self, memory: &MemoryBus) -> (r: u8)
        requires
            memory.wf(),
        ensures
            r == 5,
            *final(self) == (Lh5801Cpu { p: next_addr(old(self).p), ..*old(self) }),
    {
        self.execute_empty_prefix(memory)
    }

    /// Runs the instruction whose opcode was just fetched (P points past it)
    /// and returns its cycle count. An opcode this model does not know costs
    /// 5 cycles and changes nothing.
    #[verifier::rlimit(40)]
    fn execute(&mut self, opcode: u8, memory: &mut MemoryBus) -> (r: u8)
        requires
            old(memory).wf(),
        ensures
            final(memory).wf(),
            final(memory).map.rom@ == old(memory).map.rom@,
            opcode != 0xFD ==> r == main_cycles(opcode, old(self).flags),
            opcode == 0xFD ==> r == fd_cycles(old(memory).byte(old(self).p)),
            opcode != 0xFD && !main_writes(opcode) ==> *final(memory) == *old(memory),
            opcode == 0xFD && !fd_writes(old(memory).byte(old(self).p)) ==> *final(memory) == *old(memory),
            empty_prefix(opcode) ==> *final(self) == (Lh5801Cpu { p: next_addr(old(self).p), ..*old(self) }),
            !main_known(opcode) ==> *final(self) == *old(self),
            opcode != 0xFD ==> *final(self) == model_after(opcode, *old(self), *old(memory)),
            opcode != 0xFD ==> model_writes(opcode, *old(self), *old(memory), *final(memory)),
            opcode == 0xFD ==> *final(self) == model_fd_after(old(memory).byte(old(self).p), skip(*old(self), 1), *old(memory)),
            opcode == 0xFD ==> model_fd_writes(old(memory).byte(old(self).p), skip(*old(self), 1), *old(memory), *final(memory)),
    {
        match opcode {
            0xFD => self.execute_fd_prefix(memory),
            0x01 => self.execute_01_prefix(memory),
            0x21 => self.execute_21_prefix(memory),
            0x11 => self.execute_11_prefix(memory),
            0x35 => self.execute_35_prefix(memory),
            0x0D => self.execute_0d_prefix(memory),
            0x1D => self.execute_1d_prefix(memory),
            0x2D => self.execute_2d_prefix(memory),
            0x3D => self.execute_3d_prefix(memory),
            _ => {
                if is_arith(opcode) {
                    self.exec_arith(opcode, memory)
                } else if is_compare(opcode) {
                    self.exec_compare(opcode, memory)
                } else if is_load(opcode) {
                    self.exec_load(opcode, memory)
                } else if is_store(opcode) {
                    self.exec_store(opcode, memory)
                } else {
                    5
                }
            },
        }
    }

    /// One instruction: a halted CPU idles for one cycle; otherwise the opcode
    /// at P is fetched and run. Returns the cycle count.
    pub fn step(&mut self, memory: &mut MemoryBus) -> (r: u8)
        requires
            old(memory).wf(),
        ensures
            final(memory).wf(),
            final(memory).map.rom@ == old(memory).map.rom@,
            old(self).is_halted ==> r == 1 && *final(self) == *old(self) && *final(memory) == *old(memory),
            !old(self).is_halted ==> ({
                let op = old(memory).byte(old(self).p);
                let after = Lh5801Cpu { p: next_addr(old(self).p), ..*old(self) };
                &&& (op != 0xFD ==> r == main_cycles(op, old(self).flags))
                &&& (op == 0xFD ==> r == fd_cycles(old(memory).byte(next_addr(old(self).p))))
                &&& (op != 0xFD && !main_writes(op) ==> *final(memory) == *old(memory))
                &&& (!main_known(op) ==> *final(self) == after)
                &&& (empty_prefix(op) ==> *final(self) == Lh5801Cpu { p: next_addr(next_addr(old(self).p)), ..*old(self) })
                &&& (op != 0xFD ==> *final(self) == model_after(op, after, *old(memory)))
                &&& (op != 0xFD ==> model_writes(op, after, *old(memory), *final(memory)))
                &&& (op == 0xFD ==> *final(self) == model_fd_after(old(memory).byte(after.p), skip(after, 1), *old(memory)))
                &&& (op == 0xFD ==> model_fd_writes(old(memory).byte(after.p), skip(after, 1), *old(memory), *final(memory)))
            }),
    {
        if self.is_halted {
            return 1;
        }
        let opcode = self.imm8(memory);
        self.execute(opcode, memory)
    }
}

/// The machine after ADC with operand `v`: A + v + C into A; Z, C, H, V.
pub open spec fn after_adc(c: Lh5801Cpu, v: u8) -> Lh5801Cpu {
    let a = c.a;
    let cin = bit_in(c.flags & CF != 0);
    let res = (a + v + cin) as u8;
    Lh5801Cpu {
        a: res,
        flags: with_flag(with_flag(with_flag(with_flag(c.flags, ZF, res == 0), CF, a + v + cin > 0xFF),
            HF, (a & 0x0F) + (v & 0x0F) + cin > 0x0F),
            VF, (a & 0x80) == (v & 0x80) && (a & 0x80) != (res & 0x80)),
        ..c
    }
}

/// The machine after SBC with operand `v`: A - v - C into A; Z, C, H, V.
pub open spec fn after_sbc(c: Lh5801Cpu, v: u8) -> Lh5801Cpu {
    let a = c.a;
    let cin = bit_in(c.flags & CF != 0);
    let res = (a - v - cin) as u8;
    Lh5801Cpu {
        a: res,
        flags: with_flag(with_flag(with_flag(with_flag(c.flags, ZF, res == 0), CF, a - v - cin < 0),
            HF, (a & 0x0F) < (v & 0x0F) + cin),
            VF, (a & 0x80) != (v & 0x80) && (a & 0x80) != (res & 0x80)),
        ..c
    }
}

/// The machine after a logic operation left `res` in A: Z from it, C and V off.
pub open spec fn after_logic(c: Lh5801Cpu, res: u8) -> Lh5801Cpu {
    Lh5801Cpu { a: res, flags: with_flag(with_flag(with_flag(c.flags, ZF, res == 0), CF, false), VF, false), ..c }
}

/// The machine after DCA with operand `v`: A biased by 0x66, plus `v` and
/// C; Z, C and H from that sum select the decimal adjustment, and Z then
/// follows the adjusted result.
pub open spec fn after_dca(c: Lh5801Cpu, v: u8) -> Lh5801Cpu {
    let cin = bit_in(c.flags & CF != 0);
    let biased = c.a.wrapping_add(0x66);
    let sum = biased + v + cin;
    let res1 = sum as u8;
    let carry = sum > 0xFF;
    let half = (biased & 0x0F) + (v & 0x0F) + cin > 0x0F;
    let res = res1.wrapping_add(decimal_adjust(carry, half));
    Lh5801Cpu { a: res, flags: with_flag(with_flag(with_flag(with_flag(c.flags, ZF, res1 == 0), CF, carry), HF, half), ZF, res == 0), ..c }
}

/// The machine after DCS with operand `v`: A plus `v` and C; Z, C and H from
/// that sum select the decimal adjustment, and Z then follows the result.
pub open spec fn after_dcs(c: Lh5801Cpu, v: u8) -> Lh5801Cpu {
    let cin = bit_in(c.flags & CF != 0);
    let sum = c.a + v + cin;
    let res1 = sum as u8;
    let carry = sum > 0xFF;
    let half = (c.a & 0x0F) + (v & 0x0F) + cin > 0x0F;
    let res = res1.wrapping_add(decimal_adjust(carry, half));
    Lh5801Cpu { a: res, flags: with_flag(with_flag(with_flag(with_flag(c.flags, ZF, res1 == 0), CF, carry), HF, half), ZF, res == 0), ..c }
}

/// The machine after INC or DEC of an 8-bit value `v` gave `res`.
pub open spec fn step_flags(f: u8, v: u8, res: u8, up: bool) -> u8 {
    if up {
        with_flag(with_flag(with_flag(with_flag(f, ZF, res == 0), CF, v == 0xFF), HF, (v & 0x0F) == 0x0F),
            VF, (v & 0x80) == 0 && (res & 0x80) != 0)
    } else {
        with_flag(with_flag(with_flag(with_flag(f, ZF, res == 0), CF, v == 0x00), HF, (v & 0x0F) == 0x00),
            VF, (v & 0x80) != 0 && (res & 0x80) == 0)
    }
}

/// `c` with P moved past `n` operand bytes (1, 2 or 3).
pub open spec fn skip(c: Lh5801Cpu, n: int) -> Lh5801Cpu {
    if n == 1 {
        Lh5801Cpu { p: next_addr(c.p), ..c }
    } else if n == 2 {
        Lh5801Cpu { p: next_addr(next_addr(c.p)), ..c }
    } else {
        Lh5801Cpu { p: next_addr(next_addr(next_addr(c.p))), ..c }
    }
}

impl Lh5801Cpu {
    // ---- operand forms of the accumulator operations on X ----

    /// ADC (X).
    fn adc_rreg(&mut self, memory: &MemoryBus) -> (r: u8)
        requires
            memory.wf(),
        ensures
            r == 7,
            *final(self) == after_adc(*old(self), memory.byte(old(self).x)),
    {
        let v = self.read_me0(memory, self.x);
        self.a = self.adc_with_flags(v);
        7
    }

    /// ADC #(X).
    fn adc_rreg_indirect(&mut self, memory: &MemoryBus) -> (r: u8)
        requires
            memory.wf(),
        ensures
            r == 9,
            *final(self) == after_adc(*old(self), memory.byte(memory.word(old(self).x))),
    {
        let v = self.read_me1(memory, self.x);
        self.a = self.adc_with_flags(v);
        9
    }

    /// ADC (ab).
    fn adc_ab(&mut self, memory: &MemoryBus) -> (r: u8)
        requires
            memory.wf(),
        ensures
            r == 8,
            *final(self) == after_adc(skip(*old(self), 2), memory.byte(memory.word(old(self).p))),
    {
        let v = self.read_ab_me0(memory);
        self.a = self.adc_with_flags(v);
        8
    }

    /// ADC #(ab).
    fn adc_ab_indirect(&mut self, memory: &MemoryBus) -> (r: u8)
        requires
            memory.wf(),
        ensures
            r == 10,
            *final(self) == after_adc(skip(*old(self), 2), memory.byte(memory.word(memory.word(old(self).p)))),
    {
        let v = self.read_ab_me1(memory);
        self.a = self.adc_with_flags(v);
        10
    }

    /// SBC (X).
    fn sbc_rreg(&mut self, memory: &MemoryBus) -> (r: u8)
        requires
            memory.wf(),
        ensures
            r == 7,
            *final(self) == after_sbc(*old(self), memory.byte(old(self).x)),
    {
        let v = self.read_me0(memory, self.x);
        self.a = self.sbc_with_flags(v);
        7
    }

    /// SBC #(X).
    fn sbc_rreg_indirect(&mut self, memory: &MemoryBus) -> (r: u8)
        requires
            memory.wf(),
        ensures
            r == 9,
            *final(self) == after_sbc(*old(self), memory.byte(memory.word(old(self).x))),
    {
        let v = self.read_me1(memory, self.x);
        self.a = self.sbc_with_flags(v);
        9
    }

    /// SBC (ab).
    fn sbc_ab(&mut self, memory: &MemoryBus) -> (r: u8)
        requires
            memory.wf(),
        ensures
            r == 8,
            *final(self) == after_sbc(skip(*old(self), 2), memory.byte(memory.word(old(self).p))),
    {
        let v = self.read_ab_me0(memory);
        self.a = self.sbc_with_flags(v);
        8
    }

    /// SBC #(ab).
    fn sbc_ab_indirect(&mut self, memory: &MemoryBus) -> (r: u8)
        requires
            memory.wf(),
        ensures
            r == 10,
            *final(self) == after_sbc(skip(*old(self), 2), memory.byte(memory.word(memory.word(old(self).p)))),
    {
        let v = self.read_ab_me1(memory);
        self.a = self.sbc_with_flags(v);
        10
    }

    /// AND (X).
    fn and_rreg(&mut self, memory: &MemoryBus) -> (r: u8)
        requires
            memory.wf(),
        ensures
            r == 7,
            *final(self) == after_logic(*old(self), old(self).a & memory.byte(old(self).x)),
    {
        let v = self.read_me0(memory, self.x);
        self.a = self.and_with_flags(v);
        7
    }

    /// AND #(X).
    fn and_rreg_indirect(&mut self, memory: &MemoryBus) -> (r: u8)
        requires
            memory.wf(),
        ensures
            r == 9,
            *final(self) == after_logic(*old(self), old(self).a & memory.byte(memory.word(old(self).x))),
    {
        let v = self.read_me1(memory, self.x);
        self.a = self.and_with_flags(v);
        9
    }

    /// AND (ab).
    fn and_ab(&mut self, memory: &MemoryBus) -> (r: u8)
        requires
            memory.wf(),
        ensures
            r == 8,
            *final(self) == after_logic(skip(*old(self), 2), old(self).a & memory.byte(memory.word(old(self).p))),
    {
        let v = self.read_ab_me0(memory);
        self.a = self.and_with_flags(v);
        8
    }

    /// AND #(ab).
    fn and_ab_indirect(&mut self, memory: &MemoryBus) -> (r: u8)
        requires
            memory.wf(),
        ensures
            r == 10,
            *final(self) == after_logic(skip(*old(self), 2), old(self).a & memory.byte(memory.word(memory.word(old(self).p)))),
    {
        let v = self.read_ab_me1(memory);
        self.a = self.and_with_flags(v);
        10
    }

    /// ORA (X).
    fn ora_rreg(&mut self, memory: &MemoryBus) -> (r: u8)
        requires
            memory.wf(),
        ensures
            r == 7,
            *final(self) == after_logic(*old(self), old(self).a | memory.byte(old(self).x)),
    {
        let v = self.read_me0(memory, self.x);
        self.a = self.or_with_flags(v);
        7
    }

    /// ORA #(X).
    fn ora_rreg_indirect(&mut self, memory: &MemoryBus) -> (r: u8)
        requires
            memory.wf(),
        ensures
            r == 9,
            *final(self) == after_logic(*old(self), old(self).a | memory.byte(memory.word(old(self).x))),
    {
        let v = self.read_me1(memory, self.x);
        self.a = self.or_with_flags(v);
        9
    }

    /// ORA (ab).
    fn ora_ab(&mut self, memory: &MemoryBus) -> (r: u8)
        requires
            memory.wf(),
        ensures
            r == 8,
            *final(self) == after_logic(skip(*old(self), 2), old(self).a | memory.byte(memory.word(old(self).p))),
    {
        let v = self.read_ab_me0(memory);
        self.a = self.or_with_flags(v);
        8
    }

    /// ORA #(ab).
    fn ora_ab_indirect(&mut self, memory: &MemoryBus) -> (r: u8)
        requires
            memory.wf(),
        ensures
            r == 10,
            *final(self) == after_logic(skip(*old(self), 2), old(self).a | memory.byte(memory.word(memory.word(old(self).p)))),
    {
        let v = self.read_ab_me1(memory);
        self.a = self.or_with_flags(v);
        10
    }

    /// EOR (X).
    fn eor_rreg(&mut self, memory: &MemoryBus) -> (r: u8)
        requires
            memory.wf(),
        ensures
            r == 7,
            *final(self) == after_logic(*old(self), old(self).a ^ memory.byte(old(self).x)),
    {
        let v = self.read_me0(memory, self.x);
        self.a = self.xor_with_flags(v);
        7
    }

    /// EOR #(X).
    fn eor_rreg_indirect(&mut self, memory: &MemoryBus) -> (r: u8)
        requires
            memory.wf(),
        ensures
            r == 9,
            *final(self) == after_logic(*old(self), old(self).a ^ memory.byte(memory.word(old(self).x))),
    {
        let v = self.read_me1(memory, self.x);
        self.a = self.xor_with_flags(v);
        9
    }

    /// EOR (ab).
    fn eor_ab(&mut self, memory: &MemoryBus) -> (r: u8)
        requires
            memory.wf(),
        ensures
            r == 8,
            *final(self) == after_logic(skip(*old(self), 2), old(self).a ^ memory.byte(memory.word(old(self).p))),
    {
        let v = self.read_ab_me0(memory);
        self.a = self.xor_with_flags(v);
        8
    }

    /// EOR #(ab).
    fn eor_ab_indirect(&mut self, memory: &MemoryBus) -> (r: u8)
        requires
            memory.wf(),
        ensures
            r == 10,
            *final(self) == after_logic(skip(*old(self), 2), old(self).a ^ memory.byte(memory.word(memory.word(old(self).p)))),
    {
        let v = self.read_ab_me1(memory);
        self.a = self.xor_with_flags(v);
        10
    }

    /// DCA (X).
    fn dca_rreg(&mut self, memory: &MemoryBus) -> (r: u8)
        requires
            memory.wf(),
        ensures
            r == 7,
            *final(self) == after_dca(*old(self), memory.byte(old(self).x)),
    {
        let v = self.read_me0(memory, self.x);
        self.a = self.dca_with_flags(v);
        7
    }

    /// DCA #(X).
    fn dca_rreg_indirect(&mut self, memory: &MemoryBus) -> (r: u8)
        requires
            memory.wf(),
        ensures
            r == 9,
            *final(self) == after_dca(*old(self), memory.byte(memory.word(old(self).x))),
    {
        let v = self.read_me1(memory, self.x);
        self.a = self.dca_with_flags(v);
        9
    }

    /// DCS (X).
    fn dcs_rreg(&mut self, memory: &MemoryBus) -> (r: u8)
        requires
            memory.wf(),
        ensures
            r == 7,
            *final(self) == after_dcs(*old(self), memory.byte(old(self).x)),
    {
        let v = self.read_me0(memory, self.x);
        self.a = self.dcs_with_flags(v);
        7
    }

    /// DCS #(X).
    fn dcs_rreg_indirect(&mut self, memory: &MemoryBus) -> (r: u8)
        requires
            memory.wf(),
        ensures
            r == 9,
            *final(self) == after_dcs(*old(self), memory.byte(memory.word(old(self).x))),
    {
        let v = self.read_me1(memory, self.x);
        self.a = self.dcs_with_flags(v);
        9
    }

    /// ADI A,i.
    fn adi_a(&mut self, memory: &MemoryBus) -> (r: u8)
        requires
            memory.wf(),
        ensures
            r == 6,
            *final(self) == after_adc(skip(*old(self), 1), memory.byte(old(self).p)),
    {
        let v = self.imm8(memory);
        self.a = self.adc_with_flags(v);
        6
    }

    /// SBI A,i.
    fn sbi_a(&mut self, memory: &MemoryBus) -> (r: u8)
        requires
            memory.wf(),
        ensures
            r == 6,
            *final(self) == after_sbc(skip(*old(self), 1), memory.byte(old(self).p)),
    {
        let v = self.imm8(memory);
        self.a = self.sbc_with_flags(v);
        6
    }

    /// ANI A,i.
    fn ani_a(&mut self, memory: &MemoryBus) -> (r: u8)
        requires
            memory.wf(),
        ensures
            r == 6,
            *final(self) == after_logic(skip(*old(self), 1), old(self).a & memory.byte(old(self).p)),
    {
        let v = self.imm8(memory);
        self.a = self.and_with_flags(v);
        6
    }

    /// ORI A,i.
    fn ori_a(&mut self, memory: &MemoryBus) -> (r: u8)
        requires
            memory.wf(),
        ensures
            r == 6,
            *final(self) == after_logic(skip(*old(self), 1), old(self).a | memory.byte(old(self).p)),
    {
        let v = self.imm8(memory);
        self.a = self.or_with_flags(v);
        6
    }

    /// EAI A,i.
    fn eai_a(&mut self, memory: &MemoryBus) -> (r: u8)
        requires
            memory.wf(),
        ensures
            r == 6,
            *final(self) == after_logic(skip(*old(self), 1), old(self).a ^ memory.byte(old(self).p)),
    {
        let v = self.imm8(memory);
        self.a = self.xor_with_flags(v);
        6
    }

    /// ADC XL.
    fn adc_rl(&mut self) -> (r: u8)
        ensures
            r == 5,
            *final(self) == after_adc(*old(self), lo_byte(old(self).x)),
    {
        let v = self.xl();
        self.a = self.adc_with_flags(v);
        5
    }

    /// ADC XH.
    fn adc_rh(&mut self) -> (r: u8)
        ensures
            r == 5,
            *final(self) == after_adc(*old(self), hi_byte(old(self).x)),
    {
        let v = self.xh();
        self.a = self.adc_with_flags(v);
        5
    }

    /// SBC XL.
    fn sbc_rl(&mut self) -> (r: u8)
        ensures
            r == 5,
            *final(self) == after_sbc(*old(self), lo_byte(old(self).x)),
    {
        let v = self.xl();
        self.a = self.sbc_with_flags(v);
        5
    }

    /// SBC XH.
    fn sbc_rh(&mut self) -> (r: u8)
        ensures
            r == 5,
            *final(self) == after_sbc(*old(self), hi_byte(old(self).x)),
    {
        let v = self.xh();
        self.a = self.sbc_with_flags(v);
        5
    }
}

impl Lh5801Cpu {
    // ---- read-modify-write forms on memory, and register steps ----

    /// ADI (X),i on the byte it addresses.
    fn adi_rreg(&mut self, memory: &mut MemoryBus) -> (r: u8)
        requires
            old(memory).wf(),
        ensures
            r == 9,
            final(memory).wf(),
            ({
                let m = *old(memory);
                let c = *old(self);
                let i = m.byte(c.p);
                let t = c.x;
                let v = m.byte(t);
                &&& m.stored(*final(memory), t, v.wrapping_add(i))
                &&& *final(self) == (Lh5801Cpu { flags: add_mem_flags(c.flags, v, i), ..skip(c, 1) })
            }),
    {
        let rreg = self.x;
        let immediate = self.imm8(memory);
        let val = self.read_me0(memory, rreg);
        let result = val.wrapping_add(immediate);
        self.write_me0(memory, rreg, result);
        self.set_zero_flag(result == 0);
        self.set_carry_flag((val as u16) + (immediate as u16) > 0xFF);
        9
    }

    /// ADI #(X),i on the byte it addresses.
    fn adi_rreg_indirect(&mut self, memory: &mut MemoryBus) -> (r: u8)
        requires
            old(memory).wf(),
        ensures
            r == 11,
            final(memory).wf(),
            ({
                let m = *old(memory);
                let c = *old(self);
                let i = m.byte(c.p);
                let t = m.word(c.x);
                let v = m.byte(t);
                &&& m.stored(*final(memory), t, v.wrapping_add(i))
                &&& *final(self) == (Lh5801Cpu { flags: add_mem_flags(c.flags, v, i), ..skip(c, 1) })
            }),
    {
        let rreg = self.x;
        let immediate = self.imm8(memory);
        let val = self.read_me1(memory, rreg);
        let result = val.wrapping_add(immediate);
        self.write_me1(memory, rreg, result);
        self.set_zero_flag(result == 0);
        self.set_carry_flag((val as u16) + (immediate as u16) > 0xFF);
        11
    }

    /// ADI (ab),i on the byte it addresses.
    fn adi_ab(&mut self, memory: &mut MemoryBus) -> (r: u8)
        requires
            old(memory).wf(),
        ensures
            r == 11,
            final(memory).wf(),
            ({
                let m = *old(memory);
                let c = *old(self);
                let i = m.byte(next_addr(next_addr(c.p)));
                let t = m.word(c.p);
                let v = m.byte(t);
                &&& m.stored(*final(memory), t, v.wrapping_add(i))
                &&& *final(self) == (Lh5801Cpu { flags: add_mem_flags(c.flags, v, i), ..skip(c, 3) })
            }),
    {
        let addr = self.imm16(memory);
        let immediate = self.imm8(memory);
        let val = self.read(memory, addr);
        let result = val.wrapping_add(immediate);
        self.write(memory, addr, result);
        self.set_zero_flag(result == 0);
        self.set_carry_flag((val as u16) + (immediate as u16) > 0xFF);
        11
    }

    /// ADI #(ab),i on the byte it addresses.
    fn adi_ab_indirect(&mut self, memory: &mut MemoryBus) -> (r: u8)
        requires
            old(memory).wf(),
        ensures
            r == 13,
            final(memory).wf(),
            ({
                let m = *old(memory);
                let c = *old(self);
                let i = m.byte(next_addr(next_addr(c.p)));
                let t = m.word(m.word(c.p));
                let v = m.byte(t);
                &&& m.stored(*final(memory), t, v.wrapping_add(i))
                &&& *final(self) == (Lh5801Cpu { flags: add_mem_flags(c.flags, v, i), ..skip(c, 3) })
            }),
    {
        let addr = self.imm16(memory);
        let immediate = self.imm8(memory);
        let target_addr = self.read_word_me0(memory, addr);
        let val = self.read(memory, target_addr);
        let result = val.wrapping_add(immediate);
        self.write(memory, target_addr, result);
        self.set_zero_flag(result == 0);
        self.set_carry_flag((val as u16) + (immediate as u16) > 0xFF);
        13
    }

    /// ANI (X),i on the byte it addresses.
    fn ani_rreg(&mut self, memory: &mut MemoryBus) -> (r: u8)
        requires
            old(memory).wf(),
        ensures
            r == 9,
            final(memory).wf(),
            ({
                let m = *old(memory);
                let c = *old(self);
                let i = m.byte(c.p);
                let t = c.x;
                let v = m.byte(t);
                &&& m.stored(*final(memory), t, v & i)
                &&& *final(self) == (Lh5801Cpu { flags: with_flag(c.flags, ZF, (v & i) == 0), ..skip(c, 1) })
            }),
    {
        let rreg = self.x;
        let immediate = self.imm8(memory);
        let val = self.read_me0(memory, rreg);
        let result = val & immediate;
        self.write_me0(memory, rreg, result);
        self.set_zero_flag(result == 0);
        9
    }

    /// ANI #(X),i on the byte it addresses.
    fn ani_rreg_indirect(&mut self, memory: &mut MemoryBus) -> (r: u8)
        requires
            old(memory).wf(),
        ensures
            r == 11,
            final(memory).wf(),
            ({
                let m = *old(memory);
                let c = *old(self);
                let i = m.byte(c.p);
                let t = m.word(c.x);
                let v = m.byte(t);
                &&& m.stored(*final(memory), t, v & i)
                &&& *final(self) == (Lh5801Cpu { flags: with_flag(c.flags, ZF, (v & i) == 0), ..skip(c, 1) })
            }),
    {
        let rreg = self.x;
        let immediate = self.imm8(memory);
        let val = self.read_me1(memory, rreg);
        let result = val & immediate;
        self.write_me1(memory, rreg, result);
        self.set_zero_flag(result == 0);
        11
    }

    /// ANI (ab),i on the byte it addresses.
    fn ani_ab(&mut self, memory: &mut MemoryBus) -> (r: u8)
        requires
            old(memory).wf(),
        ensures
            r == 11,
            final(memory).wf(),
            ({
                let m = *old(memory);
                let c = *old(self);
                let i = m.byte(next_addr(next_addr(c.p)));
                let t = m.word(c.p);
                let v = m.byte(t);
                &&& m.stored(*final(memory), t, v & i)
                &&& *final(self) == (Lh5801Cpu { flags: with_flag(c.flags, ZF, (v & i) == 0), ..skip(c, 3) })
            }),
    {
        let addr = self.imm16(memory);
        let immediate = self.imm8(memory);
        let val = self.read(memory, addr);
        let result = val & immediate;
        self.write(memory, addr, result);
        self.set_zero_flag(result == 0);
        11
    }

    /// ANI #(ab),i on the byte it addresses.
    fn ani_ab_indirect(&mut self, memory: &mut MemoryBus) -> (r: u8)
        requires
            old(memory).wf(),
        ensures
            r == 13,
            final(memory).wf(),
            ({
                let m = *old(memory);
                let c = *old(self);
                let i = m.byte(next_addr(next_addr(c.p)));
                let t = m.word(m.word(c.p));
                let v = m.byte(t);
                &&& m.stored(*final(memory), t, v & i)
                &&& *final(self) == (Lh5801Cpu { flags: with_flag(c.flags, ZF, (v & i) == 0), ..skip(c, 3) })
            }),
    {
        let addr = self.imm16(memory);
        let immediate = self.imm8(memory);
        let target_addr = self.read_word_me0(memory, addr);
        let val = self.read(memory, target_addr);
        let result = val & immediate;
        self.write(memory, target_addr, result);
        self.set_zero_flag(result == 0);
        13
    }

    /// ORI (X),i on the byte it addresses.
    fn ori_rreg(&mut self, memory: &mut MemoryBus) -> (r: u8)
        requires
            old(memory).wf(),
        ensures
            r == 9,
            final(memory).wf(),
            ({
                let m = *old(memory);
                let c = *old(self);
                let i = m.byte(c.p);
                let t = c.x;
                let v = m.byte(t);
                &&& m.stored(*final(memory), t, v | i)
                &&& *final(self) == (Lh5801Cpu { flags: with_flag(c.flags, ZF, (v | i) == 0), ..skip(c, 1) })
            }),
    {
        let rreg = self.x;
        let immediate = self.imm8(memory);
        let val = self.read_me0(memory, rreg);
        let result = val | immediate;
        self.write_me0(memory, rreg, result);
        self.set_zero_flag(result == 0);
        9
    }

    /// ORI #(X),i on the byte it addresses.
    fn ori_rreg_indirect(&mut self, memory: &mut MemoryBus) -> (r: u8)
        requires
            old(memory).wf(),
        ensures
            r == 11,
            final(memory).wf(),
            ({
                let m = *old(memory);
                let c = *old(self);
                let i = m.byte(c.p);
                let t = m.word(c.x);
                let v = m.byte(t);
                &&& m.stored(*final(memory), t, v | i)
                &&& *final(self) == (Lh5801Cpu { flags: with_flag(c.flags, ZF, (v | i) == 0), ..skip(c, 1) })
            }),
    {
        let rreg = self.x;
        let immediate = self.imm8(memory);
        let val = self.read_me1(memory, rreg);
        let result = val | immediate;
        self.write_me1(memory, rreg, result);
        self.set_zero_flag(result == 0);
        11
    }

    /// ORI (ab),i on the byte it addresses.
    fn ori_ab(&mut self, memory: &mut MemoryBus) -> (r: u8)
        requires
            old(memory).wf(),
        ensures
            r == 11,
            final(memory).wf(),
            ({
                let m = *old(memory);
                let c = *old(self);
                let i = m.byte(next_addr(next_addr(c.p)));
                let t = m.word(c.p);
                let v = m.byte(t);
                &&& m.stored(*final(memory), t, v | i)
                &&& *final(self) == (Lh5801Cpu { flags: with_flag(c.flags, ZF, (v | i) == 0), ..skip(c, 3) })
            }),
    {
        let addr = self.imm16(memory);
        let immediate = self.imm8(memory);
        let val = self.read(memory, addr);
        let result = val | immediate;
        self.write(memory, addr, result);
        self.set_zero_flag(result == 0);
        11
    }

    /// ORI #(ab),i on the byte it addresses.
    fn ori_ab_indirect(&mut self, memory: &mut MemoryBus) -> (r: u8)
        requires
            old(memory).wf(),
        ensures
            r == 13,
            final(memory).wf(),
            ({
                let m = *old(memory);
                let c = *old(self);
                let i = m.byte(next_addr(next_addr(c.p)));
                let t = m.word(m.word(c.p));
                let v = m.byte(t);
                &&& m.stored(*final(memory), t, v | i)
                &&& *final(self) == (Lh5801Cpu { flags: with_flag(c.flags, ZF, (v | i) == 0), ..skip(c, 3) })
            }),
    {
        let addr = self.imm16(memory);
        let immediate = self.imm8(memory);
        let target_addr = self.read_word_me0(memory, addr);
        let val = self.read(memory, target_addr);
        let result = val | immediate;
        self.write(memory, target_addr, result);
        self.set_zero_flag(result == 0);
        13
    }

    /// INC A.
    fn inc_a(&mut self) -> (r: u8)
        ensures
            r == 5,
            ({
                let v = old(self).a;
                let res = v.wrapping_add(1);
                *final(self) == (Lh5801Cpu { a: res, flags: step_flags(old(self).flags, v, res, true), ..*old(self) })
            }),
    {
        let v = self.a;
        self.a = self.inc_with_flags(v);
        5
    }

    /// INC XL.
    fn inc_rl(&mut self) -> (r: u8)
        ensures
            r == 5,
            ({
                let v = lo_byte(old(self).x);
                let res = v.wrapping_add(1);
                *final(self) == (Lh5801Cpu { x: with_lo(old(self).x, res), flags: step_flags(old(self).flags, v, res, true), ..*old(self) })
            }),
    {
        let rl = self.xl();
        let result = self.inc_with_flags(rl);
        self.set_xl(result);
        5
    }

    /// INC XH.
    fn inc_rh(&mut self) -> (r: u8)
        ensures
            r == 5,
            ({
                let v = hi_byte(old(self).x);
                let res = v.wrapping_add(1);
                *final(self) == (Lh5801Cpu { x: with_hi(old(self).x, res), flags: step_flags(old(self).flags, v, res, true), ..*old(self) })
            }),
    {
        let rh = self.xh();
        let result = self.inc_with_flags(rh);
        self.set_xh(result);
        5
    }

    /// INC X: no flags change.
    fn inc_rreg(&mut self) -> (r: u8)
        ensures
            r == 6,
            *final(self) == (Lh5801Cpu { x: next_addr(old(self).x), ..*old(self) }),
    {
        self.x = self.x.wrapping_add(1);
        6
    }

    /// DEC A.
    fn dec_a(&mut self) -> (r: u8)
        ensures
            r == 5,
            ({
                let v = old(self).a;
                let res = v.wrapping_sub(1);
                *final(self) == (Lh5801Cpu { a: res, flags: step_flags(old(self).flags, v, res, false), ..*old(self) })
            }),
    {
        let v = self.a;
        self.a = self.dec_with_flags(v);
        5
    }

    /// DEC XL.
    fn dec_rl(&mut self) -> (r: u8)
        ensures
            r == 5,
            ({
                let v = lo_byte(old(self).x);
                let res = v.wrapping_sub(1);
                *final(self) == (Lh5801Cpu { x: with_lo(old(self).x, res), flags: step_flags(old(self).flags, v, res, false), ..*old(self) })
            }),
    {
        let rl = self.xl();
        let result = self.dec_with_flags(rl);
        self.set_xl(result);
        5
    }

    /// DEC XH.
    fn dec_rh(&mut self) -> (r: u8)
        ensures
            r == 5,
            ({
                let v = hi_byte(old(self).x);
                let res = v.wrapping_sub(1);
                *final(self) == (Lh5801Cpu { x: with_hi(old(self).x, res), flags: step_flags(old(self).flags, v, res, false), ..*old(self) })
            }),
    {
        let rh = self.xh();
        let result = self.dec_with_flags(rh);
        self.set_xh(result);
        5
    }

    /// DEC X: no flags change.
    fn dec_rreg(&mut self) -> (r: u8)
        ensures
            r == 6,
            *final(self) == (Lh5801Cpu { x: prev_addr(old(self).x), ..*old(self) }),
    {
        self.x = self.x.wrapping_sub(1);
        6
    }

    /// ADR X, with C from the old X plus A.
    fn adr_rreg(&mut self) -> (r: u8)
        ensures
            r == 6,
            ({
                let a = old(self).a;
                let v = old(self).x.wrapping_add(a as u16);
                *final(self) == (Lh5801Cpu {
                    x: v,
                    flags: with_flag(with_flag(old(self).flags, ZF, v == 0), CF, old(self).x + a > 0xFFFF),
                    ..*old(self)
                })
            }),
    {
        let a_val = self.a;
        let x_val = self.x;
        let result = x_val.wrapping_add(a_val as u16);
        self.x = result;
        self.set_zero_flag(result == 0);
        self.set_carry_flag((x_val as u32) + (a_val as u32) > 0xFFFF);
        6
    }

    /// LDX into a 16-bit register.
    pub(crate) fn ldx_rreg(&mut self, src_reg: u16, dst_reg: &mut u16) -> (r: u8)
        ensures
            r == 6,
            *final(dst_reg) == src_reg,
            *final(self) == *old(self),
    {
        *dst_reg = src_reg;
        6
    }

    /// LDX S.
    pub(crate) fn ldx_s(&mut self, src_reg: u16) -> (r: u8)
        ensures
            r == 6,
            *final(self) == (Lh5801Cpu { s: src_reg, ..*old(self) }),
    {
        self.s = src_reg;
        6
    }

    /// LDX P.
    pub(crate) fn ldx_p(&mut self, src_reg: u16) -> (r: u8)
        ensures
            r == 6,
            *final(self) == (Lh5801Cpu { p: src_reg, ..*old(self) }),
    {
        self.p = src_reg;
        6
    }

    /// STX into a 16-bit register.
    pub(crate) fn stx_rreg(&mut self, src_reg: u16, dst_reg: &mut u16) -> (r: u8)
        ensures
            r == 6,
            *final(dst_reg) == src_reg,
            *final(self) == *old(self),
    {
        *dst_reg = src_reg;
        6
    }

    /// STX S.
    pub(crate) fn stx_s(&mut self, src_reg: u16) -> (r: u8)
        ensures
            r == 6,
            *final(self) == (Lh5801Cpu { s: src_reg, ..*old(self) }),
    {
        self.s = src_reg;
        6
    }

    /// STX P.
    pub(crate) fn stx_p(&mut self, src_reg: u16) -> (r: u8)
        ensures
            r == 6,
            *final(self) == (Lh5801Cpu { p: src_reg, ..*old(self) }),
    {
        self.p = src_reg;
        6
    }
}

/// PSH A then POP A: the byte PSH A stores below S is what POP A loads, S
/// comes back to where it was, and Z tells whether that byte is zero, even
/// if A changed in between (as long as the stack byte is RAM).
pub proof fn lemma_psh_then_pop_a(c: Lh5801Cpu, m: MemoryBus, m2: MemoryBus, c2: Lh5801Cpu)
    requires
        m.wf(),
        in_ram(prev_addr(c.s)),
        model_fd_writes(0xC8, c, m, m2),
        c2.s == model_fd_after(0xC8, c, m).s,
    ensures
        ({
            let back = model_fd_after(0x8A, c2, m2);
            &&& back.a == c.a
            &&& back.s == c.s
            &&& (back.flags & ZF != 0) == (c.a == 0)
        }),
{
    let other: u16 = if prev_addr(c.s) == 0 { 1 } else { 0 };
    lemma_stored_read_back(m, m2, prev_addr(c.s), other, c.a);
    crate::lh5801::lemma_with_flag(c2.flags, ZF, ZF, c.a == 0);
}

} // verus!
