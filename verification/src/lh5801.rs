// LH5801 CPU: register file, flags, timer and the instruction set, run
// against the PC-1500 bus.
use vstd::prelude::*;
use crate::{Pc1500, Pc1500View};

verus! {

pub const CF: u8 = 0x01;
pub const IE: u8 = 0x02;
pub const ZF: u8 = 0x04;
pub const VF: u8 = 0x08;
pub const HF: u8 = 0x10;

#[derive(Debug)]
pub struct Lh5801 {
    pub a: u8,
    pub t: u8,
    pub x: u16,
    pub y: u16,
    pub u: u16,
    pub s: u16,
    pub p: u16,
    pub is_halted: bool,
    pub pu: bool,
    pub pv: bool,
    pub bf: bool,
    pub disp: bool,
    pub tm: u16,
    pub ir0: bool,
    pub ir1: bool,
    pub ir2: bool,
    pub reset_flag: bool,
    pub is_timer_reached: bool,
    pub timer_state: usize,
    pub step_previous_state: usize,
    pub ticks: usize,
    pub debug_messages: usize,
}

impl Lh5801 {
    pub fn set_ir2(&mut self, ir2: bool)
        ensures
            *final(self) == (Lh5801 { ir2, ..*old(self) }),
    {
        *self = Lh5801 { ir2, ..*self };
    }

    pub fn a(&self) -> (r: u8)
        ensures
            r == self.a,
    {
        self.a
    }

    pub fn p(&self) -> (r: u16)
        ensures
            r == self.p,
    {
        self.p
    }

    pub fn s(&self) -> (r: u16)
        ensures
            r == self.s,
    {
        self.s
    }

    pub fn u(&self) -> (r: u16)
        ensures
            r == self.u,
    {
        self.u
    }

    pub fn x(&self) -> (r: u16)
        ensures
            r == self.x,
    {
        self.x
    }

    pub fn y(&self) -> (r: u16)
        ensures
            r == self.y,
    {
        self.y
    }

    pub fn t(&self) -> (r: u8)
        ensures
            r == self.t,
    {
        self.t
    }

    /// Whether maskable interrupts are enabled (IE flag of T).
    pub open spec fn ie_spec(&self) -> bool {
        self.t & IE != 0
    }

    pub fn ie(&self) -> (r: bool)
        ensures
            r == self.ie_spec(),
    {
        self.t & IE != 0
    }

    pub fn is_halted(&self) -> (r: bool)
        ensures
            r == self.is_halted,
    {
        self.is_halted
    }

    pub fn set_pc(&mut self, pc: u16)
        ensures
            *final(self) == (Lh5801 { p: pc, ..*old(self) }),
    {
        *self = Lh5801 { p: pc, ..*self };
    }

    pub fn set_a(&mut self, a: u8)
        ensures
            *final(self) == (Lh5801 { a, ..*old(self) }),
    {
        *self = Lh5801 { a, ..*self };
    }

    pub fn xl(&self) -> (r: u8)
        ensures
            r == lo_byte(self.x),
    {
        (self.x & 0xFF) as u8
    }

    pub fn yl(&self) -> (r: u8)
        ensures
            r == lo_byte(self.y),
    {
        (self.y & 0xFF) as u8
    }

    pub fn ul(&self) -> (r: u8)
        ensures
            r == lo_byte(self.u),
    {
        (self.u & 0xFF) as u8
    }

    pub fn sl(&self) -> (r: u8)
        ensures
            r == lo_byte(self.s),
    {
        (self.s & 0xFF) as u8
    }

    pub fn pl(&self) -> (r: u8)
        ensures
            r == lo_byte(self.p),
    {
        (self.p & 0xFF) as u8
    }

    pub fn xh(&self) -> (r: u8)
        ensures
            r == hi_byte(self.x),
    {
        (self.x >> 8u16) as u8
    }

    pub fn yh(&self) -> (r: u8)
        ensures
            r == hi_byte(self.y),
    {
        (self.y >> 8u16) as u8
    }

    pub fn uh(&self) -> (r: u8)
        ensures
            r == hi_byte(self.u),
    {
        (self.u >> 8u16) as u8
    }

    pub fn sh(&self) -> (r: u8)
        ensures
            r == hi_byte(self.s),
    {
        (self.s >> 8u16) as u8
    }

    pub fn ph(&self) -> (r: u8)
        ensures
            r == hi_byte(self.p),
    {
        (self.p >> 8u16) as u8
    }

    pub fn set_xl(&mut self, val: u8)
        ensures
            *final(self) == (Lh5801 { x: with_lo(old(self).x, val), ..*old(self) }),
    {
        let v = (self.x & 0xFF00) | (val as u16);
        *self = Lh5801 { x: v, ..*self };
    }

    pub fn set_yl(&mut self, val: u8)
        ensures
            *final(self) == (Lh5801 { y: with_lo(old(self).y, val), ..*old(self) }),
    {
        let v = (self.y & 0xFF00) | (val as u16);
        *self = Lh5801 { y: v, ..*self };
    }

    pub fn set_ul(&mut self, val: u8)
        ensures
            *final(self) == (Lh5801 { u: with_lo(old(self).u, val), ..*old(self) }),
    {
        let v = (self.u & 0xFF00) | (val as u16);
        *self = Lh5801 { u: v, ..*self };
    }

    pub fn set_xh(&mut self, val: u8)
        ensures
            *final(self) == (Lh5801 { x: with_hi(old(self).x, val), ..*old(self) }),
    {
        let v = (self.x & 0x00FF) | ((val as u16) << 8u16);
        *self = Lh5801 { x: v, ..*self };
    }

    pub fn set_yh(&mut self, val: u8)
        ensures
            *final(self) == (Lh5801 { y: with_hi(old(self).y, val), ..*old(self) }),
    {
        let v = (self.y & 0x00FF) | ((val as u16) << 8u16);
        *self = Lh5801 { y: v, ..*self };
    }

    pub fn set_uh(&mut self, val: u8)
        ensures
            *final(self) == (Lh5801 { u: with_hi(old(self).u, val), ..*old(self) }),
    {
        let v = (self.u & 0x00FF) | ((val as u16) << 8u16);
        *self = Lh5801 { u: v, ..*self };
    }

    pub fn get_ticks(&self) -> (r: usize)
        ensures
            r == self.ticks,
    {
        self.ticks
    }

    pub fn set_ticks(&mut self, ticks: usize)
        ensures
            *final(self) == (Lh5801 { ticks, ..*old(self) }),
    {
        *self = Lh5801 { ticks, ..*self };
    }

    /// Power-on state: everything cleared, with a reset pending.
    pub open spec fn initial() -> Lh5801 {
        Lh5801 {
            a: 0, t: 0, x: 0, y: 0, u: 0, s: 0, p: 0, is_halted: false, pu: false, pv: false,
            bf: false, disp: false, tm: 0, ir0: false, ir1: false, ir2: false, reset_flag: true,
            is_timer_reached: false, timer_state: 0, step_previous_state: 0, ticks: 0,
            debug_messages: 1200,
        }
    }

    pub fn new() -> (r: Self)
        ensures
            r == Self::initial(),
    {
        Lh5801 {
            a: 0,
            t: 0,
            x: 0,
            y: 0,
            u: 0,
            s: 0,
            p: 0,
            is_halted: false,
            pu: false,
            pv: false,
            bf: false,
            disp: false,
            tm: 0,
            ir0: false,
            ir1: false,
            ir2: false,
            reset_flag: true,
            is_timer_reached: false,
            timer_state: 0,
            step_previous_state: 0,
            ticks: 0,
            debug_messages: 1200,
        }
    }

    pub fn timer_state(&self) -> (r: usize)
        ensures
            r == self.timer_state,
    {
        self.timer_state
    }

    pub fn display_enabled(&self) -> (r: bool)
        ensures
            r == self.disp,
    {
        self.disp
    }

    pub fn pu(&self) -> (r: bool)
        ensures
            r == self.pu,
    {
        self.pu
    }

    pub fn pv(&self) -> (r: bool)
        ensures
            r == self.pv,
    {
        self.pv
    }
}

pub open spec fn lo_byte(w: u16) -> u8 {
    (w & 0xFF) as u8
}

pub open spec fn hi_byte(w: u16) -> u8 {
    (w >> 8u16) as u8
}

pub open spec fn with_lo(w: u16, b: u8) -> u16 {
    (w & 0xFF00) | (b as u16)
}

pub open spec fn with_hi(w: u16, b: u8) -> u16 {
    (w & 0x00FF) | ((b as u16) << 8u16)
}

/// Writing one byte of a 16-bit register reads back, and leaves the other
/// byte as it was.
pub proof fn lemma_byte_halves(w: u16, b: u8)
    ensures
        lo_byte(with_lo(w, b)) == b,
        hi_byte(with_lo(w, b)) == hi_byte(w),
        hi_byte(with_hi(w, b)) == b,
        lo_byte(with_hi(w, b)) == lo_byte(w),
        with_hi(with_lo(0, lo_byte(w)), hi_byte(w)) == w,
{
    assert(lo_byte(with_lo(w, b)) == b && hi_byte(with_lo(w, b)) == hi_byte(w)
        && hi_byte(with_hi(w, b)) == b && lo_byte(with_hi(w, b)) == lo_byte(w)
        && with_hi(with_lo(0, lo_byte(w)), hi_byte(w)) == w) by (bit_vector);
}

/// ROM entry points that the debugging trace of jumps recognises.
#[verifier::opaque]
pub open spec fn is_rom_label(addr: u16) -> bool {
        addr == 0xC8B4 ||
        addr == 0xC9E4 ||
        addr == 0xCFCC ||
        addr == 0xD02B ||
        addr == 0xD030 ||
        addr == 0xD0B4 ||
        addr == 0xDF63 ||
        addr == 0xE000 ||
        addr == 0xE153 ||
        addr == 0xE171 ||
        addr == 0xE22C ||
        addr == 0xE234 ||
        addr == 0xE243 ||
        addr == 0xE246 ||
        addr == 0xE24E ||
        addr == 0xE25B ||
        addr == 0xE269 ||
        addr == 0xE29D ||
        addr == 0xE29E ||
        addr == 0xE2AC ||
        addr == 0xE2B7 ||
        addr == 0xE2C2 ||
        addr == 0xE2C4 ||
        addr == 0xE2D8 ||
        addr == 0xE2DE ||
        addr == 0xE2E4 ||
        addr == 0xE2F2 ||
        addr == 0xE2F6 ||
        addr == 0xE2FF ||
        addr == 0xE303 ||
        addr == 0xE311 ||
        addr == 0xE315 ||
        addr == 0xE334 ||
        addr == 0xE33A ||
        addr == 0xE33F ||
        addr == 0xE347 ||
        addr == 0xE366 ||
        addr == 0xE37B ||
        addr == 0xE385 ||
        addr == 0xE38D ||
        addr == 0xE39D ||
        addr == 0xE39E ||
        addr == 0xE3A1 ||
        addr == 0xE3A7 ||
        addr == 0xE3AC ||
        addr == 0xE3B1 ||
        addr == 0xE3B3 ||
        addr == 0xE3BC ||
        addr == 0xE3C2 ||
        addr == 0xE3C8 ||
        addr == 0xE3E8 ||
        addr == 0xE3EF ||
        addr == 0xE3F6 ||
        addr == 0xE408 ||
        addr == 0xE40C ||
        addr == 0xE413 ||
        addr == 0xCA7A ||
        addr == 0xCA7D ||
        addr == 0xCAAE ||
        addr == 0xCADA ||
        addr == 0xCADF ||
        addr == 0xCAE8 ||
        addr == 0xCAF8 ||
        addr == 0xCAFC ||
        addr == 0xCB27 ||
        addr == 0xCB2B ||
        addr == 0xCB2D ||
        addr == 0xCB3C ||
        addr == 0xCB46 ||
        addr == 0xE418 ||
        addr == 0xE41A ||
        addr == 0xE425 ||
        addr == 0xE42C ||
        addr == 0xE430 ||
        addr == 0xE441 ||
        addr == 0xE444 ||
        addr == 0xE44C ||
        addr == 0xE451 ||
        addr == 0xE4A8 ||
        addr == 0xE573 ||
        addr == 0xEDEF ||
        addr == 0xEDF6 ||
        addr == 0xF5B5 ||
        addr == 0xF61B ||
        addr == 0xF729 ||
        addr == 0xF733 ||
        addr == 0xF73D ||
        addr == 0xF763 ||
        addr == 0xF79C ||
        addr == 0xF7B0 ||
        addr == 0xF7CC ||
        addr == 0xED4D ||
        addr == 0xED57 ||
        addr == 0xED5B ||
        addr == 0xE9EB ||
        addr == 0xE9F8 ||
        addr == 0xE9F9 ||
        addr == 0xEA0E ||
        addr == 0xEA10 ||
        addr == 0xEA18 ||
        addr == 0xEA1E ||
        addr == 0xEA26 ||
        addr == 0xEA34 ||
        addr == 0xEA3D ||
        addr == 0xEA52 ||
        addr == 0xEA5C ||
        addr == 0xEA5D ||
        addr == 0xEA60 ||
        addr == 0xEA67 ||
        addr == 0xE8CA ||
        addr == 0xE8FF ||
        addr == 0xDDC8 ||
        addr == 0xCE9F ||
        addr == 0xCEAC ||
        addr == 0xE4EB
}

/// Whether a jump target is one of the traced ROM entry points.
pub fn rom_label(addr: u16) -> (r: bool)
    ensures
        r == is_rom_label(addr),
{
    proof { reveal(is_rom_label); }
    match addr {
            0xC8B4 | 0xC9E4 | 0xCFCC | 0xD02B | 0xD030 | 0xD0B4 | 0xDF63 | 0xE000 | 0xE153 |
            0xE171 | 0xE22C | 0xE234 | 0xE243 | 0xE246 | 0xE24E | 0xE25B | 0xE269 | 0xE29D |
            0xE29E | 0xE2AC | 0xE2B7 | 0xE2C2 | 0xE2C4 | 0xE2D8 | 0xE2DE | 0xE2E4 | 0xE2F2 |
            0xE2F6 | 0xE2FF | 0xE303 | 0xE311 | 0xE315 | 0xE334 | 0xE33A | 0xE33F | 0xE347 |
            0xE366 | 0xE37B | 0xE385 | 0xE38D | 0xE39D | 0xE39E | 0xE3A1 | 0xE3A7 | 0xE3AC |
            0xE3B1 | 0xE3B3 | 0xE3BC | 0xE3C2 | 0xE3C8 | 0xE3E8 | 0xE3EF | 0xE3F6 | 0xE408 |
            0xE40C | 0xE413 | 0xCA7A | 0xCA7D | 0xCAAE | 0xCADA | 0xCADF | 0xCAE8 | 0xCAF8 |
            0xCAFC | 0xCB27 | 0xCB2B | 0xCB2D | 0xCB3C | 0xCB46 | 0xE418 | 0xE41A | 0xE425 |
            0xE42C | 0xE430 | 0xE441 | 0xE444 | 0xE44C | 0xE451 | 0xE4A8 | 0xE573 | 0xEDEF |
            0xEDF6 | 0xF5B5 | 0xF61B | 0xF729 | 0xF733 | 0xF73D | 0xF763 | 0xF79C | 0xF7B0 |
            0xF7CC | 0xED4D | 0xED57 | 0xED5B | 0xE9EB | 0xE9F8 | 0xE9F9 | 0xEA0E | 0xEA10 |
            0xEA18 | 0xEA1E | 0xEA26 | 0xEA34 | 0xEA3D | 0xEA52 | 0xEA5C | 0xEA5D | 0xEA60 |
            0xEA67 | 0xE8CA | 0xE8FF | 0xDDC8 | 0xCE9F | 0xCEAC | 0xE4EB => true,
        _ => false,
    }
}

/// Why the CPU stopped instead of completing a step.
#[derive(Debug, Clone, Copy, PartialEq, Eq, Structural)]
pub enum CpuFault {
    /// An opcode the LH5801 does not define, and where it was fetched.
    IllegalOpcode { op: u8, pc: u16 },
    /// An undefined opcode after the FD prefix, and the address after it.
    IllegalFdOpcode { op: u8, pc: u16 },
    /// DCA with an accumulator above 0x99: its +0x66 bias overflows.
    DecimalOverflow,
    /// The jump trace saw more than 20 traced entry points after BCMD_PRINT.
    DebugTrap,
}

/// `t` with the bits of `flag` set or cleared.
pub open spec fn with_flag(t: u8, flag: u8, value: bool) -> u8 {
    if value { t | flag } else { t & !flag }
}

/// A flag written with `with_flag` reads back as written; other flags keep
/// their value.
pub proof fn lemma_with_flag(t: u8, flag: u8, other: u8, value: bool)
    requires
        flag == CF || flag == IE || flag == ZF || flag == VF || flag == HF,
        other == CF || other == IE || other == ZF || other == VF || other == HF,
    ensures
        (with_flag(t, flag, value) & flag != 0) == value,
        flag != other ==> (with_flag(t, flag, value) & other != 0) == (t & other != 0),
{
    if value {
        assert((flag == 1 || flag == 2 || flag == 4 || flag == 8 || flag == 16) && (other == 1 || other == 2 || other == 4 || other == 8 || other == 16)
            ==> ((t | flag) & flag != 0) && (flag != other ==> (((t | flag) & other != 0) == (t & other != 0)))) by (bit_vector);
    } else {
        assert((flag == 1 || flag == 2 || flag == 4 || flag == 8 || flag == 16) && (other == 1 || other == 2 || other == 4 || other == 8 || other == 16)
            ==> ((t & !flag) & flag == 0) && (flag != other ==> (((t & !flag) & other != 0) == (t & other != 0)))) by (bit_vector);
    }
}

/// Carry into the sum of two bytes.
pub open spec fn cin(c: bool) -> int {
    if c { 1 } else { 0 }
}

/// Low byte of `l + r + c`.
pub open spec fn add_result(l: u8, r: u8, c: bool) -> u8 {
    ((l + r + cin(c)) % 256) as u8
}

/// Flags after `l + r + c`: IE and the unused upper bits keep their value;
/// Z when the low byte is zero, C on carry out of bit 7, H on carry out of
/// bit 3, V when the carries out of bits 6 and 7 differ.
pub open spec fn add_flags(t: u8, l: u8, r: u8, c: bool) -> u8 {
    let res = l + r + cin(c);
    let z = res % 256 == 0;
    let cy = res >= 256;
    let h = (l % 16) + (r % 16) + cin(c) >= 16;
    let c6 = (l % 128) + (r % 128) + cin(c) >= 128;
    (t & 0xE2) | (if z { ZF } else { 0u8 }) | (if cy { CF } else { 0u8 }) | (if h { HF } else { 0u8 })
        | (if cy != c6 { VF } else { 0u8 })
}

/// Jump-trace counter after jumping to `addr`, and whether that jump trips
/// the trap.
pub open spec fn debug_count_after(d: usize, addr: u16) -> usize {
    let d1: int = if d < 1000 { d + 1 } else { d as int };
    (if addr == 0xE4EB { 0 } else if is_rom_label(addr) { d1 } else if d1 < 1000 { d1 - 1 } else { d1 }) as usize
}

pub open spec fn debug_trips(d: usize, addr: u16) -> bool {
    let n = debug_count_after(d, addr);
    n < 1000 && n > 20
}

/// Next value of the 9-bit timer shift register.
pub open spec fn timer_next(tm: u16) -> u16 {
    (tm >> 1u16) | (((tm & 0x01) ^ ((tm & 0x10) >> 4u16)) << 8u16)
}

/// Stack address of a 16-bit stack pointer.
pub open spec fn stack_addr(s: u16) -> u32 {
    s as u32
}

pub open spec fn dec16(v: u16) -> u16 {
    ((v as int - 1) % 0x10000) as u16
}

pub open spec fn inc16(v: u16) -> u16 {
    ((v as int + 1) % 0x10000) as u16
}

pub open spec fn me1(addr: u16) -> u32 {
    (addr as u32) | 0x10000
}

/// Address in the ME1 bank for a 16-bit address.
pub fn me1_of(addr: u16) -> (r: u32)
    ensures
        r == me1(addr),
{
    (addr as u32) | 0x10000
}

impl Pc1500View {
    pub open spec fn with_cpu(self, c: Lh5801) -> Pc1500View {
        Pc1500View { cpu: c, ..self }
    }

    /// Push one byte: store at S, then move S down.
    pub open spec fn push_spec(self, v: u8) -> Pc1500View {
        let m = self.mem_write(stack_addr(self.cpu.s), v);
        m.with_cpu(Lh5801 { s: dec16(self.cpu.s), ..m.cpu })
    }

    /// Push a word: low byte first, then the high byte.
    pub open spec fn push_word_spec(self, v: u16) -> Pc1500View {
        self.push_spec(lo_byte(v)).push_spec(hi_byte(v))
    }

    /// The word a pop would return: the byte above S is the high byte, the
    /// one above that the low byte.
    pub open spec fn peek_word(self) -> u16 {
        let s1 = inc16(self.cpu.s);
        let s2 = inc16(s1);
        (((self.mem_read(stack_addr(s1)) as u16) << 8u16) | (self.mem_read(stack_addr(s2)) as u16)) as u16
    }

    /// Big-endian word at `addr`.
    pub open spec fn word_at(self, addr: u32) -> u16 {
        ((self.mem_read(addr.wrapping_add(1)) as u16) | ((self.mem_read(addr) as u16) << 8u16)) as u16
    }
}

impl Pc1500 {
    pub(crate) fn get_mem16(&self, addr: u32) -> (r: u16)
        requires
            self.wf(),
        ensures
            r == self@.word_at(addr),
    {
        let lo = self.read_byte(addr.wrapping_add(1)) as u16;
        let hi = self.read_byte(addr) as u16;
        lo | (hi << 8u16)
    }

    /// Loads P, keeping the jump trace of traced ROM entry points.
    pub(crate) fn set_p(&mut self, addr: u16) -> (r: Result<(), CpuFault>)
        requires
            old(self).wf(),
        ensures
            final(self).lh5801.reset_flag == old(self).lh5801.reset_flag,
            final(self).wf(),
            r is Err <==> debug_trips(old(self).lh5801.debug_messages, addr),
            r is Err ==> r == Err::<(), CpuFault>(CpuFault::DebugTrap),
            r is Ok ==> final(self)@ == old(self)@.with_cpu(Lh5801 {
                p: addr,
                debug_messages: debug_count_after(old(self).lh5801.debug_messages, addr),
                ..old(self).lh5801
            }),
            final(self).lh5801.ticks == old(self).lh5801.ticks,
            final(self).lh5801.timer_state == old(self).lh5801.timer_state,
    {
        let d0 = self.lh5801.debug_messages;
        let d1: usize = if d0 < 1000 { d0 + 1 } else { d0 };
        let d2: usize = if addr == 0xE4EB {
            0
        } else if rom_label(addr) {
            d1
        } else if d1 < 1000 {
            d1 - 1
        } else {
            d1
        };
        self.lh5801 = Lh5801 { debug_messages: d2, ..self.lh5801 };
        if d2 < 1000 && d2 > 20 {
            return Err(CpuFault::DebugTrap);
        }
        self.lh5801 = Lh5801 { p: addr, ..self.lh5801 };
        Ok(())
    }

    pub(crate) fn cpu_readmem(&self, addr: u32) -> (r: u8)
        requires
            self.wf(),
        ensures
            r == self@.mem_read(addr),
    {
        self.read_byte(addr)
    }

    pub(crate) fn cpu_writemem(&mut self, addr: u32, val: u8)
        requires
            old(self).wf(),
        ensures
            final(self).wf(),
            final(self)@ == old(self)@.mem_write(addr, val),
            final(self).lh5801 == old(self).lh5801,
    {
        self.write_byte(addr, val);
    }

    /// Fetches the byte at P and advances P.
    pub(crate) fn cpu_readop(&mut self) -> (r: u8)
        requires
            old(self).wf(),
        ensures
            final(self).wf(),
            r == old(self)@.mem_read(old(self).lh5801.p as u32),
            final(self)@ == old(self)@.with_cpu(Lh5801 { p: inc16(old(self).lh5801.p), ..old(self).lh5801 }),
    {
        let byte = self.read_byte(self.lh5801.p as u32);
        let np = self.lh5801.p.wrapping_add(1);
        self.lh5801 = Lh5801 { p: np, ..self.lh5801 };
        byte
    }

    /// Fetches a big-endian word at P and advances P by two.
    pub(crate) fn readop_word(&mut self) -> (r: u16)
        requires
            old(self).wf(),
        ensures
            final(self).wf(),
            r == ((old(self)@.mem_read(old(self).lh5801.p as u32) as u16) << 8u16)
                | (old(self)@.mem_read(inc16(old(self).lh5801.p) as u32) as u16),
            final(self)@ == old(self)@.with_cpu(Lh5801 { p: inc16(inc16(old(self).lh5801.p)), ..old(self).lh5801 }),
    {
        let hi = self.cpu_readop() as u16;
        let lo = self.cpu_readop() as u16;
        (hi << 8u16) | lo
    }

    pub(crate) fn get_flag(&self, flag: u8) -> (r: bool)
        ensures
            r == (self.lh5801.t & flag != 0),
    {
        self.lh5801.t & flag != 0
    }

    pub(crate) fn set_flag(&mut self, flag: u8, value: bool)
        ensures
            final(self)@ == old(self)@.with_cpu(Lh5801 { t: with_flag(old(self).lh5801.t, flag, value), ..old(self).lh5801 }),
    {
        let t = if value { self.lh5801.t | flag } else { self.lh5801.t & !flag };
        self.lh5801 = Lh5801 { t, ..self.lh5801 };
    }

    pub fn set_ie_flag(&mut self, value: bool)
        ensures
            final(self)@ == old(self)@.with_cpu(Lh5801 { t: with_flag(old(self).lh5801.t, IE, value), ..old(self).lh5801 }),
    {
        self.set_flag(IE, value);
    }

    pub fn set_zero_flag(&mut self, value: bool)
        ensures
            final(self)@ == old(self)@.with_cpu(Lh5801 { t: with_flag(old(self).lh5801.t, ZF, value), ..old(self).lh5801 }),
    {
        self.set_flag(ZF, value);
    }

    pub fn set_carry_flag(&mut self, value: bool)
        ensures
            final(self)@ == old(self)@.with_cpu(Lh5801 { t: with_flag(old(self).lh5801.t, CF, value), ..old(self).lh5801 }),
    {
        self.set_flag(CF, value);
    }

    pub(crate) fn set_overflow_flag(&mut self, value: bool)
        ensures
            final(self)@ == old(self)@.with_cpu(Lh5801 { t: with_flag(old(self).lh5801.t, VF, value), ..old(self).lh5801 }),
    {
        self.set_flag(VF, value);
    }

    pub(crate) fn set_half_carry_flag(&mut self, value: bool)
        ensures
            final(self)@ == old(self)@.with_cpu(Lh5801 { t: with_flag(old(self).lh5801.t, HF, value), ..old(self).lh5801 }),
    {
        self.set_flag(HF, value);
    }

    pub(crate) fn get_zero_flag(&self) -> (r: bool)
        ensures
            r == (self.lh5801.t & ZF != 0),
    {
        self.get_flag(ZF)
    }

    pub(crate) fn get_carry_flag(&self) -> (r: bool)
        ensures
            r == (self.lh5801.t & CF != 0),
    {
        self.get_flag(CF)
    }

    pub(crate) fn get_overflow_flag(&self) -> (r: bool)
        ensures
            r == (self.lh5801.t & VF != 0),
    {
        self.get_flag(VF)
    }

    pub(crate) fn get_half_carry_flag(&self) -> (r: bool)
        ensures
            r == (self.lh5801.t & HF != 0),
    {
        self.get_flag(HF)
    }

    pub(crate) fn check_z(&mut self, val: u8)
        ensures
            final(self)@ == old(self)@.with_cpu(Lh5801 { t: with_flag(old(self).lh5801.t, ZF, val == 0), ..old(self).lh5801 }),
    {
        self.set_zero_flag(val == 0);
    }

    pub(crate) fn check_c(&mut self, val: u8)
        ensures
            final(self)@ == old(self)@.with_cpu(Lh5801 { t: with_flag(old(self).lh5801.t, CF, val != 0), ..old(self).lh5801 }),
    {
        self.set_carry_flag(val != 0);
    }

    pub(crate) fn check_h(&mut self, val: u8)
        ensures
            final(self)@ == old(self)@.with_cpu(Lh5801 { t: with_flag(old(self).lh5801.t, HF, val != 0), ..old(self).lh5801 }),
    {
        self.set_half_carry_flag(val != 0);
    }

    /// One shift of the 9-bit timer; reaching 0x1FF raises the timer request.
    pub(crate) fn timer_inc(&mut self)
        ensures
            final(self)@ == old(self)@.with_cpu(Lh5801 {
                tm: timer_next(old(self).lh5801.tm),
                is_timer_reached: timer_next(old(self).lh5801.tm) == 0x1FF,
                ..old(self).lh5801
            }),
    {
        let tm = self.lh5801.tm;
        let ntm = (tm >> 1u16) | (((tm & 0x01) ^ ((tm & 0x10) >> 4u16)) << 8u16);
        self.lh5801 = Lh5801 { tm: ntm, is_timer_reached: ntm == 0x1FF, ..self.lh5801 };
    }

    pub(crate) fn push(&mut self, value: u8)
        requires
            old(self).wf(),
        ensures
            final(self).wf(),
            final(self)@ == old(self)@.push_spec(value),
            final(self).lh5801.ticks == old(self).lh5801.ticks,
            final(self).lh5801.timer_state == old(self).lh5801.timer_state,
    {
        let s = self.lh5801.s;
        self.cpu_writemem(s as u32, value);
        let ns = s.wrapping_sub(1);
        self.lh5801 = Lh5801 { s: ns, ..self.lh5801 };
    }

    pub(crate) fn push_word(&mut self, value: u16)
        requires
            old(self).wf(),
        ensures
            final(self).wf(),
            final(self)@ == old(self)@.push_word_spec(value),
            final(self).lh5801.ticks == old(self).lh5801.ticks,
            final(self).lh5801.timer_state == old(self).lh5801.timer_state,
    {
        self.push((value & 0xFF) as u8);
        self.push((value >> 8u16) as u8);
    }

    /// POP A: A takes the byte above S, Z reflects it.
    pub(crate) fn pop(&mut self)
        requires
            old(self).wf(),
        ensures
            final(self).wf(),
            ({
                let s1 = inc16(old(self).lh5801.s);
                let v = old(self)@.mem_read(stack_addr(s1));
                final(self)@ == old(self)@.with_cpu(Lh5801 { s: s1, a: v, t: with_flag(old(self).lh5801.t, ZF, v == 0), ..old(self).lh5801 })
            }),
    {
        let s1 = self.lh5801.s.wrapping_add(1);
        let v = self.cpu_readmem(s1 as u32);
        self.lh5801 = Lh5801 { s: s1, a: v, ..self.lh5801 };
        self.check_z(v);
    }

    pub(crate) fn pop_word(&mut self) -> (r: u16)
        requires
            old(self).wf(),
        ensures
            final(self).wf(),
            r == old(self)@.peek_word(),
            final(self)@ == old(self)@.with_cpu(Lh5801 { s: inc16(inc16(old(self).lh5801.s)), ..old(self).lh5801 }),
    {
        let s1 = self.lh5801.s.wrapping_add(1);
        let hi = self.cpu_readmem(s1 as u32) as u16;
        let s2 = s1.wrapping_add(1);
        let lo = self.cpu_readmem(s2 as u32) as u16;
        self.lh5801 = Lh5801 { s: s2, ..self.lh5801 };
        (hi << 8u16) | lo
    }
}

/// BCD adjustment after a binary add: subtracts 0x66 worth of bias unless
/// a digit produced a carry (added modulo 256).
pub open spec fn decimal_adjust(t: u8) -> u8 {
    let c = t & CF != 0;
    let h = t & HF != 0;
    if !c && !h { 0x9a } else if !c && h { 0xa0 } else if c && !h { 0xfa } else { 0x00 }
}

/// The byte rotated by four bits (nibbles exchanged).
pub open spec fn swap_nibbles(v: u8) -> u8 {
    ((v << 4u8) | (v >> 4u8)) as u8
}

impl Pc1500 {
    /// `l + r + c` on the ALU: returns the low byte, sets Z, C, H and V.
    pub(crate) fn add_generic(&mut self, left: u8, right: u8, carry: bool) -> (r: u8)
        ensures
            r == add_result(left, right, carry),
            final(self)@ == old(self)@.with_cpu(Lh5801 { t: add_flags(old(self).lh5801.t, left, right, carry), ..old(self).lh5801 }),
    {
        let c: u16 = if carry { 1 } else { 0 };
        let l: u16 = left as u16;
        let rr: u16 = right as u16;
        let res: u16 = l + rr + c;
        proof {
            assert((l & 0x0f) <= 0x0f && (rr & 0x0f) <= 0x0f && (l & 0x7f) <= 0x7f && (rr & 0x7f) <= 0x7f) by (bit_vector);
        }
        let z = (res & 0xff) == 0;
        let cy = (res & 0x100) != 0;
        let h = (((l & 0x0f) + (rr & 0x0f) + c) & 0x10) != 0;
        let v7 = (((l & 0x7f) + (rr & 0x7f) + c) & 0x80) != 0;
        proof {
            assert(l < 256 && rr < 256 && c < 2 ==> (
                ((((l + rr + c) as u16) & 0xff) == 0) == ((l + rr + c) % 256 == 0)
                && ((((l + rr + c) as u16) & 0x100) != 0) == (l + rr + c >= 256)
                && (((((l & 0x0f) + (rr & 0x0f) + c) as u16) & 0x10) != 0) == ((l % 16) + (rr % 16) + c >= 16)
                && (((((l & 0x7f) + (rr & 0x7f) + c) as u16) & 0x80) != 0) == ((l % 128) + (rr % 128) + c >= 128)
                && ((l + rr + c) as u16) as u8 == ((l + rr + c) % 256) as u8
            )) by (bit_vector);
        }
        let t0 = self.lh5801.t & !(HF | VF | ZF | CF);
        let t = t0 | (if z { ZF } else { 0u8 }) | (if cy { CF } else { 0u8 }) | (if h { HF } else { 0u8 })
            | (if cy != v7 { VF } else { 0u8 });
        proof {
            let t_old = old(self).lh5801.t;
            assert(t_old & !(HF | VF | ZF | CF) == t_old & 0xE2) by (bit_vector);
        }
        self.lh5801 = Lh5801 { t, ..self.lh5801 };
        res as u8
    }

    pub(crate) fn adc(&mut self, data: u8)
        ensures
            ({
                let c = old(self).lh5801.t & CF != 0;
                let a = old(self).lh5801.a;
                final(self)@ == old(self)@.with_cpu(Lh5801 {
                    a: add_result(a, data, c),
                    t: add_flags(old(self).lh5801.t, a, data, c),
                    ..old(self).lh5801
                })
            }),
    {
        let c = self.get_carry_flag();
        let a = self.lh5801.a;
        let r = self.add_generic(a, data, c);
        self.lh5801 = Lh5801 { a: r, ..self.lh5801 };
    }

    /// ADD to memory: the byte at `addr` plus `data`, no carry in.
    pub(crate) fn add_mem(&mut self, addr: u32, data: u8)
        requires
            old(self).wf(),
        ensures
            final(self).wf(),
            ({
                let m = old(self)@.mem_read(addr);
                final(self)@ == old(self)@.with_cpu(Lh5801 {
                    t: add_flags(old(self).lh5801.t, m, data, false),
                    ..old(self).lh5801
                }).mem_write(addr, add_result(m, data, false))
            }),
            final(self).lh5801.ticks == old(self).lh5801.ticks,
            final(self).lh5801.timer_state == old(self).lh5801.timer_state,
    {
        let mem_read = self.cpu_readmem(addr);
        let v = self.add_generic(mem_read, data, false);
        self.cpu_writemem(addr, v);
    }

    /// ADR: adds A to a 16-bit register (modulo 2^16), leaving the flags.
    pub(crate) fn adr(&self, reg: u16) -> (r: u16)
        ensures
            r == ((reg as int + self.lh5801.a as int) % 0x10000) as u16,
    {
        let sum: u32 = reg as u32 + self.lh5801.a as u32;
        (sum % 0x10000) as u16
    }
}

/// The machine stays well formed and its clocks did not move.
pub open spec fn steady(a: &Pc1500, b: &Pc1500) -> bool {
    &&& b.wf()
    &&& b.lh5801.ticks == a.lh5801.ticks
    &&& b.lh5801.timer_state == a.lh5801.timer_state
    &&& b.lh5801.reset_flag == a.lh5801.reset_flag
}

/// Flags after a one-bit rotate or shift: C, Z, H and V in that order.
pub open spec fn shift_flags(t: u8, c: bool, z: bool, h: bool, v: bool) -> u8 {
    with_flag(with_flag(with_flag(with_flag(t, CF, c), ZF, z), HF, h), VF, v)
}

pub open spec fn rol_result(a: u8, c: bool) -> u8 {
    (((a as u16) << 1u16) as u8) | (if c { 1u8 } else { 0u8 })
}

pub open spec fn ror_result(a: u8, c: bool) -> u8 {
    (a >> 1u8) | (if c { 0x80u8 } else { 0u8 })
}

pub open spec fn shr_v(l: u8, a: u8) -> bool {
    ((l & 0x01 != 0) && (a & 0x02 != 0)) || ((l & 0x02 != 0) && (a & 0x01 != 0))
}

impl Pc1500 {
    pub(crate) fn sbc(&mut self, data: u8)
        ensures
            ({
                let c = old(self).lh5801.t & CF != 0;
                let a = old(self).lh5801.a;
                final(self)@ == old(self)@.with_cpu(Lh5801 {
                    a: add_result(a, data ^ 0xff, c),
                    t: add_flags(old(self).lh5801.t, a, data ^ 0xff, c),
                    ..old(self).lh5801
                })
            }),
    {
        let c = self.get_carry_flag();
        let a = self.lh5801.a;
        let r = self.add_generic(a, data ^ 0xff, c);
        self.lh5801 = Lh5801 { a: r, ..self.lh5801 };
    }

    /// CPA: flags of `a - b`.
    pub(crate) fn cpa(&mut self, a: u8, b: u8)
        ensures
            final(self)@ == old(self)@.with_cpu(Lh5801 { t: add_flags(old(self).lh5801.t, a, b ^ 0xff, true), ..old(self).lh5801 }),
    {
        let _ = self.add_generic(a, b ^ 0xff, true);
    }

    #[verifier::spinoff_prover]
    pub(crate) fn decimaladd_generic(&mut self, left: u8, right: u8, carry: bool) -> (r: u8)
        ensures
            ({
                let t1 = add_flags(old(self).lh5801.t, left, right, carry);
                &&& r == ((add_result(left, right, carry) + decimal_adjust(t1)) % 256) as u8
                &&& final(self)@ == old(self)@.with_cpu(Lh5801 { t: t1, ..old(self).lh5801 })
            }),
    {
        let a = self.add_generic(left, right, carry);
        let c = self.get_carry_flag();
        let h = self.get_half_carry_flag();
        let adjustment: u8 = if !c && !h {
            0x9a
        } else if !c && h {
            0xa0
        } else if c && !h {
            0xfa
        } else {
            0x00
        };
        assert(adjustment == decimal_adjust(self.lh5801.t));
        a.wrapping_add(adjustment)
    }

    /// DCA: decimal add with carry of `data` to A.
    pub(crate) fn dca(&mut self, data: u8) -> (r: Result<(), CpuFault>)
        ensures
            r is Err <==> old(self).lh5801.a > 0x99,
            r is Err ==> r == Err::<(), CpuFault>(CpuFault::DecimalOverflow) && final(self)@ == old(self)@,
            r is Ok ==> ({
                let c = old(self).lh5801.t & CF != 0;
                let l = (old(self).lh5801.a + 0x66) as u8;
                let t1 = add_flags(old(self).lh5801.t, l, data, c);
                final(self)@ == old(self)@.with_cpu(Lh5801 {
                    a: ((add_result(l, data, c) + decimal_adjust(t1)) % 256) as u8,
                    t: t1,
                    ..old(self).lh5801
                })
            }),
    {
        if self.lh5801.a > 0x99 {
            return Err(CpuFault::DecimalOverflow);
        }
        let c = self.get_carry_flag();
        let l = self.lh5801.a + 0x66;
        let r = self.decimaladd_generic(l, data, c);
        self.lh5801 = Lh5801 { a: r, ..self.lh5801 };
        Ok(())
    }

    pub(crate) fn dcs(&mut self, data: u8)
        ensures
            ({
                let c = old(self).lh5801.t & CF != 0;
                let a = old(self).lh5801.a;
                let t1 = add_flags(old(self).lh5801.t, a, data ^ 0xff, c);
                final(self)@ == old(self)@.with_cpu(Lh5801 {
                    a: ((add_result(a, data ^ 0xff, c) + decimal_adjust(t1)) % 256) as u8,
                    t: t1,
                    ..old(self).lh5801
                })
            }),
    {
        let c = self.get_carry_flag();
        let a = self.lh5801.a;
        let r = self.decimaladd_generic(a, data ^ 0xff, c);
        self.lh5801 = Lh5801 { a: r, ..self.lh5801 };
    }

    pub(crate) fn and(&mut self, data: u8)
        ensures
            ({
                let v = old(self).lh5801.a & data;
                final(self)@ == old(self)@.with_cpu(Lh5801 { a: v, t: with_flag(old(self).lh5801.t, ZF, v == 0), ..old(self).lh5801 })
            }),
    {
        let v = self.lh5801.a & data;
        self.lh5801 = Lh5801 { a: v, ..self.lh5801 };
        self.check_z(v);
    }

    pub(crate) fn and_mem(&mut self, addr: u32, data: u8)
        requires
            old(self).wf(),
        ensures
            steady(old(self), final(self)),
            ({
                let v = data & old(self)@.mem_read(addr);
                final(self)@ == old(self)@.with_cpu(Lh5801 { t: with_flag(old(self).lh5801.t, ZF, v == 0), ..old(self).lh5801 }).mem_write(addr, v)
            }),
    {
        let v = data & self.cpu_readmem(addr);
        self.check_z(v);
        self.cpu_writemem(addr, v);
    }

    pub(crate) fn bit(&mut self, a: u8, b: u8)
        ensures
            final(self)@ == old(self)@.with_cpu(Lh5801 { t: with_flag(old(self).lh5801.t, ZF, a & b == 0), ..old(self).lh5801 }),
    {
        self.check_z(a & b);
    }

    pub(crate) fn eor(&mut self, data: u8)
        ensures
            ({
                let v = old(self).lh5801.a ^ data;
                final(self)@ == old(self)@.with_cpu(Lh5801 { a: v, t: with_flag(old(self).lh5801.t, ZF, v == 0), ..old(self).lh5801 })
            }),
    {
        let v = self.lh5801.a ^ data;
        self.lh5801 = Lh5801 { a: v, ..self.lh5801 };
        self.check_z(v);
    }

    pub(crate) fn ora(&mut self, data: u8)
        ensures
            ({
                let v = old(self).lh5801.a | data;
                final(self)@ == old(self)@.with_cpu(Lh5801 { a: v, t: with_flag(old(self).lh5801.t, ZF, v == 0), ..old(self).lh5801 })
            }),
    {
        let v = self.lh5801.a | data;
        self.lh5801 = Lh5801 { a: v, ..self.lh5801 };
        self.check_z(v);
    }

    pub(crate) fn ora_mem(&mut self, addr: u32, data: u8)
        requires
            old(self).wf(),
        ensures
            steady(old(self), final(self)),
            ({
                let v = data | old(self)@.mem_read(addr);
                final(self)@ == old(self)@.with_cpu(Lh5801 { t: with_flag(old(self).lh5801.t, ZF, v == 0), ..old(self).lh5801 }).mem_write(addr, v)
            }),
    {
        let v = data | self.cpu_readmem(addr);
        self.check_z(v);
        self.cpu_writemem(addr, v);
    }

    pub(crate) fn lda(&mut self, data: u8)
        ensures
            final(self)@ == old(self)@.with_cpu(Lh5801 { a: data, t: with_flag(old(self).lh5801.t, ZF, data == 0), ..old(self).lh5801 }),
    {
        self.lh5801 = Lh5801 { a: data, ..self.lh5801 };
        self.check_z(data);
    }

    /// LDE: load A from `(reg)`, return `reg - 1`.
    pub(crate) fn lde(&mut self, reg: u16) -> (r: u16)
        requires
            old(self).wf(),
        ensures
            r == dec16(reg),
            ({
                let v = old(self)@.mem_read(reg as u32);
                final(self)@ == old(self)@.with_cpu(Lh5801 { a: v, t: with_flag(old(self).lh5801.t, ZF, v == 0), ..old(self).lh5801 })
            }),
    {
        let v = self.cpu_readmem(reg as u32);
        self.lh5801 = Lh5801 { a: v, ..self.lh5801 };
        let ret = reg.wrapping_sub(1);
        self.check_z(v);
        ret
    }

    /// SDE: store A at `(reg)`, return `reg - 1`.
    pub(crate) fn sde(&mut self, reg: u16) -> (r: u16)
        requires
            old(self).wf(),
        ensures
            r == dec16(reg),
            steady(old(self), final(self)),
            final(self)@ == old(self)@.mem_write(reg as u32, old(self).lh5801.a),
    {
        let a = self.lh5801.a;
        self.cpu_writemem(reg as u32, a);
        reg.wrapping_sub(1)
    }

    /// LIN: load A from `(reg)`, return `reg + 1`.
    pub(crate) fn lin(&mut self, reg: u16) -> (r: u16)
        requires
            old(self).wf(),
        ensures
            r == inc16(reg),
            ({
                let v = old(self)@.mem_read(reg as u32);
                final(self)@ == old(self)@.with_cpu(Lh5801 { a: v, t: with_flag(old(self).lh5801.t, ZF, v == 0), ..old(self).lh5801 })
            }),
    {
        let v = self.cpu_readmem(reg as u32);
        self.lh5801 = Lh5801 { a: v, ..self.lh5801 };
        let ret = reg.wrapping_add(1);
        self.check_z(v);
        ret
    }

    /// SIN: store A at `(reg)`, return `reg + 1`.
    pub(crate) fn sin(&mut self, reg: u16) -> (r: u16)
        requires
            old(self).wf(),
        ensures
            r == inc16(reg),
            steady(old(self), final(self)),
            final(self)@ == old(self)@.mem_write(reg as u32, old(self).lh5801.a),
    {
        let a = self.lh5801.a;
        self.cpu_writemem(reg as u32, a);
        reg.wrapping_add(1)
    }

    pub(crate) fn dec(&mut self, v: u8) -> (r: u8)
        ensures
            r == add_result(v, 0xff, false),
            final(self)@ == old(self)@.with_cpu(Lh5801 { t: add_flags(old(self).lh5801.t, v, 0xff, false), ..old(self).lh5801 }),
    {
        self.add_generic(v, 0xff, false)
    }

    pub(crate) fn inc(&mut self, v: u8) -> (r: u8)
        ensures
            r == add_result(v, 1, false),
            final(self)@ == old(self)@.with_cpu(Lh5801 { t: add_flags(old(self).lh5801.t, v, 1, false), ..old(self).lh5801 }),
    {
        self.add_generic(v, 1, false)
    }

    /// RTN: return to the address popped from the stack.
    pub(crate) fn rtn(&mut self) -> (r: Result<(), CpuFault>)
        requires
            old(self).wf(),
        ensures
            r is Err ==> r == Err::<(), CpuFault>(CpuFault::DebugTrap),
            steady(old(self), final(self)),
            ({
                let target = old(self)@.peek_word();
                let s2 = inc16(inc16(old(self).lh5801.s));
                &&& (r is Err <==> debug_trips(old(self).lh5801.debug_messages, target))
                &&& (r is Ok ==> final(self)@ == old(self)@.with_cpu(Lh5801 {
                    s: s2,
                    p: target,
                    debug_messages: debug_count_after(old(self).lh5801.debug_messages, target),
                    ..old(self).lh5801
                }))
            }),
    {
        let addr = self.pop_word();
        self.set_p(addr)
    }

    /// RTI: return from an interrupt, popping P and then T.
    #[verifier::rlimit(100)]
    pub(crate) fn rti(&mut self) -> (r: Result<(), CpuFault>)
        requires
            old(self).wf(),
        ensures
            r is Err ==> r == Err::<(), CpuFault>(CpuFault::DebugTrap),
            steady(old(self), final(self)),
            ({
                let target = old(self)@.peek_word();
                let s2 = inc16(inc16(old(self).lh5801.s));
                let s3 = inc16(s2);
                &&& (r is Err <==> debug_trips(old(self).lh5801.debug_messages, target))
                &&& (r is Ok ==> final(self)@ == old(self)@.with_cpu(Lh5801 {
                    s: s3,
                    p: target,
                    t: old(self)@.mem_read(stack_addr(s3)),
                    debug_messages: debug_count_after(old(self).lh5801.debug_messages, target),
                    ..old(self).lh5801
                }))
            }),
    {
        let addr = self.pop_word();
        let ghost m1 = self@;
        self.set_p(addr)?;
        let s = self.lh5801.s.wrapping_add(1);
        let t = self.cpu_readmem(s as u32);
        assert(t == m1.mem_read(s as u32));
        self.lh5801 = Lh5801 { s, t, ..self.lh5801 };
        Ok(())
    }

    pub(crate) fn jmp(&mut self, addr: u16) -> (r: Result<(), CpuFault>)
        requires
            old(self).wf(),
        ensures
            r is Err ==> r == Err::<(), CpuFault>(CpuFault::DebugTrap),
            steady(old(self), final(self)),
            r is Err <==> debug_trips(old(self).lh5801.debug_messages, addr),
            r is Ok ==> final(self)@ == old(self)@.with_cpu(Lh5801 {
                p: addr,
                debug_messages: debug_count_after(old(self).lh5801.debug_messages, addr),
                ..old(self).lh5801
            }),
    {
        self.set_p(addr)
    }

    /// Accounts `n` machine cycles.
    pub(crate) fn add_state(&mut self, n: u8)
        requires
            old(self).wf(),
            old(self).lh5801.timer_state + n <= usize::MAX,
            old(self).lh5801.ticks + n <= usize::MAX,
        ensures
            final(self).wf(),
            final(self)@ == old(self)@.with_cpu(Lh5801 {
                timer_state: (old(self).lh5801.timer_state + n) as usize,
                ticks: (old(self).lh5801.ticks + n) as usize,
                ..old(self).lh5801
            }),
    {
        let ts = self.lh5801.timer_state + n as usize;
        let tk = self.lh5801.ticks + n as usize;
        self.lh5801 = Lh5801 { timer_state: ts, ticks: tk, ..self.lh5801 };
    }
}

pub open spec fn add16(v: u16, d: u8) -> u16 {
    ((v as int + d as int) % 0x10000) as u16
}

pub open spec fn sub16(v: u16, d: u8) -> u16 {
    ((v as int - d as int) % 0x10000) as u16
}

impl Pc1500View {
    /// Taking an interrupt: push T, clear IE, push P, jump through `vector`.
    pub open spec fn interrupt_entry(self, vector: u32) -> Pc1500View {
        let m1 = self.push_spec(self.cpu.t);
        let m2 = m1.with_cpu(Lh5801 { t: with_flag(self.cpu.t, IE, false), ..m1.cpu });
        let m3 = m2.push_word_spec(self.cpu.p);
        let target = m3.word_at(vector);
        m3.with_cpu(Lh5801 {
            p: target,
            debug_messages: debug_count_after(self.cpu.debug_messages, target),
            is_halted: false,
            ..m3.cpu
        })
    }

    /// Where `interrupt_entry` jumps.
    pub open spec fn interrupt_target(self, vector: u32) -> u16 {
        let m1 = self.push_spec(self.cpu.t);
        let m2 = m1.with_cpu(Lh5801 { t: with_flag(self.cpu.t, IE, false), ..m1.cpu });
        m2.push_word_spec(self.cpu.p).word_at(vector)
    }
}

impl Pc1500 {
    /// Conditional forward branch over the displacement byte at P.
    #[verifier::rlimit(40)]
    pub(crate) fn branch_plus(&mut self, doit: bool) -> (r: Result<(), CpuFault>)
        requires
            old(self).wf(),
            old(self).lh5801.timer_state + 2 <= usize::MAX,
            old(self).lh5801.ticks + 2 <= usize::MAX,
        ensures
            final(self).lh5801.reset_flag == old(self).lh5801.reset_flag,
            r is Err ==> r == Err::<(), CpuFault>(CpuFault::DebugTrap),
            final(self).wf(),
            ({
                let d = old(self)@.mem_read(old(self).lh5801.p as u32);
                let p1 = inc16(old(self).lh5801.p);
                let target = add16(p1, d);
                &&& (!doit ==> r is Ok && final(self)@ == old(self)@.with_cpu(Lh5801 { p: p1, ..old(self).lh5801 }))
                &&& (doit ==> (r is Err <==> debug_trips(old(self).lh5801.debug_messages, target)))
                &&& (doit && r is Ok ==> final(self)@ == old(self)@.with_cpu(Lh5801 {
                    p: target,
                    debug_messages: debug_count_after(old(self).lh5801.debug_messages, target),
                    timer_state: (old(self).lh5801.timer_state + 2) as usize,
                    ticks: (old(self).lh5801.ticks + 2) as usize,
                    ..old(self).lh5801
                }))
                &&& final(self).lh5801.ticks == old(self).lh5801.ticks + (if doit { 2int } else { 0 })
                &&& final(self).lh5801.timer_state == old(self).lh5801.timer_state + (if doit { 2int } else { 0 })
            }),
    {
        let t = self.cpu_readop();
        if doit {
            self.add_state(2);
            let target = self.lh5801.p.wrapping_add(t as u16);
            self.set_p(target)?;
        }
        Ok(())
    }

    /// Conditional backward branch over the displacement byte at P.
    #[verifier::rlimit(40)]
    pub(crate) fn branch_minus(&mut self, doit: bool) -> (r: Result<(), CpuFault>)
        requires
            old(self).wf(),
            old(self).lh5801.timer_state + 3 <= usize::MAX,
            old(self).lh5801.ticks + 3 <= usize::MAX,
        ensures
            final(self).lh5801.reset_flag == old(self).lh5801.reset_flag,
            r is Err ==> r == Err::<(), CpuFault>(CpuFault::DebugTrap),
            final(self).wf(),
            ({
                let d = old(self)@.mem_read(old(self).lh5801.p as u32);
                let p1 = inc16(old(self).lh5801.p);
                let target = sub16(p1, d);
                &&& (!doit ==> r is Ok && final(self)@ == old(self)@.with_cpu(Lh5801 { p: p1, ..old(self).lh5801 }))
                &&& (doit ==> (r is Err <==> debug_trips(old(self).lh5801.debug_messages, target)))
                &&& (doit && r is Ok ==> final(self)@ == old(self)@.with_cpu(Lh5801 {
                    p: target,
                    debug_messages: debug_count_after(old(self).lh5801.debug_messages, target),
                    timer_state: (old(self).lh5801.timer_state + 3) as usize,
                    ticks: (old(self).lh5801.ticks + 3) as usize,
                    ..old(self).lh5801
                }))
                &&& final(self).lh5801.ticks == old(self).lh5801.ticks + (if doit { 3int } else { 0 })
                &&& final(self).lh5801.timer_state == old(self).lh5801.timer_state + (if doit { 3int } else { 0 })
            }),
    {
        let t = self.cpu_readop();
        if doit {
            self.add_state(3);
            let target = self.lh5801.p.wrapping_sub(t as u16);
            self.set_p(target)?;
        }
        Ok(())
    }

    #[verifier::rlimit(50)]
    /// LOP: loop back by the displacement while UL is not zero, then count UL down.
    pub(crate) fn lop(&mut self)
        requires
            old(self).wf(),
            old(self).lh5801.timer_state + 11 <= usize::MAX,
            old(self).lh5801.ticks + 11 <= usize::MAX,
        ensures
            final(self).wf(),
            ({
                let d = old(self)@.mem_read(old(self).lh5801.p as u32);
                let p1 = inc16(old(self).lh5801.p);
                let taken = lo_byte(old(self).lh5801.u) != 0;
                let n: int = if taken { 11 } else { 8 };
                final(self)@ == old(self)@.with_cpu(Lh5801 {
                    p: if taken { sub16(p1, d) } else { p1 },
                    u: with_lo(old(self).lh5801.u, ((lo_byte(old(self).lh5801.u) as int - 1) % 256) as u8),
                    timer_state: (old(self).lh5801.timer_state + n) as usize,
                    ticks: (old(self).lh5801.ticks + n) as usize,
                    ..old(self).lh5801
                })
            }),
            final(self).lh5801.ticks > old(self).lh5801.ticks,
            final(self).lh5801.ticks <= old(self).lh5801.ticks + 11,
            final(self).lh5801.timer_state - old(self).lh5801.timer_state == final(self).lh5801.ticks - old(self).lh5801.ticks,
    {
        let t = self.cpu_readop();
        self.add_state(8);
        let ul = self.lh5801.ul();
        if ul != 0 {
            self.add_state(3);
        }
        let np = if ul != 0 { self.lh5801.p.wrapping_sub(t as u16) } else { self.lh5801.p };
        let nu = (self.lh5801.u & 0xFF00) | (ul.wrapping_sub(1) as u16);
        self.lh5801 = Lh5801 { p: np, u: nu, ..self.lh5801 };
    }

    /// SJP: call the absolute address at P.
    pub(crate) fn sjp(&mut self) -> (r: Result<(), CpuFault>)
        requires
            old(self).wf(),
        ensures
            r is Err ==> r == Err::<(), CpuFault>(CpuFault::DebugTrap),
            steady(old(self), final(self)),
            ({
                let target = ((old(self)@.mem_read(old(self).lh5801.p as u32) as u16) << 8u16)
                    | (old(self)@.mem_read(inc16(old(self).lh5801.p) as u32) as u16);
                let m1 = old(self)@.with_cpu(Lh5801 { p: inc16(inc16(old(self).lh5801.p)), ..old(self).lh5801 });
                let m2 = m1.push_word_spec(m1.cpu.p);
                &&& (r is Err <==> debug_trips(old(self).lh5801.debug_messages, target))
                &&& (r is Ok ==> final(self)@ == m2.with_cpu(Lh5801 {
                    p: target,
                    debug_messages: debug_count_after(old(self).lh5801.debug_messages, target),
                    ..m2.cpu
                }))
            }),
    {
        let t = self.readop_word();
        let p = self.lh5801.p;
        self.push_word(p);
        self.set_p(t)
    }

    /// VEC: when taken, call through the vector table at 0xFF00 + `nr`; Z is
    /// cleared either way.
    #[verifier::rlimit(50)]
    pub(crate) fn vector(&mut self, doit: bool, nr: u8) -> (r: Result<(), CpuFault>)
        requires
            old(self).wf(),
            old(self).lh5801.timer_state + 13 <= usize::MAX,
            old(self).lh5801.ticks + 13 <= usize::MAX,
        ensures
            final(self).lh5801.reset_flag == old(self).lh5801.reset_flag,
            r is Err ==> r == Err::<(), CpuFault>(CpuFault::DebugTrap),
            final(self).wf(),
            !doit ==> r is Ok && final(self)@ == old(self)@.with_cpu(Lh5801 { t: with_flag(old(self).lh5801.t, ZF, false), ..old(self).lh5801 }),
            doit ==> (r is Err <==> debug_trips(old(self).lh5801.debug_messages, old(self)@.vector_target(nr))),
            r is Ok ==> final(self)@ == old(self)@.vector_s(doit, nr),
            r is Ok ==> final(self).lh5801.ticks == old(self).lh5801.ticks + (if doit { 13int } else { 0 }),
            old(self).lh5801.ticks <= final(self).lh5801.ticks <= old(self).lh5801.ticks + 13,
            final(self).lh5801.timer_state - old(self).lh5801.timer_state == final(self).lh5801.ticks - old(self).lh5801.ticks,
    {
        proof { reveal(Pc1500View::vector_s); reveal(Pc1500View::vector_target); }
        if doit {
            let p = self.lh5801.p;
            self.push_word(p);
            let addr = self.get_mem16(0xFF00u32 | (nr as u32));
            self.set_p(addr)?;
            self.add_state(13);
        }
        self.set_zero_flag(false);
        Ok(())
    }

    /// AEX: exchange the nibbles of A.
    pub(crate) fn aex(&mut self)
        ensures
            final(self)@ == old(self)@.with_cpu(Lh5801 { a: swap_nibbles(old(self).lh5801.a), ..old(self).lh5801 }),
    {
        let l = self.lh5801.a;
        let v = (l << 4u8) | (l >> 4u8);
        self.lh5801 = Lh5801 { a: v, ..self.lh5801 };
    }

    /// DRL: rotate the decimal digits of A and the byte at `addr` left.
    pub(crate) fn drl(&mut self, addr: u32)
        requires
            old(self).wf(),
        ensures
            steady(old(self), final(self)),
            ({
                let m = old(self)@.mem_read(addr);
                let l: u16 = ((old(self).lh5801.a as u16) | ((m as u16) << 8u16)) as u16;
                final(self)@ == old(self)@.with_cpu(Lh5801 { a: m, ..old(self).lh5801 }).mem_write(addr, (l >> 4u16) as u8)
            }),
    {
        let m = self.cpu_readmem(addr);
        let a0 = self.lh5801.a;
        let l: u16 = (a0 as u16) | ((m as u16) << 8u16);
        proof { assert(((((a0 as u16) | ((m as u16) << 8u16)) as u16) >> 8u16) as u8 == m) by (bit_vector); }
        self.lh5801 = Lh5801 { a: (l >> 8u16) as u8, ..self.lh5801 };
        self.cpu_writemem(addr, (l >> 4u16) as u8);
    }

    /// DRR: rotate the decimal digits of A and the byte at `addr` right.
    pub(crate) fn drr(&mut self, addr: u32)
        requires
            old(self).wf(),
        ensures
            steady(old(self), final(self)),
            ({
                let m = old(self)@.mem_read(addr);
                let l: u16 = ((m as u16) | ((old(self).lh5801.a as u16) << 8u16)) as u16;
                final(self)@ == old(self)@.with_cpu(Lh5801 { a: m, ..old(self).lh5801 }).mem_write(addr, (l >> 4u16) as u8)
            }),
    {
        let m = self.cpu_readmem(addr);
        let a0 = self.lh5801.a;
        let l: u16 = (m as u16) | ((a0 as u16) << 8u16);
        proof { assert(((((m as u16) | ((a0 as u16) << 8u16)) as u16) & 0xFF) as u8 == m) by (bit_vector); }
        self.lh5801 = Lh5801 { a: (l & 0xFF) as u8, ..self.lh5801 };
        self.cpu_writemem(addr, (l >> 4u16) as u8);
    }

    /// ROL: rotate A left through carry.
    pub(crate) fn rol(&mut self)
        ensures
            ({
                let l = old(self).lh5801.a;
                let a = rol_result(l, old(self).lh5801.t & CF != 0);
                final(self)@ == old(self)@.with_cpu(Lh5801 {
                    a,
                    t: shift_flags(old(self).lh5801.t, l & 0x80 != 0, a == 0, a & 0x10 != 0, l >= 0x40 && l < 0xc0),
                    ..old(self).lh5801
                })
            }),
    {
        let l = self.lh5801.a;
        let c = self.get_carry_flag();
        let a = (((l as u16) << 1u16) as u8) | (if c { 1u8 } else { 0u8 });
        self.lh5801 = Lh5801 { a, ..self.lh5801 };
        self.check_c(l & 0x80);
        self.check_z(a);
        self.check_h(a & 0x10);
        self.set_overflow_flag((l >= 0x40) && (l < 0xc0));
    }

    /// ROR: rotate A right through carry.
    pub(crate) fn ror(&mut self)
        ensures
            ({
                let l = old(self).lh5801.a;
                let a = ror_result(l, old(self).lh5801.t & CF != 0);
                final(self)@ == old(self)@.with_cpu(Lh5801 {
                    a,
                    t: shift_flags(old(self).lh5801.t, l & 0x01 != 0, a == 0, a & 0x08 != 0, shr_v(l, a)),
                    ..old(self).lh5801
                })
            }),
    {
        let l = self.lh5801.a;
        let c = self.get_carry_flag();
        let a = (l >> 1u8) | (if c { 0x80u8 } else { 0u8 });
        self.lh5801 = Lh5801 { a, ..self.lh5801 };
        self.check_c(l & 0x01);
        self.check_z(a);
        self.check_h(a & 0x08);
        self.set_overflow_flag(((l & 0x01 != 0) && (a & 0x02 != 0)) || ((l & 0x02 != 0) && (a & 0x01 != 0)));
    }

    /// SHL: shift A left, bit 7 into carry.
    pub(crate) fn shl(&mut self)
        ensures
            ({
                let l = old(self).lh5801.a;
                let a = ((l as u16) << 1u16) as u8;
                final(self)@ == old(self)@.with_cpu(Lh5801 {
                    a,
                    t: shift_flags(old(self).lh5801.t, l & 0x80 != 0, a == 0, l & 0x08 != 0, l >= 0x40 && l < 0xc0),
                    ..old(self).lh5801
                })
            }),
    {
        let l = self.lh5801.a;
        let a = ((l as u16) << 1u16) as u8;
        self.lh5801 = Lh5801 { a, ..self.lh5801 };
        self.check_c(l & 0x80);
        self.check_z(a);
        self.check_h(l & 0x08);
        self.set_overflow_flag((l >= 0x40) && (l < 0xc0));
    }

    /// SHR: shift A right, bit 0 into carry.
    pub(crate) fn shr(&mut self)
        ensures
            ({
                let l = old(self).lh5801.a;
                let a = l >> 1u8;
                final(self)@ == old(self)@.with_cpu(Lh5801 {
                    a,
                    t: shift_flags(old(self).lh5801.t, l & 0x01 != 0, a == 0, a & 0x08 != 0, shr_v(l, a)),
                    ..old(self).lh5801
                })
            }),
    {
        let l = self.lh5801.a;
        let a = l >> 1u8;
        self.lh5801 = Lh5801 { a, ..self.lh5801 };
        self.check_c(l & 0x01);
        self.check_z(a);
        self.check_h(a & 0x08);
        self.set_overflow_flag(((l & 0x01 != 0) && (a & 0x02 != 0)) || ((l & 0x02 != 0) && (a & 0x01 != 0)));
    }

    /// AM0/AM1: load the timer.
    pub(crate) fn am(&mut self, value: u16)
        ensures
            final(self)@ == old(self)@.with_cpu(Lh5801 { tm: value, ..old(self).lh5801 }),
    {
        self.lh5801 = Lh5801 { tm: value, ..self.lh5801 };
    }

    /// ITA: read the keyboard return lines into A and set Z when they are
    /// all low.
    pub(crate) fn ita(&mut self)
        requires
            old(self).wf(),
        ensures
            final(self)@ == old(self)@.with_cpu(Lh5801 {
                a: old(self).keyboard.input_spec(),
                t: with_flag(old(self).lh5801.t, ZF, old(self).keyboard.input_spec() == 0),
                ..old(self).lh5801
            }),
            final(self)@ == old(self)@.ita_s(),
    {
        proof { crate::effects::lemma_key_input(&self.keyboard); }
        let v = self.keyboard.input();
        self.lh5801 = Lh5801 { a: v, ..self.lh5801 };
        self.set_zero_flag(v == 0);
    }
}

/// AEX twice gives A back.
pub proof fn lemma_aex_involution(a: u8)
    ensures
        swap_nibbles(swap_nibbles(a)) == a,
{
    assert(((((((a << 4u8) | (a >> 4u8)) as u8) << 4u8) | ((((a << 4u8) | (a >> 4u8)) as u8) >> 4u8)) as u8) == a) by (bit_vector);
}

/// The timer stays a 9-bit value.
pub proof fn lemma_timer_nine_bits(tm: u16)
    requires
        tm < 0x200,
    ensures
        timer_next(tm) < 0x200,
{
    assert(tm < 0x200 ==> ((tm >> 1u16) | (((tm & 0x01) ^ ((tm & 0x10) >> 4u16)) << 8u16)) < 0x200) by (bit_vector);
}

/// SBC subtracts the operand and the borrow (inverted carry), modulo 256;
/// the carry out is set exactly when no borrow occurred.
pub proof fn lemma_sbc_subtracts(a: u8, d: u8, c: bool, t: u8)
    ensures
        add_result(a, d ^ 0xff, c) == ((a as int - d as int - (if c { 0int } else { 1int })) % 256) as u8,
        (add_flags(t, a, d ^ 0xff, c) & CF != 0) == (a as int - d as int - (if c { 0int } else { 1int }) >= 0),
{
    lemma_add_flags_bits(t, a, d ^ 0xff, c);
    assert((d ^ 0xff) == 255 - d) by (bit_vector);
    let x = a as int - d as int - (if c { 0int } else { 1int });
    assert(a + (d ^ 0xff) + cin(c) == 256 + x);
    vstd::arithmetic::div_mod::lemma_mod_add_multiples_vanish(x, 256);
}

/// CPA compares: Z when equal, C when A is not below the operand.
pub proof fn lemma_cpa_compares(a: u8, b: u8, t: u8)
    ensures
        (add_flags(t, a, b ^ 0xff, true) & ZF != 0) == (a == b),
        (add_flags(t, a, b ^ 0xff, true) & CF != 0) == (a >= b),
{
    lemma_add_flags_bits(t, a, b ^ 0xff, true);
    assert((b ^ 0xff) == 255 - b) by (bit_vector);
}

/// The flags `add_flags` sets, one by one; IE is kept.
pub proof fn lemma_add_flags_bits(t: u8, l: u8, r: u8, c: bool)
    ensures
        (add_flags(t, l, r, c) & ZF != 0) == ((l + r + cin(c)) % 256 == 0),
        (add_flags(t, l, r, c) & CF != 0) == (l + r + cin(c) >= 256),
        (add_flags(t, l, r, c) & HF != 0) == ((l % 16) + (r % 16) + cin(c) >= 16),
        (add_flags(t, l, r, c) & IE) == (t & IE),
{
    let res = l + r + cin(c);
    let z = res % 256 == 0;
    let cy = res >= 256;
    let h = (l % 16) + (r % 16) + cin(c) >= 16;
    let c6 = (l % 128) + (r % 128) + cin(c) >= 128;
    let ov = cy != c6;
    assert((((t & 0xE2) | (if z { 4u8 } else { 0u8 }) | (if cy { 1u8 } else { 0u8 }) | (if h { 0x10u8 } else { 0u8 })
        | (if ov { 8u8 } else { 0u8 })) & 4u8 != 0) == z
        && (((t & 0xE2) | (if z { 4u8 } else { 0u8 }) | (if cy { 1u8 } else { 0u8 }) | (if h { 0x10u8 } else { 0u8 })
        | (if ov { 8u8 } else { 0u8 })) & 1u8 != 0) == cy
        && (((t & 0xE2) | (if z { 4u8 } else { 0u8 }) | (if cy { 1u8 } else { 0u8 }) | (if h { 0x10u8 } else { 0u8 })
        | (if ov { 8u8 } else { 0u8 })) & 0x10u8 != 0) == h
        && (((t & 0xE2) | (if z { 4u8 } else { 0u8 }) | (if cy { 1u8 } else { 0u8 }) | (if h { 0x10u8 } else { 0u8 })
        | (if ov { 8u8 } else { 0u8 })) & 2u8) == (t & 2u8)) by (bit_vector);
}

/// Whether a stack byte at `s` lives in RAM outside the mirrored window.
pub open spec fn stack_in_ram(s: u16) -> bool {
    (0x4000 <= s <= 0x57FF) || (0x7600 <= s <= 0x7FFF)
}

/// A word pushed on a RAM stack pops back unchanged.
pub proof fn lemma_push_pop_word(m: Pc1500View, v: u16)
    requires
        m.wf(),
        stack_in_ram(m.cpu.s),
        stack_in_ram(dec16(m.cpu.s)),
    ensures
        m.push_word_spec(v).peek_word() == v,
        m.push_word_spec(v).cpu.s == dec16(dec16(m.cpu.s)),
{
    let s0 = m.cpu.s;
    let s1 = dec16(s0);
    let m1 = m.push_spec(lo_byte(v));
    let m2 = m1.push_spec(hi_byte(v));
    crate::memory::lemma_mirror_range(stack_addr(s0));
    crate::memory::lemma_mirror_range(stack_addr(s1));
    assert(inc16(dec16(s1)) == s1);
    assert(inc16(s1) == s0);
    assert(m2.mem_read(stack_addr(s1)) == hi_byte(v));
    assert(m2.mem_read(stack_addr(s0)) == lo_byte(v));
    lemma_byte_halves(v, 0);
    assert(((hi_byte(v) as u16) << 8u16) | (lo_byte(v) as u16) == v) by (bit_vector);
}

} // verus!
