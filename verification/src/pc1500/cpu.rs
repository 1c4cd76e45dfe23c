// The register file and ALU of a second, self-contained LH5801 model with
// its own flag layout (Z=0x01, C=0x02, V=0x04, S=0x08, H=0x10).
use vstd::prelude::*;
use crate::lh5801::{lo_byte, hi_byte, with_lo, with_hi, with_flag};
use crate::pc1500::memory::{MemoryBus, prev_addr, next_addr};

verus! {

pub const ZF: u8 = 0x01;
pub const CF: u8 = 0x02;
pub const VF: u8 = 0x04;
pub const SF: u8 = 0x08;
pub const HF: u8 = 0x10;

#[derive(Debug)]
pub struct Lh5801Cpu {
    pub a: u8,
    pub b: u8,
    pub x: u16,
    pub y: u16,
    pub u: u16,
    pub s: u16,
    pub p: u16,
    pub flags: u8,
    pub interrupt_enabled: bool,
    pub is_halted: bool,
    pub pu_flipflop: bool,
    pub pv_flipflop: bool,
    pub bf_flipflop: bool,
    pub display_enabled: bool,
    pub timer_register: u16,
    pub halted: bool,
    pub t_register: u8,
}

/// A carry in of 0 or 1.
pub open spec fn bit_in(c: bool) -> int {
    if c { 1 } else { 0 }
}

/// The decimal adjustment added after DCA and DCS, by carry and half carry.
pub open spec fn decimal_adjust(c: bool, h: bool) -> u8 {
    if !c && !h {
        0x9A
    } else if !c && h {
        0xA0
    } else if c && !h {
        0xFA
    } else {
        0x00
    }
}

pub fn decimal_adjust_value(c: bool, h: bool) -> (r: u8)
    ensures
        r == decimal_adjust(c, h),
{
    match (c, h) {
        (false, false) => 0x9A,
        (false, true) => 0xA0,
        (true, false) => 0xFA,
        (true, true) => 0x00,
    }
}

impl Lh5801Cpu {
    /// All registers and flags zero, every flip-flop off.
    pub open spec fn cleared() -> Lh5801Cpu {
        Lh5801Cpu {
            a: 0, b: 0, x: 0, y: 0, u: 0, s: 0, p: 0, flags: 0, interrupt_enabled: false,
            is_halted: false, pu_flipflop: false, pv_flipflop: false, bf_flipflop: false,
            display_enabled: false, timer_register: 0, halted: false, t_register: 0,
        }
    }

    pub fn new() -> (r: Self)
        ensures
            r == Self::cleared(),
    {
        Lh5801Cpu {
            a: 0,
            b: 0,
            x: 0,
            y: 0,
            u: 0,
            s: 0,
            p: 0,
            flags: 0,
            interrupt_enabled: false,
            is_halted: false,
            pu_flipflop: false,
            pv_flipflop: false,
            bf_flipflop: false,
            display_enabled: false,
            timer_register: 0,
            halted: false,
            t_register: 0,
        }
    }

    /// Back to the cleared state.
    pub fn reset(&mut self)
        ensures
            *final(self) == Self::cleared(),
    {
        *self = Self::new();
    }

    pub fn a(&self) -> (r: u8)
        ensures
            r == self.a,
    {
        self.a
    }

    pub fn b(&self) -> (r: u8)
        ensures
            r == self.b,
    {
        self.b
    }

    pub fn p(&self) -> (r: u16)
        ensures
            r == self.p,
    {
        self.p
    }

    pub fn s(&self) -> (r: u16)
        ensures
            r == self.s,
    {
        self.s
    }

    pub fn u(&self) -> (r: u16)
        ensures
            r == self.u,
    {
        self.u
    }

    pub fn x(&self) -> (r: u16)
        ensures
            r == self.x,
    {
        self.x
    }

    pub fn y(&self) -> (r: u16)
        ensures
            r == self.y,
    {
        self.y
    }

    pub fn flags(&self) -> (r: u8)
        ensures
            r == self.flags,
    {
        self.flags
    }

    pub fn interrupt_enabled(&self) -> (r: bool)
        ensures
            r == self.interrupt_enabled,
    {
        self.interrupt_enabled
    }

    pub fn is_halted(&self) -> (r: bool)
        ensures
            r == self.is_halted,
    {
        self.is_halted
    }

    pub fn set_pc(&mut self, v: u16)
        ensures
            *final(self) == (Lh5801Cpu { p: v, ..*old(self) }),
    {
        *self = Lh5801Cpu { p: v, ..*self };
    }

    pub fn set_a(&mut self, v: u8)
        ensures
            *final(self) == (Lh5801Cpu { a: v, ..*old(self) }),
    {
        *self = Lh5801Cpu { a: v, ..*self };
    }

    pub fn set_b(&mut self, v: u8)
        ensures
            *final(self) == (Lh5801Cpu { b: v, ..*old(self) }),
    {
        *self = Lh5801Cpu { b: v, ..*self };
    }

    pub fn xl(&self) -> (r: u8)
        ensures
            r == lo_byte(self.x),
    {
        (self.x & 0xFF) as u8
    }

    pub fn yl(&self) -> (r: u8)
        ensures
            r == lo_byte(self.y),
    {
        (self.y & 0xFF) as u8
    }

    pub fn ul(&self) -> (r: u8)
        ensures
            r == lo_byte(self.u),
    {
        (self.u & 0xFF) as u8
    }

    pub fn sl(&self) -> (r: u8)
        ensures
            r == lo_byte(self.s),
    {
        (self.s & 0xFF) as u8
    }

    pub fn pl(&self) -> (r: u8)
        ensures
            r == lo_byte(self.p),
    {
        (self.p & 0xFF) as u8
    }

    pub fn xh(&self) -> (r: u8)
        ensures
            r == hi_byte(self.x),
    {
        (self.x >> 8u16) as u8
    }

    pub fn yh(&self) -> (r: u8)
        ensures
            r == hi_byte(self.y),
    {
        (self.y >> 8u16) as u8
    }

    pub fn uh(&self) -> (r: u8)
        ensures
            r == hi_byte(self.u),
    {
        (self.u >> 8u16) as u8
    }

    pub fn sh(&self) -> (r: u8)
        ensures
            r == hi_byte(self.s),
    {
        (self.s >> 8u16) as u8
    }

    pub fn ph(&self) -> (r: u8)
        ensures
            r == hi_byte(self.p),
    {
        (self.p >> 8u16) as u8
    }

    pub fn set_xl(&mut self, val: u8)
        ensures
            *final(self) == (Lh5801Cpu { x: with_lo(old(self).x, val), ..*old(self) }),
    {
        let v = (self.x & 0xFF00) | (val as u16);
        *self = Lh5801Cpu { x: v, ..*self };
    }

    pub fn set_yl(&mut self, val: u8)
        ensures
            *final(self) == (Lh5801Cpu { y: with_lo(old(self).y, val), ..*old(self) }),
    {
        let v = (self.y & 0xFF00) | (val as u16);
        *self = Lh5801Cpu { y: v, ..*self };
    }

    pub fn set_ul(&mut self, val: u8)
        ensures
            *final(self) == (Lh5801Cpu { u: with_lo(old(self).u, val), ..*old(self) }),
    {
        let v = (self.u & 0xFF00) | (val as u16);
        *self = Lh5801Cpu { u: v, ..*self };
    }

    pub fn set_xh(&mut self, val: u8)
        ensures
            *final(self) == (Lh5801Cpu { x: with_hi(old(self).x, val), ..*old(self) }),
    {
        let v = (self.x & 0x00FF) | ((val as u16) << 8u16);
        *self = Lh5801Cpu { x: v, ..*self };
    }

    pub fn set_yh(&mut self, val: u8)
        ensures
            *final(self) == (Lh5801Cpu { y: with_hi(old(self).y, val), ..*old(self) }),
    {
        let v = (self.y & 0x00FF) | ((val as u16) << 8u16);
        *self = Lh5801Cpu { y: v, ..*self };
    }

    pub fn set_uh(&mut self, val: u8)
        ensures
            *final(self) == (Lh5801Cpu { u: with_hi(old(self).u, val), ..*old(self) }),
    {
        let v = (self.u & 0x00FF) | ((val as u16) << 8u16);
        *self = Lh5801Cpu { u: v, ..*self };
    }

    pub(crate) fn get_flag(&self, flag: u8) -> (r: bool)
        ensures
            r == (self.flags & flag != 0),
    {
        self.flags & flag != 0
    }

    pub(crate) fn set_flag(&mut self, flag: u8, value: bool)
        ensures
            *final(self) == (Lh5801Cpu { flags: with_flag(old(self).flags, flag, value), ..*old(self) }),
    {
        let f = if value { self.flags | flag } else { self.flags & !flag };
        *self = Lh5801Cpu { flags: f, ..*self };
    }

    pub fn set_zero_flag(&mut self, value: bool)
        ensures
            *final(self) == (Lh5801Cpu { flags: with_flag(old(self).flags, ZF, value), ..*old(self) }),
    {
        self.set_flag(ZF, value);
    }

    pub fn set_carry_flag(&mut self, value: bool)
        ensures
            *final(self) == (Lh5801Cpu { flags: with_flag(old(self).flags, CF, value), ..*old(self) }),
    {
        self.set_flag(CF, value);
    }

    pub(crate) fn set_overflow_flag(&mut self, value: bool)
        ensures
            *final(self) == (Lh5801Cpu { flags: with_flag(old(self).flags, VF, value), ..*old(self) }),
    {
        self.set_flag(VF, value);
    }

    pub(crate) fn set_negative_flag(&mut self, value: bool)
        ensures
            *final(self) == (Lh5801Cpu { flags: with_flag(old(self).flags, SF, value), ..*old(self) }),
    {
        self.set_flag(SF, value);
    }

    pub(crate) fn set_half_carry_flag(&mut self, value: bool)
        ensures
            *final(self) == (Lh5801Cpu { flags: with_flag(old(self).flags, HF, value), ..*old(self) }),
    {
        self.set_flag(HF, value);
    }

    pub(crate) fn get_zero_flag(&self) -> (r: bool)
        ensures
            r == (self.flags & ZF != 0),
    {
        self.get_flag(ZF)
    }

    pub(crate) fn get_carry_flag(&self) -> (r: bool)
        ensures
            r == (self.flags & CF != 0),
    {
        self.get_flag(CF)
    }

    pub(crate) fn get_overflow_flag(&self) -> (r: bool)
        ensures
            r == (self.flags & VF != 0),
    {
        self.get_flag(VF)
    }

    pub(crate) fn get_negative_flag(&self) -> (r: bool)
        ensures
            r == (self.flags & SF != 0),
    {
        self.get_flag(SF)
    }

    pub(crate) fn get_half_carry_flag(&self) -> (r: bool)
        ensures
            r == (self.flags & HF != 0),
    {
        self.get_flag(HF)
    }

    /// A plus `val` plus carry: Z, C, H and V follow the sum.
    pub(crate) fn adc_with_flags(&mut self, val: u8) -> (r: u8)
        ensures
            ({
                let a = old(self).a;
                let c = bit_in(old(self).flags & CF != 0);
                let res = (a + val + c) as u8;
                &&& r == res
                &&& *final(self) == (Lh5801Cpu {
                    flags: with_flag(with_flag(with_flag(with_flag(old(self).flags, ZF, res == 0), CF, a + val + c > 0xFF),
                        HF, (a & 0x0F) + (val & 0x0F) + c > 0x0F),
                        VF, (a & 0x80) == (val & 0x80) && (a & 0x80) != (res & 0x80)),
                    ..*old(self)
                })
            }),
    {
        let a = self.a;
        let carry: u16 = if self.get_carry_flag() { 1 } else { 0 };
        let result16: u16 = (a as u16) + (val as u16) + carry;
        let result = result16 as u8;
        proof { assert((a & 0x0F) <= 0x0F && (val & 0x0F) <= 0x0F) by (bit_vector); }
        self.set_zero_flag(result == 0);
        self.set_carry_flag(result16 > 0xFF);
        self.set_half_carry_flag(((a & 0x0F) as u16) + ((val & 0x0F) as u16) + carry > 0x0F);
        let overflow = (a & 0x80) == (val & 0x80) && (a & 0x80) != (result & 0x80);
        self.set_overflow_flag(overflow);
        result
    }

    /// A plus `val` without carry in.
    pub(crate) fn add_with_flags(&mut self, val: u8) -> (r: u8)
        ensures
            ({
                let a = old(self).a;
                let res = a.wrapping_add(val);
                &&& r == res
                &&& *final(self) == (Lh5801Cpu {
                    flags: with_flag(with_flag(with_flag(with_flag(old(self).flags, ZF, res == 0), CF, a + val > 0xFF),
                        HF, (a & 0x0F) + (val & 0x0F) > 0x0F),
                        VF, (a & 0x80) == (val & 0x80) && (a & 0x80) != (res & 0x80)),
                    ..*old(self)
                })
            }),
    {
        let a = self.a;
        let result = a.wrapping_add(val);
        proof { assert((a & 0x0F) <= 0x0F && (val & 0x0F) <= 0x0F) by (bit_vector); }
        self.set_zero_flag(result == 0);
        self.set_carry_flag((a as u16) + (val as u16) > 0xFF);
        self.set_half_carry_flag((a & 0x0F) + (val & 0x0F) > 0x0F);
        let overflow = (a & 0x80) == (val & 0x80) && (a & 0x80) != (result & 0x80);
        self.set_overflow_flag(overflow);
        result
    }

    /// A minus `val` minus carry (the carry is a borrow here).
    pub(crate) fn sbc_with_flags(&mut self, val: u8) -> (r: u8)
        ensures
            ({
                let a = old(self).a;
                let c = bit_in(old(self).flags & CF != 0);
                let res = (a - val - c) as u8;
                &&& r == res
                &&& *final(self) == (Lh5801Cpu {
                    flags: with_flag(with_flag(with_flag(with_flag(old(self).flags, ZF, res == 0), CF, a - val - c < 0),
                        HF, (a & 0x0F) < (val & 0x0F) + c),
                        VF, (a & 0x80) != (val & 0x80) && (a & 0x80) != (res & 0x80)),
                    ..*old(self)
                })
            }),
    {
        let a = self.a;
        let carry: i16 = if self.get_carry_flag() { 1 } else { 0 };
        let result16: i16 = (a as i16) - (val as i16) - carry;
        let result = result16 as u8;
        proof { assert((a & 0x0F) <= 0x0F && (val & 0x0F) <= 0x0F) by (bit_vector); }
        self.set_zero_flag(result == 0);
        self.set_carry_flag(result16 < 0);
        self.set_half_carry_flag(((a & 0x0F) as i16) < ((val & 0x0F) as i16) + carry);
        let overflow = (a & 0x80) != (val & 0x80) && (a & 0x80) != (result & 0x80);
        self.set_overflow_flag(overflow);
        result
    }

    /// A minus `val` without borrow in.
    pub(crate) fn sub_with_flags(&mut self, val: u8) -> (r: u8)
        ensures
            ({
                let a = old(self).a;
                let res = a.wrapping_sub(val);
                &&& r == res
                &&& *final(self) == (Lh5801Cpu {
                    flags: with_flag(with_flag(with_flag(with_flag(old(self).flags, ZF, res == 0), CF, a < val),
                        HF, (a & 0x0F) < (val & 0x0F)),
                        VF, (a & 0x80) != (val & 0x80) && (a & 0x80) != (res & 0x80)),
                    ..*old(self)
                })
            }),
    {
        let a = self.a;
        let result = a.wrapping_sub(val);
        self.set_zero_flag(result == 0);
        self.set_carry_flag(a < val);
        self.set_half_carry_flag((a & 0x0F) < (val & 0x0F));
        let overflow = (a & 0x80) != (val & 0x80) && (a & 0x80) != (result & 0x80);
        self.set_overflow_flag(overflow);
        result
    }

    /// Logic results clear C and V and set Z from the result.
    pub(crate) fn and_with_flags(&mut self, val: u8) -> (r: u8)
        ensures
            r == old(self).a & val,
            *final(self) == (Lh5801Cpu {
                flags: with_flag(with_flag(with_flag(old(self).flags, ZF, r == 0), CF, false), VF, false),
                ..*old(self)
            }),
    {
        let result = self.a & val;
        self.set_zero_flag(result == 0);
        self.set_carry_flag(false);
        self.set_overflow_flag(false);
        result
    }

    pub(crate) fn or_with_flags(&mut self, val: u8) -> (r: u8)
        ensures
            r == old(self).a | val,
            *final(self) == (Lh5801Cpu {
                flags: with_flag(with_flag(with_flag(old(self).flags, ZF, r == 0), CF, false), VF, false),
                ..*old(self)
            }),
    {
        let result = self.a | val;
        self.set_zero_flag(result == 0);
        self.set_carry_flag(false);
        self.set_overflow_flag(false);
        result
    }

    pub(crate) fn xor_with_flags(&mut self, val: u8) -> (r: u8)
        ensures
            r == old(self).a ^ val,
            *final(self) == (Lh5801Cpu {
                flags: with_flag(with_flag(with_flag(old(self).flags, ZF, r == 0), CF, false), VF, false),
                ..*old(self)
            }),
    {
        let result = self.a ^ val;
        self.set_zero_flag(result == 0);
        self.set_carry_flag(false);
        self.set_overflow_flag(false);
        result
    }

    /// Increment of an 8-bit register: C on wrap, H on low-nibble wrap, V when
    /// the sign turns on.
    pub(crate) fn inc_with_flags(&mut self, val: u8) -> (r: u8)
        ensures
            r == val.wrapping_add(1),
            *final(self) == (Lh5801Cpu {
                flags: with_flag(with_flag(with_flag(with_flag(old(self).flags, ZF, r == 0), CF, val == 0xFF),
                    HF, (val & 0x0F) == 0x0F), VF, (val & 0x80) == 0 && (r & 0x80) != 0),
                ..*old(self)
            }),
    {
        let result = val.wrapping_add(1);
        self.set_zero_flag(result == 0);
        self.set_carry_flag(val == 0xFF);
        self.set_half_carry_flag((val & 0x0F) == 0x0F);
        let overflow = (val & 0x80) == 0 && (result & 0x80) != 0;
        self.set_overflow_flag(overflow);
        result
    }

    /// Decrement of an 8-bit register: C on wrap below zero, H on low-nibble
    /// wrap, V when the sign turns off.
    pub(crate) fn dec_with_flags(&mut self, val: u8) -> (r: u8)
        ensures
            r == val.wrapping_sub(1),
            *final(self) == (Lh5801Cpu {
                flags: with_flag(with_flag(with_flag(with_flag(old(self).flags, ZF, r == 0), CF, val == 0x00),
                    HF, (val & 0x0F) == 0x00), VF, (val & 0x80) != 0 && (r & 0x80) == 0),
                ..*old(self)
            }),
    {
        let result = val.wrapping_sub(1);
        self.set_zero_flag(result == 0);
        self.set_carry_flag(val == 0x00);
        self.set_half_carry_flag((val & 0x0F) == 0x00);
        let overflow = (val & 0x80) != 0 && (result & 0x80) == 0;
        self.set_overflow_flag(overflow);
        result
    }

    /// Decimal add of `val` and C to A: A is first biased by 0x66, the binary
    /// sum sets Z, C and H, then the adjustment picked by the new C and H is
    /// added and Z follows the adjusted result.
    pub(crate) fn dca_with_flags(&mut self, val: u8) -> (r: u8)
        ensures
            ({
                let c = bit_in(old(self).flags & CF != 0);
                let biased = old(self).a.wrapping_add(0x66);
                let sum = biased + val + c;
                let res1 = sum as u8;
                let carry = sum > 0xFF;
                let half = (biased & 0x0F) + (val & 0x0F) + c > 0x0F;
                &&& r == res1.wrapping_add(decimal_adjust(carry, half))
                &&& *final(self) == (Lh5801Cpu {
                    flags: with_flag(with_flag(with_flag(with_flag(old(self).flags, ZF, res1 == 0), CF, carry), HF, half), ZF, r == 0),
                    ..*old(self)
                })
            }),
    {
        let carry: u16 = if self.get_carry_flag() { 1 } else { 0 };
        let biased = self.a.wrapping_add(0x66);
        let result16: u16 = (biased as u16) + (val as u16) + carry;
        let result = result16 as u8;
        self.set_zero_flag(result == 0);
        let c_out = result16 > 0xFF;
        self.set_carry_flag(c_out);
        let half = ((biased & 0x0F) as u16) + ((val & 0x0F) as u16) + carry > 0x0F;
        self.set_half_carry_flag(half);
        let result = result.wrapping_add(decimal_adjust_value(c_out, half));
        self.set_zero_flag(result == 0);
        result
    }

    /// Decimal subtract step: A plus `val` plus C; the binary sum sets Z, C
    /// and H, then the adjustment picked by the new C and H is added and Z
    /// follows the result.
    pub(crate) fn dcs_with_flags(&mut self, val: u8) -> (r: u8)
        ensures
            ({
                let c = bit_in(old(self).flags & CF != 0);
                let sum = old(self).a + val + c;
                let res1 = sum as u8;
                let carry = sum > 0xFF;
                let half = (old(self).a & 0x0F) + (val & 0x0F) + c > 0x0F;
                &&& r == res1.wrapping_add(decimal_adjust(carry, half))
                &&& *final(self) == (Lh5801Cpu {
                    flags: with_flag(with_flag(with_flag(with_flag(old(self).flags, ZF, res1 == 0), CF, carry), HF, half), ZF, r == 0),
                    ..*old(self)
                })
            }),
    {
        let carry: u16 = if self.get_carry_flag() { 1 } else { 0 };
        let a = self.a;
        let result16: u16 = (a as u16) + (val as u16) + carry;
        let result = result16 as u8;
        self.set_zero_flag(result == 0);
        let c_out = result16 > 0xFF;
        self.set_carry_flag(c_out);
        let half = ((a & 0x0F) as u16) + ((val & 0x0F) as u16) + carry > 0x0F;
        self.set_half_carry_flag(half);
        let result = result.wrapping_add(decimal_adjust_value(c_out, half));
        self.set_zero_flag(result == 0);
        result
    }

    /// Set Carry: C on. Returns the cycle count.
    pub(crate) fn sec(&mut self) -> (r: u8)
        ensures
            r == 4,
            *final(self) == (Lh5801Cpu { flags: with_flag(old(self).flags, CF, true), ..*old(self) }),
    {
        self.set_carry_flag(true);
        4
    }

    /// Reset Carry: C off. Returns the cycle count.
    pub(crate) fn rec(&mut self) -> (r: u8)
        ensures
            r == 4,
            *final(self) == (Lh5801Cpu { flags: with_flag(old(self).flags, CF, false), ..*old(self) }),
    {
        self.set_carry_flag(false);
        4
    }

    /// Set the PU flip-flop. Returns the cycle count.
    pub(crate) fn spu(&mut self) -> (r: u8)
        ensures
            r == 4,
            *final(self) == (Lh5801Cpu { pu_flipflop: true, ..*old(self) }),
    {
        *self = Lh5801Cpu { pu_flipflop: true, ..*self };
        4
    }

    /// Reset the PU flip-flop. Returns the cycle count.
    pub(crate) fn rpu(&mut self) -> (r: u8)
        ensures
            r == 4,
            *final(self) == (Lh5801Cpu { pu_flipflop: false, ..*old(self) }),
    {
        *self = Lh5801Cpu { pu_flipflop: false, ..*self };
        4
    }

    /// Set the PV flip-flop. Returns the cycle count.
    pub(crate) fn spv(&mut self) -> (r: u8)
        ensures
            r == 1,
            *final(self) == (Lh5801Cpu { pv_flipflop: true, ..*old(self) }),
    {
        *self = Lh5801Cpu { pv_flipflop: true, ..*self };
        1
    }

    /// Reset the PV flip-flop. Returns the cycle count.
    pub(crate) fn rpv(&mut self) -> (r: u8)
        ensures
            r == 1,
            *final(self) == (Lh5801Cpu { pv_flipflop: false, ..*old(self) }),
    {
        *self = Lh5801Cpu { pv_flipflop: false, ..*self };
        1
    }

    /// Display on. Returns the cycle count.
    pub(crate) fn sdp(&mut self) -> (r: u8)
        ensures
            r == 2,
            *final(self) == (Lh5801Cpu { display_enabled: true, ..*old(self) }),
    {
        *self = Lh5801Cpu { display_enabled: true, ..*self };
        2
    }

    /// Display off. Returns the cycle count.
    pub(crate) fn rdp(&mut self) -> (r: u8)
        ensures
            r == 2,
            *final(self) == (Lh5801Cpu { display_enabled: false, ..*old(self) }),
    {
        *self = Lh5801Cpu { display_enabled: false, ..*self };
        2
    }

    /// Enable interrupts. Returns the cycle count.
    pub(crate) fn sie(&mut self) -> (r: u8)
        ensures
            r == 1,
            *final(self) == (Lh5801Cpu { interrupt_enabled: true, ..*old(self) }),
    {
        *self = Lh5801Cpu { interrupt_enabled: true, ..*self };
        1
    }

    /// Disable interrupts. Returns the cycle count.
    pub(crate) fn rie(&mut self) -> (r: u8)
        ensures
            r == 1,
            *final(self) == (Lh5801Cpu { interrupt_enabled: false, ..*old(self) }),
    {
        *self = Lh5801Cpu { interrupt_enabled: false, ..*self };
        1
    }

    /// Load the timer from A with TM8 clear. Returns the cycle count.
    pub(crate) fn am0(&mut self) -> (r: u8)
        ensures
            r == 2,
            *final(self) == (Lh5801Cpu { timer_register: (old(self).a as u16) & 0x00FF, ..*old(self) }),
    {
        let tr = self.timer_register;
        let t = (self.timer_register & 0xFF00) | (self.a as u16);
        let t = t & 0x00FF;
        let a = self.a;
        proof { assert(((tr & 0xFF00) | (a as u16)) & 0x00FF == (a as u16) & 0x00FF) by (bit_vector); }
        *self = Lh5801Cpu { timer_register: t, ..*self };
        2
    }

    /// Load the timer from A with TM8 set. Returns the cycle count.
    pub(crate) fn am1(&mut self) -> (r: u8)
        ensures
            r == 2,
            *final(self) == (Lh5801Cpu { timer_register: ((old(self).timer_register & 0xFF00) | (old(self).a as u16)) | 0x0100, ..*old(self) }),
    {
        let tr = self.timer_register;
        let t = (self.timer_register & 0xFF00) | (self.a as u16);
        let t = t | 0x0100;
        *self = Lh5801Cpu { timer_register: t, ..*self };
        2
    }

    /// Halt. Returns the cycle count.
    pub(crate) fn hlt(&mut self) -> (r: u8)
        ensures
            r == 2,
            *final(self) == (Lh5801Cpu { halted: true, is_halted: true, ..*old(self) }),
    {
        *self = Lh5801Cpu { halted: true, is_halted: true, ..*self };
        2
    }

    /// Power-off request: BF flip-flop off. Returns the cycle count.
    pub(crate) fn off(&mut self) -> (r: u8)
        ensures
            r == 2,
            *final(self) == (Lh5801Cpu { bf_flipflop: false, ..*old(self) }),
    {
        *self = Lh5801Cpu { bf_flipflop: false, ..*self };
        2
    }

    /// CDV: no register effect here; returns the cycle count.
    pub(crate) fn cdv(&mut self) -> (r: u8)
        ensures
            r == 8,
            *final(self) == *old(self),
    {
        8
    }

    /// NOP; returns the cycle count.
    pub(crate) fn nop(&mut self) -> (r: u8)
        ensures
            r == 1,
            *final(self) == *old(self),
    {
        1
    }

    /// An interrupt is taken only when enabled and the CPU is running.
    pub fn should_handle_interrupt(&self) -> (r: bool)
        ensures
            r == (self.interrupt_enabled && !self.is_halted),
    {
        self.interrupt_enabled && !self.is_halted
    }

    /// Entering an interrupt: PC (high byte first) and then the IE state are
    /// pushed, interrupts are disabled, the CPU wakes, and P takes the
    /// little-endian vector stored at `vector`.
    pub fn handle_interrupt(&mut self, vector: u16, memory: &mut MemoryBus)
        requires
            old(memory).wf(),
        ensures
            final(memory).wf(),
            final(memory).map.rom@ == old(memory).map.rom@,
            exists|m1: MemoryBus, m2: MemoryBus|
                old(memory).stored(m1, prev_addr(old(self).s), hi_byte(old(self).p))
                && m1.stored(m2, prev_addr(prev_addr(old(self).s)), lo_byte(old(self).p))
                && m2.stored(*final(memory), prev_addr(prev_addr(prev_addr(old(self).s))),
                    if old(self).interrupt_enabled { 1u8 } else { 0u8 }),
            *final(self) == (Lh5801Cpu {
                s: prev_addr(prev_addr(prev_addr(old(self).s))),
                p: final(memory).word(vector),
                interrupt_enabled: false,
                is_halted: false,
                ..*old(self)
            }),
    {
        let ie_state: u8 = if self.interrupt_enabled { 1 } else { 0 };
        let p = self.p;
        let s1 = self.s.wrapping_sub(1);
        memory.write_byte(s1, (p >> 8u16) as u8);
        let ghost m1 = *memory;
        let s2 = s1.wrapping_sub(1);
        memory.write_byte(s2, (p & 0xFF) as u8);
        let ghost m2 = *memory;
        let s3 = s2.wrapping_sub(1);
        memory.write_byte(s3, ie_state);
        assert(s1 == prev_addr(old(self).s) && s2 == prev_addr(s1) && s3 == prev_addr(s2));
        assert(old(memory).stored(m1, s1, hi_byte(p)) && m1.stored(m2, s2, lo_byte(p))
            && m2.stored(*memory, s3, ie_state));
        let lo = memory.read_byte(vector);
        let next = vector.wrapping_add(1);
        assert(next == next_addr(vector));
        let hi = memory.read_byte(next);
        let target = ((hi as u16) << 8u16) | (lo as u16);
        *self = Lh5801Cpu { s: s3, p: target, interrupt_enabled: false, is_halted: false, ..*self };
    }
}

} // verus!
