// Laws of the machine stated from the hardware's side: what the ALU, load,
// store, shift and branch instructions of both CPU models do to registers,
// flag bits and memory; how the clock chip shifts its time register; which
// display RAM bits light each LCD dot and annunciator; how the keyboard
// matrix and the joypad scan are wired; and where the memory map puts RAM,
// ROM and the LH5810 registers.
use vstd::prelude::*;
use crate::Pc1500View;
use crate::display::{Symbol, SYMBOL_COUNT, symbol_index, lcd_symbols, lcd_column, dot_on};
use crate::effects;
use crate::effects::{main_effect, fd_effect, lemma_key_input, lemma_key_input_line};
use crate::keyboard::{Key, Keyboard};
use crate::joypad::{CODE_COUNT, scan_code, first_pressed_from};
use crate::lh5810::Reg;
use crate::memory::{mirror, lemma_mirror_range};
use crate::lh5801::{CF, IE, ZF, VF, HF, me1, with_flag, lemma_with_flag, lo_byte, hi_byte};
use crate::lh5801::{lemma_add_flags_bits, lemma_sbc_subtracts, lemma_cpa_compares};
use crate::lh5801::{shift_flags, shr_v, ror_result, rol_result, lemma_byte_halves};
use crate::lh5801::{Lh5801, stack_in_ram, stack_addr, inc16, dec16};
use crate::pc1500::cpu::{self, Lh5801Cpu};
use crate::pc1500::execute::{main_cycles, model_after, model_writes, after_adc, after_cpa, skip};
use crate::pc1500::cpu::bit_in;
use crate::pc1500::memory::{MemoryBus, next_addr, in_ram, lemma_stored_read_back};
use crate::pd1990ac::{Pd1990ac, lemma_put_read_bit};

verus! {

/// After a logic instruction that started from flags `t0`: A holds `a`, Z
/// says whether `a` is zero, and C, IE, V and H are those of `t0`.
pub open spec fn logic_outcome(t0: u8, after: Pc1500View, a: u8) -> bool {
    &&& after.cpu.a == a
    &&& (after.cpu.t & ZF != 0) == (a == 0)
    &&& (after.cpu.t & CF != 0) == (t0 & CF != 0)
    &&& (after.cpu.t & IE != 0) == (t0 & IE != 0)
    &&& (after.cpu.t & VF != 0) == (t0 & VF != 0)
    &&& (after.cpu.t & HF != 0) == (t0 & HF != 0)
}

proof fn lemma_zero_flag_only(t: u8, v: u8)
    ensures
        (with_flag(t, ZF, v == 0) & ZF != 0) == (v == 0),
        (with_flag(t, ZF, v == 0) & CF != 0) == (t & CF != 0),
        (with_flag(t, ZF, v == 0) & IE != 0) == (t & IE != 0),
        (with_flag(t, ZF, v == 0) & VF != 0) == (t & VF != 0),
        (with_flag(t, ZF, v == 0) & HF != 0) == (t & HF != 0),
{
    lemma_with_flag(t, ZF, CF, v == 0);
    lemma_with_flag(t, ZF, IE, v == 0);
    lemma_with_flag(t, ZF, VF, v == 0);
    lemma_with_flag(t, ZF, HF, v == 0);
}

/// AND: A becomes A bitwise-and the operand (the byte at X, Y or U, at the
/// address given by the operand word, the immediate byte, or, after FD, the
/// ME1 byte at X, Y, U or the operand word); Z is set exactly when the result
/// is zero and no other flag moves.
pub proof fn law_and_operand(m: Pc1500View)
    ensures
        logic_outcome(m.cpu.t, main_effect(0x09, m), m.cpu.a & m.mem_read(m.cpu.x as u32)),
        logic_outcome(m.cpu.t, main_effect(0x19, m), m.cpu.a & m.mem_read(m.cpu.y as u32)),
        logic_outcome(m.cpu.t, main_effect(0x29, m), m.cpu.a & m.mem_read(m.cpu.u as u32)),
        logic_outcome(m.cpu.t, main_effect(0xa9, m), m.cpu.a & m.mem_read(m.op_word() as u32)),
        logic_outcome(m.cpu.t, main_effect(0xb9, m), m.cpu.a & m.mem_read(m.cpu.p as u32)),
        logic_outcome(m.cpu.t, fd_effect(0x09, m), m.cpu.a & m.mem_read(me1(m.cpu.x))),
        logic_outcome(m.cpu.t, fd_effect(0x19, m), m.cpu.a & m.mem_read(me1(m.cpu.y))),
        logic_outcome(m.cpu.t, fd_effect(0x29, m), m.cpu.a & m.mem_read(me1(m.cpu.u))),
        logic_outcome(m.cpu.t, fd_effect(0xa9, m), m.cpu.a & m.mem_read(me1(m.op_word()))),
{
    assert(logic_outcome(m.cpu.t, main_effect(0x09, m), m.cpu.a & m.mem_read(m.cpu.x as u32))) by {
        reveal(effects::effect_00);
        reveal(effects::op_09);
        lemma_zero_flag_only(m.cpu.t, m.cpu.a & m.mem_read(m.cpu.x as u32));
    }
    assert(logic_outcome(m.cpu.t, main_effect(0x19, m), m.cpu.a & m.mem_read(m.cpu.y as u32))) by {
        reveal(effects::effect_10);
        reveal(effects::op_19);
        lemma_zero_flag_only(m.cpu.t, m.cpu.a & m.mem_read(m.cpu.y as u32));
    }
    assert(logic_outcome(m.cpu.t, main_effect(0x29, m), m.cpu.a & m.mem_read(m.cpu.u as u32))) by {
        reveal(effects::effect_20);
        reveal(effects::op_29);
        lemma_zero_flag_only(m.cpu.t, m.cpu.a & m.mem_read(m.cpu.u as u32));
    }
    assert(logic_outcome(m.cpu.t, main_effect(0xa9, m), m.cpu.a & m.mem_read(m.op_word() as u32))) by {
        reveal(effects::effect_a0);
        reveal(effects::op_a9);
        lemma_zero_flag_only(m.cpu.t, m.cpu.a & m.mem_read(m.op_word() as u32));
    }
    assert(logic_outcome(m.cpu.t, main_effect(0xb9, m), m.cpu.a & m.mem_read(m.cpu.p as u32))) by {
        reveal(effects::effect_b0);
        reveal(effects::op_b9);
        lemma_zero_flag_only(m.cpu.t, m.cpu.a & m.mem_read(m.cpu.p as u32));
    }
    assert(logic_outcome(m.cpu.t, fd_effect(0x09, m), m.cpu.a & m.mem_read(me1(m.cpu.x)))) by {
        reveal(effects::effect_fd_00);
        reveal(effects::fd_op_09);
        lemma_zero_flag_only(m.cpu.t, m.cpu.a & m.mem_read(me1(m.cpu.x)));
    }
    assert(logic_outcome(m.cpu.t, fd_effect(0x19, m), m.cpu.a & m.mem_read(me1(m.cpu.y)))) by {
        reveal(effects::effect_fd_00);
        reveal(effects::fd_op_19);
        lemma_zero_flag_only(m.cpu.t, m.cpu.a & m.mem_read(me1(m.cpu.y)));
    }
    assert(logic_outcome(m.cpu.t, fd_effect(0x29, m), m.cpu.a & m.mem_read(me1(m.cpu.u)))) by {
        reveal(effects::effect_fd_20);
        reveal(effects::fd_op_29);
        lemma_zero_flag_only(m.cpu.t, m.cpu.a & m.mem_read(me1(m.cpu.u)));
    }
    assert(logic_outcome(m.cpu.t, fd_effect(0xa9, m), m.cpu.a & m.mem_read(me1(m.op_word())))) by {
        reveal(effects::effect_fd_a0);
        reveal(effects::fd_op_a9);
        lemma_zero_flag_only(m.cpu.t, m.cpu.a & m.mem_read(me1(m.op_word())));
    }
}

/// ORA: A becomes A bitwise-or the operand (the byte at X, Y or U, at the
/// address given by the operand word, the immediate byte, or, after FD, the
/// ME1 byte at X, Y, U or the operand word); Z is set exactly when the result
/// is zero and no other flag moves.
pub proof fn law_ora_operand(m: Pc1500View)
    ensures
        logic_outcome(m.cpu.t, main_effect(0x0b, m), m.cpu.a | m.mem_read(m.cpu.x as u32)),
        logic_outcome(m.cpu.t, main_effect(0x1b, m), m.cpu.a | m.mem_read(m.cpu.y as u32)),
        logic_outcome(m.cpu.t, main_effect(0x2b, m), m.cpu.a | m.mem_read(m.cpu.u as u32)),
        logic_outcome(m.cpu.t, main_effect(0xab, m), m.cpu.a | m.mem_read(m.op_word() as u32)),
        logic_outcome(m.cpu.t, main_effect(0xbb, m), m.cpu.a | m.mem_read(m.cpu.p as u32)),
        logic_outcome(m.cpu.t, fd_effect(0x0b, m), m.cpu.a | m.mem_read(me1(m.cpu.x))),
        logic_outcome(m.cpu.t, fd_effect(0x1b, m), m.cpu.a | m.mem_read(me1(m.cpu.y))),
        logic_outcome(m.cpu.t, fd_effect(0x2b, m), m.cpu.a | m.mem_read(me1(m.cpu.u))),
        logic_outcome(m.cpu.t, fd_effect(0xab, m), m.cpu.a | m.mem_read(me1(m.op_word()))),
{
    assert(logic_outcome(m.cpu.t, main_effect(0x0b, m), m.cpu.a | m.mem_read(m.cpu.x as u32))) by {
        reveal(effects::effect_00);
        reveal(effects::op_0b);
        lemma_zero_flag_only(m.cpu.t, m.cpu.a | m.mem_read(m.cpu.x as u32));
    }
    assert(logic_outcome(m.cpu.t, main_effect(0x1b, m), m.cpu.a | m.mem_read(m.cpu.y as u32))) by {
        reveal(effects::effect_10);
        reveal(effects::op_1b);
        lemma_zero_flag_only(m.cpu.t, m.cpu.a | m.mem_read(m.cpu.y as u32));
    }
    assert(logic_outcome(m.cpu.t, main_effect(0x2b, m), m.cpu.a | m.mem_read(m.cpu.u as u32))) by {
        reveal(effects::effect_20);
        reveal(effects::op_2b);
        lemma_zero_flag_only(m.cpu.t, m.cpu.a | m.mem_read(m.cpu.u as u32));
    }
    assert(logic_outcome(m.cpu.t, main_effect(0xab, m), m.cpu.a | m.mem_read(m.op_word() as u32))) by {
        reveal(effects::effect_a0);
        reveal(effects::op_ab);
        lemma_zero_flag_only(m.cpu.t, m.cpu.a | m.mem_read(m.op_word() as u32));
    }
    assert(logic_outcome(m.cpu.t, main_effect(0xbb, m), m.cpu.a | m.mem_read(m.cpu.p as u32))) by {
        reveal(effects::effect_b0);
        reveal(effects::op_bb);
        lemma_zero_flag_only(m.cpu.t, m.cpu.a | m.mem_read(m.cpu.p as u32));
    }
    assert(logic_outcome(m.cpu.t, fd_effect(0x0b, m), m.cpu.a | m.mem_read(me1(m.cpu.x)))) by {
        reveal(effects::effect_fd_00);
        reveal(effects::fd_op_0b);
        lemma_zero_flag_only(m.cpu.t, m.cpu.a | m.mem_read(me1(m.cpu.x)));
    }
    assert(logic_outcome(m.cpu.t, fd_effect(0x1b, m), m.cpu.a | m.mem_read(me1(m.cpu.y)))) by {
        reveal(effects::effect_fd_00);
        reveal(effects::fd_op_1b);
        lemma_zero_flag_only(m.cpu.t, m.cpu.a | m.mem_read(me1(m.cpu.y)));
    }
    assert(logic_outcome(m.cpu.t, fd_effect(0x2b, m), m.cpu.a | m.mem_read(me1(m.cpu.u)))) by {
        reveal(effects::effect_fd_20);
        reveal(effects::fd_op_2b);
        lemma_zero_flag_only(m.cpu.t, m.cpu.a | m.mem_read(me1(m.cpu.u)));
    }
    assert(logic_outcome(m.cpu.t, fd_effect(0xab, m), m.cpu.a | m.mem_read(me1(m.op_word())))) by {
        reveal(effects::effect_fd_a0);
        reveal(effects::fd_op_ab);
        lemma_zero_flag_only(m.cpu.t, m.cpu.a | m.mem_read(me1(m.op_word())));
    }
}

/// EOR: A becomes A bitwise-exclusive-or the operand (the byte at X, Y or U, at the
/// address given by the operand word, the immediate byte, or, after FD, the
/// ME1 byte at X, Y, U or the operand word); Z is set exactly when the result
/// is zero and no other flag moves.
pub proof fn law_eor_operand(m: Pc1500View)
    ensures
        logic_outcome(m.cpu.t, main_effect(0x0d, m), m.cpu.a ^ m.mem_read(m.cpu.x as u32)),
        logic_outcome(m.cpu.t, main_effect(0x1d, m), m.cpu.a ^ m.mem_read(m.cpu.y as u32)),
        logic_outcome(m.cpu.t, main_effect(0x2d, m), m.cpu.a ^ m.mem_read(m.cpu.u as u32)),
        logic_outcome(m.cpu.t, main_effect(0xad, m), m.cpu.a ^ m.mem_read(m.op_word() as u32)),
        logic_outcome(m.cpu.t, main_effect(0xbd, m), m.cpu.a ^ m.mem_read(m.cpu.p as u32)),
        logic_outcome(m.cpu.t, fd_effect(0x0d, m), m.cpu.a ^ m.mem_read(me1(m.cpu.x))),
        logic_outcome(m.cpu.t, fd_effect(0x1d, m), m.cpu.a ^ m.mem_read(me1(m.cpu.y))),
        logic_outcome(m.cpu.t, fd_effect(0x2d, m), m.cpu.a ^ m.mem_read(me1(m.cpu.u))),
        logic_outcome(m.cpu.t, fd_effect(0xad, m), m.cpu.a ^ m.mem_read(me1(m.op_word()))),
{
    assert(logic_outcome(m.cpu.t, main_effect(0x0d, m), m.cpu.a ^ m.mem_read(m.cpu.x as u32))) by {
        reveal(effects::effect_00);
        reveal(effects::op_0d);
        lemma_zero_flag_only(m.cpu.t, m.cpu.a ^ m.mem_read(m.cpu.x as u32));
    }
    assert(logic_outcome(m.cpu.t, main_effect(0x1d, m), m.cpu.a ^ m.mem_read(m.cpu.y as u32))) by {
        reveal(effects::effect_10);
        reveal(effects::op_1d);
        lemma_zero_flag_only(m.cpu.t, m.cpu.a ^ m.mem_read(m.cpu.y as u32));
    }
    assert(logic_outcome(m.cpu.t, main_effect(0x2d, m), m.cpu.a ^ m.mem_read(m.cpu.u as u32))) by {
        reveal(effects::effect_20);
        reveal(effects::op_2d);
        lemma_zero_flag_only(m.cpu.t, m.cpu.a ^ m.mem_read(m.cpu.u as u32));
    }
    assert(logic_outcome(m.cpu.t, main_effect(0xad, m), m.cpu.a ^ m.mem_read(m.op_word() as u32))) by {
        reveal(effects::effect_a0);
        reveal(effects::op_ad);
        lemma_zero_flag_only(m.cpu.t, m.cpu.a ^ m.mem_read(m.op_word() as u32));
    }
    assert(logic_outcome(m.cpu.t, main_effect(0xbd, m), m.cpu.a ^ m.mem_read(m.cpu.p as u32))) by {
        reveal(effects::effect_b0);
        reveal(effects::op_bd);
        lemma_zero_flag_only(m.cpu.t, m.cpu.a ^ m.mem_read(m.cpu.p as u32));
    }
    assert(logic_outcome(m.cpu.t, fd_effect(0x0d, m), m.cpu.a ^ m.mem_read(me1(m.cpu.x)))) by {
        reveal(effects::effect_fd_00);
        reveal(effects::fd_op_0d);
        lemma_zero_flag_only(m.cpu.t, m.cpu.a ^ m.mem_read(me1(m.cpu.x)));
    }
    assert(logic_outcome(m.cpu.t, fd_effect(0x1d, m), m.cpu.a ^ m.mem_read(me1(m.cpu.y)))) by {
        reveal(effects::effect_fd_00);
        reveal(effects::fd_op_1d);
        lemma_zero_flag_only(m.cpu.t, m.cpu.a ^ m.mem_read(me1(m.cpu.y)));
    }
    assert(logic_outcome(m.cpu.t, fd_effect(0x2d, m), m.cpu.a ^ m.mem_read(me1(m.cpu.u)))) by {
        reveal(effects::effect_fd_20);
        reveal(effects::fd_op_2d);
        lemma_zero_flag_only(m.cpu.t, m.cpu.a ^ m.mem_read(me1(m.cpu.u)));
    }
    assert(logic_outcome(m.cpu.t, fd_effect(0xad, m), m.cpu.a ^ m.mem_read(me1(m.op_word())))) by {
        reveal(effects::effect_fd_a0);
        reveal(effects::fd_op_ad);
        lemma_zero_flag_only(m.cpu.t, m.cpu.a ^ m.mem_read(me1(m.op_word())));
    }
}

/// The carry flag of `t` as a number.
pub open spec fn carry_in(t: u8) -> int {
    if t & CF != 0 { 1 } else { 0 }
}

/// After ADC from flags `t0` and accumulator `a0` with operand `v`.
pub open spec fn adc_outcome(t0: u8, a0: u8, after: Pc1500View, v: u8) -> bool {
    let sum = a0 + v + carry_in(t0);
    &&& after.cpu.a == sum % 256
    &&& (after.cpu.t & CF != 0) == (sum >= 256)
    &&& (after.cpu.t & HF != 0) == (a0 % 16 + v % 16 + carry_in(t0) >= 16)
    &&& (after.cpu.t & ZF != 0) == (after.cpu.a == 0)
    &&& (after.cpu.t & IE != 0) == (t0 & IE != 0)
}

/// After SBC from flags `t0` and accumulator `a0` with operand `v`.
pub open spec fn sbc_outcome(t0: u8, a0: u8, after: Pc1500View, v: u8) -> bool {
    let diff = a0 - v - (1 - carry_in(t0));
    &&& after.cpu.a == diff % 256
    &&& (after.cpu.t & CF != 0) == (diff >= 0)
    &&& (after.cpu.t & ZF != 0) == (after.cpu.a == 0)
    &&& (after.cpu.t & IE != 0) == (t0 & IE != 0)
}

/// After CPA from flags `t0` and accumulator `a0` with operand `v`.
pub open spec fn compare_outcome(t0: u8, a0: u8, after: Pc1500View, v: u8) -> bool {
    &&& after.cpu.a == a0
    &&& (after.cpu.t & ZF != 0) == (a0 == v)
    &&& (after.cpu.t & CF != 0) == (a0 >= v)
    &&& (after.cpu.t & IE != 0) == (t0 & IE != 0)
}

/// ADC: A becomes A plus the operand plus the carry, modulo 256; C is set
/// exactly when that sum reaches 256, H when the low nibbles and the carry
/// reach 16, Z when the new A is zero; IE is kept. The operand is the low
/// or high byte of X, Y or U, the byte at X, Y or U, at the operand word, the
/// immediate byte, or, after FD, the ME1 byte at X, Y, U or the operand word.
pub proof fn law_adc_operand(m: Pc1500View)
    ensures
        adc_outcome(m.cpu.t, m.cpu.a, main_effect(0x02, m), lo_byte(m.cpu.x)),
        adc_outcome(m.cpu.t, m.cpu.a, main_effect(0x03, m), m.mem_read(m.cpu.x as u32)),
        adc_outcome(m.cpu.t, m.cpu.a, main_effect(0x82, m), hi_byte(m.cpu.x)),
        adc_outcome(m.cpu.t, m.cpu.a, main_effect(0x12, m), lo_byte(m.cpu.y)),
        adc_outcome(m.cpu.t, m.cpu.a, main_effect(0x13, m), m.mem_read(m.cpu.y as u32)),
        adc_outcome(m.cpu.t, m.cpu.a, main_effect(0x92, m), hi_byte(m.cpu.y)),
        adc_outcome(m.cpu.t, m.cpu.a, main_effect(0x22, m), lo_byte(m.cpu.u)),
        adc_outcome(m.cpu.t, m.cpu.a, main_effect(0x23, m), m.mem_read(m.cpu.u as u32)),
        adc_outcome(m.cpu.t, m.cpu.a, main_effect(0xa2, m), hi_byte(m.cpu.u)),
        adc_outcome(m.cpu.t, m.cpu.a, main_effect(0xa3, m), m.mem_read(m.op_word() as u32)),
        adc_outcome(m.cpu.t, m.cpu.a, main_effect(0xb3, m), m.mem_read(m.cpu.p as u32)),
        adc_outcome(m.cpu.t, m.cpu.a, fd_effect(0x03, m), m.mem_read(me1(m.cpu.x))),
        adc_outcome(m.cpu.t, m.cpu.a, fd_effect(0x13, m), m.mem_read(me1(m.cpu.y))),
        adc_outcome(m.cpu.t, m.cpu.a, fd_effect(0x23, m), m.mem_read(me1(m.cpu.u))),
        adc_outcome(m.cpu.t, m.cpu.a, fd_effect(0xa3, m), m.mem_read(me1(m.op_word()))),
{
    assert(adc_outcome(m.cpu.t, m.cpu.a, main_effect(0x02, m), lo_byte(m.cpu.x))) by {
        reveal(effects::effect_00);
        reveal(effects::op_02);
        lemma_add_flags_bits(m.cpu.t, m.cpu.a, lo_byte(m.cpu.x), m.cpu.t & CF != 0);
    }
    assert(adc_outcome(m.cpu.t, m.cpu.a, main_effect(0x03, m), m.mem_read(m.cpu.x as u32))) by {
        reveal(effects::effect_00);
        reveal(effects::op_03);
        lemma_add_flags_bits(m.cpu.t, m.cpu.a, m.mem_read(m.cpu.x as u32), m.cpu.t & CF != 0);
    }
    assert(adc_outcome(m.cpu.t, m.cpu.a, main_effect(0x82, m), hi_byte(m.cpu.x))) by {
        reveal(effects::effect_80);
        reveal(effects::op_82);
        lemma_add_flags_bits(m.cpu.t, m.cpu.a, hi_byte(m.cpu.x), m.cpu.t & CF != 0);
    }
    assert(adc_outcome(m.cpu.t, m.cpu.a, main_effect(0x12, m), lo_byte(m.cpu.y))) by {
        reveal(effects::effect_10);
        reveal(effects::op_12);
        lemma_add_flags_bits(m.cpu.t, m.cpu.a, lo_byte(m.cpu.y), m.cpu.t & CF != 0);
    }
    assert(adc_outcome(m.cpu.t, m.cpu.a, main_effect(0x13, m), m.mem_read(m.cpu.y as u32))) by {
        reveal(effects::effect_10);
        reveal(effects::op_13);
        lemma_add_flags_bits(m.cpu.t, m.cpu.a, m.mem_read(m.cpu.y as u32), m.cpu.t & CF != 0);
    }
    assert(adc_outcome(m.cpu.t, m.cpu.a, main_effect(0x92, m), hi_byte(m.cpu.y))) by {
        reveal(effects::effect_90);
        reveal(effects::op_92);
        lemma_add_flags_bits(m.cpu.t, m.cpu.a, hi_byte(m.cpu.y), m.cpu.t & CF != 0);
    }
    assert(adc_outcome(m.cpu.t, m.cpu.a, main_effect(0x22, m), lo_byte(m.cpu.u))) by {
        reveal(effects::effect_20);
        reveal(effects::op_22);
        lemma_add_flags_bits(m.cpu.t, m.cpu.a, lo_byte(m.cpu.u), m.cpu.t & CF != 0);
    }
    assert(adc_outcome(m.cpu.t, m.cpu.a, main_effect(0x23, m), m.mem_read(m.cpu.u as u32))) by {
        reveal(effects::effect_20);
        reveal(effects::op_23);
        lemma_add_flags_bits(m.cpu.t, m.cpu.a, m.mem_read(m.cpu.u as u32), m.cpu.t & CF != 0);
    }
    assert(adc_outcome(m.cpu.t, m.cpu.a, main_effect(0xa2, m), hi_byte(m.cpu.u))) by {
        reveal(effects::effect_a0);
        reveal(effects::op_a2);
        lemma_add_flags_bits(m.cpu.t, m.cpu.a, hi_byte(m.cpu.u), m.cpu.t & CF != 0);
    }
    assert(adc_outcome(m.cpu.t, m.cpu.a, main_effect(0xa3, m), m.mem_read(m.op_word() as u32))) by {
        reveal(effects::effect_a0);
        reveal(effects::op_a3);
        lemma_add_flags_bits(m.cpu.t, m.cpu.a, m.mem_read(m.op_word() as u32), m.cpu.t & CF != 0);
    }
    assert(adc_outcome(m.cpu.t, m.cpu.a, main_effect(0xb3, m), m.mem_read(m.cpu.p as u32))) by {
        reveal(effects::effect_b0);
        reveal(effects::op_b3);
        lemma_add_flags_bits(m.cpu.t, m.cpu.a, m.mem_read(m.cpu.p as u32), m.cpu.t & CF != 0);
    }
    assert(adc_outcome(m.cpu.t, m.cpu.a, fd_effect(0x03, m), m.mem_read(me1(m.cpu.x)))) by {
        reveal(effects::effect_fd_00);
        reveal(effects::fd_op_03);
        lemma_add_flags_bits(m.cpu.t, m.cpu.a, m.mem_read(me1(m.cpu.x)), m.cpu.t & CF != 0);
    }
    assert(adc_outcome(m.cpu.t, m.cpu.a, fd_effect(0x13, m), m.mem_read(me1(m.cpu.y)))) by {
        reveal(effects::effect_fd_00);
        reveal(effects::fd_op_13);
        lemma_add_flags_bits(m.cpu.t, m.cpu.a, m.mem_read(me1(m.cpu.y)), m.cpu.t & CF != 0);
    }
    assert(adc_outcome(m.cpu.t, m.cpu.a, fd_effect(0x23, m), m.mem_read(me1(m.cpu.u)))) by {
        reveal(effects::effect_fd_20);
        reveal(effects::fd_op_23);
        lemma_add_flags_bits(m.cpu.t, m.cpu.a, m.mem_read(me1(m.cpu.u)), m.cpu.t & CF != 0);
    }
    assert(adc_outcome(m.cpu.t, m.cpu.a, fd_effect(0xa3, m), m.mem_read(me1(m.op_word())))) by {
        reveal(effects::effect_fd_a0);
        reveal(effects::fd_op_a3);
        lemma_add_flags_bits(m.cpu.t, m.cpu.a, m.mem_read(me1(m.op_word())), m.cpu.t & CF != 0);
    }
}

/// SBC: A becomes A minus the operand minus the borrow (C clear), modulo
/// 256; C is set exactly when no borrow occurred, Z when the new A is zero;
/// IE is kept. Operands as for ADC.
pub proof fn law_sbc_operand(m: Pc1500View)
    ensures
        sbc_outcome(m.cpu.t, m.cpu.a, main_effect(0x00, m), lo_byte(m.cpu.x)),
        sbc_outcome(m.cpu.t, m.cpu.a, main_effect(0x01, m), m.mem_read(m.cpu.x as u32)),
        sbc_outcome(m.cpu.t, m.cpu.a, main_effect(0x80, m), hi_byte(m.cpu.x)),
        sbc_outcome(m.cpu.t, m.cpu.a, main_effect(0x10, m), lo_byte(m.cpu.y)),
        sbc_outcome(m.cpu.t, m.cpu.a, main_effect(0x11, m), m.mem_read(m.cpu.y as u32)),
        sbc_outcome(m.cpu.t, m.cpu.a, main_effect(0x90, m), hi_byte(m.cpu.y)),
        sbc_outcome(m.cpu.t, m.cpu.a, main_effect(0x20, m), lo_byte(m.cpu.u)),
        sbc_outcome(m.cpu.t, m.cpu.a, main_effect(0x21, m), m.mem_read(m.cpu.u as u32)),
        sbc_outcome(m.cpu.t, m.cpu.a, main_effect(0xa0, m), hi_byte(m.cpu.u)),
        sbc_outcome(m.cpu.t, m.cpu.a, main_effect(0xa1, m), m.mem_read(m.op_word() as u32)),
        sbc_outcome(m.cpu.t, m.cpu.a, main_effect(0xb1, m), m.mem_read(m.cpu.p as u32)),
        sbc_outcome(m.cpu.t, m.cpu.a, fd_effect(0x01, m), m.mem_read(me1(m.cpu.x))),
        sbc_outcome(m.cpu.t, m.cpu.a, fd_effect(0x11, m), m.mem_read(me1(m.cpu.y))),
        sbc_outcome(m.cpu.t, m.cpu.a, fd_effect(0x21, m), m.mem_read(me1(m.cpu.u))),
        sbc_outcome(m.cpu.t, m.cpu.a, fd_effect(0xa1, m), m.mem_read(me1(m.op_word()))),
{
    assert(sbc_outcome(m.cpu.t, m.cpu.a, main_effect(0x00, m), lo_byte(m.cpu.x))) by {
        reveal(effects::effect_00);
        reveal(effects::op_00);
        lemma_add_flags_bits(m.cpu.t, m.cpu.a, lo_byte(m.cpu.x) ^ 0xff, m.cpu.t & CF != 0);
        lemma_sbc_subtracts(m.cpu.a, lo_byte(m.cpu.x), m.cpu.t & CF != 0, m.cpu.t);
    }
    assert(sbc_outcome(m.cpu.t, m.cpu.a, main_effect(0x01, m), m.mem_read(m.cpu.x as u32))) by {
        reveal(effects::effect_00);
        reveal(effects::op_01);
        lemma_add_flags_bits(m.cpu.t, m.cpu.a, m.mem_read(m.cpu.x as u32) ^ 0xff, m.cpu.t & CF != 0);
        lemma_sbc_subtracts(m.cpu.a, m.mem_read(m.cpu.x as u32), m.cpu.t & CF != 0, m.cpu.t);
    }
    assert(sbc_outcome(m.cpu.t, m.cpu.a, main_effect(0x80, m), hi_byte(m.cpu.x))) by {
        reveal(effects::effect_80);
        reveal(effects::op_80);
        lemma_add_flags_bits(m.cpu.t, m.cpu.a, hi_byte(m.cpu.x) ^ 0xff, m.cpu.t & CF != 0);
        lemma_sbc_subtracts(m.cpu.a, hi_byte(m.cpu.x), m.cpu.t & CF != 0, m.cpu.t);
    }
    assert(sbc_outcome(m.cpu.t, m.cpu.a, main_effect(0x10, m), lo_byte(m.cpu.y))) by {
        reveal(effects::effect_10);
        reveal(effects::op_10);
        lemma_add_flags_bits(m.cpu.t, m.cpu.a, lo_byte(m.cpu.y) ^ 0xff, m.cpu.t & CF != 0);
        lemma_sbc_subtracts(m.cpu.a, lo_byte(m.cpu.y), m.cpu.t & CF != 0, m.cpu.t);
    }
    assert(sbc_outcome(m.cpu.t, m.cpu.a, main_effect(0x11, m), m.mem_read(m.cpu.y as u32))) by {
        reveal(effects::effect_10);
        reveal(effects::op_11);
        lemma_add_flags_bits(m.cpu.t, m.cpu.a, m.mem_read(m.cpu.y as u32) ^ 0xff, m.cpu.t & CF != 0);
        lemma_sbc_subtracts(m.cpu.a, m.mem_read(m.cpu.y as u32), m.cpu.t & CF != 0, m.cpu.t);
    }
    assert(sbc_outcome(m.cpu.t, m.cpu.a, main_effect(0x90, m), hi_byte(m.cpu.y))) by {
        reveal(effects::effect_90);
        reveal(effects::op_90);
        lemma_add_flags_bits(m.cpu.t, m.cpu.a, hi_byte(m.cpu.y) ^ 0xff, m.cpu.t & CF != 0);
        lemma_sbc_subtracts(m.cpu.a, hi_byte(m.cpu.y), m.cpu.t & CF != 0, m.cpu.t);
    }
    assert(sbc_outcome(m.cpu.t, m.cpu.a, main_effect(0x20, m), lo_byte(m.cpu.u))) by {
        reveal(effects::effect_20);
        reveal(effects::op_20);
        lemma_add_flags_bits(m.cpu.t, m.cpu.a, lo_byte(m.cpu.u) ^ 0xff, m.cpu.t & CF != 0);
        lemma_sbc_subtracts(m.cpu.a, lo_byte(m.cpu.u), m.cpu.t & CF != 0, m.cpu.t);
    }
    assert(sbc_outcome(m.cpu.t, m.cpu.a, main_effect(0x21, m), m.mem_read(m.cpu.u as u32))) by {
        reveal(effects::effect_20);
        reveal(effects::op_21);
        lemma_add_flags_bits(m.cpu.t, m.cpu.a, m.mem_read(m.cpu.u as u32) ^ 0xff, m.cpu.t & CF != 0);
        lemma_sbc_subtracts(m.cpu.a, m.mem_read(m.cpu.u as u32), m.cpu.t & CF != 0, m.cpu.t);
    }
    assert(sbc_outcome(m.cpu.t, m.cpu.a, main_effect(0xa0, m), hi_byte(m.cpu.u))) by {
        reveal(effects::effect_a0);
        reveal(effects::op_a0);
        lemma_add_flags_bits(m.cpu.t, m.cpu.a, hi_byte(m.cpu.u) ^ 0xff, m.cpu.t & CF != 0);
        lemma_sbc_subtracts(m.cpu.a, hi_byte(m.cpu.u), m.cpu.t & CF != 0, m.cpu.t);
    }
    assert(sbc_outcome(m.cpu.t, m.cpu.a, main_effect(0xa1, m), m.mem_read(m.op_word() as u32))) by {
        reveal(effects::effect_a0);
        reveal(effects::op_a1);
        lemma_add_flags_bits(m.cpu.t, m.cpu.a, m.mem_read(m.op_word() as u32) ^ 0xff, m.cpu.t & CF != 0);
        lemma_sbc_subtracts(m.cpu.a, m.mem_read(m.op_word() as u32), m.cpu.t & CF != 0, m.cpu.t);
    }
    assert(sbc_outcome(m.cpu.t, m.cpu.a, main_effect(0xb1, m), m.mem_read(m.cpu.p as u32))) by {
        reveal(effects::effect_b0);
        reveal(effects::op_b1);
        lemma_add_flags_bits(m.cpu.t, m.cpu.a, m.mem_read(m.cpu.p as u32) ^ 0xff, m.cpu.t & CF != 0);
        lemma_sbc_subtracts(m.cpu.a, m.mem_read(m.cpu.p as u32), m.cpu.t & CF != 0, m.cpu.t);
    }
    assert(sbc_outcome(m.cpu.t, m.cpu.a, fd_effect(0x01, m), m.mem_read(me1(m.cpu.x)))) by {
        reveal(effects::effect_fd_00);
        reveal(effects::fd_op_01);
        lemma_add_flags_bits(m.cpu.t, m.cpu.a, m.mem_read(me1(m.cpu.x)) ^ 0xff, m.cpu.t & CF != 0);
        lemma_sbc_subtracts(m.cpu.a, m.mem_read(me1(m.cpu.x)), m.cpu.t & CF != 0, m.cpu.t);
    }
    assert(sbc_outcome(m.cpu.t, m.cpu.a, fd_effect(0x11, m), m.mem_read(me1(m.cpu.y)))) by {
        reveal(effects::effect_fd_00);
        reveal(effects::fd_op_11);
        lemma_add_flags_bits(m.cpu.t, m.cpu.a, m.mem_read(me1(m.cpu.y)) ^ 0xff, m.cpu.t & CF != 0);
        lemma_sbc_subtracts(m.cpu.a, m.mem_read(me1(m.cpu.y)), m.cpu.t & CF != 0, m.cpu.t);
    }
    assert(sbc_outcome(m.cpu.t, m.cpu.a, fd_effect(0x21, m), m.mem_read(me1(m.cpu.u)))) by {
        reveal(effects::effect_fd_20);
        reveal(effects::fd_op_21);
        lemma_add_flags_bits(m.cpu.t, m.cpu.a, m.mem_read(me1(m.cpu.u)) ^ 0xff, m.cpu.t & CF != 0);
        lemma_sbc_subtracts(m.cpu.a, m.mem_read(me1(m.cpu.u)), m.cpu.t & CF != 0, m.cpu.t);
    }
    assert(sbc_outcome(m.cpu.t, m.cpu.a, fd_effect(0xa1, m), m.mem_read(me1(m.op_word())))) by {
        reveal(effects::effect_fd_a0);
        reveal(effects::fd_op_a1);
        lemma_add_flags_bits(m.cpu.t, m.cpu.a, m.mem_read(me1(m.op_word())) ^ 0xff, m.cpu.t & CF != 0);
        lemma_sbc_subtracts(m.cpu.a, m.mem_read(me1(m.op_word())), m.cpu.t & CF != 0, m.cpu.t);
    }
}

/// LDA: A becomes the operand; Z is set exactly when it is zero and no other
/// flag moves. Operands as for ADC.
pub proof fn law_lda_operand(m: Pc1500View)
    ensures
        logic_outcome(m.cpu.t, main_effect(0x04, m), lo_byte(m.cpu.x)),
        logic_outcome(m.cpu.t, main_effect(0x05, m), m.mem_read(m.cpu.x as u32)),
        logic_outcome(m.cpu.t, main_effect(0x84, m), hi_byte(m.cpu.x)),
        logic_outcome(m.cpu.t, main_effect(0x14, m), lo_byte(m.cpu.y)),
        logic_outcome(m.cpu.t, main_effect(0x15, m), m.mem_read(m.cpu.y as u32)),
        logic_outcome(m.cpu.t, main_effect(0x94, m), hi_byte(m.cpu.y)),
        logic_outcome(m.cpu.t, main_effect(0x24, m), lo_byte(m.cpu.u)),
        logic_outcome(m.cpu.t, main_effect(0x25, m), m.mem_read(m.cpu.u as u32)),
        logic_outcome(m.cpu.t, main_effect(0xa4, m), hi_byte(m.cpu.u)),
        logic_outcome(m.cpu.t, main_effect(0xa5, m), m.mem_read(m.op_word() as u32)),
        logic_outcome(m.cpu.t, main_effect(0xb5, m), m.mem_read(m.cpu.p as u32)),
        logic_outcome(m.cpu.t, fd_effect(0x05, m), m.mem_read(me1(m.cpu.x))),
        logic_outcome(m.cpu.t, fd_effect(0x15, m), m.mem_read(me1(m.cpu.y))),
        logic_outcome(m.cpu.t, fd_effect(0x25, m), m.mem_read(me1(m.cpu.u))),
        logic_outcome(m.cpu.t, fd_effect(0xa5, m), m.mem_read(me1(m.op_word()))),
{
    assert(logic_outcome(m.cpu.t, main_effect(0x04, m), lo_byte(m.cpu.x))) by {
        reveal(effects::effect_00);
        reveal(effects::op_04);
        lemma_zero_flag_only(m.cpu.t, lo_byte(m.cpu.x));
    }
    assert(logic_outcome(m.cpu.t, main_effect(0x05, m), m.mem_read(m.cpu.x as u32))) by {
        reveal(effects::effect_00);
        reveal(effects::op_05);
        lemma_zero_flag_only(m.cpu.t, m.mem_read(m.cpu.x as u32));
    }
    assert(logic_outcome(m.cpu.t, main_effect(0x84, m), hi_byte(m.cpu.x))) by {
        reveal(effects::effect_80);
        reveal(effects::op_84);
        lemma_zero_flag_only(m.cpu.t, hi_byte(m.cpu.x));
    }
    assert(logic_outcome(m.cpu.t, main_effect(0x14, m), lo_byte(m.cpu.y))) by {
        reveal(effects::effect_10);
        reveal(effects::op_14);
        lemma_zero_flag_only(m.cpu.t, lo_byte(m.cpu.y));
    }
    assert(logic_outcome(m.cpu.t, main_effect(0x15, m), m.mem_read(m.cpu.y as u32))) by {
        reveal(effects::effect_10);
        reveal(effects::op_15);
        lemma_zero_flag_only(m.cpu.t, m.mem_read(m.cpu.y as u32));
    }
    assert(logic_outcome(m.cpu.t, main_effect(0x94, m), hi_byte(m.cpu.y))) by {
        reveal(effects::effect_90);
        reveal(effects::op_94);
        lemma_zero_flag_only(m.cpu.t, hi_byte(m.cpu.y));
    }
    assert(logic_outcome(m.cpu.t, main_effect(0x24, m), lo_byte(m.cpu.u))) by {
        reveal(effects::effect_20);
        reveal(effects::op_24);
        lemma_zero_flag_only(m.cpu.t, lo_byte(m.cpu.u));
    }
    assert(logic_outcome(m.cpu.t, main_effect(0x25, m), m.mem_read(m.cpu.u as u32))) by {
        reveal(effects::effect_20);
        reveal(effects::op_25);
        lemma_zero_flag_only(m.cpu.t, m.mem_read(m.cpu.u as u32));
    }
    assert(logic_outcome(m.cpu.t, main_effect(0xa4, m), hi_byte(m.cpu.u))) by {
        reveal(effects::effect_a0);
        reveal(effects::op_a4);
        lemma_zero_flag_only(m.cpu.t, hi_byte(m.cpu.u));
    }
    assert(logic_outcome(m.cpu.t, main_effect(0xa5, m), m.mem_read(m.op_word() as u32))) by {
        reveal(effects::effect_a0);
        reveal(effects::op_a5);
        lemma_zero_flag_only(m.cpu.t, m.mem_read(m.op_word() as u32));
    }
    assert(logic_outcome(m.cpu.t, main_effect(0xb5, m), m.mem_read(m.cpu.p as u32))) by {
        reveal(effects::effect_b0);
        reveal(effects::op_b5);
        lemma_zero_flag_only(m.cpu.t, m.mem_read(m.cpu.p as u32));
    }
    assert(logic_outcome(m.cpu.t, fd_effect(0x05, m), m.mem_read(me1(m.cpu.x)))) by {
        reveal(effects::effect_fd_00);
        reveal(effects::fd_op_05);
        lemma_zero_flag_only(m.cpu.t, m.mem_read(me1(m.cpu.x)));
    }
    assert(logic_outcome(m.cpu.t, fd_effect(0x15, m), m.mem_read(me1(m.cpu.y)))) by {
        reveal(effects::effect_fd_00);
        reveal(effects::fd_op_15);
        lemma_zero_flag_only(m.cpu.t, m.mem_read(me1(m.cpu.y)));
    }
    assert(logic_outcome(m.cpu.t, fd_effect(0x25, m), m.mem_read(me1(m.cpu.u)))) by {
        reveal(effects::effect_fd_20);
        reveal(effects::fd_op_25);
        lemma_zero_flag_only(m.cpu.t, m.mem_read(me1(m.cpu.u)));
    }
    assert(logic_outcome(m.cpu.t, fd_effect(0xa5, m), m.mem_read(me1(m.op_word())))) by {
        reveal(effects::effect_fd_a0);
        reveal(effects::fd_op_a5);
        lemma_zero_flag_only(m.cpu.t, m.mem_read(me1(m.op_word())));
    }
}

/// CPA: A is compared with the operand and kept; Z is set exactly when they
/// are equal and C exactly when A is not below the operand. Operands as for
/// ADC.
pub proof fn law_cpa_operand(m: Pc1500View)
    ensures
        compare_outcome(m.cpu.t, m.cpu.a, main_effect(0x06, m), lo_byte(m.cpu.x)),
        compare_outcome(m.cpu.t, m.cpu.a, main_effect(0x07, m), m.mem_read(m.cpu.x as u32)),
        compare_outcome(m.cpu.t, m.cpu.a, main_effect(0x86, m), hi_byte(m.cpu.x)),
        compare_outcome(m.cpu.t, m.cpu.a, main_effect(0x16, m), lo_byte(m.cpu.y)),
        compare_outcome(m.cpu.t, m.cpu.a, main_effect(0x17, m), m.mem_read(m.cpu.y as u32)),
        compare_outcome(m.cpu.t, m.cpu.a, main_effect(0x96, m), hi_byte(m.cpu.y)),
        compare_outcome(m.cpu.t, m.cpu.a, main_effect(0x26, m), lo_byte(m.cpu.u)),
        compare_outcome(m.cpu.t, m.cpu.a, main_effect(0x27, m), m.mem_read(m.cpu.u as u32)),
        compare_outcome(m.cpu.t, m.cpu.a, main_effect(0xa6, m), hi_byte(m.cpu.u)),
        compare_outcome(m.cpu.t, m.cpu.a, main_effect(0xa7, m), m.mem_read(m.op_word() as u32)),
        compare_outcome(m.cpu.t, m.cpu.a, main_effect(0xb7, m), m.mem_read(m.cpu.p as u32)),
        compare_outcome(m.cpu.t, m.cpu.a, fd_effect(0x07, m), m.mem_read(me1(m.cpu.x))),
        compare_outcome(m.cpu.t, m.cpu.a, fd_effect(0x17, m), m.mem_read(me1(m.cpu.y))),
        compare_outcome(m.cpu.t, m.cpu.a, fd_effect(0x27, m), m.mem_read(me1(m.cpu.u))),
        compare_outcome(m.cpu.t, m.cpu.a, fd_effect(0xa7, m), m.mem_read(me1(m.op_word()))),
{
    assert(compare_outcome(m.cpu.t, m.cpu.a, main_effect(0x06, m), lo_byte(m.cpu.x))) by {
        reveal(effects::effect_00);
        reveal(effects::op_06);
        lemma_add_flags_bits(m.cpu.t, m.cpu.a, lo_byte(m.cpu.x) ^ 0xff, true);
        lemma_cpa_compares(m.cpu.a, lo_byte(m.cpu.x), m.cpu.t);
    }
    assert(compare_outcome(m.cpu.t, m.cpu.a, main_effect(0x07, m), m.mem_read(m.cpu.x as u32))) by {
        reveal(effects::effect_00);
        reveal(effects::op_07);
        lemma_add_flags_bits(m.cpu.t, m.cpu.a, m.mem_read(m.cpu.x as u32) ^ 0xff, true);
        lemma_cpa_compares(m.cpu.a, m.mem_read(m.cpu.x as u32), m.cpu.t);
    }
    assert(compare_outcome(m.cpu.t, m.cpu.a, main_effect(0x86, m), hi_byte(m.cpu.x))) by {
        reveal(effects::effect_80);
        reveal(effects::op_86);
        lemma_add_flags_bits(m.cpu.t, m.cpu.a, hi_byte(m.cpu.x) ^ 0xff, true);
        lemma_cpa_compares(m.cpu.a, hi_byte(m.cpu.x), m.cpu.t);
    }
    assert(compare_outcome(m.cpu.t, m.cpu.a, main_effect(0x16, m), lo_byte(m.cpu.y))) by {
        reveal(effects::effect_10);
        reveal(effects::op_16);
        lemma_add_flags_bits(m.cpu.t, m.cpu.a, lo_byte(m.cpu.y) ^ 0xff, true);
        lemma_cpa_compares(m.cpu.a, lo_byte(m.cpu.y), m.cpu.t);
    }
    assert(compare_outcome(m.cpu.t, m.cpu.a, main_effect(0x17, m), m.mem_read(m.cpu.y as u32))) by {
        reveal(effects::effect_10);
        reveal(effects::op_17);
        lemma_add_flags_bits(m.cpu.t, m.cpu.a, m.mem_read(m.cpu.y as u32) ^ 0xff, true);
        lemma_cpa_compares(m.cpu.a, m.mem_read(m.cpu.y as u32), m.cpu.t);
    }
    assert(compare_outcome(m.cpu.t, m.cpu.a, main_effect(0x96, m), hi_byte(m.cpu.y))) by {
        reveal(effects::effect_90);
        reveal(effects::op_96);
        lemma_add_flags_bits(m.cpu.t, m.cpu.a, hi_byte(m.cpu.y) ^ 0xff, true);
        lemma_cpa_compares(m.cpu.a, hi_byte(m.cpu.y), m.cpu.t);
    }
    assert(compare_outcome(m.cpu.t, m.cpu.a, main_effect(0x26, m), lo_byte(m.cpu.u))) by {
        reveal(effects::effect_20);
        reveal(effects::op_26);
        lemma_add_flags_bits(m.cpu.t, m.cpu.a, lo_byte(m.cpu.u) ^ 0xff, true);
        lemma_cpa_compares(m.cpu.a, lo_byte(m.cpu.u), m.cpu.t);
    }
    assert(compare_outcome(m.cpu.t, m.cpu.a, main_effect(0x27, m), m.mem_read(m.cpu.u as u32))) by {
        reveal(effects::effect_20);
        reveal(effects::op_27);
        lemma_add_flags_bits(m.cpu.t, m.cpu.a, m.mem_read(m.cpu.u as u32) ^ 0xff, true);
        lemma_cpa_compares(m.cpu.a, m.mem_read(m.cpu.u as u32), m.cpu.t);
    }
    assert(compare_outcome(m.cpu.t, m.cpu.a, main_effect(0xa6, m), hi_byte(m.cpu.u))) by {
        reveal(effects::effect_a0);
        reveal(effects::op_a6);
        lemma_add_flags_bits(m.cpu.t, m.cpu.a, hi_byte(m.cpu.u) ^ 0xff, true);
        lemma_cpa_compares(m.cpu.a, hi_byte(m.cpu.u), m.cpu.t);
    }
    assert(compare_outcome(m.cpu.t, m.cpu.a, main_effect(0xa7, m), m.mem_read(m.op_word() as u32))) by {
        reveal(effects::effect_a0);
        reveal(effects::op_a7);
        lemma_add_flags_bits(m.cpu.t, m.cpu.a, m.mem_read(m.op_word() as u32) ^ 0xff, true);
        lemma_cpa_compares(m.cpu.a, m.mem_read(m.op_word() as u32), m.cpu.t);
    }
    assert(compare_outcome(m.cpu.t, m.cpu.a, main_effect(0xb7, m), m.mem_read(m.cpu.p as u32))) by {
        reveal(effects::effect_b0);
        reveal(effects::op_b7);
        lemma_add_flags_bits(m.cpu.t, m.cpu.a, m.mem_read(m.cpu.p as u32) ^ 0xff, true);
        lemma_cpa_compares(m.cpu.a, m.mem_read(m.cpu.p as u32), m.cpu.t);
    }
    assert(compare_outcome(m.cpu.t, m.cpu.a, fd_effect(0x07, m), m.mem_read(me1(m.cpu.x)))) by {
        reveal(effects::effect_fd_00);
        reveal(effects::fd_op_07);
        lemma_add_flags_bits(m.cpu.t, m.cpu.a, m.mem_read(me1(m.cpu.x)) ^ 0xff, true);
        lemma_cpa_compares(m.cpu.a, m.mem_read(me1(m.cpu.x)), m.cpu.t);
    }
    assert(compare_outcome(m.cpu.t, m.cpu.a, fd_effect(0x17, m), m.mem_read(me1(m.cpu.y)))) by {
        reveal(effects::effect_fd_00);
        reveal(effects::fd_op_17);
        lemma_add_flags_bits(m.cpu.t, m.cpu.a, m.mem_read(me1(m.cpu.y)) ^ 0xff, true);
        lemma_cpa_compares(m.cpu.a, m.mem_read(me1(m.cpu.y)), m.cpu.t);
    }
    assert(compare_outcome(m.cpu.t, m.cpu.a, fd_effect(0x27, m), m.mem_read(me1(m.cpu.u)))) by {
        reveal(effects::effect_fd_20);
        reveal(effects::fd_op_27);
        lemma_add_flags_bits(m.cpu.t, m.cpu.a, m.mem_read(me1(m.cpu.u)) ^ 0xff, true);
        lemma_cpa_compares(m.cpu.a, m.mem_read(me1(m.cpu.u)), m.cpu.t);
    }
    assert(compare_outcome(m.cpu.t, m.cpu.a, fd_effect(0xa7, m), m.mem_read(me1(m.op_word())))) by {
        reveal(effects::effect_fd_a0);
        reveal(effects::fd_op_a7);
        lemma_add_flags_bits(m.cpu.t, m.cpu.a, m.mem_read(me1(m.op_word())) ^ 0xff, true);
        lemma_cpa_compares(m.cpu.a, m.mem_read(me1(m.op_word())), m.cpu.t);
    }
}

/// After a shift or rotate of A from flags `t0`: A holds `a`, C is `c`, Z
/// says whether `a` is zero and IE is kept.
pub open spec fn shift_outcome(t0: u8, after: Pc1500View, a: u8, c: bool) -> bool {
    &&& after.cpu.a == a
    &&& (after.cpu.t & CF != 0) == c
    &&& (after.cpu.t & ZF != 0) == (a == 0)
    &&& (after.cpu.t & IE != 0) == (t0 & IE != 0)
}

proof fn lemma_shift_flags(t: u8, c: bool, z: bool, h: bool, v: bool)
    ensures
        (shift_flags(t, c, z, h, v) & CF != 0) == c,
        (shift_flags(t, c, z, h, v) & ZF != 0) == z,
        (shift_flags(t, c, z, h, v) & IE != 0) == (t & IE != 0),
{
    let t1 = with_flag(t, CF, c);
    let t2 = with_flag(t1, ZF, z);
    let t3 = with_flag(t2, HF, h);
    lemma_with_flag(t, CF, IE, c);
    lemma_with_flag(t1, ZF, CF, z);
    lemma_with_flag(t1, ZF, IE, z);
    lemma_with_flag(t2, HF, CF, h);
    lemma_with_flag(t2, HF, ZF, h);
    lemma_with_flag(t2, HF, IE, h);
    lemma_with_flag(t3, VF, CF, v);
    lemma_with_flag(t3, VF, ZF, v);
    lemma_with_flag(t3, VF, IE, v);
}

/// Shifts and rotates of A: SHR (0xD5) moves every bit down one place and
/// bit 0 into C; ROR (0xD1) does the same with the old C entering bit 7; SHL
/// (0xD9) moves every bit up one place and bit 7 into C; ROL (0xDB) does the
/// same with the old C entering bit 0. Z follows the new A; IE is kept.
pub proof fn law_shift_rotate(m: Pc1500View)
    ensures
        shift_outcome(m.cpu.t, main_effect(0xd5, m), m.cpu.a >> 1u8, m.cpu.a & 0x01 != 0),
        shift_outcome(m.cpu.t, main_effect(0xd1, m),
            (m.cpu.a >> 1u8) | (if m.cpu.t & CF != 0 { 0x80u8 } else { 0u8 }), m.cpu.a & 0x01 != 0),
        shift_outcome(m.cpu.t, main_effect(0xd9, m), ((m.cpu.a as u16) << 1u16) as u8, m.cpu.a & 0x80 != 0),
        shift_outcome(m.cpu.t, main_effect(0xdb, m),
            (((m.cpu.a as u16) << 1u16) as u8) | (if m.cpu.t & CF != 0 { 1u8 } else { 0u8 }), m.cpu.a & 0x80 != 0),
{
    let a = m.cpu.a;
    let t = m.cpu.t;
    reveal(effects::effect_d0);
    assert(shift_outcome(t, main_effect(0xd5, m), a >> 1u8, a & 0x01 != 0)) by {
        reveal(effects::op_d5);
        let r = a >> 1u8;
        lemma_shift_flags(t, a & 0x01 != 0, r == 0, r & 0x08 != 0, shr_v(a, r));
    }
    assert(shift_outcome(t, main_effect(0xd1, m), (a >> 1u8) | (if t & CF != 0 { 0x80u8 } else { 0u8 }), a & 0x01 != 0)) by {
        reveal(effects::op_d1);
        let r = ror_result(a, t & CF != 0);
        lemma_shift_flags(t, a & 0x01 != 0, r == 0, r & 0x08 != 0, shr_v(a, r));
    }
    assert(shift_outcome(t, main_effect(0xd9, m), ((a as u16) << 1u16) as u8, a & 0x80 != 0)) by {
        reveal(effects::op_d9);
        let r = ((a as u16) << 1u16) as u8;
        lemma_shift_flags(t, a & 0x80 != 0, r == 0, a & 0x08 != 0, a >= 0x40 && a < 0xc0);
    }
    assert(shift_outcome(t, main_effect(0xdb, m), (((a as u16) << 1u16) as u8) | (if t & CF != 0 { 1u8 } else { 0u8 }), a & 0x80 != 0)) by {
        reveal(effects::op_db);
        let r = rol_result(a, t & CF != 0);
        lemma_shift_flags(t, a & 0x80 != 0, r == 0, r & 0x10 != 0, a >= 0x40 && a < 0xc0);
    }
}

/// `a` is a RAM address of the main memory map.
pub open spec fn in_main_ram(a: u32) -> bool {
    (0x4000 <= a <= 0x57FF) || (0x7600 <= a <= 0x7FFF)
}

/// Stores of A: 0x0A, 0x1A and 0x2A put A in the low byte of X, Y or U and
/// 0x08, 0x18 and 0x28 in the high byte, the other byte kept; 0x0E, 0x1E,
/// 0x2E and 0xAE write A to the byte at X, Y, U or the operand word, which
/// then reads back as A where it is RAM. A and the flags are unchanged.
pub proof fn law_store_a(m: Pc1500View)
    requires
        m.wf(),
    ensures
        lo_byte(main_effect(0x0a, m).cpu.x) == m.cpu.a && hi_byte(main_effect(0x0a, m).cpu.x) == hi_byte(m.cpu.x),
        lo_byte(main_effect(0x1a, m).cpu.y) == m.cpu.a && hi_byte(main_effect(0x1a, m).cpu.y) == hi_byte(m.cpu.y),
        lo_byte(main_effect(0x2a, m).cpu.u) == m.cpu.a && hi_byte(main_effect(0x2a, m).cpu.u) == hi_byte(m.cpu.u),
        hi_byte(main_effect(0x08, m).cpu.x) == m.cpu.a && lo_byte(main_effect(0x08, m).cpu.x) == lo_byte(m.cpu.x),
        hi_byte(main_effect(0x18, m).cpu.y) == m.cpu.a && lo_byte(main_effect(0x18, m).cpu.y) == lo_byte(m.cpu.y),
        hi_byte(main_effect(0x28, m).cpu.u) == m.cpu.a && lo_byte(main_effect(0x28, m).cpu.u) == lo_byte(m.cpu.u),
        in_main_ram(m.cpu.x as u32) ==> main_effect(0x0e, m).mem_read(m.cpu.x as u32) == m.cpu.a,
        in_main_ram(m.cpu.y as u32) ==> main_effect(0x1e, m).mem_read(m.cpu.y as u32) == m.cpu.a,
        in_main_ram(m.cpu.u as u32) ==> main_effect(0x2e, m).mem_read(m.cpu.u as u32) == m.cpu.a,
        in_main_ram(m.op_word() as u32) ==> main_effect(0xae, m).mem_read(m.op_word() as u32) == m.cpu.a,
        main_effect(0x0e, m).cpu.a == m.cpu.a && main_effect(0x0e, m).cpu.t == m.cpu.t,
        main_effect(0xae, m).cpu.a == m.cpu.a && main_effect(0xae, m).cpu.t == m.cpu.t,
{
    let a = m.cpu.a;
    assert(lo_byte(main_effect(0x0a, m).cpu.x) == a && hi_byte(main_effect(0x0a, m).cpu.x) == hi_byte(m.cpu.x)) by {
        reveal(effects::effect_00);
        reveal(effects::op_0a);
        lemma_byte_halves(m.cpu.x, a);
    }
    assert(lo_byte(main_effect(0x1a, m).cpu.y) == a && hi_byte(main_effect(0x1a, m).cpu.y) == hi_byte(m.cpu.y)) by {
        reveal(effects::effect_10);
        reveal(effects::op_1a);
        lemma_byte_halves(m.cpu.y, a);
    }
    assert(lo_byte(main_effect(0x2a, m).cpu.u) == a && hi_byte(main_effect(0x2a, m).cpu.u) == hi_byte(m.cpu.u)) by {
        reveal(effects::effect_20);
        reveal(effects::op_2a);
        lemma_byte_halves(m.cpu.u, a);
    }
    assert(hi_byte(main_effect(0x08, m).cpu.x) == a && lo_byte(main_effect(0x08, m).cpu.x) == lo_byte(m.cpu.x)) by {
        reveal(effects::effect_00);
        reveal(effects::op_08);
        lemma_byte_halves(m.cpu.x, a);
    }
    assert(hi_byte(main_effect(0x18, m).cpu.y) == a && lo_byte(main_effect(0x18, m).cpu.y) == lo_byte(m.cpu.y)) by {
        reveal(effects::effect_10);
        reveal(effects::op_18);
        lemma_byte_halves(m.cpu.y, a);
    }
    assert(hi_byte(main_effect(0x28, m).cpu.u) == a && lo_byte(main_effect(0x28, m).cpu.u) == lo_byte(m.cpu.u)) by {
        reveal(effects::effect_20);
        reveal(effects::op_28);
        lemma_byte_halves(m.cpu.u, a);
    }
    assert(in_main_ram(m.cpu.x as u32) ==> main_effect(0x0e, m).mem_read(m.cpu.x as u32) == a) by {
        reveal(effects::effect_00);
        reveal(effects::op_0e);
        lemma_mirror_range(m.cpu.x as u32);
    }
    assert(in_main_ram(m.cpu.y as u32) ==> main_effect(0x1e, m).mem_read(m.cpu.y as u32) == a) by {
        reveal(effects::effect_10);
        reveal(effects::op_1e);
        lemma_mirror_range(m.cpu.y as u32);
    }
    assert(in_main_ram(m.cpu.u as u32) ==> main_effect(0x2e, m).mem_read(m.cpu.u as u32) == a) by {
        reveal(effects::effect_20);
        reveal(effects::op_2e);
        lemma_mirror_range(m.cpu.u as u32);
    }
    assert(in_main_ram(m.op_word() as u32) ==> main_effect(0xae, m).mem_read(m.op_word() as u32) == a) by {
        reveal(effects::effect_a0);
        reveal(effects::op_ae);
        lemma_mirror_range(m.op_word() as u32);
    }
    assert(main_effect(0x0e, m).cpu.a == a && main_effect(0x0e, m).cpu.t == m.cpu.t) by {
        reveal(effects::effect_00);
        reveal(effects::op_0e);
    }
    assert(main_effect(0xae, m).cpu.a == a && main_effect(0xae, m).cpu.t == m.cpu.t) by {
        reveal(effects::effect_a0);
        reveal(effects::op_ae);
    }
}

/// PSH A (FD C8) followed, whatever the registers other than S became in
/// between, by POP A (FD 8A) gives back the pushed A, with Z telling whether
/// it is zero, and leaves S where it was, as long as the stack byte is in RAM.
pub proof fn law_push_then_pop_a(m: Pc1500View, c: Lh5801)
    requires
        m.wf(),
        stack_in_ram(m.cpu.s),
        c.s == fd_effect(0xc8, m).cpu.s,
    ensures
        ({
            let pushed = fd_effect(0xc8, m);
            let popped = fd_effect(0x8a, pushed.with_cpu(c));
            &&& pushed.cpu.s == (m.cpu.s as int - 1) % 0x10000
            &&& popped.cpu.a == m.cpu.a
            &&& (popped.cpu.t & ZF != 0) == (m.cpu.a == 0)
            &&& popped.cpu.s == m.cpu.s
        }),
{
    reveal(effects::effect_fd_80);
    reveal(effects::effect_fd_c0);
    reveal(effects::fd_op_c8);
    reveal(effects::fd_op_8a);
    let s0 = m.cpu.s;
    lemma_mirror_range(stack_addr(s0));
    assert(inc16(dec16(s0)) == s0);
    let pushed = fd_effect(0xc8, m);
    assert(pushed.mem_read(stack_addr(s0)) == m.cpu.a);
    lemma_with_flag(c.t, ZF, CF, m.cpu.a == 0);
}

/// After a relative branch of the main CPU from `m` (P at the offset byte):
/// when `taken`, P is the address after the offset byte plus the offset
/// (`forward`) or minus it, modulo 64 KB, and the step costs `base` cycles
/// plus 2 (forward) or 3 (backward); otherwise P is the address after the
/// offset byte and the step costs `base`. A and T are unchanged either way.
pub open spec fn main_branch_outcome(m: Pc1500View, after: Pc1500View, forward: bool, taken: bool, base: int) -> bool {
    let d = m.mem_read(m.cpu.p as u32) as int;
    let next = (m.cpu.p as int + 1) % 0x10000;
    &&& after.cpu.p == (if !taken { next } else if forward { (next + d) % 0x10000 } else { (next - d) % 0x10000 }) as u16
    &&& after.cpu.ticks == m.cpu.ticks + base + (if !taken { 0int } else if forward { 2int } else { 3int })
    &&& after.cpu.a == m.cpu.a
    &&& after.cpu.t == m.cpu.t
}

/// The relative branches of the main CPU: 0x81 and 0x91 branch on C clear,
/// 0x83 and 0x93 on C set, 0x85 and 0x95 on H clear, 0x87 and 0x97 on H set,
/// 0x89 and 0x99 on Z clear, 0x8B and 0x9B on Z set, 0x8D and 0x9D on V
/// clear, 0x8F and 0x9F on V set, and 0x8E and 0x9E always; the 0x8_ group
/// branches forward and the 0x9_ group backward.
pub proof fn law_main_branches(m: Pc1500View)
    requires
        m.cpu.ticks + 11 <= usize::MAX,
        m.cpu.timer_state + 11 <= usize::MAX,
    ensures
        main_branch_outcome(m, main_effect(0x81, m), true, m.cpu.t & CF == 0, 8),
        main_branch_outcome(m, main_effect(0x83, m), true, m.cpu.t & CF != 0, 8),
        main_branch_outcome(m, main_effect(0x85, m), true, m.cpu.t & HF == 0, 8),
        main_branch_outcome(m, main_effect(0x87, m), true, m.cpu.t & HF != 0, 8),
        main_branch_outcome(m, main_effect(0x89, m), true, m.cpu.t & ZF == 0, 8),
        main_branch_outcome(m, main_effect(0x8b, m), true, m.cpu.t & ZF != 0, 8),
        main_branch_outcome(m, main_effect(0x8d, m), true, m.cpu.t & VF == 0, 8),
        main_branch_outcome(m, main_effect(0x8f, m), true, m.cpu.t & VF != 0, 8),
        main_branch_outcome(m, main_effect(0x8e, m), true, true, 6),
        main_branch_outcome(m, main_effect(0x91, m), false, m.cpu.t & CF == 0, 8),
        main_branch_outcome(m, main_effect(0x93, m), false, m.cpu.t & CF != 0, 8),
        main_branch_outcome(m, main_effect(0x95, m), false, m.cpu.t & HF == 0, 8),
        main_branch_outcome(m, main_effect(0x97, m), false, m.cpu.t & HF != 0, 8),
        main_branch_outcome(m, main_effect(0x99, m), false, m.cpu.t & ZF == 0, 8),
        main_branch_outcome(m, main_effect(0x9b, m), false, m.cpu.t & ZF != 0, 8),
        main_branch_outcome(m, main_effect(0x9d, m), false, m.cpu.t & VF == 0, 8),
        main_branch_outcome(m, main_effect(0x9f, m), false, m.cpu.t & VF != 0, 8),
        main_branch_outcome(m, main_effect(0x9e, m), false, true, 6),
{
    reveal(effects::effect_80);
    reveal(effects::effect_90);
    reveal(effects::op_81);
    reveal(effects::op_83);
    reveal(effects::op_85);
    reveal(effects::op_87);
    reveal(effects::op_89);
    reveal(effects::op_8b);
    reveal(effects::op_8d);
    reveal(effects::op_8f);
    reveal(effects::op_8e);
    reveal(effects::op_91);
    reveal(effects::op_93);
    reveal(effects::op_95);
    reveal(effects::op_97);
    reveal(effects::op_99);
    reveal(effects::op_9b);
    reveal(effects::op_9d);
    reveal(effects::op_9f);
    reveal(effects::op_9e);
}

/// The outcome of the conditional relative branch `op` of the second model,
/// from registers `c` just after the opcode was fetched: when `taken`, P moves
/// from the address after the offset byte by that byte read as a signed
/// displacement and the branch costs 8 cycles; otherwise P only steps over
/// the offset byte and it costs 5. No other register changes.
pub open spec fn relative_branch(op: u8, c: Lh5801Cpu, m: MemoryBus, taken: bool) -> bool {
    let after_offset = next_addr(c.p);
    &&& main_cycles(op, c.flags) == (if taken { 8int } else { 5int })
    &&& model_after(op, c, m) == (if taken {
            Lh5801Cpu { p: (after_offset as int + (m.byte(c.p) as i8) as int) as u16, ..c }
        } else {
            Lh5801Cpu { p: after_offset, ..c }
        })
}

/// Each conditional branch of the second model tests one flag bit of F: BVS
/// (0x8F) branches exactly when V is set and BVR (0x9F) exactly when it is
/// clear; 0x8B on Z set and 0x9B on Z clear; 0x83 on C set and 0x93, 0x81,
/// 0x91 on C clear; 0x87 on H set and 0x97, 0x85, 0x95 on H clear.
pub proof fn law_branch_conditions(c: Lh5801Cpu, m: MemoryBus)
    ensures
        relative_branch(0x8F, c, m, c.flags & cpu::VF != 0),
        relative_branch(0x9F, c, m, c.flags & cpu::VF == 0),
        relative_branch(0x8B, c, m, c.flags & cpu::ZF != 0),
        relative_branch(0x9B, c, m, c.flags & cpu::ZF == 0),
        relative_branch(0x83, c, m, c.flags & cpu::CF != 0),
        relative_branch(0x93, c, m, c.flags & cpu::CF == 0),
        relative_branch(0x81, c, m, c.flags & cpu::CF == 0),
        relative_branch(0x91, c, m, c.flags & cpu::CF == 0),
        relative_branch(0x87, c, m, c.flags & cpu::HF != 0),
        relative_branch(0x97, c, m, c.flags & cpu::HF == 0),
        relative_branch(0x85, c, m, c.flags & cpu::HF == 0),
        relative_branch(0x95, c, m, c.flags & cpu::HF == 0),
{
}

/// In the second model, after AND from registers `c`: A holds `a`, Z says
/// whether `a` is zero, C and V are clear and H is that of `c`.
pub open spec fn model_and_outcome(c: Lh5801Cpu, after: Lh5801Cpu, a: u8) -> bool {
    &&& after.a == a
    &&& (after.flags & cpu::ZF != 0) == (a == 0)
    &&& after.flags & cpu::CF == 0
    &&& after.flags & cpu::VF == 0
    &&& (after.flags & cpu::HF != 0) == (c.flags & cpu::HF != 0)
}

proof fn lemma_model_logic_flags(f: u8, r: u8)
    ensures
        ({
            let t = with_flag(with_flag(with_flag(f, cpu::ZF, r == 0), cpu::CF, false), cpu::VF, false);
            &&& (t & cpu::ZF != 0) == (r == 0)
            &&& t & cpu::CF == 0
            &&& t & cpu::VF == 0
            &&& (t & cpu::HF != 0) == (f & cpu::HF != 0)
        }),
{
    let t1 = with_flag(f, cpu::ZF, r == 0);
    let t2 = with_flag(t1, cpu::CF, false);
    lemma_with_flag(f, cpu::ZF, cpu::HF, r == 0);
    lemma_with_flag(t1, cpu::CF, cpu::ZF, false);
    lemma_with_flag(t1, cpu::CF, cpu::HF, false);
    lemma_with_flag(t2, cpu::VF, cpu::ZF, false);
    lemma_with_flag(t2, cpu::VF, cpu::CF, false);
    lemma_with_flag(t2, cpu::VF, cpu::HF, false);
}

/// AND in the second model: A becomes A bitwise-and the operand (the byte at
/// X, Y or U, at the operand word, or the immediate byte); Z is set exactly
/// when the result is zero, C and V are cleared and H is kept.
pub proof fn law_model_and(c: Lh5801Cpu, m: MemoryBus)
    ensures
        model_and_outcome(c, model_after(0x09, c, m), c.a & m.byte(c.x)),
        model_and_outcome(c, model_after(0x19, c, m), c.a & m.byte(c.y)),
        model_and_outcome(c, model_after(0x29, c, m), c.a & m.byte(c.u)),
        model_and_outcome(c, model_after(0xA9, c, m), c.a & m.byte(m.word(c.p))),
        model_and_outcome(c, model_after(0xB9, c, m), c.a & m.byte(c.p)),
{
    lemma_model_logic_flags(c.flags, c.a & m.byte(c.x));
    lemma_model_logic_flags(c.flags, c.a & m.byte(c.y));
    lemma_model_logic_flags(c.flags, c.a & m.byte(c.u));
    lemma_model_logic_flags(c.flags, c.a & m.byte(m.word(c.p)));
    lemma_model_logic_flags(c.flags, c.a & m.byte(c.p));
}

proof fn lemma_model_four_flags(f: u8, z: bool, cy: bool, h: bool, v: bool)
    ensures
        ({
            let t = with_flag(with_flag(with_flag(with_flag(f, cpu::ZF, z), cpu::CF, cy), cpu::HF, h), cpu::VF, v);
            &&& (t & cpu::ZF != 0) == z
            &&& (t & cpu::CF != 0) == cy
            &&& (t & cpu::HF != 0) == h
            &&& (t & cpu::VF != 0) == v
        }),
{
    let t1 = with_flag(f, cpu::ZF, z);
    let t2 = with_flag(t1, cpu::CF, cy);
    let t3 = with_flag(t2, cpu::HF, h);
    lemma_with_flag(f, cpu::ZF, cpu::CF, z);
    lemma_with_flag(t1, cpu::CF, cpu::ZF, cy);
    lemma_with_flag(t2, cpu::HF, cpu::ZF, h);
    lemma_with_flag(t2, cpu::HF, cpu::CF, h);
    lemma_with_flag(t3, cpu::VF, cpu::ZF, v);
    lemma_with_flag(t3, cpu::VF, cpu::CF, v);
    lemma_with_flag(t3, cpu::VF, cpu::HF, v);
}

proof fn lemma_model_zero_only(f: u8, z: bool)
    ensures
        (with_flag(f, cpu::ZF, z) & cpu::ZF != 0) == z,
        (with_flag(f, cpu::ZF, z) & cpu::CF != 0) == (f & cpu::CF != 0),
        (with_flag(f, cpu::ZF, z) & cpu::VF != 0) == (f & cpu::VF != 0),
        (with_flag(f, cpu::ZF, z) & cpu::HF != 0) == (f & cpu::HF != 0),
{
    lemma_with_flag(f, cpu::ZF, cpu::CF, z);
    lemma_with_flag(f, cpu::ZF, cpu::VF, z);
    lemma_with_flag(f, cpu::ZF, cpu::HF, z);
}

/// In the second model, after LDA from registers `c`: A holds `v`, Z says
/// whether it is zero, and C, V and H are those of `c`.
pub open spec fn model_load_outcome(c: Lh5801Cpu, after: Lh5801Cpu, v: u8) -> bool {
    &&& after.a == v
    &&& (after.flags & cpu::ZF != 0) == (v == 0)
    &&& (after.flags & cpu::CF != 0) == (c.flags & cpu::CF != 0)
    &&& (after.flags & cpu::VF != 0) == (c.flags & cpu::VF != 0)
    &&& (after.flags & cpu::HF != 0) == (c.flags & cpu::HF != 0)
}

/// In the second model, after ADC from registers `c` with operand `v`.
pub open spec fn model_adc_outcome(c: Lh5801Cpu, after: Lh5801Cpu, v: u8) -> bool {
    let cin: int = if c.flags & cpu::CF != 0 { 1 } else { 0 };
    let sum = c.a + v + cin;
    &&& after.a == sum % 256
    &&& (after.flags & cpu::CF != 0) == (sum > 255)
    &&& (after.flags & cpu::ZF != 0) == (after.a == 0)
    &&& (after.flags & cpu::HF != 0) == ((c.a & 0x0F) + (v & 0x0F) + cin > 15)
}

/// In the second model, after CPA from registers `c` with operand `v`.
pub open spec fn model_compare_outcome(c: Lh5801Cpu, after: Lh5801Cpu, v: u8) -> bool {
    &&& after.a == c.a
    &&& (after.flags & cpu::ZF != 0) == (c.a == v)
    &&& (after.flags & cpu::CF != 0) == (c.a < v)
}

/// LDA in the second model: A becomes the operand (the low or high byte of
/// X, Y or U, the byte at X, Y or U, at the operand word, or the immediate
/// byte); Z is set exactly when it is zero and C, V and H are kept.
pub proof fn law_model_load(c: Lh5801Cpu, m: MemoryBus)
    ensures
        model_load_outcome(c, model_after(0x04, c, m), lo_byte(c.x)),
        model_load_outcome(c, model_after(0x84, c, m), hi_byte(c.x)),
        model_load_outcome(c, model_after(0x05, c, m), m.byte(c.x)),
        model_load_outcome(c, model_after(0x14, c, m), lo_byte(c.y)),
        model_load_outcome(c, model_after(0x94, c, m), hi_byte(c.y)),
        model_load_outcome(c, model_after(0x15, c, m), m.byte(c.y)),
        model_load_outcome(c, model_after(0x24, c, m), lo_byte(c.u)),
        model_load_outcome(c, model_after(0xA4, c, m), hi_byte(c.u)),
        model_load_outcome(c, model_after(0x25, c, m), m.byte(c.u)),
        model_load_outcome(c, model_after(0xA5, c, m), m.byte(m.word(c.p))),
        model_load_outcome(c, model_after(0xB5, c, m), m.byte(c.p)),
{
    assert(model_load_outcome(c, model_after(0x04, c, m), lo_byte(c.x))) by {
        lemma_model_zero_only(c.flags, lo_byte(c.x) == 0);
    }
    assert(model_load_outcome(c, model_after(0x84, c, m), hi_byte(c.x))) by {
        lemma_model_zero_only(c.flags, hi_byte(c.x) == 0);
    }
    assert(model_load_outcome(c, model_after(0x05, c, m), m.byte(c.x))) by {
        lemma_model_zero_only(c.flags, m.byte(c.x) == 0);
    }
    assert(model_load_outcome(c, model_after(0x14, c, m), lo_byte(c.y))) by {
        lemma_model_zero_only(c.flags, lo_byte(c.y) == 0);
    }
    assert(model_load_outcome(c, model_after(0x94, c, m), hi_byte(c.y))) by {
        lemma_model_zero_only(c.flags, hi_byte(c.y) == 0);
    }
    assert(model_load_outcome(c, model_after(0x15, c, m), m.byte(c.y))) by {
        lemma_model_zero_only(c.flags, m.byte(c.y) == 0);
    }
    assert(model_load_outcome(c, model_after(0x24, c, m), lo_byte(c.u))) by {
        lemma_model_zero_only(c.flags, lo_byte(c.u) == 0);
    }
    assert(model_load_outcome(c, model_after(0xA4, c, m), hi_byte(c.u))) by {
        lemma_model_zero_only(c.flags, hi_byte(c.u) == 0);
    }
    assert(model_load_outcome(c, model_after(0x25, c, m), m.byte(c.u))) by {
        lemma_model_zero_only(c.flags, m.byte(c.u) == 0);
    }
    assert(model_load_outcome(c, model_after(0xA5, c, m), m.byte(m.word(c.p)))) by {
        lemma_model_zero_only(c.flags, m.byte(m.word(c.p)) == 0);
    }
    assert(model_load_outcome(c, model_after(0xB5, c, m), m.byte(c.p))) by {
        lemma_model_zero_only(c.flags, m.byte(c.p) == 0);
    }
}

/// ADC in the second model: A becomes A plus the operand plus the carry,
/// modulo 256; C is set exactly when the sum exceeds 255, H when the low
/// nibbles and the carry exceed 15, Z when the new A is zero. Operands as for
/// LDA.
pub proof fn law_model_adc(c: Lh5801Cpu, m: MemoryBus)
    ensures
        model_adc_outcome(c, model_after(0x02, c, m), lo_byte(c.x)),
        model_adc_outcome(c, model_after(0x82, c, m), hi_byte(c.x)),
        model_adc_outcome(c, model_after(0x03, c, m), m.byte(c.x)),
        model_adc_outcome(c, model_after(0x12, c, m), lo_byte(c.y)),
        model_adc_outcome(c, model_after(0x92, c, m), hi_byte(c.y)),
        model_adc_outcome(c, model_after(0x13, c, m), m.byte(c.y)),
        model_adc_outcome(c, model_after(0x22, c, m), lo_byte(c.u)),
        model_adc_outcome(c, model_after(0xA2, c, m), hi_byte(c.u)),
        model_adc_outcome(c, model_after(0x23, c, m), m.byte(c.u)),
        model_adc_outcome(c, model_after(0xA3, c, m), m.byte(m.word(c.p))),
        model_adc_outcome(c, model_after(0xB3, c, m), m.byte(c.p)),
{
    assert(model_adc_outcome(c, model_after(0x02, c, m), lo_byte(c.x))) by {
        lemma_model_adc_flags(c, c, lo_byte(c.x));
    }
    assert(model_adc_outcome(c, model_after(0x82, c, m), hi_byte(c.x))) by {
        lemma_model_adc_flags(c, c, hi_byte(c.x));
    }
    assert(model_adc_outcome(c, model_after(0x03, c, m), m.byte(c.x))) by {
        lemma_model_adc_flags(c, c, m.byte(c.x));
    }
    assert(model_adc_outcome(c, model_after(0x12, c, m), lo_byte(c.y))) by {
        lemma_model_adc_flags(c, c, lo_byte(c.y));
    }
    assert(model_adc_outcome(c, model_after(0x92, c, m), hi_byte(c.y))) by {
        lemma_model_adc_flags(c, c, hi_byte(c.y));
    }
    assert(model_adc_outcome(c, model_after(0x13, c, m), m.byte(c.y))) by {
        lemma_model_adc_flags(c, c, m.byte(c.y));
    }
    assert(model_adc_outcome(c, model_after(0x22, c, m), lo_byte(c.u))) by {
        lemma_model_adc_flags(c, c, lo_byte(c.u));
    }
    assert(model_adc_outcome(c, model_after(0xA2, c, m), hi_byte(c.u))) by {
        lemma_model_adc_flags(c, c, hi_byte(c.u));
    }
    assert(model_adc_outcome(c, model_after(0x23, c, m), m.byte(c.u))) by {
        lemma_model_adc_flags(c, c, m.byte(c.u));
    }
    assert(model_adc_outcome(c, model_after(0xA3, c, m), m.byte(m.word(c.p)))) by {
        lemma_model_adc_flags(c, skip(c, 2), m.byte(m.word(c.p)));
    }
    assert(model_adc_outcome(c, model_after(0xB3, c, m), m.byte(c.p))) by {
        lemma_model_adc_flags(c, skip(c, 1), m.byte(c.p));
    }
}

/// CPA in the second model: A is kept; Z is set exactly when A equals the
/// operand and C exactly when A is below it. Operands as for LDA.
pub proof fn law_model_compare(c: Lh5801Cpu, m: MemoryBus)
    ensures
        model_compare_outcome(c, model_after(0x06, c, m), lo_byte(c.x)),
        model_compare_outcome(c, model_after(0x86, c, m), hi_byte(c.x)),
        model_compare_outcome(c, model_after(0x07, c, m), m.byte(c.x)),
        model_compare_outcome(c, model_after(0x16, c, m), lo_byte(c.y)),
        model_compare_outcome(c, model_after(0x96, c, m), hi_byte(c.y)),
        model_compare_outcome(c, model_after(0x17, c, m), m.byte(c.y)),
        model_compare_outcome(c, model_after(0x26, c, m), lo_byte(c.u)),
        model_compare_outcome(c, model_after(0xA6, c, m), hi_byte(c.u)),
        model_compare_outcome(c, model_after(0x27, c, m), m.byte(c.u)),
        model_compare_outcome(c, model_after(0xA7, c, m), m.byte(m.word(c.p))),
        model_compare_outcome(c, model_after(0xB7, c, m), m.byte(c.p)),
{
    assert(model_compare_outcome(c, model_after(0x06, c, m), lo_byte(c.x))) by {
        lemma_model_cpa_flags(c, c, lo_byte(c.x));
    }
    assert(model_compare_outcome(c, model_after(0x86, c, m), hi_byte(c.x))) by {
        lemma_model_cpa_flags(c, c, hi_byte(c.x));
    }
    assert(model_compare_outcome(c, model_after(0x07, c, m), m.byte(c.x))) by {
        lemma_model_cpa_flags(c, c, m.byte(c.x));
    }
    assert(model_compare_outcome(c, model_after(0x16, c, m), lo_byte(c.y))) by {
        lemma_model_cpa_flags(c, c, lo_byte(c.y));
    }
    assert(model_compare_outcome(c, model_after(0x96, c, m), hi_byte(c.y))) by {
        lemma_model_cpa_flags(c, c, hi_byte(c.y));
    }
    assert(model_compare_outcome(c, model_after(0x17, c, m), m.byte(c.y))) by {
        lemma_model_cpa_flags(c, c, m.byte(c.y));
    }
    assert(model_compare_outcome(c, model_after(0x26, c, m), lo_byte(c.u))) by {
        lemma_model_cpa_flags(c, c, lo_byte(c.u));
    }
    assert(model_compare_outcome(c, model_after(0xA6, c, m), hi_byte(c.u))) by {
        lemma_model_cpa_flags(c, c, hi_byte(c.u));
    }
    assert(model_compare_outcome(c, model_after(0x27, c, m), m.byte(c.u))) by {
        lemma_model_cpa_flags(c, c, m.byte(c.u));
    }
    assert(model_compare_outcome(c, model_after(0xA7, c, m), m.byte(m.word(c.p)))) by {
        lemma_model_cpa_flags(c, skip(c, 2), m.byte(m.word(c.p)));
    }
    assert(model_compare_outcome(c, model_after(0xB7, c, m), m.byte(c.p))) by {
        lemma_model_cpa_flags(c, skip(c, 1), m.byte(c.p));
    }
}

proof fn lemma_model_adc_flags(c: Lh5801Cpu, c2: Lh5801Cpu, v: u8)
    requires
        c2.a == c.a,
        c2.flags == c.flags,
    ensures
        model_adc_outcome(c, after_adc(c2, v), v),
{
    let a = c.a;
    let cin = bit_in(c.flags & cpu::CF != 0);
    let res = (a + v + cin) as u8;
    let wide: u16 = (a as u16 + v as u16 + cin as u16) as u16;
    assert(wide as u8 == wide % 256) by (bit_vector);
    assert(res == (a + v + cin) % 256);
    lemma_model_four_flags(c.flags, res == 0, a + v + cin > 0xFF, (a & 0x0F) + (v & 0x0F) + cin > 0x0F,
        (a & 0x80) == (v & 0x80) && (a & 0x80) != (res & 0x80));
}

proof fn lemma_model_cpa_flags(c: Lh5801Cpu, c2: Lh5801Cpu, v: u8)
    requires
        c2.a == c.a,
        c2.flags == c.flags,
    ensures
        model_compare_outcome(c, after_cpa(c2, v), v),
{
    let a = c.a;
    let res = a.wrapping_sub(v);
    lemma_model_four_flags(c.flags, res == 0, a < v, (a & 0x0F) < (v & 0x0F),
        (a & 0x80) != (v & 0x80) && (a & 0x80) != (res & 0x80));
}

/// Stores of A in the second model: 0x0A, 0x1A and 0x2A put A in the low
/// byte of X, Y or U and 0x08, 0x18 and 0x28 in the high byte, the other
/// byte kept; 0x0E, 0x1E, 0x2E, 0xAE and 0x41, 0x51, 0x61 write A to the byte
/// at X, Y, U or the operand word, which then reads back as A where it is
/// RAM, and 0x41, 0x51, 0x61 then step the pointer on by one.
pub proof fn law_model_store_a(c: Lh5801Cpu, m: MemoryBus, m2: MemoryBus)
    requires
        m.wf(),
    ensures
        lo_byte(model_after(0x0A, c, m).x) == c.a && hi_byte(model_after(0x0A, c, m).x) == hi_byte(c.x),
        lo_byte(model_after(0x1A, c, m).y) == c.a && hi_byte(model_after(0x1A, c, m).y) == hi_byte(c.y),
        lo_byte(model_after(0x2A, c, m).u) == c.a && hi_byte(model_after(0x2A, c, m).u) == hi_byte(c.u),
        hi_byte(model_after(0x08, c, m).x) == c.a && lo_byte(model_after(0x08, c, m).x) == lo_byte(c.x),
        hi_byte(model_after(0x18, c, m).y) == c.a && lo_byte(model_after(0x18, c, m).y) == lo_byte(c.y),
        hi_byte(model_after(0x28, c, m).u) == c.a && lo_byte(model_after(0x28, c, m).u) == lo_byte(c.u),
        model_writes(0x0E, c, m, m2) && in_ram(c.x) ==> m2.byte(c.x) == c.a,
        model_writes(0x1E, c, m, m2) && in_ram(c.y) ==> m2.byte(c.y) == c.a,
        model_writes(0x2E, c, m, m2) && in_ram(c.u) ==> m2.byte(c.u) == c.a,
        model_writes(0xAE, c, m, m2) && in_ram(m.word(c.p)) ==> m2.byte(m.word(c.p)) == c.a,
        model_writes(0x41, c, m, m2) && in_ram(c.x) ==> m2.byte(c.x) == c.a && model_after(0x41, c, m).x == next_addr(c.x),
        model_writes(0x51, c, m, m2) && in_ram(c.y) ==> m2.byte(c.y) == c.a && model_after(0x51, c, m).y == next_addr(c.y),
        model_writes(0x61, c, m, m2) && in_ram(c.u) ==> m2.byte(c.u) == c.a && model_after(0x61, c, m).u == next_addr(c.u),
{
    lemma_byte_halves(c.x, c.a);
    lemma_byte_halves(c.y, c.a);
    lemma_byte_halves(c.u, c.a);
    if model_writes(0x0E, c, m, m2) && in_ram(c.x) {
        lemma_stored_read_back(m, m2, c.x, 0, c.a);
    }
    if model_writes(0x1E, c, m, m2) && in_ram(c.y) {
        lemma_stored_read_back(m, m2, c.y, 0, c.a);
    }
    if model_writes(0x2E, c, m, m2) && in_ram(c.u) {
        lemma_stored_read_back(m, m2, c.u, 0, c.a);
    }
    if model_writes(0xAE, c, m, m2) && in_ram(m.word(c.p)) {
        lemma_stored_read_back(m, m2, m.word(c.p), 0, c.a);
    }
    if model_writes(0x41, c, m, m2) && in_ram(c.x) {
        lemma_stored_read_back(m, m2, c.x, 0, c.a);
    }
    if model_writes(0x51, c, m, m2) && in_ram(c.y) {
        lemma_stored_read_back(m, m2, c.y, 0, c.a);
    }
    if model_writes(0x61, c, m, m2) && in_ram(c.u) {
        lemma_stored_read_back(m, m2, c.u, 0, c.a);
    }
}

/// In modes 0 and 1 a rising CLK edge puts one bit of the 40-bit time
/// register on DATA OUT, the bit at the shift position: seconds in bits 0 to
/// 7, minutes 8 to 15, hours 16 to 23, days 24 to 31, the weekday 32 to 35
/// and the month 36 to 39. The shift position then moves on by one, and the
/// time itself is unchanged.
pub proof fn law_clock_shift_out(s: Pd1990ac)
    requires
        s.clk,
        s.flip_clk,
        s.mode == 0 || s.mode == 1,
        s.bitno < 40,
    ensures
        s.step_shift().bitno == s.bitno + 1,
        s.bitno < 8 ==> s.step_shift().data_out == ((s.seconds >> s.bitno) & 1u16 != 0),
        8 <= s.bitno < 16 ==> s.step_shift().data_out == ((s.minutes >> ((s.bitno - 8) as u8)) & 1u16 != 0),
        16 <= s.bitno < 24 ==> s.step_shift().data_out == ((s.hours >> ((s.bitno - 16) as u8)) & 1u16 != 0),
        24 <= s.bitno < 32 ==> s.step_shift().data_out == ((s.days >> ((s.bitno - 24) as u8)) & 1u16 != 0),
        32 <= s.bitno < 36 ==> s.step_shift().data_out == ((s.weekday >> ((s.bitno - 32) as u8)) & 1u16 != 0),
        36 <= s.bitno < 40 ==> s.step_shift().data_out == ((s.month >> ((s.bitno - 36) as u8)) & 1u16 != 0),
        s.step_shift().seconds == s.seconds && s.step_shift().minutes == s.minutes
            && s.step_shift().hours == s.hours && s.step_shift().days == s.days
            && s.step_shift().weekday == s.weekday && s.step_shift().month == s.month,
{
}

/// Bit `n` of the 40-bit time register of `s`: seconds in bits 0 to 7,
/// minutes 8 to 15, hours 16 to 23, days 24 to 31, the weekday 32 to 35 and
/// the month 36 to 39.
pub open spec fn time_register_bit(s: Pd1990ac, n: int) -> bool {
    if n < 8 { (s.seconds >> (n as u16)) & 1 != 0 }
    else if n < 16 { (s.minutes >> ((n - 8) as u16)) & 1 != 0 }
    else if n < 24 { (s.hours >> ((n - 16) as u16)) & 1 != 0 }
    else if n < 32 { (s.days >> ((n - 24) as u16)) & 1 != 0 }
    else if n < 36 { (s.weekday >> ((n - 32) as u16)) & 1 != 0 }
    else { (s.month >> ((n - 36) as u16)) & 1 != 0 }
}

/// With STB high the command pins select the mode: C0 is bit 0, C1 bit 1
/// and C2 bit 2 of the mode number.
pub proof fn law_clock_command(s: Pd1990ac)
    requires
        s.stb,
    ensures
        s.step_strobe().mode == (if s.c0 { 1int } else { 0int }) + (if s.c1 { 2int } else { 0int })
            + (if s.c2 { 4int } else { 0int }),
{
}

/// Reading the time in register-shift mode (1): each step of the chip that
/// sees CLK rise puts the next bit of the time register on DATA OUT, from bit
/// 0 up, so 40 rising edges shift the whole register out. In mode 0 (register
/// hold) a step rewinds the shift register and presents bit 0.
pub proof fn law_clock_read_sequence(s: Pd1990ac, ts: usize)
    requires
        !s.stb,
    ensures
        s.mode == 1 && s.clk && !s.prev_clk && s.bitno < 40 ==> {
            &&& s.step_spec(ts).data_out == time_register_bit(s, s.bitno as int)
            &&& s.step_spec(ts).bitno == s.bitno + 1
        },
        s.mode == 0 ==> {
            &&& s.step_spec(ts).data_out == time_register_bit(s, 0)
            &&& s.step_spec(ts).bitno == 1
        },
{
}

/// In mode 2 a rising CLK edge stores DATA IN at the shift position of the
/// same 40-bit time register (seconds, minutes, hours, days, weekday, month
/// from the low bits up); every other bit of the time keeps its value, and the
/// shift position moves on by one.
pub proof fn law_clock_shift_in(s: Pd1990ac)
    requires
        s.clk,
        s.flip_clk,
        s.mode == 2,
        s.bitno < 40,
    ensures
        s.step_shift().bitno == s.bitno + 1,
        s.bitno < 8 ==> ((s.step_shift().seconds >> s.bitno) & 1u16 != 0) == s.data_in
            && (forall|q: u8| q < 16 && q != s.bitno ==> ((s.step_shift().seconds >> q) & 1u16 != 0) == ((s.seconds >> q) & 1u16 != 0))
            && s.step_shift().minutes == s.minutes && s.step_shift().hours == s.hours && s.step_shift().days == s.days && s.step_shift().weekday == s.weekday && s.step_shift().month == s.month,
        8 <= s.bitno < 16 ==> ((s.step_shift().minutes >> ((s.bitno - 8) as u8)) & 1u16 != 0) == s.data_in
            && (forall|q: u8| q < 16 && q != (s.bitno - 8) ==> ((s.step_shift().minutes >> q) & 1u16 != 0) == ((s.minutes >> q) & 1u16 != 0))
            && s.step_shift().seconds == s.seconds && s.step_shift().hours == s.hours && s.step_shift().days == s.days && s.step_shift().weekday == s.weekday && s.step_shift().month == s.month,
        16 <= s.bitno < 24 ==> ((s.step_shift().hours >> ((s.bitno - 16) as u8)) & 1u16 != 0) == s.data_in
            && (forall|q: u8| q < 16 && q != (s.bitno - 16) ==> ((s.step_shift().hours >> q) & 1u16 != 0) == ((s.hours >> q) & 1u16 != 0))
            && s.step_shift().seconds == s.seconds && s.step_shift().minutes == s.minutes && s.step_shift().days == s.days && s.step_shift().weekday == s.weekday && s.step_shift().month == s.month,
        24 <= s.bitno < 32 ==> ((s.step_shift().days >> ((s.bitno - 24) as u8)) & 1u16 != 0) == s.data_in
            && (forall|q: u8| q < 16 && q != (s.bitno - 24) ==> ((s.step_shift().days >> q) & 1u16 != 0) == ((s.days >> q) & 1u16 != 0))
            && s.step_shift().seconds == s.seconds && s.step_shift().minutes == s.minutes && s.step_shift().hours == s.hours && s.step_shift().weekday == s.weekday && s.step_shift().month == s.month,
        32 <= s.bitno < 36 ==> ((s.step_shift().weekday >> ((s.bitno - 32) as u8)) & 1u16 != 0) == s.data_in
            && (forall|q: u8| q < 16 && q != (s.bitno - 32) ==> ((s.step_shift().weekday >> q) & 1u16 != 0) == ((s.weekday >> q) & 1u16 != 0))
            && s.step_shift().seconds == s.seconds && s.step_shift().minutes == s.minutes && s.step_shift().hours == s.hours && s.step_shift().days == s.days && s.step_shift().month == s.month,
        36 <= s.bitno < 40 ==> ((s.step_shift().month >> ((s.bitno - 36) as u8)) & 1u16 != 0) == s.data_in
            && (forall|q: u8| q < 16 && q != (s.bitno - 36) ==> ((s.step_shift().month >> q) & 1u16 != 0) == ((s.month >> q) & 1u16 != 0))
            && s.step_shift().seconds == s.seconds && s.step_shift().minutes == s.minutes && s.step_shift().hours == s.hours && s.step_shift().days == s.days && s.step_shift().weekday == s.weekday,
{
    let n = s.bitno;
    if n < 8 {
        let p = n;
        lemma_put_read_bit(s.seconds, p, p, s.data_in);
        assert forall|q: u8| q < 16 && q != s.bitno implies ((s.step_shift().seconds >> q) & 1u16 != 0) == ((s.seconds >> q) & 1u16 != 0) by {
            lemma_put_read_bit(s.seconds, p, q, s.data_in);
        }
    } else if n < 16 {
        let p = (n - 8) as u8;
        lemma_put_read_bit(s.minutes, p, p, s.data_in);
        assert forall|q: u8| q < 16 && q != (s.bitno - 8) implies ((s.step_shift().minutes >> q) & 1u16 != 0) == ((s.minutes >> q) & 1u16 != 0) by {
            lemma_put_read_bit(s.minutes, p, q, s.data_in);
        }
    } else if n < 24 {
        let p = (n - 16) as u8;
        lemma_put_read_bit(s.hours, p, p, s.data_in);
        assert forall|q: u8| q < 16 && q != (s.bitno - 16) implies ((s.step_shift().hours >> q) & 1u16 != 0) == ((s.hours >> q) & 1u16 != 0) by {
            lemma_put_read_bit(s.hours, p, q, s.data_in);
        }
    } else if n < 32 {
        let p = (n - 24) as u8;
        lemma_put_read_bit(s.days, p, p, s.data_in);
        assert forall|q: u8| q < 16 && q != (s.bitno - 24) implies ((s.step_shift().days >> q) & 1u16 != 0) == ((s.days >> q) & 1u16 != 0) by {
            lemma_put_read_bit(s.days, p, q, s.data_in);
        }
    } else if n < 36 {
        let p = (n - 32) as u8;
        lemma_put_read_bit(s.weekday, p, p, s.data_in);
        assert forall|q: u8| q < 16 && q != (s.bitno - 32) implies ((s.step_shift().weekday >> q) & 1u16 != 0) == ((s.weekday >> q) & 1u16 != 0) by {
            lemma_put_read_bit(s.weekday, p, q, s.data_in);
        }
    } else {
        let p = (n - 36) as u8;
        lemma_put_read_bit(s.month, p, p, s.data_in);
        assert forall|q: u8| q < 16 && q != (s.bitno - 36) implies ((s.step_shift().month >> q) & 1u16 != 0) == ((s.month >> q) & 1u16 != 0) by {
            lemma_put_read_bit(s.month, p, q, s.data_in);
        }
    }
}

/// Each LCD annunciator is lit exactly when its bit in the two symbol bytes
/// is clear. At 0x764E: bit 0 BUSY, bit 1 SHIFT, bit 2 KANA, bit 3 SMALL, bit
/// 4 III, bit 5 II, bit 6 I, bit 7 DEF. At 0x764F: bit 0 DEG, bit 2 RAD, bit
/// 4 RESERVE, bit 5 PRO, bit 6 RUN. The battery symbol is always lit.
pub proof fn law_lcd_symbol_bits(m: Pc1500View)
    ensures
        lcd_symbols(m).len() == SYMBOL_COUNT,
        lcd_symbols(m)[symbol_index(Symbol::Busy)] == (m.mem_read(0x764E) & 0x01 == 0),
        lcd_symbols(m)[symbol_index(Symbol::Shift)] == (m.mem_read(0x764E) & 0x02 == 0),
        lcd_symbols(m)[symbol_index(Symbol::Kana)] == (m.mem_read(0x764E) & 0x04 == 0),
        lcd_symbols(m)[symbol_index(Symbol::Small)] == (m.mem_read(0x764E) & 0x08 == 0),
        lcd_symbols(m)[symbol_index(Symbol::RomanIII)] == (m.mem_read(0x764E) & 0x10 == 0),
        lcd_symbols(m)[symbol_index(Symbol::RomanII)] == (m.mem_read(0x764E) & 0x20 == 0),
        lcd_symbols(m)[symbol_index(Symbol::RomanI)] == (m.mem_read(0x764E) & 0x40 == 0),
        lcd_symbols(m)[symbol_index(Symbol::Def)] == (m.mem_read(0x764E) & 0x80 == 0),
        lcd_symbols(m)[symbol_index(Symbol::Deg)] == (m.mem_read(0x764F) & 0x01 == 0),
        lcd_symbols(m)[symbol_index(Symbol::Rad)] == (m.mem_read(0x764F) & 0x04 == 0),
        lcd_symbols(m)[symbol_index(Symbol::Reserve)] == (m.mem_read(0x764F) & 0x10 == 0),
        lcd_symbols(m)[symbol_index(Symbol::Pro)] == (m.mem_read(0x764F) & 0x20 == 0),
        lcd_symbols(m)[symbol_index(Symbol::Run)] == (m.mem_read(0x764F) & 0x40 == 0),
        lcd_symbols(m)[symbol_index(Symbol::Battery)],
{
}

/// The joypad key with matrix code `16 * row + col` is held.
pub open spec fn held_at(keys: Seq<bool>, row: int, col: int) -> bool {
    keys[16 * row + col]
}

proof fn lemma_scan_position(row: int, col: int)
    requires
        0 <= row < 16,
        0 <= col < 6,
    ensures
        (6 * row + col) / 6 == row,
        (6 * row + col) % 6 == col,
        scan_code(6 * row + col) == 16 * row + col,
{
    vstd::arithmetic::div_mod::lemma_fundamental_div_mod_converse(6 * row + col, 6, row, col);
}

proof fn lemma_scan_split(j: int)
    requires
        0 <= j < 96,
    ensures
        0 <= j / 6 < 16,
        0 <= j % 6 < 6,
        j == 6 * (j / 6) + j % 6,
        scan_code(j) == 16 * (j / 6) + j % 6,
{
    vstd::arithmetic::div_mod::lemma_fundamental_div_mod(j, 6);
}

proof fn lemma_first_pressed_from(keys: Seq<bool>, i: int)
    requires
        keys.len() == CODE_COUNT,
        0 <= i <= 96,
    ensures
        (first_pressed_from(keys, i) == 0xFF) == (forall|j: int| i <= j < 96 ==> !keys[scan_code(j) as int]),
        first_pressed_from(keys, i) != 0xFF ==> exists|j: int| i <= j < 96 && first_pressed_from(keys, i) == scan_code(j)
            && keys[scan_code(j) as int] && (forall|k: int| i <= k < j ==> !keys[scan_code(k) as int]),
    decreases 96 - i,
{
    if i < 96 {
        lemma_first_pressed_from(keys, i + 1);
        lemma_scan_split(i);
        if keys[scan_code(i) as int] {
            assert(first_pressed_from(keys, i) == scan_code(i));
        } else {
            if first_pressed_from(keys, i) != 0xFF {
                let j = choose|j: int| i + 1 <= j < 96 && first_pressed_from(keys, i + 1) == scan_code(j)
                    && keys[scan_code(j) as int] && (forall|k: int| i + 1 <= k < j ==> !keys[scan_code(k) as int]);
                assert(forall|k: int| i <= k < j ==> !keys[scan_code(k) as int]);
            }
        }
    }
}

/// The joypad's key scan reports the first held key in row-major order over
/// rows 0 to 15 and columns 0 to 5, as its code 16 * row + column, and 0xFF
/// when no key there is held.
pub proof fn law_joypad_scan(keys: Seq<bool>)
    requires
        keys.len() == CODE_COUNT,
    ensures
        (first_pressed_from(keys, 0) == 0xFF) == (forall|r: int, c: int| 0 <= r < 16 && 0 <= c < 6 ==> !#[trigger] held_at(keys, r, c)),
        first_pressed_from(keys, 0) != 0xFF ==> exists|r: int, c: int| 0 <= r < 16 && 0 <= c < 6
            && first_pressed_from(keys, 0) == 16 * r + c && #[trigger] held_at(keys, r, c)
            && (forall|r2: int, c2: int| 0 <= r2 < 16 && 0 <= c2 < 6 && (r2 < r || (r2 == r && c2 < c)) ==> !#[trigger] held_at(keys, r2, c2)),
{
    lemma_first_pressed_from(keys, 0);
    let f = first_pressed_from(keys, 0);
    if f == 0xFF {
        assert forall|r: int, c: int| 0 <= r < 16 && 0 <= c < 6 implies !#[trigger] held_at(keys, r, c) by {
            lemma_scan_position(r, c);
            assert(!keys[scan_code(6 * r + c) as int]);
        }
    } else {
        let j = choose|j: int| 0 <= j < 96 && f == scan_code(j)
            && keys[scan_code(j) as int] && (forall|k: int| 0 <= k < j ==> !keys[scan_code(k) as int]);
        lemma_scan_split(j);
        let r = j / 6;
        let c = j % 6;
        assert(held_at(keys, r, c));
        assert forall|r2: int, c2: int| 0 <= r2 < 16 && 0 <= c2 < 6 && (r2 < r || (r2 == r && c2 < c)) implies !#[trigger] held_at(keys, r2, c2) by {
            lemma_scan_position(r2, c2);
            assert(6 * r2 + c2 < j);
            assert(!keys[scan_code(6 * r2 + c2) as int]);
        }
        let j0 = choose|j0: int| 0 <= j0 < 96 && keys[scan_code(j0) as int];
        lemma_scan_split(j0);
        assert(held_at(keys, j0 / 6, j0 % 6));
    }
}

/// The memory map as the CPU sees it. A byte written to RAM (0x4000 to
/// 0x57FF, 0x7600 to 0x7FFF) reads back and leaves every other RAM byte
/// alone; ROM (0xC000 to 0xFFFF) reads the image and ignores writes;
/// 0x7000 to 0x75FF mirror display RAM; other ME0 addresses read 0xFF. In
/// ME1 the LH5810 registers sit at 0x1F005 (U), 0x1F006 (L), 0x1F007 (F),
/// 0x1F008 (OPC), 0x1F009 (G), 0x1F00A (MSK), 0x1F00B (IF), 0x1F00C (DDA),
/// 0x1F00D (DDB), 0x1F00E (OPA) and 0x1F00F (OPB); RESET at 0x1F004 takes
/// writes only and reads 0xFF.
pub proof fn law_memory_map(m: Pc1500View, addr: u32, other: u32, v: u8)
    requires
        m.wf(),
    ensures
        (0x4000 <= addr <= 0x57FF || 0x7600 <= addr <= 0x7FFF) ==> m.mem_write(addr, v).mem_read(addr) == v,
        (0x4000 <= addr <= 0x57FF || 0x7600 <= addr <= 0x7FFF) && (0x4000 <= other <= 0x57FF || 0x7600 <= other <= 0x7FFF)
            && other != addr ==> m.mem_write(addr, v).mem_read(other) == m.mem_read(other),
        0xC000 <= addr <= 0xFFFF ==> m.mem_write(addr, v) == m && m.mem_read(addr) == m.rom[addr - 0xC000],
        0x7000 <= addr <= 0x75FF ==> 0x7600 <= mirror(addr) <= 0x77FF && m.mem_read(addr) == m.mem_read(mirror(addr)),
        (0x5800 <= addr < 0x7000 || 0x8000 <= addr < 0xC000) ==> m.mem_read(addr) == 0xFF,
        m.mem_read(0x1F004) == 0xFF,
        m.mem_read(0x1F005) == m.io.reg_spec(Reg::U),
        m.mem_read(0x1F006) == m.io.reg_spec(Reg::L),
        m.mem_read(0x1F007) == m.io.reg_spec(Reg::F),
        m.mem_read(0x1F008) == m.io.reg_spec(Reg::OPC),
        m.mem_read(0x1F009) == m.io.reg_spec(Reg::G),
        m.mem_read(0x1F00A) == m.io.reg_spec(Reg::MSK),
        m.mem_read(0x1F00B) == m.io.reg_spec(Reg::IF),
        m.mem_read(0x1F00C) == m.io.reg_spec(Reg::DDA),
        m.mem_read(0x1F00D) == m.io.reg_spec(Reg::DDB),
        m.mem_read(0x1F00E) == m.io.reg_spec(Reg::OPA),
        m.mem_read(0x1F00F) == m.io.reg_spec(Reg::OPB),
        m.mem_write(0x1F004, v).io == m.io.set_reg_spec(Reg::RESET, v, m.cpu.timer_state),
        m.mem_write(0x1F005, v).io == m.io.set_reg_spec(Reg::U, v, m.cpu.timer_state),
        m.mem_write(0x1F006, v).io == m.io.set_reg_spec(Reg::L, v, m.cpu.timer_state),
        m.mem_write(0x1F007, v).io == m.io.set_reg_spec(Reg::F, v, m.cpu.timer_state),
        m.mem_write(0x1F008, v).io == m.io.set_reg_spec(Reg::OPC, v, m.cpu.timer_state),
        m.mem_write(0x1F009, v).io == m.io.set_reg_spec(Reg::G, v, m.cpu.timer_state),
        m.mem_write(0x1F00A, v).io == m.io.set_reg_spec(Reg::MSK, v, m.cpu.timer_state),
        m.mem_write(0x1F00B, v).io == m.io.set_reg_spec(Reg::IF, v, m.cpu.timer_state),
        m.mem_write(0x1F00C, v).io == m.io.set_reg_spec(Reg::DDA, v, m.cpu.timer_state),
        m.mem_write(0x1F00D, v).io == m.io.set_reg_spec(Reg::DDB, v, m.cpu.timer_state),
        m.mem_write(0x1F00E, v).io == m.io.set_reg_spec(Reg::OPA, v, m.cpu.timer_state),
        m.mem_write(0x1F00F, v).io == m.io.set_reg_spec(Reg::OPB, v, m.cpu.timer_state),
{
    lemma_mirror_range(addr);
    lemma_mirror_range(other);
}

/// Bit `b` of `v` is set.
pub open spec fn bit_set(v: u8, b: int) -> bool {
    (v >> (b as u8)) & 1 != 0
}

/// Each dot of the LCD shows one bit of display RAM. Dot row `y` of column
/// `x` comes from the byte pair of that column, the first byte for rows 0 to
/// 3 and the second for rows 4 to 6: columns 0 to 38 read the low nibbles of
/// the pairs from 0x7600 up, columns 39 to 77 the low nibbles of the pairs
/// from 0x7700 up, columns 78 to 116 the high nibbles from 0x7600 up and
/// columns 117 to 155 the high nibbles from 0x7700 up.
pub proof fn law_lcd_dot_bits(m: Pc1500View, x: int, y: int)
    requires
        0 <= x < 156,
        0 <= y < 7,
    ensures
        0 <= x < 39 ==> dot_on(lcd_column(m, x), y) == bit_set(m.mem_read((0x7600 + 2 * x + y / 4) as u32), y % 4),
        39 <= x < 78 ==> dot_on(lcd_column(m, x), y) == bit_set(m.mem_read((0x7700 + 2 * (x - 39) + y / 4) as u32), y % 4),
        78 <= x < 117 ==> dot_on(lcd_column(m, x), y) == bit_set(m.mem_read((0x7600 + 2 * (x - 78) + y / 4) as u32), y % 4 + 4),
        117 <= x < 156 ==> dot_on(lcd_column(m, x), y) == bit_set(m.mem_read((0x7700 + 2 * (x - 117) + y / 4) as u32), y % 4 + 4),
{
    let base: int = if x < 39 || (78 <= x && x < 117) { 0x7600 } else { 0x7700 };
    let k: int = if x < 39 { x } else if x < 78 { x - 39 } else if x < 117 { x - 78 } else { x - 117 };
    let b0 = m.mem_read((base + 2 * k) as u32);
    let b1 = m.mem_read((base + 2 * k + 1) as u32);
    let yy = y as u8;
    assert(
        (yy < 4 ==> ((((b0 & 0x0F) | ((b1 & 0x0F) << 4u8)) >> yy) & 1 != 0) == ((b0 >> yy) & 1 != 0))
        && (4 <= yy < 8 ==> ((((b0 & 0x0F) | ((b1 & 0x0F) << 4u8)) >> yy) & 1 != 0) == ((b1 >> ((yy - 4) as u8)) & 1 != 0))
        && (yy < 4 ==> (((((b0 >> 4u8) & 0x0F) | (((b1 >> 4u8) & 0x0F) << 4u8)) >> yy) & 1 != 0) == ((b0 >> ((yy + 4) as u8)) & 1 != 0))
        && (4 <= yy < 8 ==> (((((b0 >> 4u8) & 0x0F) | (((b1 >> 4u8) & 0x0F) << 4u8)) >> yy) & 1 != 0) == ((b1 >> yy) & 1 != 0))
    ) by (bit_vector);
}

/// Return line `c` of what ITA reads is low in `v`.
pub open spec fn line_low(v: u8, c: u8) -> bool {
    (v >> c) & 1 == 0
}

/// The keyboard matrix as wired: with one row strobed (KS = 1 << row), each
/// return line of what ITA reads is low exactly when the key at that row and
/// line is held. Row 0 holds 2 5 8 H SHIFT Y N UP; row 1 . - OFF S F1 W X RSV;
/// row 2 1 4 7 J F5 U M 0; row 3 ) L O K F6 I ( ENTER; row 4 + * / D F2 E C
/// RCL; row 5 = LEFT P F F3 R V SPACE; row 6 RIGHT MODE CL A CTRL Q Z SML;
/// row 7 3 6 9 G F4 T B DOWN (lines 0 to 7 in that order).
pub proof fn law_keyboard_wiring(kb: Keyboard)
    ensures
        kb.ks == 0x01 ==> {
            &&& (line_low(kb.input_spec(), 0) == kb.is_down(Key::Two))
            &&& (line_low(kb.input_spec(), 1) == kb.is_down(Key::Five))
            &&& (line_low(kb.input_spec(), 2) == kb.is_down(Key::Eight))
            &&& (line_low(kb.input_spec(), 3) == kb.is_down(Key::H))
            &&& (line_low(kb.input_spec(), 4) == kb.is_down(Key::Shift))
            &&& (line_low(kb.input_spec(), 5) == kb.is_down(Key::Y))
            &&& (line_low(kb.input_spec(), 6) == kb.is_down(Key::N))
            &&& (line_low(kb.input_spec(), 7) == kb.is_down(Key::Up))
        },
        kb.ks == 0x02 ==> {
            &&& (line_low(kb.input_spec(), 0) == kb.is_down(Key::Dot))
            &&& (line_low(kb.input_spec(), 1) == kb.is_down(Key::Minus))
            &&& (line_low(kb.input_spec(), 2) == kb.is_down(Key::Off))
            &&& (line_low(kb.input_spec(), 3) == kb.is_down(Key::S))
            &&& (line_low(kb.input_spec(), 4) == kb.is_down(Key::F1))
            &&& (line_low(kb.input_spec(), 5) == kb.is_down(Key::W))
            &&& (line_low(kb.input_spec(), 6) == kb.is_down(Key::X))
            &&& (line_low(kb.input_spec(), 7) == kb.is_down(Key::Rsv))
        },
        kb.ks == 0x04 ==> {
            &&& (line_low(kb.input_spec(), 0) == kb.is_down(Key::One))
            &&& (line_low(kb.input_spec(), 1) == kb.is_down(Key::Four))
            &&& (line_low(kb.input_spec(), 2) == kb.is_down(Key::Seven))
            &&& (line_low(kb.input_spec(), 3) == kb.is_down(Key::J))
            &&& (line_low(kb.input_spec(), 4) == kb.is_down(Key::F5))
            &&& (line_low(kb.input_spec(), 5) == kb.is_down(Key::U))
            &&& (line_low(kb.input_spec(), 6) == kb.is_down(Key::M))
            &&& (line_low(kb.input_spec(), 7) == kb.is_down(Key::Zero))
        },
        kb.ks == 0x08 ==> {
            &&& (line_low(kb.input_spec(), 0) == kb.is_down(Key::RightParen))
            &&& (line_low(kb.input_spec(), 1) == kb.is_down(Key::L))
            &&& (line_low(kb.input_spec(), 2) == kb.is_down(Key::O))
            &&& (line_low(kb.input_spec(), 3) == kb.is_down(Key::K))
            &&& (line_low(kb.input_spec(), 4) == kb.is_down(Key::F6))
            &&& (line_low(kb.input_spec(), 5) == kb.is_down(Key::I))
            &&& (line_low(kb.input_spec(), 6) == kb.is_down(Key::LeftParen))
            &&& (line_low(kb.input_spec(), 7) == kb.is_down(Key::Enter))
        },
        kb.ks == 0x10 ==> {
            &&& (line_low(kb.input_spec(), 0) == kb.is_down(Key::Plus))
            &&& (line_low(kb.input_spec(), 1) == kb.is_down(Key::Asterisk))
            &&& (line_low(kb.input_spec(), 2) == kb.is_down(Key::Slash))
            &&& (line_low(kb.input_spec(), 3) == kb.is_down(Key::D))
            &&& (line_low(kb.input_spec(), 4) == kb.is_down(Key::F2))
            &&& (line_low(kb.input_spec(), 5) == kb.is_down(Key::E))
            &&& (line_low(kb.input_spec(), 6) == kb.is_down(Key::C))
            &&& (line_low(kb.input_spec(), 7) == kb.is_down(Key::Rcl))
        },
        kb.ks == 0x20 ==> {
            &&& (line_low(kb.input_spec(), 0) == kb.is_down(Key::Equals))
            &&& (line_low(kb.input_spec(), 1) == kb.is_down(Key::Left))
            &&& (line_low(kb.input_spec(), 2) == kb.is_down(Key::P))
            &&& (line_low(kb.input_spec(), 3) == kb.is_down(Key::F))
            &&& (line_low(kb.input_spec(), 4) == kb.is_down(Key::F3))
            &&& (line_low(kb.input_spec(), 5) == kb.is_down(Key::R))
            &&& (line_low(kb.input_spec(), 6) == kb.is_down(Key::V))
            &&& (line_low(kb.input_spec(), 7) == kb.is_down(Key::Space))
        },
        kb.ks == 0x40 ==> {
            &&& (line_low(kb.input_spec(), 0) == kb.is_down(Key::Right))
            &&& (line_low(kb.input_spec(), 1) == kb.is_down(Key::Mode))
            &&& (line_low(kb.input_spec(), 2) == kb.is_down(Key::Cl))
            &&& (line_low(kb.input_spec(), 3) == kb.is_down(Key::A))
            &&& (line_low(kb.input_spec(), 4) == kb.is_down(Key::Control))
            &&& (line_low(kb.input_spec(), 5) == kb.is_down(Key::Q))
            &&& (line_low(kb.input_spec(), 6) == kb.is_down(Key::Z))
            &&& (line_low(kb.input_spec(), 7) == kb.is_down(Key::Sml))
        },
        kb.ks == 0x80 ==> {
            &&& (line_low(kb.input_spec(), 0) == kb.is_down(Key::Three))
            &&& (line_low(kb.input_spec(), 1) == kb.is_down(Key::Six))
            &&& (line_low(kb.input_spec(), 2) == kb.is_down(Key::Nine))
            &&& (line_low(kb.input_spec(), 3) == kb.is_down(Key::G))
            &&& (line_low(kb.input_spec(), 4) == kb.is_down(Key::F4))
            &&& (line_low(kb.input_spec(), 5) == kb.is_down(Key::T))
            &&& (line_low(kb.input_spec(), 6) == kb.is_down(Key::B))
            &&& (line_low(kb.input_spec(), 7) == kb.is_down(Key::Down))
        },
{
    lemma_key_input(&kb);
    assert(1u8 << 0u8 == 0x01u8 && 1u8 << 1u8 == 0x02u8 && 1u8 << 2u8 == 0x04u8 && 1u8 << 3u8 == 0x08u8
        && 1u8 << 4u8 == 0x10u8 && 1u8 << 5u8 == 0x20u8 && 1u8 << 6u8 == 0x40u8 && 1u8 << 7u8 == 0x80u8) by (bit_vector);
    if kb.ks == 0x01 {
        assert(kb.ks == 1u8 << 0u8);
        lemma_key_input_line(kb.pressed_keys@, 0u8, 0u8);
        lemma_key_input_line(kb.pressed_keys@, 0u8, 1u8);
        lemma_key_input_line(kb.pressed_keys@, 0u8, 2u8);
        lemma_key_input_line(kb.pressed_keys@, 0u8, 3u8);
        lemma_key_input_line(kb.pressed_keys@, 0u8, 4u8);
        lemma_key_input_line(kb.pressed_keys@, 0u8, 5u8);
        lemma_key_input_line(kb.pressed_keys@, 0u8, 6u8);
        lemma_key_input_line(kb.pressed_keys@, 0u8, 7u8);
    }
    if kb.ks == 0x02 {
        assert(kb.ks == 1u8 << 1u8);
        lemma_key_input_line(kb.pressed_keys@, 1u8, 0u8);
        lemma_key_input_line(kb.pressed_keys@, 1u8, 1u8);
        lemma_key_input_line(kb.pressed_keys@, 1u8, 2u8);
        lemma_key_input_line(kb.pressed_keys@, 1u8, 3u8);
        lemma_key_input_line(kb.pressed_keys@, 1u8, 4u8);
        lemma_key_input_line(kb.pressed_keys@, 1u8, 5u8);
        lemma_key_input_line(kb.pressed_keys@, 1u8, 6u8);
        lemma_key_input_line(kb.pressed_keys@, 1u8, 7u8);
    }
    if kb.ks == 0x04 {
        assert(kb.ks == 1u8 << 2u8);
        lemma_key_input_line(kb.pressed_keys@, 2u8, 0u8);
        lemma_key_input_line(kb.pressed_keys@, 2u8, 1u8);
        lemma_key_input_line(kb.pressed_keys@, 2u8, 2u8);
        lemma_key_input_line(kb.pressed_keys@, 2u8, 3u8);
        lemma_key_input_line(kb.pressed_keys@, 2u8, 4u8);
        lemma_key_input_line(kb.pressed_keys@, 2u8, 5u8);
        lemma_key_input_line(kb.pressed_keys@, 2u8, 6u8);
        lemma_key_input_line(kb.pressed_keys@, 2u8, 7u8);
    }
    if kb.ks == 0x08 {
        assert(kb.ks == 1u8 << 3u8);
        lemma_key_input_line(kb.pressed_keys@, 3u8, 0u8);
        lemma_key_input_line(kb.pressed_keys@, 3u8, 1u8);
        lemma_key_input_line(kb.pressed_keys@, 3u8, 2u8);
        lemma_key_input_line(kb.pressed_keys@, 3u8, 3u8);
        lemma_key_input_line(kb.pressed_keys@, 3u8, 4u8);
        lemma_key_input_line(kb.pressed_keys@, 3u8, 5u8);
        lemma_key_input_line(kb.pressed_keys@, 3u8, 6u8);
        lemma_key_input_line(kb.pressed_keys@, 3u8, 7u8);
    }
    if kb.ks == 0x10 {
        assert(kb.ks == 1u8 << 4u8);
        lemma_key_input_line(kb.pressed_keys@, 4u8, 0u8);
        lemma_key_input_line(kb.pressed_keys@, 4u8, 1u8);
        lemma_key_input_line(kb.pressed_keys@, 4u8, 2u8);
        lemma_key_input_line(kb.pressed_keys@, 4u8, 3u8);
        lemma_key_input_line(kb.pressed_keys@, 4u8, 4u8);
        lemma_key_input_line(kb.pressed_keys@, 4u8, 5u8);
        lemma_key_input_line(kb.pressed_keys@, 4u8, 6u8);
        lemma_key_input_line(kb.pressed_keys@, 4u8, 7u8);
    }
    if kb.ks == 0x20 {
        assert(kb.ks == 1u8 << 5u8);
        lemma_key_input_line(kb.pressed_keys@, 5u8, 0u8);
        lemma_key_input_line(kb.pressed_keys@, 5u8, 1u8);
        lemma_key_input_line(kb.pressed_keys@, 5u8, 2u8);
        lemma_key_input_line(kb.pressed_keys@, 5u8, 3u8);
        lemma_key_input_line(kb.pressed_keys@, 5u8, 4u8);
        lemma_key_input_line(kb.pressed_keys@, 5u8, 5u8);
        lemma_key_input_line(kb.pressed_keys@, 5u8, 6u8);
        lemma_key_input_line(kb.pressed_keys@, 5u8, 7u8);
    }
    if kb.ks == 0x40 {
        assert(kb.ks == 1u8 << 6u8);
        lemma_key_input_line(kb.pressed_keys@, 6u8, 0u8);
        lemma_key_input_line(kb.pressed_keys@, 6u8, 1u8);
        lemma_key_input_line(kb.pressed_keys@, 6u8, 2u8);
        lemma_key_input_line(kb.pressed_keys@, 6u8, 3u8);
        lemma_key_input_line(kb.pressed_keys@, 6u8, 4u8);
        lemma_key_input_line(kb.pressed_keys@, 6u8, 5u8);
        lemma_key_input_line(kb.pressed_keys@, 6u8, 6u8);
        lemma_key_input_line(kb.pressed_keys@, 6u8, 7u8);
    }
    if kb.ks == 0x80 {
        assert(kb.ks == 1u8 << 7u8);
        lemma_key_input_line(kb.pressed_keys@, 7u8, 0u8);
        lemma_key_input_line(kb.pressed_keys@, 7u8, 1u8);
        lemma_key_input_line(kb.pressed_keys@, 7u8, 2u8);
        lemma_key_input_line(kb.pressed_keys@, 7u8, 3u8);
        lemma_key_input_line(kb.pressed_keys@, 7u8, 4u8);
        lemma_key_input_line(kb.pressed_keys@, 7u8, 5u8);
        lemma_key_input_line(kb.pressed_keys@, 7u8, 6u8);
        lemma_key_input_line(kb.pressed_keys@, 7u8, 7u8);
    }
}

} // verus!
