// What each LH5801 instruction does to the machine, as functions of its view:
// one step function per helper, and one effect function per opcode group.
use vstd::prelude::*;
use crate::Pc1500View;
use crate::lh5801::{
    Lh5801, CF, IE, ZF, VF, HF, add_result, add_flags, debug_count_after, stack_addr, decimal_adjust, debug_trips,
    swap_nibbles, ror_result, rol_result, shr_v, shift_flags, with_flag, lo_byte, hi_byte, with_lo, with_hi,
    inc16, dec16, add16, sub16, me1, stack_in_ram, lemma_push_pop_word,
};
use crate::keyboard::{Key, Keyboard, matrix_key, key_index};

verus! {

/// Return lines driven by the first `n` keys of strobe row `row`, for the
/// pressed-key table `keys`.
pub open spec fn keys_row_bits(keys: Seq<bool>, row: int, n: int) -> u8
    decreases n,
{
    if n <= 0 {
        0
    } else {
        keys_row_bits(keys, row, n - 1) | (if keys[key_index(matrix_key(row, n - 1))] { 1u8 << ((n - 1) as u8) } else { 0u8 })
    }
}

/// Return lines driven by the strobed rows among the first `n` rows.
pub open spec fn keys_rows_bits(keys: Seq<bool>, ks: u8, n: int) -> u8
    decreases n,
{
    if n <= 0 {
        0
    } else {
        keys_rows_bits(keys, ks, n - 1) | (if ks & (1u8 << ((n - 1) as u8)) != 0 { keys_row_bits(keys, n - 1, 8) } else { 0u8 })
    }
}

/// What ITA reads for strobe lines `ks` and pressed-key table `keys`.
pub open spec fn key_input(ks: u8, keys: Seq<bool>) -> u8 {
    keys_rows_bits(keys, ks, 8) ^ 0xff
}

proof fn lemma_row_bits_view(kb: &Keyboard, row: int, n: int)
    ensures
        kb.row_bits(row, n) == keys_row_bits(kb.pressed_keys@, row, n),
    decreases n,
{
    if n > 0 {
        lemma_row_bits_view(kb, row, n - 1);
    }
}

proof fn lemma_rows_bits_view(kb: &Keyboard, ks: u8, n: int)
    ensures
        kb.rows_bits(ks, n) == keys_rows_bits(kb.pressed_keys@, ks, n),
    decreases n,
{
    if n > 0 {
        lemma_rows_bits_view(kb, ks, n - 1);
        lemma_row_bits_view(kb, n - 1, 8);
    }
}

/// What the keyboard returns to ITA depends only on the strobe lines and
/// the pressed-key table.
pub proof fn lemma_key_input(kb: &Keyboard)
    ensures
        kb.input_spec() == key_input(kb.ks, kb.pressed_keys@),
{
    lemma_rows_bits_view(kb, kb.ks, 8);
}

/// Byte facts used by the keyboard laws: OR keeps "no extra bits", a byte
/// ANDed with its complement is zero, inverting swaps the roles of two bit
/// sets, one-hot strobe bits meet only when equal, zero is neutral for OR,
/// and a bit of an inverted byte is low exactly when it was high.
proof fn lemma_byte_facts(a1: u8, a2: u8, x1: u8, x2: u8, y: u8, r: u8, s: u8, c: u8)
    by (bit_vector)
    requires
        r < 8,
        s < 8,
        c < 8,
    ensures
        (a1 & !a2 == 0 && x1 & !x2 == 0) ==> (a1 | x1) & !(a2 | x2) == 0,
        y & !y == 0,
        0u8 & !y == 0,
        a1 & !a2 == 0 ==> (a2 ^ 0xff) & !(a1 ^ 0xff) == 0,
        0u8 ^ 0xff == 0xffu8,
        0u8 & (1u8 << s) == 0,
        ((1u8 << r) & (1u8 << s) != 0) == (r == s),
        a1 | 0u8 == a1,
        0u8 | a1 == a1,
        ((((a1 ^ 0xff) >> c) & 1) == 0) == (((a1 >> c) & 1) != 0),
{
}

proof fn lemma_or_bits(a1: u8, a2: u8, x1: u8, x2: u8, y: u8)
    ensures
        (a1 & !a2 == 0 && x1 & !x2 == 0) ==> (a1 | x1) & !(a2 | x2) == 0,
        y & !y == 0,
        0u8 & !y == 0,
{
    lemma_byte_facts(a1, a2, x1, x2, y, 0, 0, 0);
}

proof fn lemma_invert_bits(r1: u8, r2: u8)
    ensures
        r1 & !r2 == 0 ==> (r2 ^ 0xff) & !(r1 ^ 0xff) == 0,
        0u8 ^ 0xff == 0xffu8,
{
    lemma_byte_facts(r1, r2, 0, 0, 0, 0, 0, 0);
}

proof fn lemma_no_strobe(s: u8)
    requires
        s < 8,
    ensures
        0u8 & (1u8 << s) == 0,
{
    lemma_byte_facts(0, 0, 0, 0, 0, 0, s, 0);
}

proof fn lemma_row_bits_mono(k1: Seq<bool>, k2: Seq<bool>, row: int, n: int)
    requires
        forall|i: int| 0 <= i < 66 ==> (#[trigger] k1[i] ==> k2[i]),
    ensures
        keys_row_bits(k1, row, n) & !keys_row_bits(k2, row, n) == 0,
    decreases n,
{
    crate::keyboard::lemma_key_index_injective();
    if n > 0 {
        lemma_row_bits_mono(k1, k2, row, n - 1);
        let i = key_index(matrix_key(row, n - 1));
        assert(k1[i] ==> k2[i]);
        let bit = 1u8 << ((n - 1) as u8);
        let x1 = if k1[i] { bit } else { 0u8 };
        let x2 = if k2[i] { bit } else { 0u8 };
        lemma_or_bits(keys_row_bits(k1, row, n - 1), keys_row_bits(k2, row, n - 1), x1, x2, bit);
        lemma_or_bits(0, 0, 0, 0, x2);
        assert(keys_row_bits(k1, row, n) == keys_row_bits(k1, row, n - 1) | x1);
        assert(keys_row_bits(k2, row, n) == keys_row_bits(k2, row, n - 1) | x2);
    } else {
        lemma_or_bits(0, 0, 0, 0, 0);
    }
}

proof fn lemma_rows_bits_mono(k1: Seq<bool>, k2: Seq<bool>, ks: u8, n: int)
    requires
        forall|i: int| 0 <= i < 66 ==> (#[trigger] k1[i] ==> k2[i]),
    ensures
        keys_rows_bits(k1, ks, n) & !keys_rows_bits(k2, ks, n) == 0,
    decreases n,
{
    if n > 0 {
        lemma_rows_bits_mono(k1, k2, ks, n - 1);
        lemma_row_bits_mono(k1, k2, n - 1, 8);
        let taken = ks & (1u8 << ((n - 1) as u8)) != 0;
        let x1 = if taken { keys_row_bits(k1, n - 1, 8) } else { 0u8 };
        let x2 = if taken { keys_row_bits(k2, n - 1, 8) } else { 0u8 };
        lemma_or_bits(keys_rows_bits(k1, ks, n - 1), keys_rows_bits(k2, ks, n - 1), x1, x2, x2);
        lemma_or_bits(0, 0, 0, 0, 0);
        assert(keys_rows_bits(k1, ks, n) == keys_rows_bits(k1, ks, n - 1) | x1);
        assert(keys_rows_bits(k2, ks, n) == keys_rows_bits(k2, ks, n - 1) | x2);
    } else {
        lemma_or_bits(0, 0, 0, 0, 0);
    }
}

proof fn lemma_rows_bits_no_strobe(keys: Seq<bool>, n: int)
    requires
        n <= 8,
    ensures
        keys_rows_bits(keys, 0, n) == 0,
    decreases n,
{
    if n > 0 {
        lemma_rows_bits_no_strobe(keys, n - 1);
        lemma_no_strobe((n - 1) as u8);
        lemma_byte_facts(0, 0, 0, 0, 0, 0, 0, 0);
    }
}

/// Holding more keys only pulls more return lines low: with the same strobe
/// lines, every line that reads low with keys `k1` held also reads low with
/// the larger set `k2`; with no strobe line driven the lines all read high.
pub proof fn lemma_key_input_monotone(ks: u8, k1: Seq<bool>, k2: Seq<bool>)
    requires
        forall|i: int| 0 <= i < 66 ==> (#[trigger] k1[i] ==> k2[i]),
    ensures
        key_input(ks, k2) & !key_input(ks, k1) == 0,
        key_input(0, k1) == 0xff,
{
    lemma_rows_bits_mono(k1, k2, ks, 8);
    lemma_invert_bits(keys_rows_bits(k1, ks, 8), keys_rows_bits(k2, ks, 8));
    lemma_rows_bits_no_strobe(k1, 8);
}

proof fn lemma_row_bits_ignore(keys: Seq<bool>, k: Key, v: bool, row: int, n: int)
    requires
        k == Key::On || k == Key::Quote,
        keys.len() >= 66,
        0 <= row < 8,
        n <= 8,
    ensures
        keys_row_bits(keys.update(key_index(k), v), row, n) == keys_row_bits(keys, row, n),
    decreases n,
{
    crate::keyboard::lemma_key_index_injective();
    if n > 0 {
        lemma_row_bits_ignore(keys, k, v, row, n - 1);
        assert(matrix_key(row, n - 1) != k);
        assert(key_index(matrix_key(row, n - 1)) != key_index(k));
        assert(keys.update(key_index(k), v)[key_index(matrix_key(row, n - 1))] == keys[key_index(matrix_key(row, n - 1))]);
    }
}

proof fn lemma_rows_bits_ignore(keys: Seq<bool>, k: Key, v: bool, ks: u8, n: int)
    requires
        k == Key::On || k == Key::Quote,
        keys.len() >= 66,
        n <= 8,
    ensures
        keys_rows_bits(keys.update(key_index(k), v), ks, n) == keys_rows_bits(keys, ks, n),
    decreases n,
{
    if n > 0 {
        lemma_rows_bits_ignore(keys, k, v, ks, n - 1);
        lemma_row_bits_ignore(keys, k, v, n - 1, 8);
    }
}

/// ON and the quote key are not wired into the strobe matrix: whether they
/// are held never changes what the return lines read.
pub proof fn lemma_key_input_ignores_on_and_quote(ks: u8, keys: Seq<bool>, k: Key, v: bool)
    requires
        k == Key::On || k == Key::Quote,
        keys.len() >= 66,
    ensures
        key_input(ks, keys.update(key_index(k), v)) == key_input(ks, keys),
{
    lemma_rows_bits_ignore(keys, k, v, ks, 8);
}

proof fn lemma_row_bits_bit(keys: Seq<bool>, row: int, n: int, c: u8)
    requires
        0 <= n <= 8,
        c < 8,
    ensures
        ((keys_row_bits(keys, row, n) >> c) & 1 != 0) == (c < n && keys[key_index(matrix_key(row, c as int))]),
    decreases n,
{
    crate::keyboard_controller::lemma_bit_of_or(0, 0, c);
    if n > 0 {
        lemma_row_bits_bit(keys, row, n - 1, c);
        crate::keyboard_controller::lemma_bit_of_or(keys_row_bits(keys, row, n - 1), (n - 1) as u8, c);
    }
}

proof fn lemma_rows_bits_one_row(keys: Seq<bool>, r: u8, n: int)
    requires
        r < 8,
        0 <= n <= 8,
    ensures
        keys_rows_bits(keys, 1u8 << r, n) == (if (r as int) < n { keys_row_bits(keys, r as int, 8) } else { 0u8 }),
    decreases n,
{
    if n > 0 {
        lemma_rows_bits_one_row(keys, r, n - 1);
        lemma_byte_facts(keys_row_bits(keys, r as int, 8), 0, 0, 0, 0, r, (n - 1) as u8, 0);
        lemma_byte_facts(0, 0, 0, 0, 0, r, (n - 1) as u8, 0);
    }
}

/// Strobing only row `r` (ks = 1 << r), return line `c` of what ITA reads
/// is pulled low exactly when the key wired to row `r`, line `c` is held.
pub proof fn lemma_key_input_line(keys: Seq<bool>, r: u8, c: u8)
    requires
        r < 8,
        c < 8,
    ensures
        (((key_input(1u8 << r, keys) >> c) & 1) == 0) == keys[key_index(matrix_key(r as int, c as int))],
{
    lemma_rows_bits_one_row(keys, r, 8);
    lemma_row_bits_bit(keys, r as int, 8, c);
    lemma_byte_facts(keys_rows_bits(keys, 1u8 << r, 8), 0, 0, 0, 0, 0, 0, c);
}

impl Pc1500View {
    /// Machine time moved on by `n` cycles.
    pub open spec fn tick(self, n: int) -> Pc1500View {
        self.with_cpu(Lh5801 {
            timer_state: (self.cpu.timer_state + n) as usize,
            ticks: (self.cpu.ticks + n) as usize,
            ..self.cpu
        })
    }

    /// P moved past `n` operand bytes (1 or 2).
    pub open spec fn skip_s(self, n: int) -> Pc1500View {
        if n == 1 {
            self.with_cpu(Lh5801 { p: inc16(self.cpu.p), ..self.cpu })
        } else {
            self.with_cpu(Lh5801 { p: inc16(inc16(self.cpu.p)), ..self.cpu })
        }
    }

    /// The big-endian operand word at P.
    pub open spec fn op_word(self) -> u16 {
        ((self.mem_read(self.cpu.p as u32) as u16) << 8u16) | (self.mem_read(inc16(self.cpu.p) as u32) as u16)
    }

    /// T with `flag` set to `v`.
    pub open spec fn with_flag_s(self, flag: u8, v: bool) -> Pc1500View {
        self.with_cpu(Lh5801 { t: with_flag(self.cpu.t, flag, v), ..self.cpu })
    }

    pub open spec fn adc_s(self, data: u8) -> Pc1500View {
        let c = self.cpu.t & CF != 0;
        let a = self.cpu.a;
        self.with_cpu(Lh5801 { a: add_result(a, data, c), t: add_flags(self.cpu.t, a, data, c), ..self.cpu })
    }

    pub open spec fn sbc_s(self, data: u8) -> Pc1500View {
        let c = self.cpu.t & CF != 0;
        let a = self.cpu.a;
        self.with_cpu(Lh5801 { a: add_result(a, data ^ 0xff, c), t: add_flags(self.cpu.t, a, data ^ 0xff, c), ..self.cpu })
    }

    pub open spec fn cpa_s(self, a: u8, b: u8) -> Pc1500View {
        self.with_cpu(Lh5801 { t: add_flags(self.cpu.t, a, b ^ 0xff, true), ..self.cpu })
    }

    pub open spec fn lda_s(self, data: u8) -> Pc1500View {
        self.with_cpu(Lh5801 { a: data, t: with_flag(self.cpu.t, ZF, data == 0), ..self.cpu })
    }

    pub open spec fn bit_s(self, a: u8, b: u8) -> Pc1500View {
        self.with_cpu(Lh5801 { t: with_flag(self.cpu.t, ZF, a & b == 0), ..self.cpu })
    }

    pub open spec fn and_s(self, data: u8) -> Pc1500View {
        let v = self.cpu.a & data;
        self.with_cpu(Lh5801 { a: v, t: with_flag(self.cpu.t, ZF, v == 0), ..self.cpu })
    }

    pub open spec fn ora_s(self, data: u8) -> Pc1500View {
        let v = self.cpu.a | data;
        self.with_cpu(Lh5801 { a: v, t: with_flag(self.cpu.t, ZF, v == 0), ..self.cpu })
    }

    pub open spec fn eor_s(self, data: u8) -> Pc1500View {
        let v = self.cpu.a ^ data;
        self.with_cpu(Lh5801 { a: v, t: with_flag(self.cpu.t, ZF, v == 0), ..self.cpu })
    }

    pub open spec fn dcs_s(self, data: u8) -> Pc1500View {
        let c = self.cpu.t & CF != 0;
        let a = self.cpu.a;
        let t1 = add_flags(self.cpu.t, a, data ^ 0xff, c);
        self.with_cpu(Lh5801 { a: ((add_result(a, data ^ 0xff, c) + decimal_adjust(t1)) % 256) as u8, t: t1, ..self.cpu })
    }

    pub open spec fn dca_s(self, data: u8) -> Pc1500View {
        let c = self.cpu.t & CF != 0;
        let l = (self.cpu.a + 0x66) as u8;
        let t1 = add_flags(self.cpu.t, l, data, c);
        self.with_cpu(Lh5801 { a: ((add_result(l, data, c) + decimal_adjust(t1)) % 256) as u8, t: t1, ..self.cpu })
    }

    pub open spec fn and_mem_s(self, addr: u32, data: u8) -> Pc1500View {
        let v = data & self.mem_read(addr);
        self.with_cpu(Lh5801 { t: with_flag(self.cpu.t, ZF, v == 0), ..self.cpu }).mem_write(addr, v)
    }

    pub open spec fn ora_mem_s(self, addr: u32, data: u8) -> Pc1500View {
        let v = data | self.mem_read(addr);
        self.with_cpu(Lh5801 { t: with_flag(self.cpu.t, ZF, v == 0), ..self.cpu }).mem_write(addr, v)
    }

    pub open spec fn add_mem_s(self, addr: u32, data: u8) -> Pc1500View {
        let m = self.mem_read(addr);
        self.with_cpu(Lh5801 { t: add_flags(self.cpu.t, m, data, false), ..self.cpu }).mem_write(addr, add_result(m, data, false))
    }

    pub open spec fn drr_s(self, addr: u32) -> Pc1500View {
        let m = self.mem_read(addr);
        let l: u16 = ((m as u16) | ((self.cpu.a as u16) << 8u16)) as u16;
        self.with_cpu(Lh5801 { a: m, ..self.cpu }).mem_write(addr, (l >> 4u16) as u8)
    }

    pub open spec fn drl_s(self, addr: u32) -> Pc1500View {
        let m = self.mem_read(addr);
        let l: u16 = ((self.cpu.a as u16) | ((m as u16) << 8u16)) as u16;
        self.with_cpu(Lh5801 { a: m, ..self.cpu }).mem_write(addr, (l >> 4u16) as u8)
    }

    /// A jump that completed: P at `addr`, the trace counter updated.
    pub open spec fn jmp_s(self, addr: u16) -> Pc1500View {
        self.with_cpu(Lh5801 { p: addr, debug_messages: debug_count_after(self.cpu.debug_messages, addr), ..self.cpu })
    }

    /// A forward branch over the displacement at P that completed.
    pub open spec fn branch_plus_s(self, doit: bool) -> Pc1500View {
        let d = self.mem_read(self.cpu.p as u32);
        let p1 = inc16(self.cpu.p);
        let target = add16(p1, d);
        if doit {
            self.with_cpu(Lh5801 {
                p: target,
                debug_messages: debug_count_after(self.cpu.debug_messages, target),
                timer_state: (self.cpu.timer_state + 2) as usize,
                ticks: (self.cpu.ticks + 2) as usize,
                ..self.cpu
            })
        } else {
            self.with_cpu(Lh5801 { p: p1, ..self.cpu })
        }
    }

    /// A backward branch over the displacement at P that completed.
    pub open spec fn branch_minus_s(self, doit: bool) -> Pc1500View {
        let d = self.mem_read(self.cpu.p as u32);
        let p1 = inc16(self.cpu.p);
        let target = sub16(p1, d);
        if doit {
            self.with_cpu(Lh5801 {
                p: target,
                debug_messages: debug_count_after(self.cpu.debug_messages, target),
                timer_state: (self.cpu.timer_state + 3) as usize,
                ticks: (self.cpu.ticks + 3) as usize,
                ..self.cpu
            })
        } else {
            self.with_cpu(Lh5801 { p: p1, ..self.cpu })
        }
    }

    /// The address a vectored call through 0xFF00 + `nr` jumps to: the word
    /// stored there once the return address has been pushed.
    #[verifier::opaque]
    pub open spec fn vector_target(self, nr: u8) -> u16 {
        self.push_word_spec(self.cpu.p).word_at(0xFF00u32 | (nr as u32))
    }

    /// A vectored call through 0xFF00 + `nr` that completed (or, when not
    /// taken, only Z cleared).
    #[verifier::opaque]
    pub open spec fn vector_s(self, doit: bool, nr: u8) -> Pc1500View {
        if doit {
            let m1 = self.push_word_spec(self.cpu.p);
            let target = m1.word_at(0xFF00u32 | (nr as u32));
            m1.with_cpu(Lh5801 {
                p: target,
                debug_messages: debug_count_after(self.cpu.debug_messages, target),
                timer_state: (self.cpu.timer_state + 13) as usize,
                ticks: (self.cpu.ticks + 13) as usize,
                t: with_flag(self.cpu.t, ZF, false),
                ..m1.cpu
            })
        } else {
            self.with_cpu(Lh5801 { t: with_flag(self.cpu.t, ZF, false), ..self.cpu })
        }
    }

    /// POP A.
    pub open spec fn pop_s(self) -> Pc1500View {
        let s1 = inc16(self.cpu.s);
        let v = self.mem_read(stack_addr(s1));
        self.with_cpu(Lh5801 { s: s1, a: v, t: with_flag(self.cpu.t, ZF, v == 0), ..self.cpu })
    }

    /// ITA: A from the keyboard return lines; Z tells whether no line is high.
    pub open spec fn ita_s(self) -> Pc1500View {
        let v = key_input(self.ks, self.keys);
        self.with_cpu(Lh5801 { a: v, t: with_flag(self.cpu.t, ZF, v == 0), ..self.cpu })
    }

    /// LOP: loop back while UL is not zero, then count UL down.
    pub open spec fn lop_s(self) -> Pc1500View {
        let d = self.mem_read(self.cpu.p as u32);
        let p1 = inc16(self.cpu.p);
        let taken = lo_byte(self.cpu.u) != 0;
        let n: int = if taken { 11 } else { 8 };
        self.with_cpu(Lh5801 {
            p: if taken { sub16(p1, d) } else { p1 },
            u: with_lo(self.cpu.u, ((lo_byte(self.cpu.u) as int - 1) % 256) as u8),
            timer_state: (self.cpu.timer_state + n) as usize,
            ticks: (self.cpu.ticks + n) as usize,
            ..self.cpu
        })
    }

    /// RTI that completed.
    pub open spec fn rti_s(self) -> Pc1500View {
        let target = self.peek_word();
        let s2 = inc16(inc16(self.cpu.s));
        let s3 = inc16(s2);
        self.with_cpu(Lh5801 {
            s: s3,
            p: target,
            t: self.mem_read(stack_addr(s3)),
            debug_messages: debug_count_after(self.cpu.debug_messages, target),
            ..self.cpu
        })
    }

    /// RTN that completed.
    pub open spec fn rtn_s(self) -> Pc1500View {
        let target = self.peek_word();
        let s2 = inc16(inc16(self.cpu.s));
        self.with_cpu(Lh5801 {
            s: s2,
            p: target,
            debug_messages: debug_count_after(self.cpu.debug_messages, target),
            ..self.cpu
        })
    }

    /// SJP that completed.
    pub open spec fn sjp_s(self) -> Pc1500View {
        let target = self.op_word();
        let m1 = self.with_cpu(Lh5801 { p: inc16(inc16(self.cpu.p)), ..self.cpu });
        let m2 = m1.push_word_spec(m1.cpu.p);
        m2.with_cpu(Lh5801 { p: target, debug_messages: debug_count_after(self.cpu.debug_messages, target), ..m2.cpu })
    }

    pub open spec fn ror_s(self) -> Pc1500View {
        let l = self.cpu.a;
        let a = ror_result(l, self.cpu.t & CF != 0);
        self.with_cpu(Lh5801 { a, t: shift_flags(self.cpu.t, l & 0x01 != 0, a == 0, a & 0x08 != 0, shr_v(l, a)), ..self.cpu })
    }

    pub open spec fn shr_s(self) -> Pc1500View {
        let l = self.cpu.a;
        let a = l >> 1u8;
        self.with_cpu(Lh5801 { a, t: shift_flags(self.cpu.t, l & 0x01 != 0, a == 0, a & 0x08 != 0, shr_v(l, a)), ..self.cpu })
    }

    pub open spec fn shl_s(self) -> Pc1500View {
        let l = self.cpu.a;
        let a = ((l as u16) << 1u16) as u8;
        self.with_cpu(Lh5801 { a, t: shift_flags(self.cpu.t, l & 0x80 != 0, a == 0, l & 0x08 != 0, l >= 0x40 && l < 0xc0), ..self.cpu })
    }

    pub open spec fn rol_s(self) -> Pc1500View {
        let l = self.cpu.a;
        let a = rol_result(l, self.cpu.t & CF != 0);
        self.with_cpu(Lh5801 { a, t: shift_flags(self.cpu.t, l & 0x80 != 0, a == 0, a & 0x10 != 0, l >= 0x40 && l < 0xc0), ..self.cpu })
    }

    pub open spec fn aex_s(self) -> Pc1500View {
        self.with_cpu(Lh5801 { a: swap_nibbles(self.cpu.a), ..self.cpu })
    }
}

#[verifier::opaque]
pub open spec fn op_00(m: Pc1500View) -> Pc1500View {
    let v84 = (lo_byte(m.cpu.x));
    let m1 = m.sbc_s(v84);
    let m2 = m1.tick(6);
    m2
}

#[verifier::opaque]
pub open spec fn op_01(m: Pc1500View) -> Pc1500View {
    let v85 = ((m.cpu.x)) as u32;
    let val = m.mem_read(v85);
    let m1 = m.sbc_s(val);
    let m2 = m1.tick(7);
    m2
}

#[verifier::opaque]
pub open spec fn op_02(m: Pc1500View) -> Pc1500View {
    let v86 = (lo_byte(m.cpu.x));
    let m1 = m.adc_s(v86);
    let m2 = m1.tick(6);
    m2
}

#[verifier::opaque]
pub open spec fn op_03(m: Pc1500View) -> Pc1500View {
    let v87 = ((m.cpu.x)) as u32;
    let val = m.mem_read(v87);
    let m1 = m.adc_s(val);
    let m2 = m1.tick(7);
    m2
}

#[verifier::opaque]
pub open spec fn op_04(m: Pc1500View) -> Pc1500View {
    let v88 = (lo_byte(m.cpu.x));
    let m1 = m.lda_s(v88);
    let m2 = m1.tick(5);
    m2
}

#[verifier::opaque]
pub open spec fn op_05(m: Pc1500View) -> Pc1500View {
    let v89 = ((m.cpu.x)) as u32;
    let val = m.mem_read(v89);
    let m1 = m.lda_s(val);
    let m2 = m1.tick(6);
    m2
}

#[verifier::opaque]
pub open spec fn op_06(m: Pc1500View) -> Pc1500View {
    let v90 = m.cpu.a;
    let v91 = (lo_byte(m.cpu.x));
    let m1 = m.cpa_s(v90, v91);
    let m2 = m1.tick(6);
    m2
}

#[verifier::opaque]
pub open spec fn op_07(m: Pc1500View) -> Pc1500View {
    let v92 = ((m.cpu.x)) as u32;
    let val = m.mem_read(v92);
    let v93 = m.cpu.a;
    let m1 = m.cpa_s(v93, val);
    let m2 = m1.tick(7);
    m2
}

#[verifier::opaque]
pub open spec fn op_08(m: Pc1500View) -> Pc1500View {
    let v94 = m.cpu.a;
    let m1 = m.with_cpu(Lh5801 { x: with_hi(m.cpu.x, v94), ..m.cpu });
    let m2 = m1.tick(5);
    m2
}

#[verifier::opaque]
pub open spec fn op_09(m: Pc1500View) -> Pc1500View {
    let v95 = ((m.cpu.x)) as u32;
    let val = m.mem_read(v95);
    let m1 = m.and_s(val);
    let m2 = m1.tick(7);
    m2
}

#[verifier::opaque]
pub open spec fn op_0a(m: Pc1500View) -> Pc1500View {
    let v96 = m.cpu.a;
    let m1 = m.with_cpu(Lh5801 { x: with_lo(m.cpu.x, v96), ..m.cpu });
    let m2 = m1.tick(5);
    m2
}

#[verifier::opaque]
pub open spec fn op_0b(m: Pc1500View) -> Pc1500View {
    let v97 = ((m.cpu.x)) as u32;
    let val = m.mem_read(v97);
    let m1 = m.ora_s(val);
    let m2 = m1.tick(7);
    m2
}

#[verifier::opaque]
pub open spec fn op_0c(m: Pc1500View) -> Pc1500View {
    let v98 = ((m.cpu.x)) as u32;
    let val = m.mem_read(v98);
    let m1 = m.dcs_s(val);
    let m2 = m1.tick(13);
    m2
}

#[verifier::opaque]
pub open spec fn op_0d(m: Pc1500View) -> Pc1500View {
    let v99 = ((m.cpu.x)) as u32;
    let val = m.mem_read(v99);
    let m1 = m.eor_s(val);
    let m2 = m1.tick(7);
    m2
}

#[verifier::opaque]
pub open spec fn op_0e(m: Pc1500View) -> Pc1500View {
    let v100 = ((m.cpu.x)) as u32;
    let v101 = m.cpu.a;
    let m1 = m.mem_write(v100, v101);
    let m2 = m1.tick(6);
    m2
}

#[verifier::opaque]
pub open spec fn op_0f(m: Pc1500View) -> Pc1500View {
    let v102 = ((m.cpu.x)) as u32;
    let val = m.mem_read(v102);
    let v103 = m.cpu.a;
    let m1 = m.bit_s(val, v103);
    let m2 = m1.tick(7);
    m2
}

#[verifier::opaque]
pub open spec fn op_10(m: Pc1500View) -> Pc1500View {
    let v104 = (lo_byte(m.cpu.y));
    let m1 = m.sbc_s(v104);
    let m2 = m1.tick(6);
    m2
}

#[verifier::opaque]
pub open spec fn op_11(m: Pc1500View) -> Pc1500View {
    let v105 = ((m.cpu.y)) as u32;
    let val = m.mem_read(v105);
    let m1 = m.sbc_s(val);
    let m2 = m1.tick(7);
    m2
}

#[verifier::opaque]
pub open spec fn op_12(m: Pc1500View) -> Pc1500View {
    let v106 = (lo_byte(m.cpu.y));
    let m1 = m.adc_s(v106);
    let m2 = m1.tick(6);
    m2
}

#[verifier::opaque]
pub open spec fn op_13(m: Pc1500View) -> Pc1500View {
    let v107 = ((m.cpu.y)) as u32;
    let val = m.mem_read(v107);
    let m1 = m.adc_s(val);
    let m2 = m1.tick(7);
    m2
}

#[verifier::opaque]
pub open spec fn op_14(m: Pc1500View) -> Pc1500View {
    let v108 = (lo_byte(m.cpu.y));
    let m1 = m.lda_s(v108);
    let m2 = m1.tick(5);
    m2
}

#[verifier::opaque]
pub open spec fn op_15(m: Pc1500View) -> Pc1500View {
    let v109 = ((m.cpu.y)) as u32;
    let val = m.mem_read(v109);
    let m1 = m.lda_s(val);
    let m2 = m1.tick(6);
    m2
}

#[verifier::opaque]
pub open spec fn op_16(m: Pc1500View) -> Pc1500View {
    let v110 = m.cpu.a;
    let v111 = (lo_byte(m.cpu.y));
    let m1 = m.cpa_s(v110, v111);
    let m2 = m1.tick(6);
    m2
}

#[verifier::opaque]
pub open spec fn op_17(m: Pc1500View) -> Pc1500View {
    let v112 = ((m.cpu.y)) as u32;
    let val = m.mem_read(v112);
    let v113 = m.cpu.a;
    let m1 = m.cpa_s(v113, val);
    let m2 = m1.tick(7);
    m2
}

#[verifier::opaque]
pub open spec fn op_18(m: Pc1500View) -> Pc1500View {
    let v114 = m.cpu.a;
    let m1 = m.with_cpu(Lh5801 { y: with_hi(m.cpu.y, v114), ..m.cpu });
    let m2 = m1.tick(5);
    m2
}

#[verifier::opaque]
pub open spec fn op_19(m: Pc1500View) -> Pc1500View {
    let v115 = ((m.cpu.y)) as u32;
    let val = m.mem_read(v115);
    let m1 = m.and_s(val);
    let m2 = m1.tick(7);
    m2
}

#[verifier::opaque]
pub open spec fn op_1a(m: Pc1500View) -> Pc1500View {
    let v116 = m.cpu.a;
    let m1 = m.with_cpu(Lh5801 { y: with_lo(m.cpu.y, v116), ..m.cpu });
    let m2 = m1.tick(5);
    m2
}

#[verifier::opaque]
pub open spec fn op_1b(m: Pc1500View) -> Pc1500View {
    let v117 = ((m.cpu.y)) as u32;
    let val = m.mem_read(v117);
    let m1 = m.ora_s(val);
    let m2 = m1.tick(7);
    m2
}

#[verifier::opaque]
pub open spec fn op_1c(m: Pc1500View) -> Pc1500View {
    let v118 = ((m.cpu.y)) as u32;
    let val = m.mem_read(v118);
    let m1 = m.dcs_s(val);
    let m2 = m1.tick(13);
    m2
}

#[verifier::opaque]
pub open spec fn op_1d(m: Pc1500View) -> Pc1500View {
    let v119 = ((m.cpu.y)) as u32;
    let val = m.mem_read(v119);
    let m1 = m.eor_s(val);
    let m2 = m1.tick(7);
    m2
}

#[verifier::opaque]
pub open spec fn op_1e(m: Pc1500View) -> Pc1500View {
    let v120 = ((m.cpu.y)) as u32;
    let v121 = m.cpu.a;
    let m1 = m.mem_write(v120, v121);
    let m2 = m1.tick(6);
    m2
}

#[verifier::opaque]
pub open spec fn op_1f(m: Pc1500View) -> Pc1500View {
    let v122 = ((m.cpu.y)) as u32;
    let val = m.mem_read(v122);
    let v123 = m.cpu.a;
    let m1 = m.bit_s(val, v123);
    let m2 = m1.tick(7);
    m2
}

#[verifier::opaque]
pub open spec fn op_20(m: Pc1500View) -> Pc1500View {
    let v124 = (lo_byte(m.cpu.u));
    let m1 = m.sbc_s(v124);
    let m2 = m1.tick(6);
    m2
}

#[verifier::opaque]
pub open spec fn op_21(m: Pc1500View) -> Pc1500View {
    let v125 = ((m.cpu.u)) as u32;
    let val = m.mem_read(v125);
    let m1 = m.sbc_s(val);
    let m2 = m1.tick(7);
    m2
}

#[verifier::opaque]
pub open spec fn op_22(m: Pc1500View) -> Pc1500View {
    let v126 = (lo_byte(m.cpu.u));
    let m1 = m.adc_s(v126);
    let m2 = m1.tick(6);
    m2
}

#[verifier::opaque]
pub open spec fn op_23(m: Pc1500View) -> Pc1500View {
    let v127 = ((m.cpu.u)) as u32;
    let val = m.mem_read(v127);
    let m1 = m.adc_s(val);
    let m2 = m1.tick(7);
    m2
}

#[verifier::opaque]
pub open spec fn op_24(m: Pc1500View) -> Pc1500View {
    let v128 = (lo_byte(m.cpu.u));
    let m1 = m.lda_s(v128);
    let m2 = m1.tick(5);
    m2
}

#[verifier::opaque]
pub open spec fn op_25(m: Pc1500View) -> Pc1500View {
    let v129 = ((m.cpu.u)) as u32;
    let val = m.mem_read(v129);
    let m1 = m.lda_s(val);
    let m2 = m1.tick(6);
    m2
}

#[verifier::opaque]
pub open spec fn op_26(m: Pc1500View) -> Pc1500View {
    let v130 = m.cpu.a;
    let v131 = (lo_byte(m.cpu.u));
    let m1 = m.cpa_s(v130, v131);
    let m2 = m1.tick(6);
    m2
}

#[verifier::opaque]
pub open spec fn op_27(m: Pc1500View) -> Pc1500View {
    let v132 = ((m.cpu.u)) as u32;
    let val = m.mem_read(v132);
    let v133 = m.cpu.a;
    let m1 = m.cpa_s(v133, val);
    let m2 = m1.tick(7);
    m2
}

#[verifier::opaque]
pub open spec fn op_28(m: Pc1500View) -> Pc1500View {
    let v134 = m.cpu.a;
    let m1 = m.with_cpu(Lh5801 { u: with_hi(m.cpu.u, v134), ..m.cpu });
    let m2 = m1.tick(5);
    m2
}

#[verifier::opaque]
pub open spec fn op_29(m: Pc1500View) -> Pc1500View {
    let v135 = ((m.cpu.u)) as u32;
    let val = m.mem_read(v135);
    let m1 = m.and_s(val);
    let m2 = m1.tick(7);
    m2
}

#[verifier::opaque]
pub open spec fn op_2a(m: Pc1500View) -> Pc1500View {
    let v136 = m.cpu.a;
    let m1 = m.with_cpu(Lh5801 { u: with_lo(m.cpu.u, v136), ..m.cpu });
    let m2 = m1.tick(5);
    m2
}

#[verifier::opaque]
pub open spec fn op_2b(m: Pc1500View) -> Pc1500View {
    let v137 = ((m.cpu.u)) as u32;
    let val = m.mem_read(v137);
    let m1 = m.ora_s(val);
    let m2 = m1.tick(7);
    m2
}

#[verifier::opaque]
pub open spec fn op_2c(m: Pc1500View) -> Pc1500View {
    let v138 = ((m.cpu.u)) as u32;
    let val = m.mem_read(v138);
    let m1 = m.dcs_s(val);
    let m2 = m1.tick(13);
    m2
}

#[verifier::opaque]
pub open spec fn op_2d(m: Pc1500View) -> Pc1500View {
    let v139 = ((m.cpu.u)) as u32;
    let val = m.mem_read(v139);
    let m1 = m.eor_s(val);
    let m2 = m1.tick(7);
    m2
}

#[verifier::opaque]
pub open spec fn op_2e(m: Pc1500View) -> Pc1500View {
    let v140 = ((m.cpu.u)) as u32;
    let v141 = m.cpu.a;
    let m1 = m.mem_write(v140, v141);
    let m2 = m1.tick(6);
    m2
}

#[verifier::opaque]
pub open spec fn op_2f(m: Pc1500View) -> Pc1500View {
    let v142 = ((m.cpu.u)) as u32;
    let val = m.mem_read(v142);
    let v143 = m.cpu.a;
    let m1 = m.bit_s(val, v143);
    let m2 = m1.tick(7);
    m2
}

#[verifier::opaque]
pub open spec fn op_30(m: Pc1500View) -> Pc1500View {
    let m1 = m.sbc_s(0);
    let m2 = m1.tick(6);
    m2
}

#[verifier::opaque]
pub open spec fn op_32(m: Pc1500View) -> Pc1500View {
    let m1 = m.adc_s(0);
    let m2 = m1.tick(6);
    m2
}

#[verifier::opaque]
pub open spec fn op_34(m: Pc1500View) -> Pc1500View {
    let m1 = m.lda_s(0);
    let m2 = m1.tick(5);
    m2
}

#[verifier::opaque]
pub open spec fn op_36(m: Pc1500View) -> Pc1500View {
    let v144 = m.cpu.a;
    let m1 = m.cpa_s(v144, 0);
    let m2 = m1.tick(6);
    m2
}

#[verifier::opaque]
pub open spec fn op_38(m: Pc1500View) -> Pc1500View {
    let m1 = m.tick(5);
    m1
}

#[verifier::opaque]
pub open spec fn op_40(m: Pc1500View) -> Pc1500View {
    let v145 = (lo_byte(m.cpu.x));
    let inc = add_result(v145, 1, false);
    let m1 = m.with_cpu(Lh5801 { t: add_flags(m.cpu.t, v145, 1, false), ..m.cpu });
    let m2 = m1.with_cpu(Lh5801 { x: with_lo(m1.cpu.x, inc), ..m1.cpu });
    let m3 = m2.tick(5);
    m3
}

#[verifier::opaque]
pub open spec fn op_41(m: Pc1500View) -> Pc1500View {
    let v146 = m.cpu.x;
    let v147 = inc16(v146);
    let m1 = m.mem_write((v146) as u32, m.cpu.a);
    let m2 = m1.with_cpu(Lh5801 { x: v147, ..m1.cpu });
    let m3 = m2.tick(6);
    m3
}

#[verifier::opaque]
pub open spec fn op_42(m: Pc1500View) -> Pc1500View {
    let v148 = (lo_byte(m.cpu.x));
    let dec = add_result(v148, 0xff, false);
    let m1 = m.with_cpu(Lh5801 { t: add_flags(m.cpu.t, v148, 0xff, false), ..m.cpu });
    let m2 = m1.with_cpu(Lh5801 { x: with_lo(m1.cpu.x, dec), ..m1.cpu });
    let m3 = m2.tick(5);
    m3
}

#[verifier::opaque]
pub open spec fn op_43(m: Pc1500View) -> Pc1500View {
    let v149 = m.cpu.x;
    let v150 = dec16(v149);
    let m1 = m.mem_write((v149) as u32, m.cpu.a);
    let m2 = m1.with_cpu(Lh5801 { x: v150, ..m1.cpu });
    let m3 = m2.tick(6);
    m3
}

#[verifier::opaque]
pub open spec fn op_44(m: Pc1500View) -> Pc1500View {
    let m1 = m.with_cpu(Lh5801 { x: inc16(m.cpu.x), ..m.cpu });
    let m2 = m1.tick(5);
    m2
}

#[verifier::opaque]
pub open spec fn op_45(m: Pc1500View) -> Pc1500View {
    let v151 = m.cpu.x;
    let v152 = inc16(v151);
    let m1 = m.lda_s(m.mem_read((v151) as u32));
    let m2 = m1.with_cpu(Lh5801 { x: v152, ..m1.cpu });
    let m3 = m2.tick(6);
    m3
}

#[verifier::opaque]
pub open spec fn op_46(m: Pc1500View) -> Pc1500View {
    let m1 = m.with_cpu(Lh5801 { x: dec16(m.cpu.x), ..m.cpu });
    let m2 = m1.tick(5);
    m2
}

#[verifier::opaque]
pub open spec fn op_47(m: Pc1500View) -> Pc1500View {
    let v153 = m.cpu.x;
    let v154 = dec16(v153);
    let m1 = m.lda_s(m.mem_read((v153) as u32));
    let m2 = m1.with_cpu(Lh5801 { x: v154, ..m1.cpu });
    let m3 = m2.tick(6);
    m3
}

#[verifier::opaque]
pub open spec fn op_48(m: Pc1500View) -> Pc1500View {
    let val = m.mem_read(m.cpu.p as u32);
    let m1 = m.skip_s(1);
    let m2 = m1.with_cpu(Lh5801 { x: with_hi(m1.cpu.x, val), ..m1.cpu });
    let m3 = m2.tick(6);
    m3
}

#[verifier::opaque]
pub open spec fn op_49(m: Pc1500View) -> Pc1500View {
    let val = m.mem_read(m.cpu.p as u32);
    let m1 = m.skip_s(1);
    let v155 = ((m1.cpu.x)) as u32;
    let m2 = m1.and_mem_s(v155, val);
    let m3 = m2.tick(13);
    m3
}

#[verifier::opaque]
pub open spec fn op_4a(m: Pc1500View) -> Pc1500View {
    let val = m.mem_read(m.cpu.p as u32);
    let m1 = m.skip_s(1);
    let m2 = m1.with_cpu(Lh5801 { x: with_lo(m1.cpu.x, val), ..m1.cpu });
    let m3 = m2.tick(6);
    m3
}

#[verifier::opaque]
pub open spec fn op_4b(m: Pc1500View) -> Pc1500View {
    let val = m.mem_read(m.cpu.p as u32);
    let m1 = m.skip_s(1);
    let v156 = ((m1.cpu.x)) as u32;
    let m2 = m1.ora_mem_s(v156, val);
    let m3 = m2.tick(13);
    m3
}

#[verifier::opaque]
pub open spec fn op_4c(m: Pc1500View) -> Pc1500View {
    let val = m.mem_read(m.cpu.p as u32);
    let m1 = m.skip_s(1);
    let v157 = (hi_byte(m1.cpu.x));
    let m2 = m1.cpa_s(v157, val);
    let m3 = m2.tick(7);
    m3
}

#[verifier::opaque]
pub open spec fn op_4d(m: Pc1500View) -> Pc1500View {
    let v158 = ((m.cpu.x)) as u32;
    let mem = m.mem_read(v158);
    let val = m.mem_read(m.cpu.p as u32);
    let m1 = m.skip_s(1);
    let m2 = m1.bit_s(mem, val);
    let m3 = m2.tick(10);
    m3
}

#[verifier::opaque]
pub open spec fn op_4e(m: Pc1500View) -> Pc1500View {
    let val = m.mem_read(m.cpu.p as u32);
    let m1 = m.skip_s(1);
    let v159 = (lo_byte(m1.cpu.x));
    let m2 = m1.cpa_s(v159, val);
    let m3 = m2.tick(7);
    m3
}

#[verifier::opaque]
pub open spec fn op_4f(m: Pc1500View) -> Pc1500View {
    let val = m.mem_read(m.cpu.p as u32);
    let m1 = m.skip_s(1);
    let v160 = ((m1.cpu.x)) as u32;
    let m2 = m1.add_mem_s(v160, val);
    let m3 = m2.tick(13);
    m3
}

#[verifier::opaque]
pub open spec fn op_50(m: Pc1500View) -> Pc1500View {
    let v161 = (lo_byte(m.cpu.y));
    let inc = add_result(v161, 1, false);
    let m1 = m.with_cpu(Lh5801 { t: add_flags(m.cpu.t, v161, 1, false), ..m.cpu });
    let m2 = m1.with_cpu(Lh5801 { y: with_lo(m1.cpu.y, inc), ..m1.cpu });
    let m3 = m2.tick(5);
    m3
}

#[verifier::opaque]
pub open spec fn op_51(m: Pc1500View) -> Pc1500View {
    let v162 = m.cpu.y;
    let v163 = inc16(v162);
    let m1 = m.mem_write((v162) as u32, m.cpu.a);
    let m2 = m1.with_cpu(Lh5801 { y: v163, ..m1.cpu });
    let m3 = m2.tick(6);
    m3
}

#[verifier::opaque]
pub open spec fn op_52(m: Pc1500View) -> Pc1500View {
    let v164 = (lo_byte(m.cpu.y));
    let dec = add_result(v164, 0xff, false);
    let m1 = m.with_cpu(Lh5801 { t: add_flags(m.cpu.t, v164, 0xff, false), ..m.cpu });
    let m2 = m1.with_cpu(Lh5801 { y: with_lo(m1.cpu.y, dec), ..m1.cpu });
    let m3 = m2.tick(5);
    m3
}

#[verifier::opaque]
pub open spec fn op_53(m: Pc1500View) -> Pc1500View {
    let v165 = m.cpu.y;
    let v166 = dec16(v165);
    let m1 = m.mem_write((v165) as u32, m.cpu.a);
    let m2 = m1.with_cpu(Lh5801 { y: v166, ..m1.cpu });
    let m3 = m2.tick(6);
    m3
}

#[verifier::opaque]
pub open spec fn op_54(m: Pc1500View) -> Pc1500View {
    let m1 = m.with_cpu(Lh5801 { y: inc16(m.cpu.y), ..m.cpu });
    let m2 = m1.tick(5);
    m2
}

#[verifier::opaque]
pub open spec fn op_55(m: Pc1500View) -> Pc1500View {
    let v167 = m.cpu.y;
    let v168 = inc16(v167);
    let m1 = m.lda_s(m.mem_read((v167) as u32));
    let m2 = m1.with_cpu(Lh5801 { y: v168, ..m1.cpu });
    let m3 = m2.tick(6);
    m3
}

#[verifier::opaque]
pub open spec fn op_56(m: Pc1500View) -> Pc1500View {
    let m1 = m.with_cpu(Lh5801 { y: dec16(m.cpu.y), ..m.cpu });
    let m2 = m1.tick(5);
    m2
}

#[verifier::opaque]
pub open spec fn op_57(m: Pc1500View) -> Pc1500View {
    let v169 = m.cpu.y;
    let v170 = dec16(v169);
    let m1 = m.lda_s(m.mem_read((v169) as u32));
    let m2 = m1.with_cpu(Lh5801 { y: v170, ..m1.cpu });
    let m3 = m2.tick(6);
    m3
}

#[verifier::opaque]
pub open spec fn op_58(m: Pc1500View) -> Pc1500View {
    let val = m.mem_read(m.cpu.p as u32);
    let m1 = m.skip_s(1);
    let m2 = m1.with_cpu(Lh5801 { y: with_hi(m1.cpu.y, val), ..m1.cpu });
    let m3 = m2.tick(6);
    m3
}

#[verifier::opaque]
pub open spec fn op_59(m: Pc1500View) -> Pc1500View {
    let val = m.mem_read(m.cpu.p as u32);
    let m1 = m.skip_s(1);
    let v171 = ((m1.cpu.y)) as u32;
    let m2 = m1.and_mem_s(v171, val);
    let m3 = m2.tick(13);
    m3
}

#[verifier::opaque]
pub open spec fn op_5a(m: Pc1500View) -> Pc1500View {
    let val = m.mem_read(m.cpu.p as u32);
    let m1 = m.skip_s(1);
    let m2 = m1.with_cpu(Lh5801 { y: with_lo(m1.cpu.y, val), ..m1.cpu });
    let m3 = m2.tick(6);
    m3
}

#[verifier::opaque]
pub open spec fn op_5b(m: Pc1500View) -> Pc1500View {
    let val = m.mem_read(m.cpu.p as u32);
    let m1 = m.skip_s(1);
    let v172 = ((m1.cpu.y)) as u32;
    let m2 = m1.ora_mem_s(v172, val);
    let m3 = m2.tick(13);
    m3
}

#[verifier::opaque]
pub open spec fn op_5c(m: Pc1500View) -> Pc1500View {
    let val = m.mem_read(m.cpu.p as u32);
    let m1 = m.skip_s(1);
    let v173 = (hi_byte(m1.cpu.y));
    let m2 = m1.cpa_s(v173, val);
    let m3 = m2.tick(7);
    m3
}

#[verifier::opaque]
pub open spec fn op_5d(m: Pc1500View) -> Pc1500View {
    let v174 = ((m.cpu.y)) as u32;
    let mem = m.mem_read(v174);
    let val = m.mem_read(m.cpu.p as u32);
    let m1 = m.skip_s(1);
    let m2 = m1.bit_s(mem, val);
    let m3 = m2.tick(10);
    m3
}

#[verifier::opaque]
pub open spec fn op_5e(m: Pc1500View) -> Pc1500View {
    let val = m.mem_read(m.cpu.p as u32);
    let m1 = m.skip_s(1);
    let v175 = (lo_byte(m1.cpu.y));
    let m2 = m1.cpa_s(v175, val);
    let m3 = m2.tick(7);
    m3
}

#[verifier::opaque]
pub open spec fn op_5f(m: Pc1500View) -> Pc1500View {
    let val = m.mem_read(m.cpu.p as u32);
    let m1 = m.skip_s(1);
    let v176 = ((m1.cpu.y)) as u32;
    let m2 = m1.add_mem_s(v176, val);
    let m3 = m2.tick(13);
    m3
}

#[verifier::opaque]
pub open spec fn op_60(m: Pc1500View) -> Pc1500View {
    let v177 = (lo_byte(m.cpu.u));
    let inc = add_result(v177, 1, false);
    let m1 = m.with_cpu(Lh5801 { t: add_flags(m.cpu.t, v177, 1, false), ..m.cpu });
    let m2 = m1.with_cpu(Lh5801 { u: with_lo(m1.cpu.u, inc), ..m1.cpu });
    let m3 = m2.tick(5);
    m3
}

#[verifier::opaque]
pub open spec fn op_61(m: Pc1500View) -> Pc1500View {
    let v178 = m.cpu.u;
    let v179 = inc16(v178);
    let m1 = m.mem_write((v178) as u32, m.cpu.a);
    let m2 = m1.with_cpu(Lh5801 { u: v179, ..m1.cpu });
    let m3 = m2.tick(6);
    m3
}

#[verifier::opaque]
pub open spec fn op_62(m: Pc1500View) -> Pc1500View {
    let v180 = (lo_byte(m.cpu.u));
    let dec = add_result(v180, 0xff, false);
    let m1 = m.with_cpu(Lh5801 { t: add_flags(m.cpu.t, v180, 0xff, false), ..m.cpu });
    let m2 = m1.with_cpu(Lh5801 { u: with_lo(m1.cpu.u, dec), ..m1.cpu });
    let m3 = m2.tick(5);
    m3
}

#[verifier::opaque]
pub open spec fn op_63(m: Pc1500View) -> Pc1500View {
    let v181 = m.cpu.u;
    let v182 = dec16(v181);
    let m1 = m.mem_write((v181) as u32, m.cpu.a);
    let m2 = m1.with_cpu(Lh5801 { u: v182, ..m1.cpu });
    let m3 = m2.tick(6);
    m3
}

#[verifier::opaque]
pub open spec fn op_64(m: Pc1500View) -> Pc1500View {
    let m1 = m.with_cpu(Lh5801 { u: inc16(m.cpu.u), ..m.cpu });
    let m2 = m1.tick(5);
    m2
}

#[verifier::opaque]
pub open spec fn op_65(m: Pc1500View) -> Pc1500View {
    let v183 = m.cpu.u;
    let v184 = inc16(v183);
    let m1 = m.lda_s(m.mem_read((v183) as u32));
    let m2 = m1.with_cpu(Lh5801 { u: v184, ..m1.cpu });
    let m3 = m2.tick(6);
    m3
}

#[verifier::opaque]
pub open spec fn op_66(m: Pc1500View) -> Pc1500View {
    let m1 = m.with_cpu(Lh5801 { u: dec16(m.cpu.u), ..m.cpu });
    let m2 = m1.tick(5);
    m2
}

#[verifier::opaque]
pub open spec fn op_67(m: Pc1500View) -> Pc1500View {
    let v185 = m.cpu.u;
    let v186 = dec16(v185);
    let m1 = m.lda_s(m.mem_read((v185) as u32));
    let m2 = m1.with_cpu(Lh5801 { u: v186, ..m1.cpu });
    let m3 = m2.tick(6);
    m3
}

#[verifier::opaque]
pub open spec fn op_68(m: Pc1500View) -> Pc1500View {
    let val = m.mem_read(m.cpu.p as u32);
    let m1 = m.skip_s(1);
    let m2 = m1.with_cpu(Lh5801 { u: with_hi(m1.cpu.u, val), ..m1.cpu });
    let m3 = m2.tick(6);
    m3
}

#[verifier::opaque]
pub open spec fn op_69(m: Pc1500View) -> Pc1500View {
    let val = m.mem_read(m.cpu.p as u32);
    let m1 = m.skip_s(1);
    let v187 = ((m1.cpu.u)) as u32;
    let m2 = m1.and_mem_s(v187, val);
    let m3 = m2.tick(13);
    m3
}

#[verifier::opaque]
pub open spec fn op_6a(m: Pc1500View) -> Pc1500View {
    let val = m.mem_read(m.cpu.p as u32);
    let m1 = m.skip_s(1);
    let m2 = m1.with_cpu(Lh5801 { u: with_lo(m1.cpu.u, val), ..m1.cpu });
    let m3 = m2.tick(6);
    m3
}

#[verifier::opaque]
pub open spec fn op_6b(m: Pc1500View) -> Pc1500View {
    let val = m.mem_read(m.cpu.p as u32);
    let m1 = m.skip_s(1);
    let v188 = ((m1.cpu.u)) as u32;
    let m2 = m1.ora_mem_s(v188, val);
    let m3 = m2.tick(13);
    m3
}

#[verifier::opaque]
pub open spec fn op_6c(m: Pc1500View) -> Pc1500View {
    let val = m.mem_read(m.cpu.p as u32);
    let m1 = m.skip_s(1);
    let v189 = (hi_byte(m1.cpu.u));
    let m2 = m1.cpa_s(v189, val);
    let m3 = m2.tick(7);
    m3
}

#[verifier::opaque]
pub open spec fn op_6d(m: Pc1500View) -> Pc1500View {
    let v190 = ((m.cpu.u)) as u32;
    let mem = m.mem_read(v190);
    let val = m.mem_read(m.cpu.p as u32);
    let m1 = m.skip_s(1);
    let m2 = m1.bit_s(mem, val);
    let m3 = m2.tick(10);
    m3
}

#[verifier::opaque]
pub open spec fn op_6e(m: Pc1500View) -> Pc1500View {
    let val = m.mem_read(m.cpu.p as u32);
    let m1 = m.skip_s(1);
    let v191 = (lo_byte(m1.cpu.u));
    let m2 = m1.cpa_s(v191, val);
    let m3 = m2.tick(7);
    m3
}

#[verifier::opaque]
pub open spec fn op_6f(m: Pc1500View) -> Pc1500View {
    let val = m.mem_read(m.cpu.p as u32);
    let m1 = m.skip_s(1);
    let v192 = ((m1.cpu.u)) as u32;
    let m2 = m1.add_mem_s(v192, val);
    let m3 = m2.tick(13);
    m3
}

#[verifier::opaque]
pub open spec fn op_80(m: Pc1500View) -> Pc1500View {
    let v193 = (hi_byte(m.cpu.x));
    let m1 = m.sbc_s(v193);
    let m2 = m1.tick(6);
    m2
}

#[verifier::opaque]
pub open spec fn op_81(m: Pc1500View) -> Pc1500View {
    let v194 = !(m.cpu.t & CF != 0);
    let m1 = m.branch_plus_s(v194);
    let m2 = m1.tick(8);
    m2
}

#[verifier::opaque]
pub open spec fn op_82(m: Pc1500View) -> Pc1500View {
    let v195 = (hi_byte(m.cpu.x));
    let m1 = m.adc_s(v195);
    let m2 = m1.tick(6);
    m2
}

#[verifier::opaque]
pub open spec fn op_83(m: Pc1500View) -> Pc1500View {
    let v196 = (m.cpu.t & CF != 0);
    let m1 = m.branch_plus_s(v196);
    let m2 = m1.tick(8);
    m2
}

#[verifier::opaque]
pub open spec fn op_84(m: Pc1500View) -> Pc1500View {
    let v197 = (hi_byte(m.cpu.x));
    let m1 = m.lda_s(v197);
    let m2 = m1.tick(5);
    m2
}

#[verifier::opaque]
pub open spec fn op_85(m: Pc1500View) -> Pc1500View {
    let v198 = !(m.cpu.t & HF != 0);
    let m1 = m.branch_plus_s(v198);
    let m2 = m1.tick(8);
    m2
}

#[verifier::opaque]
pub open spec fn op_86(m: Pc1500View) -> Pc1500View {
    let v199 = m.cpu.a;
    let v200 = (hi_byte(m.cpu.x));
    let m1 = m.cpa_s(v199, v200);
    let m2 = m1.tick(6);
    m2
}

#[verifier::opaque]
pub open spec fn op_87(m: Pc1500View) -> Pc1500View {
    let v201 = (m.cpu.t & HF != 0);
    let m1 = m.branch_plus_s(v201);
    let m2 = m1.tick(8);
    m2
}

#[verifier::opaque]
pub open spec fn op_88(m: Pc1500View) -> Pc1500View {
    let m1 = m.lop_s();
    m1
}

#[verifier::opaque]
pub open spec fn op_89(m: Pc1500View) -> Pc1500View {
    let v202 = !(m.cpu.t & ZF != 0);
    let m1 = m.branch_plus_s(v202);
    let m2 = m1.tick(8);
    m2
}

#[verifier::opaque]
pub open spec fn op_8a(m: Pc1500View) -> Pc1500View {
    let m1 = m.rti_s();
    let m2 = m1.tick(14);
    m2
}

#[verifier::opaque]
pub open spec fn op_8b(m: Pc1500View) -> Pc1500View {
    let v203 = (m.cpu.t & ZF != 0);
    let m1 = m.branch_plus_s(v203);
    let m2 = m1.tick(8);
    m2
}

#[verifier::opaque]
pub open spec fn op_8c(m: Pc1500View) -> Pc1500View {
    let v204 = ((m.cpu.x)) as u32;
    let val = m.mem_read(v204);
    let m1 = m.dca_s(val);
    let m2 = m1.tick(15);
    m2
}

#[verifier::opaque]
pub open spec fn op_8d(m: Pc1500View) -> Pc1500View {
    let v205 = !(m.cpu.t & VF != 0);
    let m1 = m.branch_plus_s(v205);
    let m2 = m1.tick(8);
    m2
}

#[verifier::opaque]
pub open spec fn op_8e(m: Pc1500View) -> Pc1500View {
    let m1 = m.branch_plus_s(true);
    let m2 = m1.tick(6);
    m2
}

#[verifier::opaque]
pub open spec fn op_8f(m: Pc1500View) -> Pc1500View {
    let v206 = (m.cpu.t & VF != 0);
    let m1 = m.branch_plus_s(v206);
    let m2 = m1.tick(8);
    m2
}

#[verifier::opaque]
pub open spec fn op_90(m: Pc1500View) -> Pc1500View {
    let v207 = (hi_byte(m.cpu.y));
    let m1 = m.sbc_s(v207);
    let m2 = m1.tick(6);
    m2
}

#[verifier::opaque]
pub open spec fn op_91(m: Pc1500View) -> Pc1500View {
    let v208 = !(m.cpu.t & CF != 0);
    let m1 = m.branch_minus_s(v208);
    let m2 = m1.tick(8);
    m2
}

#[verifier::opaque]
pub open spec fn op_92(m: Pc1500View) -> Pc1500View {
    let v209 = (hi_byte(m.cpu.y));
    let m1 = m.adc_s(v209);
    let m2 = m1.tick(6);
    m2
}

#[verifier::opaque]
pub open spec fn op_93(m: Pc1500View) -> Pc1500View {
    let v210 = (m.cpu.t & CF != 0);
    let m1 = m.branch_minus_s(v210);
    let m2 = m1.tick(8);
    m2
}

#[verifier::opaque]
pub open spec fn op_94(m: Pc1500View) -> Pc1500View {
    let v211 = (hi_byte(m.cpu.y));
    let m1 = m.lda_s(v211);
    let m2 = m1.tick(5);
    m2
}

#[verifier::opaque]
pub open spec fn op_95(m: Pc1500View) -> Pc1500View {
    let v212 = !(m.cpu.t & HF != 0);
    let m1 = m.branch_minus_s(v212);
    let m2 = m1.tick(8);
    m2
}

#[verifier::opaque]
pub open spec fn op_96(m: Pc1500View) -> Pc1500View {
    let v213 = m.cpu.a;
    let v214 = (hi_byte(m.cpu.y));
    let m1 = m.cpa_s(v213, v214);
    let m2 = m1.tick(6);
    m2
}

#[verifier::opaque]
pub open spec fn op_97(m: Pc1500View) -> Pc1500View {
    let v215 = (m.cpu.t & HF != 0);
    let m1 = m.branch_minus_s(v215);
    let m2 = m1.tick(8);
    m2
}

#[verifier::opaque]
pub open spec fn op_99(m: Pc1500View) -> Pc1500View {
    let v216 = !(m.cpu.t & ZF != 0);
    let m1 = m.branch_minus_s(v216);
    let m2 = m1.tick(8);
    m2
}

#[verifier::opaque]
pub open spec fn op_9a(m: Pc1500View) -> Pc1500View {
    let m1 = m.rtn_s();
    let m2 = m1.tick(11);
    m2
}

#[verifier::opaque]
pub open spec fn op_9b(m: Pc1500View) -> Pc1500View {
    let v217 = (m.cpu.t & ZF != 0);
    let m1 = m.branch_minus_s(v217);
    let m2 = m1.tick(8);
    m2
}

#[verifier::opaque]
pub open spec fn op_9c(m: Pc1500View) -> Pc1500View {
    let v218 = ((m.cpu.y)) as u32;
    let val = m.mem_read(v218);
    let m1 = m.dca_s(val);
    let m2 = m1.tick(15);
    m2
}

#[verifier::opaque]
pub open spec fn op_9d(m: Pc1500View) -> Pc1500View {
    let v219 = !(m.cpu.t & VF != 0);
    let m1 = m.branch_minus_s(v219);
    let m2 = m1.tick(8);
    m2
}

#[verifier::opaque]
pub open spec fn op_9e(m: Pc1500View) -> Pc1500View {
    let m1 = m.branch_minus_s(true);
    let m2 = m1.tick(6);
    m2
}

#[verifier::opaque]
pub open spec fn op_9f(m: Pc1500View) -> Pc1500View {
    let v220 = (m.cpu.t & VF != 0);
    let m1 = m.branch_minus_s(v220);
    let m2 = m1.tick(8);
    m2
}

#[verifier::opaque]
pub open spec fn op_a0(m: Pc1500View) -> Pc1500View {
    let v221 = (hi_byte(m.cpu.u));
    let m1 = m.sbc_s(v221);
    let m2 = m1.tick(6);
    m2
}

#[verifier::opaque]
pub open spec fn op_a1(m: Pc1500View) -> Pc1500View {
    let addr = m.op_word();
    let m1 = m.skip_s(2);
    let val = m1.mem_read((addr) as u32);
    let m2 = m1.sbc_s(val);
    let m3 = m2.tick(13);
    m3
}

#[verifier::opaque]
pub open spec fn op_a2(m: Pc1500View) -> Pc1500View {
    let v222 = (hi_byte(m.cpu.u));
    let m1 = m.adc_s(v222);
    let m2 = m1.tick(6);
    m2
}

#[verifier::opaque]
pub open spec fn op_a3(m: Pc1500View) -> Pc1500View {
    let addr = m.op_word();
    let m1 = m.skip_s(2);
    let val = m1.mem_read((addr) as u32);
    let m2 = m1.adc_s(val);
    let m3 = m2.tick(13);
    m3
}

#[verifier::opaque]
pub open spec fn op_a4(m: Pc1500View) -> Pc1500View {
    let v223 = (hi_byte(m.cpu.u));
    let m1 = m.lda_s(v223);
    let m2 = m1.tick(5);
    m2
}

#[verifier::opaque]
pub open spec fn op_a5(m: Pc1500View) -> Pc1500View {
    let addr = m.op_word();
    let m1 = m.skip_s(2);
    let val = m1.mem_read((addr) as u32);
    let m2 = m1.lda_s(val);
    let m3 = m2.tick(12);
    m3
}

#[verifier::opaque]
pub open spec fn op_a6(m: Pc1500View) -> Pc1500View {
    let v224 = m.cpu.a;
    let v225 = (hi_byte(m.cpu.u));
    let m1 = m.cpa_s(v224, v225);
    let m2 = m1.tick(6);
    m2
}

#[verifier::opaque]
pub open spec fn op_a7(m: Pc1500View) -> Pc1500View {
    let addr = m.op_word();
    let m1 = m.skip_s(2);
    let val = m1.mem_read((addr) as u32);
    let v226 = m1.cpu.a;
    let m2 = m1.cpa_s(v226, val);
    let m3 = m2.tick(13);
    m3
}

#[verifier::opaque]
pub open spec fn op_a8(m: Pc1500View) -> Pc1500View {
    let m1 = m.with_cpu(Lh5801 { pv: true, ..m.cpu });
    let m2 = m1.tick(4);
    m2
}

#[verifier::opaque]
pub open spec fn op_a9(m: Pc1500View) -> Pc1500View {
    let addr = m.op_word();
    let m1 = m.skip_s(2);
    let val = m1.mem_read((addr) as u32);
    let m2 = m1.and_s(val);
    let m3 = m2.tick(13);
    m3
}

#[verifier::opaque]
pub open spec fn op_aa(m: Pc1500View) -> Pc1500View {
    let addr = m.op_word();
    let m1 = m.skip_s(2);
    let m2 = m1.with_cpu(Lh5801 { s: addr, ..m1.cpu });
    let m3 = m2.tick(12);
    m3
}

#[verifier::opaque]
pub open spec fn op_ab(m: Pc1500View) -> Pc1500View {
    let addr = m.op_word();
    let m1 = m.skip_s(2);
    let val = m1.mem_read((addr) as u32);
    let m2 = m1.ora_s(val);
    let m3 = m2.tick(13);
    m3
}

#[verifier::opaque]
pub open spec fn op_ac(m: Pc1500View) -> Pc1500View {
    let v227 = ((m.cpu.u)) as u32;
    let val = m.mem_read(v227);
    let m1 = m.dca_s(val);
    let m2 = m1.tick(15);
    m2
}

#[verifier::opaque]
pub open spec fn op_ad(m: Pc1500View) -> Pc1500View {
    let addr = m.op_word();
    let m1 = m.skip_s(2);
    let val = m1.mem_read((addr) as u32);
    let m2 = m1.eor_s(val);
    let m3 = m2.tick(13);
    m3
}

#[verifier::opaque]
pub open spec fn op_ae(m: Pc1500View) -> Pc1500View {
    let addr = m.op_word();
    let m1 = m.skip_s(2);
    let v228 = m1.cpu.a;
    let m2 = m1.mem_write((addr) as u32, v228);
    let m3 = m2.tick(12);
    m3
}

#[verifier::opaque]
pub open spec fn op_af(m: Pc1500View) -> Pc1500View {
    let addr = m.op_word();
    let m1 = m.skip_s(2);
    let val = m1.mem_read((addr) as u32);
    let v229 = m1.cpu.a;
    let m2 = m1.bit_s(val, v229);
    let m3 = m2.tick(13);
    m3
}

#[verifier::opaque]
pub open spec fn op_b1(m: Pc1500View) -> Pc1500View {
    let val = m.mem_read(m.cpu.p as u32);
    let m1 = m.skip_s(1);
    let m2 = m1.sbc_s(val);
    let m3 = m2.tick(7);
    m3
}

#[verifier::opaque]
pub open spec fn op_b3(m: Pc1500View) -> Pc1500View {
    let val = m.mem_read(m.cpu.p as u32);
    let m1 = m.skip_s(1);
    let m2 = m1.adc_s(val);
    let m3 = m2.tick(7);
    m3
}

#[verifier::opaque]
pub open spec fn op_b5(m: Pc1500View) -> Pc1500View {
    let val = m.mem_read(m.cpu.p as u32);
    let m1 = m.skip_s(1);
    let m2 = m1.lda_s(val);
    let m3 = m2.tick(6);
    m3
}

#[verifier::opaque]
pub open spec fn op_b7(m: Pc1500View) -> Pc1500View {
    let val = m.mem_read(m.cpu.p as u32);
    let m1 = m.skip_s(1);
    let v230 = m1.cpu.a;
    let m2 = m1.cpa_s(v230, val);
    let m3 = m2.tick(7);
    m3
}

#[verifier::opaque]
pub open spec fn op_b8(m: Pc1500View) -> Pc1500View {
    let m1 = m.with_cpu(Lh5801 { pv: false, ..m.cpu });
    let m2 = m1.tick(4);
    m2
}

#[verifier::opaque]
pub open spec fn op_b9(m: Pc1500View) -> Pc1500View {
    let val = m.mem_read(m.cpu.p as u32);
    let m1 = m.skip_s(1);
    let m2 = m1.and_s(val);
    let m3 = m2.tick(7);
    m3
}

#[verifier::opaque]
pub open spec fn op_ba(m: Pc1500View) -> Pc1500View {
    let addr = m.op_word();
    let m1 = m.skip_s(2);
    let m2 = m1.jmp_s(addr);
    let m3 = m2.tick(12);
    m3
}

#[verifier::opaque]
pub open spec fn op_bb(m: Pc1500View) -> Pc1500View {
    let val = m.mem_read(m.cpu.p as u32);
    let m1 = m.skip_s(1);
    let m2 = m1.ora_s(val);
    let m3 = m2.tick(7);
    m3
}

#[verifier::opaque]
pub open spec fn op_bd(m: Pc1500View) -> Pc1500View {
    let val = m.mem_read(m.cpu.p as u32);
    let m1 = m.skip_s(1);
    let m2 = m1.eor_s(val);
    let m3 = m2.tick(7);
    m3
}

#[verifier::opaque]
pub open spec fn op_be(m: Pc1500View) -> Pc1500View {
    let m1 = m.sjp_s();
    let m2 = m1.tick(19);
    m2
}

#[verifier::opaque]
pub open spec fn op_bf(m: Pc1500View) -> Pc1500View {
    let val = m.mem_read(m.cpu.p as u32);
    let m1 = m.skip_s(1);
    let v231 = m1.cpu.a;
    let m2 = m1.bit_s(v231, val);
    let m3 = m2.tick(7);
    m3
}

#[verifier::opaque]
pub open spec fn op_c1(m: Pc1500View) -> Pc1500View {
    let nr = m.mem_read(m.cpu.p as u32);
    let m1 = m.skip_s(1);
    let v232 = !(m1.cpu.t & CF != 0);
    let m2 = m1.vector_s(v232, nr);
    let m3 = m2.tick(8);
    m3
}

#[verifier::opaque]
pub open spec fn op_c3(m: Pc1500View) -> Pc1500View {
    let nr = m.mem_read(m.cpu.p as u32);
    let m1 = m.skip_s(1);
    let v233 = (m1.cpu.t & CF != 0);
    let m2 = m1.vector_s(v233, nr);
    let m3 = m2.tick(8);
    m3
}

#[verifier::opaque]
pub open spec fn op_c5(m: Pc1500View) -> Pc1500View {
    let nr = m.mem_read(m.cpu.p as u32);
    let m1 = m.skip_s(1);
    let v234 = !(m1.cpu.t & HF != 0);
    let m2 = m1.vector_s(v234, nr);
    let m3 = m2.tick(8);
    m3
}

#[verifier::opaque]
pub open spec fn op_c7(m: Pc1500View) -> Pc1500View {
    let nr = m.mem_read(m.cpu.p as u32);
    let m1 = m.skip_s(1);
    let v235 = (m1.cpu.t & HF != 0);
    let m2 = m1.vector_s(v235, nr);
    let m3 = m2.tick(8);
    m3
}

#[verifier::opaque]
pub open spec fn op_c9(m: Pc1500View) -> Pc1500View {
    let nr = m.mem_read(m.cpu.p as u32);
    let m1 = m.skip_s(1);
    let v236 = !(m1.cpu.t & ZF != 0);
    let m2 = m1.vector_s(v236, nr);
    let m3 = m2.tick(8);
    m3
}

#[verifier::opaque]
pub open spec fn op_cb(m: Pc1500View) -> Pc1500View {
    let nr = m.mem_read(m.cpu.p as u32);
    let m1 = m.skip_s(1);
    let v237 = (m1.cpu.t & ZF != 0);
    let m2 = m1.vector_s(v237, nr);
    let m3 = m2.tick(8);
    m3
}

#[verifier::opaque]
pub open spec fn op_cd(m: Pc1500View) -> Pc1500View {
    let nr = m.mem_read(m.cpu.p as u32);
    let m1 = m.skip_s(1);
    let m2 = m1.vector_s(true, nr);
    let m3 = m2.tick(7);
    m3
}

#[verifier::opaque]
pub open spec fn op_cf(m: Pc1500View) -> Pc1500View {
    let nr = m.mem_read(m.cpu.p as u32);
    let m1 = m.skip_s(1);
    let v238 = (m1.cpu.t & VF != 0);
    let m2 = m1.vector_s(v238, nr);
    let m3 = m2.tick(8);
    m3
}

#[verifier::opaque]
pub open spec fn op_c0(op: u8, m: Pc1500View) -> Pc1500View {
    let m1 = m.vector_s(true, op);
    let m2 = m1.tick(4);
    m2
}

#[verifier::opaque]
pub open spec fn op_d1(m: Pc1500View) -> Pc1500View {
    let m1 = m.ror_s();
    let m2 = m1.tick(9);
    m2
}

#[verifier::opaque]
pub open spec fn op_d3(m: Pc1500View) -> Pc1500View {
    let v239 = ((m.cpu.x)) as u32;
    let m1 = m.drr_s(v239);
    let m2 = m1.tick(12);
    m2
}

#[verifier::opaque]
pub open spec fn op_d5(m: Pc1500View) -> Pc1500View {
    let m1 = m.shr_s();
    let m2 = m1.tick(9);
    m2
}

#[verifier::opaque]
pub open spec fn op_d7(m: Pc1500View) -> Pc1500View {
    let v240 = ((m.cpu.x)) as u32;
    let m1 = m.drl_s(v240);
    let m2 = m1.tick(12);
    m2
}

#[verifier::opaque]
pub open spec fn op_d9(m: Pc1500View) -> Pc1500View {
    let m1 = m.shl_s();
    let m2 = m1.tick(6);
    m2
}

#[verifier::opaque]
pub open spec fn op_db(m: Pc1500View) -> Pc1500View {
    let m1 = m.rol_s();
    let m2 = m1.tick(8);
    m2
}

#[verifier::opaque]
pub open spec fn op_dd(m: Pc1500View) -> Pc1500View {
    let v241 = m.cpu.a;
    let v242 = add_result(v241, 1, false);
    let m1 = m.with_cpu(Lh5801 { t: add_flags(m.cpu.t, v241, 1, false), ..m.cpu });
    let m2 = m1.with_cpu(Lh5801 { a: v242, ..m1.cpu });
    let m3 = m2.tick(5);
    m3
}

#[verifier::opaque]
pub open spec fn op_df(m: Pc1500View) -> Pc1500View {
    let v243 = m.cpu.a;
    let v244 = add_result(v243, 0xff, false);
    let m1 = m.with_cpu(Lh5801 { t: add_flags(m.cpu.t, v243, 0xff, false), ..m.cpu });
    let m2 = m1.with_cpu(Lh5801 { a: v244, ..m1.cpu });
    let m3 = m2.tick(5);
    m3
}

#[verifier::opaque]
pub open spec fn op_d0(op: u8, m: Pc1500View) -> Pc1500View {
    let m1 = m.vector_s(true, op);
    let m2 = m1.tick(4);
    m2
}

#[verifier::opaque]
pub open spec fn op_e1(m: Pc1500View) -> Pc1500View {
    let m1 = m.with_cpu(Lh5801 { pu: true, ..m.cpu });
    let m2 = m1.tick(4);
    m2
}

#[verifier::opaque]
pub open spec fn op_e3(m: Pc1500View) -> Pc1500View {
    let m1 = m.with_cpu(Lh5801 { pu: false, ..m.cpu });
    let m2 = m1.tick(4);
    m2
}

#[verifier::opaque]
pub open spec fn op_e9(m: Pc1500View) -> Pc1500View {
    let addr = m.op_word();
    let m1 = m.skip_s(2);
    let val = m1.mem_read(m1.cpu.p as u32);
    let m2 = m1.skip_s(1);
    let m3 = m2.and_mem_s((addr) as u32, val);
    let m4 = m3.tick(19);
    m4
}

#[verifier::opaque]
pub open spec fn op_eb(m: Pc1500View) -> Pc1500View {
    let addr = m.op_word();
    let m1 = m.skip_s(2);
    let val = m1.mem_read(m1.cpu.p as u32);
    let m2 = m1.skip_s(1);
    let m3 = m2.ora_mem_s((addr) as u32, val);
    let m4 = m3.tick(19);
    m4
}

#[verifier::opaque]
pub open spec fn op_ed(m: Pc1500View) -> Pc1500View {
    let addr = m.op_word();
    let m1 = m.skip_s(2);
    let mem = m1.mem_read((addr) as u32);
    let val = m1.mem_read(m1.cpu.p as u32);
    let m2 = m1.skip_s(1);
    let m3 = m2.bit_s(mem, val);
    let m4 = m3.tick(16);
    m4
}

#[verifier::opaque]
pub open spec fn op_ef(m: Pc1500View) -> Pc1500View {
    let addr = m.op_word();
    let m1 = m.skip_s(2);
    let val = m1.mem_read(m1.cpu.p as u32);
    let m2 = m1.skip_s(1);
    let m3 = m2.add_mem_s((addr) as u32, val);
    let m4 = m3.tick(19);
    m4
}

#[verifier::opaque]
pub open spec fn op_e0(op: u8, m: Pc1500View) -> Pc1500View {
    let m1 = m.vector_s(true, op);
    let m2 = m1.tick(4);
    m2
}

#[verifier::opaque]
pub open spec fn op_f1(m: Pc1500View) -> Pc1500View {
    let m1 = m.aex_s();
    let m2 = m1.tick(6);
    m2
}

#[verifier::opaque]
pub open spec fn op_f5(m: Pc1500View) -> Pc1500View {
    let v245 = (m.cpu.x) as u32;
    let val = m.mem_read(v245);
    let m1 = m.with_cpu(Lh5801 { x: inc16(m.cpu.x), ..m.cpu });
    let v246 = (m1.cpu.y) as u32;
    let m2 = m1.mem_write(v246, val);
    let m3 = m2.with_cpu(Lh5801 { y: inc16(m2.cpu.y), ..m2.cpu });
    let m4 = m3.tick(7);
    m4
}

#[verifier::opaque]
pub open spec fn op_f7(m: Pc1500View) -> Pc1500View {
    let v247 = (m.cpu.x) as u32;
    let val = m.mem_read(v247);
    let m1 = m.with_cpu(Lh5801 { x: inc16(m.cpu.x), ..m.cpu });
    let v248 = m1.cpu.a;
    let m2 = m1.cpa_s(v248, val);
    let m3 = m2.tick(7);
    m3
}

#[verifier::opaque]
pub open spec fn op_f9(m: Pc1500View) -> Pc1500View {
    let m1 = m.with_flag_s(CF, false);
    let m2 = m1.tick(4);
    m2
}

#[verifier::opaque]
pub open spec fn op_fb(m: Pc1500View) -> Pc1500View {
    let m1 = m.with_flag_s(CF, true);
    let m2 = m1.tick(4);
    m2
}

#[verifier::opaque]
pub open spec fn op_f0(op: u8, m: Pc1500View) -> Pc1500View {
    let m1 = m.vector_s(true, op);
    let m2 = m1.tick(4);
    m2
}

#[verifier::opaque]
pub open spec fn fd_op_01(m: Pc1500View) -> Pc1500View {
    let v1 = me1((m.cpu.x));
    let read = m.mem_read(v1);
    let m1 = m.sbc_s(read);
    let m2 = m1.tick(11);
    m2
}

#[verifier::opaque]
pub open spec fn fd_op_03(m: Pc1500View) -> Pc1500View {
    let v2 = me1((m.cpu.x));
    let read = m.mem_read(v2);
    let m1 = m.adc_s(read);
    let m2 = m1.tick(11);
    m2
}

#[verifier::opaque]
pub open spec fn fd_op_05(m: Pc1500View) -> Pc1500View {
    let v3 = me1((m.cpu.x));
    let read = m.mem_read(v3);
    let m1 = m.lda_s(read);
    let m2 = m1.tick(10);
    m2
}

#[verifier::opaque]
pub open spec fn fd_op_07(m: Pc1500View) -> Pc1500View {
    let v4 = me1((m.cpu.x));
    let read = m.mem_read(v4);
    let v5 = m.cpu.a;
    let m1 = m.cpa_s(v5, read);
    let m2 = m1.tick(11);
    m2
}

#[verifier::opaque]
pub open spec fn fd_op_08(m: Pc1500View) -> Pc1500View {
    let m1 = m.tick(11);
    m1
}

#[verifier::opaque]
pub open spec fn fd_op_09(m: Pc1500View) -> Pc1500View {
    let v6 = me1((m.cpu.x));
    let read = m.mem_read(v6);
    let m1 = m.and_s(read);
    let m2 = m1.tick(11);
    m2
}

#[verifier::opaque]
pub open spec fn fd_op_0a(m: Pc1500View) -> Pc1500View {
    let v7 = m.peek_word();
    let m1 = m.with_cpu(Lh5801 { s: inc16(inc16(m.cpu.s)), ..m.cpu });
    let m2 = m1.with_cpu(Lh5801 { x: v7, ..m1.cpu });
    let m3 = m2.tick(15);
    m3
}

#[verifier::opaque]
pub open spec fn fd_op_0b(m: Pc1500View) -> Pc1500View {
    let v8 = me1((m.cpu.x));
    let read = m.mem_read(v8);
    let m1 = m.ora_s(read);
    let m2 = m1.tick(11);
    m2
}

#[verifier::opaque]
pub open spec fn fd_op_0c(m: Pc1500View) -> Pc1500View {
    let v9 = me1((m.cpu.x));
    let read = m.mem_read(v9);
    let m1 = m.dcs_s(read);
    let m2 = m1.tick(17);
    m2
}

#[verifier::opaque]
pub open spec fn fd_op_0d(m: Pc1500View) -> Pc1500View {
    let v10 = me1((m.cpu.x));
    let read = m.mem_read(v10);
    let m1 = m.eor_s(read);
    let m2 = m1.tick(11);
    m2
}

#[verifier::opaque]
pub open spec fn fd_op_0e(m: Pc1500View) -> Pc1500View {
    let v11 = me1((m.cpu.x));
    let v12 = m.cpu.a;
    let m1 = m.mem_write(v11, v12);
    let m2 = m1.tick(10);
    m2
}

#[verifier::opaque]
pub open spec fn fd_op_0f(m: Pc1500View) -> Pc1500View {
    let v13 = me1((m.cpu.x));
    let data = m.mem_read(v13);
    let v14 = m.cpu.a;
    let m1 = m.bit_s(data, v14);
    let m2 = m1.tick(11);
    m2
}

#[verifier::opaque]
pub open spec fn fd_op_11(m: Pc1500View) -> Pc1500View {
    let v15 = me1((m.cpu.y));
    let read = m.mem_read(v15);
    let m1 = m.sbc_s(read);
    let m2 = m1.tick(11);
    m2
}

#[verifier::opaque]
pub open spec fn fd_op_13(m: Pc1500View) -> Pc1500View {
    let v16 = me1((m.cpu.y));
    let read = m.mem_read(v16);
    let m1 = m.adc_s(read);
    let m2 = m1.tick(11);
    m2
}

#[verifier::opaque]
pub open spec fn fd_op_15(m: Pc1500View) -> Pc1500View {
    let v17 = me1((m.cpu.y));
    let read = m.mem_read(v17);
    let m1 = m.lda_s(read);
    let m2 = m1.tick(10);
    m2
}

#[verifier::opaque]
pub open spec fn fd_op_17(m: Pc1500View) -> Pc1500View {
    let v18 = me1((m.cpu.y));
    let read = m.mem_read(v18);
    let v19 = m.cpu.a;
    let m1 = m.cpa_s(v19, read);
    let m2 = m1.tick(11);
    m2
}

#[verifier::opaque]
pub open spec fn fd_op_18(m: Pc1500View) -> Pc1500View {
    let m1 = m.with_cpu(Lh5801 { x: m.cpu.y, ..m.cpu });
    let m2 = m1.tick(11);
    m2
}

#[verifier::opaque]
pub open spec fn fd_op_19(m: Pc1500View) -> Pc1500View {
    let v20 = me1((m.cpu.y));
    let read = m.mem_read(v20);
    let m1 = m.and_s(read);
    let m2 = m1.tick(11);
    m2
}

#[verifier::opaque]
pub open spec fn fd_op_1a(m: Pc1500View) -> Pc1500View {
    let v21 = m.peek_word();
    let m1 = m.with_cpu(Lh5801 { s: inc16(inc16(m.cpu.s)), ..m.cpu });
    let m2 = m1.with_cpu(Lh5801 { y: v21, ..m1.cpu });
    let m3 = m2.tick(15);
    m3
}

#[verifier::opaque]
pub open spec fn fd_op_1b(m: Pc1500View) -> Pc1500View {
    let v22 = me1((m.cpu.y));
    let read = m.mem_read(v22);
    let m1 = m.ora_s(read);
    let m2 = m1.tick(11);
    m2
}

#[verifier::opaque]
pub open spec fn fd_op_1c(m: Pc1500View) -> Pc1500View {
    let v23 = me1((m.cpu.y));
    let read = m.mem_read(v23);
    let m1 = m.dcs_s(read);
    let m2 = m1.tick(17);
    m2
}

#[verifier::opaque]
pub open spec fn fd_op_1d(m: Pc1500View) -> Pc1500View {
    let v24 = me1((m.cpu.y));
    let read = m.mem_read(v24);
    let m1 = m.eor_s(read);
    let m2 = m1.tick(11);
    m2
}

#[verifier::opaque]
pub open spec fn fd_op_1e(m: Pc1500View) -> Pc1500View {
    let v25 = me1((m.cpu.y));
    let v26 = m.cpu.a;
    let m1 = m.mem_write(v25, v26);
    let m2 = m1.tick(10);
    m2
}

#[verifier::opaque]
pub open spec fn fd_op_1f(m: Pc1500View) -> Pc1500View {
    let v27 = me1((m.cpu.y));
    let read = m.mem_read(v27);
    let v28 = m.cpu.a;
    let m1 = m.bit_s(read, v28);
    let m2 = m1.tick(11);
    m2
}

#[verifier::opaque]
pub open spec fn fd_op_21(m: Pc1500View) -> Pc1500View {
    let v29 = me1((m.cpu.u));
    let read = m.mem_read(v29);
    let m1 = m.sbc_s(read);
    let m2 = m1.tick(11);
    m2
}

#[verifier::opaque]
pub open spec fn fd_op_23(m: Pc1500View) -> Pc1500View {
    let v30 = me1((m.cpu.u));
    let read = m.mem_read(v30);
    let m1 = m.adc_s(read);
    let m2 = m1.tick(11);
    m2
}

#[verifier::opaque]
pub open spec fn fd_op_25(m: Pc1500View) -> Pc1500View {
    let v31 = me1((m.cpu.u));
    let read = m.mem_read(v31);
    let m1 = m.lda_s(read);
    let m2 = m1.tick(10);
    m2
}

#[verifier::opaque]
pub open spec fn fd_op_27(m: Pc1500View) -> Pc1500View {
    let v32 = me1((m.cpu.u));
    let read = m.mem_read(v32);
    let v33 = m.cpu.a;
    let m1 = m.cpa_s(v33, read);
    let m2 = m1.tick(11);
    m2
}

#[verifier::opaque]
pub open spec fn fd_op_28(m: Pc1500View) -> Pc1500View {
    let m1 = m.with_cpu(Lh5801 { x: m.cpu.u, ..m.cpu });
    let m2 = m1.tick(11);
    m2
}

#[verifier::opaque]
pub open spec fn fd_op_29(m: Pc1500View) -> Pc1500View {
    let v34 = me1((m.cpu.u));
    let read = m.mem_read(v34);
    let m1 = m.and_s(read);
    let m2 = m1.tick(11);
    m2
}

#[verifier::opaque]
pub open spec fn fd_op_2a(m: Pc1500View) -> Pc1500View {
    let v35 = m.peek_word();
    let m1 = m.with_cpu(Lh5801 { s: inc16(inc16(m.cpu.s)), ..m.cpu });
    let m2 = m1.with_cpu(Lh5801 { u: v35, ..m1.cpu });
    let m3 = m2.tick(15);
    m3
}

#[verifier::opaque]
pub open spec fn fd_op_2b(m: Pc1500View) -> Pc1500View {
    let v36 = me1((m.cpu.u));
    let read = m.mem_read(v36);
    let m1 = m.ora_s(read);
    let m2 = m1.tick(11);
    m2
}

#[verifier::opaque]
pub open spec fn fd_op_2c(m: Pc1500View) -> Pc1500View {
    let v37 = me1((m.cpu.u));
    let read = m.mem_read(v37);
    let m1 = m.dcs_s(read);
    let m2 = m1.tick(17);
    m2
}

#[verifier::opaque]
pub open spec fn fd_op_2d(m: Pc1500View) -> Pc1500View {
    let v38 = me1((m.cpu.u));
    let read = m.mem_read(v38);
    let m1 = m.eor_s(read);
    let m2 = m1.tick(11);
    m2
}

#[verifier::opaque]
pub open spec fn fd_op_2e(m: Pc1500View) -> Pc1500View {
    let v39 = me1((m.cpu.u));
    let v40 = m.cpu.a;
    let m1 = m.mem_write(v39, v40);
    let m2 = m1.tick(10);
    m2
}

#[verifier::opaque]
pub open spec fn fd_op_2f(m: Pc1500View) -> Pc1500View {
    let v41 = me1((m.cpu.u));
    let read = m.mem_read(v41);
    let v42 = m.cpu.a;
    let m1 = m.bit_s(read, v42);
    let m2 = m1.tick(11);
    m2
}

#[verifier::opaque]
pub open spec fn fd_op_3a(m: Pc1500View) -> Pc1500View {
    let m1 = m.with_cpu(Lh5801 { s: m.cpu.s.wrapping_add(2), ..m.cpu });
    let m2 = m1.tick(15);
    m2
}

#[verifier::opaque]
pub open spec fn fd_op_40(m: Pc1500View) -> Pc1500View {
    let v43 = (hi_byte(m.cpu.x));
    let inc = add_result(v43, 1, false);
    let m1 = m.with_cpu(Lh5801 { t: add_flags(m.cpu.t, v43, 1, false), ..m.cpu });
    let m2 = m1.with_cpu(Lh5801 { x: with_hi(m1.cpu.x, inc), ..m1.cpu });
    let m3 = m2.tick(9);
    m3
}

#[verifier::opaque]
pub open spec fn fd_op_42(m: Pc1500View) -> Pc1500View {
    let v44 = (hi_byte(m.cpu.x));
    let dec = add_result(v44, 0xff, false);
    let m1 = m.with_cpu(Lh5801 { t: add_flags(m.cpu.t, v44, 0xff, false), ..m.cpu });
    let m2 = m1.with_cpu(Lh5801 { x: with_hi(m1.cpu.x, dec), ..m1.cpu });
    let m3 = m2.tick(9);
    m3
}

#[verifier::opaque]
pub open spec fn fd_op_48(m: Pc1500View) -> Pc1500View {
    let m1 = m.with_cpu(Lh5801 { x: m.cpu.s, ..m.cpu });
    let m2 = m1.tick(11);
    m2
}

#[verifier::opaque]
pub open spec fn fd_op_49(m: Pc1500View) -> Pc1500View {
    let op = m.mem_read(m.cpu.p as u32);
    let m1 = m.skip_s(1);
    let v45 = me1((m1.cpu.x));
    let m2 = m1.and_mem_s(v45, op);
    let m3 = m2.tick(17);
    m3
}

#[verifier::opaque]
pub open spec fn fd_op_4a(m: Pc1500View) -> Pc1500View {
    let m1 = m.tick(11);
    m1
}

#[verifier::opaque]
pub open spec fn fd_op_4b(m: Pc1500View) -> Pc1500View {
    let op = m.mem_read(m.cpu.p as u32);
    let m1 = m.skip_s(1);
    let v46 = me1((m1.cpu.x));
    let m2 = m1.ora_mem_s(v46, op);
    let m3 = m2.tick(14);
    m3
}

#[verifier::opaque]
pub open spec fn fd_op_4c(m: Pc1500View) -> Pc1500View {
    let m1 = m.with_cpu(Lh5801 { bf: false, ..m.cpu });
    let m2 = m1.tick(8);
    m2
}

#[verifier::opaque]
pub open spec fn fd_op_4d(m: Pc1500View) -> Pc1500View {
    let v47 = me1((m.cpu.x));
    let read = m.mem_read(v47);
    let op = m.mem_read(m.cpu.p as u32);
    let m1 = m.skip_s(1);
    let m2 = m1.bit_s(read, op);
    let m3 = m2.tick(14);
    m3
}

#[verifier::opaque]
pub open spec fn fd_op_4e(m: Pc1500View) -> Pc1500View {
    let m1 = m.with_cpu(Lh5801 { s: m.cpu.x, ..m.cpu });
    let m2 = m1.tick(11);
    m2
}

#[verifier::opaque]
pub open spec fn fd_op_4f(m: Pc1500View) -> Pc1500View {
    let op = m.mem_read(m.cpu.p as u32);
    let m1 = m.skip_s(1);
    let v48 = me1((m1.cpu.x));
    let m2 = m1.add_mem_s(v48, op);
    let m3 = m2.tick(14);
    m3
}

#[verifier::opaque]
pub open spec fn fd_op_50(m: Pc1500View) -> Pc1500View {
    let v49 = (hi_byte(m.cpu.y));
    let inc = add_result(v49, 1, false);
    let m1 = m.with_cpu(Lh5801 { t: add_flags(m.cpu.t, v49, 1, false), ..m.cpu });
    let m2 = m1.with_cpu(Lh5801 { y: with_hi(m1.cpu.y, inc), ..m1.cpu });
    let m3 = m2.tick(9);
    m3
}

#[verifier::opaque]
pub open spec fn fd_op_52(m: Pc1500View) -> Pc1500View {
    let v50 = (hi_byte(m.cpu.y));
    let dec = add_result(v50, 0xff, false);
    let m1 = m.with_cpu(Lh5801 { t: add_flags(m.cpu.t, v50, 0xff, false), ..m.cpu });
    let m2 = m1.with_cpu(Lh5801 { y: with_hi(m1.cpu.y, dec), ..m1.cpu });
    let m3 = m2.tick(9);
    m3
}

#[verifier::opaque]
pub open spec fn fd_op_58(m: Pc1500View) -> Pc1500View {
    let m1 = m.with_cpu(Lh5801 { x: m.cpu.p, ..m.cpu });
    let m2 = m1.tick(11);
    m2
}

#[verifier::opaque]
pub open spec fn fd_op_59(m: Pc1500View) -> Pc1500View {
    let op = m.mem_read(m.cpu.p as u32);
    let m1 = m.skip_s(1);
    let v51 = me1((m1.cpu.y));
    let m2 = m1.and_mem_s(v51, op);
    let m3 = m2.tick(17);
    m3
}

#[verifier::opaque]
pub open spec fn fd_op_5a(m: Pc1500View) -> Pc1500View {
    let m1 = m.with_cpu(Lh5801 { y: m.cpu.x, ..m.cpu });
    let m2 = m1.tick(11);
    m2
}

#[verifier::opaque]
pub open spec fn fd_op_5b(m: Pc1500View) -> Pc1500View {
    let op = m.mem_read(m.cpu.p as u32);
    let m1 = m.skip_s(1);
    let v52 = me1((m1.cpu.y));
    let m2 = m1.ora_mem_s(v52, op);
    let m3 = m2.tick(14);
    m3
}

#[verifier::opaque]
pub open spec fn fd_op_5d(m: Pc1500View) -> Pc1500View {
    let v53 = me1((m.cpu.y));
    let read = m.mem_read(v53);
    let op = m.mem_read(m.cpu.p as u32);
    let m1 = m.skip_s(1);
    let m2 = m1.bit_s(read, op);
    let m3 = m2.tick(14);
    m3
}

#[verifier::opaque]
pub open spec fn fd_op_5e(m: Pc1500View) -> Pc1500View {
    let v54 = m.cpu.x;
    let m1 = m.jmp_s(v54);
    let m2 = m1.tick(11);
    m2
}

#[verifier::opaque]
pub open spec fn fd_op_5f(m: Pc1500View) -> Pc1500View {
    let op = m.mem_read(m.cpu.p as u32);
    let m1 = m.skip_s(1);
    let v55 = me1((m1.cpu.y));
    let m2 = m1.add_mem_s(v55, op);
    let m3 = m2.tick(14);
    m3
}

#[verifier::opaque]
pub open spec fn fd_op_60(m: Pc1500View) -> Pc1500View {
    let v56 = (hi_byte(m.cpu.u));
    let inc = add_result(v56, 1, false);
    let m1 = m.with_cpu(Lh5801 { t: add_flags(m.cpu.t, v56, 1, false), ..m.cpu });
    let m2 = m1.with_cpu(Lh5801 { u: with_hi(m1.cpu.u, inc), ..m1.cpu });
    let m3 = m2.tick(9);
    m3
}

#[verifier::opaque]
pub open spec fn fd_op_62(m: Pc1500View) -> Pc1500View {
    let v57 = (hi_byte(m.cpu.u));
    let dec = add_result(v57, 0xff, false);
    let m1 = m.with_cpu(Lh5801 { t: add_flags(m.cpu.t, v57, 0xff, false), ..m.cpu });
    let m2 = m1.with_cpu(Lh5801 { u: with_hi(m1.cpu.u, dec), ..m1.cpu });
    let m3 = m2.tick(9);
    m3
}

#[verifier::opaque]
pub open spec fn fd_op_69(m: Pc1500View) -> Pc1500View {
    let op = m.mem_read(m.cpu.p as u32);
    let m1 = m.skip_s(1);
    let v58 = me1((m1.cpu.u));
    let m2 = m1.and_mem_s(v58, op);
    let m3 = m2.tick(17);
    m3
}

#[verifier::opaque]
pub open spec fn fd_op_6a(m: Pc1500View) -> Pc1500View {
    let m1 = m.with_cpu(Lh5801 { u: m.cpu.x, ..m.cpu });
    let m2 = m1.tick(11);
    m2
}

#[verifier::opaque]
pub open spec fn fd_op_6b(m: Pc1500View) -> Pc1500View {
    let op = m.mem_read(m.cpu.p as u32);
    let m1 = m.skip_s(1);
    let v59 = me1((m1.cpu.u));
    let m2 = m1.ora_mem_s(v59, op);
    let m3 = m2.tick(14);
    m3
}

#[verifier::opaque]
pub open spec fn fd_op_6d(m: Pc1500View) -> Pc1500View {
    let v60 = me1((m.cpu.u));
    let read = m.mem_read(v60);
    let op = m.mem_read(m.cpu.p as u32);
    let m1 = m.skip_s(1);
    let m2 = m1.bit_s(read, op);
    let m3 = m2.tick(14);
    m3
}

#[verifier::opaque]
pub open spec fn fd_op_6f(m: Pc1500View) -> Pc1500View {
    let op = m.mem_read(m.cpu.p as u32);
    let m1 = m.skip_s(1);
    let v61 = me1((m1.cpu.u));
    let m2 = m1.add_mem_s(v61, op);
    let m3 = m2.tick(17);
    m3
}

#[verifier::opaque]
pub open spec fn fd_op_81(m: Pc1500View) -> Pc1500View {
    let m1 = m.with_flag_s(IE, true);
    let m2 = m1.tick(8);
    m2
}

#[verifier::opaque]
pub open spec fn fd_op_88(m: Pc1500View) -> Pc1500View {
    let v62 = m.cpu.x;
    let m1 = m.push_word_spec(v62);
    let m2 = m1.tick(14);
    m2
}

#[verifier::opaque]
pub open spec fn fd_op_8a(m: Pc1500View) -> Pc1500View {
    let m1 = m.pop_s();
    let m2 = m1.tick(12);
    m2
}

#[verifier::opaque]
pub open spec fn fd_op_8c(m: Pc1500View) -> Pc1500View {
    let v63 = me1((m.cpu.x));
    let read = m.mem_read(v63);
    let m1 = m.dca_s(read);
    let m2 = m1.tick(19);
    m2
}

#[verifier::opaque]
pub open spec fn fd_op_98(m: Pc1500View) -> Pc1500View {
    let v64 = m.cpu.y;
    let m1 = m.push_word_spec(v64);
    let m2 = m1.tick(14);
    m2
}

#[verifier::opaque]
pub open spec fn fd_op_9c(m: Pc1500View) -> Pc1500View {
    let v65 = me1((m.cpu.y));
    let read = m.mem_read(v65);
    let m1 = m.dca_s(read);
    let m2 = m1.tick(19);
    m2
}

#[verifier::opaque]
pub open spec fn fd_op_a1(m: Pc1500View) -> Pc1500View {
    let op = m.op_word();
    let m1 = m.skip_s(2);
    let read = m1.mem_read(me1(op));
    let m2 = m1.sbc_s(read);
    let m3 = m2.tick(17);
    m3
}

#[verifier::opaque]
pub open spec fn fd_op_a3(m: Pc1500View) -> Pc1500View {
    let op = m.op_word();
    let m1 = m.skip_s(2);
    let read = m1.mem_read(me1(op));
    let m2 = m1.adc_s(read);
    let m3 = m2.tick(17);
    m3
}

#[verifier::opaque]
pub open spec fn fd_op_a5(m: Pc1500View) -> Pc1500View {
    let op = m.op_word();
    let m1 = m.skip_s(2);
    let read = m1.mem_read(me1(op));
    let m2 = m1.lda_s(read);
    let m3 = m2.tick(16);
    m3
}

#[verifier::opaque]
pub open spec fn fd_op_a7(m: Pc1500View) -> Pc1500View {
    let op = m.op_word();
    let m1 = m.skip_s(2);
    let read = m1.mem_read(me1(op));
    let v66 = m1.cpu.a;
    let m2 = m1.cpa_s(v66, read);
    let m3 = m2.tick(17);
    m3
}

#[verifier::opaque]
pub open spec fn fd_op_a8(m: Pc1500View) -> Pc1500View {
    let v67 = m.cpu.u;
    let m1 = m.push_word_spec(v67);
    let m2 = m1.tick(14);
    m2
}

#[verifier::opaque]
pub open spec fn fd_op_a9(m: Pc1500View) -> Pc1500View {
    let op = m.op_word();
    let m1 = m.skip_s(2);
    let read = m1.mem_read(me1(op));
    let m2 = m1.and_s(read);
    let m3 = m2.tick(17);
    m3
}

#[verifier::opaque]
pub open spec fn fd_op_aa(m: Pc1500View) -> Pc1500View {
    let v68 = m.cpu.t;
    let m1 = m.lda_s(v68);
    let v69 = m1.cpu.t;
    let m2 = m1.with_flag_s(ZF, v69 == 0);
    let m3 = m2.tick(9);
    m3
}

#[verifier::opaque]
pub open spec fn fd_op_ab(m: Pc1500View) -> Pc1500View {
    let op = m.op_word();
    let m1 = m.skip_s(2);
    let read = m1.mem_read(me1(op));
    let m2 = m1.ora_s(read);
    let m3 = m2.tick(17);
    m3
}

#[verifier::opaque]
pub open spec fn fd_op_ac(m: Pc1500View) -> Pc1500View {
    let v70 = me1(m.cpu.u);
    let read = m.mem_read(v70);
    let m1 = m.dca_s(read);
    let m2 = m1.tick(19);
    m2
}

#[verifier::opaque]
pub open spec fn fd_op_ad(m: Pc1500View) -> Pc1500View {
    let op = m.op_word();
    let m1 = m.skip_s(2);
    let read = m1.mem_read(me1(op));
    let m2 = m1.eor_s(read);
    let m3 = m2.tick(17);
    m3
}

#[verifier::opaque]
pub open spec fn fd_op_ae(m: Pc1500View) -> Pc1500View {
    let op = m.op_word();
    let m1 = m.skip_s(2);
    let v71 = m1.cpu.a;
    let m2 = m1.mem_write(me1(op), v71);
    let m3 = m2.tick(16);
    m3
}

#[verifier::opaque]
pub open spec fn fd_op_af(m: Pc1500View) -> Pc1500View {
    let op = m.op_word();
    let m1 = m.skip_s(2);
    let read = m1.mem_read(me1(op));
    let v72 = m1.cpu.a;
    let m2 = m1.bit_s(read, v72);
    let m3 = m2.tick(17);
    m3
}

#[verifier::opaque]
pub open spec fn fd_op_b1(m: Pc1500View) -> Pc1500View {
    let m1 = m.with_cpu(Lh5801 { is_halted: true, ..m.cpu });
    let m2 = m1.tick(8);
    m2
}

#[verifier::opaque]
pub open spec fn fd_op_ba(m: Pc1500View) -> Pc1500View {
    let m1 = m.ita_s();
    let m2 = m1.tick(9);
    m2
}

#[verifier::opaque]
pub open spec fn fd_op_be(m: Pc1500View) -> Pc1500View {
    let m1 = m.with_flag_s(IE, false);
    let m2 = m1.tick(8);
    m2
}

#[verifier::opaque]
pub open spec fn fd_op_c0(m: Pc1500View) -> Pc1500View {
    let m1 = m.with_cpu(Lh5801 { disp: false, ..m.cpu });
    let m2 = m1.tick(8);
    m2
}

#[verifier::opaque]
pub open spec fn fd_op_c1(m: Pc1500View) -> Pc1500View {
    let m1 = m.with_cpu(Lh5801 { disp: true, ..m.cpu });
    let m2 = m1.tick(8);
    m2
}

#[verifier::opaque]
pub open spec fn fd_op_c8(m: Pc1500View) -> Pc1500View {
    let v73 = m.cpu.a;
    let m1 = m.push_spec(v73);
    let m2 = m1.tick(11);
    m2
}

#[verifier::opaque]
pub open spec fn fd_op_ca(m: Pc1500View) -> Pc1500View {
    let v74 = m.cpu.x;
    let v75 = (((v74) as int + m.cpu.a as int) % 0x10000) as u16;
    let m1 = m.with_cpu(Lh5801 { x: v75, ..m.cpu });
    let m2 = m1.tick(11);
    m2
}

#[verifier::opaque]
pub open spec fn fd_op_cc(m: Pc1500View) -> Pc1500View {
    let m1 = m.tick(9);
    m1
}

#[verifier::opaque]
pub open spec fn fd_op_ce(m: Pc1500View) -> Pc1500View {
    let v76 = ((m.cpu.a) as u16);
    let m1 = m.with_cpu(Lh5801 { tm: v76, ..m.cpu });
    let m2 = m1.tick(9);
    m2
}

#[verifier::opaque]
pub open spec fn fd_op_d3(m: Pc1500View) -> Pc1500View {
    let v77 = me1((m.cpu.x));
    let m1 = m.drr_s(v77);
    let m2 = m1.tick(16);
    m2
}

#[verifier::opaque]
pub open spec fn fd_op_d7(m: Pc1500View) -> Pc1500View {
    let v78 = me1((m.cpu.x));
    let m1 = m.drl_s(v78);
    let m2 = m1.tick(16);
    m2
}

#[verifier::opaque]
pub open spec fn fd_op_da(m: Pc1500View) -> Pc1500View {
    let v79 = m.cpu.y;
    let v80 = (((v79) as int + m.cpu.a as int) % 0x10000) as u16;
    let m1 = m.with_cpu(Lh5801 { y: v80, ..m.cpu });
    let m2 = m1.tick(11);
    m2
}

#[verifier::opaque]
pub open spec fn fd_op_de(m: Pc1500View) -> Pc1500View {
    let v81 = ((m.cpu.a) as u16) | 0x100;
    let m1 = m.with_cpu(Lh5801 { tm: v81, ..m.cpu });
    let m2 = m1.tick(9);
    m2
}

#[verifier::opaque]
pub open spec fn fd_op_ea(m: Pc1500View) -> Pc1500View {
    let v82 = m.cpu.u;
    let v83 = (((v82) as int + m.cpu.a as int) % 0x10000) as u16;
    let m1 = m.with_cpu(Lh5801 { u: v83, ..m.cpu });
    let m2 = m1.tick(11);
    m2
}

#[verifier::opaque]
pub open spec fn fd_op_e9(m: Pc1500View) -> Pc1500View {
    let adr = me1(m.op_word());
    let m1 = m.skip_s(2);
    let read = m1.mem_read(m1.cpu.p as u32);
    let m2 = m1.skip_s(1);
    let m3 = m2.and_mem_s((adr) as u32, read);
    let m4 = m3.tick(23);
    m4
}

#[verifier::opaque]
pub open spec fn fd_op_eb(m: Pc1500View) -> Pc1500View {
    let adr = me1(m.op_word());
    let m1 = m.skip_s(2);
    let read = m1.mem_read(m1.cpu.p as u32);
    let m2 = m1.skip_s(1);
    let m3 = m2.ora_mem_s((adr) as u32, read);
    let m4 = m3.tick(23);
    m4
}

#[verifier::opaque]
pub open spec fn fd_op_ec(m: Pc1500View) -> Pc1500View {
    let m1 = m.with_cpu(Lh5801 { t: m.cpu.a & 0x1F, ..m.cpu });
    let m2 = m1.tick(9);
    m2
}

#[verifier::opaque]
pub open spec fn fd_op_ed(m: Pc1500View) -> Pc1500View {
    let op = m.op_word();
    let m1 = m.skip_s(2);
    let read = m1.mem_read(me1(op));
    let op2 = m1.mem_read(m1.cpu.p as u32);
    let m2 = m1.skip_s(1);
    let m3 = m2.bit_s(read, op2);
    let m4 = m3.tick(20);
    m4
}

#[verifier::opaque]
pub open spec fn fd_op_ef(m: Pc1500View) -> Pc1500View {
    let op = m.op_word();
    let m1 = m.skip_s(2);
    let adr = me1(op);
    let op2 = m1.mem_read(m1.cpu.p as u32);
    let m2 = m1.skip_s(1);
    let m3 = m2.add_mem_s((adr) as u32, op2);
    let m4 = m3.tick(23);
    m4
}

/// The machine after the instruction `op` of this group, from the state
/// just after its opcode was fetched.
#[verifier::opaque]
pub open spec fn effect_00(op: u8, m: Pc1500View) -> Pc1500View {
    match op {
        0x00 => op_00(m),
        0x01 => op_01(m),
        0x02 => op_02(m),
        0x03 => op_03(m),
        0x04 => op_04(m),
        0x05 => op_05(m),
        0x06 => op_06(m),
        0x07 => op_07(m),
        0x08 => op_08(m),
        0x09 => op_09(m),
        0x0a => op_0a(m),
        0x0b => op_0b(m),
        0x0c => op_0c(m),
        0x0d => op_0d(m),
        0x0e => op_0e(m),
        0x0f => op_0f(m),
        _ => m,
    }
}

/// The machine after the instruction `op` of this group, from the state
/// just after its opcode was fetched.
#[verifier::opaque]
pub open spec fn effect_10(op: u8, m: Pc1500View) -> Pc1500View {
    match op {
        0x10 => op_10(m),
        0x11 => op_11(m),
        0x12 => op_12(m),
        0x13 => op_13(m),
        0x14 => op_14(m),
        0x15 => op_15(m),
        0x16 => op_16(m),
        0x17 => op_17(m),
        0x18 => op_18(m),
        0x19 => op_19(m),
        0x1a => op_1a(m),
        0x1b => op_1b(m),
        0x1c => op_1c(m),
        0x1d => op_1d(m),
        0x1e => op_1e(m),
        0x1f => op_1f(m),
        _ => m,
    }
}

/// The machine after the instruction `op` of this group, from the state
/// just after its opcode was fetched.
#[verifier::opaque]
pub open spec fn effect_20(op: u8, m: Pc1500View) -> Pc1500View {
    match op {
        0x20 => op_20(m),
        0x21 => op_21(m),
        0x22 => op_22(m),
        0x23 => op_23(m),
        0x24 => op_24(m),
        0x25 => op_25(m),
        0x26 => op_26(m),
        0x27 => op_27(m),
        0x28 => op_28(m),
        0x29 => op_29(m),
        0x2a => op_2a(m),
        0x2b => op_2b(m),
        0x2c => op_2c(m),
        0x2d => op_2d(m),
        0x2e => op_2e(m),
        0x2f => op_2f(m),
        _ => m,
    }
}

/// The machine after the instruction `op` of this group, from the state
/// just after its opcode was fetched.
#[verifier::opaque]
pub open spec fn effect_30(op: u8, m: Pc1500View) -> Pc1500View {
    match op {
        0x30 => op_30(m),
        0x32 => op_32(m),
        0x34 => op_34(m),
        0x36 => op_36(m),
        0x38 => op_38(m),
        _ => m,
    }
}

/// The machine after the instruction `op` of this group, from the state
/// just after its opcode was fetched.
#[verifier::opaque]
pub open spec fn effect_40(op: u8, m: Pc1500View) -> Pc1500View {
    match op {
        0x40 => op_40(m),
        0x41 => op_41(m),
        0x42 => op_42(m),
        0x43 => op_43(m),
        0x44 => op_44(m),
        0x45 => op_45(m),
        0x46 => op_46(m),
        0x47 => op_47(m),
        0x48 => op_48(m),
        0x49 => op_49(m),
        0x4a => op_4a(m),
        0x4b => op_4b(m),
        0x4c => op_4c(m),
        0x4d => op_4d(m),
        0x4e => op_4e(m),
        0x4f => op_4f(m),
        _ => m,
    }
}

/// The machine after the instruction `op` of this group, from the state
/// just after its opcode was fetched.
#[verifier::opaque]
pub open spec fn effect_50(op: u8, m: Pc1500View) -> Pc1500View {
    match op {
        0x50 => op_50(m),
        0x51 => op_51(m),
        0x52 => op_52(m),
        0x53 => op_53(m),
        0x54 => op_54(m),
        0x55 => op_55(m),
        0x56 => op_56(m),
        0x57 => op_57(m),
        0x58 => op_58(m),
        0x59 => op_59(m),
        0x5a => op_5a(m),
        0x5b => op_5b(m),
        0x5c => op_5c(m),
        0x5d => op_5d(m),
        0x5e => op_5e(m),
        0x5f => op_5f(m),
        _ => m,
    }
}

/// The machine after the instruction `op` of this group, from the state
/// just after its opcode was fetched.
#[verifier::opaque]
pub open spec fn effect_60(op: u8, m: Pc1500View) -> Pc1500View {
    match op {
        0x60 => op_60(m),
        0x61 => op_61(m),
        0x62 => op_62(m),
        0x63 => op_63(m),
        0x64 => op_64(m),
        0x65 => op_65(m),
        0x66 => op_66(m),
        0x67 => op_67(m),
        0x68 => op_68(m),
        0x69 => op_69(m),
        0x6a => op_6a(m),
        0x6b => op_6b(m),
        0x6c => op_6c(m),
        0x6d => op_6d(m),
        0x6e => op_6e(m),
        0x6f => op_6f(m),
        _ => m,
    }
}

/// The machine after the instruction `op` of this group, from the state
/// just after its opcode was fetched.
#[verifier::opaque]
pub open spec fn effect_80(op: u8, m: Pc1500View) -> Pc1500View {
    match op {
        0x80 => op_80(m),
        0x81 => op_81(m),
        0x82 => op_82(m),
        0x83 => op_83(m),
        0x84 => op_84(m),
        0x85 => op_85(m),
        0x86 => op_86(m),
        0x87 => op_87(m),
        0x88 => op_88(m),
        0x89 => op_89(m),
        0x8a => op_8a(m),
        0x8b => op_8b(m),
        0x8c => op_8c(m),
        0x8d => op_8d(m),
        0x8e => op_8e(m),
        0x8f => op_8f(m),
        _ => m,
    }
}

/// The machine after the instruction `op` of this group, from the state
/// just after its opcode was fetched.
#[verifier::opaque]
pub open spec fn effect_90(op: u8, m: Pc1500View) -> Pc1500View {
    match op {
        0x90 => op_90(m),
        0x91 => op_91(m),
        0x92 => op_92(m),
        0x93 => op_93(m),
        0x94 => op_94(m),
        0x95 => op_95(m),
        0x96 => op_96(m),
        0x97 => op_97(m),
        0x99 => op_99(m),
        0x9a => op_9a(m),
        0x9b => op_9b(m),
        0x9c => op_9c(m),
        0x9d => op_9d(m),
        0x9e => op_9e(m),
        0x9f => op_9f(m),
        _ => m,
    }
}

/// The machine after the instruction `op` of this group, from the state
/// just after its opcode was fetched.
#[verifier::opaque]
pub open spec fn effect_a0(op: u8, m: Pc1500View) -> Pc1500View {
    match op {
        0xa0 => op_a0(m),
        0xa1 => op_a1(m),
        0xa2 => op_a2(m),
        0xa3 => op_a3(m),
        0xa4 => op_a4(m),
        0xa5 => op_a5(m),
        0xa6 => op_a6(m),
        0xa7 => op_a7(m),
        0xa8 => op_a8(m),
        0xa9 => op_a9(m),
        0xaa => op_aa(m),
        0xab => op_ab(m),
        0xac => op_ac(m),
        0xad => op_ad(m),
        0xae => op_ae(m),
        0xaf => op_af(m),
        _ => m,
    }
}

/// The machine after the instruction `op` of this group, from the state
/// just after its opcode was fetched.
#[verifier::opaque]
pub open spec fn effect_b0(op: u8, m: Pc1500View) -> Pc1500View {
    match op {
        0xb1 => op_b1(m),
        0xb3 => op_b3(m),
        0xb5 => op_b5(m),
        0xb7 => op_b7(m),
        0xb8 => op_b8(m),
        0xb9 => op_b9(m),
        0xba => op_ba(m),
        0xbb => op_bb(m),
        0xbd => op_bd(m),
        0xbe => op_be(m),
        0xbf => op_bf(m),
        _ => m,
    }
}

/// The machine after the instruction `op` of this group, from the state
/// just after its opcode was fetched.
#[verifier::opaque]
pub open spec fn effect_c0(op: u8, m: Pc1500View) -> Pc1500View {
    match op {
        0xc1 => op_c1(m),
        0xc3 => op_c3(m),
        0xc5 => op_c5(m),
        0xc7 => op_c7(m),
        0xc9 => op_c9(m),
        0xcb => op_cb(m),
        0xcd => op_cd(m),
        0xcf => op_cf(m),
        0xc0 | 0xc2 | 0xc4 | 0xc6 | 0xc8 | 0xca | 0xcc | 0xce => op_c0(op, m),
        _ => m,
    }
}

/// The machine after the instruction `op` of this group, from the state
/// just after its opcode was fetched.
#[verifier::opaque]
pub open spec fn effect_d0(op: u8, m: Pc1500View) -> Pc1500View {
    match op {
        0xd1 => op_d1(m),
        0xd3 => op_d3(m),
        0xd5 => op_d5(m),
        0xd7 => op_d7(m),
        0xd9 => op_d9(m),
        0xdb => op_db(m),
        0xdd => op_dd(m),
        0xdf => op_df(m),
        0xd0 | 0xd2 | 0xd4 | 0xd6 | 0xd8 | 0xda | 0xdc | 0xde => op_d0(op, m),
        _ => m,
    }
}

/// The machine after the instruction `op` of this group, from the state
/// just after its opcode was fetched.
#[verifier::opaque]
pub open spec fn effect_e0(op: u8, m: Pc1500View) -> Pc1500View {
    match op {
        0xe1 => op_e1(m),
        0xe3 => op_e3(m),
        0xe9 => op_e9(m),
        0xeb => op_eb(m),
        0xed => op_ed(m),
        0xef => op_ef(m),
        0xe0 | 0xe2 | 0xe4 | 0xe6 | 0xe8 | 0xea | 0xec | 0xee => op_e0(op, m),
        _ => m,
    }
}

/// The machine after the instruction `op` of this group, from the state
/// just after its opcode was fetched.
#[verifier::opaque]
pub open spec fn effect_f0(op: u8, m: Pc1500View) -> Pc1500View {
    match op {
        0xf1 => op_f1(m),
        0xf5 => op_f5(m),
        0xf7 => op_f7(m),
        0xf9 => op_f9(m),
        0xfb => op_fb(m),
        0xf0 | 0xf2 | 0xf4 | 0xf6 => op_f0(op, m),
        _ => m,
    }
}

/// The machine after the instruction `op` of this group, from the state
/// just after its opcode was fetched.
#[verifier::opaque]
pub open spec fn effect_fd_00(op: u8, m: Pc1500View) -> Pc1500View {
    match op {
        0x01 => fd_op_01(m),
        0x03 => fd_op_03(m),
        0x05 => fd_op_05(m),
        0x07 => fd_op_07(m),
        0x08 => fd_op_08(m),
        0x09 => fd_op_09(m),
        0x0a => fd_op_0a(m),
        0x0b => fd_op_0b(m),
        0x0c => fd_op_0c(m),
        0x0d => fd_op_0d(m),
        0x0e => fd_op_0e(m),
        0x0f => fd_op_0f(m),
        0x11 => fd_op_11(m),
        0x13 => fd_op_13(m),
        0x15 => fd_op_15(m),
        0x17 => fd_op_17(m),
        0x18 => fd_op_18(m),
        0x19 => fd_op_19(m),
        0x1a => fd_op_1a(m),
        0x1b => fd_op_1b(m),
        0x1c => fd_op_1c(m),
        0x1d => fd_op_1d(m),
        0x1e => fd_op_1e(m),
        0x1f => fd_op_1f(m),
        _ => m,
    }
}

/// The machine after the instruction `op` of this group, from the state
/// just after its opcode was fetched.
#[verifier::opaque]
pub open spec fn effect_fd_20(op: u8, m: Pc1500View) -> Pc1500View {
    match op {
        0x21 => fd_op_21(m),
        0x23 => fd_op_23(m),
        0x25 => fd_op_25(m),
        0x27 => fd_op_27(m),
        0x28 => fd_op_28(m),
        0x29 => fd_op_29(m),
        0x2a => fd_op_2a(m),
        0x2b => fd_op_2b(m),
        0x2c => fd_op_2c(m),
        0x2d => fd_op_2d(m),
        0x2e => fd_op_2e(m),
        0x2f => fd_op_2f(m),
        0x3a => fd_op_3a(m),
        _ => m,
    }
}

/// The machine after the instruction `op` of this group, from the state
/// just after its opcode was fetched.
#[verifier::opaque]
pub open spec fn effect_fd_40(op: u8, m: Pc1500View) -> Pc1500View {
    match op {
        0x40 => fd_op_40(m),
        0x42 => fd_op_42(m),
        0x48 => fd_op_48(m),
        0x49 => fd_op_49(m),
        0x4a => fd_op_4a(m),
        0x4b => fd_op_4b(m),
        0x4c => fd_op_4c(m),
        0x4d => fd_op_4d(m),
        0x4e => fd_op_4e(m),
        0x4f => fd_op_4f(m),
        0x50 => fd_op_50(m),
        0x52 => fd_op_52(m),
        0x58 => fd_op_58(m),
        0x59 => fd_op_59(m),
        0x5a => fd_op_5a(m),
        0x5b => fd_op_5b(m),
        0x5d => fd_op_5d(m),
        0x5e => fd_op_5e(m),
        0x5f => fd_op_5f(m),
        _ => m,
    }
}

/// The machine after the instruction `op` of this group, from the state
/// just after its opcode was fetched.
#[verifier::opaque]
pub open spec fn effect_fd_60(op: u8, m: Pc1500View) -> Pc1500View {
    match op {
        0x60 => fd_op_60(m),
        0x62 => fd_op_62(m),
        0x69 => fd_op_69(m),
        0x6a => fd_op_6a(m),
        0x6b => fd_op_6b(m),
        0x6d => fd_op_6d(m),
        0x6f => fd_op_6f(m),
        _ => m,
    }
}

/// The machine after the instruction `op` of this group, from the state
/// just after its opcode was fetched.
#[verifier::opaque]
pub open spec fn effect_fd_80(op: u8, m: Pc1500View) -> Pc1500View {
    match op {
        0x81 => fd_op_81(m),
        0x88 => fd_op_88(m),
        0x8a => fd_op_8a(m),
        0x8c => fd_op_8c(m),
        0x98 => fd_op_98(m),
        0x9c => fd_op_9c(m),
        _ => m,
    }
}

/// The machine after the instruction `op` of this group, from the state
/// just after its opcode was fetched.
#[verifier::opaque]
pub open spec fn effect_fd_a0(op: u8, m: Pc1500View) -> Pc1500View {
    match op {
        0xa1 => fd_op_a1(m),
        0xa3 => fd_op_a3(m),
        0xa5 => fd_op_a5(m),
        0xa7 => fd_op_a7(m),
        0xa8 => fd_op_a8(m),
        0xa9 => fd_op_a9(m),
        0xaa => fd_op_aa(m),
        0xab => fd_op_ab(m),
        0xac => fd_op_ac(m),
        0xad => fd_op_ad(m),
        0xae => fd_op_ae(m),
        0xaf => fd_op_af(m),
        0xb1 => fd_op_b1(m),
        0xba => fd_op_ba(m),
        0xbe => fd_op_be(m),
        _ => m,
    }
}

/// The machine after the instruction `op` of this group, from the state
/// just after its opcode was fetched.
#[verifier::opaque]
pub open spec fn effect_fd_c0(op: u8, m: Pc1500View) -> Pc1500View {
    match op {
        0xc0 => fd_op_c0(m),
        0xc1 => fd_op_c1(m),
        0xc8 => fd_op_c8(m),
        0xca => fd_op_ca(m),
        0xcc => fd_op_cc(m),
        0xce => fd_op_ce(m),
        0xd3 => fd_op_d3(m),
        0xd7 => fd_op_d7(m),
        0xda => fd_op_da(m),
        0xde => fd_op_de(m),
        _ => m,
    }
}

/// The machine after the instruction `op` of this group, from the state
/// just after its opcode was fetched.
#[verifier::opaque]
pub open spec fn effect_fd_e0(op: u8, m: Pc1500View) -> Pc1500View {
    match op {
        0xea => fd_op_ea(m),
        0xe9 => fd_op_e9(m),
        0xeb => fd_op_eb(m),
        0xec => fd_op_ec(m),
        0xed => fd_op_ed(m),
        0xef => fd_op_ef(m),
        _ => m,
    }
}

/// No opcode of the 0x70 row is defined.
#[verifier::opaque]
pub open spec fn effect_70(op: u8, m: Pc1500View) -> Pc1500View {
    m
}

/// The machine after the one-byte-opcode instruction `op` (not FD), from the
/// state just after its opcode was fetched.
pub open spec fn main_effect(op: u8, m: Pc1500View) -> Pc1500View {
    if op < 0x10 { effect_00(op, m) }
    else if op < 0x20 { effect_10(op, m) }
    else if op < 0x30 { effect_20(op, m) }
    else if op < 0x40 { effect_30(op, m) }
    else if op < 0x50 { effect_40(op, m) }
    else if op < 0x60 { effect_50(op, m) }
    else if op < 0x70 { effect_60(op, m) }
    else if op < 0x80 { effect_70(op, m) }
    else if op < 0x90 { effect_80(op, m) }
    else if op < 0xa0 { effect_90(op, m) }
    else if op < 0xb0 { effect_a0(op, m) }
    else if op < 0xc0 { effect_b0(op, m) }
    else if op < 0xd0 { effect_c0(op, m) }
    else if op < 0xe0 { effect_d0(op, m) }
    else if op < 0xf0 { effect_e0(op, m) }
    else { effect_f0(op, m) }
}

/// The machine after the FD-prefixed instruction with second byte `op`,
/// from the state just after that byte was fetched.
pub open spec fn fd_effect(op: u8, m: Pc1500View) -> Pc1500View {
    if op < 0x20 { effect_fd_00(op, m) }
    else if op < 0x40 { effect_fd_20(op, m) }
    else if op < 0x60 { effect_fd_40(op, m) }
    else if op < 0x80 { effect_fd_60(op, m) }
    else if op < 0xa0 { effect_fd_80(op, m) }
    else if op < 0xc0 { effect_fd_a0(op, m) }
    else if op < 0xe0 { effect_fd_c0(op, m) }
    else { effect_fd_e0(op, m) }
}


pub open spec fn op_81_fails(m: Pc1500View) -> bool {
    let v194 = !(m.cpu.t & CF != 0);
    (v194 && debug_trips(m.cpu.debug_messages, add16(inc16(m.cpu.p), m.mem_read(m.cpu.p as u32))))
}

pub open spec fn op_83_fails(m: Pc1500View) -> bool {
    let v196 = (m.cpu.t & CF != 0);
    (v196 && debug_trips(m.cpu.debug_messages, add16(inc16(m.cpu.p), m.mem_read(m.cpu.p as u32))))
}

pub open spec fn op_85_fails(m: Pc1500View) -> bool {
    let v198 = !(m.cpu.t & HF != 0);
    (v198 && debug_trips(m.cpu.debug_messages, add16(inc16(m.cpu.p), m.mem_read(m.cpu.p as u32))))
}

pub open spec fn op_87_fails(m: Pc1500View) -> bool {
    let v201 = (m.cpu.t & HF != 0);
    (v201 && debug_trips(m.cpu.debug_messages, add16(inc16(m.cpu.p), m.mem_read(m.cpu.p as u32))))
}

pub open spec fn op_89_fails(m: Pc1500View) -> bool {
    let v202 = !(m.cpu.t & ZF != 0);
    (v202 && debug_trips(m.cpu.debug_messages, add16(inc16(m.cpu.p), m.mem_read(m.cpu.p as u32))))
}

pub open spec fn op_8a_fails(m: Pc1500View) -> bool {
    debug_trips(m.cpu.debug_messages, m.peek_word())
}

pub open spec fn op_8b_fails(m: Pc1500View) -> bool {
    let v203 = (m.cpu.t & ZF != 0);
    (v203 && debug_trips(m.cpu.debug_messages, add16(inc16(m.cpu.p), m.mem_read(m.cpu.p as u32))))
}

pub open spec fn op_8c_fails(m: Pc1500View) -> bool {
    let v204 = ((m.cpu.x)) as u32;
    let val = m.mem_read(v204);
    m.cpu.a > 0x99
}

pub open spec fn op_8d_fails(m: Pc1500View) -> bool {
    let v205 = !(m.cpu.t & VF != 0);
    (v205 && debug_trips(m.cpu.debug_messages, add16(inc16(m.cpu.p), m.mem_read(m.cpu.p as u32))))
}

pub open spec fn op_8e_fails(m: Pc1500View) -> bool {
    (true && debug_trips(m.cpu.debug_messages, add16(inc16(m.cpu.p), m.mem_read(m.cpu.p as u32))))
}

pub open spec fn op_8f_fails(m: Pc1500View) -> bool {
    let v206 = (m.cpu.t & VF != 0);
    (v206 && debug_trips(m.cpu.debug_messages, add16(inc16(m.cpu.p), m.mem_read(m.cpu.p as u32))))
}

pub open spec fn op_91_fails(m: Pc1500View) -> bool {
    let v208 = !(m.cpu.t & CF != 0);
    (v208 && debug_trips(m.cpu.debug_messages, sub16(inc16(m.cpu.p), m.mem_read(m.cpu.p as u32))))
}

pub open spec fn op_93_fails(m: Pc1500View) -> bool {
    let v210 = (m.cpu.t & CF != 0);
    (v210 && debug_trips(m.cpu.debug_messages, sub16(inc16(m.cpu.p), m.mem_read(m.cpu.p as u32))))
}

pub open spec fn op_95_fails(m: Pc1500View) -> bool {
    let v212 = !(m.cpu.t & HF != 0);
    (v212 && debug_trips(m.cpu.debug_messages, sub16(inc16(m.cpu.p), m.mem_read(m.cpu.p as u32))))
}

pub open spec fn op_97_fails(m: Pc1500View) -> bool {
    let v215 = (m.cpu.t & HF != 0);
    (v215 && debug_trips(m.cpu.debug_messages, sub16(inc16(m.cpu.p), m.mem_read(m.cpu.p as u32))))
}

pub open spec fn op_99_fails(m: Pc1500View) -> bool {
    let v216 = !(m.cpu.t & ZF != 0);
    (v216 && debug_trips(m.cpu.debug_messages, sub16(inc16(m.cpu.p), m.mem_read(m.cpu.p as u32))))
}

pub open spec fn op_9a_fails(m: Pc1500View) -> bool {
    debug_trips(m.cpu.debug_messages, m.peek_word())
}

pub open spec fn op_9b_fails(m: Pc1500View) -> bool {
    let v217 = (m.cpu.t & ZF != 0);
    (v217 && debug_trips(m.cpu.debug_messages, sub16(inc16(m.cpu.p), m.mem_read(m.cpu.p as u32))))
}

pub open spec fn op_9c_fails(m: Pc1500View) -> bool {
    let v218 = ((m.cpu.y)) as u32;
    let val = m.mem_read(v218);
    m.cpu.a > 0x99
}

pub open spec fn op_9d_fails(m: Pc1500View) -> bool {
    let v219 = !(m.cpu.t & VF != 0);
    (v219 && debug_trips(m.cpu.debug_messages, sub16(inc16(m.cpu.p), m.mem_read(m.cpu.p as u32))))
}

pub open spec fn op_9e_fails(m: Pc1500View) -> bool {
    (true && debug_trips(m.cpu.debug_messages, sub16(inc16(m.cpu.p), m.mem_read(m.cpu.p as u32))))
}

pub open spec fn op_9f_fails(m: Pc1500View) -> bool {
    let v220 = (m.cpu.t & VF != 0);
    (v220 && debug_trips(m.cpu.debug_messages, sub16(inc16(m.cpu.p), m.mem_read(m.cpu.p as u32))))
}

pub open spec fn op_ac_fails(m: Pc1500View) -> bool {
    let v227 = ((m.cpu.u)) as u32;
    let val = m.mem_read(v227);
    m.cpu.a > 0x99
}

pub open spec fn op_ba_fails(m: Pc1500View) -> bool {
    let addr = m.op_word();
    let m1 = m.skip_s(2);
    debug_trips(m1.cpu.debug_messages, addr)
}

pub open spec fn op_be_fails(m: Pc1500View) -> bool {
    debug_trips(m.cpu.debug_messages, m.op_word())
}

pub open spec fn op_c1_fails(m: Pc1500View) -> bool {
    let nr = m.mem_read(m.cpu.p as u32);
    let m1 = m.skip_s(1);
    let v232 = !(m1.cpu.t & CF != 0);
    (v232 && debug_trips(m1.cpu.debug_messages, m1.vector_target(nr)))
}

pub open spec fn op_c3_fails(m: Pc1500View) -> bool {
    let nr = m.mem_read(m.cpu.p as u32);
    let m1 = m.skip_s(1);
    let v233 = (m1.cpu.t & CF != 0);
    (v233 && debug_trips(m1.cpu.debug_messages, m1.vector_target(nr)))
}

pub open spec fn op_c5_fails(m: Pc1500View) -> bool {
    let nr = m.mem_read(m.cpu.p as u32);
    let m1 = m.skip_s(1);
    let v234 = !(m1.cpu.t & HF != 0);
    (v234 && debug_trips(m1.cpu.debug_messages, m1.vector_target(nr)))
}

pub open spec fn op_c7_fails(m: Pc1500View) -> bool {
    let nr = m.mem_read(m.cpu.p as u32);
    let m1 = m.skip_s(1);
    let v235 = (m1.cpu.t & HF != 0);
    (v235 && debug_trips(m1.cpu.debug_messages, m1.vector_target(nr)))
}

pub open spec fn op_c9_fails(m: Pc1500View) -> bool {
    let nr = m.mem_read(m.cpu.p as u32);
    let m1 = m.skip_s(1);
    let v236 = !(m1.cpu.t & ZF != 0);
    (v236 && debug_trips(m1.cpu.debug_messages, m1.vector_target(nr)))
}

pub open spec fn op_cb_fails(m: Pc1500View) -> bool {
    let nr = m.mem_read(m.cpu.p as u32);
    let m1 = m.skip_s(1);
    let v237 = (m1.cpu.t & ZF != 0);
    (v237 && debug_trips(m1.cpu.debug_messages, m1.vector_target(nr)))
}

pub open spec fn op_cd_fails(m: Pc1500View) -> bool {
    let nr = m.mem_read(m.cpu.p as u32);
    let m1 = m.skip_s(1);
    (true && debug_trips(m1.cpu.debug_messages, m1.vector_target(nr)))
}

pub open spec fn op_cf_fails(m: Pc1500View) -> bool {
    let nr = m.mem_read(m.cpu.p as u32);
    let m1 = m.skip_s(1);
    let v238 = (m1.cpu.t & VF != 0);
    (v238 && debug_trips(m1.cpu.debug_messages, m1.vector_target(nr)))
}

pub open spec fn op_c0_fails(op: u8, m: Pc1500View) -> bool {
    (true && debug_trips(m.cpu.debug_messages, m.vector_target(op)))
}

pub open spec fn op_d0_fails(op: u8, m: Pc1500View) -> bool {
    (true && debug_trips(m.cpu.debug_messages, m.vector_target(op)))
}

pub open spec fn op_e0_fails(op: u8, m: Pc1500View) -> bool {
    (true && debug_trips(m.cpu.debug_messages, m.vector_target(op)))
}

pub open spec fn op_f0_fails(op: u8, m: Pc1500View) -> bool {
    (true && debug_trips(m.cpu.debug_messages, m.vector_target(op)))
}

pub open spec fn fd_op_5e_fails(m: Pc1500View) -> bool {
    let v54 = m.cpu.x;
    debug_trips(m.cpu.debug_messages, v54)
}

pub open spec fn fd_op_8c_fails(m: Pc1500View) -> bool {
    let v63 = me1((m.cpu.x));
    let read = m.mem_read(v63);
    m.cpu.a > 0x99
}

pub open spec fn fd_op_9c_fails(m: Pc1500View) -> bool {
    let v65 = me1((m.cpu.y));
    let read = m.mem_read(v65);
    m.cpu.a > 0x99
}

pub open spec fn fd_op_ac_fails(m: Pc1500View) -> bool {
    let v70 = me1(m.cpu.u);
    let read = m.mem_read(v70);
    m.cpu.a > 0x99
}

/// Whether the instruction `op` of this group stops on a fault, from the
/// state just after its opcode was fetched.
#[verifier::opaque]
pub open spec fn fails_00(op: u8, m: Pc1500View) -> bool {
    match op {

        _ => false,
    }
}

/// Whether the instruction `op` of this group stops on a fault, from the
/// state just after its opcode was fetched.
#[verifier::opaque]
pub open spec fn fails_10(op: u8, m: Pc1500View) -> bool {
    match op {

        _ => false,
    }
}

/// Whether the instruction `op` of this group stops on a fault, from the
/// state just after its opcode was fetched.
#[verifier::opaque]
pub open spec fn fails_20(op: u8, m: Pc1500View) -> bool {
    match op {

        _ => false,
    }
}

/// Whether the instruction `op` of this group stops on a fault, from the
/// state just after its opcode was fetched.
#[verifier::opaque]
pub open spec fn fails_30(op: u8, m: Pc1500View) -> bool {
    match op {

        _ => false,
    }
}

/// Whether the instruction `op` of this group stops on a fault, from the
/// state just after its opcode was fetched.
#[verifier::opaque]
pub open spec fn fails_40(op: u8, m: Pc1500View) -> bool {
    match op {

        _ => false,
    }
}

/// Whether the instruction `op` of this group stops on a fault, from the
/// state just after its opcode was fetched.
#[verifier::opaque]
pub open spec fn fails_50(op: u8, m: Pc1500View) -> bool {
    match op {

        _ => false,
    }
}

/// Whether the instruction `op` of this group stops on a fault, from the
/// state just after its opcode was fetched.
#[verifier::opaque]
pub open spec fn fails_60(op: u8, m: Pc1500View) -> bool {
    match op {

        _ => false,
    }
}

/// Whether the instruction `op` of this group stops on a fault, from the
/// state just after its opcode was fetched.
#[verifier::opaque]
pub open spec fn fails_80(op: u8, m: Pc1500View) -> bool {
    match op {
        0x81 => op_81_fails(m),
        0x83 => op_83_fails(m),
        0x85 => op_85_fails(m),
        0x87 => op_87_fails(m),
        0x89 => op_89_fails(m),
        0x8a => op_8a_fails(m),
        0x8b => op_8b_fails(m),
        0x8c => op_8c_fails(m),
        0x8d => op_8d_fails(m),
        0x8e => op_8e_fails(m),
        0x8f => op_8f_fails(m),
        _ => false,
    }
}

/// Whether the instruction `op` of this group stops on a fault, from the
/// state just after its opcode was fetched.
#[verifier::opaque]
pub open spec fn fails_90(op: u8, m: Pc1500View) -> bool {
    match op {
        0x91 => op_91_fails(m),
        0x93 => op_93_fails(m),
        0x95 => op_95_fails(m),
        0x97 => op_97_fails(m),
        0x99 => op_99_fails(m),
        0x9a => op_9a_fails(m),
        0x9b => op_9b_fails(m),
        0x9c => op_9c_fails(m),
        0x9d => op_9d_fails(m),
        0x9e => op_9e_fails(m),
        0x9f => op_9f_fails(m),
        _ => false,
    }
}

/// Whether the instruction `op` of this group stops on a fault, from the
/// state just after its opcode was fetched.
#[verifier::opaque]
pub open spec fn fails_a0(op: u8, m: Pc1500View) -> bool {
    match op {
        0xac => op_ac_fails(m),
        _ => false,
    }
}

/// Whether the instruction `op` of this group stops on a fault, from the
/// state just after its opcode was fetched.
#[verifier::opaque]
pub open spec fn fails_b0(op: u8, m: Pc1500View) -> bool {
    match op {
        0xba => op_ba_fails(m),
        0xbe => op_be_fails(m),
        _ => false,
    }
}

/// Whether the instruction `op` of this group stops on a fault, from the
/// state just after its opcode was fetched.
#[verifier::opaque]
pub open spec fn fails_c0(op: u8, m: Pc1500View) -> bool {
    match op {
        0xc1 => op_c1_fails(m),
        0xc3 => op_c3_fails(m),
        0xc5 => op_c5_fails(m),
        0xc7 => op_c7_fails(m),
        0xc9 => op_c9_fails(m),
        0xcb => op_cb_fails(m),
        0xcd => op_cd_fails(m),
        0xcf => op_cf_fails(m),
        0xc0 | 0xc2 | 0xc4 | 0xc6 | 0xc8 | 0xca | 0xcc | 0xce => op_c0_fails(op, m),
        _ => false,
    }
}

/// Whether the instruction `op` of this group stops on a fault, from the
/// state just after its opcode was fetched.
#[verifier::opaque]
pub open spec fn fails_d0(op: u8, m: Pc1500View) -> bool {
    match op {
        0xd0 | 0xd2 | 0xd4 | 0xd6 | 0xd8 | 0xda | 0xdc | 0xde => op_d0_fails(op, m),
        _ => false,
    }
}

/// Whether the instruction `op` of this group stops on a fault, from the
/// state just after its opcode was fetched.
#[verifier::opaque]
pub open spec fn fails_e0(op: u8, m: Pc1500View) -> bool {
    match op {
        0xe0 | 0xe2 | 0xe4 | 0xe6 | 0xe8 | 0xea | 0xec | 0xee => op_e0_fails(op, m),
        _ => false,
    }
}

/// Whether the instruction `op` of this group stops on a fault, from the
/// state just after its opcode was fetched.
#[verifier::opaque]
pub open spec fn fails_f0(op: u8, m: Pc1500View) -> bool {
    match op {
        0xf0 | 0xf2 | 0xf4 | 0xf6 => op_f0_fails(op, m),
        _ => false,
    }
}

/// Whether the instruction `op` of this group stops on a fault, from the
/// state just after its opcode was fetched.
#[verifier::opaque]
pub open spec fn fails_fd_00(op: u8, m: Pc1500View) -> bool {
    match op {

        _ => false,
    }
}

/// Whether the instruction `op` of this group stops on a fault, from the
/// state just after its opcode was fetched.
#[verifier::opaque]
pub open spec fn fails_fd_20(op: u8, m: Pc1500View) -> bool {
    match op {

        _ => false,
    }
}

/// Whether the instruction `op` of this group stops on a fault, from the
/// state just after its opcode was fetched.
#[verifier::opaque]
pub open spec fn fails_fd_40(op: u8, m: Pc1500View) -> bool {
    match op {
        0x5e => fd_op_5e_fails(m),
        _ => false,
    }
}

/// Whether the instruction `op` of this group stops on a fault, from the
/// state just after its opcode was fetched.
#[verifier::opaque]
pub open spec fn fails_fd_60(op: u8, m: Pc1500View) -> bool {
    match op {

        _ => false,
    }
}

/// Whether the instruction `op` of this group stops on a fault, from the
/// state just after its opcode was fetched.
#[verifier::opaque]
pub open spec fn fails_fd_80(op: u8, m: Pc1500View) -> bool {
    match op {
        0x8c => fd_op_8c_fails(m),
        0x9c => fd_op_9c_fails(m),
        _ => false,
    }
}

/// Whether the instruction `op` of this group stops on a fault, from the
/// state just after its opcode was fetched.
#[verifier::opaque]
pub open spec fn fails_fd_a0(op: u8, m: Pc1500View) -> bool {
    match op {
        0xac => fd_op_ac_fails(m),
        _ => false,
    }
}

/// Whether the instruction `op` of this group stops on a fault, from the
/// state just after its opcode was fetched.
#[verifier::opaque]
pub open spec fn fails_fd_c0(op: u8, m: Pc1500View) -> bool {
    match op {

        _ => false,
    }
}

/// Whether the instruction `op` of this group stops on a fault, from the
/// state just after its opcode was fetched.
#[verifier::opaque]
pub open spec fn fails_fd_e0(op: u8, m: Pc1500View) -> bool {
    match op {

        _ => false,
    }
}

/// No opcode of the 0x70 row is defined.
#[verifier::opaque]
pub open spec fn fails_70(op: u8, m: Pc1500View) -> bool {
    false
}

/// Whether the one-byte-opcode instruction `op` (not FD) stops on a fault
/// (the jump trace trap, or DCA with A above 0x99), from the state just after
/// its opcode was fetched.
pub open spec fn main_fails(op: u8, m: Pc1500View) -> bool {
    if op < 0x10 { fails_00(op, m) }
    else if op < 0x20 { fails_10(op, m) }
    else if op < 0x30 { fails_20(op, m) }
    else if op < 0x40 { fails_30(op, m) }
    else if op < 0x50 { fails_40(op, m) }
    else if op < 0x60 { fails_50(op, m) }
    else if op < 0x70 { fails_60(op, m) }
    else if op < 0x80 { fails_70(op, m) }
    else if op < 0x90 { fails_80(op, m) }
    else if op < 0xa0 { fails_90(op, m) }
    else if op < 0xb0 { fails_a0(op, m) }
    else if op < 0xc0 { fails_b0(op, m) }
    else if op < 0xd0 { fails_c0(op, m) }
    else if op < 0xe0 { fails_d0(op, m) }
    else if op < 0xf0 { fails_e0(op, m) }
    else { fails_f0(op, m) }
}

/// Whether the FD-prefixed instruction with second byte `op` stops on a fault.
pub open spec fn fd_fails(op: u8, m: Pc1500View) -> bool {
    if op < 0x20 { fails_fd_00(op, m) }
    else if op < 0x40 { fails_fd_20(op, m) }
    else if op < 0x60 { fails_fd_40(op, m) }
    else if op < 0x80 { fails_fd_60(op, m) }
    else if op < 0xa0 { fails_fd_80(op, m) }
    else if op < 0xc0 { fails_fd_a0(op, m) }
    else if op < 0xe0 { fails_fd_c0(op, m) }
    else { fails_fd_e0(op, m) }
}

/// Reading memory does not look at the CPU registers.
proof fn lemma_mem_read_cpu_free(x: Pc1500View, c: Lh5801, a: u32)
    ensures
        x.with_cpu(c).mem_read(a) == x.mem_read(a),
{
}

/// The word a pop would return depends on S and memory only.
proof fn lemma_peek_word_cpu_free(x: Pc1500View, c: Lh5801)
    requires
        c.s == x.cpu.s,
    ensures
        x.with_cpu(c).peek_word() == x.peek_word(),
{
    let s1 = inc16(c.s);
    let s2 = inc16(s1);
    lemma_mem_read_cpu_free(x, c, stack_addr(s1));
    lemma_mem_read_cpu_free(x, c, stack_addr(s2));
}

/// A call through SJP followed, at the called address, by RTN returns to the
/// instruction after the SJP with the stack pointer where it was, as long as
/// the two stack bytes are in RAM.
pub proof fn lemma_call_then_return(m: Pc1500View)
    requires
        m.wf(),
        stack_in_ram(m.cpu.s),
        stack_in_ram(dec16(m.cpu.s)),
    ensures
        ({
            let called = op_be(m);
            let back = op_9a(called.skip_s(1));
            &&& back.cpu.p == inc16(inc16(m.cpu.p))
            &&& back.cpu.s == m.cpu.s
        }),
{
    reveal(op_be);
    reveal(op_9a);
    let m1 = m.with_cpu(Lh5801 { p: inc16(inc16(m.cpu.p)), ..m.cpu });
    assert(m1.wf());
    let w = m1.push_word_spec(m1.cpu.p);
    lemma_push_pop_word(m1, m1.cpu.p);
    let called = op_be(m);
    assert(called.cpu.s == w.cpu.s);
    let z = called.skip_s(1);
    assert(z == w.with_cpu(z.cpu));
    lemma_peek_word_cpu_free(w, z.cpu);
    assert(z.peek_word() == inc16(inc16(m.cpu.p)));
    let s0 = m.cpu.s;
    assert(inc16(inc16(dec16(dec16(s0)))) == s0);
}

} // verus!
