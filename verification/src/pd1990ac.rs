// uPD1990AC real-time clock: BCD time registers behind a serial shift port,
// plus the TP square wave used by the tape interface.
use vstd::prelude::*;
use chrono::{Datelike, Timelike};
use crate::timebase::{catch_up, lemma_catch_up, periods, lemma_periods};

verus! {

pub const FREQUENCY: usize = 1300000;

/// A wall-clock reading in plain numbers (UTC).
#[derive(Clone, Copy, PartialEq, Eq, Structural, Debug)]
pub struct ClockReading {
    pub second: u32,
    pub minute: u32,
    pub hour: u32,
    pub day: u32,
    pub weekday: u32,
    pub month: u32,
}

impl ClockReading {
    /// Every field lies in the range a calendar clock produces.
    pub open spec fn valid(&self) -> bool {
        &&& self.second < 60
        &&& self.minute < 60
        &&& self.hour < 24
        &&& 1 <= self.day <= 31
        &&& self.weekday < 7
        &&& 1 <= self.month <= 12
    }
}

/// Reads the current UTC time through `std::time::SystemTime::now()` converted
/// to a `chrono::DateTime<chrono::Utc>`.  What is claimed is only what chrono
/// documents of its accessors: `second`/`minute` are 0..=59, `hour` 0..=23,
/// `day` 1..=31, `weekday().num_days_from_sunday()` 0..=6 and `month` 1..=12.
/// Which instant is read is not stated: it depends on the clock of the machine.
#[verifier::external_body]
fn read_utc_clock() -> (r: ClockReading)
    ensures
        r.valid(),
{
    let now = std::time::SystemTime::now();
    let datetime: chrono::DateTime<chrono::Utc> = now.into();
    ClockReading {
        second: datetime.second(),
        minute: datetime.minute(),
        hour: datetime.hour(),
        day: datetime.day(),
        weekday: datetime.weekday().num_days_from_sunday(),
        month: datetime.month(),
    }
}

/// Packed BCD of a number: hundreds in the high byte (binary), tens and
/// ones in the two low nibbles.
pub open spec fn bcd_spec(d: u32) -> u16 {
    ((d / 100) * 256 + ((d % 100) / 10) * 16 + d % 10) as u16
}

/// Converts a number below 10000 to packed BCD.
pub fn hex2bcd(d: u32) -> (r: u16)
    requires
        d < 10000,
    ensures
        r == bcd_spec(d),
{
    let a = d / 100;
    let b = d - (a * 100);
    let c = b / 10;
    let au: u16 = a as u16;
    let cu: u16 = c as u16;
    proof {
        assert(au < 100 ==> (au << 8u16) == au * 256) by (bit_vector);
        assert(cu < 10 ==> (cu << 4u16) == cu * 16) by (bit_vector);
    }
    (au << 8u16) + (cu << 4u16) + (b as u16) - (cu * 10)
}

/// Two-digit BCD keeps the tens digit in the high nibble and the ones digit in
/// the low nibble.
pub proof fn lemma_bcd_digits(d: u32)
    requires
        d < 100,
    ensures
        bcd_spec(d) >> 4u16 == d / 10,
        bcd_spec(d) & 0x0Fu16 == d % 10,
{
    let t: u16 = (d / 10) as u16;
    let o: u16 = (d % 10) as u16;
    assert(bcd_spec(d) == t * 16 + o);
    assert(t < 10 && o < 10 ==> ((t * 16 + o) as u16) >> 4u16 == t && ((t * 16 + o) as u16) & 0x0Fu16 == o) by (bit_vector);
}

pub open spec fn read_bit_spec(value: u16, position: u8) -> bool {
    ((value >> position) & 0x01) != 0
}

pub open spec fn put_bit_spec(value: u16, position: u8, bit: bool) -> u16 {
    if bit { value | (1u16 << position) } else { value & !(1u16 << position) }
}

/// Bit `position` of `value`.
pub fn read_bit(value: u16, position: u8) -> (r: bool)
    requires
        position < 16,
    ensures
        r == read_bit_spec(value, position),
{
    ((value >> position) & 0x01) != 0
}

fn set_bit(value: &mut u16, position: u8)
    requires
        position < 16,
    ensures
        *final(value) == *old(value) | (1u16 << position),
{
    *value = *value | (1u16 << position);
}

fn unset_bit(value: &mut u16, position: u8)
    requires
        position < 16,
    ensures
        *final(value) == *old(value) & !(1u16 << position),
{
    *value = *value & !(1u16 << position);
}

/// Forces bit `position` of `value` to `bit`.
pub fn put_bit(value: &mut u16, position: u8, bit: bool)
    requires
        position < 16,
    ensures
        *final(value) == put_bit_spec(*old(value), position, bit),
{
    if bit {
        set_bit(value, position);
    } else {
        unset_bit(value, position);
    }
}

/// A bit put in place reads back, and the other bits are untouched.
pub proof fn lemma_put_read_bit(value: u16, p: u8, q: u8, bit: bool)
    requires
        p < 16,
        q < 16,
    ensures
        read_bit_spec(put_bit_spec(value, p, bit), p) == bit,
        p != q ==> read_bit_spec(put_bit_spec(value, p, bit), q) == read_bit_spec(value, q),
{
    if bit {
        assert(p < 16 && q < 16 ==> (((value | (1u16 << p)) >> p) & 0x01 != 0)
            && (p != q ==> ((((value | (1u16 << p)) >> q) & 0x01) != 0) == (((value >> q) & 0x01) != 0))) by (bit_vector);
    } else {
        assert(p < 16 && q < 16 ==> (((value & !(1u16 << p)) >> p) & 0x01 == 0)
            && (p != q ==> ((((value & !(1u16 << p)) >> q) & 0x01) != 0) == (((value >> q) & 0x01) != 0))) by (bit_vector);
    }
}

pub struct Pd1990ac {
    pub seconds: u16,
    pub minutes: u16,
    pub hours: u16,
    pub days: u16,
    pub weekday: u16,
    pub month: u16,
    // Signals
    pub c0: bool,
    pub c1: bool,
    pub c2: bool,
    pub stb: bool,
    pub cs: bool,
    pub data_in: bool,
    pub gnd: bool,
    pub clk: bool,
    pub data_out: bool,
    pub tp: bool,
    pub out_enable: bool,
    pub n_xtal: bool,
    pub xtal: bool,
    pub vdd: bool,
    // Internal
    pub mode: u8,
    pub bitno: u8,
    pub current_bit: u8,
    pub new_mode: bool,
    pub new_clk: bool,
    pub prev_mode: u8,
    pub prev_clk: bool,
    pub flip_clk: bool,
    pub tp_frequency: usize,
    pub previous_state: usize,
    pub previous_state_tp: usize,
}

impl Pd1990ac {
    /// Bookkeeping of the chip's two clocks agrees with machine time `ts`.
    pub open spec fn wf(&self, ts: usize) -> bool {
        &&& self.previous_state <= ts
        &&& self.previous_state_tp <= ts
        &&& (self.tp_frequency == 1 || self.tp_frequency == 64)
    }

    /// The chip as `from_clock` builds it from a clock reading.
    pub open spec fn from_clock_spec(c: ClockReading) -> Pd1990ac {
        Pd1990ac {
            seconds: bcd_spec(c.second),
            minutes: bcd_spec(c.minute),
            hours: bcd_spec(c.hour),
            days: bcd_spec(c.day),
            weekday: bcd_spec(c.weekday),
            month: c.month as u16,
            c0: false, c1: false, c2: false, stb: false, cs: false, data_in: false, gnd: false,
            clk: false, data_out: false, tp: false, out_enable: false, n_xtal: false, xtal: false,
            vdd: false, mode: 0, bitno: 0, current_bit: 0, new_mode: false, new_clk: false,
            prev_mode: 0x10, prev_clk: false, flip_clk: false, tp_frequency: 1,
            previous_state: 0, previous_state_tp: 0,
        }
    }

    /// A chip loaded with the given time, all pins low, in register-hold mode.
    pub fn from_clock(c: ClockReading) -> (r: Self)
        requires
            c.valid(),
        ensures
            r == Self::from_clock_spec(c),
            r.wf(0),
    {
        Self {
            seconds: hex2bcd(c.second),
            minutes: hex2bcd(c.minute),
            hours: hex2bcd(c.hour),
            days: hex2bcd(c.day),
            weekday: hex2bcd(c.weekday),
            month: c.month as u16,
            c0: false,
            c1: false,
            c2: false,
            stb: false,
            cs: false,
            data_in: false,
            gnd: false,
            clk: false,
            data_out: false,
            tp: false,
            out_enable: false,
            n_xtal: false,
            xtal: false,
            vdd: false,
            mode: 0,
            bitno: 0,
            current_bit: 0,
            new_mode: false,
            new_clk: false,
            prev_mode: 0x10,
            prev_clk: false,
            flip_clk: false,
            tp_frequency: 1,
            previous_state: 0,
            previous_state_tp: 0,
        }
    }

    /// A chip loaded with the current UTC time.
    pub fn new() -> (r: Self)
        ensures
            exists|c: ClockReading| c.valid() && r == Self::from_clock_spec(c),
            r.wf(0),
    {
        let c = read_utc_clock();
        Self::from_clock(c)
    }

    /// Stage 1 of a step: the 1 Hz reference catches up with machine time.
    pub open spec fn step_clock(self, ts: usize) -> Pd1990ac {
        let start = if self.previous_state == 0 { ts } else { self.previous_state };
        Pd1990ac { previous_state: catch_up(start, ts, FREQUENCY), ..self }
    }

    /// Stage 2: with STB high the command pins C0..C2 select the mode.
    pub open spec fn step_strobe(self) -> Pd1990ac {
        let m: u8 = ((if self.c0 { 1u8 } else { 0u8 }) + (if self.c1 { 2u8 } else { 0u8 })
            + (if self.c2 { 4u8 } else { 0u8 })) as u8;
        if self.stb {
            Pd1990ac {
                mode: m,
                new_mode: m != self.prev_mode,
                prev_mode: m,
                ..self
            }
        } else {
            self
        }
    }

    /// Stage 3: edge detection on CLK, and the mode side effects (mode 4 sets
    /// the fast TP rate, mode 0 rewinds the shift register).
    pub open spec fn step_edge(self) -> Pd1990ac {
        let flip = self.clk != self.prev_clk;
        Pd1990ac {
            flip_clk: if self.mode == 0 { true } else { flip },
            prev_clk: self.clk,
            tp_frequency: if self.mode == 4 { 64 } else { self.tp_frequency },
            clk: if self.mode == 0 { true } else { self.clk },
            bitno: if self.mode == 0 { 0 } else { self.bitno },
            ..self
        }
    }

    /// DATA OUT after presenting the time bit at the shift position: bits
    /// 0-7 seconds, 8-15 minutes, 16-23 hours, 24-31 days, 32-35 weekday,
    /// 36-39 month; past bit 39 DATA OUT holds.
    pub open spec fn shifted_out(self) -> Pd1990ac {
        let n = self.bitno;
        Pd1990ac {
            data_out: if n < 0x08 { read_bit_spec(self.seconds, n) }
                else if n < 0x10 { read_bit_spec(self.minutes, (n - 0x08) as u8) }
                else if n < 0x18 { read_bit_spec(self.hours, (n - 0x10) as u8) }
                else if n < 0x20 { read_bit_spec(self.days, (n - 0x18) as u8) }
                else if n < 0x24 { read_bit_spec(self.weekday, (n - 0x20) as u8) }
                else if n < 0x28 { read_bit_spec(self.month, (n - 0x24) as u8) }
                else { self.data_out },
            ..self
        }
    }

    /// The time registers after storing DATA IN at the shift position (same
    /// layout as `shifted_out`).
    pub open spec fn shifted_in(self) -> Pd1990ac {
        let n = self.bitno;
        let d = self.data_in;
        if n < 0x08 { Pd1990ac { seconds: put_bit_spec(self.seconds, n, d), ..self } }
        else if n < 0x10 { Pd1990ac { minutes: put_bit_spec(self.minutes, (n - 0x08) as u8, d), ..self } }
        else if n < 0x18 { Pd1990ac { hours: put_bit_spec(self.hours, (n - 0x10) as u8, d), ..self } }
        else if n < 0x20 { Pd1990ac { days: put_bit_spec(self.days, (n - 0x18) as u8, d), ..self } }
        else if n < 0x24 { Pd1990ac { weekday: put_bit_spec(self.weekday, (n - 0x20) as u8, d), ..self } }
        else if n < 0x28 { Pd1990ac { month: put_bit_spec(self.month, (n - 0x24) as u8, d), ..self } }
        else { self }
    }

    /// Stage 4: on a rising CLK edge, modes 0/1 shift one time bit out on
    /// DATA OUT and mode 2 shifts DATA IN into the time registers; either way
    /// the shift position advances.
    pub open spec fn step_shift(self) -> Pd1990ac {
        let next = ((self.bitno as int + 1) % 256) as u8;
        if self.clk && self.flip_clk && (self.mode == 0 || self.mode == 1) {
            Pd1990ac { bitno: next, ..self.shifted_out() }
        } else if self.clk && self.flip_clk && self.mode == 2 {
            Pd1990ac { bitno: next, ..self.shifted_in() }
        } else {
            self
        }
    }

    pub open spec fn step_spec(self, ts: usize) -> Pd1990ac {
        self.step_clock(ts).step_strobe().step_edge().step_shift()
    }

    fn sync_clock(&mut self, timer_state: usize)
        requires
            old(self).previous_state <= timer_state,
        ensures
            *final(self) == old(self).step_clock(timer_state),
            final(self).previous_state <= timer_state,
    {
        let mut cur = if self.previous_state == 0 { timer_state } else { self.previous_state };
        let ghost start = cur;
        while (timer_state - cur) >= FREQUENCY
            invariant
                start <= cur <= timer_state,
                catch_up(cur, timer_state, FREQUENCY) == catch_up(start, timer_state, FREQUENCY),
            decreases timer_state - cur,
        {
            proof { lemma_catch_up(cur, timer_state, FREQUENCY); }
            cur = cur + FREQUENCY;
        }
        proof { lemma_catch_up(cur, timer_state, FREQUENCY); }
        *self = Pd1990ac { previous_state: cur, ..*self };
    }

    fn strobe(&mut self)
        ensures
            *final(self) == old(self).step_strobe(),
    {
        if self.stb {
            let m: u8 = (if self.c0 { 1u8 } else { 0u8 }) + (if self.c1 { 2u8 } else { 0u8 })
                + (if self.c2 { 4u8 } else { 0u8 });
            let changed = m != self.prev_mode;
            *self = Pd1990ac { mode: m, new_mode: changed, prev_mode: m, ..*self };
        }
    }

    fn detect_edge(&mut self)
        ensures
            *final(self) == old(self).step_edge(),
    {
        let flip = self.clk != self.prev_clk;
        let zero = self.mode == 0;
        let tpf = if self.mode == 4 { 64 } else { self.tp_frequency };
        *self = Pd1990ac {
            flip_clk: if zero { true } else { flip },
            prev_clk: self.clk,
            tp_frequency: tpf,
            clk: if zero { true } else { self.clk },
            bitno: if zero { 0 } else { self.bitno },
            ..*self
        };
    }

    /// Puts the current DATA OUT bit from the shift position.
    fn shift_out(&mut self)
        ensures
            *final(self) == old(self).shifted_out(),
    {
        let n = self.bitno;
        let d = if n <= 0x07 {
            read_bit(self.seconds, n)
        } else if n <= 0x0F {
            read_bit(self.minutes, n - 0x08)
        } else if n <= 0x17 {
            read_bit(self.hours, n - 0x10)
        } else if n <= 0x1F {
            read_bit(self.days, n - 0x18)
        } else if n <= 0x23 {
            read_bit(self.weekday, n - 0x20)
        } else if n <= 0x27 {
            read_bit(self.month, n - 0x24)
        } else {
            self.data_out
        };
        *self = Pd1990ac { data_out: d, ..*self };
    }

    /// Stores DATA IN at the shift position.
    fn shift_in(&mut self)
        ensures
            *final(self) == old(self).shifted_in(),
    {
        let n = self.bitno;
        let d = self.data_in;
        let mut v: u16 = 0;
        if n <= 0x07 {
            v = self.seconds;
            put_bit(&mut v, n, d);
            *self = Pd1990ac { seconds: v, ..*self };
        } else if n <= 0x0F {
            v = self.minutes;
            put_bit(&mut v, n - 0x08, d);
            *self = Pd1990ac { minutes: v, ..*self };
        } else if n <= 0x17 {
            v = self.hours;
            put_bit(&mut v, n - 0x10, d);
            *self = Pd1990ac { hours: v, ..*self };
        } else if n <= 0x1F {
            v = self.days;
            put_bit(&mut v, n - 0x18, d);
            *self = Pd1990ac { days: v, ..*self };
        } else if n <= 0x23 {
            v = self.weekday;
            put_bit(&mut v, n - 0x20, d);
            *self = Pd1990ac { weekday: v, ..*self };
        } else if n <= 0x27 {
            v = self.month;
            put_bit(&mut v, n - 0x24, d);
            *self = Pd1990ac { month: v, ..*self };
        }
    }

    #[verifier::rlimit(50)]
    fn shift(&mut self)
        ensures
            *final(self) == old(self).step_shift(),
    {
        if self.clk && self.flip_clk {
            if self.mode == 0x00 || self.mode == 0x01 {
                self.shift_out();
                let b = self.bitno.wrapping_add(1);
                *self = Pd1990ac { bitno: b, ..*self };
            } else if self.mode == 0x02 {
                self.shift_in();
                let b = self.bitno.wrapping_add(1);
                *self = Pd1990ac { bitno: b, ..*self };
            }
        }
    }

    /// Advances the chip to machine time `timer_state`; always reports success.
    #[verifier::rlimit(100)]
    pub fn step(&mut self, timer_state: usize) -> (r: bool)
        requires
            old(self).wf(timer_state),
        ensures
            r,
            *final(self) == old(self).step_spec(timer_state),
            final(self).wf(timer_state),
    {
        let ghost s0 = *self;
        self.sync_clock(timer_state);
        self.strobe();
        self.detect_edge();
        self.shift();
        true
    }

    pub fn get_data(&self) -> (r: bool)
        ensures
            r == self.data_out,
    {
        self.data_out
    }

    /// Half period of the TP square wave, in machine ticks.
    pub open spec fn tp_half_period(&self) -> usize {
        ((FREQUENCY / self.tp_frequency) / 2) as usize
    }

    /// TP after catching up with `ts`: it toggles once per elapsed half period.
    pub open spec fn tp_spec(self, ts: usize) -> Pd1990ac {
        let start = if self.previous_state_tp == 0 { ts } else { self.previous_state_tp };
        let h = self.tp_half_period();
        Pd1990ac {
            tp: if periods(start, ts, h) % 2 == 1 { !self.tp } else { self.tp },
            previous_state_tp: catch_up(start, ts, h),
            ..self
        }
    }

    /// The TP output at machine time `timer_state` (1 Hz, or 64 Hz once mode 4
    /// was selected).
    pub fn get_tp(&mut self, timer_state: usize) -> (r: bool)
        requires
            old(self).wf(timer_state),
        ensures
            *final(self) == old(self).tp_spec(timer_state),
            r == final(self).tp,
            final(self).wf(timer_state),
    {
        let tp_state = FREQUENCY / self.tp_frequency;
        let half = tp_state / 2;
        let start = if self.previous_state_tp == 0 { timer_state } else { self.previous_state_tp };
        let mut cur = start;
        let mut tp = self.tp;
        let ghost tp0 = tp;
        let ghost mut k: int = 0;
        while (timer_state - cur) >= half
            invariant
                start <= cur <= timer_state,
                half >= 1,
                k >= 0,
                cur == start + k * half,
                tp == (if k % 2 == 1 { !tp0 } else { tp0 }),
                catch_up(cur, timer_state, half) == catch_up(start, timer_state, half),
            decreases timer_state - cur,
        {
            proof { lemma_catch_up(cur, timer_state, half); }
            tp = !tp;
            cur = cur + half;
            proof {
                assert(cur == start + (k + 1) * half) by (nonlinear_arith)
                    requires cur == start + k * half + half;
                k = k + 1;
            }
        }
        proof {
            lemma_catch_up(cur, timer_state, half);
            lemma_periods(start, cur, timer_state, half, k);
        }
        *self = Pd1990ac { tp, previous_state_tp: cur, ..*self };
        tp
    }

    pub fn set_c0(&mut self, value: bool)
        ensures
            *final(self) == (Pd1990ac { c0: value, ..*old(self) }),
    {
        *self = Pd1990ac { c0: value, ..*self };
    }

    pub fn set_c1(&mut self, value: bool)
        ensures
            *final(self) == (Pd1990ac { c1: value, ..*old(self) }),
    {
        *self = Pd1990ac { c1: value, ..*self };
    }

    pub fn set_c2(&mut self, value: bool)
        ensures
            *final(self) == (Pd1990ac { c2: value, ..*old(self) }),
    {
        *self = Pd1990ac { c2: value, ..*self };
    }

    pub fn set_stb(&mut self, value: bool)
        ensures
            *final(self) == (Pd1990ac { stb: value, ..*old(self) }),
    {
        *self = Pd1990ac { stb: value, ..*self };
    }

    pub fn set_cs(&mut self, value: bool)
        ensures
            *final(self) == (Pd1990ac { cs: value, ..*old(self) }),
    {
        *self = Pd1990ac { cs: value, ..*self };
    }

    pub fn set_data(&mut self, value: bool)
        ensures
            *final(self) == (Pd1990ac { data_in: value, ..*old(self) }),
    {
        *self = Pd1990ac { data_in: value, ..*self };
    }

    pub fn set_gnd(&mut self, value: bool)
        ensures
            *final(self) == (Pd1990ac { gnd: value, ..*old(self) }),
    {
        *self = Pd1990ac { gnd: value, ..*self };
    }

    pub fn set_clk(&mut self, value: bool)
        ensures
            *final(self) == (Pd1990ac { clk: value, ..*old(self) }),
    {
        *self = Pd1990ac { clk: value, ..*self };
    }

    pub fn set_out_enable(&mut self, value: bool)
        ensures
            *final(self) == (Pd1990ac { out_enable: value, ..*old(self) }),
    {
        *self = Pd1990ac { out_enable: value, ..*self };
    }

    pub fn set_n_xtal(&mut self, value: bool)
        ensures
            *final(self) == (Pd1990ac { n_xtal: value, ..*old(self) }),
    {
        *self = Pd1990ac { n_xtal: value, ..*self };
    }

    pub fn set_xtal(&mut self, value: bool)
        ensures
            *final(self) == (Pd1990ac { xtal: value, ..*old(self) }),
    {
        *self = Pd1990ac { xtal: value, ..*self };
    }

    pub fn set_vdd(&mut self, value: bool)
        ensures
            *final(self) == (Pd1990ac { vdd: value, ..*old(self) }),
    {
        *self = Pd1990ac { vdd: value, ..*self };
    }
}

} // verus!
