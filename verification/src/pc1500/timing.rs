// A stand-alone model of the 9-bit LH5801 timer, clocked from CPU cycles.
use vstd::prelude::*;

verus! {

pub const CYCLES_PER_FRAME: u32 = 128000;
pub const TIMER_FREQUENCY_HZ: u32 = 31250;
pub const CPU_FREQUENCY_HZ: u32 = 4000000;
/// CPU cycles per timer increment.
pub const TIMER_CYCLES_PER_INCREMENT: u32 = 128;

#[derive(Debug)]
pub struct Timer {
    pub counter: u16,
    pub cycle_accumulator: u32,
    pub enabled: bool,
}

/// Whether a 9-bit counter starting at `c` reaches 0x1FF within `n` counts.
pub open spec fn reaches_top(c: int, n: int) -> bool {
    (c + n + 1) / 512 > (c + 1) / 512
}

/// One more count reaches 0x1FF exactly when the counter was at 0x1FE.
proof fn lemma_next_count(x: int)
    requires
        x >= 0,
    ensures
        (x + 2) / 512 == (x + 1) / 512 + (if (x + 1) % 512 == 511 { 1int } else { 0 }),
        (x + 1) % 512 == (x % 512 + 1) % 512,
{
    let y = x + 1;
    assert(y == 512 * (y / 512) + y % 512) by (nonlinear_arith) requires y >= 0;
    assert(y + 1 == 512 * ((y + 1) / 512) + (y + 1) % 512) by (nonlinear_arith) requires y >= 0;
    assert(x == 512 * (x / 512) + x % 512) by (nonlinear_arith) requires x >= 0;
}

impl Timer {
    /// The counter holds 9 bits and the accumulator less than one increment.
    pub open spec fn wf(&self) -> bool {
        &&& self.counter <= 0x1FF
        &&& self.cycle_accumulator < TIMER_CYCLES_PER_INCREMENT
    }

    pub fn new() -> (r: Self)
        ensures
            r.wf(),
            r.counter == 0,
            r.cycle_accumulator == 0,
            !r.enabled,
    {
        Self { counter: 0, cycle_accumulator: 0, enabled: false }
    }

    /// AM0: load the counter with TM8 clear, and start it.
    pub fn set_am0(&mut self, value: u8)
        ensures
            *final(self) == (Timer { counter: value as u16, enabled: true, ..*old(self) }),
    {
        *self = Timer { counter: value as u16, enabled: true, ..*self };
    }

    /// AM1: load the counter with TM8 set, and start it.
    pub fn set_am1(&mut self, value: u8)
        ensures
            *final(self) == (Timer { counter: (value as u16) | 0x100, enabled: true, ..*old(self) }),
    {
        *self = Timer { counter: (value as u16) | 0x100, enabled: true, ..*self };
    }

    pub fn counter(&self) -> (r: u16)
        ensures
            r == self.counter,
    {
        self.counter
    }

    pub fn disable(&mut self)
        ensures
            final(self).wf(),
            *final(self) == (Timer { counter: 0, cycle_accumulator: 0, enabled: false }),
    {
        *self = Timer { counter: 0, cycle_accumulator: 0, enabled: false };
    }

    /// Accounts `cycles` CPU cycles: every 128 cycles the counter counts up,
    /// wrapping from 0x1FF to 0. Returns whether it reached 0x1FF on the way
    /// (the moment the timer interrupt is requested).
    pub fn run_cycles(&mut self, cycles: u32) -> (r: bool)
        requires
            old(self).wf(),
            old(self).cycle_accumulator + cycles <= u32::MAX,
        ensures
            final(self).wf(),
            !old(self).enabled ==> !r && *final(self) == *old(self),
            old(self).enabled ==> ({
                let total = old(self).cycle_accumulator + cycles;
                let n = total / (TIMER_CYCLES_PER_INCREMENT as int);
                &&& final(self).cycle_accumulator == total % (TIMER_CYCLES_PER_INCREMENT as int)
                &&& final(self).counter == (old(self).counter + n) % 0x200
                &&& r == (reaches_top(old(self).counter as int, n))
                &&& final(self).enabled
            }),
    {
        if !self.enabled {
            return false;
        }
        let mut acc = self.cycle_accumulator + cycles;
        let mut counter = self.counter;
        let mut interrupt_requested = false;
        let ghost total = acc as int;
        let ghost c0 = counter as int;
        let ghost mut k: int = 0;
        while acc >= TIMER_CYCLES_PER_INCREMENT
            invariant
                counter <= 0x1FF,
                0 <= k,
                acc == total - k * 128,
                0 <= acc,
                counter == (c0 + k) % 0x200,
                interrupt_requested == reaches_top(c0, k),
                0 <= c0 <= 0x1FF,
            decreases acc,
        {
            acc = acc - TIMER_CYCLES_PER_INCREMENT;
            proof { lemma_next_count(c0 + k); }
            counter = counter + 1;
            if counter == 0x1FF {
                interrupt_requested = true;
            }
            if counter > 0x1FF {
                counter = 0;
            }
            proof {
                assert(acc == total - (k + 1) * 128) by (nonlinear_arith)
                    requires acc == total - k * 128 - 128;
                k = k + 1;
            }
        }
        proof {
            vstd::arithmetic::div_mod::lemma_fundamental_div_mod_converse(total, 128, k, acc as int);
        }
        *self = Timer { counter, cycle_accumulator: acc, enabled: true };
        interrupt_requested
    }

    pub fn is_enabled(&self) -> (r: bool)
        ensures
            r == self.enabled,
    {
        self.enabled
    }
}

pub struct Pc1500System {
    pub timer: Timer,
}

impl Pc1500System {
    pub fn new() -> (r: Self)
        ensures
            r.timer.wf(),
            r.timer.counter == 0,
            !r.timer.enabled,
    {
        Self { timer: Timer::new() }
    }

    pub fn run_cycles(&mut self, cycles: u32) -> (r: bool)
        requires
            old(self).timer.wf(),
            old(self).timer.cycle_accumulator + cycles <= u32::MAX,
        ensures
            final(self).timer.wf(),
            !old(self).timer.enabled ==> !r && final(self).timer == old(self).timer,
            old(self).timer.enabled ==> ({
                let total = old(self).timer.cycle_accumulator + cycles;
                let n = total / (TIMER_CYCLES_PER_INCREMENT as int);
                &&& final(self).timer.cycle_accumulator == total % (TIMER_CYCLES_PER_INCREMENT as int)
                &&& final(self).timer.counter == (old(self).timer.counter + n) % 0x200
                &&& r == reaches_top(old(self).timer.counter as int, n)
            }),
    {
        self.timer.run_cycles(cycles)
    }

    pub fn cpu_am0_instruction(&mut self, accumulator: u8)
        ensures
            final(self).timer == (Timer { counter: accumulator as u16, enabled: true, ..old(self).timer }),
    {
        self.timer.set_am0(accumulator);
    }

    pub fn cpu_am1_instruction(&mut self, accumulator: u8)
        ensures
            final(self).timer == (Timer { counter: (accumulator as u16) | 0x100, enabled: true, ..old(self).timer }),
    {
        self.timer.set_am1(accumulator);
    }

    pub fn timer_counter(&self) -> (r: u16)
        ensures
            r == self.timer.counter,
    {
        self.timer.counter()
    }

    pub fn timer_enabled(&self) -> (r: bool)
        ensures
            r == self.timer.enabled,
    {
        self.timer.is_enabled()
    }

    pub fn disable_timer(&mut self)
        ensures
            final(self).timer == (Timer { counter: 0, cycle_accumulator: 0, enabled: false }),
    {
        self.timer.disable();
    }
}

/// A loaded timer always holds a 9-bit value.
pub proof fn lemma_am_loads_nine_bits(value: u8)
    ensures
        (value as u16) <= 0x1FF,
        ((value as u16) | 0x100) <= 0x1FF,
        ((value as u16) | 0x100) & 0x100 != 0,
{
    assert(((value as u16) | 0x100) <= 0x1FF && ((value as u16) | 0x100) & 0x100 != 0) by (bit_vector);
}

} // verus!
