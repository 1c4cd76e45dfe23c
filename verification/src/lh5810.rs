// LH5810 I/O controller: register file, serial shifter and interrupt line.
use vstd::prelude::*;
use crate::pd1990ac::FREQUENCY;
use crate::timebase::{catch_up, lemma_catch_up};

verus! {

/// Registers of the LH5810 as seen by the CPU.
#[derive(Clone, Copy, PartialEq, Eq, Structural, Debug)]
pub enum Reg {
    RESET,
    U,
    L,
    G,
    MSK,
    IF,
    DDA,
    DDB,
    OPA,
    OPB,
    OPC,
    F,
}

#[derive(Debug)]
pub struct Lh5810 {
    // Registers
    pub reset: u8,
    pub r_g: u8,
    pub r_u: u8,
    pub r_l: u8,
    pub r_msk: u8,
    pub r_if: u8,
    pub r_dda: u8,
    pub r_ddb: u8,
    pub r_opa: u8,
    pub r_opb: u8,
    pub r_opc: u8,
    pub r_f: u8,
    // Signals
    pub irq: bool,
    pub int: bool,
    pub fx: i32,
    pub fy: i32,
    pub sdo: bool,
    pub sdi: bool,
    pub cli: bool,
    pub clo: bool,
    pub new_l: bool,
    pub new_g: bool,
    pub new_f: bool,
    pub new_opc: bool,
    pub rol_reg: u16,
    pub bit_count: u8,
    pub bit: bool,
    pub modulation_send: bool,
    pub last_pulse_state: usize,
    pub clock_rate_state: usize,
    pub clock_rate: usize,
    pub clock_rate_wait: usize,
    pub clock_output: bool,
}

/// Clock divider selected by the three low bits of the G register.
pub open spec fn clock_rate_for(g: u8) -> usize {
    let sel = g & 0x07;
    if sel == 0 { 1 } else if sel == 1 { 2 } else if sel == 2 { 128 } else if sel == 3 { 256 }
    else if sel == 4 { 512 } else if sel == 5 { 1024 } else if sel == 6 { 2048 } else { 4096 }
}

/// A register value with one bit forced to `value`.
pub open spec fn upd_bit(r: u8, bit: u8, value: bool) -> u8 {
    if value { r | (1u8 << bit) } else { r & !(1u8 << bit) }
}

/// Half period of one serial modulation pulse for a frequency selector (0..=7).
#[verifier::opaque]
pub open spec fn wait_for(f: i32) -> usize {
    (0x40usize << (f as usize)) / 2
}

/// Computes `wait_for(f)`: 32 machine ticks doubled once per selector step.
fn pulse_wait(f: i32) -> (r: usize)
    requires
        0 <= f <= 7,
    ensures
        r == wait_for(f),
        r >= 32,
{
    let fu: usize = f as usize;
    proof {
        reveal(wait_for);
        assert(fu <= 7 ==> 0x40 <= (0x40usize << fu) <= 0x2000) by (bit_vector);
    }
    (0x40usize << fu) / 2
}

/// Steps a periodic clock forward by whole periods until it is less than one
/// period behind `ts`.
pub(crate) fn advance_clock(start: usize, ts: usize, w: usize) -> (r: usize)
    requires
        start <= ts,
        w >= 1,
    ensures
        r == catch_up(start, ts, w),
        r <= ts,
{
    let mut cur = start;
    while (ts - cur) >= w
        invariant
            start <= cur <= ts,
            w >= 1,
            catch_up(cur, ts, w) == catch_up(start, ts, w),
        decreases ts - cur,
    {
        proof { lemma_catch_up(cur, ts, w); }
        cur = cur + w;
    }
    proof { lemma_catch_up(cur, ts, w); }
    cur
}

impl Lh5810 {
    /// The time-dependent bookkeeping of the chip is consistent with the
    /// current machine time `timer_state`.
    pub open spec fn wf(&self, timer_state: usize) -> bool {
        &&& 0 <= self.fx <= 7
        &&& 0 <= self.fy <= 7
        &&& self.last_pulse_state <= timer_state
        &&& self.clock_rate_state <= timer_state
        &&& (self.clock_output ==> self.clock_rate >= 1)
    }

    /// Value read from a register.  Output ports only show the bits that
    /// are configured as outputs; MSK reports the live input pins in its
    /// upper nibble.
    pub open spec fn reg_spec(&self, reg: Reg) -> u8 {
        match reg {
            Reg::RESET => self.reset,
            Reg::U => self.r_u,
            Reg::L => self.r_l,
            Reg::G => self.r_g,
            Reg::MSK => self.r_msk | (if self.irq { 0x10u8 } else { 0 }) | (if self.pb7() { 0x20u8 } else { 0 })
                | (if self.sdi { 0x40u8 } else { 0 }) | (if self.cli { 0x80u8 } else { 0 }),
            Reg::IF => self.r_if,
            Reg::DDA => self.r_dda,
            Reg::DDB => self.r_ddb,
            Reg::OPA => self.r_opa & !self.r_dda,
            Reg::OPB => self.r_opb & !self.r_ddb,
            Reg::OPC => self.r_opc,
            Reg::F => self.r_f,
        }
    }

    pub open spec fn pb7(&self) -> bool {
        (self.r_opb & 0x80) != 0
    }

    /// Effect of a CPU write to a register.
    pub open spec fn set_reg_spec(self, reg: Reg, data: u8, timer_state: usize) -> Lh5810 {
        match reg {
            Reg::RESET => Lh5810 { clock_rate_state: timer_state, reset: data, ..self },
            Reg::U => Lh5810 { r_u: data, ..self },
            Reg::L => Lh5810 { new_l: true, r_l: data, ..self },
            Reg::G => Lh5810 { new_g: true, r_g: data, ..self },
            Reg::MSK => Lh5810 { r_msk: data & 0x0F, ..self },
            Reg::IF => Lh5810 { r_if: (self.r_if & 0xFC) | (data & 0x03), ..self },
            Reg::DDA => Lh5810 { r_dda: data, ..self },
            Reg::DDB => Lh5810 { r_ddb: data, ..self },
            Reg::OPA => Lh5810 { r_opa: (self.r_opa & !self.r_dda) | (data & self.r_dda), ..self },
            Reg::OPB => Lh5810 { r_opb: (self.r_opb & !self.r_ddb) | (data & self.r_ddb), ..self },
            Reg::OPC => Lh5810 { new_opc: true, r_opc: data, ..self },
            Reg::F => Lh5810 { new_f: true, r_f: data, ..self },
        }
    }

    /// Effect of forcing one bit of a register (RESET is not bit addressable;
    /// setting a bit of OPC also flags a new OPC value).
    pub open spec fn set_reg_bit_spec(self, reg: Reg, bit: u8, value: bool) -> Lh5810 {
        match reg {
            Reg::RESET => self,
            Reg::U => Lh5810 { r_u: upd_bit(self.r_u, bit, value), ..self },
            Reg::L => Lh5810 { r_l: upd_bit(self.r_l, bit, value), ..self },
            Reg::G => Lh5810 { r_g: upd_bit(self.r_g, bit, value), ..self },
            Reg::MSK => Lh5810 { r_msk: upd_bit(self.r_msk, bit, value), ..self },
            Reg::IF => Lh5810 { r_if: upd_bit(self.r_if, bit, value), ..self },
            Reg::DDA => Lh5810 { r_dda: upd_bit(self.r_dda, bit, value), ..self },
            Reg::DDB => Lh5810 { r_ddb: upd_bit(self.r_ddb, bit, value), ..self },
            Reg::OPA => Lh5810 { r_opa: upd_bit(self.r_opa, bit, value), ..self },
            Reg::OPB => Lh5810 { r_opb: upd_bit(self.r_opb, bit, value), ..self },
            Reg::OPC => Lh5810 { new_opc: value || self.new_opc, r_opc: upd_bit(self.r_opc, bit, value), ..self },
            Reg::F => Lh5810 { r_f: upd_bit(self.r_f, bit, value), ..self },
        }
    }

    /// Stage 1 of a step: latch a new F register (modulation frequencies).
    pub open spec fn step_f(self) -> Lh5810 {
        Lh5810 {
            fx: if self.new_f { (self.r_f & 0x07) as i32 } else { self.fx },
            fy: if self.new_f { ((self.r_f >> 3u8) & 0x07) as i32 } else { self.fy },
            new_f: false,
            modulation_send: if self.new_f { (self.r_f & 0x40) != 0 } else { self.modulation_send },
            bit: if self.new_f { false } else { self.bit },
            ..self
        }
    }

    /// Period (half pulse) of the serial modulation for the current bit.
    pub open spec fn modulation_wait(self) -> usize {
        if (self.rol_reg & 0x01) != 0 { wait_for(self.fx) } else { wait_for(self.fy) }
    }

    /// Stage 2: serial modulation output toggles once the pulse period elapsed
    /// and the pulse clock catches up with the machine time.
    pub open spec fn step_modulation(self, ts: usize) -> Lh5810 {
        let elapsed = self.modulation_send && ts - self.last_pulse_state >= self.modulation_wait();
        Lh5810 {
            bit: if self.modulation_send { (self.rol_reg & 0x01) != 0 } else { self.bit },
            sdo: if elapsed { !self.sdo } else { self.sdo },
            last_pulse_state: if elapsed { catch_up(self.last_pulse_state, ts, self.modulation_wait()) } else { self.last_pulse_state },
            ..self
        }
    }

    /// Stage 3a: a serial clock edge shifts the transmit register.
    pub open spec fn step_clock_edge(self, ts: usize) -> Lh5810 {
        let edge = self.clock_output && ts - self.clock_rate_state >= self.clock_rate;
        let bc = ((self.bit_count as int + 1) % 256) as u8;
        Lh5810 {
            clo: if edge { true } else { self.clo },
            bit_count: if edge { bc } else { self.bit_count },
            r_if: if edge && bc == 9 { self.r_if | 0x08 } else { self.r_if },
            rol_reg: if edge { (self.rol_reg >> 1u16) | 0x8000 } else { self.rol_reg },
            clock_rate_state: if edge { catch_up(self.clock_rate_state, ts, self.clock_rate) } else { self.clock_rate_state },
            ..self
        }
    }

    /// Stage 3b: the clock output pulse ends a tenth of a period after the edge.
    pub open spec fn step_clock_pulse(self, ts: usize) -> Lh5810 {
        Lh5810 {
            clo: if self.clock_output && self.clo && (ts - self.clock_rate_state) > self.clock_rate / 10 { false } else { self.clo },
            ..self
        }
    }

    /// Stage 4: latch a new G register (serial clock rate and output enable).
    pub open spec fn step_g(self) -> Lh5810 {
        Lh5810 {
            clock_rate: if self.new_g { clock_rate_for(self.r_g) } else { self.clock_rate },
            clock_rate_wait: if self.new_g { (FREQUENCY / clock_rate_for(self.r_g)) as usize } else { self.clock_rate_wait },
            clock_output: if self.new_g { (self.r_g & 0x10) != 0 } else { self.clock_output },
            new_g: false,
            ..self
        }
    }

    /// Stage 5: a new L register restarts the serial transmission.
    pub open spec fn step_l(self, ts: usize) -> Lh5810 {
        Lh5810 {
            r_if: if self.new_l { self.r_if & !0x08u8 } else { self.r_if },
            new_l: false,
            rol_reg: if self.new_l { ((0xff00u16 | self.r_l as u16) << 1u16) } else { self.rol_reg },
            bit_count: if self.new_l { 0 } else { self.bit_count },
            last_pulse_state: if self.new_l { ts } else { self.last_pulse_state },
            clock_rate_state: if self.new_l { ts } else { self.clock_rate_state },
            ..self
        }
    }

    /// Stage 6: interrupt flags and the interrupt line.
    pub open spec fn step_irq(self) -> Lh5810 {
        let if1 = if self.irq { self.r_if | 0x01 } else { self.r_if };
        let if2 = if self.pb7() { if1 | 0x02 } else { if1 };
        Lh5810 {
            r_if: if2,
            int: ((self.r_msk & 0x01) != 0 && self.irq) || ((self.r_msk & 0x02) != 0 && self.pb7()),
            ..self
        }
    }

    /// One step of the chip at machine time `ts`.
    pub open spec fn step_spec(self, ts: usize) -> Lh5810 {
        Lh5810 { int: false, ..self }.step_f().step_modulation(ts).step_clock_edge(ts).step_clock_pulse(ts).step_g().step_l(ts).step_irq()
    }

    pub fn int_signal(&self) -> (r: bool)
        ensures
            r == self.int,
    {
        self.int
    }

    pub fn new_opc(&self) -> (r: bool)
        ensures
            r == self.new_opc,
    {
        self.new_opc
    }

    pub fn set_new_opc(&mut self, new_opc: bool)
        ensures
            *final(self) == (Lh5810 { new_opc, ..*old(self) }),
    {
        self.new_opc = new_opc;
    }

    fn lh5810_pb7(&self) -> (r: bool)
        ensures
            r == self.pb7(),
    {
        (self.r_opb & 0x80) != 0
    }

    fn reset_divider(&mut self, timer_state: usize)
        ensures
            *final(self) == (Lh5810 { clock_rate_state: timer_state, ..*old(self) }),
    {
        self.clock_rate_state = timer_state;
    }

    pub fn get_reg(&self, reg: Reg) -> (r: u8)
        ensures
            r == self.reg_spec(reg),
    {
        match reg {
            Reg::RESET => self.reset,
            Reg::U => self.r_u,
            Reg::L => self.r_l,
            Reg::G => self.r_g,
            Reg::MSK => {
                let mut t = self.r_msk;
                t = t | (if self.irq { 0x10u8 } else { 0 });
                t = t | (if self.lh5810_pb7() { 0x20u8 } else { 0 });
                t = t | (if self.sdi { 0x40u8 } else { 0 });
                t = t | (if self.cli { 0x80u8 } else { 0 });
                t
            },
            Reg::IF => self.r_if,
            Reg::DDA => self.r_dda,
            Reg::DDB => self.r_ddb,
            Reg::OPA => self.r_opa & !self.r_dda,
            Reg::OPB => self.r_opb & !self.r_ddb,
            Reg::OPC => self.r_opc,
            Reg::F => self.r_f,
        }
    }

    pub fn set_reg(&mut self, reg: Reg, data: u8, timer_state: usize)
        ensures
            *final(self) == old(self).set_reg_spec(reg, data, timer_state),
    {
        match reg {
            Reg::RESET => {
                self.reset_divider(timer_state);
                *self = Lh5810 { reset: data, ..*self };
            },
            Reg::U => *self = Lh5810 { r_u: data, ..*self },
            Reg::L => *self = Lh5810 { new_l: true, r_l: data, ..*self },
            Reg::G => *self = Lh5810 { new_g: true, r_g: data, ..*self },
            Reg::MSK => *self = Lh5810 { r_msk: data & 0x0F, ..*self },
            Reg::IF => *self = Lh5810 { r_if: (self.r_if & 0xFC) | (data & 0x03), ..*self },
            Reg::DDA => *self = Lh5810 { r_dda: data, ..*self },
            Reg::DDB => *self = Lh5810 { r_ddb: data, ..*self },
            Reg::OPA => *self = Lh5810 { r_opa: (self.r_opa & !self.r_dda) | (data & self.r_dda), ..*self },
            Reg::OPB => *self = Lh5810 { r_opb: (self.r_opb & !self.r_ddb) | (data & self.r_ddb), ..*self },
            Reg::OPC => *self = Lh5810 { new_opc: true, r_opc: data, ..*self },
            Reg::F => *self = Lh5810 { new_f: true, r_f: data, ..*self },
        }
    }

    pub fn set_reg_bit(&mut self, reg: Reg, bit: u8, value: bool)
        requires
            bit < 8,
        ensures
            *final(self) == old(self).set_reg_bit_spec(reg, bit, value),
    {
        let m: u8 = 1u8 << bit;
        match reg {
            Reg::U => *self = Lh5810 { r_u: if value { self.r_u | m } else { self.r_u & !m }, ..*self },
            Reg::L => *self = Lh5810 { r_l: if value { self.r_l | m } else { self.r_l & !m }, ..*self },
            Reg::G => *self = Lh5810 { r_g: if value { self.r_g | m } else { self.r_g & !m }, ..*self },
            Reg::MSK => *self = Lh5810 { r_msk: if value { self.r_msk | m } else { self.r_msk & !m }, ..*self },
            Reg::IF => *self = Lh5810 { r_if: if value { self.r_if | m } else { self.r_if & !m }, ..*self },
            Reg::DDA => *self = Lh5810 { r_dda: if value { self.r_dda | m } else { self.r_dda & !m }, ..*self },
            Reg::DDB => *self = Lh5810 { r_ddb: if value { self.r_ddb | m } else { self.r_ddb & !m }, ..*self },
            Reg::OPA => *self = Lh5810 { r_opa: if value { self.r_opa | m } else { self.r_opa & !m }, ..*self },
            Reg::OPB => *self = Lh5810 { r_opb: if value { self.r_opb | m } else { self.r_opb & !m }, ..*self },
            Reg::OPC => *self = Lh5810 {
                new_opc: value || self.new_opc,
                r_opc: if value { self.r_opc | m } else { self.r_opc & !m },
                ..*self
            },
            Reg::F => *self = Lh5810 { r_f: if value { self.r_f | m } else { self.r_f & !m }, ..*self },
            Reg::RESET => {},
        }
    }

    pub fn new() -> (r: Self)
        ensures
            r == Self::initial(),
    {
        Self {
            reset: 0,
            r_g: 0,
            r_u: 0,
            r_l: 0,
            r_msk: 0,
            r_if: 0,
            r_dda: 0,
            r_ddb: 0,
            r_opa: 0,
            r_opb: 0,
            r_opc: 0,
            r_f: 0,
            irq: false,
            int: false,
            fx: 0,
            fy: 0,
            sdo: false,
            sdi: false,
            cli: false,
            clo: false,
            new_l: false,
            new_g: true,
            new_f: true,
            new_opc: false,
            rol_reg: 0xffff,
            bit_count: 0,
            bit: false,
            modulation_send: false,
            last_pulse_state: 0,
            clock_rate_state: 0,
            clock_rate: 0,
            clock_rate_wait: 0,
            clock_output: false,
        }
    }

    /// Power-on state: every register and signal cleared, G and F pending,
    /// transmit register idle high.
    pub open spec fn initial() -> Lh5810 {
        Lh5810 {
            reset: 0, r_g: 0, r_u: 0, r_l: 0, r_msk: 0, r_if: 0, r_dda: 0, r_ddb: 0,
            r_opa: 0, r_opb: 0, r_opc: 0, r_f: 0, irq: false, int: false, fx: 0, fy: 0,
            sdo: false, sdi: false, cli: false, clo: false, new_l: false, new_g: true,
            new_f: true, new_opc: false, rol_reg: 0xffff, bit_count: 0, bit: false,
            modulation_send: false, last_pulse_state: 0, clock_rate_state: 0, clock_rate: 0,
            clock_rate_wait: 0, clock_output: false,
        }
    }

    pub fn start_serial_transmit(&mut self, timer_state: usize)
        ensures
            *final(self) == (Lh5810 {
                rol_reg: ((0xff00u16 | old(self).r_l as u16) << 1u16),
                bit_count: 0,
                last_pulse_state: timer_state,
                clock_rate_state: timer_state,
                ..*old(self)
            }),
    {
        self.rol_reg = (0xff00u16 | self.r_l as u16) << 1u16;
        self.bit_count = 0;
        self.last_pulse_state = timer_state;
        self.clock_rate_state = timer_state;
    }

    fn latch_f(&mut self)
        ensures
            *final(self) == old(self).step_f(),
            0 <= final(self).fx <= 7 || final(self).fx == old(self).fx,
            0 <= final(self).fy <= 7 || final(self).fy == old(self).fy,
    {
        if self.new_f {
            let rf = self.r_f;
            proof {
                assert((rf & 0x07) <= 7) by (bit_vector);
                assert(((rf >> 3u8) & 0x07) <= 7) by (bit_vector);
            }
            *self = Lh5810 {
                fx: (rf & 0x07) as i32,
                fy: ((rf >> 3u8) & 0x07) as i32,
                new_f: false,
                modulation_send: (rf & 0x40) != 0,
                bit: false,
                ..*self
            };
        } else {
            *self = Lh5810 { new_f: false, ..*self };
        }
    }

    fn modulate(&mut self, timer_state: usize)
        requires
            0 <= old(self).fx <= 7,
            0 <= old(self).fy <= 7,
            old(self).last_pulse_state <= timer_state,
        ensures
            *final(self) == old(self).step_modulation(timer_state),
            final(self).last_pulse_state <= timer_state,
    {
        if self.modulation_send {
            let bit = (self.rol_reg & 0x01) != 0;
            let wait_state = if bit { pulse_wait(self.fx) } else { pulse_wait(self.fy) };
            assert(wait_state == old(self).modulation_wait());
            if (timer_state - self.last_pulse_state) >= wait_state {
                let last = advance_clock(self.last_pulse_state, timer_state, wait_state);
                *self = Lh5810 { bit, sdo: !self.sdo, last_pulse_state: last, ..*self };
            } else {
                *self = Lh5810 { bit, ..*self };
            }
        }
    }

    /// Serial clock output: an edge once a clock period has elapsed, and the
    /// end of the output pulse a tenth of a period later.
    fn clock_out(&mut self, timer_state: usize)
        requires
            old(self).clock_rate_state <= timer_state,
            old(self).clock_output ==> old(self).clock_rate >= 1,
        ensures
            *final(self) == old(self).step_clock_edge(timer_state).step_clock_pulse(timer_state),
            final(self).clock_rate_state <= timer_state,
    {
        self.clock_edge(timer_state);
        self.clock_pulse_end(timer_state);
    }

    fn clock_edge(&mut self, timer_state: usize)
        requires
            old(self).clock_rate_state <= timer_state,
            old(self).clock_output ==> old(self).clock_rate >= 1,
        ensures
            *final(self) == old(self).step_clock_edge(timer_state),
            final(self).clock_rate_state <= timer_state,
    {
        if self.clock_output && (timer_state - self.clock_rate_state) >= self.clock_rate {
            let crs = advance_clock(self.clock_rate_state, timer_state, self.clock_rate);
            let bc = self.bit_count.wrapping_add(1);
            let rif = if bc == 9 { self.r_if | 0x08 } else { self.r_if };
            let rol = (self.rol_reg >> 1u16) | 0x8000;
            *self = Lh5810 { clo: true, bit_count: bc, r_if: rif, rol_reg: rol, clock_rate_state: crs, ..*self };
        }
    }

    fn clock_pulse_end(&mut self, timer_state: usize)
        requires
            old(self).clock_rate_state <= timer_state,
        ensures
            *final(self) == old(self).step_clock_pulse(timer_state),
            final(self).clock_rate_state <= timer_state,
    {
        if self.clock_output && self.clo && (timer_state - self.clock_rate_state) > (self.clock_rate / 10) {
            *self = Lh5810 { clo: false, ..*self };
        }
    }

    fn latch_g(&mut self)
        requires
            old(self).clock_output ==> old(self).clock_rate >= 1,
        ensures
            *final(self) == old(self).step_g(),
            final(self).clock_output ==> final(self).clock_rate >= 1,
            !old(self).new_g ==> final(self).clock_output == old(self).clock_output && final(self).clock_rate == old(self).clock_rate,
    {
        if self.new_g {
            let sel = self.r_g & 0x07;
            let rate: usize = if sel == 0 { 1 } else if sel == 1 { 2 } else if sel == 2 { 128 }
                else if sel == 3 { 256 } else if sel == 4 { 512 } else if sel == 5 { 1024 }
                else if sel == 6 { 2048 } else { 4096 };
            *self = Lh5810 {
                clock_rate: rate,
                clock_rate_wait: FREQUENCY / rate,
                clock_output: (self.r_g & 0x10) != 0,
                new_g: false,
                ..*self
            };
        } else {
            *self = Lh5810 { new_g: false, ..*self };
        }
    }

    fn latch_l(&mut self, timer_state: usize)
        ensures
            *final(self) == old(self).step_l(timer_state),
    {
        if self.new_l {
            self.set_reg_bit(Reg::IF, 3, false);
            proof { assert(!(1u8 << 3u8) == !0x08u8) by (bit_vector); }
            self.new_l = false;
            self.start_serial_transmit(timer_state);
        } else {
            self.new_l = false;
        }
    }

    fn update_interrupt(&mut self)
        requires
            !old(self).int,
        ensures
            *final(self) == old(self).step_irq(),
    {
        let pb7 = self.lh5810_pb7();
        let if1 = if self.irq { self.r_if | 0x01 } else { self.r_if };
        let if2 = if pb7 { if1 | 0x02 } else { if1 };
        let raise = ((self.r_msk & 0x01 != 0) && self.irq) || ((self.r_msk & 0x02 != 0) && pb7);
        *self = Lh5810 { r_if: if2, int: raise, ..*self };
    }

    pub fn step(&mut self, timer_state: usize)
        requires
            old(self).wf(timer_state),
        ensures
            *final(self) == old(self).step_spec(timer_state),
            final(self).wf(timer_state),
    {
        *self = Lh5810 { int: false, ..*self };
        self.latch_f();
        let ghost s1 = *self;
        self.modulate(timer_state);
        assert(*self == s1.step_modulation(timer_state));
        self.clock_out(timer_state);
        self.latch_g();
        self.latch_l(timer_state);
        self.update_interrupt();
    }
}

/// A plain register written by the CPU reads back as written, and a write
/// leaves every other register's reading alone (MSK reads the live pins in
/// its upper nibble, OPA/OPB read only their input bits).
pub proof fn lemma_register_read_back(s: Lh5810, reg: Reg, other: Reg, data: u8, ts: usize)
    requires
        reg == Reg::RESET || reg == Reg::U || reg == Reg::L || reg == Reg::G || reg == Reg::DDA
            || reg == Reg::DDB || reg == Reg::OPC || reg == Reg::F,
        other != reg,
        other != Reg::OPA,
        other != Reg::OPB,
    ensures
        s.set_reg_spec(reg, data, ts).reg_spec(reg) == data,
        s.set_reg_spec(reg, data, ts).reg_spec(other) == s.reg_spec(other),
{
}

} // verus!
