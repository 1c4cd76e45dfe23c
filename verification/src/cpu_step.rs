// The LH5801 step: reset, interrupts, halt, timer.
use vstd::prelude::*;
use crate::{Pc1500, Pc1500View};
use crate::lh5801::{dec16, hi_byte, lemma_byte_halves, lo_byte, stack_addr, stack_in_ram, CF, CpuFault, IE, lemma_with_flag, Lh5801, debug_count_after, debug_trips, inc16, steady, timer_next, with_flag};

verus! {
use crate::isa::{fd_opcode, is_illegal, is_illegal_fd, main_opcode};
use crate::effects::{main_effect, fd_effect, main_fails, fd_fails};

impl Pc1500View {
    /// A timer wrap-around becomes a pending IR1 request.
    pub open spec fn latch_timer(self) -> Pc1500View {
        if self.cpu.is_timer_reached {
            self.with_cpu(Lh5801 { ir1: true, is_timer_reached: false, ..self.cpu })
        } else {
            self
        }
    }

    /// Every 42 machine cycles the 9-bit timer shifts once.
    pub open spec fn timer_tick_spec(self) -> Pc1500View {
        let cur = self.cpu.timer_state;
        if cur - self.cpu.step_previous_state >= 42 {
            self.with_cpu(Lh5801 {
                tm: timer_next(self.cpu.tm),
                is_timer_reached: timer_next(self.cpu.tm) == 0x1FF,
                step_previous_state: cur,
                ..self.cpu
            })
        } else {
            self
        }
    }

    /// The CPU registers after a reset that jumped to `target`.
    pub open spec fn after_reset(self, target: u16) -> Pc1500View {
        self.with_cpu(Lh5801 {
            p: target,
            debug_messages: debug_count_after(self.cpu.debug_messages, target),
            a: 0,
            t: 0,
            x: 0,
            y: 0,
            u: 0,
            s: 0x1000,
            is_halted: false,
            ir0: false,
            ir1: false,
            ir2: false,
            timer_state: 0,
            bf: true,
            tm: 0,
            pu: false,
            pv: false,
            reset_flag: false,
            ..self.cpu
        })
    }
}

/// The machine a CPU step starts from: after a pending reset (P from the
/// reset vector at 0xFFFE) and with a timer wrap latched as IR1.
pub open spec fn step_base(m: Pc1500View) -> Pc1500View {
    if m.cpu.reset_flag { m.after_reset(m.word_at(0xFFFE)).latch_timer() } else { m.latch_timer() }
}

/// Whether one CPU step from `m` stops on a fault: the reset jump or the
/// interrupt entry trips the debug trap, or the instruction is illegal or
/// faults.
pub open spec fn step_fails(m: Pc1500View) -> bool {
    let m0 = step_base(m);
    let c = m0.cpu;
    if m.cpu.reset_flag && debug_trips(m.cpu.debug_messages, m.word_at(0xFFFE)) {
        true
    } else if c.ir0 {
        false
    } else if c.ir1 && c.ie_spec() {
        debug_trips(c.debug_messages, m0.with_cpu(Lh5801 { ir1: false, ..c }).interrupt_target(0xFFFA))
    } else if c.ir2 && c.ie_spec() {
        debug_trips(c.debug_messages, m0.with_cpu(Lh5801 { ir2: false, ..c }).interrupt_target(0xFFF8))
    } else if c.is_halted {
        false
    } else {
        let op = m0.mem_read(c.p as u32);
        let op2 = m0.mem_read(inc16(c.p) as u32);
        if op != 0xfd {
            !main_opcode(op) || main_fails(op, m0.skip_s(1))
        } else {
            !fd_opcode(op2) || fd_fails(op2, m0.skip_s(1).skip_s(1))
        }
    }
}

/// The machine after one CPU step from `m` that did not fault.
pub open spec fn step_spec(m: Pc1500View) -> Pc1500View {
    let m0 = step_base(m);
    let c = m0.cpu;
    if c.ir0 {
        m0.timer_tick_spec()
    } else if c.ir1 && c.ie_spec() {
        m0.with_cpu(Lh5801 { ir1: false, ..c }).interrupt_entry(0xFFFA).timer_tick_spec()
    } else if c.ir2 && c.ie_spec() {
        m0.with_cpu(Lh5801 { ir2: false, ..c }).interrupt_entry(0xFFF8).timer_tick_spec()
    } else if c.is_halted {
        m0.with_cpu(Lh5801 { timer_state: (c.timer_state + 2) as usize, ticks: (c.ticks + 2) as usize, ..c }).timer_tick_spec()
    } else {
        let op = m0.mem_read(c.p as u32);
        let op2 = m0.mem_read(inc16(c.p) as u32);
        if op != 0xfd {
            main_effect(op, m0.skip_s(1)).timer_tick_spec()
        } else {
            fd_effect(op2, m0.skip_s(1).skip_s(1)).timer_tick_spec()
        }
    }
}

impl Pc1500 {
    /// Reset: registers cleared, S at 0x1000, machine time back to zero, and P
    /// loaded from the reset vector at 0xFFFE.
    fn cpu_internal_reset(&mut self) -> (r: Result<(), CpuFault>)
        requires
            old(self).wf(),
            old(self).lh5801.timer_state == 0,
        ensures
            final(self).wf(),
            final(self).lh5801.ticks == old(self).lh5801.ticks,
            r is Err ==> r == Err::<(), CpuFault>(CpuFault::DebugTrap),
            r is Err ==> final(self).lh5801.timer_state == old(self).lh5801.timer_state,
            ({
                let target = old(self)@.word_at(0xFFFE);
                &&& (r is Err <==> debug_trips(old(self).lh5801.debug_messages, target))
                &&& (r is Ok ==> final(self)@ == old(self)@.after_reset(target))
            }),
    {
        self.lh5801 = Lh5801 { reset_flag: true, ..self.lh5801 };
        let target = self.get_mem16(0xFFFE);
        self.set_p(target)?;
        self.lh5801 = Lh5801 {
            a: 0,
            t: 0,
            x: 0,
            y: 0,
            u: 0,
            s: 0x1000,
            is_halted: false,
            ir0: false,
            ir1: false,
            ir2: false,
            timer_state: 0,
            bf: true,
            tm: 0,
            pu: false,
            pv: false,
            reset_flag: false,
            ..self.lh5801
        };
        Ok(())
    }

    /// Takes an interrupt through `vector`.
    #[verifier::rlimit(100)]
    fn enter_interrupt(&mut self, vector: u32) -> (r: Result<(), CpuFault>)
        requires
            old(self).wf(),
        ensures
            steady(old(self), final(self)),
            r is Err ==> r == Err::<(), CpuFault>(CpuFault::DebugTrap),
            r is Err <==> debug_trips(old(self).lh5801.debug_messages, old(self)@.interrupt_target(vector)),
            r is Ok ==> final(self)@ == old(self)@.interrupt_entry(vector),
    {
        let ghost m0 = self@;
        let t = self.lh5801.t;
        self.push(t);
        self.set_ie_flag(false);
        let ghost m2 = self@;
        assert(m2 == m0.push_spec(m0.cpu.t).with_cpu(Lh5801 { t: with_flag(m0.cpu.t, IE, false), ..m0.push_spec(m0.cpu.t).cpu }));
        let p = self.lh5801.p;
        self.push_word(p);
        let ghost m3 = self@;
        assert(m3 == m2.push_word_spec(m0.cpu.p));
        let target = self.get_mem16(vector);
        assert(target == m0.interrupt_target(vector));
        self.set_p(target)?;
        self.lh5801 = Lh5801 { is_halted: false, ..self.lh5801 };
        Ok(())
    }

    fn timer_tick(&mut self)
        requires
            old(self).wf(),
        ensures
            final(self).wf(),
            final(self)@ == old(self)@.timer_tick_spec(),
    {
        let cur = self.lh5801.timer_state;
        if cur - self.lh5801.step_previous_state >= 42 {
            self.timer_inc();
            self.lh5801 = Lh5801 { step_previous_state: cur, ..self.lh5801 };
        }
    }

    /// One CPU step: a pending reset, then the highest pending enabled
    /// interrupt (IR0 masks everything, then IR1, then IR2), else 2 idle cycles
    /// when halted, else one instruction; the timer shifts every 42 cycles.
    #[verifier::rlimit(100)]
    pub fn step_cpu(&mut self) -> (r: Result<(), CpuFault>)
        requires
            old(self).wf(),
            old(self).lh5801.reset_flag ==> old(self).lh5801.timer_state == 0,
            old(self).lh5801.timer_state + 64 <= usize::MAX,
            old(self).lh5801.ticks + 64 <= usize::MAX,
        ensures
            final(self).wf(),
            r is Err <==> step_fails(old(self)@),
            r is Ok ==> final(self)@ == step_spec(old(self)@),
            r is Ok ==> !final(self).lh5801.reset_flag,
            old(self).lh5801.ticks <= final(self).lh5801.ticks <= old(self).lh5801.ticks + 40,
            r is Ok ==> final(self).lh5801.ticks > old(self).lh5801.ticks
                || (old(self).lh5801.ie_spec() && !final(self).lh5801.ie_spec()),
            final(self).lh5801.timer_state <= old(self).lh5801.timer_state + (final(self).lh5801.ticks - old(self).lh5801.ticks),
            !old(self).lh5801.reset_flag ==> final(self).lh5801.timer_state - old(self).lh5801.timer_state
                == final(self).lh5801.ticks - old(self).lh5801.ticks,
            old(self).lh5801.reset_flag && debug_trips(old(self).lh5801.debug_messages, old(self)@.word_at(0xFFFE))
                ==> r == Err::<(), CpuFault>(CpuFault::DebugTrap),
            !(old(self).lh5801.reset_flag && debug_trips(old(self).lh5801.debug_messages, old(self)@.word_at(0xFFFE))) ==> ({
                let base = if old(self).lh5801.reset_flag { old(self)@.after_reset(old(self)@.word_at(0xFFFE)) } else { old(self)@ };
                let m0 = base.latch_timer();
                let c = m0.cpu;
                let m1 = m0.with_cpu(Lh5801 { ir1: false, ..c });
                let m2 = m0.with_cpu(Lh5801 { ir2: false, ..c });
                &&& (!c.ir0 && c.ir1 && c.ie_spec() ==> {
                    &&& (r is Err <==> debug_trips(c.debug_messages, m1.interrupt_target(0xFFFA)))
                    &&& (r is Ok ==> final(self)@ == m1.interrupt_entry(0xFFFA).timer_tick_spec())
                })
                &&& (!c.ir0 && !(c.ir1 && c.ie_spec()) && c.ir2 && c.ie_spec() ==> {
                    &&& (r is Err <==> debug_trips(c.debug_messages, m2.interrupt_target(0xFFF8)))
                    &&& (r is Ok ==> final(self)@ == m2.interrupt_entry(0xFFF8).timer_tick_spec())
                })
                &&& (c.ir0 ==> r is Ok && final(self)@ == m0.timer_tick_spec())
                &&& (!c.ir0 && !((c.ir1 || c.ir2) && c.ie_spec()) && c.is_halted ==> r is Ok
                    && final(self)@ == m0.with_cpu(Lh5801 {
                        timer_state: (c.timer_state + 2) as usize,
                        ticks: (c.ticks + 2) as usize,
                        ..c
                    }).timer_tick_spec())
                &&& (!c.ir0 && !((c.ir1 || c.ir2) && c.ie_spec()) && !c.is_halted ==> {
                    let op = m0.mem_read(c.p as u32);
                    let op2 = m0.mem_read(inc16(c.p) as u32);
                    &&& (is_illegal(r) <==> !main_opcode(op))
                    &&& (is_illegal_fd(r) <==> op == 0xfd && !fd_opcode(op2))
                    &&& (r is Ok && op != 0xfd ==> final(self)@ == main_effect(op, m0.skip_s(1)).timer_tick_spec())
                    &&& (r is Ok && op == 0xfd ==> final(self)@ == fd_effect(op2, m0.skip_s(1).skip_s(1)).timer_tick_spec())
                    &&& (op != 0xfd && main_opcode(op) ==> (r is Err <==> main_fails(op, m0.skip_s(1))))
                    &&& (op == 0xfd && fd_opcode(op2) ==> (r is Err <==> fd_fails(op2, m0.skip_s(1).skip_s(1))))
                })
            }),
    {
        if self.lh5801.reset_flag {
            self.cpu_internal_reset()?;
            proof { assert(0u8 & 2u8 == 0u8) by (bit_vector); }
        }
        assert(self@ == (if old(self).lh5801.reset_flag { old(self)@.after_reset(old(self)@.word_at(0xFFFE)) } else { old(self)@ }));
        if self.lh5801.is_timer_reached {
            self.lh5801 = Lh5801 { ir1: true, is_timer_reached: false, ..self.lh5801 };
        }
        if self.lh5801.ir0 {
            // IR0 is tied to ground on the PC-1500.
        } else if self.lh5801.ir1 && self.lh5801.ie() {
            proof { lemma_with_flag(self.lh5801.t, IE, CF, false); }
            self.lh5801 = Lh5801 { ir1: false, ..self.lh5801 };
            self.enter_interrupt(0xFFFA)?;
        } else if self.lh5801.ir2 && self.lh5801.ie() {
            proof { lemma_with_flag(self.lh5801.t, IE, CF, false); }
            self.lh5801 = Lh5801 { ir2: false, ..self.lh5801 };
            self.enter_interrupt(0xFFF8)?;
        } else if self.lh5801.is_halted {
            self.add_state(2);
        } else {
            self.instruction()?;
        }
        self.timer_tick();
        Ok(())
    }
}

/// Taking an interrupt saves P and T on a RAM stack so that RTI gets them
/// back: the word above the new stack pointer is the interrupted P, and the
/// byte above that word is the interrupted T.
pub proof fn lemma_interrupt_frame(m: Pc1500View, vector: u32)
    requires
        m.wf(),
        stack_in_ram(m.cpu.s),
        stack_in_ram(dec16(m.cpu.s)),
        stack_in_ram(dec16(dec16(m.cpu.s))),
    ensures
        ({
            let e = m.interrupt_entry(vector);
            let s3 = inc16(inc16(inc16(e.cpu.s)));
            &&& e.cpu.s == dec16(dec16(dec16(m.cpu.s)))
            &&& e.peek_word() == m.cpu.p
            &&& s3 == m.cpu.s
            &&& e.mem_read(stack_addr(s3)) == m.cpu.t
        }),
{
    let s0 = m.cpu.s;
    let s1 = dec16(s0);
    let s2 = dec16(s1);
    crate::memory::lemma_mirror_range(stack_addr(s0));
    crate::memory::lemma_mirror_range(stack_addr(s1));
    crate::memory::lemma_mirror_range(stack_addr(s2));
    let e = m.interrupt_entry(vector);
    assert(inc16(dec16(s2)) == s2);
    assert(inc16(s2) == s1);
    assert(inc16(s1) == s0);
    let pc = m.cpu.p;
    assert(((((pc >> 8u16) as u8) as u16) << 8u16) | (((pc & 0xFF) as u8) as u16) == pc) by (bit_vector);
}

/// Returning with RTI from an interrupt that was just entered resumes the
/// interrupted code: P, T (with its IE bit) and S are those from before the
/// interrupt.
pub proof fn lemma_interrupt_then_rti(m: Pc1500View, vector: u32)
    requires
        m.wf(),
        stack_in_ram(m.cpu.s),
        stack_in_ram(dec16(m.cpu.s)),
        stack_in_ram(dec16(dec16(m.cpu.s))),
    ensures
        ({
            let back = m.interrupt_entry(vector).rti_s();
            &&& back.cpu.p == m.cpu.p
            &&& back.cpu.t == m.cpu.t
            &&& back.cpu.s == m.cpu.s
        }),
{
    lemma_interrupt_frame(m, vector);
}

/// A CPU step that takes an IR1 or IR2 interrupt, followed by RTI, resumes
/// the interrupted code: P, T (with its IE bit) and S are those from before
/// the step.
pub proof fn lemma_step_interrupt_then_rti(m: Pc1500View)
    requires
        m.wf(),
        !m.cpu.reset_flag,
        stack_in_ram(m.cpu.s),
        stack_in_ram(dec16(m.cpu.s)),
        stack_in_ram(dec16(dec16(m.cpu.s))),
        ({
            let c = m.latch_timer().cpu;
            !c.ir0 && (c.ir1 || c.ir2) && c.ie_spec()
        }),
    ensures
        ({
            let back = step_spec(m).rti_s();
            &&& back.cpu.p == m.cpu.p
            &&& back.cpu.t == m.cpu.t
            &&& back.cpu.s == m.cpu.s
        }),
{
    let m0 = m.latch_timer();
    let c = m0.cpu;
    if c.ir1 {
        let m1 = m0.with_cpu(Lh5801 { ir1: false, ..c });
        lemma_interrupt_frame(m1, 0xFFFA);
    } else {
        let m2 = m0.with_cpu(Lh5801 { ir2: false, ..c });
        lemma_interrupt_frame(m2, 0xFFF8);
    }
}

} // verus!
