// The second PC-1500 machine: the stand-alone LH5801 model on its own bus,
// with a key matrix, a video-RAM display and a cycle counter.
pub mod cpu;
pub mod display;
pub mod execute;
pub mod interrupts;
pub mod memory;
pub mod model;
pub mod timing;

use vstd::prelude::*;
use crate::keyboard_controller::{KeyboardController, after_pc_key};
use crate::memory_map::ROM_SIZE;
use crate::lh5801::{lo_byte, hi_byte};
use self::cpu::Lh5801Cpu;
use self::display::DisplayController;
use self::execute::{main_cycles, fd_cycles, model_after, model_fd_after, model_writes, model_fd_writes, skip};
use self::memory::{MemoryBus, next_addr, prev_addr};
use self::model::Pc1500Model;
use vstd::string::StringSliceAdditionalSpecFns;

verus! {

/// Cycles the CPU model spends on one step from `c` over bus `m`.
#[verifier::opaque]
pub open spec fn step_cycles(c: Lh5801Cpu, m: MemoryBus) -> int {
    if c.is_halted {
        1
    } else {
        let op = m.byte(c.p);
        if op != 0xFD { main_cycles(op, c.flags) } else { fd_cycles(m.byte(next_addr(c.p))) }
    }
}

/// The registers after one step of the CPU model from `c` over bus `m`.
#[verifier::opaque]
pub open spec fn stepped(c: Lh5801Cpu, m: MemoryBus) -> Lh5801Cpu {
    if c.is_halted {
        c
    } else {
        let op = m.byte(c.p);
        let after = Lh5801Cpu { p: next_addr(c.p), ..c };
        if op != 0xFD {
            model_after(op, after, m)
        } else {
            model_fd_after(m.byte(after.p), skip(after, 1), m)
        }
    }
}

/// One step of the CPU model from (`c0`, `m0`) to (`c1`, `m1`): a halted
/// CPU changes nothing; otherwise the registers are `stepped` and the bus
/// is changed as the instruction writes it.
pub open spec fn step_rel(c0: Lh5801Cpu, m0: MemoryBus, c1: Lh5801Cpu, m1: MemoryBus) -> bool {
    if c0.is_halted {
        c1 == c0 && m1 == m0
    } else {
        let op = m0.byte(c0.p);
        let after = Lh5801Cpu { p: next_addr(c0.p), ..c0 };
        &&& c1 == stepped(c0, m0)
        &&& m1.wf()
        &&& m1.map.rom@ == m0.map.rom@
        &&& (op != 0xFD ==> model_writes(op, after, m0, m1))
        &&& (op == 0xFD ==> model_fd_writes(m0.byte(after.p), skip(after, 1), m0, m1))
    }
}

/// Entering an interrupt through vector 0x0000 from (`c`, `m`): PC high,
/// PC low and the IE state are stored below S, IE and halt are cleared and P
/// takes the vector.
pub open spec fn interrupt_rel(c: Lh5801Cpu, m: MemoryBus, c2: Lh5801Cpu, m2: MemoryBus) -> bool {
    &&& exists|a: MemoryBus, b: MemoryBus|
        #![trigger m.stored(a, prev_addr(c.s), hi_byte(c.p)), a.stored(b, prev_addr(prev_addr(c.s)), lo_byte(c.p))]
        m.stored(a, prev_addr(c.s), hi_byte(c.p))
        && a.stored(b, prev_addr(prev_addr(c.s)), lo_byte(c.p))
        && b.stored(m2, prev_addr(prev_addr(prev_addr(c.s))), if c.interrupt_enabled { 1u8 } else { 0u8 })
    &&& c2 == (Lh5801Cpu {
        s: prev_addr(prev_addr(prev_addr(c.s))),
        p: m2.word(0),
        interrupt_enabled: false,
        is_halted: false,
        ..c
    })
}

/// One `run_cpu`: a step, then the interrupt entry when the CPU is left with
/// interrupts enabled and not halted.
pub open spec fn run_rel(c0: Lh5801Cpu, m0: MemoryBus, c1: Lh5801Cpu, m1: MemoryBus) -> bool {
    exists|cm: Lh5801Cpu, mm: MemoryBus| #![trigger step_rel(c0, m0, cm, mm)]
        step_rel(c0, m0, cm, mm)
        && (if cm.interrupt_enabled && !cm.is_halted { interrupt_rel(cm, mm, c1, m1) } else { c1 == cm && m1 == mm })
}

/// Entry `i` of a frame trace is followed by entry `i + 1` through one
/// `run_cpu` that began below the budget.
pub open spec fn trace_step(trace: Seq<(Lh5801Cpu, MemoryBus, u64)>, i: int, start: int, target: int) -> bool {
    &&& trace[i].2 - start < target
    &&& run_rel(trace[i].0, trace[i].1, trace[i + 1].0, trace[i + 1].1)
    &&& trace[i + 1].2 == trace[i].2 + step_cycles(trace[i].0, trace[i].1)
}

/// `trace` is a frame of runs from `start` cycles with budget `target`:
/// each entry (CPU, bus, cycles) follows the previous one by one `run_cpu`
/// that began below the budget, and the last one has reached it.
pub open spec fn frame_trace(trace: Seq<(Lh5801Cpu, MemoryBus, u64)>, start: int, target: int) -> bool {
    &&& trace.len() >= 1
    &&& forall|i: int| 0 <= i < trace.len() - 1 ==> #[trigger] trace_step(trace, i, start, target)
    &&& trace.last().2 - start >= target
}

/// A snapshot of the CPU registers.
#[derive(Debug, Clone)]
pub struct CpuState {
    pub pc: u16,
    pub a: u8,
    pub b: u8,
    pub x: u16,
    pub y: u16,
    pub u: u16,
    pub s: u16,
    pub flags: u8,
}

/// The machine: CPU model, bus, key matrix, display, and the cycles run.
pub struct Pc1500 {
    pub model: Pc1500Model,
    pub cpu: Lh5801Cpu,
    pub memory: MemoryBus,
    pub keyboard: KeyboardController,
    pub display: DisplayController,
    pub cycles_run: u64,
    pub target_cycles_per_frame: u64,
}

impl Pc1500 {
    pub open spec fn wf(&self) -> bool {
        &&& self.memory.wf()
        &&& self.keyboard.wf()
        &&& self.display.wf()
        &&& self.target_cycles_per_frame == 1000
    }

    /// A machine of the given model over a bus with the given ROM; CPU
    /// cleared, no cycles run, 1000 cycles per frame.
    pub fn new(model: Pc1500Model, rom: Vec<u8>) -> (r: Self)
        requires
            rom@.len() == ROM_SIZE,
        ensures
            r.wf(),
            r.model == model,
            r.cpu == Lh5801Cpu::cleared(),
            r.memory.map.rom@ == rom@,
            r.cycles_run == 0,
    {
        Pc1500 {
            model,
            cpu: Lh5801Cpu::new(),
            memory: MemoryBus::new(rom),
            keyboard: KeyboardController::new(),
            display: DisplayController::new(),
            cycles_run: 0,
            target_cycles_per_frame: 1000,
        }
    }

    /// Loads a ROM image: accepted only when it has exactly the ROM's size;
    /// then the bus is rebuilt over it.
    pub fn load_bios(&mut self, bios_data: &[u8]) -> (r: Result<(), &'static str>)
        requires
            old(self).wf(),
        ensures
            final(self).wf(),
            r is Ok <==> bios_data@.len() == ROM_SIZE,
            r is Ok ==> final(self).memory.map.rom@ == bios_data@,
            r is Err ==> final(self).memory == old(self).memory,
            final(self).cpu == old(self).cpu,
            final(self).cycles_run == old(self).cycles_run,
            final(self).model == old(self).model,
    {
        if bios_data.len() != ROM_SIZE {
            return Err("ROM image has the wrong size");
        }
        let mut rom: Vec<u8> = Vec::new();
        let mut i: usize = 0;
        while i < bios_data.len()
            invariant
                i <= bios_data@.len(),
                rom@ == bios_data@.subrange(0, i as int),
            decreases bios_data@.len() - i,
        {
            rom.push(bios_data[i]);
            i = i + 1;
        }
        assert(rom@ =~= bios_data@);
        self.memory = MemoryBus::new(rom);
        Ok(())
    }

    /// Soft reset: CPU cleared, keys released, display RAM cleared, cycle
    /// count back to zero.
    pub fn soft_reset(&mut self)
        requires
            old(self).wf(),
        ensures
            final(self).wf(),
            final(self).cpu == Lh5801Cpu::cleared(),
            forall|row: int, col: int| 0 <= row < 8 && 0 <= col < 8 ==> !#[trigger] final(self).keyboard.down(row, col),
            forall|i: int| 0 <= i < display::DISPLAY_BYTES ==> final(self).display.vram@[i] == 0,
            final(self).cycles_run == 0,
            final(self).memory == old(self).memory,
            final(self).model == old(self).model,
    {
        self.cpu.reset();
        self.keyboard.clear_all();
        self.display.clear();
        self.cycles_run = 0;
    }

    /// Switches the model, then soft-resets.
    pub fn change_model_and_soft_reset(&mut self, model: Pc1500Model)
        requires
            old(self).wf(),
        ensures
            final(self).wf(),
            final(self).model == model,
            final(self).cpu == Lh5801Cpu::cleared(),
            final(self).cycles_run == 0,
            final(self).memory == old(self).memory,
    {
        self.model = model;
        self.soft_reset();
    }

    /// The same as `soft_reset`.
    pub fn reset(&mut self)
        requires
            old(self).wf(),
        ensures
            final(self).wf(),
            final(self).cpu == Lh5801Cpu::cleared(),
            forall|i: int| 0 <= i < display::DISPLAY_BYTES ==> final(self).display.vram@[i] == 0,
            final(self).cycles_run == 0,
            final(self).memory == old(self).memory,
            final(self).model == old(self).model,
    {
        self.soft_reset();
    }

    /// One CPU step, its cycles added to the count; afterwards, when the
    /// CPU has interrupts enabled and is not halted, it takes the interrupt
    /// through vector 0x0000.
    pub fn run_cpu(&mut self)
        requires
            old(self).wf(),
            old(self).cycles_run + 0xFF <= u64::MAX,
        ensures
            final(self).wf(),
            final(self).cycles_run == old(self).cycles_run + step_cycles(old(self).cpu, old(self).memory),
            final(self).memory.map.rom@ == old(self).memory.map.rom@,
            ({
                let c1 = stepped(old(self).cpu, old(self).memory);
                &&& (c1.interrupt_enabled && !c1.is_halted ==> final(self).cpu == (Lh5801Cpu {
                    s: prev_addr(prev_addr(prev_addr(c1.s))),
                    p: final(self).memory.word(0),
                    interrupt_enabled: false,
                    is_halted: false,
                    ..c1
                }))
                &&& (!(c1.interrupt_enabled && !c1.is_halted) ==> final(self).cpu == c1)
            }),
            run_rel(old(self).cpu, old(self).memory, final(self).cpu, final(self).memory),
            final(self).model == old(self).model,
            final(self).keyboard == old(self).keyboard,
            final(self).display == old(self).display,
    {
        proof { reveal(stepped); reveal(step_cycles); }
        let cycles = self.cpu.step(&mut self.memory);
        let ghost cm = self.cpu;
        let ghost mm = self.memory;
        assert(step_rel(old(self).cpu, old(self).memory, cm, mm));
        self.cycles_run = self.cycles_run + cycles as u64;
        if self.cpu.should_handle_interrupt() {
            self.cpu.handle_interrupt(0x0000, &mut self.memory);
            assert(interrupt_rel(cm, mm, self.cpu, self.memory));
        }
    }

    /// Runs CPU steps until at least `target_cycles_per_frame` cycles have
    /// been counted since the call.
    pub fn step_frame(&mut self)
        requires
            old(self).wf(),
            old(self).cycles_run + 0x10000 <= u64::MAX,
        ensures
            final(self).wf(),
            old(self).cycles_run + old(self).target_cycles_per_frame <= final(self).cycles_run,
            final(self).cycles_run < old(self).cycles_run + old(self).target_cycles_per_frame + 0x100,
            final(self).memory.map.rom@ == old(self).memory.map.rom@,
            final(self).model == old(self).model,
            final(self).keyboard == old(self).keyboard,
            final(self).display == old(self).display,
            exists|trace: Seq<(Lh5801Cpu, MemoryBus, u64)>| #![trigger frame_trace(trace, old(self).cycles_run as int, 1000)]
                frame_trace(trace, old(self).cycles_run as int, 1000)
                && trace[0] == (old(self).cpu, old(self).memory, old(self).cycles_run)
                && trace.last() == (final(self).cpu, final(self).memory, final(self).cycles_run),
    {
        let start = self.cycles_run;
        let ghost mut trace: Seq<(Lh5801Cpu, MemoryBus, u64)> = seq![(self.cpu, self.memory, self.cycles_run)];
        while self.cycles_run - start < self.target_cycles_per_frame
            invariant
                self.wf(),
                start == old(self).cycles_run,
                start + 0x10000 <= u64::MAX,
                self.target_cycles_per_frame == 1000,
                start <= self.cycles_run < start + self.target_cycles_per_frame + 0x100,
                self.memory.map.rom@ == old(self).memory.map.rom@,
                self.model == old(self).model,
                self.keyboard == old(self).keyboard,
                self.display == old(self).display,
                trace.len() >= 1,
                trace[0] == (old(self).cpu, old(self).memory, old(self).cycles_run),
                trace.last() == (self.cpu, self.memory, self.cycles_run),
                forall|i: int| 0 <= i < trace.len() - 1 ==> #[trigger] trace_step(trace, i, start as int, 1000),
            decreases start + 1000 + 0x100 - self.cycles_run,
        {
            proof { lemma_step_cycles(self.cpu, self.memory); }
            let ghost before = self.cycles_run;
            let ghost old_trace = trace;
            let ghost cpu0 = self.cpu;
            let ghost mem0 = self.memory;
            self.run_cpu();
            assert(self.cycles_run > before);
            assert(run_rel(cpu0, mem0, self.cpu, self.memory));
            assert(self.cycles_run == before + step_cycles(cpu0, mem0));
            proof {
                assert(old_trace.last() == (cpu0, mem0, before));
                trace = trace.push((self.cpu, self.memory, self.cycles_run));
                assert forall|i: int| 0 <= i < trace.len() - 1 implies #[trigger] trace_step(trace, i, start as int, 1000) by {
                    if i < old_trace.len() - 1 {
                        assert(trace[i] == old_trace[i] && trace[i + 1] == old_trace[i + 1]);
                        assert(trace_step(old_trace, i, start as int, 1000));
                    } else {
                        assert(i == old_trace.len() - 1);
                        assert(trace[i] == old_trace[old_trace.len() - 1]);
                        assert(trace[i] == (cpu0, mem0, before));
                        assert(trace[i + 1] == (self.cpu, self.memory, self.cycles_run));
                    }
                }
            }
        }
        proof {
            assert(trace.last().2 == self.cycles_run);
            assert(trace.last().2 - start >= 1000);
            assert(frame_trace(trace, start as int, 1000));
        }
    }

    pub fn display(&self) -> (r: &DisplayController)
        ensures
            *r == self.display,
    {
        &self.display
    }

    /// The display as RGBA pixels, refreshed from video RAM when it changed.
    pub fn pixel_data_rgba(&mut self) -> (r: &[u8])
        requires
            old(self).wf(),
        ensures
            final(self).wf(),
            r@ == final(self).display.rgba_buffer@,
            !old(self).display.dirty ==> r@ == old(self).display.rgba_buffer@,
    {
        self.display.rgba_buffer()
    }

    /// A host key event, passed to the key matrix.
    pub fn handle_key_input(&mut self, scancode: u32, pressed: bool)
        requires
            old(self).wf(),
        ensures
            final(self).wf(),
            final(self).cpu == old(self).cpu,
            final(self).memory == old(self).memory,
            final(self).keyboard.matrix@ == after_pc_key(old(self).keyboard.matrix@, scancode, pressed),
    {
        self.keyboard.handle_pc_key(scancode, pressed);
    }

    pub fn press_key(&mut self, scancode: u32)
        requires
            old(self).wf(),
        ensures
            final(self).wf(),
            final(self).keyboard.matrix@ == after_pc_key(old(self).keyboard.matrix@, scancode, true),
    {
        self.handle_key_input(scancode, true);
    }

    pub fn release_key(&mut self, scancode: u32)
        requires
            old(self).wf(),
        ensures
            final(self).wf(),
            final(self).keyboard.matrix@ == after_pc_key(old(self).keyboard.matrix@, scancode, false),
    {
        self.handle_key_input(scancode, false);
    }

    pub fn model(&self) -> (r: Pc1500Model)
        ensures
            r == self.model,
    {
        self.model
    }

    pub fn cpu(&self) -> (r: &Lh5801Cpu)
        ensures
            *r == self.cpu,
    {
        &self.cpu
    }

    pub fn cycles_run(&self) -> (r: u64)
        ensures
            r == self.cycles_run,
    {
        self.cycles_run
    }

    pub fn clear_display(&mut self)
        requires
            old(self).wf(),
        ensures
            final(self).wf(),
            forall|i: int| 0 <= i < display::DISPLAY_BYTES ==> final(self).display.vram@[i] == 0,
            final(self).cpu == old(self).cpu,
            final(self).memory == old(self).memory,
    {
        self.display.clear();
    }

    /// Shows a status message on the display.
    pub fn display_message(&mut self, message: &str)
        requires
            old(self).wf(),
            message.spec_bytes().len() >= 1,
            6 * message.spec_bytes().len() <= usize::MAX,
            message@.len() <= message.spec_bytes().len(),
        ensures
            final(self).wf(),
            final(self).cpu == old(self).cpu,
            final(self).memory == old(self).memory,
            final(self).display.rgba_buffer@ == old(self).display.rgba_buffer@,
            final(self).display.dirty,
            !display::centered_fits(message.spec_bytes().len() as int) ==> final(self).display.vram@ == display::blank_vram(),
            display::centered_fits(message.spec_bytes().len() as int) ==> display::string_drawn(display::blank_vram(),
                final(self).display, display::centered_x(message.spec_bytes().len() as int), 1, message@),
    {
        self.display.show_status(message);
    }

    /// Draws `text` centred on row `y` of the display.
    pub fn display_text_centered(&mut self, y: usize, text: &str)
        requires
            old(self).wf(),
            text.spec_bytes().len() >= 1,
            6 * text.spec_bytes().len() <= usize::MAX,
            text@.len() <= text.spec_bytes().len(),
            y + 7 <= usize::MAX,
        ensures
            final(self).wf(),
            final(self).cpu == old(self).cpu,
            final(self).memory == old(self).memory,
            final(self).display.rgba_buffer@ == old(self).display.rgba_buffer@,
            !display::centered_fits(text.spec_bytes().len() as int) ==> final(self).display.vram@ == old(self).display.vram@,
            display::centered_fits(text.spec_bytes().len() as int) ==> display::string_drawn(old(self).display.vram@,
                final(self).display, display::centered_x(text.spec_bytes().len() as int), y as int, text@),
    {
        self.display.draw_string_centered(y, text);
    }

    /// Draws `text` from column `x` on row `y` of the display.
    pub fn display_text_at(&mut self, x: usize, y: usize, text: &str)
        requires
            old(self).wf(),
            x + 6 * text@.len() + 6 <= usize::MAX,
            y + 7 <= usize::MAX,
        ensures
            final(self).wf(),
            final(self).cpu == old(self).cpu,
            final(self).memory == old(self).memory,
            display::string_drawn(old(self).display.vram@, final(self).display, x as int, y as int, text@),
    {
        self.display.draw_string(x, y, text);
    }

    /// Shows the test pattern with the PC-1500 label.
    pub fn show_test_pattern(&mut self)
        requires
            old(self).wf(),
        ensures
            final(self).wf(),
            final(self).cpu == old(self).cpu,
            final(self).memory == old(self).memory,
            final(self).display.dirty,
            display::string_drawn(display::blank_vram(), final(self).display, display::centered_x(7), 0, "PC-1500"@),
    {
        self.display.test_pattern_with_text();
    }

    /// Writes a byte through the bus.
    pub fn write_memory(&mut self, address: u16, value: u8)
        requires
            old(self).wf(),
        ensures
            final(self).wf(),
            old(self).memory.stored(final(self).memory, address, value),
            final(self).cpu == old(self).cpu,
    {
        self.memory.write_byte(address, value);
    }

    /// Reads a byte through the bus.
    pub fn read_memory(&self, address: u16) -> (r: u8)
        requires
            self.wf(),
        ensures
            r == self.memory.byte(address),
    {
        self.memory.read_byte(address)
    }

    /// Writes a test pattern into display RAM: 0xFF/0x00 alternately at
    /// 0x7600-0x7613 and 0xAA/0x55 alternately at 0x7700-0x7713.
    pub fn write_display_memory_pattern(&mut self)
        requires
            old(self).wf(),
        ensures
            final(self).wf(),
            final(self).cpu == old(self).cpu,
            final(self).memory.map.rom@ == old(self).memory.map.rom@,
            final(self).memory.output_port == old(self).memory.output_port,
            final(self).memory.input_port == old(self).memory.input_port,
            forall|a: u16| #![trigger final(self).memory.byte(a)]
                0 <= a - 0x7600 < 20 ==> final(self).memory.byte(a) == (if (a - 0x7600) % 2 == 0 { 0xFFu8 } else { 0x00u8 }),
            forall|a: u16| #![trigger final(self).memory.byte(a)]
                0 <= a - 0x7700 < 20 ==> final(self).memory.byte(a) == (if (a - 0x7700) % 2 == 0 { 0xAAu8 } else { 0x55u8 }),
            forall|a: u16| #![trigger final(self).memory.byte(a)]
                !(0 <= a - 0x7600 < 20) && !(0 <= a - 0x7700 < 20) ==> final(self).memory.byte(a) == old(self).memory.byte(a),
    {
        let mut i: u16 = 0;
        while i < 20
            invariant
                self.wf(),
                i <= 20,
                self.cpu == old(self).cpu,
                self.memory.map.rom@ == old(self).memory.map.rom@,
                self.memory.output_port == old(self).memory.output_port,
                self.memory.input_port == old(self).memory.input_port,
                forall|a: u16| #![trigger self.memory.byte(a)]
                    0 <= a - 0x7600 < i ==> self.memory.byte(a) == (if (a - 0x7600) % 2 == 0 { 0xFFu8 } else { 0x00u8 }),
                forall|a: u16| #![trigger self.memory.byte(a)]
                    !(0 <= a - 0x7600 < i) ==> self.memory.byte(a) == old(self).memory.byte(a),
            decreases 20 - i,
        {
            let pattern: u8 = if i % 2 == 0 { 0xFF } else { 0x00 };
            let ghost before = self.memory;
            self.write_memory(0x7600 + i, pattern);
            proof {
                assert forall|a: u16| a != 0x7600 + i implies #[trigger] self.memory.byte(a) == before.byte(a) by {
                    memory::lemma_stored_read_back(before, self.memory, (0x7600 + i) as u16, a, pattern);
                }
                memory::lemma_stored_read_back(before, self.memory, (0x7600 + i) as u16, 0, pattern);
            }
            i = i + 1;
        }
        let mut i: u16 = 0;
        while i < 20
            invariant
                self.wf(),
                i <= 20,
                self.cpu == old(self).cpu,
                self.memory.map.rom@ == old(self).memory.map.rom@,
                self.memory.output_port == old(self).memory.output_port,
                self.memory.input_port == old(self).memory.input_port,
                forall|a: u16| #![trigger self.memory.byte(a)]
                    0 <= a - 0x7600 < 20 ==> self.memory.byte(a) == (if (a - 0x7600) % 2 == 0 { 0xFFu8 } else { 0x00u8 }),
                forall|a: u16| #![trigger self.memory.byte(a)]
                    0 <= a - 0x7700 < i ==> self.memory.byte(a) == (if (a - 0x7700) % 2 == 0 { 0xAAu8 } else { 0x55u8 }),
                forall|a: u16| #![trigger self.memory.byte(a)]
                    !(0 <= a - 0x7600 < 20) && !(0 <= a - 0x7700 < i) ==> self.memory.byte(a) == old(self).memory.byte(a),
            decreases 20 - i,
        {
            let pattern: u8 = if i % 2 == 0 { 0xAA } else { 0x55 };
            let ghost before = self.memory;
            self.write_memory(0x7700 + i, pattern);
            proof {
                assert forall|a: u16| a != 0x7700 + i implies #[trigger] self.memory.byte(a) == before.byte(a) by {
                    memory::lemma_stored_read_back(before, self.memory, (0x7700 + i) as u16, a, pattern);
                }
                memory::lemma_stored_read_back(before, self.memory, (0x7700 + i) as u16, 0, pattern);
            }
            i = i + 1;
        }
    }

    /// The display RAM range: first section start, second section end, size.
    pub fn get_display_memory_info(&self) -> (r: (u16, u16, usize))
        ensures
            r == (0x7600u16, 0x774Fu16, 160usize),
    {
        (0x7600, 0x774F, 160)
    }

    /// The byte at `address` when it is below 0x4000, else 0xFF.
    pub fn read_rom_byte(&self, address: u16) -> (r: u8)
        requires
            self.wf(),
        ensures
            address <= 0x3FFF ==> r == self.memory.byte(address),
            address > 0x3FFF ==> r == 0xFF,
    {
        if address <= 0x3FFF {
            self.memory.read_byte(address)
        } else {
            0xFF
        }
    }

    /// Whether the code at 0x0000 is something other than the built-in test
    /// program (which starts with 0x05 0x55).
    pub fn is_rom_mode(&self) -> (r: bool)
        requires
            self.wf(),
        ensures
            r == !(self.memory.byte(0) == 0x05 && self.memory.byte(1) == 0x55),
    {
        let b0 = self.memory.read_byte(0x0000);
        let b1 = self.memory.read_byte(0x0001);
        let _b2 = self.memory.read_byte(0x0002);
        !(b0 == 0x05 && b1 == 0x55)
    }

    /// Test mode: soft reset, a small test program written at 0x0000, an
    /// alternating pattern in the first 20 bytes of display RAM, and P at
    /// 0x0000.
    pub fn init_test_mode(&mut self)
        requires
            old(self).wf(),
        ensures
            final(self).wf(),
            final(self).cpu == (Lh5801Cpu { p: 0, ..Lh5801Cpu::cleared() }),
            final(self).cycles_run == 0,
            final(self).memory.map.rom@ == old(self).memory.map.rom@,
            final(self).model == old(self).model,
    {
        self.soft_reset();
        let test_program: [u8; 17] = [
            0x05, 0x55, 0x0D, 0x00, 0x76, 0x05, 0xAA, 0x0D, 0x01, 0x76, 0x05, 0xFF, 0x0D, 0x02, 0x76, 0x81,
            0xF0,
        ];
        let mut i: usize = 0;
        while i < 17
            invariant
                self.wf(),
                i <= 17,
                self.cpu == Lh5801Cpu::cleared(),
                self.cycles_run == 0,
                self.memory.map.rom@ == old(self).memory.map.rom@,
                self.model == old(self).model,
            decreases 17 - i,
        {
            self.memory.write_byte(i as u16, test_program[i]);
            i = i + 1;
        }
        let mut k: u16 = 0;
        while k < 20
            invariant
                self.wf(),
                k <= 20,
                self.cpu == Lh5801Cpu::cleared(),
                self.cycles_run == 0,
                self.memory.map.rom@ == old(self).memory.map.rom@,
                self.model == old(self).model,
            decreases 20 - k,
        {
            let pattern: u8 = if k % 2 == 0 { 0xAA } else { 0x55 };
            self.memory.write_byte(0x7600 + k, pattern);
            k = k + 1;
        }
        self.cpu.set_pc(0x0000);
    }

    /// The CPU registers.
    pub fn cpu_state(&self) -> (r: CpuState)
        ensures
            r.pc == self.cpu.p,
            r.a == self.cpu.a,
            r.b == self.cpu.b,
            r.x == self.cpu.x,
            r.y == self.cpu.y,
            r.u == self.cpu.u,
            r.s == self.cpu.s,
            r.flags == self.cpu.flags,
    {
        CpuState {
            pc: self.cpu.p(),
            a: self.cpu.a(),
            b: self.cpu.b(),
            x: self.cpu.x(),
            y: self.cpu.y(),
            u: self.cpu.u(),
            s: self.cpu.s(),
            flags: self.cpu.flags(),
        }
    }
}

/// One step of the CPU model always counts at least one cycle and fewer
/// than 256.
pub proof fn lemma_step_cycles(c: Lh5801Cpu, m: MemoryBus)
    ensures
        1 <= step_cycles(c, m) < 256,
{
    reveal(step_cycles);
}

/// Builds a machine of a chosen model, optionally with a ROM image.
pub struct Pc1500Builder {
    pub model: Pc1500Model,
    pub bios_data: Option<Vec<u8>>,
}

impl Pc1500Builder {
    pub fn new() -> (r: Self)
        ensures
            r.model == Pc1500Model::Pc1500,
            r.bios_data is None,
    {
        Pc1500Builder { model: Pc1500Model::Pc1500, bios_data: None }
    }

    pub fn model(self, model: Pc1500Model) -> (r: Self)
        ensures
            r.model == model,
            r.bios_data == self.bios_data,
    {
        Pc1500Builder { model, ..self }
    }

    pub fn bios(self, bios_data: Vec<u8>) -> (r: Self)
        ensures
            r.model == self.model,
            r.bios_data == Some(bios_data),
    {
        Pc1500Builder { bios_data: Some(bios_data), ..self }
    }

    /// The machine: over the given ROM when there is one (refused unless it
    /// has the ROM's size), else over a blank (all 0xFF) ROM.
    pub fn build(self) -> (r: Result<Pc1500, &'static str>)
        ensures
            r is Ok <==> (self.bios_data is None || self.bios_data->0@.len() == ROM_SIZE),
            r is Ok ==> r->Ok_0.wf() && r->Ok_0.model == self.model && r->Ok_0.cycles_run == 0
                && r->Ok_0.cpu == Lh5801Cpu::cleared(),
            r is Ok && self.bios_data is Some ==> r->Ok_0.memory.map.rom@ == self.bios_data->0@,
    {
        match self.bios_data {
            Some(rom) => {
                if rom.len() != ROM_SIZE {
                    return Err("ROM image has the wrong size");
                }
                Ok(Pc1500::new(self.model, rom))
            },
            None => {
                let mut rom: Vec<u8> = Vec::new();
                let mut i: usize = 0;
                while i < ROM_SIZE
                    invariant
                        i <= ROM_SIZE,
                        rom@.len() == i,
                    decreases ROM_SIZE - i,
                {
                    rom.push(0xFF);
                    i = i + 1;
                }
                Ok(Pc1500::new(self.model, rom))
            },
        }
    }
}

} // verus!
