// Sharp PC-1500 emulator core: LH5801 CPU, LH5810 I/O chip, uPD1990AC clock,
// memory map, keyboard matrix and LCD.
use vstd::prelude::*;

pub mod cpu_step;
pub mod display;
pub mod effects;
pub mod isa;
pub mod isa_ops;
pub mod joypad;
pub mod keyboard;
pub mod keyboard_controller;
pub mod laws;
pub mod key_mapper;
pub mod lcd;
pub mod lh5_loader;
pub mod lh5801;
pub mod lh5810;
pub mod memory;
pub mod memory_map;
pub mod options;
pub mod pc1500;
pub mod pc1500_old;
pub mod pd1990ac;
pub mod timebase;

use crate::display::DisplayController;
use crate::keyboard::Keyboard;
use crate::lh5801::{CpuFault, Lh5801};
use crate::lh5810::Reg;
use crate::pd1990ac::ClockReading;
use crate::keyboard::Key;
use crate::lh5_loader::{Lh5LoadError, validate_load_parameters};
use crate::lh5810::Lh5810;
use crate::memory::MemoryBus;
use crate::pd1990ac::Pd1990ac;

verus! {

pub struct Pc1500 {
    pub lh5801: Lh5801,
    pub lh5810: Lh5810,
    pub pd1990ac: Pd1990ac,
    pub memory: MemoryBus,
    pub keyboard: Keyboard,
    pub display: DisplayController,
    /// Machine tick at which the current frame ends; each frame moves it on
    /// by exactly `TICKS_PER_FRAME`, so an overrun is taken from the next
    /// frame.
    pub frame_deadline: usize,
}

/// The whole machine as plain values.
pub struct Pc1500View {
    pub cpu: Lh5801,
    pub io: Lh5810,
    pub rtc: Pd1990ac,
    pub rom: Seq<u8>,
    pub user: Seq<u8>,
    pub sys: Seq<u8>,
    pub ks: u8,
    pub keys: Seq<bool>,
    pub pixels: Seq<u8>,
    pub symbols: Seq<bool>,
}

impl View for Pc1500 {
    type V = Pc1500View;

    open spec fn view(&self) -> Pc1500View {
        Pc1500View {
            cpu: self.lh5801,
            io: self.lh5810,
            rtc: self.pd1990ac,
            rom: self.memory.rom@,
            user: self.memory.standard_user_memory@,
            sys: self.memory.standard_user_system_memory@,
            ks: self.keyboard.ks,
            keys: self.keyboard.pressed_keys@,
            pixels: self.display.rgba_buffer@,
            symbols: self.display.symbol_buffer@,
        }
    }
}

impl Pc1500View {
    /// Sizes of the memories and tables, and the peripherals' bookkeeping
    /// consistent with machine time.
    pub open spec fn wf(&self) -> bool {
        &&& self.rom.len() == memory::ROM_SIZE
        &&& self.user.len() == memory::STANDARD_USER_MEMORY_SIZE
        &&& self.sys.len() == memory::STANDARD_USER_SYSTEM_MEMORY_SIZE
        &&& self.keys.len() == keyboard::KEY_SLOTS
        &&& self.pixels.len() == display::RGBA_SIZE
        &&& self.symbols.len() == display::SYMBOL_COUNT
        &&& self.io.wf(self.cpu.timer_state)
        &&& self.rtc.wf(self.cpu.timer_state)
        &&& self.cpu.step_previous_state <= self.cpu.timer_state
        &&& !self.cpu.ir0
    }
}

/// Machine cycles run by one call of `step_frame`.
pub const TICKS_PER_FRAME: usize = 15000;

/// Real nanoseconds per machine cycle of the LH5801 (2.6 MHz crystal halved).
pub const NANOS_PER_TICK: u64 = 769;

/// Real nanoseconds that one call of `step_frame` stands for.
pub const FRAME_NANOS: u64 = 11535000;

/// Room left in the clocks for one more frame.
pub open spec fn frame_headroom(m: Pc1500View) -> bool {
    &&& m.cpu.timer_state + 0x10000 <= usize::MAX
    &&& m.cpu.ticks + 0x10000 <= usize::MAX
}

pub open spec fn bit_of(byte: u8, position: u8) -> bool {
    ((byte >> position) & 0x01) != 0
}

impl Pc1500View {
    /// The clock chip after the CPU changed the LH5810 port C: its data,
    /// strobe, clock and command pins follow the port bits, and it steps.
    pub open spec fn rtc_after_opc(self) -> Pd1990ac {
        let t = self.io.reg_spec(Reg::OPC);
        let ts = self.cpu.timer_state;
        Pd1990ac {
            data_in: bit_of(t, 0),
            stb: bit_of(t, 1),
            clk: bit_of(t, 2),
            out_enable: bit_of(t, 3),
            c0: bit_of(t, 3),
            c1: bit_of(t, 4),
            c2: bit_of(t, 5),
            ..self.rtc
        }.step_spec(ts)
    }

    /// When the CPU changed port C, the clock chip takes its pins from it and
    /// steps.
    pub open spec fn listen_opc(self) -> Pc1500View {
        if self.io.new_opc {
            Pc1500View { rtc: self.rtc_after_opc(), io: Lh5810 { new_opc: false, ..self.io }, ..self }
        } else {
            self
        }
    }

    /// Port B inputs: PB5 is the clock chip's TP, PB6 its DATA OUT, PB3 reads
    /// high (export model) and PB4 low.
    pub open spec fn drive_port_b(self) -> Pc1500View {
        let rtc2 = self.rtc.tp_spec(self.cpu.timer_state);
        let io2 = self.io.set_reg_bit_spec(Reg::OPB, 5, rtc2.tp).set_reg_bit_spec(Reg::OPB, 6, rtc2.data_out)
            .set_reg_bit_spec(Reg::OPB, 3, true).set_reg_bit_spec(Reg::OPB, 4, false);
        Pc1500View { io: io2, rtc: rtc2, ..self }
    }

    /// One step of the peripherals at the current machine time.
    pub open spec fn peripherals_spec(self) -> Pc1500View {
        let m = self.listen_opc().drive_port_b();
        Pc1500View { io: m.io.step_spec(self.cpu.timer_state), ..m }
    }
}

impl Pc1500 {
    pub open spec fn wf(&self) -> bool {
        self@.wf()
    }

    /// A powered-on PC-1500 with the given ROM image, a program preloaded at
    /// 0x40C5, the clock chip set from `clock`, and a CPU reset pending.
    pub fn with_clock(rom: Vec<u8>, program: &Vec<u8>, clock: ClockReading) -> (r: Self)
        requires
            rom@.len() == memory::ROM_SIZE,
            0xC5 + program@.len() <= memory::STANDARD_USER_MEMORY_SIZE,
            clock.valid(),
        ensures
            r.wf(),
            r.lh5801 == Lh5801::initial(),
            r.lh5810 == Lh5810::initial(),
            r.pd1990ac == Pd1990ac::from_clock_spec(clock),
            r@.rom == rom@,
            r@.user == memory::initial_user_memory(program@),
            r@.sys == memory::initial_system_memory(program@.len()),
            r.keyboard.ks == 0,
            r.frame_deadline == TICKS_PER_FRAME,
            forall|k: Key| !r.keyboard.is_down(k),
            forall|i: int| 0 <= i < display::RGBA_SIZE ==> r@.pixels[i] == 0,
            forall|i: int| 0 <= i < display::SYMBOL_COUNT ==> !r@.symbols[i],
    {
        Self {
            lh5801: Lh5801::new(),
            memory: MemoryBus::new(rom, program),
            keyboard: Keyboard::new(),
            display: DisplayController::new(),
            frame_deadline: TICKS_PER_FRAME,
            lh5810: Lh5810::new(),
            pd1990ac: Pd1990ac::from_clock(clock),
        }
    }

    /// A powered-on PC-1500 whose clock chip reads the current UTC time.
    pub fn new(rom: Vec<u8>, program: &Vec<u8>) -> (r: Self)
        requires
            rom@.len() == memory::ROM_SIZE,
            0xC5 + program@.len() <= memory::STANDARD_USER_MEMORY_SIZE,
        ensures
            r.wf(),
            r.lh5801 == Lh5801::initial(),
            r.lh5810 == Lh5810::initial(),
            exists|c: ClockReading| c.valid() && r.pd1990ac == Pd1990ac::from_clock_spec(c),
            r@.rom == rom@,
            r@.user == memory::initial_user_memory(program@),
            r@.sys == memory::initial_system_memory(program@.len()),
            r.keyboard.ks == 0,
            r.frame_deadline == TICKS_PER_FRAME,
            forall|k: Key| !r.keyboard.is_down(k),
    {
        let rtc = Pd1990ac::new();
        Self {
            lh5801: Lh5801::new(),
            memory: MemoryBus::new(rom, program),
            keyboard: Keyboard::new(),
            display: DisplayController::new(),
            frame_deadline: TICKS_PER_FRAME,
            lh5810: Lh5810::new(),
            pd1990ac: rtc,
        }
    }

    pub fn read_bit(byte: u8, position: u8) -> (r: bool)
        requires
            position < 8,
        ensures
            r == bit_of(byte, position),
    {
        ((byte >> position) & 0x01) != 0
    }

    #[verifier::rlimit(100)]
    fn listen_opc(&mut self)
        requires
            old(self).wf(),
        ensures
            final(self).wf(),
            final(self)@ == old(self)@.listen_opc(),
    {
        let ts = self.lh5801.timer_state();
        if self.lh5810.new_opc() {
            let t = self.lh5810.get_reg(Reg::OPC);
            self.pd1990ac = Pd1990ac {
                data_in: Self::read_bit(t, 0),
                stb: Self::read_bit(t, 1),
                clk: Self::read_bit(t, 2),
                out_enable: Self::read_bit(t, 3),
                c0: Self::read_bit(t, 3),
                c1: Self::read_bit(t, 4),
                c2: Self::read_bit(t, 5),
                ..self.pd1990ac
            };
            self.pd1990ac.step(ts);
            self.lh5810.set_new_opc(false);
        }
    }

    #[verifier::rlimit(100)]
    fn drive_port_b(&mut self)
        requires
            old(self).wf(),
        ensures
            final(self).wf(),
            final(self)@ == old(self)@.drive_port_b(),
    {
        let ts = self.lh5801.timer_state();
        let tp = self.pd1990ac.get_tp(ts);
        self.lh5810.set_reg_bit(Reg::OPB, 5, tp);
        let d = self.pd1990ac.get_data();
        self.lh5810.set_reg_bit(Reg::OPB, 6, d);
        self.lh5810.set_reg_bit(Reg::OPB, 3, true);
        self.lh5810.set_reg_bit(Reg::OPB, 4, false);
    }

    /// Steps the peripherals at the current machine time.
    fn step(&mut self)
        requires
            old(self).wf(),
        ensures
            final(self).wf(),
            final(self)@ == old(self)@.peripherals_spec(),
    {
        self.listen_opc();
        self.drive_port_b();
        let ts = self.lh5801.timer_state();
        self.lh5810.step(ts);
    }
}

/// The machine after one `run` from `m` that did not fault: a CPU step,
/// then the peripherals; the keyboard strobes follow the LH5810 DDA register
/// and its interrupt line raises IR2.
pub open spec fn run_spec(m: Pc1500View) -> Pc1500View {
    let a = cpu_step::step_spec(m).peripherals_spec();
    let b = Pc1500View { ks: a.io.reg_spec(Reg::DDA), ..a };
    if b.io.int { b.with_cpu(Lh5801 { ir2: true, ..b.cpu }) } else { b }
}

/// Bound on the number of runs in one frame: each run either advances the
/// clock or disables interrupts, so twice the frame length (plus the last
/// instruction's overrun) is enough.
pub open spec fn frame_runs() -> nat {
    30082
}

/// How a frame that ends at tick `deadline` goes on from `m` with at most
/// `fuel` more runs: `Some` of the machine once the deadline is reached,
/// `None` when a run faults first.
pub open spec fn frame_outcome(m: Pc1500View, deadline: int, fuel: nat) -> Option<Pc1500View>
    decreases fuel,
{
    if m.cpu.ticks >= deadline {
        Some(m)
    } else if fuel == 0 {
        Some(m)
    } else if cpu_step::step_fails(m) {
        None
    } else {
        frame_outcome(run_spec(m), deadline, (fuel - 1) as nat)
    }
}

impl Pc1500 {
    /// One CPU step, then the peripherals; the keyboard strobes follow the
    /// LH5810 DDA register, and its interrupt line raises IR2.
    fn run(&mut self) -> (r: Result<(), CpuFault>)
        requires
            old(self).wf(),
            old(self).lh5801.reset_flag ==> old(self).lh5801.timer_state == 0,
            old(self).lh5801.timer_state + 64 <= usize::MAX,
            old(self).lh5801.ticks + 64 <= usize::MAX,
        ensures
            final(self).wf(),
            r is Ok ==> !final(self).lh5801.reset_flag,
            old(self).lh5801.ticks <= final(self).lh5801.ticks <= old(self).lh5801.ticks + 40,
            r is Ok ==> final(self).lh5801.ticks > old(self).lh5801.ticks
                || (old(self).lh5801.ie_spec() && !final(self).lh5801.ie_spec()),
            final(self).lh5801.timer_state <= old(self).lh5801.timer_state + (final(self).lh5801.ticks - old(self).lh5801.ticks),
            r is Err <==> cpu_step::step_fails(old(self)@),
            r is Ok ==> final(self)@ == run_spec(old(self)@),
    {
        self.step_cpu()?;
        self.step();
        let dda = self.lh5810.get_reg(Reg::DDA);
        self.keyboard.set_ks(dda);
        if self.lh5810.int_signal() {
            self.lh5801.set_ir2(true);
        }
        Ok(())
    }

    /// Runs the machine for one frame: until the frame's end tick, then the
    /// end moves on by exactly `TICKS_PER_FRAME`. The last instruction may
    /// overrun the end by a few ticks; the next frame is that much shorter.
    pub fn step_frame(&mut self) -> (r: Result<(), CpuFault>)
        requires
            old(self).wf(),
            old(self).lh5801.reset_flag ==> old(self).lh5801.timer_state == 0,
            frame_headroom(old(self)@),
            old(self).frame_deadline <= old(self).lh5801.ticks + TICKS_PER_FRAME,
            old(self).frame_deadline + TICKS_PER_FRAME <= usize::MAX,
        ensures
            final(self).wf(),
            r is Ok ==> final(self).frame_deadline == old(self).frame_deadline + TICKS_PER_FRAME,
            r is Ok ==> old(self).frame_deadline <= final(self).lh5801.ticks,
            final(self).lh5801.ticks <= if old(self).lh5801.ticks <= old(self).frame_deadline + 40 {
                old(self).frame_deadline + 40
            } else {
                old(self).lh5801.ticks as int
            },
            r is Ok && final(self).lh5801.ticks > old(self).lh5801.ticks ==> !final(self).lh5801.reset_flag,
            final(self).lh5801.timer_state <= old(self).lh5801.timer_state + (final(self).lh5801.ticks - old(self).lh5801.ticks),
            r is Ok <==> frame_outcome(old(self)@, old(self).frame_deadline as int, frame_runs()) is Some,
            r is Ok ==> final(self)@ == frame_outcome(old(self)@, old(self).frame_deadline as int, frame_runs())->0,
    {
        let start = self.lh5801.get_ticks();
        let deadline = self.frame_deadline;
        let ghost ts0 = self.lh5801.timer_state;
        let ghost mut fuel: nat = frame_runs();
        while self.lh5801.get_ticks() < deadline
            invariant
                self.wf(),
                start == old(self).lh5801.ticks,
                deadline == old(self).frame_deadline,
                deadline <= start + TICKS_PER_FRAME,
                ts0 == old(self).lh5801.timer_state,
                frame_headroom(old(self)@),
                start <= self.lh5801.ticks,
                self.lh5801.ticks > start ==> self.lh5801.ticks <= deadline + 40,
                self.lh5801.timer_state <= ts0 + (self.lh5801.ticks - start),
                self.lh5801.reset_flag ==> self.lh5801.timer_state == 0,
                self.lh5801.ticks > start ==> !self.lh5801.reset_flag,
                fuel >= 2 * (deadline + 40 - self.lh5801.ticks) + (if self.lh5801.ie_spec() { 1int } else { 0int }),
                frame_outcome(self@, deadline as int, fuel) == frame_outcome(old(self)@, deadline as int, frame_runs()),
            decreases deadline + 40 - self.lh5801.ticks, (if self.lh5801.ie_spec() { 1int } else { 0int }),
        {
            let ghost before = self@;
            let r = self.run();
            if r.is_err() {
                assert(frame_outcome(before, deadline as int, fuel) is None);
                return r;
            }
            proof { fuel = (fuel - 1) as nat; }
        }
        self.frame_deadline = deadline + TICKS_PER_FRAME;
        Ok(())
    }

    /// The tick at which the current frame ends.
    pub fn frame_deadline(&self) -> (r: usize)
        ensures
            r == self.frame_deadline,
    {
        self.frame_deadline
    }

    /// The CPU, for inspecting its registers.
    pub fn cpu(&self) -> (r: &Lh5801)
        ensures
            *r == self.lh5801,
    {
        &self.lh5801
    }

    pub fn press(&mut self, key: Key)
        requires
            old(self).wf(),
        ensures
            final(self).wf(),
            final(self).keyboard.is_down(key),
            final(self)@.keys == old(self)@.keys.update(keyboard::key_index(key), true),
            forall|k: Key| k != key ==> final(self).keyboard.is_down(k) == old(self).keyboard.is_down(k),
            final(self)@ == (Pc1500View { keys: final(self)@.keys, ..old(self)@ }),
    {
        self.keyboard.press(key);
    }

    pub fn release(&mut self, key: Key)
        requires
            old(self).wf(),
        ensures
            final(self).wf(),
            !final(self).keyboard.is_down(key),
            final(self)@.keys == old(self)@.keys.update(keyboard::key_index(key), false),
            forall|k: Key| k != key ==> final(self).keyboard.is_down(k) == old(self).keyboard.is_down(k),
            final(self)@ == (Pc1500View { keys: final(self)@.keys, ..old(self)@ }),
    {
        self.keyboard.release(key);
    }
}

/// The machine after the CPU writes `code` byte by byte at `addr`,
/// `addr + 1`, ... in order.
pub open spec fn write_code(m: Pc1500View, addr: int, code: Seq<u8>) -> Pc1500View
    decreases code.len(),
{
    if code.len() == 0 {
        m
    } else {
        write_code(m, addr, code.drop_last()).mem_write((addr + code.len() - 1) as u32, code.last())
    }
}

/// Whether `a` is a byte of the standard user RAM.
pub open spec fn in_user_ram(a: int) -> bool {
    memory::STANDARD_USER_MEMORY_BEGIN <= a <= memory::STANDARD_USER_MEMORY_END
}

/// Whether a program of `len` bytes may be loaded at `load_address`: the
/// whole range lies in user memory (0x3800-0x5FFF).
pub open spec fn load_fits(load_address: u16, len: int) -> bool {
    0x3800 <= load_address <= 0x5FFF && load_address + len <= 0x6000
}

impl Pc1500 {
    /// Loads a program: checks that it fits in user memory (0x3800-0x5FFF),
    /// writes it at its load address through the memory map, and points P at
    /// the load address. Only 0x4000-0x57FF is RAM: bytes aimed at
    /// 0x3800-0x3FFF or 0x5800-0x5FFF are not stored, and those addresses
    /// keep reading the unmapped value.
    pub fn load_program(&mut self, load_address: u16, code: &Vec<u8>) -> (r: Result<(), Lh5LoadError>)
        requires
            old(self).wf(),
            code@.len() <= usize::MAX - 0x10000,
        ensures
            final(self).wf(),
            r is Ok <==> load_fits(load_address, code@.len() as int),
            (load_address < 0x3800 || load_address > 0x5FFF) <==> r matches Err(Lh5LoadError::InvalidLoadAddress),
            (0x3800 <= load_address <= 0x5FFF && load_address + code@.len() > 0x6000)
                <==> r matches Err(Lh5LoadError::CodeTooLarge),
            r is Err ==> final(self)@ == old(self)@,
            r is Ok ==> ({
                let w = write_code(old(self)@, load_address as int, code@);
                final(self)@ == w.with_cpu(Lh5801 { p: load_address, ..w.cpu })
            }),
            r is Ok ==> final(self).lh5801 == (Lh5801 { p: load_address, ..old(self).lh5801 }),
            r is Ok ==> forall|j: int| 0 <= j < code@.len() && in_user_ram(load_address + j)
                ==> final(self)@.mem_read((load_address + j) as u32) == code@[j],
            r is Ok ==> forall|a: int| load_address <= a < load_address + code@.len() && !#[trigger] in_user_ram(a)
                ==> final(self)@.mem_read(a as u32) == memory::INITIAL_VALUE,
    {
        validate_load_parameters(load_address, code.len())?;
        let mut i: usize = 0;
        while i < code.len()
            invariant
                self.wf(),
                0 <= i <= code@.len(),
                load_fits(load_address, code@.len() as int),
                self.lh5801 == old(self).lh5801,
                self@ == write_code(old(self)@, load_address as int, code@.take(i as int)),
                forall|j: int| 0 <= j < i && in_user_ram(load_address + j)
                    ==> self@.mem_read((load_address + j) as u32) == code@[j],
            decreases code@.len() - i,
        {
            let a: u32 = load_address as u32 + i as u32;
            let ghost before = self@;
            self.write_byte(a, code[i]);
            proof {
                assert(code@.take(i + 1).drop_last() =~= code@.take(i as int));
                assert(code@.take(i + 1).last() == code@[i as int]);
                memory::lemma_mirror_range(a);
                assert forall|j: int| 0 <= j < i + 1 && in_user_ram(load_address + j)
                    implies self@.mem_read((load_address + j) as u32) == code@[j] by {
                    let other = (load_address + j) as u32;
                    memory::lemma_mirror_range(other);
                    if j == i {
                        assert(memory::read_port(a).is_none() && memory::write_port(a).is_none());
                        assert(before.mem_write(a, code@[j]).mem_read(a) == code@[j]);
                    } else if in_user_ram(a as int) {
                        memory::lemma_ram_read_after_write(before, a, other, code@[i as int]);
                    } else {
                        assert(before.mem_write(a, code@[i as int]) == before);
                    }
                }
            }
            i = i + 1;
        }
        proof { assert(code@.take(code@.len() as int) =~= code@); }
        self.lh5801.set_pc(load_address);
        Ok(())
    }
}

} // verus!
