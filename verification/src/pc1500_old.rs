// The first, minimal PC-1500 model: an 8-bit register view of the CPU, a
// 156-byte display buffer and an 8x8 keyboard matrix.
use vstd::prelude::*;

verus! {

#[derive(Debug)]
pub struct Lh5801Cpu {
    pub a: u8,
    pub x: u8,
    pub y: u8,
    pub s: u8,
    pub p: u16,
    pub u: u16,
    pub flags: u8,
    pub is_halted: bool,
    pub interrupt_enabled: bool,
}

impl Default for Lh5801Cpu {
    fn default() -> (r: Self)
        ensures
            r == (Lh5801Cpu { a: 0, x: 0, y: 0, s: 0, p: 0, u: 0, flags: 0, is_halted: false, interrupt_enabled: false }),
    {
        Lh5801Cpu { a: 0, x: 0, y: 0, s: 0, p: 0, u: 0, flags: 0, is_halted: false, interrupt_enabled: false }
    }
}

impl Lh5801Cpu {
    pub fn a(&self) -> (r: u8)
        ensures
            r == self.a,
    {
        self.a
    }

    pub fn x(&self) -> (r: u8)
        ensures
            r == self.x,
    {
        self.x
    }

    pub fn y(&self) -> (r: u8)
        ensures
            r == self.y,
    {
        self.y
    }

    pub fn s(&self) -> (r: u8)
        ensures
            r == self.s,
    {
        self.s
    }

    pub fn p(&self) -> (r: u16)
        ensures
            r == self.p,
    {
        self.p
    }

    pub fn u(&self) -> (r: u16)
        ensures
            r == self.u,
    {
        self.u
    }

    pub fn flags(&self) -> (r: u8)
        ensures
            r == self.flags,
    {
        self.flags
    }

    pub fn is_halted(&self) -> (r: bool)
        ensures
            r == self.is_halted,
    {
        self.is_halted
    }
}

pub const DISPLAY_WIDTH: usize = 156;
pub const DISPLAY_HEIGHT: usize = 8;
pub const DISPLAY_BYTES: usize = 156;

#[derive(Debug)]
pub struct Pc1500Display {
    /// One byte per column; bit 7 is the top dot.
    pub buffer: Vec<u8>,
    pub contrast: u8,
    pub enabled: bool,
}

/// The RGBA quadruple of a dot: black when on, white when off, opaque.
pub open spec fn dot_rgba(on: bool, k: int) -> u8 {
    if k == 3 { 0xFF } else if on { 0x00 } else { 0xFF }
}

impl Default for Pc1500Display {
    fn default() -> (r: Self)
        ensures
            r.buffer@.len() == DISPLAY_BYTES,
            forall|i: int| 0 <= i < DISPLAY_BYTES ==> r.buffer@[i] == 0,
            r.contrast == 0,
            !r.enabled,
    {
        let mut b: Vec<u8> = Vec::new();
        let mut i: usize = 0;
        while i < DISPLAY_BYTES
            invariant
                i <= DISPLAY_BYTES,
                b@.len() == i,
                forall|j: int| 0 <= j < i ==> b@[j] == 0,
            decreases DISPLAY_BYTES - i,
        {
            b.push(0);
            i = i + 1;
        }
        Pc1500Display { buffer: b, contrast: 0, enabled: false }
    }
}

impl Pc1500Display {
    pub open spec fn wf(&self) -> bool {
        self.buffer@.len() == DISPLAY_BYTES
    }

    /// A display byte; addresses past the buffer read 0xFF.
    pub fn read_display_data(&self, addr: u8) -> (r: u8)
        requires
            self.wf(),
        ensures
            r == (if addr < 156 { self.buffer@[addr as int] } else { 0xFF }),
    {
        if addr < 156 {
            self.buffer[addr as usize]
        } else {
            0xFF
        }
    }

    /// Writes a display byte; addresses past the buffer are ignored.
    pub fn write_display_data(&mut self, addr: u8, val: u8)
        requires
            old(self).wf(),
        ensures
            final(self).wf(),
            final(self).contrast == old(self).contrast,
            final(self).enabled == old(self).enabled,
            addr < 156 ==> final(self).buffer@ == old(self).buffer@.update(addr as int, val),
            addr >= 156 ==> final(self).buffer@ == old(self).buffer@,
    {
        if addr < 156 {
            self.buffer.set(addr as usize, val);
        }
    }

    /// The buffer as RGBA: for each byte, its eight dots from bit 7 down to
    /// bit 0, black when set, white when clear.
    pub fn get_pixel_data_rgba(&self) -> (r: Vec<u8>)
        requires
            self.wf(),
        ensures
            r@.len() == DISPLAY_BYTES * 32,
            forall|i: int, bit: int, k: int| 0 <= i < DISPLAY_BYTES && 0 <= bit < 8 && 0 <= k < 4
                ==> #[trigger] r@[i * 32 + bit * 4 + k] == dot_rgba((self.buffer@[i] >> ((7 - bit) as u8)) & 1 != 0, k),
    {
        let mut rgba_data: Vec<u8> = Vec::new();
        let mut i: usize = 0;
        while i < DISPLAY_BYTES
            invariant
                self.wf(),
                i <= DISPLAY_BYTES,
                rgba_data@.len() == i * 32,
                forall|i2: int, bit: int, k: int| 0 <= i2 < i && 0 <= bit < 8 && 0 <= k < 4
                    ==> #[trigger] rgba_data@[i2 * 32 + bit * 4 + k] == dot_rgba((self.buffer@[i2] >> ((7 - bit) as u8)) & 1 != 0, k),
            decreases DISPLAY_BYTES - i,
        {
            let byte = self.buffer[i];
            let mut bit: usize = 0;
            while bit < 8
                invariant
                    self.wf(),
                    i < DISPLAY_BYTES,
                    byte == self.buffer@[i as int],
                    bit <= 8,
                    rgba_data@.len() == i * 32 + bit * 4,
                    forall|i2: int, b2: int, k: int| ((0 <= i2 < i && 0 <= b2 < 8) || (i2 == i && 0 <= b2 < bit)) && 0 <= k < 4
                        ==> #[trigger] rgba_data@[i2 * 32 + b2 * 4 + k] == dot_rgba((self.buffer@[i2] >> ((7 - b2) as u8)) & 1 != 0, k),
                decreases 8 - bit,
            {
                let sh = (7 - bit) as u8;
                let pixel_on = (byte >> sh) & 1 != 0;
                let color: u8 = if pixel_on { 0x00 } else { 0xFF };
                let ghost before = rgba_data@;
                rgba_data.push(color);
                rgba_data.push(color);
                rgba_data.push(color);
                rgba_data.push(0xFF);
                assert forall|i2: int, b2: int, k: int| ((0 <= i2 < i && 0 <= b2 < 8) || (i2 == i && 0 <= b2 < bit + 1)) && 0 <= k < 4
                    implies #[trigger] rgba_data@[i2 * 32 + b2 * 4 + k] == dot_rgba((self.buffer@[i2] >> ((7 - b2) as u8)) & 1 != 0, k) by {
                    assert(0 <= i2 * 32 + b2 * 4 + k) by (nonlinear_arith)
                        requires 0 <= i2, 0 <= b2, 0 <= k;
                    if i2 == i && b2 == bit {
                        assert(i2 * 32 + b2 * 4 + k == before.len() + k);
                    } else {
                        assert(i2 * 32 + b2 * 4 + k < before.len()) by (nonlinear_arith)
                            requires ((0 <= i2 < i && 0 <= b2 < 8) || (i2 == i && 0 <= b2 < bit)), 0 <= k < 4,
                                before.len() == i * 32 + bit * 4;
                    }
                }
                bit = bit + 1;
            }
            i = i + 1;
        }
        rgba_data
    }
}

#[derive(Debug)]
pub struct Pc1500Keyboard {
    /// One byte per row; bit `c` is key (row, c).
    pub matrix: Vec<u8>,
    pub current_row: u8,
}

impl Default for Pc1500Keyboard {
    fn default() -> (r: Self)
        ensures
            r.matrix@.len() == 8,
            forall|i: int| 0 <= i < 8 ==> r.matrix@[i] == 0,
            r.current_row == 0,
    {
        let mut m: Vec<u8> = Vec::new();
        let mut i: usize = 0;
        while i < 8
            invariant
                i <= 8,
                m@.len() == i,
                forall|j: int| 0 <= j < i ==> m@[j] == 0,
            decreases 8 - i,
        {
            m.push(0);
            i = i + 1;
        }
        Pc1500Keyboard { matrix: m, current_row: 0 }
    }
}

impl Pc1500Keyboard {
    pub open spec fn wf(&self) -> bool {
        self.matrix@.len() == 8
    }

    /// Sets key (row, col); keys outside the 8x8 matrix are ignored.
    pub fn set_key_state(&mut self, row: u8, col: u8, pressed: bool)
        requires
            old(self).wf(),
        ensures
            final(self).wf(),
            final(self).current_row == old(self).current_row,
            row < 8 && col < 8 ==> final(self).matrix@ == old(self).matrix@.update(row as int,
                if pressed { old(self).matrix@[row as int] | (1u8 << col) } else { old(self).matrix@[row as int] & !(1u8 << col) }),
            !(row < 8 && col < 8) ==> final(self).matrix@ == old(self).matrix@,
    {
        if row < 8 && col < 8 {
            let cur = self.matrix[row as usize];
            let v = if pressed { cur | (1u8 << col) } else { cur & !(1u8 << col) };
            self.matrix.set(row as usize, v);
        }
    }

    /// The keys of the selected row.
    pub fn read_current_row(&self) -> (r: u8)
        requires
            self.wf(),
        ensures
            r == (if self.current_row < 8 { self.matrix@[self.current_row as int] } else { 0xFF }),
    {
        if self.current_row < 8 {
            self.matrix[self.current_row as usize]
        } else {
            0xFF
        }
    }

    /// Selects a row (only the low three bits count).
    pub fn set_row_select(&mut self, row: u8)
        requires
            old(self).wf(),
        ensures
            final(self).wf(),
            final(self).matrix@ == old(self).matrix@,
            final(self).current_row == row & 0x07,
    {
        self.current_row = row & 0x07;
    }
}

/// Models of this first PC-1500 machine.
#[derive(Debug, Clone, Copy, PartialEq, Eq, Structural)]
pub enum Pc1500Model {
    /// The PC-1500, with 2 KB of RAM.
    Pc1500,
    /// The PC-1500A, with 8 KB of RAM.
    Pc1500A,
}

impl Default for Pc1500Model {
    fn default() -> (r: Self)
        ensures
            r == Pc1500Model::Pc1500,
    {
        Pc1500Model::Pc1500
    }
}

/// Bytes of RAM of a model.
pub open spec fn ram_size(model: Pc1500Model) -> int {
    match model {
        Pc1500Model::Pc1500 => 2048,
        Pc1500Model::Pc1500A => 8192,
    }
}

// The memory map of this machine.
pub const ROM_START: u16 = 0x0000;
pub const ROM_END: u16 = 0x7FFF;
pub const RAM_START: u16 = 0x8000;
pub const RAM_END: u16 = 0x87FF;
pub const RAM_END_A: u16 = 0x9FFF;
pub const DISPLAY_RAM_START_1: u16 = 0x7600;
pub const DISPLAY_RAM_END_1: u16 = 0x764F;
pub const DISPLAY_RAM_START_2: u16 = 0x7700;
pub const DISPLAY_RAM_END_2: u16 = 0x774F;
pub const IO_START: u16 = 0xFC00;
pub const IO_END: u16 = 0xFFFF;
pub const KEYBOARD_DATA: u16 = 0xFC00;
pub const KEYBOARD_SELECT: u16 = 0xFC01;
pub const DISPLAY_CTRL: u16 = 0xFC10;
pub const TIMER_CTRL: u16 = 0xFC20;
pub const INTERRUPT_CTRL: u16 = 0xFC30;

/// The machine: register view of the CPU, RAM, ROM image, display, keyboard
/// and the cycles run.
#[derive(Debug)]
pub struct Pc1500 {
    pub model: Pc1500Model,
    pub cpu: Lh5801Cpu,
    pub ram: Vec<u8>,
    pub rom: Vec<u8>,
    pub display: Pc1500Display,
    pub keyboard: Pc1500Keyboard,
    pub cycles_run: u64,
}

impl Pc1500 {
    pub open spec fn wf(&self) -> bool {
        &&& self.ram@.len() == ram_size(self.model)
        &&& self.display.wf()
        &&& self.keyboard.wf()
    }

    /// What the CPU reads at `addr`: ROM image (0xFF past its end) up to
    /// 0x7FFF, RAM from 0x8000 to 0x87FF (0xFF past the model's RAM), the
    /// keyboard row at 0xFC00, 0xFF elsewhere. The ROM range covers the
    /// display RAM, so display bytes are not readable here.
    pub open spec fn mem_spec(&self, addr: u16) -> u8 {
        if addr <= ROM_END {
            if (addr as int) < self.rom@.len() { self.rom@[addr as int] } else { 0xFF }
        } else if RAM_START <= addr <= RAM_END {
            if addr - RAM_START < self.ram@.len() { self.ram@[addr - RAM_START] } else { 0xFF }
        } else if addr == KEYBOARD_DATA {
            if self.keyboard.current_row < 8 { self.keyboard.matrix@[self.keyboard.current_row as int] } else { 0xFF }
        } else {
            0xFF
        }
    }

    /// A machine of the given model over a ROM image; RAM cleared.
    pub fn new(model: Pc1500Model, rom: Vec<u8>) -> (r: Self)
        ensures
            r.wf(),
            r.model == model,
            r.rom@ == rom@,
            forall|i: int| 0 <= i < r.ram@.len() ==> r.ram@[i] == 0,
            r.cpu == (Lh5801Cpu { a: 0, x: 0, y: 0, s: 0, p: 0, u: 0, flags: 0, is_halted: false, interrupt_enabled: false }),
            r.cycles_run == 0,
    {
        let ram_size: usize = match model {
            Pc1500Model::Pc1500 => 2048,
            Pc1500Model::Pc1500A => 8192,
        };
        let mut ram: Vec<u8> = Vec::new();
        let mut i: usize = 0;
        while i < ram_size
            invariant
                i <= ram_size,
                ram@.len() == i,
                forall|j: int| 0 <= j < i ==> ram@[j] == 0,
            decreases ram_size - i,
        {
            ram.push(0);
            i = i + 1;
        }
        Pc1500 {
            model,
            cpu: Lh5801Cpu::default(),
            ram,
            rom,
            display: Pc1500Display::default(),
            keyboard: Pc1500Keyboard::default(),
            cycles_run: 0,
        }
    }

    pub fn cpu(&self) -> (r: &Lh5801Cpu)
        ensures
            *r == self.cpu,
    {
        &self.cpu
    }

    pub fn display(&self) -> (r: &Pc1500Display)
        ensures
            *r == self.display,
    {
        &self.display
    }

    pub fn keyboard(&self) -> (r: &Pc1500Keyboard)
        ensures
            *r == self.keyboard,
    {
        &self.keyboard
    }

    /// The display as RGBA pixels.
    pub fn get_display_rgba(&self) -> (r: Vec<u8>)
        requires
            self.wf(),
        ensures
            r@.len() == DISPLAY_BYTES * 32,
            forall|i: int, bit: int, k: int| 0 <= i < DISPLAY_BYTES && 0 <= bit < 8 && 0 <= k < 4
                ==> #[trigger] r@[i * 32 + bit * 4 + k] == dot_rgba((self.display.buffer@[i] >> ((7 - bit) as u8)) & 1 != 0, k),
    {
        self.display.get_pixel_data_rgba()
    }

    /// Reads the byte at `addr` (see `mem_spec`).
    pub fn read_mem(&self, addr: u16) -> (r: u8)
        requires
            self.wf(),
        ensures
            r == self.mem_spec(addr),
    {
        if addr <= ROM_END {
            if (addr as usize) < self.rom.len() {
                self.rom[addr as usize]
            } else {
                0xFF
            }
        } else if RAM_START <= addr && addr <= RAM_END {
            let ram_addr = (addr - RAM_START) as usize;
            if ram_addr < self.ram.len() {
                self.ram[ram_addr]
            } else {
                0xFF
            }
        } else if addr == KEYBOARD_DATA {
            self.keyboard.read_current_row()
        } else {
            0xFF
        }
    }

    /// Writes the byte at `addr`: RAM from 0x8000 to 0x87FF (within the
    /// model's RAM), the first display RAM section 0x7600-0x764F, the row
    /// select at 0xFC01; ROM and unmapped writes are ignored.
    pub fn write_mem(&mut self, addr: u16, val: u8)
        requires
            old(self).wf(),
        ensures
            final(self).wf(),
            final(self).cpu == old(self).cpu,
            final(self).rom@ == old(self).rom@,
            final(self).cycles_run == old(self).cycles_run,
            RAM_START <= addr <= RAM_END && addr - RAM_START < old(self).ram@.len()
                ==> final(self).ram@ == old(self).ram@.update(addr - RAM_START, val),
            !(RAM_START <= addr <= RAM_END && addr - RAM_START < old(self).ram@.len())
                ==> final(self).ram@ == old(self).ram@,
            DISPLAY_RAM_START_1 <= addr <= DISPLAY_RAM_END_1
                ==> final(self).display.buffer@ == old(self).display.buffer@.update(addr - DISPLAY_RAM_START_1, val),
            !(DISPLAY_RAM_START_1 <= addr <= DISPLAY_RAM_END_1) ==> final(self).display.buffer@ == old(self).display.buffer@,
            addr == KEYBOARD_SELECT ==> final(self).keyboard.current_row == val & 0x07,
            addr != KEYBOARD_SELECT ==> final(self).keyboard.current_row == old(self).keyboard.current_row,
            final(self).keyboard.matrix@ == old(self).keyboard.matrix@,
    {
        if RAM_START <= addr && addr <= RAM_END {
            let ram_addr = (addr - RAM_START) as usize;
            if ram_addr < self.ram.len() {
                self.ram.set(ram_addr, val);
            }
        } else if DISPLAY_RAM_START_1 <= addr && addr <= DISPLAY_RAM_END_1 {
            let display_addr = (addr - DISPLAY_RAM_START_1) as u8;
            self.display.write_display_data(display_addr, val);
        } else if addr == KEYBOARD_SELECT {
            self.keyboard.set_row_select(val);
        }
    }

    /// One step: one cycle counted. Returns the cycles taken.
    pub fn step(&mut self) -> (r: u64)
        requires
            old(self).cycles_run < u64::MAX,
        ensures
            r == 1,
            final(self).cycles_run == old(self).cycles_run + 1,
            final(self).cpu == old(self).cpu,
            final(self).ram@ == old(self).ram@,
            final(self).model == old(self).model,
    {
        self.cycles_run = self.cycles_run + 1;
        1
    }

    /// CPU registers cleared and the cycle count back to zero; RAM and
    /// display keep their contents.
    pub fn reset(&mut self)
        ensures
            final(self).cpu == (Lh5801Cpu { a: 0, x: 0, y: 0, s: 0, p: 0, u: 0, flags: 0, is_halted: false, interrupt_enabled: false }),
            final(self).cycles_run == 0,
            final(self).ram@ == old(self).ram@,
            final(self).rom@ == old(self).rom@,
            final(self).model == old(self).model,
    {
        self.cpu = Lh5801Cpu::default();
        self.cycles_run = 0;
    }
}

/// Builds a machine of a chosen model, optionally with a ROM image.
pub struct Pc1500Builder {
    pub model: Pc1500Model,
    pub bios: Option<Vec<u8>>,
}

impl Pc1500Builder {
    pub fn new() -> (r: Self)
        ensures
            r.model == Pc1500Model::Pc1500,
            r.bios is None,
    {
        Pc1500Builder { model: Pc1500Model::Pc1500, bios: None }
    }

    pub fn model(self, model: Pc1500Model) -> (r: Self)
        ensures
            r.model == model,
            r.bios == self.bios,
    {
        Pc1500Builder { model, ..self }
    }

    pub fn bios(self, bios_rom: Vec<u8>) -> (r: Self)
        ensures
            r.model == self.model,
            r.bios == Some(bios_rom),
    {
        Pc1500Builder { bios: Some(bios_rom), ..self }
    }

    /// The machine over the given ROM image, or over an empty one.
    pub fn build(self) -> (r: Pc1500)
        ensures
            r.wf(),
            r.model == self.model,
            r.cycles_run == 0,
            self.bios is Some ==> r.rom@ == self.bios->0@,
            self.bios is None ==> r.rom@.len() == 0,
    {
        match self.bios {
            Some(rom) => Pc1500::new(self.model, rom),
            None => Pc1500::new(self.model, Vec::new()),
        }
    }
}

} // verus!
