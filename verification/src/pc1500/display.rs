// Display controller with its own 160-byte video RAM: bits 0-6 of byte x are
// the seven dots of LCD column x.
use vstd::prelude::*;
use crate::display::{DISPLAY_WIDTH, DISPLAY_HEIGHT, RGBA_SIZE, pixel_is, same_pixel};
use crate::lcd::put_pixel;
use vstd::string::{StrSliceExecFns, StringSliceAdditionalSpecFns};

verus! {

pub const DISPLAY_BYTES: usize = 160;

pub open spec fn bit_set(b: u8, i: int) -> bool {
    (b >> (i as u8)) & 1 != 0
}

#[derive(Debug, Clone)]
pub struct DisplayController {
    pub vram: Vec<u8>,
    pub rgba_buffer: Vec<u8>,
    pub contrast: u8,
    pub enabled: bool,
    pub dirty: bool,
}

impl DisplayController {
    pub open spec fn wf(&self) -> bool {
        &&& self.vram@.len() == DISPLAY_BYTES
        &&& self.rgba_buffer@.len() == RGBA_SIZE
    }

    /// Whether dot (x, y) is on in video RAM.
    pub open spec fn pixel(&self, x: int, y: int) -> bool {
        0 <= x < DISPLAY_WIDTH && 0 <= y < DISPLAY_HEIGHT && bit_set(self.vram@[x], y)
    }

    /// Gray level of dot (x, y) in the rendered frame: the contrast when on
    /// and the display is enabled, black otherwise.
    pub open spec fn level(&self, x: int, y: int) -> u8 {
        if self.pixel(x, y) && self.enabled { self.contrast } else { 0 }
    }

    /// Blank video RAM and frame, contrast 0x80, display enabled, frame due.
    pub fn new() -> (r: Self)
        ensures
            r.wf(),
            forall|i: int| 0 <= i < DISPLAY_BYTES ==> r.vram@[i] == 0,
            forall|i: int| 0 <= i < RGBA_SIZE ==> r.rgba_buffer@[i] == 0,
            r.contrast == 0x80,
            r.enabled,
            r.dirty,
    {
        let mut vram: Vec<u8> = Vec::new();
        let mut i: usize = 0;
        while i < DISPLAY_BYTES
            invariant
                i <= DISPLAY_BYTES,
                vram@.len() == i,
                forall|j: int| 0 <= j < i ==> vram@[j] == 0,
            decreases DISPLAY_BYTES - i,
        {
            vram.push(0);
            i = i + 1;
        }
        let mut rgba: Vec<u8> = Vec::new();
        let mut k: usize = 0;
        while k < RGBA_SIZE
            invariant
                k <= RGBA_SIZE,
                rgba@.len() == k,
                forall|j: int| 0 <= j < k ==> rgba@[j] == 0,
            decreases RGBA_SIZE - k,
        {
            rgba.push(0);
            k = k + 1;
        }
        Self { vram, rgba_buffer: rgba, contrast: 0x80, enabled: true, dirty: true }
    }

    /// A video RAM byte; outside the 160 bytes reads 0xFF.
    pub fn read_vram(&self, offset: u16) -> (r: u8)
        requires
            self.wf(),
        ensures
            r == (if (offset as int) < DISPLAY_BYTES { self.vram@[offset as int] } else { 0xFF }),
    {
        let offset = offset as usize;
        if offset < DISPLAY_BYTES {
            self.vram[offset]
        } else {
            0xFF
        }
    }

    /// Writes a video RAM byte; outside the 160 bytes nothing happens.
    pub fn write_vram(&mut self, offset: u16, value: u8)
        requires
            old(self).wf(),
        ensures
            final(self).wf(),
            final(self).rgba_buffer@ == old(self).rgba_buffer@,
            final(self).contrast == old(self).contrast,
            final(self).enabled == old(self).enabled,
            (offset as int) < DISPLAY_BYTES ==> final(self).vram@ == old(self).vram@.update(offset as int, value)
                && final(self).dirty,
            (offset as int) >= DISPLAY_BYTES ==> final(self).vram@ == old(self).vram@ && final(self).dirty == old(self).dirty,
    {
        let offset = offset as usize;
        if offset < DISPLAY_BYTES {
            self.vram.set(offset, value);
            self.dirty = true;
        }
    }

    /// Turns dot (x, y) on or off; dots outside the display are ignored.
    pub fn set_pixel(&mut self, x: usize, y: usize, value: bool)
        requires
            old(self).wf(),
        ensures
            final(self).wf(),
            final(self).rgba_buffer@ == old(self).rgba_buffer@,
            final(self).contrast == old(self).contrast,
            final(self).enabled == old(self).enabled,
            x < DISPLAY_WIDTH && y < DISPLAY_HEIGHT ==> final(self).pixel(x as int, y as int) == value && final(self).dirty
                && final(self).vram@ == old(self).vram@.update(x as int,
                    if value { old(self).vram@[x as int] | (1u8 << (y as u8)) } else { old(self).vram@[x as int] & !(1u8 << (y as u8)) }),
            !(x < DISPLAY_WIDTH && y < DISPLAY_HEIGHT) ==> final(self).vram@ == old(self).vram@ && final(self).dirty == old(self).dirty,
    {
        if x < DISPLAY_WIDTH && y < DISPLAY_HEIGHT && x < DISPLAY_BYTES {
            let cur = self.vram[x];
            let yb = y as u8;
            let nv = if y < 4 {
                if value { cur | (1u8 << yb) } else { cur & !(1u8 << yb) }
            } else {
                let dot_bit: u8 = 4 + (yb - 4);
                if value { cur | (1u8 << dot_bit) } else { cur & !(1u8 << dot_bit) }
            };
            proof {
                assert(yb < 7 ==> (((cur | (1u8 << yb)) >> yb) & 1 != 0) && (((cur & !(1u8 << yb)) >> yb) & 1 == 0)) by (bit_vector);
                assert((y as u8) as int == y);
            }
            self.vram.set(x, nv);
            self.dirty = true;
        }
    }

    /// Whether dot (x, y) is on; dots outside the display read as off.
    pub fn get_pixel(&self, x: usize, y: usize) -> (r: bool)
        requires
            self.wf(),
        ensures
            r == self.pixel(x as int, y as int),
    {
        if x < DISPLAY_WIDTH && y < DISPLAY_HEIGHT && x < DISPLAY_BYTES {
            let yb = y as u8;
            let v0 = self.vram[x];
            proof { assert(yb < 8 ==> ((v0 & (1u8 << yb)) != 0) == ((v0 >> yb) & 1 != 0)) by (bit_vector); }
            if y < 4 {
                (self.vram[x] & (1u8 << yb)) != 0
            } else if y < 7 {
                let dot_bit: u8 = 4 + (yb - 4);
                let v = self.vram[x];
                proof { assert(dot_bit < 8 ==> ((v & (1u8 << dot_bit)) != 0) == ((v >> dot_bit) & 1 != 0)) by (bit_vector); }
                (self.vram[x] & (1u8 << dot_bit)) != 0
            } else {
                false
            }
        } else {
            false
        }
    }

    /// Draws dot (x, y) of the frame at gray level `v`.
    fn render_dot(&mut self, x: usize, y: usize, v: u8)
        requires
            old(self).wf(),
            x < DISPLAY_WIDTH,
            y < DISPLAY_HEIGHT,
        ensures
            final(self).wf(),
            final(self).vram@ == old(self).vram@,
            final(self).contrast == old(self).contrast,
            final(self).enabled == old(self).enabled,
            final(self).dirty == old(self).dirty,
            pixel_is(final(self).rgba_buffer@, x as int, y as int, v),
            forall|x2: int, y2: int| 0 <= x2 < DISPLAY_WIDTH && 0 <= y2 < DISPLAY_HEIGHT && (x2 != x || y2 != y)
                ==> #[trigger] same_pixel(final(self).rgba_buffer@, old(self).rgba_buffer@, x2, y2),
    {
        put_pixel(&mut self.rgba_buffer, x, y, v);
    }

    /// Renders video RAM into the frame when it changed: every dot at its
    /// `level`, opaque.
    #[verifier::rlimit(50)]
    pub fn update_rgba_buffer(&mut self)
        requires
            old(self).wf(),
        ensures
            final(self).wf(),
            final(self).vram@ == old(self).vram@,
            final(self).contrast == old(self).contrast,
            final(self).enabled == old(self).enabled,
            !final(self).dirty,
            !old(self).dirty ==> final(self).rgba_buffer@ == old(self).rgba_buffer@,
            old(self).dirty ==> forall|x: int, y: int| 0 <= x < DISPLAY_WIDTH && 0 <= y < DISPLAY_HEIGHT
                ==> #[trigger] pixel_is(final(self).rgba_buffer@, x, y, old(self).level(x, y)),
    {
        if !self.dirty {
            return;
        }
        let ghost s0 = *self;
        let mut x: usize = 0;
        while x < DISPLAY_WIDTH
            invariant
                self.wf(),
                self.vram@ == s0.vram@,
                self.contrast == s0.contrast,
                self.enabled == s0.enabled,
                self.dirty == s0.dirty,
                x <= DISPLAY_WIDTH,
                forall|x2: int, y2: int| 0 <= x2 < x && 0 <= y2 < DISPLAY_HEIGHT
                    ==> #[trigger] pixel_is(self.rgba_buffer@, x2, y2, s0.level(x2, y2)),
            decreases DISPLAY_WIDTH - x,
        {
            let byte_value = self.vram[x];
            let mut y: usize = 0;
            while y < DISPLAY_HEIGHT
                invariant
                    self.wf(),
                    self.vram@ == s0.vram@,
                    self.contrast == s0.contrast,
                    self.enabled == s0.enabled,
                    self.dirty == s0.dirty,
                    x < DISPLAY_WIDTH,
                    byte_value == s0.vram@[x as int],
                    y <= DISPLAY_HEIGHT,
                    forall|x2: int, y2: int| ((0 <= x2 < x && 0 <= y2 < DISPLAY_HEIGHT) || (x2 == x && 0 <= y2 < y))
                        ==> #[trigger] pixel_is(self.rgba_buffer@, x2, y2, s0.level(x2, y2)),
                decreases DISPLAY_HEIGHT - y,
            {
                let yb = y as u8;
                let on = if y < 4 {
                    ((byte_value & 0x0F) & (1u8 << yb)) != 0
                } else {
                    (((byte_value >> 4u8) & 0x07) & (1u8 << (yb - 4))) != 0
                };
                proof {
                    assert(yb < 7 ==> on == ((byte_value >> yb) & 1 != 0)) by (bit_vector)
                        requires on == (if yb < 4 { ((byte_value & 0x0F) & (1u8 << yb)) != 0 }
                            else { (((byte_value >> 4u8) & 0x07) & (1u8 << ((yb - 4) as u8))) != 0 });
                    assert((y as u8) as int == y);
                }
                let v: u8 = if on && self.enabled { self.contrast } else { 0 };
                let ghost before = self.rgba_buffer@;
                self.render_dot(x, y, v);
                assert forall|x2: int, y2: int| ((0 <= x2 < x && 0 <= y2 < DISPLAY_HEIGHT) || (x2 == x && 0 <= y2 < y + 1))
                    implies #[trigger] pixel_is(self.rgba_buffer@, x2, y2, s0.level(x2, y2)) by {
                    if x2 == x && y2 == y {
                    } else {
                        assert(pixel_is(before, x2, y2, s0.level(x2, y2)));
                        assert(same_pixel(self.rgba_buffer@, before, x2, y2));
                    }
                }
                y = y + 1;
            }
            x = x + 1;
        }
        self.dirty = false;
    }

    /// The frame, rendered first if video RAM changed.
    pub fn rgba_buffer(&mut self) -> (r: &[u8])
        requires
            old(self).wf(),
        ensures
            final(self).wf(),
            r@ == final(self).rgba_buffer@,
            old(self).dirty ==> forall|x: int, y: int| 0 <= x < DISPLAY_WIDTH && 0 <= y < DISPLAY_HEIGHT
                ==> #[trigger] pixel_is(r@, x, y, old(self).level(x, y)),
            !old(self).dirty ==> r@ == old(self).rgba_buffer@,
    {
        self.update_rgba_buffer();
        self.rgba_buffer.as_slice()
    }

    /// The frame as last rendered.
    pub fn rgba_buffer_const(&self) -> (r: &[u8])
        ensures
            r@ == self.rgba_buffer@,
    {
        self.rgba_buffer.as_slice()
    }

    /// The control byte: bit 0 enables the display, bits 1-7 are the contrast.
    pub fn set_control(&mut self, value: u8)
        requires
            old(self).wf(),
        ensures
            final(self).wf(),
            final(self).vram@ == old(self).vram@,
            final(self).rgba_buffer@ == old(self).rgba_buffer@,
            final(self).enabled == ((value & 0x01) != 0),
            final(self).contrast == (value & 0xFE) >> 1u8,
            final(self).dirty == (old(self).dirty || final(self).enabled != old(self).enabled
                || final(self).contrast != old(self).contrast),
    {
        let new_enabled = (value & 0x01) != 0;
        let new_contrast = (value & 0xFE) >> 1u8;
        if new_enabled != self.enabled || new_contrast != self.contrast {
            self.enabled = new_enabled;
            self.contrast = new_contrast;
            self.dirty = true;
        }
    }

    fn fill_vram(&mut self, v: u8)
        requires
            old(self).wf(),
        ensures
            final(self).wf(),
            forall|i: int| 0 <= i < DISPLAY_BYTES ==> final(self).vram@[i] == v,
            final(self).rgba_buffer@ == old(self).rgba_buffer@,
            final(self).contrast == old(self).contrast,
            final(self).enabled == old(self).enabled,
            final(self).dirty,
    {
        let mut i: usize = 0;
        while i < DISPLAY_BYTES
            invariant
                self.wf(),
                i <= DISPLAY_BYTES,
                forall|j: int| 0 <= j < i ==> self.vram@[j] == v,
                self.rgba_buffer@ == old(self).rgba_buffer@,
                self.contrast == old(self).contrast,
                self.enabled == old(self).enabled,
            decreases DISPLAY_BYTES - i,
        {
            self.vram.set(i, v);
            i = i + 1;
        }
        self.dirty = true;
    }

    /// All dots off.
    pub fn clear(&mut self)
        requires
            old(self).wf(),
        ensures
            final(self).wf(),
            forall|i: int| 0 <= i < DISPLAY_BYTES ==> final(self).vram@[i] == 0,
            final(self).rgba_buffer@ == old(self).rgba_buffer@,
            final(self).contrast == old(self).contrast,
            final(self).enabled == old(self).enabled,
            final(self).dirty,
    {
        self.fill_vram(0);
    }

    /// All dots on.
    pub fn fill(&mut self)
        requires
            old(self).wf(),
        ensures
            final(self).wf(),
            forall|i: int| 0 <= i < DISPLAY_BYTES ==> final(self).vram@[i] == 0xFF,
            final(self).rgba_buffer@ == old(self).rgba_buffer@,
            final(self).contrast == old(self).contrast,
            final(self).enabled == old(self).enabled,
            final(self).dirty,
    {
        self.fill_vram(0xFF);
    }

    pub fn is_dirty(&self) -> (r: bool)
        ensures
            r == self.dirty,
    {
        self.dirty
    }

    /// Writes a whole column byte (both symbol halves).
    pub fn write_pc1500_symbols(&mut self, column: usize, value: u8)
        requires
            old(self).wf(),
        ensures
            final(self).wf(),
            final(self).rgba_buffer@ == old(self).rgba_buffer@,
            column < DISPLAY_BYTES ==> final(self).vram@ == old(self).vram@.update(column as int, value) && final(self).dirty,
            column >= DISPLAY_BYTES ==> final(self).vram@ == old(self).vram@ && final(self).dirty == old(self).dirty,
    {
        if column < DISPLAY_BYTES {
            self.vram.set(column, value);
            self.dirty = true;
        }
    }

    pub fn read_pc1500_symbols(&self, column: usize) -> (r: u8)
        requires
            self.wf(),
        ensures
            r == (if column < DISPLAY_BYTES { self.vram@[column as int] } else { 0 }),
    {
        if column < DISPLAY_BYTES {
            self.vram[column]
        } else {
            0x00
        }
    }

    /// Replaces the upper four dots (bits 0-3) of a column.
    pub fn set_first_symbol(&mut self, column: usize, symbol: u8)
        requires
            old(self).wf(),
        ensures
            final(self).wf(),
            final(self).rgba_buffer@ == old(self).rgba_buffer@,
            column < DISPLAY_BYTES ==> final(self).dirty && final(self).vram@ == old(self).vram@.update(column as int,
                (old(self).vram@[column as int] & 0xF0) | (symbol & 0x0F)),
            column >= DISPLAY_BYTES ==> final(self).vram@ == old(self).vram@ && final(self).dirty == old(self).dirty,
    {
        if column < DISPLAY_BYTES {
            let current = self.vram[column];
            self.vram.set(column, (current & 0xF0) | (symbol & 0x0F));
            self.dirty = true;
        }
    }

    /// Replaces the lower three dots (bits 4-6) of a column; bit 7 is kept.
    pub fn set_second_symbol(&mut self, column: usize, symbol: u8)
        requires
            old(self).wf(),
        ensures
            final(self).wf(),
            final(self).rgba_buffer@ == old(self).rgba_buffer@,
            column < DISPLAY_BYTES ==> final(self).dirty && final(self).vram@ == old(self).vram@.update(column as int,
                (old(self).vram@[column as int] & 0x8F) | ((symbol & 0x07) << 4u8)),
            column >= DISPLAY_BYTES ==> final(self).vram@ == old(self).vram@ && final(self).dirty == old(self).dirty,
    {
        if column < DISPLAY_BYTES {
            let current = self.vram[column];
            self.vram.set(column, (current & 0x8F) | ((symbol & 0x07) << 4u8));
            self.dirty = true;
        }
    }

    pub fn get_first_symbol(&self, column: usize) -> (r: u8)
        requires
            self.wf(),
        ensures
            r == (if column < DISPLAY_BYTES { self.vram@[column as int] & 0x0F } else { 0 }),
    {
        if column < DISPLAY_BYTES {
            self.vram[column] & 0x0F
        } else {
            0x00
        }
    }

    pub fn get_second_symbol(&self, column: usize) -> (r: u8)
        requires
            self.wf(),
        ensures
            r == (if column < DISPLAY_BYTES { (self.vram@[column as int] >> 4u8) & 0x07 } else { 0 }),
    {
        if column < DISPLAY_BYTES {
            (self.vram[column] >> 4u8) & 0x07
        } else {
            0x00
        }
    }

    /// Draws a character from the 5x7 font with its top-left dot at (x, y);
    /// dots falling off the display are dropped, columns outside the cell
    /// are untouched.
    pub fn draw_char(&mut self, x: usize, y: usize, ch: char)
        requires
            old(self).wf(),
            x + 5 <= usize::MAX,
            y + 7 <= usize::MAX,
        ensures
            final(self).wf(),
            final(self).rgba_buffer@ == old(self).rgba_buffer@,
            final(self).contrast == old(self).contrast,
            final(self).enabled == old(self).enabled,
            forall|px: int, py: int| x <= px < x + 5 && y <= py < y + 7 && px < DISPLAY_WIDTH && py < DISPLAY_HEIGHT
                ==> #[trigger] final(self).pixel(px, py) == bit_set(char_bitmap(ch)[py - y], 4 - (px - x)),
            forall|px: int| 0 <= px < DISPLAY_BYTES && !(x <= px < x + 5) ==> #[trigger] final(self).vram@[px] == old(self).vram@[px],
            old(self).dirty ==> final(self).dirty,
    {
        let font_data = get_char_bitmap(ch);
        let mut row: usize = 0;
        while row < 7
            invariant
                self.wf(),
                x + 5 <= usize::MAX,
                y + 7 <= usize::MAX,
                font_data@ == char_bitmap(ch),
                row <= 7,
                self.rgba_buffer@ == old(self).rgba_buffer@,
                self.contrast == old(self).contrast,
                self.enabled == old(self).enabled,
                forall|px: int, py: int| x <= px < x + 5 && y <= py < y + row && px < DISPLAY_WIDTH && py < DISPLAY_HEIGHT
                    ==> #[trigger] self.pixel(px, py) == bit_set(char_bitmap(ch)[py - y], 4 - (px - x)),
                forall|px: int| 0 <= px < DISPLAY_BYTES && !(x <= px < x + 5) ==> #[trigger] self.vram@[px] == old(self).vram@[px],
                old(self).dirty ==> self.dirty,
            decreases 7 - row,
        {
            let byte = font_data[row];
            let mut col: usize = 0;
            while col < 5
                invariant
                    self.wf(),
                    x + 5 <= usize::MAX,
                    y + 7 <= usize::MAX,
                    font_data@ == char_bitmap(ch),
                    byte == char_bitmap(ch)[row as int],
                    row < 7,
                    col <= 5,
                    self.rgba_buffer@ == old(self).rgba_buffer@,
                    self.contrast == old(self).contrast,
                    self.enabled == old(self).enabled,
                    forall|px: int, py: int| x <= px < x + 5 && ((y <= py < y + row) || (py == y + row && px < x + col))
                        && px < DISPLAY_WIDTH && py < DISPLAY_HEIGHT
                        ==> #[trigger] self.pixel(px, py) == bit_set(char_bitmap(ch)[py - y], 4 - (px - x)),
                    forall|px: int| 0 <= px < DISPLAY_BYTES && !(x <= px < x + 5) ==> #[trigger] self.vram@[px] == old(self).vram@[px],
                    old(self).dirty ==> self.dirty,
                decreases 5 - col,
            {
                let sh: u8 = (4 - col) as u8;
                let pixel_on = (byte & (1u8 << sh)) != 0;
                proof {
                    assert(sh < 8 ==> ((byte & (1u8 << sh)) != 0) == ((byte >> sh) & 1 != 0)) by (bit_vector);
                    assert(sh as int == 4 - col);
                }
                let ghost before = *self;
                self.set_pixel(x + col, y + row, pixel_on);
                assert forall|px: int, py: int| x <= px < x + 5 && ((y <= py < y + row) || (py == y + row && px < x + col + 1))
                    && px < DISPLAY_WIDTH && py < DISPLAY_HEIGHT
                    implies #[trigger] self.pixel(px, py) == bit_set(char_bitmap(ch)[py - y], 4 - (px - x)) by {
                    if px == x + col && py == y + row {
                    } else {
                        assert(before.pixel(px, py) == bit_set(char_bitmap(ch)[py - y], 4 - (px - x)));
                        if px == x + col {
                            assert((py as u8) < 8);
                            let b0 = before.vram@[px];
                            let m = 1u8 << ((y + row) as u8);
                            let pb = py as u8;
                            let rb = (y + row) as u8;
                            assert(pb != rb && pb < 7 && rb < 7 ==> (((b0 | (1u8 << rb)) >> pb) & 1 != 0) == ((b0 >> pb) & 1 != 0)
                                && (((b0 & !(1u8 << rb)) >> pb) & 1 != 0) == ((b0 >> pb) & 1 != 0)) by (bit_vector);
                        }
                    }
                }
                col = col + 1;
            }
            row = row + 1;
        }
    }

    /// Draws characters left to right, 6 dots apart, while they fit.
    pub fn draw_string(&mut self, x: usize, y: usize, text: &str)
        requires
            old(self).wf(),
            x + 6 * text@.len() + 6 <= usize::MAX,
            y + 7 <= usize::MAX,
        ensures
            final(self).wf(),
            final(self).rgba_buffer@ == old(self).rgba_buffer@,
            final(self).contrast == old(self).contrast,
            final(self).enabled == old(self).enabled,
            old(self).dirty ==> final(self).dirty,
            string_drawn(old(self).vram@, *final(self), x as int, y as int, text@),
    {
        let n = text.unicode_len();
        let mut char_x = x;
        let mut i: usize = 0;
        while i < n
            invariant
                self.wf(),
                n == text@.len(),
                i <= n,
                char_x == x + 6 * i,
                x + 6 * text@.len() + 6 <= usize::MAX,
                y + 7 <= usize::MAX,
                self.rgba_buffer@ == old(self).rgba_buffer@,
                self.contrast == old(self).contrast,
                self.enabled == old(self).enabled,
                old(self).dirty ==> self.dirty,
                forall|j: int| 0 <= j < i ==> #[trigger] shows_char_at(*self, x as int, j, y as int, text@[j]),
                i > 0 ==> x + 6 * (i - 1) + 5 < DISPLAY_WIDTH,
                forall|px: int| 0 <= px < DISPLAY_BYTES && (forall|j: int| 0 <= j < i ==> !#[trigger] in_cell(x as int, j, px))
                    ==> #[trigger] self.vram@[px] == old(self).vram@[px],
            ensures
                self.wf(),
                i <= n,
                i < n ==> x + 6 * i + 5 >= DISPLAY_WIDTH,
                self.rgba_buffer@ == old(self).rgba_buffer@,
                self.contrast == old(self).contrast,
                self.enabled == old(self).enabled,
                old(self).dirty ==> self.dirty,
                forall|j: int| 0 <= j < i ==> #[trigger] shows_char_at(*self, x as int, j, y as int, text@[j]),
                i > 0 ==> x + 6 * (i - 1) + 5 < DISPLAY_WIDTH,
                forall|px: int| 0 <= px < DISPLAY_BYTES && (forall|j: int| 0 <= j < i ==> !#[trigger] in_cell(x as int, j, px))
                    ==> #[trigger] self.vram@[px] == old(self).vram@[px],
            decreases n - i,
        {
            if char_x + 5 >= DISPLAY_WIDTH {
                break;
            }
            let ch = text.get_char(i);
            let ghost before = *self;
            self.draw_char(char_x, y, ch);
            proof {
                assert forall|j: int| 0 <= j < i + 1 implies #[trigger] shows_char_at(*self, x as int, j, y as int, text@[j]) by {
                    if j < i {
                        assert(shows_char_at(before, x as int, j, y as int, text@[j]));
                        assert forall|px: int, py: int| x + 6 * j <= px < x + 6 * j + 5 && y <= py < y + 7
                            && px < DISPLAY_WIDTH && py < DISPLAY_HEIGHT
                            implies #[trigger] self.pixel(px, py) == bit_set(char_bitmap(text@[j])[py - y], 4 - (px - (x + 6 * j))) by {
                            assert(before.pixel(px, py) == bit_set(char_bitmap(text@[j])[py - y], 4 - (px - (x + 6 * j))));
                            assert(self.vram@[px] == before.vram@[px]);
                        }
                    }
                }
                assert forall|px: int| 0 <= px < DISPLAY_BYTES && (forall|j: int| 0 <= j < i + 1 ==> !#[trigger] in_cell(x as int, j, px))
                    implies #[trigger] self.vram@[px] == old(self).vram@[px] by {
                    assert(!in_cell(x as int, i as int, px));
                    assert(forall|j: int| 0 <= j < i ==> !#[trigger] in_cell(x as int, j, px));
                }
            }
            char_x = char_x + 6;
            i = i + 1;
        }
        proof {
            assert forall|j: int| 0 <= j < text@.len() && x + 6 * j + 5 < DISPLAY_WIDTH
                implies #[trigger] shows_char_at(*self, x as int, j, y as int, text@[j]) by {
                assert(j < i);
            }
            assert forall|px: int| 0 <= px < DISPLAY_BYTES && (forall|j: int| 0 <= j < text@.len() ==> !#[trigger] drawn_cell(x as int, j, px))
                implies #[trigger] self.vram@[px] == old(self).vram@[px] by {
                assert forall|j: int| 0 <= j < i implies !#[trigger] in_cell(x as int, j, px) by {
                    assert(!drawn_cell(x as int, j, px));
                }
            }
        }
    }

    /// Draws a string centered on the display width; strings wider than the
    /// display are not drawn.
    pub fn draw_string_centered(&mut self, y: usize, text: &str)
        requires
            old(self).wf(),
            text.spec_bytes().len() >= 1,
            6 * text.spec_bytes().len() <= usize::MAX,
            text@.len() <= text.spec_bytes().len(),
            y + 7 <= usize::MAX,
        ensures
            final(self).wf(),
            final(self).rgba_buffer@ == old(self).rgba_buffer@,
            final(self).contrast == old(self).contrast,
            final(self).enabled == old(self).enabled,
            old(self).dirty ==> final(self).dirty,
            !centered_fits(text.spec_bytes().len() as int) ==> final(self).vram@ == old(self).vram@
                && final(self).dirty == old(self).dirty,
            centered_fits(text.spec_bytes().len() as int) ==> string_drawn(old(self).vram@, *final(self),
                centered_x(text.spec_bytes().len() as int), y as int, text@),
    {
        let text_width = text.len() * 6 - 1;
        if text_width < DISPLAY_WIDTH {
            let start_x = (DISPLAY_WIDTH - text_width) / 2;
            self.draw_string(start_x, y, text);
        }
    }

    /// Clears the display and shows "PC-1500" centered on the top row.
    pub fn test_pattern_with_text(&mut self)
        requires
            old(self).wf(),
        ensures
            final(self).wf(),
            final(self).rgba_buffer@ == old(self).rgba_buffer@,
            final(self).dirty,
            string_drawn(blank_vram(), *final(self), centered_x(7), 0, "PC-1500"@),
    {
        self.clear();
        let text = "PC-1500";
        proof {
            reveal_strlit("PC-1500");
            vstd::string::is_ascii_spec_bytes(text);
            assert(self.vram@ =~= blank_vram());
        }
        self.draw_string_centered(0, text);
    }

    /// Clears the display and shows a message centered on row 1.
    pub fn show_status(&mut self, message: &str)
        requires
            old(self).wf(),
            message.spec_bytes().len() >= 1,
            6 * message.spec_bytes().len() <= usize::MAX,
            message@.len() <= message.spec_bytes().len(),
        ensures
            final(self).wf(),
            final(self).rgba_buffer@ == old(self).rgba_buffer@,
            final(self).dirty,
            !centered_fits(message.spec_bytes().len() as int) ==> final(self).vram@ == blank_vram(),
            centered_fits(message.spec_bytes().len() as int) ==> string_drawn(blank_vram(), *final(self),
                centered_x(message.spec_bytes().len() as int), 1, message@),
    {
        self.clear();
        assert(self.vram@ =~= blank_vram());
        self.draw_string_centered(1, message);
    }
}

/// Video RAM with every dot off.
pub open spec fn blank_vram() -> Seq<u8> {
    Seq::new(DISPLAY_BYTES as nat, |i: int| 0u8)
}

/// Whether a text of `len` bytes fits the display width when centred.
pub open spec fn centered_fits(len: int) -> bool {
    6 * len - 1 < DISPLAY_WIDTH
}

/// First column of a centred text of `len` bytes.
pub open spec fn centered_x(len: int) -> int {
    (DISPLAY_WIDTH - (6 * len - 1)) / 2
}

/// Column `px` is one of the five glyph columns of character `j` of a string
/// drawn from column `x`.
pub open spec fn in_cell(x: int, j: int, px: int) -> bool {
    x + 6 * j <= px < x + 6 * j + 5
}

/// Like `in_cell`, for a character that fits on the display.
pub open spec fn drawn_cell(x: int, j: int, px: int) -> bool {
    x + 6 * j + 5 < DISPLAY_WIDTH && in_cell(x, j, px)
}

/// Character `j` of a string drawn from column `x` shows the glyph of `ch`
/// in rows `y..y+7`.
pub open spec fn shows_char_at(d: DisplayController, x: int, j: int, y: int, ch: char) -> bool {
    forall|px: int, py: int| x + 6 * j <= px < x + 6 * j + 5 && y <= py < y + 7 && px < DISPLAY_WIDTH && py < DISPLAY_HEIGHT
        ==> #[trigger] d.pixel(px, py) == bit_set(char_bitmap(ch)[py - y], 4 - (px - (x + 6 * j)))
}

/// `d` shows `text` drawn from (x, y) over video RAM `before`: every
/// character whose cell fits shows its glyph, and every other column holds
/// what it held.
pub open spec fn string_drawn(before: Seq<u8>, d: DisplayController, x: int, y: int, text: Seq<char>) -> bool {
    &&& forall|j: int| 0 <= j < text.len() && x + 6 * j + 5 < DISPLAY_WIDTH
        ==> #[trigger] shows_char_at(d, x, j, y, text[j])
    &&& forall|px: int| 0 <= px < DISPLAY_BYTES && (forall|j: int| 0 <= j < text.len() ==> !#[trigger] drawn_cell(x, j, px))
        ==> #[trigger] d.vram@[px] == before[px]
}

/// A dot turned on or off reads back as set.
pub proof fn lemma_set_get_pixel(b: u8, y: u8, value: bool)
    requires
        y < 7,
    ensures
        bit_set(if value { b | (1u8 << y) } else { b & !(1u8 << y) }, y as int) == value,
{
    assert((((b | (1u8 << y)) >> y) & 1 != 0) && (((b & !(1u8 << y)) >> y) & 1 == 0)) by (bit_vector)
        requires y < 7;
    assert((y as int) as u8 == y);
}

/// The 5x7 font: one byte per row, bit 4 is the leftmost column; unknown
/// characters show a box.
pub open spec fn char_bitmap(ch: char) -> Seq<u8> {
    if ch == 'A' || ch == 'a' { seq![0x1C, 0x22, 0x22, 0x3E, 0x22, 0x22, 0x22] }
    else if ch == 'B' || ch == 'b' { seq![0x3E, 0x22, 0x22, 0x3C, 0x22, 0x22, 0x3E] }
    else if ch == 'C' || ch == 'c' { seq![0x1C, 0x22, 0x20, 0x20, 0x20, 0x22, 0x1C] }
    else if ch == 'D' || ch == 'd' { seq![0x3C, 0x22, 0x22, 0x22, 0x22, 0x22, 0x3C] }
    else if ch == 'E' || ch == 'e' { seq![0x3E, 0x20, 0x20, 0x3C, 0x20, 0x20, 0x3E] }
    else if ch == 'F' || ch == 'f' { seq![0x3E, 0x20, 0x20, 0x3C, 0x20, 0x20, 0x20] }
    else if ch == 'G' || ch == 'g' { seq![0x1C, 0x22, 0x20, 0x26, 0x22, 0x22, 0x1C] }
    else if ch == 'H' || ch == 'h' { seq![0x22, 0x22, 0x22, 0x3E, 0x22, 0x22, 0x22] }
    else if ch == 'I' || ch == 'i' { seq![0x1C, 0x08, 0x08, 0x08, 0x08, 0x08, 0x1C] }
    else if ch == 'J' || ch == 'j' { seq![0x02, 0x02, 0x02, 0x02, 0x22, 0x22, 0x1C] }
    else if ch == 'K' || ch == 'k' { seq![0x22, 0x24, 0x28, 0x30, 0x28, 0x24, 0x22] }
    else if ch == 'L' || ch == 'l' { seq![0x20, 0x20, 0x20, 0x20, 0x20, 0x20, 0x3E] }
    else if ch == 'M' || ch == 'm' { seq![0x22, 0x36, 0x2A, 0x2A, 0x22, 0x22, 0x22] }
    else if ch == 'N' || ch == 'n' { seq![0x22, 0x32, 0x2A, 0x26, 0x22, 0x22, 0x22] }
    else if ch == 'O' || ch == 'o' { seq![0x1C, 0x22, 0x22, 0x22, 0x22, 0x22, 0x1C] }
    else if ch == 'P' || ch == 'p' { seq![0x3C, 0x22, 0x22, 0x3C, 0x20, 0x20, 0x20] }
    else if ch == 'Q' || ch == 'q' { seq![0x1C, 0x22, 0x22, 0x22, 0x2A, 0x24, 0x1A] }
    else if ch == 'R' || ch == 'r' { seq![0x3C, 0x22, 0x22, 0x3C, 0x28, 0x24, 0x22] }
    else if ch == 'S' || ch == 's' { seq![0x1C, 0x22, 0x20, 0x1C, 0x02, 0x22, 0x1C] }
    else if ch == 'T' || ch == 't' { seq![0x3E, 0x08, 0x08, 0x08, 0x08, 0x08, 0x08] }
    else if ch == 'U' || ch == 'u' { seq![0x22, 0x22, 0x22, 0x22, 0x22, 0x22, 0x1C] }
    else if ch == 'V' || ch == 'v' { seq![0x22, 0x22, 0x22, 0x22, 0x14, 0x14, 0x08] }
    else if ch == 'W' || ch == 'w' { seq![0x22, 0x22, 0x22, 0x2A, 0x2A, 0x36, 0x22] }
    else if ch == 'X' || ch == 'x' { seq![0x22, 0x22, 0x14, 0x08, 0x14, 0x22, 0x22] }
    else if ch == 'Y' || ch == 'y' { seq![0x22, 0x22, 0x14, 0x08, 0x08, 0x08, 0x08] }
    else if ch == 'Z' || ch == 'z' { seq![0x3E, 0x02, 0x04, 0x08, 0x10, 0x20, 0x3E] }
    else if ch == '0' { seq![0x1C, 0x22, 0x26, 0x2A, 0x32, 0x22, 0x1C] }
    else if ch == '1' { seq![0x08, 0x18, 0x08, 0x08, 0x08, 0x08, 0x1C] }
    else if ch == '2' { seq![0x1C, 0x22, 0x02, 0x0C, 0x10, 0x20, 0x3E] }
    else if ch == '3' { seq![0x1C, 0x22, 0x02, 0x0C, 0x02, 0x22, 0x1C] }
    else if ch == '4' { seq![0x04, 0x0C, 0x14, 0x24, 0x3E, 0x04, 0x04] }
    else if ch == '5' { seq![0x3E, 0x20, 0x3C, 0x02, 0x02, 0x22, 0x1C] }
    else if ch == '6' { seq![0x0C, 0x10, 0x20, 0x3C, 0x22, 0x22, 0x1C] }
    else if ch == '7' { seq![0x3E, 0x02, 0x04, 0x08, 0x10, 0x10, 0x10] }
    else if ch == '8' { seq![0x1C, 0x22, 0x22, 0x1C, 0x22, 0x22, 0x1C] }
    else if ch == '9' { seq![0x1C, 0x22, 0x22, 0x1E, 0x02, 0x04, 0x18] }
    else if ch == ' ' { seq![0x00, 0x00, 0x00, 0x00, 0x00, 0x00, 0x00] }
    else if ch == '-' { seq![0x00, 0x00, 0x00, 0x1C, 0x00, 0x00, 0x00] }
    else if ch == '.' { seq![0x00, 0x00, 0x00, 0x00, 0x00, 0x18, 0x18] }
    else if ch == '!' { seq![0x08, 0x08, 0x08, 0x08, 0x00, 0x08, 0x08] }
    else if ch == '?' { seq![0x1C, 0x22, 0x02, 0x0C, 0x08, 0x00, 0x08] }
    else { seq![0x3E, 0x22, 0x20, 0x20, 0x20, 0x22, 0x3E] }
}

/// The font rows of a character.
pub fn get_char_bitmap(ch: char) -> (r: [u8; 7])
    ensures
        r@ == char_bitmap(ch),
{
    match ch {
        'A' | 'a' => [0x1C, 0x22, 0x22, 0x3E, 0x22, 0x22, 0x22],
        'B' | 'b' => [0x3E, 0x22, 0x22, 0x3C, 0x22, 0x22, 0x3E],
        'C' | 'c' => [0x1C, 0x22, 0x20, 0x20, 0x20, 0x22, 0x1C],
        'D' | 'd' => [0x3C, 0x22, 0x22, 0x22, 0x22, 0x22, 0x3C],
        'E' | 'e' => [0x3E, 0x20, 0x20, 0x3C, 0x20, 0x20, 0x3E],
        'F' | 'f' => [0x3E, 0x20, 0x20, 0x3C, 0x20, 0x20, 0x20],
        'G' | 'g' => [0x1C, 0x22, 0x20, 0x26, 0x22, 0x22, 0x1C],
        'H' | 'h' => [0x22, 0x22, 0x22, 0x3E, 0x22, 0x22, 0x22],
        'I' | 'i' => [0x1C, 0x08, 0x08, 0x08, 0x08, 0x08, 0x1C],
        'J' | 'j' => [0x02, 0x02, 0x02, 0x02, 0x22, 0x22, 0x1C],
        'K' | 'k' => [0x22, 0x24, 0x28, 0x30, 0x28, 0x24, 0x22],
        'L' | 'l' => [0x20, 0x20, 0x20, 0x20, 0x20, 0x20, 0x3E],
        'M' | 'm' => [0x22, 0x36, 0x2A, 0x2A, 0x22, 0x22, 0x22],
        'N' | 'n' => [0x22, 0x32, 0x2A, 0x26, 0x22, 0x22, 0x22],
        'O' | 'o' => [0x1C, 0x22, 0x22, 0x22, 0x22, 0x22, 0x1C],
        'P' | 'p' => [0x3C, 0x22, 0x22, 0x3C, 0x20, 0x20, 0x20],
        'Q' | 'q' => [0x1C, 0x22, 0x22, 0x22, 0x2A, 0x24, 0x1A],
        'R' | 'r' => [0x3C, 0x22, 0x22, 0x3C, 0x28, 0x24, 0x22],
        'S' | 's' => [0x1C, 0x22, 0x20, 0x1C, 0x02, 0x22, 0x1C],
        'T' | 't' => [0x3E, 0x08, 0x08, 0x08, 0x08, 0x08, 0x08],
        'U' | 'u' => [0x22, 0x22, 0x22, 0x22, 0x22, 0x22, 0x1C],
        'V' | 'v' => [0x22, 0x22, 0x22, 0x22, 0x14, 0x14, 0x08],
        'W' | 'w' => [0x22, 0x22, 0x22, 0x2A, 0x2A, 0x36, 0x22],
        'X' | 'x' => [0x22, 0x22, 0x14, 0x08, 0x14, 0x22, 0x22],
        'Y' | 'y' => [0x22, 0x22, 0x14, 0x08, 0x08, 0x08, 0x08],
        'Z' | 'z' => [0x3E, 0x02, 0x04, 0x08, 0x10, 0x20, 0x3E],
        '0' => [0x1C, 0x22, 0x26, 0x2A, 0x32, 0x22, 0x1C],
        '1' => [0x08, 0x18, 0x08, 0x08, 0x08, 0x08, 0x1C],
        '2' => [0x1C, 0x22, 0x02, 0x0C, 0x10, 0x20, 0x3E],
        '3' => [0x1C, 0x22, 0x02, 0x0C, 0x02, 0x22, 0x1C],
        '4' => [0x04, 0x0C, 0x14, 0x24, 0x3E, 0x04, 0x04],
        '5' => [0x3E, 0x20, 0x3C, 0x02, 0x02, 0x22, 0x1C],
        '6' => [0x0C, 0x10, 0x20, 0x3C, 0x22, 0x22, 0x1C],
        '7' => [0x3E, 0x02, 0x04, 0x08, 0x10, 0x10, 0x10],
        '8' => [0x1C, 0x22, 0x22, 0x1C, 0x22, 0x22, 0x1C],
        '9' => [0x1C, 0x22, 0x22, 0x1E, 0x02, 0x04, 0x18],
        ' ' => [0x00, 0x00, 0x00, 0x00, 0x00, 0x00, 0x00],
        '-' => [0x00, 0x00, 0x00, 0x1C, 0x00, 0x00, 0x00],
        '.' => [0x00, 0x00, 0x00, 0x00, 0x00, 0x18, 0x18],
        '!' => [0x08, 0x08, 0x08, 0x08, 0x00, 0x08, 0x08],
        '?' => [0x1C, 0x22, 0x02, 0x0C, 0x08, 0x00, 0x08],
        _ => [0x3E, 0x22, 0x20, 0x20, 0x20, 0x22, 0x3E],
    }
}

} // verus!
