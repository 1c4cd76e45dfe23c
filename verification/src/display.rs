// The LCD of the PC-1500: a 156x7 dot matrix rendered to RGBA, plus the
// status symbols.
use vstd::prelude::*;
use crate::{Pc1500, Pc1500View};

verus! {

pub const DISPLAY_WIDTH: usize = 156;
pub const DISPLAY_HEIGHT: usize = 7;
pub const RGBA_SIZE: usize = 4368;
pub const SYMBOL_COUNT: usize = 14;

pub open spec fn low_spec(b: u8) -> u8 {
    b & 0x0F
}

pub open spec fn high_spec(b: u8) -> u8 {
    (b >> 4u8) & 0x0F
}

pub fn low(b: u8) -> (r: u8)
    ensures
        r == low_spec(b),
{
    b & 0x0F
}

pub fn high(b: u8) -> (r: u8)
    ensures
        r == high_spec(b),
{
    (b >> 4u8) & 0x0F
}

#[derive(Debug, Clone, Copy, PartialEq, Eq, Structural)]
pub enum Symbol {
    Busy,
    Shift,
    Kana,
    Small,
    Deg,
    Rad,
    Run,
    Pro,
    Reserve,
    Def,
    RomanI,
    RomanII,
    RomanIII,
    Battery,
}

pub open spec fn symbol_index(s: Symbol) -> int {
    match s {
        Symbol::Busy => 0,
        Symbol::Shift => 1,
        Symbol::Kana => 2,
        Symbol::Small => 3,
        Symbol::Deg => 4,
        Symbol::Rad => 5,
        Symbol::Run => 6,
        Symbol::Pro => 7,
        Symbol::Reserve => 8,
        Symbol::Def => 9,
        Symbol::RomanI => 10,
        Symbol::RomanII => 11,
        Symbol::RomanIII => 12,
        Symbol::Battery => 13,
    }
}

impl Symbol {
    pub fn index(self) -> (r: usize)
        ensures
            r == symbol_index(self),
            r < SYMBOL_COUNT,
    {
        match self {
            Symbol::Busy => 0,
            Symbol::Shift => 1,
            Symbol::Kana => 2,
            Symbol::Small => 3,
            Symbol::Deg => 4,
            Symbol::Rad => 5,
            Symbol::Run => 6,
            Symbol::Pro => 7,
            Symbol::Reserve => 8,
            Symbol::Def => 9,
            Symbol::RomanI => 10,
            Symbol::RomanII => 11,
            Symbol::RomanIII => 12,
            Symbol::Battery => 13,
        }
    }
}

/// First byte of the RGBA quadruple of dot (x, y).
pub open spec fn pixel_offset(x: int, y: int) -> int {
    (y * DISPLAY_WIDTH + x) * 4
}

/// The four RGBA bytes of dot (x, y) encode gray level `v`, opaque.
pub open spec fn pixel_is(buf: Seq<u8>, x: int, y: int, v: u8) -> bool {
    let o = pixel_offset(x, y);
    &&& buf[o] == v
    &&& buf[o + 1] == v
    &&& buf[o + 2] == v
    &&& buf[o + 3] == 255
}

/// Dot (x, y) has the same four bytes in both buffers.
pub open spec fn same_pixel(a: Seq<u8>, b: Seq<u8>, x: int, y: int) -> bool {
    let o = pixel_offset(x, y);
    &&& a[o] == b[o]
    &&& a[o + 1] == b[o + 1]
    &&& a[o + 2] == b[o + 2]
    &&& a[o + 3] == b[o + 3]
}

/// Row `y` of a dot-column byte is on.
pub open spec fn dot_on(data: u8, y: int) -> bool {
    (data >> (y as u8)) & 0x01 != 0
}

/// Gray level of row `y` of a dot column: black when on, white when off.
pub open spec fn dot_level(data: u8, y: int) -> u8 {
    if dot_on(data, y) { 0u8 } else { 255u8 }
}

/// The bytes of two different dots do not overlap.
pub proof fn lemma_pixels_apart(x: int, y: int, x2: int, y2: int)
    requires
        0 <= x < DISPLAY_WIDTH,
        0 <= y < DISPLAY_HEIGHT,
        0 <= x2 < DISPLAY_WIDTH,
        0 <= y2 < DISPLAY_HEIGHT,
        x != x2 || y != y2,
    ensures
        pixel_offset(x, y) + 4 <= pixel_offset(x2, y2) || pixel_offset(x2, y2) + 4 <= pixel_offset(x, y),
        0 <= pixel_offset(x2, y2),
        pixel_offset(x2, y2) + 3 < RGBA_SIZE,
{
    assert(pixel_offset(x, y) + 4 <= pixel_offset(x2, y2) || pixel_offset(x2, y2) + 4 <= pixel_offset(x, y)) by (nonlinear_arith)
        requires
            0 <= x < 156, 0 <= y < 7, 0 <= x2 < 156, 0 <= y2 < 7, x != x2 || y != y2,
            pixel_offset(x, y) == (y * 156 + x) * 4, pixel_offset(x2, y2) == (y2 * 156 + x2) * 4;
    assert(0 <= pixel_offset(x2, y2) && pixel_offset(x2, y2) + 3 < RGBA_SIZE) by (nonlinear_arith)
        requires 0 <= x2 < 156, 0 <= y2 < 7, pixel_offset(x2, y2) == (y2 * 156 + x2) * 4;
}

#[derive(Debug, Clone)]
pub struct DisplayController {
    pub rgba_buffer: Vec<u8>,
    pub symbol_buffer: Vec<bool>,
}

impl DisplayController {
    pub open spec fn wf(&self) -> bool {
        &&& self.rgba_buffer@.len() == RGBA_SIZE
        &&& self.symbol_buffer@.len() == SYMBOL_COUNT
    }

    /// Whether dot (x, y) is drawn black (opaque black), as opposed to
    /// white (opaque white).
    pub open spec fn is_black(&self, x: int, y: int) -> bool {
        let o = pixel_offset(x, y);
        &&& self.rgba_buffer@[o] == 0
        &&& self.rgba_buffer@[o + 1] == 0
        &&& self.rgba_buffer@[o + 2] == 0
        &&& self.rgba_buffer@[o + 3] == 255
    }

    pub open spec fn is_white(&self, x: int, y: int) -> bool {
        let o = pixel_offset(x, y);
        &&& self.rgba_buffer@[o] == 255
        &&& self.rgba_buffer@[o + 1] == 255
        &&& self.rgba_buffer@[o + 2] == 255
        &&& self.rgba_buffer@[o + 3] == 255
    }

    /// A blank (all zero) frame with every symbol off.
    pub fn new() -> (r: Self)
        ensures
            r.wf(),
            forall|i: int| 0 <= i < RGBA_SIZE ==> r.rgba_buffer@[i] == 0,
            forall|i: int| 0 <= i < SYMBOL_COUNT ==> !r.symbol_buffer@[i],
    {
        let mut rgba: Vec<u8> = Vec::new();
        let mut i: usize = 0;
        while i < RGBA_SIZE
            invariant
                i <= RGBA_SIZE,
                rgba@.len() == i,
                forall|j: int| 0 <= j < i ==> rgba@[j] == 0,
            decreases RGBA_SIZE - i,
        {
            rgba.push(0);
            i = i + 1;
        }
        let mut sym: Vec<bool> = Vec::new();
        let mut k: usize = 0;
        while k < SYMBOL_COUNT
            invariant
                k <= SYMBOL_COUNT,
                sym@.len() == k,
                forall|j: int| 0 <= j < k ==> !sym@[j],
            decreases SYMBOL_COUNT - k,
        {
            sym.push(false);
            k = k + 1;
        }
        Self { rgba_buffer: rgba, symbol_buffer: sym }
    }

    pub fn rgba_buffer(&self) -> (r: &[u8])
        ensures
            r@ == self.rgba_buffer@,
    {
        self.rgba_buffer.as_slice()
    }

    pub fn is_symbol_on(&self, symbol: Symbol) -> (r: bool)
        requires
            self.wf(),
        ensures
            r == self.symbol_buffer@[symbol_index(symbol)],
    {
        self.symbol_buffer[symbol.index()]
    }

    fn put_pixel(&mut self, x: usize, y: usize, v: u8)
        requires
            old(self).wf(),
            x < DISPLAY_WIDTH,
            y < DISPLAY_HEIGHT,
        ensures
            final(self).wf(),
            final(self).symbol_buffer@ == old(self).symbol_buffer@,
            pixel_is(final(self).rgba_buffer@, x as int, y as int, v),
            forall|x2: int, y2: int| 0 <= x2 < DISPLAY_WIDTH && 0 <= y2 < DISPLAY_HEIGHT && (x2 != x || y2 != y)
                ==> #[trigger] same_pixel(final(self).rgba_buffer@, old(self).rgba_buffer@, x2, y2),
    {
        proof {
            assert(0 <= (y * DISPLAY_WIDTH + x) * 4 && (y * DISPLAY_WIDTH + x) * 4 + 3 < RGBA_SIZE) by (nonlinear_arith)
                requires x < DISPLAY_WIDTH, y < DISPLAY_HEIGHT;
        }
        let index = (y * DISPLAY_WIDTH + x) * 4;
        self.rgba_buffer.set(index, v);
        self.rgba_buffer.set(index + 1, v);
        self.rgba_buffer.set(index + 2, v);
        self.rgba_buffer.set(index + 3, 255);
        proof {
            assert forall|x2: int, y2: int| 0 <= x2 < DISPLAY_WIDTH && 0 <= y2 < DISPLAY_HEIGHT && (x2 != x || y2 != y)
                implies #[trigger] same_pixel(self.rgba_buffer@, old(self).rgba_buffer@, x2, y2) by {
                lemma_pixels_apart(x as int, y as int, x2, y2);
            }
        }
    }

    fn draw_black_pixel(&mut self, x: usize, y: usize)
        requires
            old(self).wf(),
            x < DISPLAY_WIDTH,
            y < DISPLAY_HEIGHT,
        ensures
            final(self).wf(),
            final(self).symbol_buffer@ == old(self).symbol_buffer@,
            pixel_is(final(self).rgba_buffer@, x as int, y as int, 0),
            forall|x2: int, y2: int| 0 <= x2 < DISPLAY_WIDTH && 0 <= y2 < DISPLAY_HEIGHT && (x2 != x || y2 != y)
                ==> #[trigger] same_pixel(final(self).rgba_buffer@, old(self).rgba_buffer@, x2, y2),
    {
        self.put_pixel(x, y, 0);
    }

    fn draw_white_pixel(&mut self, x: usize, y: usize)
        requires
            old(self).wf(),
            x < DISPLAY_WIDTH,
            y < DISPLAY_HEIGHT,
        ensures
            final(self).wf(),
            final(self).symbol_buffer@ == old(self).symbol_buffer@,
            pixel_is(final(self).rgba_buffer@, x as int, y as int, 255),
            forall|x2: int, y2: int| 0 <= x2 < DISPLAY_WIDTH && 0 <= y2 < DISPLAY_HEIGHT && (x2 != x || y2 != y)
                ==> #[trigger] same_pixel(final(self).rgba_buffer@, old(self).rgba_buffer@, x2, y2),
    {
        self.put_pixel(x, y, 255);
    }

    /// Draws dot column `x` from the seven low bits of `data` (bit `y` set:
    /// black dot in row `y`).
    fn draw_column(&mut self, x: usize, data: u8)
        requires
            old(self).wf(),
            x < DISPLAY_WIDTH,
        ensures
            final(self).wf(),
            final(self).symbol_buffer@ == old(self).symbol_buffer@,
            forall|y: int| 0 <= y < DISPLAY_HEIGHT ==> #[trigger] pixel_is(final(self).rgba_buffer@, x as int, y, dot_level(data, y)),
            forall|x2: int, y2: int| 0 <= x2 < DISPLAY_WIDTH && 0 <= y2 < DISPLAY_HEIGHT && x2 != x
                ==> #[trigger] same_pixel(final(self).rgba_buffer@, old(self).rgba_buffer@, x2, y2),
    {
        let mut b: usize = 0;
        while b < 7
            invariant
                self.wf(),
                x < DISPLAY_WIDTH,
                b <= 7,
                self.symbol_buffer@ == old(self).symbol_buffer@,
                forall|y: int| 0 <= y < b ==> #[trigger] pixel_is(self.rgba_buffer@, x as int, y, dot_level(data, y)),
                forall|x2: int, y2: int| 0 <= x2 < DISPLAY_WIDTH && 0 <= y2 < DISPLAY_HEIGHT && (x2 != x || y2 >= b)
                    ==> #[trigger] same_pixel(self.rgba_buffer@, old(self).rgba_buffer@, x2, y2),
            decreases 7 - b,
        {
            let ghost before = self.rgba_buffer@;
            let on = (data >> (b as u8)) & 0x01 != 0;
            assert(((b as int) as u8) == (b as u8));
            assert(on == dot_on(data, b as int));
            if on {
                self.draw_black_pixel(x, b);
            } else {
                self.draw_white_pixel(x, b);
            }
            assert forall|y: int| 0 <= y < b + 1 implies #[trigger] pixel_is(self.rgba_buffer@, x as int, y, dot_level(data, y)) by {
                if y < b {
                    assert(pixel_is(before, x as int, y, dot_level(data, y)));
                    assert(same_pixel(self.rgba_buffer@, before, x as int, y));
                } else {
                    assert(y == b);
                    assert(dot_level(data, y) == (if on { 0u8 } else { 255u8 }));
                }
            }
            assert forall|x2: int, y2: int| 0 <= x2 < DISPLAY_WIDTH && 0 <= y2 < DISPLAY_HEIGHT && (x2 != x || y2 >= b + 1)
                implies #[trigger] same_pixel(self.rgba_buffer@, old(self).rgba_buffer@, x2, y2) by {
                assert(same_pixel(self.rgba_buffer@, before, x2, y2));
                assert(same_pixel(before, old(self).rgba_buffer@, x2, y2));
            }
            b = b + 1;
        }
    }

    /// Blanks the frame to opaque white (every byte 0xFF); symbols stay.
    fn clear(&mut self)
        requires
            old(self).wf(),
        ensures
            final(self).wf(),
            final(self).symbol_buffer@ == old(self).symbol_buffer@,
            forall|i: int| 0 <= i < RGBA_SIZE ==> final(self).rgba_buffer@[i] == 0xff,
    {
        let mut i: usize = 0;
        while i < RGBA_SIZE
            invariant
                i <= RGBA_SIZE,
                self.wf(),
                self.symbol_buffer@ == old(self).symbol_buffer@,
                forall|j: int| 0 <= j < i ==> self.rgba_buffer@[j] == 0xff,
            decreases RGBA_SIZE - i,
        {
            self.rgba_buffer.set(i, 0xff);
            i = i + 1;
        }
    }
}

/// The dot-column byte of LCD column `x`, read from the display RAM: columns
/// 0-38 and 78-116 come from 0x7600.., columns 39-77 and 117-155 from
/// 0x7700..; each column takes one nibble of two consecutive bytes (the low
/// nibbles for the left half, the high nibbles for the right half).
pub open spec fn lcd_column(m: Pc1500View, x: int) -> u8 {
    let base: int = if x < 39 || (78 <= x && x < 117) { 0x7600 } else { 0x7700 };
    let k: int = if x < 39 { x } else if x < 78 { x - 39 } else if x < 117 { x - 78 } else { x - 117 };
    let a = (base + 2 * k) as u32;
    if x < 78 {
        low_spec(m.mem_read(a)) | (low_spec(m.mem_read((a + 1) as u32)) << 4u8)
    } else {
        high_spec(m.mem_read(a)) | (high_spec(m.mem_read((a + 1) as u32)) << 4u8)
    }
}

/// ORing a small offset into either display RAM bank address adds it.
proof fn lemma_bank_offset(ind: u32)
    requires
        ind < 0x100,
    ensures
        (0x7600u32 | ind) == 0x7600u32 + ind,
        (0x7700u32 | ind) == 0x7700u32 + ind,
{
    assert(ind < 0x100 ==> (0x7600u32 | ind) == 0x7600u32 + ind && (0x7700u32 | ind) == 0x7700u32 + ind) by (bit_vector);
}

/// The status symbols as the LCD RAM bytes 0x764E and 0x764F show them
/// (active low); the battery symbol is always on.
pub open spec fn lcd_symbols(m: Pc1500View) -> Seq<bool> {
    let s1 = m.mem_read(0x764E);
    let s2 = m.mem_read(0x764F);
    seq![
        s1 & 0x01 == 0,
        s1 & 0x02 == 0,
        s1 & 0x04 == 0,
        s1 & 0x08 == 0,
        s2 & 0x01 == 0,
        s2 & 0x04 == 0,
        s2 & 0x40 == 0,
        s2 & 0x20 == 0,
        s2 & 0x10 == 0,
        s1 & 0x80 == 0,
        s1 & 0x40 == 0,
        s1 & 0x20 == 0,
        s1 & 0x10 == 0,
        true
    ]
}

impl Pc1500 {
    /// Dot-column byte from the nibbles of two consecutive display bytes.
    fn column_data(&self, adr: u32, upper: bool) -> (r: u8)
        requires
            self.wf(),
            adr < 0xFFFF,
        ensures
            !upper ==> r == low_spec(self@.mem_read(adr)) | (low_spec(self@.mem_read((adr + 1) as u32)) << 4u8),
            upper ==> r == high_spec(self@.mem_read(adr)) | (high_spec(self@.mem_read((adr + 1) as u32)) << 4u8),
    {
        if !upper {
            low(self.read_byte(adr)) | (low(self.read_byte(adr + 1)) << 4u8)
        } else {
            high(self.read_byte(adr)) | (high(self.read_byte(adr + 1)) << 4u8)
        }
    }

    /// Renders display RAM into the RGBA frame and the symbol flags; with
    /// the display switched off the frame is blanked to white.
    #[verifier::rlimit(50)]
    pub fn update_display_buffer(&mut self)
        requires
            old(self).wf(),
        ensures
            final(self).wf(),
            final(self)@ == (Pc1500View { pixels: final(self)@.pixels, symbols: final(self)@.symbols, ..old(self)@ }),
            !old(self).lh5801.disp ==> final(self)@.symbols == old(self)@.symbols
                && forall|i: int| 0 <= i < RGBA_SIZE ==> final(self)@.pixels[i] == 0xff,
            old(self).lh5801.disp ==> final(self)@.symbols == lcd_symbols(old(self)@),
            old(self).lh5801.disp ==> forall|x: int, y: int| 0 <= x < DISPLAY_WIDTH && 0 <= y < DISPLAY_HEIGHT
                ==> #[trigger] pixel_is(final(self)@.pixels, x, y, dot_level(lcd_column(old(self)@, x), y)),
    {
        if !self.lh5801.display_enabled() {
            self.display.clear();
            return;
        }
        let ghost m = self@;
        let mut k: u32 = 0;
        while k < 39
            invariant
                self.wf(),
                k <= 39,
                self@ == (Pc1500View { pixels: self@.pixels, ..m }),
                forall|x: int, y: int| ((0 <= x < k) || (78 <= x < 78 + k)) && 0 <= y < DISPLAY_HEIGHT
                    ==> #[trigger] pixel_is(self@.pixels, x, y, dot_level(lcd_column(m, x), y)),
            decreases 39 - k,
        {
            let ind = 2 * k;
            proof { lemma_bank_offset(ind); }
            let adr = 0x7600u32 | ind;
            let lo = self.column_data(adr, false);
            let hi = self.column_data(adr, true);
            assert(lo == lcd_column(m, k as int));
            assert(hi == lcd_column(m, k + 78));
            let ghost before = self@.pixels;
            self.display.draw_column(k as usize, lo);
            let ghost mid = self@.pixels;
            self.display.draw_column(k as usize + 78, hi);
            assert forall|x: int, y: int| ((0 <= x < k + 1) || (78 <= x < 78 + k + 1)) && 0 <= y < DISPLAY_HEIGHT
                implies #[trigger] pixel_is(self@.pixels, x, y, dot_level(lcd_column(m, x), y)) by {
                if x == k + 78 {
                    assert(pixel_is(self@.pixels, (k as usize + 78) as int, y, dot_level(hi, y)));
                } else if x == k {
                    assert(pixel_is(mid, (k as usize) as int, y, dot_level(lo, y)));
                    assert(same_pixel(self@.pixels, mid, x, y));
                } else {
                    assert(pixel_is(before, x, y, dot_level(lcd_column(m, x), y)));
                    assert(same_pixel(mid, before, x, y));
                    assert(same_pixel(self@.pixels, mid, x, y));
                }
            }
            k = k + 1;
        }
        let mut k: u32 = 0;
        while k < 39
            invariant
                self.wf(),
                k <= 39,
                self@ == (Pc1500View { pixels: self@.pixels, ..m }),
                forall|x: int, y: int| ((0 <= x < 39 + k) || (78 <= x < 117 + k)) && 0 <= y < DISPLAY_HEIGHT
                    ==> #[trigger] pixel_is(self@.pixels, x, y, dot_level(lcd_column(m, x), y)),
            decreases 39 - k,
        {
            let ind = 2 * k;
            proof { lemma_bank_offset(ind); }
            let adr = 0x7700u32 | ind;
            let lo = self.column_data(adr, false);
            let hi = self.column_data(adr, true);
            assert(lo == lcd_column(m, k + 39));
            assert(hi == lcd_column(m, k + 117));
            let ghost before = self@.pixels;
            self.display.draw_column(k as usize + 39, lo);
            let ghost mid = self@.pixels;
            self.display.draw_column(k as usize + 117, hi);
            assert forall|x: int, y: int| ((0 <= x < 39 + k + 1) || (78 <= x < 117 + k + 1)) && 0 <= y < DISPLAY_HEIGHT
                implies #[trigger] pixel_is(self@.pixels, x, y, dot_level(lcd_column(m, x), y)) by {
                if x == k + 117 {
                    assert(pixel_is(self@.pixels, (k as usize + 117) as int, y, dot_level(hi, y)));
                } else if x == k + 39 {
                    assert(pixel_is(mid, (k as usize + 39) as int, y, dot_level(lo, y)));
                    assert(same_pixel(self@.pixels, mid, x, y));
                } else {
                    assert(pixel_is(before, x, y, dot_level(lcd_column(m, x), y)));
                    assert(same_pixel(mid, before, x, y));
                    assert(same_pixel(self@.pixels, mid, x, y));
                }
            }
            k = k + 1;
        }
        self.update_symbols();
    }

    fn update_symbols(&mut self)
        requires
            old(self).wf(),
        ensures
            final(self).wf(),
            final(self)@ == (Pc1500View { symbols: lcd_symbols(old(self)@), ..old(self)@ }),
    {
        let symb1 = self.read_byte(0x764E);
        let symb2 = self.read_byte(0x764F);
        // One flag per symbol, in `Symbol` order (RAD follows bit 2 of the
        // second byte; the battery symbol is always lit).
        let flags: Vec<bool> = vec![
            (symb1 & 0x01) == 0,
            (symb1 & 0x02) == 0,
            (symb1 & 0x04) == 0,
            (symb1 & 0x08) == 0,
            (symb2 & 0x01) == 0,
            (symb2 & 0x04) == 0,
            (symb2 & 0x40) == 0,
            (symb2 & 0x20) == 0,
            (symb2 & 0x10) == 0,
            (symb1 & 0x80) == 0,
            (symb1 & 0x40) == 0,
            (symb1 & 0x20) == 0,
            (symb1 & 0x10) == 0,
            true,
        ];
        self.display.symbol_buffer = flags;
        assert(self@.symbols =~= lcd_symbols(old(self)@));
    }

    /// Renders the LCD and returns it.
    pub fn display(&mut self) -> (r: &DisplayController)
        requires
            old(self).wf(),
        ensures
            final(self).wf(),
            final(self)@ == (Pc1500View { pixels: final(self)@.pixels, symbols: final(self)@.symbols, ..old(self)@ }),
            old(self).lh5801.disp ==> r.symbol_buffer@ == lcd_symbols(old(self)@),
            old(self).lh5801.disp ==> forall|x: int, y: int| 0 <= x < DISPLAY_WIDTH && 0 <= y < DISPLAY_HEIGHT
                ==> #[trigger] pixel_is(r.rgba_buffer@, x, y, dot_level(lcd_column(old(self)@, x), y)),
            !old(self).lh5801.disp ==> forall|i: int| 0 <= i < RGBA_SIZE ==> r.rgba_buffer@[i] == 0xff,
    {
        self.update_display_buffer();
        &self.display
    }
}

} // verus!
