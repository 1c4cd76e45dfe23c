// LCD renderer reading display RAM straight from a plain memory map.
use vstd::prelude::*;
use crate::display::{DISPLAY_WIDTH, DISPLAY_HEIGHT, RGBA_SIZE, pixel_offset, pixel_is, same_pixel, dot_on,
    dot_level, lemma_pixels_apart};
use crate::memory_map::MemoryBus;

verus! {

/// The dot-column byte of LCD column `x` in the memory map (same layout as
/// the PC-1500 display RAM: left half from the low nibbles, right half from
/// the high nibbles of 0x7600.. and 0x7700..).
pub open spec fn column_of(m: &MemoryBus, x: int) -> u8 {
    let base: int = if x < 39 || (78 <= x && x < 117) { 0x7600 } else { 0x7700 };
    let k: int = if x < 39 { x } else if x < 78 { x - 39 } else if x < 117 { x - 78 } else { x - 117 };
    let a = (base + 2 * k) as u32;
    if x < 78 {
        (m.byte_at(a) & 0x0F) | ((m.byte_at((a + 1) as u32) & 0x0F) << 4u8)
    } else {
        (m.byte_at(a) >> 4u8) | ((m.byte_at((a + 1) as u32) >> 4u8) << 4u8)
    }
}

pub(crate) fn put_pixel(buf: &mut Vec<u8>, x: usize, y: usize, v: u8)
    requires
        old(buf)@.len() == RGBA_SIZE,
        x < DISPLAY_WIDTH,
        y < DISPLAY_HEIGHT,
    ensures
        final(buf)@.len() == RGBA_SIZE,
        pixel_is(final(buf)@, x as int, y as int, v),
        forall|x2: int, y2: int| 0 <= x2 < DISPLAY_WIDTH && 0 <= y2 < DISPLAY_HEIGHT && (x2 != x || y2 != y)
            ==> #[trigger] same_pixel(final(buf)@, old(buf)@, x2, y2),
{
    proof {
        assert(0 <= (y * DISPLAY_WIDTH + x) * 4 && (y * DISPLAY_WIDTH + x) * 4 + 3 < RGBA_SIZE) by (nonlinear_arith)
            requires x < DISPLAY_WIDTH, y < DISPLAY_HEIGHT;
    }
    let index = (y * DISPLAY_WIDTH + x) * 4;
    buf.set(index, v);
    buf.set(index + 1, v);
    buf.set(index + 2, v);
    buf.set(index + 3, 255);
    proof {
        assert forall|x2: int, y2: int| 0 <= x2 < DISPLAY_WIDTH && 0 <= y2 < DISPLAY_HEIGHT && (x2 != x || y2 != y)
            implies #[trigger] same_pixel(buf@, old(buf)@, x2, y2) by {
            lemma_pixels_apart(x as int, y as int, x2, y2);
        }
    }
}

fn draw_column(buf: &mut Vec<u8>, x: usize, data: u8)
    requires
        old(buf)@.len() == RGBA_SIZE,
        x < DISPLAY_WIDTH,
    ensures
        final(buf)@.len() == RGBA_SIZE,
        forall|y: int| 0 <= y < DISPLAY_HEIGHT ==> #[trigger] pixel_is(final(buf)@, x as int, y, dot_level(data, y)),
        forall|x2: int, y2: int| 0 <= x2 < DISPLAY_WIDTH && 0 <= y2 < DISPLAY_HEIGHT && x2 != x
            ==> #[trigger] same_pixel(final(buf)@, old(buf)@, x2, y2),
{
    let mut b: usize = 0;
    while b < 7
        invariant
            buf@.len() == RGBA_SIZE,
            x < DISPLAY_WIDTH,
            b <= 7,
            forall|y: int| 0 <= y < b ==> #[trigger] pixel_is(buf@, x as int, y, dot_level(data, y)),
            forall|x2: int, y2: int| 0 <= x2 < DISPLAY_WIDTH && 0 <= y2 < DISPLAY_HEIGHT && (x2 != x || y2 >= b)
                ==> #[trigger] same_pixel(buf@, old(buf)@, x2, y2),
        decreases 7 - b,
    {
        let ghost before = buf@;
        let on = (data >> (b as u8)) & 0x01 != 0;
        assert(((b as int) as u8) == (b as u8));
        assert(on == dot_on(data, b as int));
        if on {
            put_pixel(buf, x, b, 0);
        } else {
            put_pixel(buf, x, b, 255);
        }
        assert forall|y: int| 0 <= y < b + 1 implies #[trigger] pixel_is(buf@, x as int, y, dot_level(data, y)) by {
            if y < b {
                assert(pixel_is(before, x as int, y, dot_level(data, y)));
                assert(same_pixel(buf@, before, x as int, y));
            } else {
                assert(dot_level(data, y) == (if on { 0u8 } else { 255u8 }));
            }
        }
        assert forall|x2: int, y2: int| 0 <= x2 < DISPLAY_WIDTH && 0 <= y2 < DISPLAY_HEIGHT && (x2 != x || y2 >= b + 1)
            implies #[trigger] same_pixel(buf@, old(buf)@, x2, y2) by {
            assert(same_pixel(buf@, before, x2, y2));
            assert(same_pixel(before, old(buf)@, x2, y2));
        }
        b = b + 1;
    }
}

#[derive(Debug, Clone)]
pub struct DisplayController {
    pub rgba_buffer: Vec<u8>,
}

impl DisplayController {
    /// A blank (all zero) frame.
    pub fn new() -> (r: Self)
        ensures
            r.rgba_buffer@.len() == RGBA_SIZE,
            forall|i: int| 0 <= i < RGBA_SIZE ==> r.rgba_buffer@[i] == 0,
    {
        let mut rgba: Vec<u8> = Vec::new();
        let mut i: usize = 0;
        while i < RGBA_SIZE
            invariant
                i <= RGBA_SIZE,
                rgba@.len() == i,
                forall|j: int| 0 <= j < i ==> rgba@[j] == 0,
            decreases RGBA_SIZE - i,
        {
            rgba.push(0);
            i = i + 1;
        }
        Self { rgba_buffer: rgba }
    }

    pub fn rgba_buffer(&self) -> (r: &[u8])
        ensures
            r@ == self.rgba_buffer@,
    {
        self.rgba_buffer.as_slice()
    }

    fn column_data(memory: &MemoryBus, adr: u32, upper: bool) -> (r: u8)
        requires
            memory.wf(),
            adr < 0xFFFF,
        ensures
            !upper ==> r == (memory.byte_at(adr) & 0x0F) | ((memory.byte_at((adr + 1) as u32) & 0x0F) << 4u8),
            upper ==> r == (memory.byte_at(adr) >> 4u8) | ((memory.byte_at((adr + 1) as u32) >> 4u8) << 4u8),
    {
        let a = memory.read_byte(adr, false, false);
        let b = memory.read_byte(adr + 1, false, false);
        if !upper {
            (a & 0x0F) | ((b & 0x0F) << 4u8)
        } else {
            (a >> 4u8) | ((b >> 4u8) << 4u8)
        }
    }

    /// Renders the 156x7 dots from the display RAM of `memory`.
    #[verifier::rlimit(50)]
    pub fn update_buffer(&mut self, memory: &MemoryBus)
        requires
            old(self).rgba_buffer@.len() == RGBA_SIZE,
            memory.wf(),
        ensures
            final(self).rgba_buffer@.len() == RGBA_SIZE,
            forall|x: int, y: int| 0 <= x < DISPLAY_WIDTH && 0 <= y < DISPLAY_HEIGHT
                ==> #[trigger] pixel_is(final(self).rgba_buffer@, x, y, dot_level(column_of(memory, x), y)),
    {
        let mut i: usize = 0;
        while i < RGBA_SIZE
            invariant
                i <= RGBA_SIZE,
                self.rgba_buffer@.len() == RGBA_SIZE,
            decreases RGBA_SIZE - i,
        {
            self.rgba_buffer.set(i, 0xff);
            i = i + 1;
        }
        let mut k: u32 = 0;
        while k < 39
            invariant
                memory.wf(),
                k <= 39,
                self.rgba_buffer@.len() == RGBA_SIZE,
                forall|x: int, y: int| ((0 <= x < k) || (78 <= x < 78 + k)) && 0 <= y < DISPLAY_HEIGHT
                    ==> #[trigger] pixel_is(self.rgba_buffer@, x, y, dot_level(column_of(memory, x), y)),
            decreases 39 - k,
        {
            let adr = 0x7600u32 + 2 * k;
            let lo = Self::column_data(memory, adr, false);
            let hi = Self::column_data(memory, adr, true);
            assert(lo == column_of(memory, k as int));
            assert(hi == column_of(memory, k + 78));
            let ghost before = self.rgba_buffer@;
            draw_column(&mut self.rgba_buffer, k as usize, lo);
            let ghost mid = self.rgba_buffer@;
            draw_column(&mut self.rgba_buffer, k as usize + 78, hi);
            assert forall|x: int, y: int| ((0 <= x < k + 1) || (78 <= x < 78 + k + 1)) && 0 <= y < DISPLAY_HEIGHT
                implies #[trigger] pixel_is(self.rgba_buffer@, x, y, dot_level(column_of(memory, x), y)) by {
                if x == k + 78 {
                    assert(pixel_is(self.rgba_buffer@, (k as usize + 78) as int, y, dot_level(hi, y)));
                } else if x == k {
                    assert(pixel_is(mid, (k as usize) as int, y, dot_level(lo, y)));
                    assert(same_pixel(self.rgba_buffer@, mid, x, y));
                } else {
                    assert(pixel_is(before, x, y, dot_level(column_of(memory, x), y)));
                    assert(same_pixel(mid, before, x, y));
                    assert(same_pixel(self.rgba_buffer@, mid, x, y));
                }
            }
            k = k + 1;
        }
        let mut k: u32 = 0;
        while k < 39
            invariant
                memory.wf(),
                k <= 39,
                self.rgba_buffer@.len() == RGBA_SIZE,
                forall|x: int, y: int| ((0 <= x < 39 + k) || (78 <= x < 117 + k)) && 0 <= y < DISPLAY_HEIGHT
                    ==> #[trigger] pixel_is(self.rgba_buffer@, x, y, dot_level(column_of(memory, x), y)),
            decreases 39 - k,
        {
            let adr = 0x7700u32 + 2 * k;
            let lo = Self::column_data(memory, adr, false);
            let hi = Self::column_data(memory, adr, true);
            assert(lo == column_of(memory, k + 39));
            assert(hi == column_of(memory, k + 117));
            let ghost before = self.rgba_buffer@;
            draw_column(&mut self.rgba_buffer, k as usize + 39, lo);
            let ghost mid = self.rgba_buffer@;
            draw_column(&mut self.rgba_buffer, k as usize + 117, hi);
            assert forall|x: int, y: int| ((0 <= x < 39 + k + 1) || (78 <= x < 117 + k + 1)) && 0 <= y < DISPLAY_HEIGHT
                implies #[trigger] pixel_is(self.rgba_buffer@, x, y, dot_level(column_of(memory, x), y)) by {
                if x == k + 117 {
                    assert(pixel_is(self.rgba_buffer@, (k as usize + 117) as int, y, dot_level(hi, y)));
                } else if x == k + 39 {
                    assert(pixel_is(mid, (k as usize + 39) as int, y, dot_level(lo, y)));
                    assert(same_pixel(self.rgba_buffer@, mid, x, y));
                } else {
                    assert(pixel_is(before, x, y, dot_level(column_of(memory, x), y)));
                    assert(same_pixel(mid, before, x, y));
                    assert(same_pixel(self.rgba_buffer@, mid, x, y));
                }
            }
            k = k + 1;
        }
    }
}

} // verus!
