// A generic 8x8 key matrix scanned one row at a time.
use vstd::prelude::*;

verus! {

#[derive(Debug, Clone)]
pub struct KeyboardController {
    /// Row-major 8x8 matrix of key states.
    pub matrix: Vec<bool>,
    pub current_row: u8,
}

/// The key matrix after a host key event: digits 1-9 (scancodes 11-19) go to
/// rows 0-2, the letter row (30-37) to row 4, space (57) to (7, 0) and enter
/// (28) to (7, 7); other scancodes change nothing.
pub open spec fn after_pc_key(m: Seq<bool>, scancode: u32, pressed: bool) -> Seq<bool> {
    if 11 <= scancode <= 19 {
        m.update(((scancode - 11) / 3) * 8 + (scancode - 11) % 3, pressed)
    } else if 30 <= scancode <= 37 {
        m.update(4 * 8 + (scancode - 30), pressed)
    } else if scancode == 57 {
        m.update(56int, pressed)
    } else if scancode == 28 {
        m.update(63int, pressed)
    } else {
        m
    }
}

impl KeyboardController {
    pub open spec fn wf(&self) -> bool {
        &&& self.matrix@.len() == 64
        &&& self.current_row < 8
    }

    /// Whether the key at (row, col) is held.
    pub open spec fn down(&self, row: int, col: int) -> bool {
        self.matrix@[row * 8 + col]
    }

    /// The return lines of row `row`: bit `c` set when key (row, c) is held.
    pub open spec fn row_bits(&self, row: int, n: int) -> u8
        decreases n,
    {
        if n <= 0 {
            0
        } else {
            self.row_bits(row, n - 1) | (if self.down(row, n - 1) { 1u8 << ((n - 1) as u8) } else { 0u8 })
        }
    }

    /// No key held, scanning row 0.
    pub fn new() -> (r: Self)
        ensures
            r.wf(),
            r.current_row == 0,
            forall|row: int, col: int| 0 <= row < 8 && 0 <= col < 8 ==> !#[trigger] r.down(row, col),
    {
        let mut m: Vec<bool> = Vec::new();
        let mut i: usize = 0;
        while i < 64
            invariant
                i <= 64,
                m@.len() == i,
                forall|j: int| 0 <= j < i ==> !m@[j],
            decreases 64 - i,
        {
            m.push(false);
            i = i + 1;
        }
        Self { matrix: m, current_row: 0 }
    }

    /// Selects the row to scan; rows past 7 are ignored.
    pub fn set_scan_row(&mut self, row: u8)
        requires
            old(self).wf(),
        ensures
            final(self).wf(),
            final(self).matrix@ == old(self).matrix@,
            final(self).current_row == (if row < 8 { row } else { old(self).current_row }),
    {
        if row < 8 {
            self.current_row = row;
        }
    }

    /// The return lines of the scanned row.
    pub fn read_columns(&self) -> (r: u8)
        requires
            self.wf(),
        ensures
            r == self.row_bits(self.current_row as int, 8),
    {
        let row = self.current_row as usize;
        let mut result: u8 = 0;
        let mut col: usize = 0;
        while col < 8
            invariant
                self.wf(),
                row == self.current_row,
                col <= 8,
                result == self.row_bits(row as int, col as int),
            decreases 8 - col,
        {
            if self.matrix[row * 8 + col] {
                result = result | (1u8 << (col as u8));
            } else {
                result = result | 0u8;
            }
            col = col + 1;
        }
        result
    }

    /// Sets the state of key (row, col); out-of-range keys are ignored.
    pub fn set_key(&mut self, row: u8, col: u8, pressed: bool)
        requires
            old(self).wf(),
        ensures
            final(self).wf(),
            final(self).current_row == old(self).current_row,
            row < 8 && col < 8 ==> final(self).matrix@ == old(self).matrix@.update(row * 8 + col, pressed),
            !(row < 8 && col < 8) ==> final(self).matrix@ == old(self).matrix@,
    {
        if row < 8 && col < 8 {
            self.matrix.set((row as usize) * 8 + (col as usize), pressed);
        }
    }

    /// State of key (row, col); out-of-range keys read as released.
    pub fn get_key(&self, row: u8, col: u8) -> (r: bool)
        requires
            self.wf(),
        ensures
            r == (row < 8 && col < 8 && self.down(row as int, col as int)),
    {
        if row < 8 && col < 8 {
            self.matrix[(row as usize) * 8 + (col as usize)]
        } else {
            false
        }
    }

    /// Releases every key.
    pub fn clear_all(&mut self)
        requires
            old(self).wf(),
        ensures
            final(self).wf(),
            final(self).current_row == old(self).current_row,
            forall|row: int, col: int| 0 <= row < 8 && 0 <= col < 8 ==> !#[trigger] final(self).down(row, col),
    {
        let mut i: usize = 0;
        while i < 64
            invariant
                self.wf(),
                self.current_row == old(self).current_row,
                i <= 64,
                forall|j: int| 0 <= j < i ==> !self.matrix@[j],
            decreases 64 - i,
        {
            self.matrix.set(i, false);
            i = i + 1;
        }
    }

    /// Maps a PC scancode to the matrix: digits 1-9 (scancodes 11-19) to rows
    /// 0-2, the letter row (30-38) to row 4, space (57) to (7, 0) and enter
    /// (28) to (7, 7); other scancodes are ignored.
    pub fn handle_pc_key(&mut self, scancode: u32, pressed: bool)
        requires
            old(self).wf(),
        ensures
            final(self).wf(),
            final(self).current_row == old(self).current_row,
            11 <= scancode <= 19 ==> final(self).matrix@ == old(self).matrix@.update(
                ((scancode - 11) / 3) * 8 + (scancode - 11) % 3, pressed),
            30 <= scancode <= 37 ==> final(self).matrix@ == old(self).matrix@.update(4 * 8 + (scancode - 30), pressed),
            scancode == 38 ==> final(self).matrix@ == old(self).matrix@,
            scancode == 57 ==> final(self).matrix@ == old(self).matrix@.update(56int, pressed),
            scancode == 28 ==> final(self).matrix@ == old(self).matrix@.update(63int, pressed),
            !(11 <= scancode <= 19 || 30 <= scancode <= 38 || scancode == 57 || scancode == 28)
                ==> final(self).matrix@ == old(self).matrix@,
            final(self).matrix@ == after_pc_key(old(self).matrix@, scancode, pressed),
    {
        if 11 <= scancode && scancode <= 19 {
            let num = scancode - 10;
            let row: u32 = if num == 0 { 3 } else { (num - 1) / 3 };
            let col: u32 = if num == 0 { 2 } else { (num - 1) % 3 };
            self.set_key(row as u8, col as u8, pressed);
        } else if 30 <= scancode && scancode <= 38 {
            let row: u32 = 4;
            let col = scancode - 30;
            self.set_key(row as u8, col as u8, pressed);
        } else if scancode == 57 {
            self.set_key(7, 0, pressed);
        } else if scancode == 28 {
            self.set_key(7, 7, pressed);
        }
    }
}

/// A key set in the matrix reads back, and setting it leaves the other keys.
pub proof fn lemma_set_get_key(k: KeyboardController, row: u8, col: u8, r2: u8, c2: u8, pressed: bool)
    requires
        k.wf(),
        row < 8,
        col < 8,
        r2 < 8,
        c2 < 8,
        row != r2 || col != c2,
    ensures
        k.matrix@.update(row * 8 + col, pressed)[row * 8 + col] == pressed,
        k.matrix@.update(row * 8 + col, pressed)[r2 * 8 + c2] == k.matrix@[r2 * 8 + c2],
{
}

pub(crate) proof fn lemma_bit_of_or(a: u8, m: u8, c: u8)
    by (bit_vector)
    requires
        m < 8,
        c < 8,
    ensures
        (((a | (1u8 << m)) >> c) & 1 != 0) == (((a >> c) & 1 != 0) || c == m),
        (((a | 0u8) >> c) & 1 != 0) == ((a >> c) & 1 != 0),
        ((0u8 >> c) & 1 != 0) == false,
{
}

proof fn lemma_row_bits_bit(k: KeyboardController, row: int, n: int, c: u8)
    requires
        0 <= n <= 8,
        c < 8,
    ensures
        ((k.row_bits(row, n) >> c) & 1 != 0) == (c < n && k.down(row, c as int)),
    decreases n,
{
    lemma_bit_of_or(0, 0, c);
    if n > 0 {
        lemma_row_bits_bit(k, row, n - 1, c);
        lemma_bit_of_or(k.row_bits(row, n - 1), (n - 1) as u8, c);
    }
}

/// Bit `c` of what `read_columns` returns is set exactly when key
/// (scanned row, `c`) is held.
pub proof fn lemma_read_columns_bit(k: KeyboardController, c: u8)
    requires
        k.wf(),
        c < 8,
    ensures
        ((k.row_bits(k.current_row as int, 8) >> c) & 1 != 0) == k.down(k.current_row as int, c as int),
{
    lemma_row_bits_bit(k, k.current_row as int, 8, c);
}

} // verus!
