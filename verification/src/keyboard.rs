// Keyboard matrix of the PC-1500: eight strobe lines (KS) select rows, the
// CPU reads the eight return lines through ITA, active low.
use vstd::prelude::*;

verus! {

#[derive(Clone, Copy, Debug, PartialEq, Eq, Structural, Hash)]
pub enum Key {
    A,
    Asterisk,
    B,
    C,
    Cl,
    Control,
    D,
    Dot,
    Down,
    E,
    Eight,
    Enter,
    Equals,
    F,
    F1,
    F2,
    F3,
    F4,
    F5,
    F6,
    Five,
    Four,
    G,
    H,
    I,
    J,
    K,
    L,
    Left,
    LeftParen,
    M,
    Minus,
    Mode,
    N,
    Nine,
    O,
    Off,
    On,
    One,
    P,
    Plus,
    Q,
    Quote,
    R,
    Rcl,
    Right,
    RightParen,
    Rsv,
    S,
    Seven,
    Shift,
    Six,
    Slash,
    Sml,
    Space,
    T,
    Three,
    Two,
    U,
    Up,
    V,
    W,
    X,
    Y,
    Z,
    Zero,
}

/// Number of slots in the pressed-key table.
pub const KEY_SLOTS: usize = 68;

/// Position of a key in the pressed-key table (declaration order).
pub open spec fn key_index(k: Key) -> int {
    match k {
        Key::A => 0,
        Key::Asterisk => 1,
        Key::B => 2,
        Key::C => 3,
        Key::Cl => 4,
        Key::Control => 5,
        Key::D => 6,
        Key::Dot => 7,
        Key::Down => 8,
        Key::E => 9,
        Key::Eight => 10,
        Key::Enter => 11,
        Key::Equals => 12,
        Key::F => 13,
        Key::F1 => 14,
        Key::F2 => 15,
        Key::F3 => 16,
        Key::F4 => 17,
        Key::F5 => 18,
        Key::F6 => 19,
        Key::Five => 20,
        Key::Four => 21,
        Key::G => 22,
        Key::H => 23,
        Key::I => 24,
        Key::J => 25,
        Key::K => 26,
        Key::L => 27,
        Key::Left => 28,
        Key::LeftParen => 29,
        Key::M => 30,
        Key::Minus => 31,
        Key::Mode => 32,
        Key::N => 33,
        Key::Nine => 34,
        Key::O => 35,
        Key::Off => 36,
        Key::On => 37,
        Key::One => 38,
        Key::P => 39,
        Key::Plus => 40,
        Key::Q => 41,
        Key::Quote => 42,
        Key::R => 43,
        Key::Rcl => 44,
        Key::Right => 45,
        Key::RightParen => 46,
        Key::Rsv => 47,
        Key::S => 48,
        Key::Seven => 49,
        Key::Shift => 50,
        Key::Six => 51,
        Key::Slash => 52,
        Key::Sml => 53,
        Key::Space => 54,
        Key::T => 55,
        Key::Three => 56,
        Key::Two => 57,
        Key::U => 58,
        Key::Up => 59,
        Key::V => 60,
        Key::W => 61,
        Key::X => 62,
        Key::Y => 63,
        Key::Z => 64,
        Key::Zero => 65,
    }
}

/// Key wired to return line `col` (0..8) of strobe row `row` (0..8).
pub open spec fn matrix_key(row: int, col: int) -> Key {
    if row == 0 && col == 0 { Key::Two }
    else if row == 0 && col == 1 { Key::Five }
    else if row == 0 && col == 2 { Key::Eight }
    else if row == 0 && col == 3 { Key::H }
    else if row == 0 && col == 4 { Key::Shift }
    else if row == 0 && col == 5 { Key::Y }
    else if row == 0 && col == 6 { Key::N }
    else if row == 0 && col == 7 { Key::Up }
    else if row == 1 && col == 0 { Key::Dot }
    else if row == 1 && col == 1 { Key::Minus }
    else if row == 1 && col == 2 { Key::Off }
    else if row == 1 && col == 3 { Key::S }
    else if row == 1 && col == 4 { Key::F1 }
    else if row == 1 && col == 5 { Key::W }
    else if row == 1 && col == 6 { Key::X }
    else if row == 1 && col == 7 { Key::Rsv }
    else if row == 2 && col == 0 { Key::One }
    else if row == 2 && col == 1 { Key::Four }
    else if row == 2 && col == 2 { Key::Seven }
    else if row == 2 && col == 3 { Key::J }
    else if row == 2 && col == 4 { Key::F5 }
    else if row == 2 && col == 5 { Key::U }
    else if row == 2 && col == 6 { Key::M }
    else if row == 2 && col == 7 { Key::Zero }
    else if row == 3 && col == 0 { Key::RightParen }
    else if row == 3 && col == 1 { Key::L }
    else if row == 3 && col == 2 { Key::O }
    else if row == 3 && col == 3 { Key::K }
    else if row == 3 && col == 4 { Key::F6 }
    else if row == 3 && col == 5 { Key::I }
    else if row == 3 && col == 6 { Key::LeftParen }
    else if row == 3 && col == 7 { Key::Enter }
    else if row == 4 && col == 0 { Key::Plus }
    else if row == 4 && col == 1 { Key::Asterisk }
    else if row == 4 && col == 2 { Key::Slash }
    else if row == 4 && col == 3 { Key::D }
    else if row == 4 && col == 4 { Key::F2 }
    else if row == 4 && col == 5 { Key::E }
    else if row == 4 && col == 6 { Key::C }
    else if row == 4 && col == 7 { Key::Rcl }
    else if row == 5 && col == 0 { Key::Equals }
    else if row == 5 && col == 1 { Key::Left }
    else if row == 5 && col == 2 { Key::P }
    else if row == 5 && col == 3 { Key::F }
    else if row == 5 && col == 4 { Key::F3 }
    else if row == 5 && col == 5 { Key::R }
    else if row == 5 && col == 6 { Key::V }
    else if row == 5 && col == 7 { Key::Space }
    else if row == 6 && col == 0 { Key::Right }
    else if row == 6 && col == 1 { Key::Mode }
    else if row == 6 && col == 2 { Key::Cl }
    else if row == 6 && col == 3 { Key::A }
    else if row == 6 && col == 4 { Key::Control }
    else if row == 6 && col == 5 { Key::Q }
    else if row == 6 && col == 6 { Key::Z }
    else if row == 6 && col == 7 { Key::Sml }
    else if row == 7 && col == 0 { Key::Three }
    else if row == 7 && col == 1 { Key::Six }
    else if row == 7 && col == 2 { Key::Nine }
    else if row == 7 && col == 3 { Key::G }
    else if row == 7 && col == 4 { Key::F4 }
    else if row == 7 && col == 5 { Key::T }
    else if row == 7 && col == 6 { Key::B }
    else { Key::Down }
}

impl Key {
    /// Position of the key in the pressed-key table.
    pub fn index(self) -> (r: usize)
        ensures
            r == key_index(self),
            r < 66,
    {
        match self {
            Key::A => 0,
            Key::Asterisk => 1,
            Key::B => 2,
            Key::C => 3,
            Key::Cl => 4,
            Key::Control => 5,
            Key::D => 6,
            Key::Dot => 7,
            Key::Down => 8,
            Key::E => 9,
            Key::Eight => 10,
            Key::Enter => 11,
            Key::Equals => 12,
            Key::F => 13,
            Key::F1 => 14,
            Key::F2 => 15,
            Key::F3 => 16,
            Key::F4 => 17,
            Key::F5 => 18,
            Key::F6 => 19,
            Key::Five => 20,
            Key::Four => 21,
            Key::G => 22,
            Key::H => 23,
            Key::I => 24,
            Key::J => 25,
            Key::K => 26,
            Key::L => 27,
            Key::Left => 28,
            Key::LeftParen => 29,
            Key::M => 30,
            Key::Minus => 31,
            Key::Mode => 32,
            Key::N => 33,
            Key::Nine => 34,
            Key::O => 35,
            Key::Off => 36,
            Key::On => 37,
            Key::One => 38,
            Key::P => 39,
            Key::Plus => 40,
            Key::Q => 41,
            Key::Quote => 42,
            Key::R => 43,
            Key::Rcl => 44,
            Key::Right => 45,
            Key::RightParen => 46,
            Key::Rsv => 47,
            Key::S => 48,
            Key::Seven => 49,
            Key::Shift => 50,
            Key::Six => 51,
            Key::Slash => 52,
            Key::Sml => 53,
            Key::Space => 54,
            Key::T => 55,
            Key::Three => 56,
            Key::Two => 57,
            Key::U => 58,
            Key::Up => 59,
            Key::V => 60,
            Key::W => 61,
            Key::X => 62,
            Key::Y => 63,
            Key::Z => 64,
            Key::Zero => 65,
        }
    }
}

/// Key wired to return line `col` of strobe row `row`.
fn matrix_key_at(row: u8, col: u8) -> (k: Key)
    requires
        row < 8,
        col < 8,
    ensures
        k == matrix_key(row as int, col as int),
{
    match row {
        0 => match col {
            0 => Key::Two,
            1 => Key::Five,
            2 => Key::Eight,
            3 => Key::H,
            4 => Key::Shift,
            5 => Key::Y,
            6 => Key::N,
            _ => Key::Up,
        },
        1 => match col {
            0 => Key::Dot,
            1 => Key::Minus,
            2 => Key::Off,
            3 => Key::S,
            4 => Key::F1,
            5 => Key::W,
            6 => Key::X,
            _ => Key::Rsv,
        },
        2 => match col {
            0 => Key::One,
            1 => Key::Four,
            2 => Key::Seven,
            3 => Key::J,
            4 => Key::F5,
            5 => Key::U,
            6 => Key::M,
            _ => Key::Zero,
        },
        3 => match col {
            0 => Key::RightParen,
            1 => Key::L,
            2 => Key::O,
            3 => Key::K,
            4 => Key::F6,
            5 => Key::I,
            6 => Key::LeftParen,
            _ => Key::Enter,
        },
        4 => match col {
            0 => Key::Plus,
            1 => Key::Asterisk,
            2 => Key::Slash,
            3 => Key::D,
            4 => Key::F2,
            5 => Key::E,
            6 => Key::C,
            _ => Key::Rcl,
        },
        5 => match col {
            0 => Key::Equals,
            1 => Key::Left,
            2 => Key::P,
            3 => Key::F,
            4 => Key::F3,
            5 => Key::R,
            6 => Key::V,
            _ => Key::Space,
        },
        6 => match col {
            0 => Key::Right,
            1 => Key::Mode,
            2 => Key::Cl,
            3 => Key::A,
            4 => Key::Control,
            5 => Key::Q,
            6 => Key::Z,
            _ => Key::Sml,
        },
        _ => match col {
            0 => Key::Three,
            1 => Key::Six,
            2 => Key::Nine,
            3 => Key::G,
            4 => Key::F4,
            5 => Key::T,
            6 => Key::B,
            _ => Key::Down,
        },
    }
}

#[derive(Debug)]
pub struct Keyboard {
    pub ks: u8,
    pub pressed_keys: Vec<bool>,
}

impl Keyboard {
    pub open spec fn wf(&self) -> bool {
        self.pressed_keys@.len() == KEY_SLOTS
    }

    /// Whether a key is held down.
    pub open spec fn is_down(&self, k: Key) -> bool {
        self.pressed_keys@[key_index(k)]
    }

    /// Return lines driven by the first `n` keys of strobe row `row`.
    pub open spec fn row_bits(&self, row: int, n: int) -> u8
        decreases n,
    {
        if n <= 0 {
            0
        } else {
            self.row_bits(row, n - 1) | (if self.is_down(matrix_key(row, n - 1)) { 1u8 << ((n - 1) as u8) } else { 0u8 })
        }
    }

    /// Return lines driven by the strobed rows among the first `n` rows.
    pub open spec fn rows_bits(&self, ks: u8, n: int) -> u8
        decreases n,
    {
        if n <= 0 {
            0
        } else {
            self.rows_bits(ks, n - 1) | (if ks & (1u8 << ((n - 1) as u8)) != 0 { self.row_bits(n - 1, 8) } else { 0u8 })
        }
    }

    /// What ITA reads: the keys of the strobed rows pull their return lines
    /// low; lines with no pressed key read high.
    pub open spec fn input_spec(&self) -> u8 {
        self.rows_bits(self.ks, 8) ^ 0xff
    }

    /// No key held, no row strobed.
    pub fn new() -> (r: Self)
        ensures
            r.wf(),
            r.ks == 0,
            forall|k: Key| !r.is_down(k),
    {
        let mut v: Vec<bool> = Vec::new();
        let mut i: usize = 0;
        while i < KEY_SLOTS
            invariant
                i <= KEY_SLOTS,
                v@.len() == i,
                forall|j: int| 0 <= j < i ==> !v@[j],
            decreases KEY_SLOTS - i,
        {
            v.push(false);
            i = i + 1;
        }
        let r = Self { ks: 0, pressed_keys: v };
        assert forall|k: Key| !r.is_down(k) by {
            assert(0 <= key_index(k) < 66);
        }
        r
    }

    /// Drives the strobe lines.
    pub fn set_ks(&mut self, ks: u8)
        ensures
            final(self).ks == ks,
            final(self).pressed_keys@ == old(self).pressed_keys@,
    {
        self.ks = ks;
    }

    fn get_ks(&self) -> (r: u8)
        ensures
            r == self.ks,
    {
        self.ks
    }

    pub fn press(&mut self, key: Key)
        requires
            old(self).wf(),
        ensures
            final(self).wf(),
            final(self).ks == old(self).ks,
            final(self).pressed_keys@ == old(self).pressed_keys@.update(key_index(key), true),
            final(self).is_down(key),
            forall|k: Key| k != key ==> final(self).is_down(k) == old(self).is_down(k),
    {
        let i = key.index();
        self.pressed_keys.set(i, true);
        proof { lemma_key_index_injective(); }
    }

    pub fn release(&mut self, key: Key)
        requires
            old(self).wf(),
        ensures
            final(self).wf(),
            final(self).ks == old(self).ks,
            final(self).pressed_keys@ == old(self).pressed_keys@.update(key_index(key), false),
            !final(self).is_down(key),
            forall|k: Key| k != key ==> final(self).is_down(k) == old(self).is_down(k),
    {
        let i = key.index();
        self.pressed_keys.set(i, false);
        proof { lemma_key_index_injective(); }
    }

    fn row_input(&self, row: u8) -> (r: u8)
        requires
            self.wf(),
            row < 8,
        ensures
            r == self.row_bits(row as int, 8),
    {
        let mut data: u8 = 0;
        let mut col: u8 = 0;
        while col < 8
            invariant
                self.wf(),
                row < 8,
                col <= 8,
                data == self.row_bits(row as int, col as int),
            decreases 8 - col,
        {
            let k = matrix_key_at(row, col);
            let i = k.index();
            if self.pressed_keys[i] {
                data = data | (1u8 << col);
            } else {
                data = data | 0u8;
            }
            col = col + 1;
        }
        data
    }

    /// The value the CPU reads with ITA.
    pub fn input(&self) -> (r: u8)
        requires
            self.wf(),
        ensures
            r == self.input_spec(),
    {
        let ks = self.get_ks();
        let mut data: u8 = 0;
        let mut row: u8 = 0;
        while row < 8
            invariant
                self.wf(),
                ks == self.ks,
                row <= 8,
                data == self.rows_bits(ks, row as int),
            decreases 8 - row,
        {
            if ks & (1u8 << row) != 0 {
                let bits = self.row_input(row);
                data = data | bits;
            } else {
                data = data | 0u8;
            }
            row = row + 1;
        }
        data ^ 0xff
    }
}

/// Different keys occupy different slots of the pressed-key table.
pub proof fn lemma_key_index_injective()
    ensures
        forall|a: Key, b: Key| #[trigger] key_index(a) == #[trigger] key_index(b) ==> a == b,
        forall|a: Key| 0 <= #[trigger] key_index(a) < 66,
{
}

proof fn lemma_row_bits_idle(kb: Keyboard, row: int, n: int)
    requires
        forall|k: Key| !kb.is_down(k),
    ensures
        kb.row_bits(row, n) == 0,
    decreases n,
{
    if n > 0 {
        lemma_row_bits_idle(kb, row, n - 1);
        assert(0u8 | 0u8 == 0u8) by (bit_vector);
    }
}

proof fn lemma_rows_bits_idle(kb: Keyboard, ks: u8, n: int)
    requires
        forall|k: Key| !kb.is_down(k),
    ensures
        kb.rows_bits(ks, n) == 0,
    decreases n,
{
    if n > 0 {
        lemma_rows_bits_idle(kb, ks, n - 1);
        lemma_row_bits_idle(kb, n - 1, 8);
        assert(0u8 | 0u8 == 0u8) by (bit_vector);
    }
}

/// With no key held, ITA reads all return lines high, whatever is strobed.
pub proof fn lemma_idle_keyboard_reads_ff(kb: Keyboard)
    requires
        forall|k: Key| !kb.is_down(k),
    ensures
        kb.input_spec() == 0xff,
{
    lemma_rows_bits_idle(kb, kb.ks, 8);
    assert(0u8 ^ 0xffu8 == 0xffu8) by (bit_vector);
}

} // verus!
