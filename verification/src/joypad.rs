// Key-code view of the PC-1500 keyboard: each key has a matrix code
// (row in the high nibble, column in the low one) and the pressed keys are a
// table indexed by that code.
use vstd::prelude::*;
use crate::pc1500::interrupts::InterruptController;

verus! {

#[derive(Clone, Copy, Debug, PartialEq, Eq, Structural, Hash)]
pub enum Key {
    Space,
    Zero,
    P,
    Shift,
    F1,
    One,
    A,
    Q,
    Sml,
    F2,
    Two,
    B,
    R,
    F3,
    Three,
    C,
    S,
    F4,
    Four,
    D,
    T,
    F5,
    Five,
    E,
    U,
    F6,
    Six,
    F,
    V,
    Seven,
    G,
    W,
    Left,
    Cl,
    LeftParen,
    Eight,
    H,
    X,
    Up,
    Down,
    Rcl,
    RightParen,
    Nine,
    I,
    Y,
    UpArrow,
    Asterisk,
    J,
    Z,
    DownArrow,
    Def,
    Plus,
    K,
    Right,
    L,
    Enter,
    Minus,
    Equals,
    M,
    Dot,
    N,
    Off,
    Mode,
    Slash,
    O,
    Exclamation,
    On,
    Ac,
    Quote,
    Hash,
    Dollar,
}

/// Matrix code of a key.
pub open spec fn key_code(k: Key) -> u8 {
    match k {
        Key::Space => 0x02,
        Key::Zero => 0x03,
        Key::P => 0x05,
        Key::Shift => 0x10,
        Key::F1 => 0x11,
        Key::One => 0x13,
        Key::A => 0x14,
        Key::Q => 0x15,
        Key::Sml => 0x20,
        Key::F2 => 0x21,
        Key::Two => 0x23,
        Key::B => 0x24,
        Key::R => 0x25,
        Key::F3 => 0x31,
        Key::Three => 0x33,
        Key::C => 0x34,
        Key::S => 0x35,
        Key::F4 => 0x41,
        Key::Four => 0x43,
        Key::D => 0x44,
        Key::T => 0x45,
        Key::F5 => 0x51,
        Key::Five => 0x53,
        Key::E => 0x54,
        Key::U => 0x55,
        Key::F6 => 0x61,
        Key::Six => 0x63,
        Key::F => 0x64,
        Key::V => 0x65,
        Key::Seven => 0x73,
        Key::G => 0x74,
        Key::W => 0x75,
        Key::Left => 0x80,
        Key::Cl => 0x81,
        Key::LeftParen => 0x82,
        Key::Eight => 0x83,
        Key::H => 0x84,
        Key::X => 0x85,
        Key::Up => 0x90,
        Key::Down => 0x91,
        Key::Rcl => 0x92,
        Key::RightParen => 0x93,
        Key::Nine => 0x94,
        Key::I => 0x95,
        Key::Y => 0x96,
        Key::UpArrow => 0xA0,
        Key::Asterisk => 0xA2,
        Key::J => 0xA4,
        Key::Z => 0xA5,
        Key::DownArrow => 0xB0,
        Key::Def => 0xB1,
        Key::Plus => 0xB2,
        Key::K => 0xB4,
        Key::Right => 0xC0,
        Key::L => 0xC4,
        Key::Enter => 0xD0,
        Key::Minus => 0xD2,
        Key::Equals => 0xD3,
        Key::M => 0xD4,
        Key::Dot => 0xE2,
        Key::N => 0xE4,
        Key::Off => 0xF0,
        Key::Mode => 0xF1,
        Key::Slash => 0xF2,
        Key::O => 0xF4,
        Key::Exclamation => 0xF5,
        Key::On => 0xF6,
        Key::Ac => 0xF7,
        Key::Quote => 0xF8,
        Key::Hash => 0xF9,
        Key::Dollar => 0xFA,
    }
}


/// Position of a key in declaration order.
pub open spec fn joy_index(k: Key) -> int {
    match k {
        Key::Space => 0,
        Key::Zero => 1,
        Key::P => 2,
        Key::Shift => 3,
        Key::F1 => 4,
        Key::One => 5,
        Key::A => 6,
        Key::Q => 7,
        Key::Sml => 8,
        Key::F2 => 9,
        Key::Two => 10,
        Key::B => 11,
        Key::R => 12,
        Key::F3 => 13,
        Key::Three => 14,
        Key::C => 15,
        Key::S => 16,
        Key::F4 => 17,
        Key::Four => 18,
        Key::D => 19,
        Key::T => 20,
        Key::F5 => 21,
        Key::Five => 22,
        Key::E => 23,
        Key::U => 24,
        Key::F6 => 25,
        Key::Six => 26,
        Key::F => 27,
        Key::V => 28,
        Key::Seven => 29,
        Key::G => 30,
        Key::W => 31,
        Key::Left => 32,
        Key::Cl => 33,
        Key::LeftParen => 34,
        Key::Eight => 35,
        Key::H => 36,
        Key::X => 37,
        Key::Up => 38,
        Key::Down => 39,
        Key::Rcl => 40,
        Key::RightParen => 41,
        Key::Nine => 42,
        Key::I => 43,
        Key::Y => 44,
        Key::UpArrow => 45,
        Key::Asterisk => 46,
        Key::J => 47,
        Key::Z => 48,
        Key::DownArrow => 49,
        Key::Def => 50,
        Key::Plus => 51,
        Key::K => 52,
        Key::Right => 53,
        Key::L => 54,
        Key::Enter => 55,
        Key::Minus => 56,
        Key::Equals => 57,
        Key::M => 58,
        Key::Dot => 59,
        Key::N => 60,
        Key::Off => 61,
        Key::Mode => 62,
        Key::Slash => 63,
        Key::O => 64,
        Key::Exclamation => 65,
        Key::On => 66,
        Key::Ac => 67,
        Key::Quote => 68,
        Key::Hash => 69,
        Key::Dollar => 70,
    }
}

/// Number of keys.
pub const KEY_COUNT: usize = 71;

impl Key {
    /// Position of the key in declaration order.
    pub fn index(self) -> (r: usize)
        ensures
            r == joy_index(self),
            r < KEY_COUNT,
    {
        match self {
            Key::Space => 0,
            Key::Zero => 1,
            Key::P => 2,
            Key::Shift => 3,
            Key::F1 => 4,
            Key::One => 5,
            Key::A => 6,
            Key::Q => 7,
            Key::Sml => 8,
            Key::F2 => 9,
            Key::Two => 10,
            Key::B => 11,
            Key::R => 12,
            Key::F3 => 13,
            Key::Three => 14,
            Key::C => 15,
            Key::S => 16,
            Key::F4 => 17,
            Key::Four => 18,
            Key::D => 19,
            Key::T => 20,
            Key::F5 => 21,
            Key::Five => 22,
            Key::E => 23,
            Key::U => 24,
            Key::F6 => 25,
            Key::Six => 26,
            Key::F => 27,
            Key::V => 28,
            Key::Seven => 29,
            Key::G => 30,
            Key::W => 31,
            Key::Left => 32,
            Key::Cl => 33,
            Key::LeftParen => 34,
            Key::Eight => 35,
            Key::H => 36,
            Key::X => 37,
            Key::Up => 38,
            Key::Down => 39,
            Key::Rcl => 40,
            Key::RightParen => 41,
            Key::Nine => 42,
            Key::I => 43,
            Key::Y => 44,
            Key::UpArrow => 45,
            Key::Asterisk => 46,
            Key::J => 47,
            Key::Z => 48,
            Key::DownArrow => 49,
            Key::Def => 50,
            Key::Plus => 51,
            Key::K => 52,
            Key::Right => 53,
            Key::L => 54,
            Key::Enter => 55,
            Key::Minus => 56,
            Key::Equals => 57,
            Key::M => 58,
            Key::Dot => 59,
            Key::N => 60,
            Key::Off => 61,
            Key::Mode => 62,
            Key::Slash => 63,
            Key::O => 64,
            Key::Exclamation => 65,
            Key::On => 66,
            Key::Ac => 67,
            Key::Quote => 68,
            Key::Hash => 69,
            Key::Dollar => 70,
        }
    }

    /// Every key, in declaration order.
    pub fn all() -> (r: Vec<Key>)
        ensures
            r@.len() == KEY_COUNT,
            forall|i: int| 0 <= i < KEY_COUNT ==> joy_index(#[trigger] r@[i]) == i,
    {
        let mut v: Vec<Key> = Vec::new();
        v.push(Key::Space);
        v.push(Key::Zero);
        v.push(Key::P);
        v.push(Key::Shift);
        v.push(Key::F1);
        v.push(Key::One);
        v.push(Key::A);
        v.push(Key::Q);
        v.push(Key::Sml);
        v.push(Key::F2);
        v.push(Key::Two);
        v.push(Key::B);
        v.push(Key::R);
        v.push(Key::F3);
        v.push(Key::Three);
        v.push(Key::C);
        v.push(Key::S);
        v.push(Key::F4);
        v.push(Key::Four);
        v.push(Key::D);
        v.push(Key::T);
        v.push(Key::F5);
        v.push(Key::Five);
        v.push(Key::E);
        v.push(Key::U);
        v.push(Key::F6);
        v.push(Key::Six);
        v.push(Key::F);
        v.push(Key::V);
        v.push(Key::Seven);
        v.push(Key::G);
        v.push(Key::W);
        v.push(Key::Left);
        v.push(Key::Cl);
        v.push(Key::LeftParen);
        v.push(Key::Eight);
        v.push(Key::H);
        v.push(Key::X);
        v.push(Key::Up);
        v.push(Key::Down);
        v.push(Key::Rcl);
        v.push(Key::RightParen);
        v.push(Key::Nine);
        v.push(Key::I);
        v.push(Key::Y);
        v.push(Key::UpArrow);
        v.push(Key::Asterisk);
        v.push(Key::J);
        v.push(Key::Z);
        v.push(Key::DownArrow);
        v.push(Key::Def);
        v.push(Key::Plus);
        v.push(Key::K);
        v.push(Key::Right);
        v.push(Key::L);
        v.push(Key::Enter);
        v.push(Key::Minus);
        v.push(Key::Equals);
        v.push(Key::M);
        v.push(Key::Dot);
        v.push(Key::N);
        v.push(Key::Off);
        v.push(Key::Mode);
        v.push(Key::Slash);
        v.push(Key::O);
        v.push(Key::Exclamation);
        v.push(Key::On);
        v.push(Key::Ac);
        v.push(Key::Quote);
        v.push(Key::Hash);
        v.push(Key::Dollar);
        v
    }

    /// Matrix code of the key.
    pub fn code(self) -> (r: u8)
        ensures
            r == key_code(self),
    {
        match self {
            Key::Space => 0x02,
            Key::Zero => 0x03,
            Key::P => 0x05,
            Key::Shift => 0x10,
            Key::F1 => 0x11,
            Key::One => 0x13,
            Key::A => 0x14,
            Key::Q => 0x15,
            Key::Sml => 0x20,
            Key::F2 => 0x21,
            Key::Two => 0x23,
            Key::B => 0x24,
            Key::R => 0x25,
            Key::F3 => 0x31,
            Key::Three => 0x33,
            Key::C => 0x34,
            Key::S => 0x35,
            Key::F4 => 0x41,
            Key::Four => 0x43,
            Key::D => 0x44,
            Key::T => 0x45,
            Key::F5 => 0x51,
            Key::Five => 0x53,
            Key::E => 0x54,
            Key::U => 0x55,
            Key::F6 => 0x61,
            Key::Six => 0x63,
            Key::F => 0x64,
            Key::V => 0x65,
            Key::Seven => 0x73,
            Key::G => 0x74,
            Key::W => 0x75,
            Key::Left => 0x80,
            Key::Cl => 0x81,
            Key::LeftParen => 0x82,
            Key::Eight => 0x83,
            Key::H => 0x84,
            Key::X => 0x85,
            Key::Up => 0x90,
            Key::Down => 0x91,
            Key::Rcl => 0x92,
            Key::RightParen => 0x93,
            Key::Nine => 0x94,
            Key::I => 0x95,
            Key::Y => 0x96,
            Key::UpArrow => 0xA0,
            Key::Asterisk => 0xA2,
            Key::J => 0xA4,
            Key::Z => 0xA5,
            Key::DownArrow => 0xB0,
            Key::Def => 0xB1,
            Key::Plus => 0xB2,
            Key::K => 0xB4,
            Key::Right => 0xC0,
            Key::L => 0xC4,
            Key::Enter => 0xD0,
            Key::Minus => 0xD2,
            Key::Equals => 0xD3,
            Key::M => 0xD4,
            Key::Dot => 0xE2,
            Key::N => 0xE4,
            Key::Off => 0xF0,
            Key::Mode => 0xF1,
            Key::Slash => 0xF2,
            Key::O => 0xF4,
            Key::Exclamation => 0xF5,
            Key::On => 0xF6,
            Key::Ac => 0xF7,
            Key::Quote => 0xF8,
            Key::Hash => 0xF9,
            Key::Dollar => 0xFA,
        }
    }
}

/// Code scanned at step `i` of a scan over rows 0-15 and columns 0-5.
pub open spec fn scan_code(i: int) -> u8 {
    ((i / 6) * 16 + (i % 6)) as u8
}

/// The first code, in scan order from step `i`, whose key is held; 0xFF when
/// none is.
pub open spec fn first_pressed_from(keys: Seq<bool>, i: int) -> u8
    decreases 96 - i,
{
    if i >= 96 {
        0xFF
    } else if keys[scan_code(i) as int] {
        scan_code(i)
    } else {
        first_pressed_from(keys, i + 1)
    }
}

/// Active-low row bits of rows `0..n` (n <= 8) of a matrix column: the bit
/// of a row is low when the key at that row and column is held.
pub open spec fn column_bits(keys: Seq<bool>, column: u8, n: int) -> u8
    decreases n,
{
    if n <= 0 {
        0xFF
    } else {
        let rest = column_bits(keys, column, n - 1);
        if keys[(n - 1) * 16 + column] { rest & !(1u8 << ((n - 1) as u8)) } else { rest }
    }
}

/// Number of distinct codes the pressed-key table tracks.
pub const CODE_COUNT: usize = 256;

#[derive(Debug)]
pub struct Keyboard {
    /// One entry per key code: whether the key with that code is held.
    pub pressed_keys: Vec<bool>,
    pub col_select: u8,
    pub row_select: u8,
}

impl Keyboard {
    pub open spec fn wf(&self) -> bool {
        self.pressed_keys@.len() == CODE_COUNT
    }

    pub open spec fn is_down(&self, key: Key) -> bool {
        self.pressed_keys@[key_code(key) as int]
    }

    pub fn new() -> (r: Self)
        ensures
            r.wf(),
            forall|c: int| 0 <= c < CODE_COUNT ==> !r.pressed_keys@[c],
            r.col_select == 0,
            r.row_select == 0,
    {
        let mut v: Vec<bool> = Vec::new();
        let mut i: usize = 0;
        while i < CODE_COUNT
            invariant
                i <= CODE_COUNT,
                v@.len() == i,
                forall|c: int| 0 <= c < i ==> !v@[c],
            decreases CODE_COUNT - i,
        {
            v.push(false);
            i = i + 1;
        }
        Self { pressed_keys: v, col_select: 0, row_select: 0 }
    }

    /// Marks the key held and raises the maskable interrupt request.
    pub fn press(&mut self, key: Key, ints: &mut InterruptController)
        requires
            old(self).wf(),
        ensures
            final(self).wf(),
            final(self).pressed_keys@ == old(self).pressed_keys@.update(key_code(key) as int, true),
            final(self).col_select == old(self).col_select,
            final(self).row_select == old(self).row_select,
            *final(ints) == (InterruptController { ir1_active: true, ..*old(ints) }),
    {
        let c = key.code();
        self.pressed_keys.set(c as usize, true);
        ints.request_maskable_interrupt();
    }

    pub fn release(&mut self, key: Key)
        requires
            old(self).wf(),
        ensures
            final(self).wf(),
            final(self).pressed_keys@ == old(self).pressed_keys@.update(key_code(key) as int, false),
            final(self).col_select == old(self).col_select,
            final(self).row_select == old(self).row_select,
    {
        let c = key.code();
        self.pressed_keys.set(c as usize, false);
    }

    pub fn is_pressed(&self, key: Key) -> (r: bool)
        requires
            self.wf(),
        ensures
            r == self.is_down(key),
    {
        self.pressed_keys[key.code() as usize]
    }

    pub fn read_keyboard_matrix(&self) -> (r: u8)
        requires
            self.wf(),
        ensures
            r == first_pressed_from(self.pressed_keys@, 0),
    {
        self.read_input_pins_in0_in7()
    }

    /// The input pins: the code of the first held key in scan order, or 0xFF
    /// when no key is held.
    pub fn read_input_pins_in0_in7(&self) -> (r: u8)
        requires
            self.wf(),
        ensures
            r == first_pressed_from(self.pressed_keys@, 0),
    {
        let mut result: u8 = 0xFF;
        let mut i: u8 = 0;
        while i < 96
            invariant
                self.wf(),
                i <= 96,
                result == 0xFF,
                first_pressed_from(self.pressed_keys@, 0) == first_pressed_from(self.pressed_keys@, i as int),
            decreases 96 - i,
        {
            let row = i / 6;
            let col = i % 6;
            let key_code = (row << 4u8) | col;
            proof { lemma_scan(row, col); }
            if self.pressed_keys[key_code as usize] {
                let input_pin_value = (col & 0x07) | ((row & 0x0F) << 3u8);
                proof { lemma_pin(row, col); }
                result = result & !(1u8 << (input_pin_value & 0x07));
                if result != 0xFF {
                    return key_code;
                }
            }
            i = i + 1;
        }
        result
    }

    /// The raw code of the first held key in scan order, or 0xFF.
    pub fn get_pressed_key_code(&self) -> (r: u8)
        requires
            self.wf(),
        ensures
            r == first_pressed_from(self.pressed_keys@, 0),
    {
        let mut i: u8 = 0;
        while i < 96
            invariant
                self.wf(),
                i <= 96,
                first_pressed_from(self.pressed_keys@, 0) == first_pressed_from(self.pressed_keys@, i as int),
            decreases 96 - i,
        {
            let row = i / 6;
            let col = i % 6;
            let key_code = (row << 4u8) | col;
            proof { lemma_scan(row, col); }
            if self.pressed_keys[key_code as usize] {
                return key_code;
            }
            i = i + 1;
        }
        0xFF
    }

    /// The held keys of a column as active-low row bits: bit `row` is low
    /// when the key at that row and column is held. Only columns 0-5 exist
    /// (others read 0xFF), and only rows 0-7 have a bit in the byte.
    pub fn read_column_state(&self, column: u8) -> (r: u8)
        requires
            self.wf(),
        ensures
            column > 5 ==> r == 0xFF,
            column <= 5 ==> r == column_bits(self.pressed_keys@, column, 8),
    {
        let mut result: u8 = 0xFF;
        if column <= 5 {
            let mut row: u8 = 0;
            while row <= 0xF
                invariant
                    self.wf(),
                    column <= 5,
                    row <= 16,
                    result == column_bits(self.pressed_keys@, column, if row < 8 { row as int } else { 8 }),
                decreases 16 - row,
            {
                let key_code = (row << 4u8) | column;
                proof { lemma_scan(row, column); }
                if row < 8 && self.pressed_keys[key_code as usize] {
                    result = result & !(1u8 << row);
                }
                row = row + 1;
            }
        }
        result
    }

    pub fn write_column_select(&mut self, val: u8)
        ensures
            *final(self) == (Keyboard { col_select: val, ..*old(self) }),
    {
        self.col_select = val;
    }

    pub fn write_row_select(&mut self, val: u8)
        ensures
            *final(self) == (Keyboard { row_select: val, ..*old(self) }),
    {
        self.row_select = val;
    }

    pub fn read_column_select(&self) -> (r: u8)
        ensures
            r == self.col_select,
    {
        self.col_select
    }

    pub fn read_row_select(&self) -> (r: u8)
        ensures
            r == self.row_select,
    {
        self.row_select
    }
}

/// A pressed key is reported pressed, a released one is not, every other
/// code keeps its state, and pressing then releasing a key that was up
/// leaves the whole table as it was.
pub proof fn lemma_press_release(keys: Seq<bool>, key: Key, other: int)
    requires
        keys.len() == CODE_COUNT,
        0 <= other < CODE_COUNT,
        other != key_code(key),
    ensures
        keys.update(key_code(key) as int, true)[key_code(key) as int],
        !keys.update(key_code(key) as int, false)[key_code(key) as int],
        keys.update(key_code(key) as int, true)[other] == keys[other],
        !keys[key_code(key) as int] ==> keys.update(key_code(key) as int, true).update(key_code(key) as int, false) == keys,
{
    let c = key_code(key) as int;
    if !keys[c] {
        assert(keys.update(c, true).update(c, false) =~= keys);
    }
}

/// Matrix codes: row in the high nibble, column in the low one.
proof fn lemma_scan(row: u8, col: u8)
    by (bit_vector)
    requires
        row < 16,
        col < 6,
    ensures
        ((row << 4u8) | col) == row * 16 + col,
{
}

proof fn lemma_pin(row: u8, col: u8)
    by (bit_vector)
    ensures
        (((col & 0x07) | ((row & 0x0F) << 3u8)) & 0x07) < 8,
        (0xFFu8 & !(1u8 << (((col & 0x07) | ((row & 0x0F) << 3u8)) & 0x07))) != 0xFF,
{
}

} // verus!
