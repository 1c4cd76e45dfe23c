// Mapping of host keyboard keys to PC-1500 keys, and the set of PC-1500
// keys currently held.
use vstd::prelude::*;
use crate::joypad::{Key as Pc1500Key, KEY_COUNT, joy_index};

verus! {

#[derive(Debug, Clone, Copy, PartialEq, Eq, Structural)]
pub enum PhysicalKey {
    Num0,
    Num1,
    Num2,
    Num3,
    Num4,
    Num5,
    Num6,
    Num7,
    Num8,
    Num9,
    A,
    B,
    C,
    D,
    E,
    F,
    G,
    H,
    I,
    J,
    K,
    L,
    M,
    N,
    O,
    P,
    Q,
    R,
    S,
    T,
    U,
    V,
    W,
    X,
    Y,
    Z,
    Space,
    Enter,
    F1,
    F2,
    F3,
    F4,
    F5,
    F6,
    Plus,
    Minus,
    Equals,
    Period,
    Slash,
    ArrowLeft,
    ArrowRight,
    ArrowUp,
    ArrowDown,
}

/// The PC-1500 key a host key stands for (every host key has one).
pub open spec fn mapped(key: PhysicalKey) -> Pc1500Key {
    match key {
        PhysicalKey::Num0 => Pc1500Key::Zero,
        PhysicalKey::Num1 => Pc1500Key::One,
        PhysicalKey::Num2 => Pc1500Key::Two,
        PhysicalKey::Num3 => Pc1500Key::Three,
        PhysicalKey::Num4 => Pc1500Key::Four,
        PhysicalKey::Num5 => Pc1500Key::Five,
        PhysicalKey::Num6 => Pc1500Key::Six,
        PhysicalKey::Num7 => Pc1500Key::Seven,
        PhysicalKey::Num8 => Pc1500Key::Eight,
        PhysicalKey::Num9 => Pc1500Key::Nine,
        PhysicalKey::A => Pc1500Key::A,
        PhysicalKey::B => Pc1500Key::B,
        PhysicalKey::C => Pc1500Key::C,
        PhysicalKey::D => Pc1500Key::D,
        PhysicalKey::E => Pc1500Key::E,
        PhysicalKey::F => Pc1500Key::F,
        PhysicalKey::G => Pc1500Key::G,
        PhysicalKey::H => Pc1500Key::H,
        PhysicalKey::I => Pc1500Key::I,
        PhysicalKey::J => Pc1500Key::J,
        PhysicalKey::K => Pc1500Key::K,
        PhysicalKey::L => Pc1500Key::L,
        PhysicalKey::M => Pc1500Key::M,
        PhysicalKey::N => Pc1500Key::N,
        PhysicalKey::O => Pc1500Key::O,
        PhysicalKey::P => Pc1500Key::P,
        PhysicalKey::Q => Pc1500Key::Q,
        PhysicalKey::R => Pc1500Key::R,
        PhysicalKey::S => Pc1500Key::S,
        PhysicalKey::T => Pc1500Key::T,
        PhysicalKey::U => Pc1500Key::U,
        PhysicalKey::V => Pc1500Key::V,
        PhysicalKey::W => Pc1500Key::W,
        PhysicalKey::X => Pc1500Key::X,
        PhysicalKey::Y => Pc1500Key::Y,
        PhysicalKey::Z => Pc1500Key::Z,
        PhysicalKey::Space => Pc1500Key::Space,
        PhysicalKey::Enter => Pc1500Key::Enter,
        PhysicalKey::F1 => Pc1500Key::F1,
        PhysicalKey::F2 => Pc1500Key::F2,
        PhysicalKey::F3 => Pc1500Key::F3,
        PhysicalKey::F4 => Pc1500Key::F4,
        PhysicalKey::F5 => Pc1500Key::F5,
        PhysicalKey::F6 => Pc1500Key::F6,
        PhysicalKey::Plus => Pc1500Key::Plus,
        PhysicalKey::Minus => Pc1500Key::Minus,
        PhysicalKey::Equals => Pc1500Key::Equals,
        PhysicalKey::Period => Pc1500Key::Dot,
        PhysicalKey::Slash => Pc1500Key::Slash,
        PhysicalKey::ArrowLeft => Pc1500Key::Left,
        PhysicalKey::ArrowRight => Pc1500Key::Right,
        PhysicalKey::ArrowUp => Pc1500Key::Up,
        PhysicalKey::ArrowDown => Pc1500Key::Down,
    }
}

pub struct Pc1500KeyMapper {
    /// Held state of every PC-1500 key, by declaration position.
    pub pressed_keys: Vec<bool>,
}

impl Pc1500KeyMapper {
    pub open spec fn wf(&self) -> bool {
        self.pressed_keys@.len() == KEY_COUNT
    }

    pub open spec fn held(&self, key: Pc1500Key) -> bool {
        self.pressed_keys@[joy_index(key)]
    }

    /// No key held.
    pub fn new() -> (r: Self)
        ensures
            r.wf(),
            forall|k: Pc1500Key| !#[trigger] r.held(k),
    {
        let mut v: Vec<bool> = Vec::new();
        let mut i: usize = 0;
        while i < KEY_COUNT
            invariant
                i <= KEY_COUNT,
                v@.len() == i,
                forall|j: int| 0 <= j < i ==> !v@[j],
            decreases KEY_COUNT - i,
        {
            v.push(false);
            i = i + 1;
        }
        let r = Self { pressed_keys: v };
        assert forall|k: Pc1500Key| !#[trigger] r.held(k) by {
            lemma_joy_index_range(k);
        }
        r
    }

    /// The PC-1500 key for a host key.
    pub fn map_physical_to_pc1500(&self, key: PhysicalKey) -> (r: Option<Pc1500Key>)
        ensures
            r == Some(mapped(key)),
    {
        match key {
            PhysicalKey::Num0 => Some(Pc1500Key::Zero),
            PhysicalKey::Num1 => Some(Pc1500Key::One),
            PhysicalKey::Num2 => Some(Pc1500Key::Two),
            PhysicalKey::Num3 => Some(Pc1500Key::Three),
            PhysicalKey::Num4 => Some(Pc1500Key::Four),
            PhysicalKey::Num5 => Some(Pc1500Key::Five),
            PhysicalKey::Num6 => Some(Pc1500Key::Six),
            PhysicalKey::Num7 => Some(Pc1500Key::Seven),
            PhysicalKey::Num8 => Some(Pc1500Key::Eight),
            PhysicalKey::Num9 => Some(Pc1500Key::Nine),
            PhysicalKey::A => Some(Pc1500Key::A),
            PhysicalKey::B => Some(Pc1500Key::B),
            PhysicalKey::C => Some(Pc1500Key::C),
            PhysicalKey::D => Some(Pc1500Key::D),
            PhysicalKey::E => Some(Pc1500Key::E),
            PhysicalKey::F => Some(Pc1500Key::F),
            PhysicalKey::G => Some(Pc1500Key::G),
            PhysicalKey::H => Some(Pc1500Key::H),
            PhysicalKey::I => Some(Pc1500Key::I),
            PhysicalKey::J => Some(Pc1500Key::J),
            PhysicalKey::K => Some(Pc1500Key::K),
            PhysicalKey::L => Some(Pc1500Key::L),
            PhysicalKey::M => Some(Pc1500Key::M),
            PhysicalKey::N => Some(Pc1500Key::N),
            PhysicalKey::O => Some(Pc1500Key::O),
            PhysicalKey::P => Some(Pc1500Key::P),
            PhysicalKey::Q => Some(Pc1500Key::Q),
            PhysicalKey::R => Some(Pc1500Key::R),
            PhysicalKey::S => Some(Pc1500Key::S),
            PhysicalKey::T => Some(Pc1500Key::T),
            PhysicalKey::U => Some(Pc1500Key::U),
            PhysicalKey::V => Some(Pc1500Key::V),
            PhysicalKey::W => Some(Pc1500Key::W),
            PhysicalKey::X => Some(Pc1500Key::X),
            PhysicalKey::Y => Some(Pc1500Key::Y),
            PhysicalKey::Z => Some(Pc1500Key::Z),
            PhysicalKey::Space => Some(Pc1500Key::Space),
            PhysicalKey::Enter => Some(Pc1500Key::Enter),
            PhysicalKey::F1 => Some(Pc1500Key::F1),
            PhysicalKey::F2 => Some(Pc1500Key::F2),
            PhysicalKey::F3 => Some(Pc1500Key::F3),
            PhysicalKey::F4 => Some(Pc1500Key::F4),
            PhysicalKey::F5 => Some(Pc1500Key::F5),
            PhysicalKey::F6 => Some(Pc1500Key::F6),
            PhysicalKey::Plus => Some(Pc1500Key::Plus),
            PhysicalKey::Minus => Some(Pc1500Key::Minus),
            PhysicalKey::Equals => Some(Pc1500Key::Equals),
            PhysicalKey::Period => Some(Pc1500Key::Dot),
            PhysicalKey::Slash => Some(Pc1500Key::Slash),
            PhysicalKey::ArrowLeft => Some(Pc1500Key::Left),
            PhysicalKey::ArrowRight => Some(Pc1500Key::Right),
            PhysicalKey::ArrowUp => Some(Pc1500Key::Up),
            PhysicalKey::ArrowDown => Some(Pc1500Key::Down),
        }
    }

    fn set_held(&mut self, key: Pc1500Key, value: bool)
        requires
            old(self).wf(),
        ensures
            final(self).wf(),
            final(self).held(key) == value,
            forall|k: Pc1500Key| k != key ==> #[trigger] final(self).held(k) == old(self).held(k),
    {
        let i = key.index();
        self.pressed_keys.set(i, value);
        proof { lemma_joy_index_injective(); }
    }

    /// Records a host key press; returns the PC-1500 key it held down.
    pub fn handle_key_pressed(&mut self, key: PhysicalKey) -> (r: Option<Pc1500Key>)
        requires
            old(self).wf(),
        ensures
            final(self).wf(),
            r == Some(mapped(key)),
            final(self).held(mapped(key)),
            forall|k: Pc1500Key| k != mapped(key) ==> #[trigger] final(self).held(k) == old(self).held(k),
    {
        match self.map_physical_to_pc1500(key) {
            Some(k) => {
                self.set_held(k, true);
                Some(k)
            },
            None => None,
        }
    }

    /// Records a host key release; returns the PC-1500 key it let go.
    pub fn handle_key_released(&mut self, key: PhysicalKey) -> (r: Option<Pc1500Key>)
        requires
            old(self).wf(),
        ensures
            final(self).wf(),
            r == Some(mapped(key)),
            !final(self).held(mapped(key)),
            forall|k: Pc1500Key| k != mapped(key) ==> #[trigger] final(self).held(k) == old(self).held(k),
    {
        match self.map_physical_to_pc1500(key) {
            Some(k) => {
                self.set_held(k, false);
                Some(k)
            },
            None => None,
        }
    }

    /// The held keys, in declaration order.
    pub fn get_pressed_keys(&self) -> (r: Vec<Pc1500Key>)
        requires
            self.wf(),
        ensures
            forall|k: Pc1500Key| r@.contains(k) <==> self.held(k),
    {
        let all = Pc1500Key::all();
        let mut out: Vec<Pc1500Key> = Vec::new();
        let mut i: usize = 0;
        proof { lemma_joy_index_injective(); }
        while i < KEY_COUNT
            invariant
                self.wf(),
                all@.len() == KEY_COUNT,
                forall|j: int| 0 <= j < KEY_COUNT ==> joy_index(#[trigger] all@[j]) == j,
                forall|a: Pc1500Key, b: Pc1500Key| #[trigger] joy_index(a) == #[trigger] joy_index(b) ==> a == b,
                i <= KEY_COUNT,
                forall|j: int| 0 <= j < out@.len() ==> self.held(#[trigger] out@[j]) && joy_index(out@[j]) < i,
                forall|k: Pc1500Key| joy_index(k) < i && self.held(k) ==> #[trigger] out@.contains(k),
            decreases KEY_COUNT - i,
        {
            let k = all[i];
            let ghost prev = out@;
            if self.pressed_keys[i] {
                out.push(k);
                assert forall|k2: Pc1500Key| joy_index(k2) < i + 1 && self.held(k2) implies #[trigger] out@.contains(k2) by {
                    if k2 == k {
                        assert(out@[out@.len() - 1] == k2);
                    } else {
                        assert(prev.contains(k2));
                        let w = choose|w: int| 0 <= w < prev.len() && prev[w] == k2;
                        assert(out@[w] == k2);
                    }
                }
            }
            i = i + 1;
        }
        assert forall|k: Pc1500Key| out@.contains(k) <==> self.held(k) by {
            lemma_joy_index_range(k);
            if out@.contains(k) {
                let w = choose|w: int| 0 <= w < out@.len() && out@[w] == k;
                assert(self.held(out@[w]));
            }
        }
        out
    }

    pub fn is_pressed(&self, key: Pc1500Key) -> (r: bool)
        requires
            self.wf(),
        ensures
            r == self.held(key),
    {
        self.pressed_keys[key.index()]
    }

    /// Releases every key.
    pub fn clear_all(&mut self)
        requires
            old(self).wf(),
        ensures
            final(self).wf(),
            forall|k: Pc1500Key| !#[trigger] final(self).held(k),
    {
        let mut i: usize = 0;
        while i < KEY_COUNT
            invariant
                self.wf(),
                i <= KEY_COUNT,
                forall|j: int| 0 <= j < i ==> !self.pressed_keys@[j],
            decreases KEY_COUNT - i,
        {
            self.pressed_keys.set(i, false);
            i = i + 1;
        }
        assert forall|k: Pc1500Key| !#[trigger] self.held(k) by {
            lemma_joy_index_range(k);
        }
    }

    /// Holds a key from an on-screen keyboard.
    pub fn simulate_press(&mut self, key: Pc1500Key)
        requires
            old(self).wf(),
        ensures
            final(self).wf(),
            final(self).held(key),
            forall|k: Pc1500Key| k != key ==> #[trigger] final(self).held(k) == old(self).held(k),
    {
        self.set_held(key, true);
    }

    /// Lets go of a key from an on-screen keyboard.
    pub fn simulate_release(&mut self, key: Pc1500Key)
        requires
            old(self).wf(),
        ensures
            final(self).wf(),
            !final(self).held(key),
            forall|k: Pc1500Key| k != key ==> #[trigger] final(self).held(k) == old(self).held(k),
    {
        self.set_held(key, false);
    }

    pub fn get_help_text() -> (r: &'static str) {
        "PC-1500 Keyboard Mappings:\n\
         Numbers: 0-9 \u{2192} PC-1500 0-9\n\
         Letters: A-Z \u{2192} PC-1500 A-Z (where available)\n\
         Space \u{2192} SPACE\n\
         Enter \u{2192} ENTER\n\
         F1-F6 \u{2192} F1-F6\n\
         +/= \u{2192} Plus\n\
         - \u{2192} Minus\n\
         = \u{2192} Equals\n\
         . \u{2192} Dot\n\
         / \u{2192} Slash\n\
         Arrow Keys \u{2192} PC-1500 Arrow Keys"
    }
}

proof fn lemma_joy_index_range(k: Pc1500Key)
    ensures
        0 <= joy_index(k) < KEY_COUNT,
{
}

proof fn lemma_joy_index_injective()
    ensures
        forall|a: Pc1500Key, b: Pc1500Key| #[trigger] joy_index(a) == #[trigger] joy_index(b) ==> a == b,
{
}

} // verus!
