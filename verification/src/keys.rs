//! Keyboard keys: what the window reports and what the server understands.
use vstd::prelude::*;

verus! {

/// How many bytes hold the state of all keys, one bit for each.
pub const KEYBOARD_STATE_BYTES: usize = 16;

/// A key on the server.
#[derive(Clone, Copy, Debug, PartialEq, Eq, Structural)]
pub enum KeyboardKey {
    Escape,
    Tab,
    Backspace,
    Enter,
    Space,
    Insert,
    Delete,
    Home,
    End,
    PageUp,
    PageDown,
    ArrowUp,
    ArrowDown,
    ArrowLeft,
    ArrowRight,
    Minus,
    Equals,
    OpenBracket,
    CloseBracket,
    Backslash,
    Semicolon,
    Quote,
    Backtick,
    Comma,
    Period,
    Slash,
    Num0,
    Num1,
    Num2,
    Num3,
    Num4,
    Num5,
    Num6,
    Num7,
    Num8,
    Num9,
    A,
    B,
    C,
    D,
    E,
    F,
    G,
    H,
    I,
    J,
    K,
    L,
    M,
    N,
    O,
    P,
    Q,
    R,
    S,
    T,
    U,
    V,
    W,
    X,
    Y,
    Z,
    F1,
    F2,
    F3,
    F4,
    F5,
    F6,
    F7,
    F8,
    F9,
    F10,
    F11,
    F12,
    Control,
    Shift,
    Alt,
    Meta,
}

/// A key as the local window names it. Keys that have no counterpart on the
/// server are `Other`.
#[derive(Clone, Copy, Debug, PartialEq, Eq, Structural)]
pub enum LocalKey {
    Escape,
    Tab,
    Backspace,
    Enter,
    Space,
    Insert,
    Delete,
    Home,
    End,
    PageUp,
    PageDown,
    ArrowUp,
    ArrowDown,
    ArrowLeft,
    ArrowRight,
    Minus,
    Equals,
    OpenBracket,
    CloseBracket,
    Backslash,
    Semicolon,
    Quote,
    Backtick,
    Comma,
    Period,
    Slash,
    Num0,
    Num1,
    Num2,
    Num3,
    Num4,
    Num5,
    Num6,
    Num7,
    Num8,
    Num9,
    A,
    B,
    C,
    D,
    E,
    F,
    G,
    H,
    I,
    J,
    K,
    L,
    M,
    N,
    O,
    P,
    Q,
    R,
    S,
    T,
    U,
    V,
    W,
    X,
    Y,
    Z,
    F1,
    F2,
    F3,
    F4,
    F5,
    F6,
    F7,
    F8,
    F9,
    F10,
    F11,
    F12,
    Plus,
    OpenCurlyBracket,
    CloseCurlyBracket,
    Pipe,
    Colon,
    Exclamationmark,
    Questionmark,
    Other,
}

/// The number of a key's bit.
pub open spec fn key_index(key: KeyboardKey) -> nat {
    match key {
        KeyboardKey::Escape => 0,
        KeyboardKey::Tab => 1,
        KeyboardKey::Backspace => 2,
        KeyboardKey::Enter => 3,
        KeyboardKey::Space => 4,
        KeyboardKey::Insert => 5,
        KeyboardKey::Delete => 6,
        KeyboardKey::Home => 7,
        KeyboardKey::End => 8,
        KeyboardKey::PageUp => 9,
        KeyboardKey::PageDown => 10,
        KeyboardKey::ArrowUp => 11,
        KeyboardKey::ArrowDown => 12,
        KeyboardKey::ArrowLeft => 13,
        KeyboardKey::ArrowRight => 14,
        KeyboardKey::Minus => 15,
        KeyboardKey::Equals => 16,
        KeyboardKey::OpenBracket => 17,
        KeyboardKey::CloseBracket => 18,
        KeyboardKey::Backslash => 19,
        KeyboardKey::Semicolon => 20,
        KeyboardKey::Quote => 21,
        KeyboardKey::Backtick => 22,
        KeyboardKey::Comma => 23,
        KeyboardKey::Period => 24,
        KeyboardKey::Slash => 25,
        KeyboardKey::Num0 => 26,
        KeyboardKey::Num1 => 27,
        KeyboardKey::Num2 => 28,
        KeyboardKey::Num3 => 29,
        KeyboardKey::Num4 => 30,
        KeyboardKey::Num5 => 31,
        KeyboardKey::Num6 => 32,
        KeyboardKey::Num7 => 33,
        KeyboardKey::Num8 => 34,
        KeyboardKey::Num9 => 35,
        KeyboardKey::A => 36,
        KeyboardKey::B => 37,
        KeyboardKey::C => 38,
        KeyboardKey::D => 39,
        KeyboardKey::E => 40,
        KeyboardKey::F => 41,
        KeyboardKey::G => 42,
        KeyboardKey::H => 43,
        KeyboardKey::I => 44,
        KeyboardKey::J => 45,
        KeyboardKey::K => 46,
        KeyboardKey::L => 47,
        KeyboardKey::M => 48,
        KeyboardKey::N => 49,
        KeyboardKey::O => 50,
        KeyboardKey::P => 51,
        KeyboardKey::Q => 52,
        KeyboardKey::R => 53,
        KeyboardKey::S => 54,
        KeyboardKey::T => 55,
        KeyboardKey::U => 56,
        KeyboardKey::V => 57,
        KeyboardKey::W => 58,
        KeyboardKey::X => 59,
        KeyboardKey::Y => 60,
        KeyboardKey::Z => 61,
        KeyboardKey::F1 => 62,
        KeyboardKey::F2 => 63,
        KeyboardKey::F3 => 64,
        KeyboardKey::F4 => 65,
        KeyboardKey::F5 => 66,
        KeyboardKey::F6 => 67,
        KeyboardKey::F7 => 68,
        KeyboardKey::F8 => 69,
        KeyboardKey::F9 => 70,
        KeyboardKey::F10 => 71,
        KeyboardKey::F11 => 72,
        KeyboardKey::F12 => 73,
        KeyboardKey::Control => 74,
        KeyboardKey::Shift => 75,
        KeyboardKey::Alt => 76,
        KeyboardKey::Meta => 77,
    }
}

/// No two keys share a bit, and all the bits fit.
pub proof fn keys_have_their_own_bits(a: KeyboardKey, b: KeyboardKey)
    ensures
        key_index(a) == key_index(b) ==> a == b,
        key_index(a) < 128,
{
}

/// The bit `n` of a byte.
pub open spec fn bit_of(n: nat) -> u8 {
    if n == 0 {
        1
    } else if n == 1 {
        2
    } else if n == 2 {
        4
    } else if n == 3 {
        8
    } else if n == 4 {
        16
    } else if n == 5 {
        32
    } else if n == 6 {
        64
    } else {
        128
    }
}

impl KeyboardKey {
    fn index(self) -> (n: usize)
        ensures
            n == key_index(self),
    {
        match self {
            KeyboardKey::Escape => 0,
            KeyboardKey::Tab => 1,
            KeyboardKey::Backspace => 2,
            KeyboardKey::Enter => 3,
            KeyboardKey::Space => 4,
            KeyboardKey::Insert => 5,
            KeyboardKey::Delete => 6,
            KeyboardKey::Home => 7,
            KeyboardKey::End => 8,
            KeyboardKey::PageUp => 9,
            KeyboardKey::PageDown => 10,
            KeyboardKey::ArrowUp => 11,
            KeyboardKey::ArrowDown => 12,
            KeyboardKey::ArrowLeft => 13,
            KeyboardKey::ArrowRight => 14,
            KeyboardKey::Minus => 15,
            KeyboardKey::Equals => 16,
            KeyboardKey::OpenBracket => 17,
            KeyboardKey::CloseBracket => 18,
            KeyboardKey::Backslash => 19,
            KeyboardKey::Semicolon => 20,
            KeyboardKey::Quote => 21,
            KeyboardKey::Backtick => 22,
            KeyboardKey::Comma => 23,
            KeyboardKey::Period => 24,
            KeyboardKey::Slash => 25,
            KeyboardKey::Num0 => 26,
            KeyboardKey::Num1 => 27,
            KeyboardKey::Num2 => 28,
            KeyboardKey::Num3 => 29,
            KeyboardKey::Num4 => 30,
            KeyboardKey::Num5 => 31,
            KeyboardKey::Num6 => 32,
            KeyboardKey::Num7 => 33,
            KeyboardKey::Num8 => 34,
            KeyboardKey::Num9 => 35,
            KeyboardKey::A => 36,
            KeyboardKey::B => 37,
            KeyboardKey::C => 38,
            KeyboardKey::D => 39,
            KeyboardKey::E => 40,
            KeyboardKey::F => 41,
            KeyboardKey::G => 42,
            KeyboardKey::H => 43,
            KeyboardKey::I => 44,
            KeyboardKey::J => 45,
            KeyboardKey::K => 46,
            KeyboardKey::L => 47,
            KeyboardKey::M => 48,
            KeyboardKey::N => 49,
            KeyboardKey::O => 50,
            KeyboardKey::P => 51,
            KeyboardKey::Q => 52,
            KeyboardKey::R => 53,
            KeyboardKey::S => 54,
            KeyboardKey::T => 55,
            KeyboardKey::U => 56,
            KeyboardKey::V => 57,
            KeyboardKey::W => 58,
            KeyboardKey::X => 59,
            KeyboardKey::Y => 60,
            KeyboardKey::Z => 61,
            KeyboardKey::F1 => 62,
            KeyboardKey::F2 => 63,
            KeyboardKey::F3 => 64,
            KeyboardKey::F4 => 65,
            KeyboardKey::F5 => 66,
            KeyboardKey::F6 => 67,
            KeyboardKey::F7 => 68,
            KeyboardKey::F8 => 69,
            KeyboardKey::F9 => 70,
            KeyboardKey::F10 => 71,
            KeyboardKey::F11 => 72,
            KeyboardKey::F12 => 73,
            KeyboardKey::Control => 74,
            KeyboardKey::Shift => 75,
            KeyboardKey::Alt => 76,
            KeyboardKey::Meta => 77,
        }
    }

    /// The byte of the keyboard state that holds this key's bit, and the bit.
    pub fn bit(self) -> (r: (usize, u8))
        ensures
            r.0 == key_index(self) / 8,
            r.0 < KEYBOARD_STATE_BYTES,
            r.1 == bit_of(key_index(self) % 8),
    {
        let n: usize = self.index();
        let bit: u8 = match n % 8 {
            0 => 1,
            1 => 2,
            2 => 4,
            3 => 8,
            4 => 16,
            5 => 32,
            6 => 64,
            _ => 128,
        };
        (n / 8, bit)
    }
}

/// The key to press on the server for a local key. Symbols stand for the key
/// that they are on.
pub open spec fn remote_key(key: LocalKey) -> Option<KeyboardKey> {
    match key {
        LocalKey::Escape => Some(KeyboardKey::Escape),
        LocalKey::Tab => Some(KeyboardKey::Tab),
        LocalKey::Backspace => Some(KeyboardKey::Backspace),
        LocalKey::Enter => Some(KeyboardKey::Enter),
        LocalKey::Space => Some(KeyboardKey::Space),
        LocalKey::Insert => Some(KeyboardKey::Insert),
        LocalKey::Delete => Some(KeyboardKey::Delete),
        LocalKey::Home => Some(KeyboardKey::Home),
        LocalKey::End => Some(KeyboardKey::End),
        LocalKey::PageUp => Some(KeyboardKey::PageUp),
        LocalKey::PageDown => Some(KeyboardKey::PageDown),
        LocalKey::ArrowUp => Some(KeyboardKey::ArrowUp),
        LocalKey::ArrowDown => Some(KeyboardKey::ArrowDown),
        LocalKey::ArrowLeft => Some(KeyboardKey::ArrowLeft),
        LocalKey::ArrowRight => Some(KeyboardKey::ArrowRight),
        LocalKey::Minus => Some(KeyboardKey::Minus),
        LocalKey::Equals => Some(KeyboardKey::Equals),
        LocalKey::OpenBracket => Some(KeyboardKey::OpenBracket),
        LocalKey::CloseBracket => Some(KeyboardKey::CloseBracket),
        LocalKey::Backslash => Some(KeyboardKey::Backslash),
        LocalKey::Semicolon => Some(KeyboardKey::Semicolon),
        LocalKey::Quote => Some(KeyboardKey::Quote),
        LocalKey::Backtick => Some(KeyboardKey::Backtick),
        LocalKey::Comma => Some(KeyboardKey::Comma),
        LocalKey::Period => Some(KeyboardKey::Period),
        LocalKey::Slash => Some(KeyboardKey::Slash),
        LocalKey::Num0 => Some(KeyboardKey::Num0),
        LocalKey::Num1 => Some(KeyboardKey::Num1),
        LocalKey::Num2 => Some(KeyboardKey::Num2),
        LocalKey::Num3 => Some(KeyboardKey::Num3),
        LocalKey::Num4 => Some(KeyboardKey::Num4),
        LocalKey::Num5 => Some(KeyboardKey::Num5),
        LocalKey::Num6 => Some(KeyboardKey::Num6),
        LocalKey::Num7 => Some(KeyboardKey::Num7),
        LocalKey::Num8 => Some(KeyboardKey::Num8),
        LocalKey::Num9 => Some(KeyboardKey::Num9),
        LocalKey::A => Some(KeyboardKey::A),
        LocalKey::B => Some(KeyboardKey::B),
        LocalKey::C => Some(KeyboardKey::C),
        LocalKey::D => Some(KeyboardKey::D),
        LocalKey::E => Some(KeyboardKey::E),
        LocalKey::F => Some(KeyboardKey::F),
        LocalKey::G => Some(KeyboardKey::G),
        LocalKey::H => Some(KeyboardKey::H),
        LocalKey::I => Some(KeyboardKey::I),
        LocalKey::J => Some(KeyboardKey::J),
        LocalKey::K => Some(KeyboardKey::K),
        LocalKey::L => Some(KeyboardKey::L),
        LocalKey::M => Some(KeyboardKey::M),
        LocalKey::N => Some(KeyboardKey::N),
        LocalKey::O => Some(KeyboardKey::O),
        LocalKey::P => Some(KeyboardKey::P),
        LocalKey::Q => Some(KeyboardKey::Q),
        LocalKey::R => Some(KeyboardKey::R),
        LocalKey::S => Some(KeyboardKey::S),
        LocalKey::T => Some(KeyboardKey::T),
        LocalKey::U => Some(KeyboardKey::U),
        LocalKey::V => Some(KeyboardKey::V),
        LocalKey::W => Some(KeyboardKey::W),
        LocalKey::X => Some(KeyboardKey::X),
        LocalKey::Y => Some(KeyboardKey::Y),
        LocalKey::Z => Some(KeyboardKey::Z),
        LocalKey::F1 => Some(KeyboardKey::F1),
        LocalKey::F2 => Some(KeyboardKey::F2),
        LocalKey::F3 => Some(KeyboardKey::F3),
        LocalKey::F4 => Some(KeyboardKey::F4),
        LocalKey::F5 => Some(KeyboardKey::F5),
        LocalKey::F6 => Some(KeyboardKey::F6),
        LocalKey::F7 => Some(KeyboardKey::F7),
        LocalKey::F8 => Some(KeyboardKey::F8),
        LocalKey::F9 => Some(KeyboardKey::F9),
        LocalKey::F10 => Some(KeyboardKey::F10),
        LocalKey::F11 => Some(KeyboardKey::F11),
        LocalKey::F12 => Some(KeyboardKey::F12),
        LocalKey::Plus => Some(KeyboardKey::Equals),
        LocalKey::OpenCurlyBracket => Some(KeyboardKey::OpenBracket),
        LocalKey::CloseCurlyBracket => Some(KeyboardKey::CloseBracket),
        LocalKey::Pipe => Some(KeyboardKey::Backslash),
        LocalKey::Colon => Some(KeyboardKey::Semicolon),
        LocalKey::Exclamationmark => Some(KeyboardKey::Backtick),
        LocalKey::Questionmark => Some(KeyboardKey::Slash),
        LocalKey::Other => None,
    }
}

pub fn egui_key_to_remote_key(key: LocalKey) -> (r: Option<KeyboardKey>)
    ensures
        r == remote_key(key),
{
    match key {
        LocalKey::Escape => Some(KeyboardKey::Escape),
        LocalKey::Tab => Some(KeyboardKey::Tab),
        LocalKey::Backspace => Some(KeyboardKey::Backspace),
        LocalKey::Enter => Some(KeyboardKey::Enter),
        LocalKey::Space => Some(KeyboardKey::Space),
        LocalKey::Insert => Some(KeyboardKey::Insert),
        LocalKey::Delete => Some(KeyboardKey::Delete),
        LocalKey::Home => Some(KeyboardKey::Home),
        LocalKey::End => Some(KeyboardKey::End),
        LocalKey::PageUp => Some(KeyboardKey::PageUp),
        LocalKey::PageDown => Some(KeyboardKey::PageDown),
        LocalKey::ArrowUp => Some(KeyboardKey::ArrowUp),
        LocalKey::ArrowDown => Some(KeyboardKey::ArrowDown),
        LocalKey::ArrowLeft => Some(KeyboardKey::ArrowLeft),
        LocalKey::ArrowRight => Some(KeyboardKey::ArrowRight),
        LocalKey::Minus => Some(KeyboardKey::Minus),
        LocalKey::Equals => Some(KeyboardKey::Equals),
        LocalKey::OpenBracket => Some(KeyboardKey::OpenBracket),
        LocalKey::CloseBracket => Some(KeyboardKey::CloseBracket),
        LocalKey::Backslash => Some(KeyboardKey::Backslash),
        LocalKey::Semicolon => Some(KeyboardKey::Semicolon),
        LocalKey::Quote => Some(KeyboardKey::Quote),
        LocalKey::Backtick => Some(KeyboardKey::Backtick),
        LocalKey::Comma => Some(KeyboardKey::Comma),
        LocalKey::Period => Some(KeyboardKey::Period),
        LocalKey::Slash => Some(KeyboardKey::Slash),
        LocalKey::Num0 => Some(KeyboardKey::Num0),
        LocalKey::Num1 => Some(KeyboardKey::Num1),
        LocalKey::Num2 => Some(KeyboardKey::Num2),
        LocalKey::Num3 => Some(KeyboardKey::Num3),
        LocalKey::Num4 => Some(KeyboardKey::Num4),
        LocalKey::Num5 => Some(KeyboardKey::Num5),
        LocalKey::Num6 => Some(KeyboardKey::Num6),
        LocalKey::Num7 => Some(KeyboardKey::Num7),
        LocalKey::Num8 => Some(KeyboardKey::Num8),
        LocalKey::Num9 => Some(KeyboardKey::Num9),
        LocalKey::A => Some(KeyboardKey::A),
        LocalKey::B => Some(KeyboardKey::B),
        LocalKey::C => Some(KeyboardKey::C),
        LocalKey::D => Some(KeyboardKey::D),
        LocalKey::E => Some(KeyboardKey::E),
        LocalKey::F => Some(KeyboardKey::F),
        LocalKey::G => Some(KeyboardKey::G),
        LocalKey::H => Some(KeyboardKey::H),
        LocalKey::I => Some(KeyboardKey::I),
        LocalKey::J => Some(KeyboardKey::J),
        LocalKey::K => Some(KeyboardKey::K),
        LocalKey::L => Some(KeyboardKey::L),
        LocalKey::M => Some(KeyboardKey::M),
        LocalKey::N => Some(KeyboardKey::N),
        LocalKey::O => Some(KeyboardKey::O),
        LocalKey::P => Some(KeyboardKey::P),
        LocalKey::Q => Some(KeyboardKey::Q),
        LocalKey::R => Some(KeyboardKey::R),
        LocalKey::S => Some(KeyboardKey::S),
        LocalKey::T => Some(KeyboardKey::T),
        LocalKey::U => Some(KeyboardKey::U),
        LocalKey::V => Some(KeyboardKey::V),
        LocalKey::W => Some(KeyboardKey::W),
        LocalKey::X => Some(KeyboardKey::X),
        LocalKey::Y => Some(KeyboardKey::Y),
        LocalKey::Z => Some(KeyboardKey::Z),
        LocalKey::F1 => Some(KeyboardKey::F1),
        LocalKey::F2 => Some(KeyboardKey::F2),
        LocalKey::F3 => Some(KeyboardKey::F3),
        LocalKey::F4 => Some(KeyboardKey::F4),
        LocalKey::F5 => Some(KeyboardKey::F5),
        LocalKey::F6 => Some(KeyboardKey::F6),
        LocalKey::F7 => Some(KeyboardKey::F7),
        LocalKey::F8 => Some(KeyboardKey::F8),
        LocalKey::F9 => Some(KeyboardKey::F9),
        LocalKey::F10 => Some(KeyboardKey::F10),
        LocalKey::F11 => Some(KeyboardKey::F11),
        LocalKey::F12 => Some(KeyboardKey::F12),
        LocalKey::Plus => Some(KeyboardKey::Equals),
        LocalKey::OpenCurlyBracket => Some(KeyboardKey::OpenBracket),
        LocalKey::CloseCurlyBracket => Some(KeyboardKey::CloseBracket),
        LocalKey::Pipe => Some(KeyboardKey::Backslash),
        LocalKey::Colon => Some(KeyboardKey::Semicolon),
        LocalKey::Exclamationmark => Some(KeyboardKey::Backtick),
        LocalKey::Questionmark => Some(KeyboardKey::Slash),
        LocalKey::Other => None,
    }
}

/// Which of the modifier keys are held.
#[derive(Clone, Copy, Debug, PartialEq, Eq, Structural)]
pub struct Modifiers {
    pub alt: bool,
    pub ctrl: bool,
    pub shift: bool,
    pub command: bool,
}

/// The keys that are held, as the server is to see them: one bit for each.
#[derive(Clone, Copy, Debug, PartialEq, Eq)]
pub struct LocalKeyboardState {
    pub pressed: [u8; 16],
}

/// Whether a key's bit is set.
pub open spec fn holds(pressed: Seq<u8>, key: KeyboardKey) -> bool {
    pressed[(key_index(key) / 8) as int] & bit_of(key_index(key) % 8) != 0
}

pub open spec fn none_held(pressed: Seq<u8>) -> bool {
    forall|i: int| 0 <= i < pressed.len() ==> #[trigger] pressed[i] == 0
}

/// A byte with one bit set or cleared.
pub open spec fn with_bit(byte: u8, bit: u8, on: bool) -> u8 {
    if on {
        byte | bit
    } else {
        byte & !bit
    }
}

/// The state after a key has been pressed or let go.
pub open spec fn with_key(pressed: Seq<u8>, key: KeyboardKey, on: bool) -> Seq<u8> {
    let i = (key_index(key) / 8) as int;
    pressed.update(i, with_bit(pressed[i], bit_of(key_index(key) % 8), on))
}

/// The state once the modifier keys are as the window reports them.
pub open spec fn with_modifiers(pressed: Seq<u8>, modifiers: Modifiers) -> Seq<u8> {
    with_key(
        with_key(
            with_key(
                with_key(pressed, KeyboardKey::Control, modifiers.ctrl),
                KeyboardKey::Shift,
                modifiers.shift,
            ),
            KeyboardKey::Alt,
            modifiers.alt,
        ),
        KeyboardKey::Meta,
        modifiers.command,
    )
}

proof fn bit_facts(byte: u8, bit: u8, other: u8)
    requires
        bit == 1 || bit == 2 || bit == 4 || bit == 8 || bit == 16 || bit == 32 || bit == 64 || bit
            == 128,
        other == 1 || other == 2 || other == 4 || other == 8 || other == 16 || other == 32 || other
            == 64 || other == 128,
    ensures
        (byte | bit) & bit != 0,
        (byte & !bit) & bit == 0,
        other != bit ==> (byte | bit) & other == byte & other,
        other != bit ==> (byte & !bit) & other == byte & other,
{
    assert((byte | bit) & bit != 0) by (bit_vector)
        requires
            bit == 1 || bit == 2 || bit == 4 || bit == 8 || bit == 16 || bit == 32 || bit == 64
                || bit == 128,
    ;
    assert((byte & !bit) & bit == 0) by (bit_vector);
    assert(other != bit ==> (byte | bit) & other == byte & other && (byte & !bit) & other == byte
        & other) by (bit_vector)
        requires
            bit == 1 || bit == 2 || bit == 4 || bit == 8 || bit == 16 || bit == 32 || bit == 64
                || bit == 128,
            other == 1 || other == 2 || other == 4 || other == 8 || other == 16 || other == 32
                || other == 64 || other == 128,
    ;
}

/// Setting a key's state changes what is held of that key and of no other.
pub proof fn setting_a_key_affects_it_alone(
    pressed: Seq<u8>,
    key: KeyboardKey,
    on: bool,
    other: KeyboardKey,
)
    requires
        pressed.len() == KEYBOARD_STATE_BYTES,
    ensures
        holds(with_key(pressed, key, on), key) == on,
        other != key ==> holds(with_key(pressed, key, on), other) == holds(pressed, other),
{
    let i = (key_index(key) / 8) as int;
    keys_have_their_own_bits(key, other);
    bit_facts(pressed[i], bit_of(key_index(key) % 8), bit_of(key_index(other) % 8));
    if other != key && key_index(other) / 8 == key_index(key) / 8 {
        assert(key_index(other) % 8 != key_index(key) % 8);
        assert(bit_of(key_index(other) % 8) != bit_of(key_index(key) % 8));
    }
}

impl LocalKeyboardState {
    pub fn new() -> (state: LocalKeyboardState)
        ensures
            none_held(state.pressed@),
    {
        LocalKeyboardState { pressed: [0; 16] }
    }

    /// Lets all keys go. Returns whether any was held.
    pub fn clear(&mut self) -> (any: bool)
        ensures
            none_held(final(self).pressed@),
            any == !none_held(old(self).pressed@),
    {
        let mut any = false;
        let mut i: usize = 0;
        while i < 16
            invariant
                i <= 16,
                self.pressed@.len() == 16,
                any == exists|k: int| 0 <= k < i && #[trigger] self.pressed@[k] != 0,
            decreases 16 - i,
        {
            if self.pressed[i] != 0 {
                any = true;
            }
            i = i + 1;
        }
        self.pressed = [0; 16];
        any
    }

    /// Presses a key or lets it go. Returns whether that changed anything.
    pub fn set_key(&mut self, key: KeyboardKey, on: bool) -> (changed: bool)
        ensures
            final(self).pressed@ == with_key(old(self).pressed@, key, on),
            changed == (final(self).pressed@ != old(self).pressed@),
            changed == (holds(old(self).pressed@, key) != on),
    {
        let (byte, bit) = key.bit();
        let before: u8 = self.pressed[byte];
        let after: u8 = if on {
            before | bit
        } else {
            before & !bit
        };
        self.pressed[byte] = after;
        proof {
            setting_a_key_affects_it_alone(old(self).pressed@, key, on, key);
            assert(before | bit == before <==> before & bit != 0) by (bit_vector)
                requires
                    bit == 1 || bit == 2 || bit == 4 || bit == 8 || bit == 16 || bit == 32 || bit
                        == 64 || bit == 128,
            ;
            assert(before & !bit == before <==> before & bit == 0) by (bit_vector);
            if after == before {
                assert(self.pressed@ =~= old(self).pressed@);
            } else {
                assert(self.pressed@[byte as int] != old(self).pressed@[byte as int]);
            }
        }
        after != before
    }

    /// Brings the modifier keys up to date. Returns whether that changed
    /// anything.
    pub fn sync_modifiers(&mut self, modifiers: Modifiers) -> (changed: bool)
        ensures
            final(self).pressed@ == with_modifiers(old(self).pressed@, modifiers),
            changed == (holds(old(self).pressed@, KeyboardKey::Control) != modifiers.ctrl || holds(
                old(self).pressed@,
                KeyboardKey::Shift,
            ) != modifiers.shift || holds(old(self).pressed@, KeyboardKey::Alt) != modifiers.alt
                || holds(old(self).pressed@, KeyboardKey::Meta) != modifiers.command),
    {
        let ghost at_first = self.pressed@;
        let ctrl = self.set_key(KeyboardKey::Control, modifiers.ctrl);
        let ghost after_ctrl = self.pressed@;
        let shift = self.set_key(KeyboardKey::Shift, modifiers.shift);
        let ghost after_shift = self.pressed@;
        let alt = self.set_key(KeyboardKey::Alt, modifiers.alt);
        let meta = self.set_key(KeyboardKey::Meta, modifiers.command);
        proof {
            let (control, shift, alt, meta) = (
                KeyboardKey::Control,
                KeyboardKey::Shift,
                KeyboardKey::Alt,
                KeyboardKey::Meta,
            );
            setting_a_key_affects_it_alone(at_first, control, modifiers.ctrl, shift);
            setting_a_key_affects_it_alone(at_first, control, modifiers.ctrl, alt);
            setting_a_key_affects_it_alone(at_first, control, modifiers.ctrl, meta);
            setting_a_key_affects_it_alone(after_ctrl, shift, modifiers.shift, alt);
            setting_a_key_affects_it_alone(after_ctrl, shift, modifiers.shift, meta);
            setting_a_key_affects_it_alone(after_shift, alt, modifiers.alt, meta);
        }
        ctrl || shift || alt || meta
    }
}

/// The keys that let go of the pointer whatever happens.
pub open spec fn releases_pointer(modifiers: Modifiers, macos: bool) -> bool {
    if macos {
        modifiers.ctrl && modifiers.command && !modifiers.alt
    } else {
        modifiers.ctrl && modifiers.alt && !modifiers.command
    }
}

pub fn is_force_release_shortcut(modifiers: Modifiers, macos: bool) -> (r: bool)
    ensures
        r == releases_pointer(modifiers, macos),
{
    if macos {
        modifiers.ctrl && modifiers.command && !modifiers.alt
    } else {
        modifiers.ctrl && modifiers.alt && !modifiers.command
    }
}

} // verus!
