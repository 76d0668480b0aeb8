//! Keys of the terminal and the characters that stand for them in the window.

use vstd::prelude::*;

use slint::platform::Key as WindowKey;

verus! {

/// A key of the terminal.
#[derive(Clone, Copy, PartialEq, Eq, Debug, Structural)]
pub enum KeyCode {
    /// Backspace key.
    Backspace,
    /// Enter key.
    Enter,
    /// Left arrow key.
    Left,
    /// Right arrow key.
    Right,
    /// Up arrow key.
    Up,
    /// Down arrow key.
    Down,
    /// Home key.
    Home,
    /// End key.
    End,
    /// Page up key.
    PageUp,
    /// Page down key.
    PageDown,
    /// Tab key.
    Tab,
    /// Tab key while shift is held.
    BackTab,
    /// Delete key.
    Delete,
    /// Insert key.
    Insert,
    /// A function key, by its number.
    F(u8),
    /// A printable character.
    Char(char),
    /// The null character.
    Null,
    /// Escape key.
    Esc,
    /// Caps lock key.
    CapsLock,
    /// Scroll lock key.
    ScrollLock,
    /// Num lock key.
    NumLock,
    /// Print screen key.
    PrintScreen,
    /// Pause key.
    Pause,
    /// Menu key.
    Menu,
    /// The middle key of the keypad.
    KeypadBegin,
    /// A media key.
    Media,
    /// A modifier key on its own.
    Modifier,
}

/// A key that the window knows by name.
#[derive(Clone, Copy, PartialEq, Eq, Debug, Structural)]
pub enum Key {
    /// Shift key.
    Shift,
    /// Control key.
    Control,
    /// Alt key.
    Alt,
    /// Meta key.
    Meta,
    /// Return key.
    Return,
    /// Backspace key.
    Backspace,
    /// Escape key.
    Escape,
    /// Tab key.
    Tab,
    /// Tab key while shift is held.
    Backtab,
    /// Delete key.
    Delete,
    /// Insert key.
    Insert,
    /// Up arrow key.
    UpArrow,
    /// Down arrow key.
    DownArrow,
    /// Left arrow key.
    LeftArrow,
    /// Right arrow key.
    RightArrow,
    /// Home key.
    Home,
    /// End key.
    End,
    /// Page up key.
    PageUp,
    /// Page down key.
    PageDown,
}

impl Key {
    /// The character that stands for the key in the window's key events.
    pub open spec fn code(self) -> char {
        match self {
            Key::Shift => '\u{0010}',
            Key::Control => '\u{0011}',
            Key::Alt => '\u{0012}',
            Key::Meta => '\u{0017}',
            Key::Return => '\u{000a}',
            Key::Backspace => '\u{0008}',
            Key::Escape => '\u{001b}',
            Key::Tab => '\u{0009}',
            Key::Backtab => '\u{0019}',
            Key::Delete => '\u{007f}',
            Key::Insert => '\u{F727}',
            Key::UpArrow => '\u{F700}',
            Key::DownArrow => '\u{F701}',
            Key::LeftArrow => '\u{F702}',
            Key::RightArrow => '\u{F703}',
            Key::Home => '\u{F729}',
            Key::End => '\u{F72B}',
            Key::PageUp => '\u{F72C}',
            Key::PageDown => '\u{F72D}',
        }
    }
}

/// Converts slint's `Key` of the same name with `char::from`.
///
/// Trusted: the characters are those that slint assigns to the names, as `Key::code` lists them.
#[verifier::external_body]
pub(crate) fn key_text(key: Key) -> (text: char)
    ensures
        text == key.code(),
{
    char::from(match key {
        Key::Shift => WindowKey::Shift, Key::Control => WindowKey::Control,
        Key::Alt => WindowKey::Alt, Key::Meta => WindowKey::Meta,
        Key::Return => WindowKey::Return, Key::Backspace => WindowKey::Backspace,
        Key::Escape => WindowKey::Escape, Key::Tab => WindowKey::Tab,
        Key::Backtab => WindowKey::Backtab, Key::Delete => WindowKey::Delete,
        Key::Insert => WindowKey::Insert, Key::UpArrow => WindowKey::UpArrow,
        Key::DownArrow => WindowKey::DownArrow, Key::LeftArrow => WindowKey::LeftArrow,
        Key::RightArrow => WindowKey::RightArrow, Key::Home => WindowKey::Home,
        Key::End => WindowKey::End, Key::PageUp => WindowKey::PageUp,
        Key::PageDown => WindowKey::PageDown,
    })
}

/// The window's name for a key of the terminal that has one.
pub open spec fn named_key(code: KeyCode) -> Option<Key> {
    match code {
        KeyCode::Enter => Some(Key::Return),
        KeyCode::Backspace => Some(Key::Backspace),
        KeyCode::Esc => Some(Key::Escape),
        KeyCode::Tab => Some(Key::Tab),
        KeyCode::BackTab => Some(Key::Backtab),
        KeyCode::Delete => Some(Key::Delete),
        KeyCode::Insert => Some(Key::Insert),
        KeyCode::Up => Some(Key::UpArrow),
        KeyCode::Down => Some(Key::DownArrow),
        KeyCode::Left => Some(Key::LeftArrow),
        KeyCode::Right => Some(Key::RightArrow),
        KeyCode::Home => Some(Key::Home),
        KeyCode::End => Some(Key::End),
        KeyCode::PageUp => Some(Key::PageUp),
        KeyCode::PageDown => Some(Key::PageDown),
        _ => None,
    }
}

/// The character that stands for a key of the terminal, and whether it is a printable one.
pub open spec fn text_of(code: KeyCode) -> Option<(char, bool)> {
    match code {
        KeyCode::Char(c) => Some((c, true)),
        _ => match named_key(code) {
            Some(key) => Some((key.code(), false)),
            None => None,
        },
    }
}

/// Maps a key of the terminal to the character that the window expects. The `bool` is `true` for a
/// printable character, whose case already tells whether shift was held. Function keys, locks and
/// the like are not passed on.
pub fn keycode_to_text(code: KeyCode) -> (text: Option<(char, bool)>)
    ensures
        text == text_of(code),
{
    let key = match code {
        KeyCode::Char(c) => return Some((c, true)),
        KeyCode::Enter => Key::Return,
        KeyCode::Backspace => Key::Backspace,
        KeyCode::Esc => Key::Escape,
        KeyCode::Tab => Key::Tab,
        KeyCode::BackTab => Key::Backtab,
        KeyCode::Delete => Key::Delete,
        KeyCode::Insert => Key::Insert,
        KeyCode::Up => Key::UpArrow,
        KeyCode::Down => Key::DownArrow,
        KeyCode::Left => Key::LeftArrow,
        KeyCode::Right => Key::RightArrow,
        KeyCode::Home => Key::Home,
        KeyCode::End => Key::End,
        KeyCode::PageUp => Key::PageUp,
        KeyCode::PageDown => Key::PageDown,
        _ => return None,
    };
    Some((key_text(key), false))
}

/// Two keys of the terminal that are passed on with the same character, both as named keys or both
/// as printable ones, are the same key.
pub proof fn keys_are_told_apart(a: KeyCode, b: KeyCode)
    requires
        text_of(a) is Some,
        text_of(a) == text_of(b),
    ensures
        a == b,
{
}

/// A printable character stands for itself, and is told apart from every named key.
pub proof fn characters_stand_for_themselves(code: KeyCode)
    ensures
        code matches KeyCode::Char(c) ==> text_of(code) == Some((c, true)),
        text_of(code) matches Some((_, is_char)) ==> (is_char <==> code is Char),
{
}

/// The keys that edit text stand for control characters.
pub proof fn editing_keys_stand_for_control_characters(code: KeyCode)
    ensures
        code is Enter ==> text_of(code) == Some(('\n', false)),
        code is Tab ==> text_of(code) == Some(('\t', false)),
        code is Backspace ==> text_of(code) == Some(('\u{8}', false)),
        code is BackTab ==> text_of(code) == Some(('\u{19}', false)),
        code is Esc ==> text_of(code) == Some(('\u{1b}', false)),
        code is Delete ==> text_of(code) == Some(('\u{7f}', false)),
{
}

/// The keys that move stand for characters that are set aside for private use.
pub proof fn moving_keys_stand_for_private_characters(code: KeyCode)
    ensures
        code is Up ==> text_of(code) == Some(('\u{F700}', false)),
        code is Down ==> text_of(code) == Some(('\u{F701}', false)),
        code is Left ==> text_of(code) == Some(('\u{F702}', false)),
        code is Right ==> text_of(code) == Some(('\u{F703}', false)),
        code is Insert ==> text_of(code) == Some(('\u{F727}', false)),
        code is Home ==> text_of(code) == Some(('\u{F729}', false)),
        code is End ==> text_of(code) == Some(('\u{F72B}', false)),
        code is PageUp ==> text_of(code) == Some(('\u{F72C}', false)),
        code is PageDown ==> text_of(code) == Some(('\u{F72D}', false)),
{
}

/// Function keys, locks and the like, and no other keys, stand for no character.
pub proof fn the_other_keys_stand_for_nothing(code: KeyCode)
    ensures
        text_of(code) is None <==> {
            ||| code is F
            ||| code is Null
            ||| code is CapsLock
            ||| code is ScrollLock
            ||| code is NumLock
            ||| code is PrintScreen
            ||| code is Pause
            ||| code is Menu
            ||| code is KeypadBegin
            ||| code is Media
            ||| code is Modifier
        },
{
}

/// The keys for the modifiers stand for control characters of their own.
pub proof fn modifier_keys_stand_for_control_characters(key: Key)
    ensures
        key is Shift <==> key.code() == '\u{10}',
        key is Control <==> key.code() == '\u{11}',
        key is Alt <==> key.code() == '\u{12}',
        key is Meta <==> key.code() == '\u{17}',
{
}

} // verus!
