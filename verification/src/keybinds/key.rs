//! Keys and how they are written in the keybinds file.
//!
//! A keybind is the name of a key, with `Ctrl` or `Alt` and a blank before it
//! where the key is pressed together with one of them: `a`, `Ctrl a`,
//! `Backspace`. A blank parts the two because `+` can be the name of a key.
//! For a letter with `Shift`, the capital letter is written: `Ctrl A`.

use crate::strings::{lowercase, split_on, split_on_char, str_eq, texts};
use vstd::prelude::*;
use vstd::string::{StrSliceExecFns, StringExecFns};

verus! {

/// A key of the keyboard, alone or with a modifier.
#[derive(Clone, Copy, Debug, PartialEq, Eq, Structural)]
pub enum Key {
    Backspace,
    Left,
    Right,
    Up,
    Down,
    Home,
    End,
    PageUp,
    PageDown,
    BackTab,
    Delete,
    Insert,
    /// The key of a character.
    Char(char),
    /// The key of a character, pressed with `Alt`.
    Alt(char),
    /// The key of a character, pressed with `Ctrl`.
    Ctrl(char),
    Esc,
}

/// Why a keybind could not be read.
#[derive(Clone, Copy, Debug, PartialEq, Eq)]
pub enum ParseErrorKind {
    /// The keybind names no key.
    MissingKeyName,
    /// The key is a single character that is no letter, digit or sign of
    /// ASCII (codes 33 to 126).
    InvalidCharacterKeyName,
    /// The key has a longer name that is none of the known ones, such as
    /// `Backspace` or `Up`.
    InvalidSpecialKeyName,
    /// More than one modifier stands before the key.
    TooManyModifiers,
    /// The modifier is neither `Ctrl` nor `Alt`.
    UnknownModifier,
    /// A modifier stands before a key with a longer name.
    ModifierWithSpecialKey,
}

/// The key with the name `name`, which is in lower case.
pub open spec fn special_key(name: Seq<char>) -> Option<Key> {
    if name == "backspace"@ {
        Some(Key::Backspace)
    } else if name == "left"@ {
        Some(Key::Left)
    } else if name == "right"@ {
        Some(Key::Right)
    } else if name == "up"@ {
        Some(Key::Up)
    } else if name == "down"@ {
        Some(Key::Down)
    } else if name == "home"@ {
        Some(Key::Home)
    } else if name == "end"@ {
        Some(Key::End)
    } else if name == "pageup"@ {
        Some(Key::PageUp)
    } else if name == "pagedown"@ {
        Some(Key::PageDown)
    } else if name == "backtab"@ {
        Some(Key::BackTab)
    } else if name == "delete"@ {
        Some(Key::Delete)
    } else if name == "insert"@ {
        Some(Key::Insert)
    } else if name == "esc"@ {
        Some(Key::Esc)
    } else {
        None
    }
}

/// Whether `name` is a single character of one byte.
pub open spec fn is_short_name(name: Seq<char>) -> bool {
    name.len() == 1 && (name[0] as u32) < 128
}

/// Whether `c` may name a key: a letter, digit or sign of ASCII.
pub open spec fn is_key_char(c: char) -> bool {
    33 <= c as u32 <= 126
}

/// The key of the character `c` with the modifier `modifier`, if there is
/// one.
pub open spec fn char_key(c: char, modifier: Option<Seq<char>>) -> Result<Key, ParseErrorKind> {
    if !is_key_char(c) {
        Err(ParseErrorKind::InvalidCharacterKeyName)
    } else {
        match modifier {
            None => Ok(Key::Char(c)),
            Some(modifier) => if lowercase(modifier) == "ctrl"@ {
                Ok(Key::Ctrl(c))
            } else if lowercase(modifier) == "alt"@ {
                Ok(Key::Alt(c))
            } else {
                Err(ParseErrorKind::UnknownModifier)
            },
        }
    }
}

/// The key that the words `parts` of a keybind stand for. The last word
/// names the key. The word before it, unless it is empty, is the modifier.
pub open spec fn key_of_parts(parts: Seq<Seq<char>>) -> Result<Key, ParseErrorKind> {
    let n = parts.len();
    let keyname = parts[n - 1];
    let modifier = if n >= 2 && parts[n - 2].len() > 0 {
        Some(parts[n - 2])
    } else {
        None
    };
    if keyname.len() == 0 {
        Err(ParseErrorKind::MissingKeyName)
    } else if n >= 3 {
        Err(ParseErrorKind::TooManyModifiers)
    } else if is_short_name(keyname) {
        char_key(keyname[0], modifier)
    } else if modifier is Some {
        Err(ParseErrorKind::ModifierWithSpecialKey)
    } else {
        match special_key(lowercase(keyname)) {
            Some(key) => Ok(key),
            None => Err(ParseErrorKind::InvalidSpecialKeyName),
        }
    }
}

/// The key that `keybind` stands for: its words are what single blanks part.
pub open spec fn key_of(keybind: Seq<char>) -> Result<Key, ParseErrorKind> {
    key_of_parts(split_on(keybind, ' '))
}

/// The key with the name `name`, in whatever case it is written.
fn special_key_named(name: &str) -> (key: Option<Key>)
    ensures
        key == special_key(lowercase(name@)),
{
    let lower = name.to_lowercase();
    let lower = lower.as_str();
    if str_eq(lower, "backspace") {
        Some(Key::Backspace)
    } else if str_eq(lower, "left") {
        Some(Key::Left)
    } else if str_eq(lower, "right") {
        Some(Key::Right)
    } else if str_eq(lower, "up") {
        Some(Key::Up)
    } else if str_eq(lower, "down") {
        Some(Key::Down)
    } else if str_eq(lower, "home") {
        Some(Key::Home)
    } else if str_eq(lower, "end") {
        Some(Key::End)
    } else if str_eq(lower, "pageup") {
        Some(Key::PageUp)
    } else if str_eq(lower, "pagedown") {
        Some(Key::PageDown)
    } else if str_eq(lower, "backtab") {
        Some(Key::BackTab)
    } else if str_eq(lower, "delete") {
        Some(Key::Delete)
    } else if str_eq(lower, "insert") {
        Some(Key::Insert)
    } else if str_eq(lower, "esc") {
        Some(Key::Esc)
    } else {
        None
    }
}

/// Reads the words of a keybind.
pub fn parse_keybind_parts(parts: &Vec<String>) -> (key: Result<Key, ParseErrorKind>)
    requires
        parts.len() >= 1,
    ensures
        key == key_of_parts(texts(parts@)),
{
    let n = parts.len();
    let keyname = parts[n - 1].as_str();
    assert(texts(parts@)[n - 1] == keyname@);
    if keyname.is_empty() {
        return Err(ParseErrorKind::MissingKeyName);
    }
    let modifier: Option<&str> = if n >= 2 && !parts[n - 2].as_str().is_empty() {
        Some(parts[n - 2].as_str())
    } else {
        None
    };
    if n >= 2 {
        assert(texts(parts@)[n - 2] == parts[n - 2]@);
    }
    if n >= 3 {
        return Err(ParseErrorKind::TooManyModifiers);
    }
    if keyname.unicode_len() == 1 {
        let ch = keyname.get_char(0);
        let code = ch as u32;
        if code < 128 {
            if !(33 <= code && code <= 126) {
                return Err(ParseErrorKind::InvalidCharacterKeyName);
            }
            let modifier = match modifier {
                Some(modifier) => modifier,
                None => {
                    return Ok(Key::Char(ch));
                },
            };
            let lower = modifier.to_lowercase();
            return if str_eq(lower.as_str(), "ctrl") {
                Ok(Key::Ctrl(ch))
            } else if str_eq(lower.as_str(), "alt") {
                Ok(Key::Alt(ch))
            } else {
                Err(ParseErrorKind::UnknownModifier)
            };
        }
    }
    if modifier.is_some() {
        return Err(ParseErrorKind::ModifierWithSpecialKey);
    }
    match special_key_named(keyname) {
        Some(key) => Ok(key),
        None => Err(ParseErrorKind::InvalidSpecialKeyName),
    }
}

/// Reads a keybind: the name of a key, with `Ctrl` or `Alt` and a blank
/// before it for a key that is pressed with one of them.
pub fn parse_keybind(keybind: &str) -> (key: Result<Key, ParseErrorKind>)
    ensures
        key == key_of(keybind@),
{
    let parts = split_on_char(keybind, ' ');
    parse_keybind_parts(&parts)
}

/// How `key` is written in the keybinds file.
pub open spec fn key_text(key: Key) -> Seq<char> {
    match key {
        Key::Char(ch) => seq![ch],
        Key::Ctrl(ch) => "Ctrl "@.push(ch),
        Key::Alt(ch) => "Alt "@.push(ch),
        Key::Backspace => "Backspace"@,
        Key::Left => "Left"@,
        Key::Right => "Right"@,
        Key::Up => "Up"@,
        Key::Down => "Down"@,
        Key::Home => "Home"@,
        Key::End => "End"@,
        Key::PageUp => "PageUp"@,
        Key::PageDown => "PageDown"@,
        Key::BackTab => "BackTab"@,
        Key::Delete => "Delete"@,
        Key::Insert => "Insert"@,
        Key::Esc => "Esc"@,
    }
}

/// Writes `key` the way that `parse_keybind` reads it.
pub fn display_key(key: &Key) -> (text: String)
    ensures
        text@ == key_text(*key),
{
    match key {
        Key::Char(ch) => {
            let mut text = String::new();
            text.push(*ch);
            assert(text@ == seq![*ch]);
            text
        },
        Key::Ctrl(ch) => {
            let mut text = String::from_str("Ctrl ");
            text.push(*ch);
            text
        },
        Key::Alt(ch) => {
            let mut text = String::from_str("Alt ");
            text.push(*ch);
            text
        },
        Key::Backspace => String::from_str("Backspace"),
        Key::Left => String::from_str("Left"),
        Key::Right => String::from_str("Right"),
        Key::Up => String::from_str("Up"),
        Key::Down => String::from_str("Down"),
        Key::Home => String::from_str("Home"),
        Key::End => String::from_str("End"),
        Key::PageUp => String::from_str("PageUp"),
        Key::PageDown => String::from_str("PageDown"),
        Key::BackTab => String::from_str("BackTab"),
        Key::Delete => String::from_str("Delete"),
        Key::Insert => String::from_str("Insert"),
        Key::Esc => String::from_str("Esc"),
    }
}

} // verus!
