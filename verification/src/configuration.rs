//! The settings that the rest of the library is handed: date formats, icons,
//! theme colors and key bindings, with their built-in defaults and the
//! textual names of keys.

use vstd::prelude::*;
use vstd::string::*;
use crate::text::str_eq;

verus! {

/// The patterns by which dates are read and shown, with the hints shown
/// beside an input field.
#[derive(Clone, Debug, PartialEq, Eq)]
pub struct DateFormats {
    pub display_date_format: String,
    pub display_datetime_format: String,
    pub input_date_format: String,
    pub input_date_hint: String,
    pub input_datetime_format: String,
    pub input_datetime_hint: String,
}

impl DateFormats {
    /// The built-in patterns: ISO dates, and times to the second.
    pub fn new() -> (r: DateFormats)
        ensures
            r.display_date_format@ == "%Y-%m-%d"@,
            r.display_datetime_format@ == "%Y-%m-%d %H:%M:%S"@,
            r.input_date_format@ == "%Y-%m-%d"@,
            r.input_date_hint@ == "YYYY-MM-DD"@,
            r.input_datetime_format@ == "%Y-%m-%d %H:%M:%S"@,
            r.input_datetime_hint@ == "YYYY-MM-DD HH:MM:SS"@,
    {
        DateFormats {
            display_date_format: String::from_str("%Y-%m-%d"),
            display_datetime_format: String::from_str("%Y-%m-%d %H:%M:%S"),
            input_date_format: String::from_str("%Y-%m-%d"),
            input_date_hint: String::from_str("YYYY-MM-DD"),
            input_datetime_format: String::from_str("%Y-%m-%d %H:%M:%S"),
            input_datetime_hint: String::from_str("YYYY-MM-DD HH:MM:SS"),
        }
    }
}

/// The glyphs that mark a task as complete, incomplete or repeating.
#[derive(Clone, Debug, PartialEq, Eq)]
pub struct Icons {
    pub complete: String,
    pub incomplete: String,
    pub repeats: String,
}

impl Icons {
    /// The glyph for a task's completion state, with one space before it.
    pub fn get_complete_icon(&self, complete: bool) -> (r: String)
        ensures
            r@ == " "@ + (if complete { self.complete@ } else { self.incomplete@ }),
    {
        let pad = String::from_str(" ");
        if complete {
            pad.concat(self.complete.as_str())
        } else {
            pad.concat(self.incomplete.as_str())
        }
    }
}

impl Default for Icons {
    fn default() -> (r: Icons)
        ensures
            r.complete@ == "[x]"@,
            r.incomplete@ == "[ ]"@,
            r.repeats@ == "[r]"@,
    {
        Icons {
            complete: String::from_str("[x]"),
            incomplete: String::from_str("[ ]"),
            repeats: String::from_str("[r]"),
        }
    }
}

/// A terminal color.
#[derive(Clone, Copy, Debug, PartialEq, Eq, Structural)]
pub enum Color {
    Reset,
    Black,
    Red,
    Green,
    Yellow,
    Blue,
    Magenta,
    Cyan,
    Gray,
    DarkGray,
    LightRed,
    LightGreen,
    LightYellow,
    LightBlue,
    LightMagenta,
    LightCyan,
    White,
    Rgb(u8, u8, u8),
    Indexed(u8),
}

/// The three colors of the theme.
#[derive(Clone, Copy, Debug, PartialEq, Eq, Structural)]
pub struct Colors {
    pub primary_color: Color,
    pub secondary_color: Color,
    pub accent_color: Color,
}

impl Default for Colors {
    fn default() -> (r: Colors)
        ensures
            r == (Colors {
                primary_color: Color::LightGreen,
                secondary_color: Color::LightYellow,
                accent_color: Color::LightBlue,
            }),
    {
        Colors {
            primary_color: Color::LightGreen,
            secondary_color: Color::LightYellow,
            accent_color: Color::LightBlue,
        }
    }
}

/// A key of the keyboard.
#[derive(Clone, Copy, Debug, PartialEq, Eq, Structural)]
pub enum Key {
    Backspace,
    Enter,
    Left,
    Right,
    Up,
    Down,
    Home,
    End,
    PageUp,
    PageDown,
    Tab,
    BackTab,
    Delete,
    Insert,
    /// A function key, by its number.
    F(u8),
    /// A key that types a character.
    Char(char),
    Null,
    Esc,
    CapsLock,
    ScrollLock,
    NumLock,
    PrintScreen,
    Pause,
    Menu,
    KeypadBegin,
    /// A media or modifier key, which has no name here.
    Other,
}

/// Why a text names no key.
#[derive(Clone, Copy, Debug, PartialEq, Eq, Structural)]
pub enum KeyError {
    /// The text is no key name and not a single ASCII character.
    InvalidKey,
}

impl KeyError {
    /// The message shown to the user.
    pub fn message(&self) -> (s: String)
        ensures
            s@ == "Invalid key"@,
    {
        String::from_str("Invalid key")
    }
}

/// What `str::to_lowercase` returns for a text.
pub uninterp spec fn lowercase_of(s: Seq<char>) -> Seq<char>;

/// `str::to_lowercase` of std: the text with each character replaced by its
/// Unicode lowercase form. The contract only names the result.
#[verifier::external_body]
fn to_lowercase(s: &str) -> (r: String)
    ensures
        r@ == lowercase_of(s@),
{
    s.to_lowercase()
}

/// `char::to_string` of std: the string made of the one character.
#[verifier::external_body]
fn char_to_string(c: char) -> (r: String)
    ensures
        r@ == seq![c],
{
    c.to_string()
}

/// Whether a text is one ASCII character.
pub open spec fn is_single_ascii(s: Seq<char>) -> bool {
    s.len() == 1 && (s[0] as u32) < 128
}

/// The key that a lowercase name stands for: a fixed name, or else the single
/// ASCII character that the text consists of. The name `capslock` stands for
/// `Null`.
pub open spec fn key_of_name(s: Seq<char>) -> Option<Key> {
    if s == "esc"@ {
        Some(Key::Esc)
    } else if s == "backspace"@ {
        Some(Key::Backspace)
    } else if s == "left"@ {
        Some(Key::Left)
    } else if s == "right"@ {
        Some(Key::Right)
    } else if s == "up"@ {
        Some(Key::Up)
    } else if s == "down"@ {
        Some(Key::Down)
    } else if s == "home"@ {
        Some(Key::Home)
    } else if s == "end"@ {
        Some(Key::End)
    } else if s == "delete"@ {
        Some(Key::Delete)
    } else if s == "insert"@ {
        Some(Key::Insert)
    } else if s == "pageup"@ {
        Some(Key::PageUp)
    } else if s == "pagedown"@ {
        Some(Key::PageDown)
    } else if s == "f1"@ {
        Some(Key::F(1))
    } else if s == "f2"@ {
        Some(Key::F(2))
    } else if s == "f3"@ {
        Some(Key::F(3))
    } else if s == "f4"@ {
        Some(Key::F(4))
    } else if s == "f5"@ {
        Some(Key::F(5))
    } else if s == "f6"@ {
        Some(Key::F(6))
    } else if s == "f7"@ {
        Some(Key::F(7))
    } else if s == "f8"@ {
        Some(Key::F(8))
    } else if s == "f9"@ {
        Some(Key::F(9))
    } else if s == "f10"@ {
        Some(Key::F(10))
    } else if s == "f11"@ {
        Some(Key::F(11))
    } else if s == "f12"@ {
        Some(Key::F(12))
    } else if s == "space"@ {
        Some(Key::Char(' '))
    } else if s == "tab"@ {
        Some(Key::Tab)
    } else if s == "backtab"@ {
        Some(Key::BackTab)
    } else if s == "null"@ {
        Some(Key::Null)
    } else if s == "capslock"@ {
        Some(Key::Null)
    } else if s == "scrolllock"@ {
        Some(Key::ScrollLock)
    } else if s == "numlock"@ {
        Some(Key::NumLock)
    } else if s == "printscreen"@ {
        Some(Key::PrintScreen)
    } else if s == "pause"@ {
        Some(Key::Pause)
    } else if s == "menu"@ {
        Some(Key::Menu)
    } else if s == "keypadbegin"@ {
        Some(Key::KeypadBegin)
    } else if s == "enter"@ {
        Some(Key::Enter)
    } else if is_single_ascii(s) {
        Some(Key::Char(s[0]))
    } else {
        None
    }
}

/// The name that a key is written as. Function keys beyond the twelfth, and
/// the keys without a name, are written `Unknown`.
pub open spec fn name_of_key(k: Key) -> Seq<char> {
    match k {
        Key::Esc => "Esc"@,
        Key::Backspace => "Backspace"@,
        Key::Left => "Left"@,
        Key::Right => "Right"@,
        Key::Up => "Up"@,
        Key::Down => "Down"@,
        Key::Home => "Home"@,
        Key::End => "End"@,
        Key::Delete => "Delete"@,
        Key::Insert => "Insert"@,
        Key::PageUp => "PageUp"@,
        Key::PageDown => "PageDown"@,
        Key::F(n) => if n == 1 {
            "F1"@
        } else if n == 2 {
            "F2"@
        } else if n == 3 {
            "F3"@
        } else if n == 4 {
            "F4"@
        } else if n == 5 {
            "F5"@
        } else if n == 6 {
            "F6"@
        } else if n == 7 {
            "F7"@
        } else if n == 8 {
            "F8"@
        } else if n == 9 {
            "F9"@
        } else if n == 10 {
            "F10"@
        } else if n == 11 {
            "F11"@
        } else if n == 12 {
            "F12"@
        } else {
            "Unknown"@
        },
        Key::Char(c) => if c == ' ' {
            "Space"@
        } else {
            seq![c]
        },
        Key::Tab => "Tab"@,
        Key::Enter => "Enter"@,
        _ => "Unknown"@,
    }
}

/// Reads a key from a name that is already in lowercase.
pub fn key_from_lowercase(s: &str) -> (r: Result<Key, KeyError>)
    ensures
        match key_of_name(s@) {
            Some(k) => r == Ok::<Key, KeyError>(k),
            None => r == Err::<Key, KeyError>(KeyError::InvalidKey),
        },
{
    if str_eq(s, "esc") {
        Ok(Key::Esc)
    } else if str_eq(s, "backspace") {
        Ok(Key::Backspace)
    } else if str_eq(s, "left") {
        Ok(Key::Left)
    } else if str_eq(s, "right") {
        Ok(Key::Right)
    } else if str_eq(s, "up") {
        Ok(Key::Up)
    } else if str_eq(s, "down") {
        Ok(Key::Down)
    } else if str_eq(s, "home") {
        Ok(Key::Home)
    } else if str_eq(s, "end") {
        Ok(Key::End)
    } else if str_eq(s, "delete") {
        Ok(Key::Delete)
    } else if str_eq(s, "insert") {
        Ok(Key::Insert)
    } else if str_eq(s, "pageup") {
        Ok(Key::PageUp)
    } else if str_eq(s, "pagedown") {
        Ok(Key::PageDown)
    } else if str_eq(s, "f1") {
        Ok(Key::F(1))
    } else if str_eq(s, "f2") {
        Ok(Key::F(2))
    } else if str_eq(s, "f3") {
        Ok(Key::F(3))
    } else if str_eq(s, "f4") {
        Ok(Key::F(4))
    } else if str_eq(s, "f5") {
        Ok(Key::F(5))
    } else if str_eq(s, "f6") {
        Ok(Key::F(6))
    } else if str_eq(s, "f7") {
        Ok(Key::F(7))
    } else if str_eq(s, "f8") {
        Ok(Key::F(8))
    } else if str_eq(s, "f9") {
        Ok(Key::F(9))
    } else if str_eq(s, "f10") {
        Ok(Key::F(10))
    } else if str_eq(s, "f11") {
        Ok(Key::F(11))
    } else if str_eq(s, "f12") {
        Ok(Key::F(12))
    } else if str_eq(s, "space") {
        Ok(Key::Char(' '))
    } else if str_eq(s, "tab") {
        Ok(Key::Tab)
    } else if str_eq(s, "backtab") {
        Ok(Key::BackTab)
    } else if str_eq(s, "null") {
        Ok(Key::Null)
    } else if str_eq(s, "capslock") {
        Ok(Key::Null)
    } else if str_eq(s, "scrolllock") {
        Ok(Key::ScrollLock)
    } else if str_eq(s, "numlock") {
        Ok(Key::NumLock)
    } else if str_eq(s, "printscreen") {
        Ok(Key::PrintScreen)
    } else if str_eq(s, "pause") {
        Ok(Key::Pause)
    } else if str_eq(s, "menu") {
        Ok(Key::Menu)
    } else if str_eq(s, "keypadbegin") {
        Ok(Key::KeypadBegin)
    } else if str_eq(s, "enter") {
        Ok(Key::Enter)
    } else {
        let n: usize = s.unicode_len();
        if n == 1 {
            let c = s.get_char(0);
            if (c as u32) < 128 {
                return Ok(Key::Char(c));
            }
        }
        Err(KeyError::InvalidKey)
    }
}

/// Reads a key from its name, in any mix of upper and lower case.
pub fn key_from_str(s: &str) -> (r: Result<Key, KeyError>)
    ensures
        match key_of_name(lowercase_of(s@)) {
            Some(k) => r == Ok::<Key, KeyError>(k),
            None => r == Err::<Key, KeyError>(KeyError::InvalidKey),
        },
{
    let lower = to_lowercase(s);
    key_from_lowercase(lower.as_str())
}

/// The key of each command.
#[derive(Clone, Copy, Debug, PartialEq, Eq, Structural)]
pub struct KeyBindings {
    pub quit: Key,
    pub down: Key,
    pub up: Key,
    pub complete_task: Key,
    pub toggle_completed_tasks: Key,
    pub delete_task: Key,
    pub new_task: Key,
    pub edit_task: Key,
    pub save_changes: Key,
    pub enter_insert_mode: Key,
    pub enter_normal_mode: Key,
    pub go_back: Key,
    pub open_link: Key,
    pub next_group: Key,
    pub prev_group: Key,
}

impl KeyBindings {
    /// Writes a key as its name.
    pub fn key_to_str(key: &Key) -> (r: String)
        ensures
            r@ == name_of_key(*key),
    {
        match key {
            Key::Esc => String::from_str("Esc"),
            Key::Backspace => String::from_str("Backspace"),
            Key::Left => String::from_str("Left"),
            Key::Right => String::from_str("Right"),
            Key::Up => String::from_str("Up"),
            Key::Down => String::from_str("Down"),
            Key::Home => String::from_str("Home"),
            Key::End => String::from_str("End"),
            Key::Delete => String::from_str("Delete"),
            Key::Insert => String::from_str("Insert"),
            Key::PageUp => String::from_str("PageUp"),
            Key::PageDown => String::from_str("PageDown"),
            Key::F(n) => {
                let n: u8 = *n;
                if n == 1 {
                    String::from_str("F1")
                } else if n == 2 {
                    String::from_str("F2")
                } else if n == 3 {
                    String::from_str("F3")
                } else if n == 4 {
                    String::from_str("F4")
                } else if n == 5 {
                    String::from_str("F5")
                } else if n == 6 {
                    String::from_str("F6")
                } else if n == 7 {
                    String::from_str("F7")
                } else if n == 8 {
                    String::from_str("F8")
                } else if n == 9 {
                    String::from_str("F9")
                } else if n == 10 {
                    String::from_str("F10")
                } else if n == 11 {
                    String::from_str("F11")
                } else if n == 12 {
                    String::from_str("F12")
                } else {
                    String::from_str("Unknown")
                }
            },
            Key::Char(c) => {
                if *c == ' ' {
                    String::from_str("Space")
                } else {
                    char_to_string(*c)
                }
            },
            Key::Tab => String::from_str("Tab"),
            Key::Enter => String::from_str("Enter"),
            _ => String::from_str("Unknown"),
        }
    }
}

impl Default for KeyBindings {
    fn default() -> (r: KeyBindings)
        ensures
            r == (KeyBindings {
                quit: Key::Char('q'),
                down: Key::Down,
                up: Key::Up,
                complete_task: Key::Char(' '),
                toggle_completed_tasks: Key::Char('h'),
                delete_task: Key::Delete,
                new_task: Key::Char('n'),
                edit_task: Key::Char('e'),
                save_changes: Key::Enter,
                enter_insert_mode: Key::Char('i'),
                enter_normal_mode: Key::Esc,
                go_back: Key::Esc,
                open_link: Key::Enter,
                next_group: Key::Right,
                prev_group: Key::Left,
            }),
    {
        KeyBindings {
            quit: Key::Char('q'),
            down: Key::Down,
            up: Key::Up,
            complete_task: Key::Char(' '),
            toggle_completed_tasks: Key::Char('h'),
            delete_task: Key::Delete,
            new_task: Key::Char('n'),
            edit_task: Key::Char('e'),
            save_changes: Key::Enter,
            enter_insert_mode: Key::Char('i'),
            enter_normal_mode: Key::Esc,
            go_back: Key::Esc,
            open_link: Key::Enter,
            next_group: Key::Right,
            prev_group: Key::Left,
        }
    }
}

/// Everything the user can configure.
#[derive(Clone, Debug, PartialEq, Eq)]
pub struct Settings {
    pub date_formats: DateFormats,
    pub show_complete: bool,
    pub current_group: Option<String>,
    pub icons: Icons,
    pub colors: Colors,
    pub keybindings: KeyBindings,
}

/// The settings as they are first written out, before the user changes any.
#[derive(Debug)]
pub struct SettingsBuilder {
    pub date_formats: DateFormats,
    pub show_complete: bool,
    pub current_group: Option<String>,
    pub icons: Icons,
    pub colors: Colors,
    pub keybindings: KeyBindings,
}

impl Default for SettingsBuilder {
    fn default() -> (r: SettingsBuilder)
        ensures
            r.show_complete,
            r.current_group is None,
            r.icons.complete@ == "[x]"@,
            r.icons.incomplete@ == "[ ]"@,
            r.icons.repeats@ == "[r]"@,
            r.date_formats.display_date_format@ == "%Y-%m-%d"@,
            r.date_formats.display_datetime_format@ == "%Y-%m-%d %H:%M:%S"@,
            r.date_formats.input_date_format@ == "%Y-%m-%d"@,
            r.date_formats.input_date_hint@ == "YYYY-MM-DD"@,
            r.date_formats.input_datetime_format@ == "%Y-%m-%d %H:%M:%S"@,
            r.date_formats.input_datetime_hint@ == "YYYY-MM-DD HH:MM:SS"@,
            r.colors.primary_color == Color::LightGreen,
            r.colors.secondary_color == Color::LightYellow,
            r.colors.accent_color == Color::LightBlue,
            r.keybindings.quit == Key::Char('q'),
            r.keybindings.down == Key::Down,
            r.keybindings.up == Key::Up,
            r.keybindings.complete_task == Key::Char(' '),
            r.keybindings.toggle_completed_tasks == Key::Char('h'),
            r.keybindings.delete_task == Key::Delete,
            r.keybindings.new_task == Key::Char('n'),
            r.keybindings.edit_task == Key::Char('e'),
            r.keybindings.save_changes == Key::Enter,
            r.keybindings.enter_insert_mode == Key::Char('i'),
            r.keybindings.enter_normal_mode == Key::Esc,
            r.keybindings.go_back == Key::Esc,
            r.keybindings.open_link == Key::Enter,
            r.keybindings.next_group == Key::Right,
            r.keybindings.prev_group == Key::Left,
    {
        SettingsBuilder {
            show_complete: true,
            current_group: None,
            icons: Icons::default(),
            date_formats: DateFormats::new(),
            colors: Colors::default(),
            keybindings: KeyBindings::default(),
        }
    }
}

impl SettingsBuilder {
    /// The settings that the builder holds.
    pub fn build(self) -> (r: Settings)
        ensures
            r.date_formats == self.date_formats,
            r.show_complete == self.show_complete,
            r.current_group == self.current_group,
            r.icons == self.icons,
            r.colors == self.colors,
            r.keybindings == self.keybindings,
    {
        Settings {
            date_formats: self.date_formats,
            show_complete: self.show_complete,
            current_group: self.current_group,
            icons: self.icons,
            colors: self.colors,
            keybindings: self.keybindings,
        }
    }
}

} // verus!
