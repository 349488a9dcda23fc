//! Keys, modes and the commands that a key means in each mode.

use vstd::prelude::*;

verus! {

/// A key press, as the terminal reports it.
#[derive(Debug, Clone, Copy, PartialEq, Eq, Structural)]
pub enum Key {
    Char(char),
    Up,
    Down,
    Delete,
    Backspace,
    Esc,
    /// Any key that no mode gives a meaning.
    Other,
}

/// The input mode: browsing the list, or typing the name of a new task.
#[derive(Debug, Clone, Copy, PartialEq, Eq, Structural)]
pub enum Mode {
    Normal,
    Adding,
}

#[derive(Debug, Clone, Copy, PartialEq, Eq, Structural)]
pub enum Command {
    Quit,
    Add,
    DeleteTask,
    SwitchState,
    MoveDown,
    MoveUp,
    Invalid,
    InsertChar(char),
    DeleteChar,
    EnterNormalMode,
    EnterCommand,
}

/// What `key` means in Normal mode.
pub open spec fn normal_command(key: Key) -> Command {
    match key {
        Key::Char('k') | Key::Up => Command::MoveUp,
        Key::Char('j') | Key::Down => Command::MoveDown,
        Key::Char('a') => Command::Add,
        Key::Char('x') | Key::Delete => Command::DeleteTask,
        Key::Char('q') | Key::Esc => Command::Quit,
        Key::Char('m') => Command::SwitchState,
        _ => Command::Invalid,
    }
}

/// A control character (Unicode general category Cc): U+0000 to U+001F and
/// U+007F to U+009F.
pub open spec fn is_control(c: char) -> bool {
    c <= '\u{1f}' || ('\u{7f}' <= c && c <= '\u{9f}')
}

/// What `key` means in Adding mode: Enter commits, printable characters are
/// typed, other control characters mean nothing.
pub open spec fn adding_command(key: Key) -> Command {
    match key {
        Key::Char('\n') => Command::EnterCommand,
        Key::Char(c) => if is_control(c) {
            Command::Invalid
        } else {
            Command::InsertChar(c)
        },
        Key::Backspace => Command::DeleteChar,
        Key::Esc => Command::EnterNormalMode,
        _ => Command::Invalid,
    }
}

pub open spec fn key_command(mode: Mode, key: Key) -> Command {
    match mode {
        Mode::Normal => normal_command(key),
        Mode::Adding => adding_command(key),
    }
}

impl Mode {
    /// The mode's name, as shown on the status line.
    pub fn name(&self) -> (r: String)
        ensures
            r@ == mode_name(*self),
    {
        let r = match self {
            Mode::Normal => String::from_str("Normal"),
            Mode::Adding => String::from_str("Adding"),
        };
        proof {
            reveal_strlit("Normal");
            reveal_strlit("Adding");
            assert(r@ =~= mode_name(*self));
        }
        r
    }
}

pub open spec fn mode_name(m: Mode) -> Seq<char> {
    match m {
        Mode::Normal => seq!['N', 'o', 'r', 'm', 'a', 'l'],
        Mode::Adding => seq!['A', 'd', 'd', 'i', 'n', 'g'],
    }
}

/// The command that `key` stands for in `mode`.
pub fn parse_key(mode: Mode, key: Key) -> (r: Command)
    ensures
        r == key_command(mode, key),
{
    match mode {
        Mode::Normal => match key {
            Key::Char('k') | Key::Up => Command::MoveUp,
            Key::Char('j') | Key::Down => Command::MoveDown,
            Key::Char('a') => Command::Add,
            Key::Char('x') | Key::Delete => Command::DeleteTask,
            Key::Char('q') | Key::Esc => Command::Quit,
            Key::Char('m') => Command::SwitchState,
            _ => Command::Invalid,
        },
        Mode::Adding => match key {
            Key::Char('\n') => Command::EnterCommand,
            Key::Char(c) => if c <= '\u{1f}' || ('\u{7f}' <= c && c <= '\u{9f}') {
                Command::Invalid
            } else {
                Command::InsertChar(c)
            },
            Key::Backspace => Command::DeleteChar,
            Key::Esc => Command::EnterNormalMode,
            _ => Command::Invalid,
        },
    }
}

} // verus!
