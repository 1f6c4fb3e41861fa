//! The input modes and the table that maps a key event, in a given mode, to
//! an action and the next mode.
use vstd::prelude::*;

verus! {

/// In `Normal` a typed character is a command; in `Insert` it is text.
#[derive(Clone, Copy, Debug, PartialEq, Eq, Structural)]
pub enum Mode {
    Normal,
    Insert,
}

/// What was pressed, apart from modifiers.
#[derive(Clone, Copy, Debug, PartialEq, Eq, Structural)]
pub enum Key {
    Char(char),
    Enter,
    Backspace,
    Esc,
    Left,
    Right,
    Up,
    Down,
    Other,
}

/// One key press, with whether Control was held.
#[derive(Clone, Copy, Debug, PartialEq, Eq, Structural)]
pub struct KeyEvent {
    pub key: Key,
    pub ctrl: bool,
}

/// What a key press asks of the cursor and the buffer.
#[derive(Clone, Copy, Debug, PartialEq, Eq, Structural)]
pub enum Action {
    Nothing,
    MoveLeft,
    MoveRight,
    MoveUp,
    MoveDown,
    InsertChar(char),
    SplitLine,
    DeleteBefore,
    Quit,
}

/// The move that an arrow key asks for, in either mode.
pub open spec fn arrow_move(key: Key) -> Action {
    match key {
        Key::Left => Action::MoveLeft,
        Key::Right => Action::MoveRight,
        Key::Up => Action::MoveUp,
        Key::Down => Action::MoveDown,
        _ => Action::Nothing,
    }
}

/// Normal mode: `i` enters Insert, `h j k l` and the arrows move, Ctrl+`q`
/// quits, anything else is ignored.
pub open spec fn normal_transition(ev: KeyEvent) -> (Mode, Action) {
    match ev.key {
        Key::Char(c) => if c == 'i' {
            (Mode::Insert, Action::Nothing)
        } else if c == 'h' {
            (Mode::Normal, Action::MoveLeft)
        } else if c == 'j' {
            (Mode::Normal, Action::MoveDown)
        } else if c == 'k' {
            (Mode::Normal, Action::MoveUp)
        } else if c == 'l' {
            (Mode::Normal, Action::MoveRight)
        } else if c == 'q' && ev.ctrl {
            (Mode::Normal, Action::Quit)
        } else {
            (Mode::Normal, Action::Nothing)
        },
        _ => (Mode::Normal, arrow_move(ev.key)),
    }
}

/// Insert mode: Escape returns to Normal, a character is inserted, Enter
/// splits the line, Backspace deletes before the cursor, the arrows move,
/// anything else is ignored.
pub open spec fn insert_transition(ev: KeyEvent) -> (Mode, Action) {
    match ev.key {
        Key::Esc => (Mode::Normal, Action::Nothing),
        Key::Char(c) => (Mode::Insert, Action::InsertChar(c)),
        Key::Enter => (Mode::Insert, Action::SplitLine),
        Key::Backspace => (Mode::Insert, Action::DeleteBefore),
        _ => (Mode::Insert, arrow_move(ev.key)),
    }
}

/// The next mode and the action for `ev` pressed in `mode`.
pub open spec fn transition(mode: Mode, ev: KeyEvent) -> (Mode, Action) {
    match mode {
        Mode::Normal => normal_transition(ev),
        Mode::Insert => insert_transition(ev),
    }
}

impl KeyEvent {
    /// A press of `key` with Control held or not.
    pub fn new(key: Key, ctrl: bool) -> (r: KeyEvent)
        ensures
            r.key == key && r.ctrl == ctrl,
    {
        KeyEvent { key, ctrl }
    }
}

fn arrow_action(key: Key) -> (r: Action)
    ensures
        r == arrow_move(key),
{
    match key {
        Key::Left => Action::MoveLeft,
        Key::Right => Action::MoveRight,
        Key::Up => Action::MoveUp,
        Key::Down => Action::MoveDown,
        _ => Action::Nothing,
    }
}

/// The next mode and the action for `ev` pressed in Normal mode.
pub fn normal_mode_step(ev: KeyEvent) -> (r: (Mode, Action))
    ensures
        r == normal_transition(ev),
{
    match ev.key {
        Key::Char('i') => (Mode::Insert, Action::Nothing),
        Key::Char('h') => (Mode::Normal, Action::MoveLeft),
        Key::Char('j') => (Mode::Normal, Action::MoveDown),
        Key::Char('k') => (Mode::Normal, Action::MoveUp),
        Key::Char('l') => (Mode::Normal, Action::MoveRight),
        Key::Char('q') if ev.ctrl => (Mode::Normal, Action::Quit),
        Key::Char(_) => (Mode::Normal, Action::Nothing),
        _ => (Mode::Normal, arrow_action(ev.key)),
    }
}

/// The next mode and the action for `ev` pressed in Insert mode.
pub fn insert_mode_step(ev: KeyEvent) -> (r: (Mode, Action))
    ensures
        r == insert_transition(ev),
{
    match ev.key {
        Key::Esc => (Mode::Normal, Action::Nothing),
        Key::Char(c) => (Mode::Insert, Action::InsertChar(c)),
        Key::Enter => (Mode::Insert, Action::SplitLine),
        Key::Backspace => (Mode::Insert, Action::DeleteBefore),
        _ => (Mode::Insert, arrow_action(ev.key)),
    }
}

/// The next mode and the action for `ev` pressed in `mode`.
pub fn mode_step(mode: Mode, ev: KeyEvent) -> (r: (Mode, Action))
    ensures
        r == transition(mode, ev),
{
    match mode {
        Mode::Normal => normal_mode_step(ev),
        Mode::Insert => insert_mode_step(ev),
    }
}

} // verus!
