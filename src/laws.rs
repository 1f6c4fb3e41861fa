//! Facts about every editor state that the key handling keeps or obeys.
use vstd::prelude::*;
use crate::mode::{transition, Action, KeyEvent};
use crate::session::{apply_action, step, valid_state, EditorState};

verus! {

/// Every action keeps the buffer non-empty and the cursor inside it.
pub proof fn lemma_action_keeps_valid(s: EditorState, a: Action)
    requires
        valid_state(s),
    ensures
        valid_state(apply_action(s, a)),
{
    let t = apply_action(s, a);
    match a {
        Action::InsertChar(c) => {
            assert(t.lines[s.row].len() == s.lines[s.row].len() + 1);
        },
        Action::SplitLine => {
            assert(t.lines[s.row + 1] == s.lines[s.row].skip(s.col));
        },
        Action::DeleteBefore => {
            if s.col == 0 && s.row > 0 {
                assert(t.lines[s.row - 1] == s.lines[s.row - 1] + s.lines[s.row]);
            }
        },
        _ => {},
    }
}

/// Every key press keeps the buffer non-empty and the cursor inside it.
pub proof fn lemma_step_keeps_valid(s: EditorState, ev: KeyEvent)
    requires
        valid_state(s),
    ensures
        valid_state(step(s, ev)),
        step(s, ev).lines.len() >= 1,
{
    lemma_action_keeps_valid(s, transition(s.mode, ev).1);
}

/// Moving against an edge changes nothing: left at the start of a line,
/// right at its end, up on the first line, down on the last.
pub proof fn lemma_moves_stop_at_edges(s: EditorState)
    requires
        valid_state(s),
    ensures
        s.col == 0 ==> apply_action(s, Action::MoveLeft) == s,
        s.col == s.lines[s.row].len() ==> apply_action(s, Action::MoveRight) == s,
        s.row == 0 ==> apply_action(s, Action::MoveUp) == s,
        s.row == s.lines.len() - 1 ==> apply_action(s, Action::MoveDown) == s,
{
}

/// Inserting a character and then deleting before the cursor gives back
/// the lines and the cursor as they were.
pub proof fn lemma_insert_then_backspace(s: EditorState, c: char)
    requires
        valid_state(s),
    ensures
        apply_action(apply_action(s, Action::InsertChar(c)), Action::DeleteBefore) == s,
{
    let t = apply_action(s, Action::InsertChar(c));
    let u = apply_action(t, Action::DeleteBefore);
    assert(t.lines[s.row].remove(s.col) =~= s.lines[s.row]);
    assert(u.lines =~= s.lines);
}

/// Splitting a line at the cursor and then deleting before the cursor, at
/// the start of the new line, joins the line again and puts the cursor back.
pub proof fn lemma_split_then_join(s: EditorState)
    requires
        valid_state(s),
    ensures
        apply_action(apply_action(s, Action::SplitLine), Action::DeleteBefore) == s,
{
    let t = apply_action(s, Action::SplitLine);
    let u = apply_action(t, Action::DeleteBefore);
    assert(t.lines[s.row] =~= s.lines[s.row].take(s.col));
    assert(t.lines[s.row + 1] =~= s.lines[s.row].skip(s.col));
    assert(t.lines[s.row] + t.lines[s.row + 1] =~= s.lines[s.row]);
    assert(u.lines =~= s.lines);
}

} // verus!
