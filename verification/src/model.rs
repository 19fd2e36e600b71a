//! The mathematical model of the tracker: the abstract state (two ordered
//! lists of item texts, one selection cursor per list, the input-mode state
//! machine with its transient buffer and edit target) and the transition
//! functions that every executable operation is proved to refine.

use vstd::prelude::*;

verus! {

/// Which of the two lists currently receives navigation and mutation keys.
#[derive(Clone, Copy, Debug, PartialEq, Eq, Structural)]
pub enum Focus {
    Pending,
    Done,
}

/// Position of the input-mode state machine: `Normal` routes keys to list
/// commands, `Creating` composes a brand-new pending item, and
/// `EditingExisting` rewrites the item captured in the edit target.
#[derive(Clone, Copy, Debug, PartialEq, Eq, Structural)]
pub enum InputMode {
    Normal,
    Creating,
    EditingExisting,
}

/// A discrete key event, already decoded from the terminal by the caller.
/// Which command a `Char` stands for depends on the current mode: in
/// `Normal` mode a few letters are bound to commands, while in the two
/// text-entry modes every character is payload for the input buffer.
#[derive(Clone, Copy, Debug, PartialEq, Eq, Structural)]
pub enum Key {
    Char(char),
    Enter,
    Esc,
    Backspace,
    Tab,
    Other,
}

/// Abstract state of the tracker.  Item texts are sequences of characters;
/// cursors are `None` exactly when nothing is selected in their list.
#[verifier::ext_equal]
pub struct Model {
    pub pending: Seq<Seq<char>>,
    pub done: Seq<Seq<char>>,
    pub pending_cursor: Option<int>,
    pub done_cursor: Option<int>,
    pub focus: Focus,
    pub mode: InputMode,
    pub input: Seq<char>,
    pub edit_target: Option<(Focus, int)>,
}

/// The structural invariant of every reachable state: each cursor is either
/// "no selection" or a valid in-bounds index of its list, and an empty list
/// never has a selection.
pub open spec fn inv(m: Model) -> bool {
    &&& match m.pending_cursor {
        Some(i) => 0 <= i < m.pending.len(),
        None => true,
    }
    &&& match m.done_cursor {
        Some(i) => 0 <= i < m.done.len(),
        None => true,
    }
    &&& m.pending.len() == 0 ==> m.pending_cursor is None
    &&& m.done.len() == 0 ==> m.done_cursor is None
}

/// The state the tracker starts from when no saved file exists.
pub open spec fn init_model() -> Model {
    Model {
        pending: Seq::empty(),
        done: Seq::empty(),
        pending_cursor: None,
        done_cursor: None,
        focus: Focus::Pending,
        mode: InputMode::Normal,
        input: Seq::empty(),
        edit_target: None,
    }
}

pub proof fn lemma_init_inv()
    ensures
        inv(init_model()),
{
}

/// Cursor repair after a list shrank by removing the item at `removed`:
/// an emptied list loses its selection; if the removed index was the last
/// valid index of the now-shorter list and still at least 1, the cursor
/// steps back by one; otherwise the numeric index is kept and now names
/// the item that followed the removed one.
pub open spec fn repaired_cursor(removed: int, new_len: int) -> Option<int> {
    if new_len == 0 {
        None
    } else if removed == new_len && removed >= 1 {
        Some(removed - 1)
    } else {
        Some(removed)
    }
}

/// The cursor of a list that an item was just appended to: a list gaining
/// its first item selects it; otherwise the cursor is untouched.
pub open spec fn cursor_after_gain(old_cursor: Option<int>, old_len: int) -> Option<int> {
    if old_len == 0 {
        Some(0)
    } else {
        old_cursor
    }
}

/// Circular successor of index `i` in a list of length `len`.
pub open spec fn wrap_next(i: int, len: int) -> int {
    if i >= len - 1 {
        0
    } else {
        i + 1
    }
}

/// Circular predecessor of index `i` in a list of length `len`.
pub open spec fn wrap_prev(i: int, len: int) -> int {
    if i == 0 {
        len - 1
    } else {
        i - 1
    }
}

/// Move the selection of the focused list one step down, wrapping past the
/// end back to the top; no-op when that list has no selection.
pub open spec fn spec_next(m: Model) -> Model {
    match m.focus {
        Focus::Pending => match m.pending_cursor {
            Some(i) => Model { pending_cursor: Some(wrap_next(i, m.pending.len() as int)), ..m },
            None => m,
        },
        Focus::Done => match m.done_cursor {
            Some(i) => Model { done_cursor: Some(wrap_next(i, m.done.len() as int)), ..m },
            None => m,
        },
    }
}

/// Move the selection of the focused list one step up, wrapping before the
/// top to the bottom; no-op when that list has no selection.
pub open spec fn spec_previous(m: Model) -> Model {
    match m.focus {
        Focus::Pending => match m.pending_cursor {
            Some(i) => Model { pending_cursor: Some(wrap_prev(i, m.pending.len() as int)), ..m },
            None => m,
        },
        Focus::Done => match m.done_cursor {
            Some(i) => Model { done_cursor: Some(wrap_prev(i, m.done.len() as int)), ..m },
            None => m,
        },
    }
}

/// Remove the selected pending item and append it to the done list,
/// repairing both cursors; no-op without a pending selection.
pub open spec fn spec_move_to_done(m: Model) -> Model {
    match m.pending_cursor {
        Some(i) => {
            if m.pending.len() == 0 {
                m
            } else {
                Model {
                    pending: m.pending.remove(i),
                    done: m.done.push(m.pending[i]),
                    pending_cursor: repaired_cursor(i, m.pending.len() - 1),
                    done_cursor: cursor_after_gain(m.done_cursor, m.done.len() as int),
                    ..m
                }
            }
        },
        None => m,
    }
}

/// Remove the selected done item and append it to the pending list,
/// repairing both cursors; no-op without a done selection.
pub open spec fn spec_move_to_todo(m: Model) -> Model {
    match m.done_cursor {
        Some(i) => {
            if m.done.len() == 0 {
                m
            } else {
                Model {
                    done: m.done.remove(i),
                    pending: m.pending.push(m.done[i]),
                    done_cursor: repaired_cursor(i, m.done.len() - 1),
                    pending_cursor: cursor_after_gain(m.pending_cursor, m.pending.len() as int),
                    ..m
                }
            }
        },
        None => m,
    }
}

/// Remove the selected pending item (deletion is only offered on the
/// pending list), repairing its cursor; no-op without a pending selection.
pub open spec fn spec_delete_selected(m: Model) -> Model {
    match m.pending_cursor {
        Some(i) => {
            if m.pending.len() == 0 {
                m
            } else {
                Model {
                    pending: m.pending.remove(i),
                    pending_cursor: repaired_cursor(i, m.pending.len() - 1),
                    ..m
                }
            }
        },
        None => m,
    }
}

/// Toggle which list is focused: the newly focused list selects its top
/// item (or nothing when empty), the previously focused one is deselected.
pub open spec fn spec_switch_focus(m: Model) -> Model {
    match m.focus {
        Focus::Pending => Model {
            focus: Focus::Done,
            pending_cursor: None,
            done_cursor: if m.done.len() == 0 { None } else { Some(0) },
            ..m
        },
        Focus::Done => Model {
            focus: Focus::Pending,
            done_cursor: None,
            pending_cursor: if m.pending.len() == 0 { None } else { Some(0) },
            ..m
        },
    }
}

/// Append `text` as a new pending item; a pending list without a selection
/// selects index 0.  Never fails: empty text is a valid item.
pub open spec fn spec_append(m: Model, text: Seq<char>) -> Model {
    Model {
        pending: m.pending.push(text),
        pending_cursor: if m.pending_cursor is None {
            Some(0)
        } else {
            m.pending_cursor
        },
        ..m
    }
}

/// Capture the selected item (pending list preferred when both lists hold
/// a selection) as the edit target, copy its text into the input buffer,
/// and enter `EditingExisting`; no-op when neither list has a selection.
pub open spec fn spec_begin_edit(m: Model) -> Model {
    match m.pending_cursor {
        Some(i) => Model {
            input: m.pending[i],
            edit_target: Some((Focus::Pending, i)),
            mode: InputMode::EditingExisting,
            ..m
        },
        None => match m.done_cursor {
            Some(i) => Model {
                input: m.done[i],
                edit_target: Some((Focus::Done, i)),
                mode: InputMode::EditingExisting,
                ..m
            },
            None => m,
        },
    }
}

/// Leave any text-entry mode: discard the input buffer and the edit target
/// and return to `Normal`.
pub open spec fn leave_entry(m: Model) -> Model {
    Model { input: Seq::empty(), edit_target: None, mode: InputMode::Normal, ..m }
}

/// Write the input buffer back through the captured edit target, then
/// leave text entry.  A target index that no longer fits its list (which
/// cannot arise through the key-event interface) writes nothing.
pub open spec fn spec_commit_edit(m: Model) -> Model {
    match m.edit_target {
        Some((list, i)) => match list {
            Focus::Pending => {
                if 0 <= i < m.pending.len() {
                    leave_entry(Model { pending: m.pending.update(i, m.input), ..m })
                } else {
                    leave_entry(m)
                }
            },
            Focus::Done => {
                if 0 <= i < m.done.len() {
                    leave_entry(Model { done: m.done.update(i, m.input), ..m })
                } else {
                    leave_entry(m)
                }
            },
        },
        None => leave_entry(m),
    }
}

/// Abandon an in-progress edit: buffer and target are discarded, the
/// underlying item is untouched.
pub open spec fn spec_cancel_edit(m: Model) -> Model {
    leave_entry(m)
}

/// Append one character to the input buffer.
pub open spec fn spec_input_char(m: Model, c: char) -> Model {
    Model { input: m.input.push(c), ..m }
}

/// Drop the last character of the input buffer; no-op when it is empty.
pub open spec fn spec_input_backspace(m: Model) -> Model {
    if m.input.len() == 0 {
        m
    } else {
        Model { input: m.input.drop_last(), ..m }
    }
}

/// The whole input-mode state machine: how one key event transforms the
/// state, given the current mode.  In `Normal` mode a few letters are
/// bound to commands ('e' edit, 'i' create, 'j'/'k' navigate, 'd' delete);
/// in the text-entry modes characters feed the buffer.
pub open spec fn spec_handle_key(m: Model, k: Key) -> Model {
    match m.mode {
        InputMode::Normal => match k {
            Key::Char(c) => {
                if c == 'e' {
                    spec_begin_edit(m)
                } else if c == 'i' {
                    Model { mode: InputMode::Creating, ..m }
                } else if c == 'j' {
                    spec_next(m)
                } else if c == 'k' {
                    spec_previous(m)
                } else if c == 'd' {
                    spec_delete_selected(m)
                } else {
                    m
                }
            },
            Key::Tab => spec_switch_focus(m),
            Key::Enter => {
                if m.focus is Pending {
                    spec_move_to_done(m)
                } else {
                    spec_move_to_todo(m)
                }
            },
            _ => m,
        },
        InputMode::Creating => match k {
            Key::Enter => leave_entry(spec_append(m, m.input)),
            Key::Char(c) => spec_input_char(m, c),
            Key::Backspace => spec_input_backspace(m),
            Key::Esc => leave_entry(m),
            _ => m,
        },
        InputMode::EditingExisting => match k {
            Key::Enter => spec_commit_edit(m),
            Key::Char(c) => spec_input_char(m, c),
            Key::Backspace => spec_input_backspace(m),
            Key::Esc => spec_cancel_edit(m),
            _ => m,
        },
    }
}

/// Whether a key event terminates the main loop: only 'q' in `Normal`
/// mode does.
pub open spec fn spec_quits(m: Model, k: Key) -> bool {
    m.mode is Normal && k == Key::Char('q')
}

/// Every reachable state keeps each cursor either empty or in bounds:
/// every single key event preserves the invariant.
pub proof fn lemma_handle_key_preserves_inv(m: Model, k: Key)
    requires
        inv(m),
    ensures
        inv(spec_handle_key(m, k)),
{
}

/// Cancelling an edit right after beginning one leaves both lists
/// byte-for-byte identical to what they were before the edit began.
pub proof fn lemma_cancel_after_begin_edit(m: Model)
    ensures
        spec_cancel_edit(spec_begin_edit(m)).pending == m.pending,
        spec_cancel_edit(spec_begin_edit(m)).done == m.done,
{
}

} // verus!

