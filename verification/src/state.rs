//! The executable tracker state and its operations.  Every operation is
//! proved to refine the corresponding transition function of the model and
//! to preserve the cursor invariant.

use vstd::prelude::*;

use crate::model::Focus;
use crate::model::InputMode;
use crate::model::Key;
use crate::model::Model;
use crate::model::init_model;
use crate::model::inv;
use crate::model::spec_append;
use crate::model::spec_begin_edit;
use crate::model::spec_cancel_edit;
use crate::model::spec_commit_edit;
use crate::model::spec_delete_selected;
use crate::model::spec_handle_key;
use crate::model::spec_input_backspace;
use crate::model::spec_input_char;
use crate::model::spec_move_to_done;
use crate::model::spec_move_to_todo;
use crate::model::spec_next;
use crate::model::spec_previous;
use crate::model::spec_quits;
use crate::model::spec_switch_focus;

verus! {

/// The texts of a sequence of owned strings, as the model sees them.
pub open spec fn texts(lines: Seq<String>) -> Seq<Seq<char>> {
    Seq::new(lines.len(), |i: int| lines[i]@)
}

/// Appending a string appends its text.
pub proof fn lemma_texts_push(lines: Seq<String>, s: String)
    ensures
        texts(lines.push(s)) == texts(lines).push(s@),
{
    assert(texts(lines.push(s)) =~= texts(lines).push(s@));
}

/// Relies on String::push: appends exactly the given character at the end.
#[verifier::external_body]
fn push_char(s: &mut String, c: char)
    ensures
        final(s)@ == old(s)@.push(c),
{
    s.push(c);
}

/// Relies on String::pop: removes and returns the last character, or
/// returns None and leaves the string untouched when it is empty.
#[verifier::external_body]
fn pop_char(s: &mut String) -> (r: Option<char>)
    ensures
        old(s)@.len() == 0 ==> final(s)@ == old(s)@ && r is None,
        old(s)@.len() > 0 ==> final(s)@ == old(s)@.drop_last() && r == Some(old(s)@.last()),
{
    s.pop()
}

/// The (list, index) pair captured when an in-place edit begins; the commit
/// writes back through it.
#[derive(Clone, Copy, Debug, PartialEq, Eq, Structural)]
pub struct EditTarget {
    pub list: Focus,
    pub index: usize,
}

/// The executable tracker state: the two item lists, their cursors, the
/// focus flag, the input-mode machine, the transient input buffer and the
/// captured edit target.
pub struct App {
    pub todos: Vec<String>,
    pub done: Vec<String>,
    pub input: String,
    pub input_mode: InputMode,
    pub todo_cursor: Option<usize>,
    pub done_cursor: Option<usize>,
    pub focus: Focus,
    pub edit_target: Option<EditTarget>,
}

impl View for App {
    type V = Model;

    open spec fn view(&self) -> Model {
        Model {
            pending: texts(self.todos@),
            done: texts(self.done@),
            pending_cursor: match self.todo_cursor {
                Some(i) => Some(i as int),
                None => None,
            },
            done_cursor: match self.done_cursor {
                Some(i) => Some(i as int),
                None => None,
            },
            focus: self.focus,
            mode: self.input_mode,
            input: self.input@,
            edit_target: match self.edit_target {
                Some(t) => Some((t.list, t.index as int)),
                None => None,
            },
        }
    }
}

impl App {
    /// A fresh tracker: both lists empty, nothing selected, focus on the
    /// pending list, normal mode.
    pub fn new() -> (app: App)
        ensures
            app@ == init_model(),
            inv(app@),
    {
        let app = App {
            todos: Vec::new(),
            done: Vec::new(),
            input: String::new(),
            input_mode: InputMode::Normal,
            todo_cursor: None,
            done_cursor: None,
            focus: Focus::Pending,
            edit_target: None,
        };
        proof {
            assert(app@ =~~= init_model());
        }
        app
    }

    /// Move the focused list's selection one step down, wrapping to the top.
    pub fn next(&mut self)
        requires
            inv(old(self)@),
        ensures
            final(self)@ == spec_next(old(self)@),
            inv(final(self)@),
    {
        match self.focus {
            Focus::Pending => {
                if let Some(i) = self.todo_cursor {
                    let last: usize = self.todos.len() - 1;
                    self.todo_cursor = Some(if i >= last { 0 } else { i + 1 });
                }
            },
            Focus::Done => {
                if let Some(i) = self.done_cursor {
                    let last: usize = self.done.len() - 1;
                    self.done_cursor = Some(if i >= last { 0 } else { i + 1 });
                }
            },
        }
        proof {
            assert(self@ =~~= spec_next(old(self)@));
        }
    }

    /// Move the focused list's selection one step up, wrapping to the bottom.
    pub fn previous(&mut self)
        requires
            inv(old(self)@),
        ensures
            final(self)@ == spec_previous(old(self)@),
            inv(final(self)@),
    {
        match self.focus {
            Focus::Pending => {
                if let Some(i) = self.todo_cursor {
                    self.todo_cursor = Some(
                        if i == 0 {
                            self.todos.len() - 1
                        } else {
                            i - 1
                        },
                    );
                }
            },
            Focus::Done => {
                if let Some(i) = self.done_cursor {
                    self.done_cursor = Some(
                        if i == 0 {
                            self.done.len() - 1
                        } else {
                            i - 1
                        },
                    );
                }
            },
        }
        proof {
            assert(self@ =~~= spec_previous(old(self)@));
        }
    }

    /// Toggle which list is focused; the newly focused list selects its top
    /// item, the other list is deselected.
    pub fn switch_focus(&mut self)
        requires
            inv(old(self)@),
        ensures
            final(self)@ == spec_switch_focus(old(self)@),
            inv(final(self)@),
    {
        match self.focus {
            Focus::Pending => {
                self.focus = Focus::Done;
                self.todo_cursor = None;
                self.done_cursor = if self.done.len() == 0 {
                    None
                } else {
                    Some(0)
                };
            },
            Focus::Done => {
                self.focus = Focus::Pending;
                self.done_cursor = None;
                self.todo_cursor = if self.todos.len() == 0 {
                    None
                } else {
                    Some(0)
                };
            },
        }
        proof {
            assert(self@ =~~= spec_switch_focus(old(self)@));
        }
    }

    /// Push `text` as a new pending item; a pending list without a selection
    /// selects index 0.
    pub fn append(&mut self, text: String)
        requires
            inv(old(self)@),
        ensures
            final(self)@ == spec_append(old(self)@, text@),
            inv(final(self)@),
    {
        self.todos.push(text);
        if self.todo_cursor.is_none() {
            self.todo_cursor = Some(0);
        }
        proof {
            assert(self@ =~~= spec_append(old(self)@, text@));
        }
    }

    /// Append one character to the input buffer.
    pub fn input_char(&mut self, c: char)
        requires
            inv(old(self)@),
        ensures
            final(self)@ == spec_input_char(old(self)@, c),
            inv(final(self)@),
    {
        push_char(&mut self.input, c);
        proof {
            assert(self@ =~~= spec_input_char(old(self)@, c));
        }
    }

    /// Remove the selected pending item and append it to the done list,
    /// repairing both cursors; no-op without a pending selection.
    pub fn move_to_done(&mut self)
        requires
            inv(old(self)@),
        ensures
            final(self)@ == spec_move_to_done(old(self)@),
            inv(final(self)@),
    {
        if let Some(i) = self.todo_cursor {
            if self.todos.len() > 0 {
                let done_was_empty = self.done.len() == 0;
                let item = self.todos.remove(i);
                self.done.push(item);
                let new_len = self.todos.len();
                self.todo_cursor = if new_len == 0 {
                    None
                } else if i == new_len && i >= 1 {
                    Some(i - 1)
                } else {
                    Some(i)
                };
                if done_was_empty {
                    self.done_cursor = Some(0);
                }
            }
        }
        proof {
            assert(self@ =~~= spec_move_to_done(old(self)@));
        }
    }

    /// Remove the selected done item and append it to the pending list,
    /// repairing both cursors; no-op without a done selection.
    pub fn move_to_todo(&mut self)
        requires
            inv(old(self)@),
        ensures
            final(self)@ == spec_move_to_todo(old(self)@),
            inv(final(self)@),
    {
        if let Some(i) = self.done_cursor {
            if self.done.len() > 0 {
                let todos_was_empty = self.todos.len() == 0;
                let item = self.done.remove(i);
                self.todos.push(item);
                let new_len = self.done.len();
                self.done_cursor = if new_len == 0 {
                    None
                } else if i == new_len && i >= 1 {
                    Some(i - 1)
                } else {
                    Some(i)
                };
                if todos_was_empty {
                    self.todo_cursor = Some(0);
                }
            }
        }
        proof {
            assert(self@ =~~= spec_move_to_todo(old(self)@));
        }
    }

    /// Remove the selected pending item (the done list has no delete),
    /// repairing the pending cursor; no-op without a pending selection.
    pub fn delete_selected(&mut self)
        requires
            inv(old(self)@),
        ensures
            final(self)@ == spec_delete_selected(old(self)@),
            inv(final(self)@),
    {
        if let Some(i) = self.todo_cursor {
            if self.todos.len() > 0 {
                let _ = self.todos.remove(i);
                let new_len = self.todos.len();
                self.todo_cursor = if new_len == 0 {
                    None
                } else if i == new_len && i >= 1 {
                    Some(i - 1)
                } else {
                    Some(i)
                };
            }
        }
        proof {
            assert(self@ =~~= spec_delete_selected(old(self)@));
        }
    }

    /// Capture the selected item (pending list preferred) as the edit
    /// target, copy its text into the input buffer, and enter
    /// `EditingExisting`; no-op when neither list has a selection.
    pub fn start_editing(&mut self)
        requires
            inv(old(self)@),
        ensures
            final(self)@ == spec_begin_edit(old(self)@),
            inv(final(self)@),
    {
        if let Some(i) = self.todo_cursor {
            self.input = self.todos[i].clone();
            self.edit_target = Some(EditTarget { list: Focus::Pending, index: i });
            self.input_mode = InputMode::EditingExisting;
        } else if let Some(i) = self.done_cursor {
            self.input = self.done[i].clone();
            self.edit_target = Some(EditTarget { list: Focus::Done, index: i });
            self.input_mode = InputMode::EditingExisting;
        }
        proof {
            assert(self@ =~~= spec_begin_edit(old(self)@));
        }
    }

    /// Write the input buffer back through the captured edit target, then
    /// leave text entry.  A target index that no longer fits its list
    /// writes nothing but still clears the buffer and the target.
    pub fn finish_editing(&mut self)
        requires
            inv(old(self)@),
        ensures
            final(self)@ == spec_commit_edit(old(self)@),
            inv(final(self)@),
    {
        if let Some(t) = self.edit_target {
            match t.list {
                Focus::Pending => {
                    if t.index < self.todos.len() {
                        self.todos[t.index] = self.input.clone();
                    }
                },
                Focus::Done => {
                    if t.index < self.done.len() {
                        self.done[t.index] = self.input.clone();
                    }
                },
            }
        }
        self.input = String::new();
        self.edit_target = None;
        self.input_mode = InputMode::Normal;
        proof {
            assert(self@ =~~= spec_commit_edit(old(self)@));
        }
    }

    /// Abandon an in-progress edit: buffer and target are discarded, the
    /// underlying item is untouched.
    pub fn cancel_editing(&mut self)
        requires
            inv(old(self)@),
        ensures
            final(self)@ == spec_cancel_edit(old(self)@),
            inv(final(self)@),
    {
        self.input = String::new();
        self.edit_target = None;
        self.input_mode = InputMode::Normal;
        proof {
            assert(self@ =~~= spec_cancel_edit(old(self)@));
        }
    }

    /// Drop the last character of the input buffer; no-op when it is empty.
    pub fn input_backspace(&mut self)
        requires
            inv(old(self)@),
        ensures
            final(self)@ == spec_input_backspace(old(self)@),
            inv(final(self)@),
    {
        let _ = pop_char(&mut self.input);
        proof {
            assert(self@ =~~= spec_input_backspace(old(self)@));
        }
    }

    /// Route one key event through the input-mode state machine, applying
    /// the operation it stands for.  Returns whether the event asks the
    /// main loop to terminate ('q' in normal mode, nothing else).
    pub fn handle_key(&mut self, key: Key) -> (quit: bool)
        requires
            inv(old(self)@),
        ensures
            final(self)@ == spec_handle_key(old(self)@, key),
            quit == spec_quits(old(self)@, key),
            inv(final(self)@),
    {
        match self.input_mode {
            InputMode::Normal => {
                match key {
                    Key::Char(c) => {
                        if c == 'q' {
                            return true;
                        } else if c == 'e' {
                            self.start_editing();
                        } else if c == 'i' {
                            self.input_mode = InputMode::Creating;
                        } else if c == 'j' {
                            self.next();
                        } else if c == 'k' {
                            self.previous();
                        } else if c == 'd' {
                            self.delete_selected();
                        }
                    },
                    Key::Tab => self.switch_focus(),
                    Key::Enter => {
                        match self.focus {
                            Focus::Pending => self.move_to_done(),
                            Focus::Done => self.move_to_todo(),
                        }
                    },
                    _ => {},
                }
            },
            InputMode::Creating => {
                match key {
                    Key::Enter => {
                        let text = self.input.clone();
                        self.append(text);
                        self.input = String::new();
                        self.edit_target = None;
                        self.input_mode = InputMode::Normal;
                    },
                    Key::Char(c) => self.input_char(c),
                    Key::Backspace => self.input_backspace(),
                    Key::Esc => {
                        self.input = String::new();
                        self.edit_target = None;
                        self.input_mode = InputMode::Normal;
                    },
                    _ => {},
                }
            },
            InputMode::EditingExisting => {
                match key {
                    Key::Enter => self.finish_editing(),
                    Key::Char(c) => self.input_char(c),
                    Key::Backspace => self.input_backspace(),
                    Key::Esc => self.cancel_editing(),
                    _ => {},
                }
            },
        }
        proof {
            assert(self@ =~~= spec_handle_key(old(self)@, key));
        }
        false
    }
}

} // verus!
