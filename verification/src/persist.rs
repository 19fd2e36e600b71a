//! The persisted line format and its round trip.  A saved file is the line
//! `[TODO]`, the pending items one per line, the line `[DONE]`, then the
//! done items one per line.  Loading reads lines in order: a marker line
//! switches the target list, any other line is appended verbatim to the
//! current target (pending before the first marker).  An item whose whole
//! text equals a marker line is misparsed on reload; that is a known
//! limitation of the format, kept as is.

use vstd::prelude::*;

use crate::model::Focus;
use crate::model::InputMode;
use crate::model::inv;
use crate::state::App;
use crate::state::EditTarget;
use crate::state::texts;

verus! {

/// The marker line that switches the parser to the pending list.
pub open spec fn todo_marker() -> Seq<char> {
    "[TODO]"@
}

/// The marker line that switches the parser to the done list.
pub open spec fn done_marker() -> Seq<char> {
    "[DONE]"@
}

/// Accumulator of the line parser: the lists built so far and the list
/// that the next plain line will be appended to.
#[verifier::ext_equal]
pub struct ParseState {
    pub pending: Seq<Seq<char>>,
    pub done: Seq<Seq<char>>,
    pub target: Focus,
}

/// The parser starts with empty lists, targeting the pending list.
pub open spec fn parse_init() -> ParseState {
    ParseState { pending: Seq::empty(), done: Seq::empty(), target: Focus::Pending }
}

/// One line: a marker switches the target list, anything else is appended
/// verbatim (empty lines included) to the current target.
pub open spec fn parse_step(st: ParseState, line: Seq<char>) -> ParseState {
    if line == todo_marker() {
        ParseState { target: Focus::Pending, ..st }
    } else if line == done_marker() {
        ParseState { target: Focus::Done, ..st }
    } else {
        match st.target {
            Focus::Pending => ParseState { pending: st.pending.push(line), ..st },
            Focus::Done => ParseState { done: st.done.push(line), ..st },
        }
    }
}

/// All lines, in order.
pub open spec fn parse_lines(st: ParseState, lines: Seq<Seq<char>>) -> ParseState
    decreases lines.len(),
{
    if lines.len() == 0 {
        st
    } else {
        parse_step(parse_lines(st, lines.drop_last()), lines.last())
    }
}

/// The lines a save emits: marker, pending items, marker, done items.
pub open spec fn render_lines(pending: Seq<Seq<char>>, done: Seq<Seq<char>>) -> Seq<Seq<char>> {
    seq![todo_marker()] + pending + seq![done_marker()] + done
}

/// The file content for a sequence of lines: each line followed by a
/// newline character.
pub open spec fn join_lines(lines: Seq<Seq<char>>) -> Seq<char>
    decreases lines.len(),
{
    if lines.len() == 0 {
        Seq::empty()
    } else {
        join_lines(lines.drop_last()) + lines.last() + seq!['\n']
    }
}

impl App {
    /// The lines a save writes, in order: `[TODO]`, the pending items,
    /// `[DONE]`, the done items.
    pub fn save_lines(&self) -> (out: Vec<String>)
        ensures
            texts(out@) == render_lines(self@.pending, self@.done),
    {
        let mut out: Vec<String> = Vec::new();
        out.push(String::from_str("[TODO]"));
        proof {
            assert(texts(out@) =~~= seq![todo_marker()] + self@.pending.take(0));
        }
        let mut idx: usize = 0;
        while idx < self.todos.len()
            invariant
                idx <= self.todos.len(),
                texts(out@) == seq![todo_marker()] + self@.pending.take(idx as int),
            decreases self.todos.len() - idx,
        {
            let item = self.todos[idx].clone();
            proof {
                crate::state::lemma_texts_push(out@, item);
            }
            out.push(item);
            proof {
                assert(self@.pending.take(idx as int).push(self@.pending[idx as int]) =~~= self@
                    .pending.take(idx + 1));
                assert(texts(out@) =~~= seq![todo_marker()] + self@.pending.take(idx + 1));
            }
            idx += 1;
        }
        proof {
            assert(self@.pending.take(self.todos@.len() as int) =~~= self@.pending);
        }
        out.push(String::from_str("[DONE]"));
        proof {
            assert(texts(out@) =~~= seq![todo_marker()] + self@.pending + seq![done_marker()]
                + self@.done.take(0));
        }
        let mut idx: usize = 0;
        while idx < self.done.len()
            invariant
                idx <= self.done.len(),
                texts(out@) == seq![todo_marker()] + self@.pending + seq![done_marker()]
                    + self@.done.take(idx as int),
            decreases self.done.len() - idx,
        {
            let item = self.done[idx].clone();
            proof {
                crate::state::lemma_texts_push(out@, item);
            }
            out.push(item);
            proof {
                assert(self@.done.take(idx as int).push(self@.done[idx as int]) =~~= self@.done
                    .take(idx + 1));
                assert(texts(out@) =~~= seq![todo_marker()] + self@.pending + seq![done_marker()]
                    + self@.done.take(idx + 1));
            }
            idx += 1;
        }
        proof {
            assert(self@.done.take(self.done@.len() as int) =~~= self@.done);
            assert(texts(out@) =~~= render_lines(self@.pending, self@.done));
        }
        out
    }

    /// The exact file content a save produces: every line of `save_lines`,
    /// each followed by a newline.
    pub fn save_string(&self) -> (out: String)
        ensures
            out@ == join_lines(render_lines(self@.pending, self@.done)),
    {
        let lines = self.save_lines();
        let mut out = String::new();
        let ghost all = texts(lines@);
        proof {
            assert(all.take(0) =~~= Seq::<Seq<char>>::empty());
        }
        let mut idx: usize = 0;
        while idx < lines.len()
            invariant
                idx <= lines.len(),
                all == texts(lines@),
                out@ == join_lines(all.take(idx as int)),
            decreases lines.len() - idx,
        {
            out.append(lines[idx].as_str());
            out.append("\n");
            proof {
                reveal_strlit("\n");
                assert("\n"@ =~~= seq!['\n']);
                assert(all.take(idx + 1).drop_last() =~~= all.take(idx as int));
                assert(all.take(idx + 1).last() == all[idx as int]);
                assert(join_lines(all.take(idx + 1)) == join_lines(all.take(idx as int))
                    + all[idx as int] + seq!['\n']);
            }
            idx += 1;
        }
        proof {
            assert(all.take(lines@.len() as int) =~~= all);
        }
        out
    }

    /// Rebuild a tracker from saved lines.  The resulting lists are what
    /// the line parser yields; each list selects its top item when it has
    /// one; focus is on the pending list, mode is normal.
    pub fn load_from_lines(lines: &Vec<String>) -> (app: App)
        ensures
            app@.pending == parse_lines(parse_init(), texts(lines@)).pending,
            app@.done == parse_lines(parse_init(), texts(lines@)).done,
            app@.pending_cursor == (if app@.pending.len() == 0 {
                Option::<int>::None
            } else {
                Option::<int>::Some(0)
            }),
            app@.done_cursor == (if app@.done.len() == 0 {
                Option::<int>::None
            } else {
                Option::<int>::Some(0)
            }),
            app@.focus == Focus::Pending,
            app@.mode == InputMode::Normal,
            app@.input == Seq::<char>::empty(),
            app@.edit_target is None,
            inv(app@),
    {
        let marker_todo = String::from_str("[TODO]");
        let marker_done = String::from_str("[DONE]");
        let mut todos: Vec<String> = Vec::new();
        let mut done: Vec<String> = Vec::new();
        let mut target = Focus::Pending;
        proof {
            assert(ParseState { pending: texts(todos@), done: texts(done@), target }
                =~~= parse_lines(parse_init(), texts(lines@).take(0)));
        }
        let mut idx: usize = 0;
        while idx < lines.len()
            invariant
                idx <= lines.len(),
                marker_todo@ == todo_marker(),
                marker_done@ == done_marker(),
                (ParseState { pending: texts(todos@), done: texts(done@), target })
                    == parse_lines(parse_init(), texts(lines@).take(idx as int)),
            decreases lines.len() - idx,
        {
            let line = lines[idx].clone();
            if line == marker_todo {
                target = Focus::Pending;
            } else if line == marker_done {
                target = Focus::Done;
            } else {
                match target {
                    Focus::Pending => todos.push(line),
                    Focus::Done => done.push(line),
                }
            }
            proof {
                let all = texts(lines@);
                assert(all.take(idx + 1).drop_last() =~~= all.take(idx as int));
                assert(all.take(idx + 1).last() == all[idx as int]);
                assert(ParseState { pending: texts(todos@), done: texts(done@), target }
                    =~~= parse_lines(parse_init(), all.take(idx + 1)));
            }
            idx += 1;
        }
        proof {
            assert(texts(lines@).take(lines@.len() as int) =~~= texts(lines@));
        }
        let todo_cursor: Option<usize> = if todos.len() == 0 {
            None
        } else {
            Some(0)
        };
        let done_cursor: Option<usize> = if done.len() == 0 {
            None
        } else {
            Some(0)
        };
        let app = App {
            todos,
            done,
            input: String::new(),
            input_mode: InputMode::Normal,
            todo_cursor,
            done_cursor,
            focus: Focus::Pending,
            edit_target: None::<EditTarget>,
        };
        app
    }
}

/// Parsing distributes over concatenation of line sequences.
proof fn lemma_parse_append(st: ParseState, a: Seq<Seq<char>>, b: Seq<Seq<char>>)
    ensures
        parse_lines(st, a + b) == parse_lines(parse_lines(st, a), b),
    decreases b.len(),
{
    if b.len() == 0 {
        assert(a + b =~~= a);
    } else {
        lemma_parse_append(st, a, b.drop_last());
        assert((a + b).drop_last() =~~= a + b.drop_last());
        assert((a + b).last() == b.last());
    }
}

/// Lines that are not marker lines are appended verbatim, in order, to the
/// current target list, and nothing else changes.
proof fn lemma_parse_plain(st: ParseState, ls: Seq<Seq<char>>)
    requires
        forall|i: int|
            0 <= i < ls.len() ==> ls[i] != todo_marker() && ls[i] != done_marker(),
    ensures
        parse_lines(st, ls) == (match st.target {
            Focus::Pending => ParseState { pending: st.pending + ls, ..st },
            Focus::Done => ParseState { done: st.done + ls, ..st },
        }),
    decreases ls.len(),
{
    if ls.len() == 0 {
        assert(st.pending + ls =~~= st.pending);
        assert(st.done + ls =~~= st.done);
    } else {
        lemma_parse_plain(st, ls.drop_last());
        assert(st.pending + ls.drop_last() + seq![ls.last()] =~~= st.pending + ls);
        assert(st.done + ls.drop_last() + seq![ls.last()] =~~= st.done + ls);
        match st.target {
            Focus::Pending => {
                assert(parse_lines(st, ls) =~~= ParseState { pending: st.pending + ls, ..st });
            },
            Focus::Done => {
                assert(parse_lines(st, ls) =~~= ParseState { done: st.done + ls, ..st });
            },
        }
    }
}

/// Saving and then loading reproduces the pending and done lists exactly,
/// in order, provided no item's whole text equals a marker line (such
/// items are misparsed as section markers, a known limitation of the
/// format).
pub proof fn lemma_save_load_round_trip(pending: Seq<Seq<char>>, done: Seq<Seq<char>>)
    requires
        forall|i: int|
            0 <= i < pending.len() ==> pending[i] != todo_marker() && pending[i] != done_marker(),
        forall|i: int|
            0 <= i < done.len() ==> done[i] != todo_marker() && done[i] != done_marker(),
    ensures
        parse_lines(parse_init(), render_lines(pending, done)).pending == pending,
        parse_lines(parse_init(), render_lines(pending, done)).done == done,
{
    reveal_strlit("[TODO]");
    reveal_strlit("[DONE]");
    assert(todo_marker()[1] == 'T');
    assert(done_marker()[1] == 'D');
    assert(todo_marker() != done_marker());
    let st0 = parse_init();
    let m1 = seq![todo_marker()];
    let m2 = seq![done_marker()];
    assert(render_lines(pending, done) =~~= m1 + pending + m2 + done);
    lemma_parse_append(st0, m1 + pending + m2, done);
    lemma_parse_append(st0, m1 + pending, m2);
    lemma_parse_append(st0, m1, pending);
    assert(m1.drop_last() =~~= Seq::<Seq<char>>::empty());
    assert(parse_lines(st0, m1.drop_last()) == st0);
    assert(parse_lines(st0, m1) == parse_step(st0, todo_marker()));
    let st1 = parse_step(st0, todo_marker());
    assert(st1 == ParseState { pending: Seq::empty(), done: Seq::empty(), target: Focus::Pending });
    lemma_parse_plain(st1, pending);
    let st2 = parse_lines(st1, pending);
    assert(st2.pending =~~= pending);
    assert(m2.drop_last() =~~= Seq::<Seq<char>>::empty());
    assert(parse_lines(st2, m2.drop_last()) == st2);
    let st3 = parse_step(st2, done_marker());
    assert(parse_lines(st2, m2) == st3);
    assert(st3.target == Focus::Done);
    lemma_parse_plain(st3, done);
    let st4 = parse_lines(st3, done);
    assert(st4.pending == pending);
    assert(st4.done =~~= done);
    assert(parse_lines(st0, render_lines(pending, done)) == st4);
}

} // verus!
