//! The editable query buffer, its cursor, and the validation indicator.
use crate::grammar;
use crate::suggestion::matching_words;
use crate::suggestion::suggestions_after;
use crate::suggestion::words_view;
use crate::words::trailing_word;
use crate::App;
use crate::FocusState;
use crate::Key;
use crate::Tabs;
use vstd::prelude::*;

verus! {

/// The validation indicator: pending until an explicit validate command
/// classifies the buffer.
#[derive(Debug, PartialEq, Eq, Structural, Clone, Copy)]
pub enum QueryState {
    /// No verdict yet; every edit returns here.
    Waiting,
    /// The last validate command found the buffer well-formed.
    Check,
    /// The last validate command found the buffer ill-formed.
    Error,
}

/// The single-line text box: the query being typed, the cursor position in
/// characters, and the validation indicator.
#[derive(Debug, Clone, PartialEq, Eq)]
pub struct TextBox {
    /// The buffer contents.
    pub current_query: Vec<char>,
    /// The cursor, counted in characters from the start; never beyond the
    /// end of the buffer.
    pub character_index: usize,
    /// The validation indicator.
    pub query_state: QueryState,
}

/// A command applied to the editor state.
#[derive(Debug, PartialEq, Eq, Structural, Clone, Copy)]
pub enum Message {
    /// Insert the character at the cursor.
    NewCharacter(char),
    /// Classify the buffer against the structural grammar.
    Validate,
    /// Hand focus back to the coordinator.
    Exit,
    /// Remove the character before the cursor, if any.
    DeleteCharacter,
    /// Replace the trailing word by its first vocabulary match, if any.
    AutoComplete,
}

impl TextBox {
    /// The cursor lies within the buffer.
    pub open spec fn wf(self) -> bool {
        self.character_index <= self.current_query@.len()
    }

    /// An empty text box: no text, cursor at the start, no verdict.
    pub fn new() -> (tb: TextBox)
        ensures
            tb.current_query@ =~= Seq::<char>::empty(),
            tb.character_index == 0,
            tb.query_state == QueryState::Waiting,
            tb.wf(),
    {
        TextBox { current_query: Vec::new(), character_index: 0, query_state: QueryState::Waiting }
    }

    /// Puts the validation indicator back to pending.
    pub fn reset_state(&mut self)
        ensures
            final(self).query_state == QueryState::Waiting,
            final(self).current_query == old(self).current_query,
            final(self).character_index == old(self).character_index,
    {
        if self.query_state != QueryState::Waiting {
            self.query_state = QueryState::Waiting;
        }
    }

    /// Applies one command to the editor state.
    ///
    /// Every command either succeeds or is a documented no-op; none panics.
    /// An edit resets the validation indicator to pending and recomputes the
    /// suggestions; validation classifies the buffer without touching it.
    /// Autocomplete replaces the trailing word, so the word must lie before
    /// the cursor; it always does when the cursor sits at the end of the
    /// buffer, the only position the defined commands can produce.
    pub fn update(model: &mut App, msg: Tabs) -> (r: Option<Tabs>)
        requires
            old(model).text_box.wf(),
            (match msg {
                Tabs::TextBox(Message::AutoComplete) => trailing_word(
                    old(model).text_box.current_query@,
                ).len() <= old(model).text_box.character_index,
                _ => true,
            }),
        ensures
            r is None,
            final(model).text_box.wf(),
            final(model).suggestion_box.available_completions == old(
                model,
            ).suggestion_box.available_completions,
            old(model).text_box.character_index == old(model).text_box.current_query@.len()
                ==> final(model).text_box.character_index
                == final(model).text_box.current_query@.len(),
            (match msg {
                Tabs::TextBox(Message::Exit) => {
                    &&& final(model).focus_state == FocusState::StandBy
                    &&& final(model).text_box == old(model).text_box
                    &&& final(model).suggestion_box == old(model).suggestion_box
                },
                Tabs::TextBox(Message::NewCharacter(c)) => {
                    &&& final(model).focus_state == old(model).focus_state
                    &&& final(model).text_box.current_query@ == old(
                        model,
                    ).text_box.current_query@.insert(old(model).text_box.character_index as int, c)
                    &&& final(model).text_box.character_index == old(
                        model,
                    ).text_box.character_index + 1
                    &&& final(model).text_box.query_state == QueryState::Waiting
                    &&& words_view(final(model).suggestion_box.suggested_completions@)
                        == suggestions_after(
                        words_view(old(model).suggestion_box.suggested_completions@),
                        words_view(old(model).suggestion_box.available_completions@),
                        final(model).text_box.current_query@,
                    )
                },
                Tabs::TextBox(Message::DeleteCharacter) => {
                    if old(model).text_box.character_index > 0 {
                        &&& final(model).focus_state == old(model).focus_state
                        &&& final(model).text_box.current_query@ == old(
                            model,
                        ).text_box.current_query@.remove(
                            old(model).text_box.character_index - 1,
                        )
                        &&& final(model).text_box.character_index == old(
                            model,
                        ).text_box.character_index - 1
                        &&& final(model).text_box.query_state == QueryState::Waiting
                        &&& words_view(final(model).suggestion_box.suggested_completions@)
                            == suggestions_after(
                            words_view(old(model).suggestion_box.suggested_completions@),
                            words_view(old(model).suggestion_box.available_completions@),
                            final(model).text_box.current_query@,
                        )
                    } else {
                        *final(model) == *old(model)
                    }
                },
                Tabs::TextBox(Message::AutoComplete) => {
                    let w = trailing_word(old(model).text_box.current_query@);
                    let avail = words_view(old(model).suggestion_box.available_completions@);
                    let ms = matching_words(avail, w);
                    let ci = old(model).text_box.character_index as int;
                    &&& final(model).focus_state == old(model).focus_state
                    &&& final(model).text_box.query_state == QueryState::Waiting
                    &&& words_view(final(model).suggestion_box.suggested_completions@)
                        == suggestions_after(
                        words_view(old(model).suggestion_box.suggested_completions@),
                        avail,
                        old(model).text_box.current_query@,
                    )
                    &&& if w.len() == 0 || ms.len() == 0 {
                        final(model).text_box.current_query@ == old(
                            model,
                        ).text_box.current_query@ && final(model).text_box.character_index == old(
                            model,
                        ).text_box.character_index
                    } else {
                        final(model).text_box.current_query@ == old(
                            model,
                        ).text_box.current_query@.take(ci - w.len()) + ms[0] + old(
                            model,
                        ).text_box.current_query@.skip(ci)
                            && final(model).text_box.character_index == ci - w.len()
                            + ms[0].len()
                    }
                },
                Tabs::TextBox(Message::Validate) => {
                    &&& final(model).focus_state == old(model).focus_state
                    &&& final(model).text_box.current_query == old(model).text_box.current_query
                    &&& final(model).text_box.character_index == old(
                        model,
                    ).text_box.character_index
                    &&& final(model).suggestion_box == old(model).suggestion_box
                    &&& final(model).text_box.query_state == (if grammar::is_valid_query(
                        old(model).text_box.current_query@,
                    ) {
                        QueryState::Check
                    } else {
                        QueryState::Error
                    })
                },
                Tabs::SuggestionsBox => *final(model) == *old(model),
            }),
    {
        match msg {
            Tabs::TextBox(Message::Exit) => {
                model.focus_state = FocusState::StandBy;
            },
            Tabs::TextBox(Message::NewCharacter(c)) => {
                let ci = model.text_box.character_index;
                model.text_box.current_query.insert(ci, c);
                let newlen = model.text_box.current_query.len();
                proof {
                    assert(ci < newlen);
                }
                model.text_box.character_index = ci + 1;
                let _ = model.update_autocomplete();
                model.text_box.reset_state();
            },
            Tabs::TextBox(Message::DeleteCharacter) => {
                if model.text_box.character_index > 0 {
                    let ci = model.text_box.character_index;
                    let _ = model.text_box.current_query.remove(ci - 1);
                    model.text_box.character_index = ci - 1;
                    let _ = model.update_autocomplete();
                    model.text_box.reset_state();
                }
            },
            Tabs::TextBox(Message::AutoComplete) => {
                model.text_box.reset_state();
                let completion = model.update_autocomplete();
                match completion {
                    None => {},
                    Some((length, completion)) => {
                        let ghost buf0 = model.text_box.current_query@;
                        let ghost ci0 = model.text_box.character_index as int;
                        let ghost focus0 = model.focus_state;
                        let ghost sugg0 = model.suggestion_box;
                        proof {
                            assert(buf0.take(ci0) + buf0.skip(ci0) =~= buf0);
                        }
                        let mut t: usize = 0;
                        while t < length
                            invariant
                                t <= length,
                                length <= ci0,
                                ci0 <= buf0.len(),
                                model.text_box.character_index == ci0 - t,
                                model.text_box.current_query@ =~= buf0.take(ci0 - t) + buf0.skip(
                                    ci0,
                                ),
                                model.focus_state == focus0,
                                model.suggestion_box == sugg0,
                                model.text_box.query_state == QueryState::Waiting,
                            decreases length - t,
                        {
                            let ci = model.text_box.character_index;
                            let _ = model.text_box.current_query.remove(ci - 1);
                            model.text_box.character_index = ci - 1;
                            proof {
                                assert(model.text_box.current_query@ =~= buf0.take(
                                    ci0 - (t + 1),
                                ) + buf0.skip(ci0));
                            }
                            t = t + 1;
                        }
                        let ghost base = ci0 - length;
                        let total = completion.len();
                        let mut u: usize = 0;
                        while u < total
                            invariant
                                u <= total,
                                total == completion@.len(),
                                base == ci0 - length,
                                0 <= base,
                                ci0 <= buf0.len(),
                                model.text_box.character_index == base + u,
                                model.text_box.current_query@ =~= buf0.take(base)
                                    + completion@.take(u as int) + buf0.skip(ci0),
                                model.focus_state == focus0,
                                model.suggestion_box == sugg0,
                                model.text_box.query_state == QueryState::Waiting,
                            decreases total - u,
                        {
                            let ci = model.text_box.character_index;
                            let ch = completion[u];
                            model.text_box.current_query.insert(ci, ch);
                            let newlen = model.text_box.current_query.len();
                            proof {
                                assert(ci < newlen);
                            }
                            model.text_box.character_index = ci + 1;
                            proof {
                                assert(model.text_box.current_query@ =~= buf0.take(base)
                                    + completion@.take(u + 1 as int) + buf0.skip(ci0));
                            }
                            u = u + 1;
                        }
                        proof {
                            assert(completion@.take(total as int) =~= completion@);
                        }
                    },
                }
            },
            Tabs::TextBox(Message::Validate) => {
                let valid = grammar::check_query(&model.text_box.current_query);
                if valid {
                    model.text_box.query_state = QueryState::Check;
                } else {
                    model.text_box.query_state = QueryState::Error;
                }
            },
            Tabs::SuggestionsBox => {},
        }
        None
    }

    /// The key-to-command mapping while the editor has focus.
    pub fn handle_key(key: Key) -> (r: Option<Tabs>)
        ensures
            r == crate::key_to_command(key),
    {
        match key {
            Key::Esc => Some(Tabs::TextBox(Message::Exit)),
            Key::Char(to_insert) => Some(Tabs::TextBox(Message::NewCharacter(to_insert))),
            Key::Tab => Some(Tabs::TextBox(Message::AutoComplete)),
            Key::Enter => Some(Tabs::TextBox(Message::Validate)),
            Key::Backspace => Some(Tabs::TextBox(Message::DeleteCharacter)),
            Key::Other => None,
        }
    }
}

/// Law: inserting a character at the cursor and then deleting the character
/// before the advanced cursor restores the prior buffer exactly, from any
/// buffer and any cursor within it; the cursor, advanced to `ci + 1` by the
/// insertion, is back at `ci` after the deletion.
pub proof fn lemma_insert_then_delete(buf: Seq<char>, ci: int, c: char)
    requires
        0 <= ci <= buf.len(),
    ensures
        buf.insert(ci, c).remove((ci + 1) - 1) == buf,
{
    assert(buf.insert(ci, c).remove(ci) =~= buf);
}

} // verus!
