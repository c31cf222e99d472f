//! A single-line query editor core: an editable text buffer with a cursor,
//! substring-based autocomplete over a fixed vocabulary, and a structural
//! grammar check that classifies the buffer as well-formed or not.
//!
//! Terminal rendering and keyboard polling live outside this crate; the
//! editor itself is a synchronous state machine over plain values.
use vstd::prelude::*;

pub mod grammar;
pub mod suggestion;
pub mod textbox;
pub mod words;

use crate::suggestion::matching_words;
use crate::suggestion::suggestions_after;
use crate::suggestion::words_view;
use crate::suggestion::Suggestion;
use crate::textbox::Message;
use crate::textbox::TextBox;
use crate::words::is_substring;
use crate::words::trailing_word;

verus! {

/// Which logical region currently receives key events.
#[derive(Debug, PartialEq, Eq, Structural, Clone, Copy)]
pub enum FocusState {
    /// Waiting for the user to start editing; keys other than confirm and
    /// quit are ignored.
    StandBy,
    /// The editor receives keys.
    Editing,
    /// The session is over; no further routing.
    Done,
}

/// A key press, reduced to what the editor distinguishes.
#[derive(Debug, PartialEq, Eq, Structural, Clone, Copy)]
pub enum Key {
    /// A printable character.
    Char(char),
    Enter,
    Esc,
    Tab,
    Backspace,
    /// Any key the editor ignores.
    Other,
}

/// A routed command, addressed to the component that consumes it.
#[derive(Debug, PartialEq, Eq, Structural, Clone, Copy)]
pub enum Tabs {
    /// A command for the text box.
    TextBox(Message),
    /// The suggestion box accepts no commands; the variant exists for
    /// routing symmetry.
    SuggestionsBox,
}

/// The key-to-command mapping in effect while the editor has focus.
pub open spec fn key_to_command(key: Key) -> Option<Tabs> {
    match key {
        Key::Esc => Some(Tabs::TextBox(Message::Exit)),
        Key::Char(c) => Some(Tabs::TextBox(Message::NewCharacter(c))),
        Key::Tab => Some(Tabs::TextBox(Message::AutoComplete)),
        Key::Enter => Some(Tabs::TextBox(Message::Validate)),
        Key::Backspace => Some(Tabs::TextBox(Message::DeleteCharacter)),
        Key::Other => None,
    }
}

/// The whole editor: text box, focus, and suggestion box.
#[derive(Debug, Clone, PartialEq, Eq)]
pub struct App {
    pub text_box: TextBox,
    pub focus_state: FocusState,
    pub suggestion_box: Suggestion,
}

impl App {
    /// A fresh editor: empty focused text box over the startup vocabulary.
    pub fn new() -> (app: App)
        ensures
            app.text_box.current_query@ =~= Seq::<char>::empty(),
            app.text_box.character_index == 0,
            app.text_box.query_state == crate::textbox::QueryState::Waiting,
            app.focus_state == FocusState::Editing,
            words_view(app.suggestion_box.available_completions@)
                == crate::suggestion::vocabulary(),
            app.suggestion_box.suggested_completions@ =~= Seq::<Vec<char>>::empty(),
            app.text_box.wf(),
    {
        App {
            text_box: TextBox::new(),
            focus_state: FocusState::Editing,
            suggestion_box: Suggestion::new(),
        }
    }

    /// Recomputes the suggestion list from the trailing word of the buffer
    /// and reports the completion to substitute: the first matching
    /// vocabulary entry, together with the length of the word it replaces.
    ///
    /// A vocabulary entry matches when it contains the trailing word as a
    /// substring anywhere. An empty trailing word clears the suggestions; a
    /// word without matches leaves them as they were. The buffer itself is
    /// never touched.
    pub fn update_autocomplete(&mut self) -> (r: Option<(usize, Vec<char>)>)
        ensures
            final(self).text_box == old(self).text_box,
            final(self).focus_state == old(self).focus_state,
            final(self).suggestion_box.available_completions == old(
                self,
            ).suggestion_box.available_completions,
            words_view(final(self).suggestion_box.suggested_completions@) == suggestions_after(
                words_view(old(self).suggestion_box.suggested_completions@),
                words_view(old(self).suggestion_box.available_completions@),
                old(self).text_box.current_query@,
            ),
            ({
                let w = trailing_word(old(self).text_box.current_query@);
                let ms = matching_words(
                    words_view(old(self).suggestion_box.available_completions@),
                    w,
                );
                if w.len() == 0 || ms.len() == 0 {
                    r is None
                } else {
                    r matches Some((n, c)) && n == w.len() && c@ == ms[0]
                }
            }),
    {
        let q = &self.text_box.current_query;
        let qlen = q.len();
        let start = crate::words::find_word_start(q);
        proof {
            crate::words::lemma_word_start_bounds(q@);
        }
        if start == qlen {
            proof {
                assert(trailing_word(q@).len() == 0);
            }
            self.suggestion_box.suggested_completions.clear();
            proof {
                assert(words_view(self.suggestion_box.suggested_completions@) =~= Seq::<
                    Seq<char>,
                >::empty());
            }
            return None;
        }
        let mut word: Vec<char> = Vec::new();
        let mut i: usize = start;
        while i < qlen
            invariant
                start <= i <= qlen,
                qlen == q@.len(),
                word@ =~= q@.subrange(start as int, i as int),
            decreases qlen - i,
        {
            let c = q[i];
            word.push(c);
            i = i + 1;
        }
        proof {
            assert(word@ =~= trailing_word(q@));
        }
        let ghost avail_view = words_view(self.suggestion_box.available_completions@);
        let mut found: Vec<Vec<char>> = Vec::new();
        let count = self.suggestion_box.available_completions.len();
        let mut j: usize = 0;
        while j < count
            invariant
                j <= count,
                count == self.suggestion_box.available_completions@.len(),
                avail_view == words_view(self.suggestion_box.available_completions@),
                word@ == trailing_word(self.text_box.current_query@),
                words_view(found@) =~= matching_words(avail_view.take(j as int), word@),
            decreases count - j,
        {
            let entry = &self.suggestion_box.available_completions[j];
            let ghost pre = found@;
            if crate::words::contains_chars(entry, &word) {
                let copy = copy_chars(entry);
                found.push(copy);
            }
            proof {
                assert(avail_view.take(j + 1 as int).drop_last() =~= avail_view.take(j as int));
                assert(avail_view.take(j + 1 as int).last() == entry@);
                if is_substring(entry@, word@) {
                    assert(words_view(found@) =~= words_view(pre).push(entry@));
                } else {
                    assert(words_view(found@) =~= words_view(pre));
                }
            }
            j = j + 1;
        }
        proof {
            assert(avail_view.take(count as int) =~= avail_view);
        }
        if found.is_empty() {
            proof {
                assert(matching_words(avail_view, word@).len() == 0);
            }
            return None;
        }
        let first = copy_chars(&found[0]);
        let n = word.len();
        proof {
            assert(words_view(found@)[0] == found@[0]@);
        }
        self.suggestion_box.suggested_completions = found;
        Some((n, first))
    }
}

/// Routes a key press according to the current focus.
///
/// In stand-by, confirm starts an editing session and cancel ends the
/// program; nothing is forwarded. While editing, the key is translated to an
/// editor command. Once done, nothing is routed any more.
pub fn handle_key(app: &mut App, key: Key) -> (r: Option<Tabs>)
    ensures
        final(app).text_box == old(app).text_box,
        final(app).suggestion_box == old(app).suggestion_box,
        (match old(app).focus_state {
            FocusState::StandBy => {
                &&& r is None
                &&& final(app).focus_state == (match key {
                    Key::Enter => FocusState::Editing,
                    Key::Esc => FocusState::Done,
                    _ => FocusState::StandBy,
                })
            },
            FocusState::Editing => {
                &&& final(app).focus_state == FocusState::Editing
                &&& r == key_to_command(key)
            },
            FocusState::Done => {
                &&& final(app).focus_state == FocusState::Done
                &&& r is None
            },
        }),
{
    match app.focus_state {
        FocusState::StandBy => {
            match key {
                Key::Enter => {
                    app.focus_state = FocusState::Editing;
                    None
                },
                Key::Esc => {
                    app.focus_state = FocusState::Done;
                    None
                },
                _ => None,
            }
        },
        FocusState::Editing => TextBox::handle_key(key),
        FocusState::Done => None,
    }
}

/// A character-for-character copy of a word.
fn copy_chars(v: &Vec<char>) -> (r: Vec<char>)
    ensures
        r@ == v@,
{
    let mut r: Vec<char> = Vec::new();
    let len = v.len();
    let mut i: usize = 0;
    while i < len
        invariant
            i <= len,
            len == v@.len(),
            r@ =~= v@.subrange(0, i as int),
        decreases len - i,
    {
        let c = v[i];
        r.push(c);
        i = i + 1;
    }
    proof {
        assert(r@ =~= v@);
    }
    r
}

} // verus!
