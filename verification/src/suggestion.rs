//! The autocomplete vocabulary and the suggestion list derived from it.
use crate::words::is_substring;
use crate::words::trailing_word;
use vstd::prelude::*;

verus! {

/// The sequences of characters of a list of words.
pub open spec fn words_view(ws: Seq<Vec<char>>) -> Seq<Seq<char>> {
    ws.map_values(|w: Vec<char>| w@)
}

/// The vocabulary known at startup, in declaration order.
pub open spec fn vocabulary() -> Seq<Seq<char>> {
    seq![
        seq!['S', 'E', 'L', 'E', 'C', 'T'],
        seq!['F', 'R', 'O', 'M'],
        seq!['W', 'H', 'E', 'R', 'E'],
        seq!['A', 'G', 'G', 'R', 'E', 'G', 'A', 'T', 'O', 'R', 'S'],
    ]
}

/// The vocabulary entries that contain `w` as a substring, in vocabulary
/// order.
pub open spec fn matching_words(avail: Seq<Seq<char>>, w: Seq<char>) -> Seq<Seq<char>>
    decreases avail.len(),
{
    if avail.len() == 0 {
        Seq::empty()
    } else {
        let init = matching_words(avail.drop_last(), w);
        if is_substring(avail.last(), w) {
            init.push(avail.last())
        } else {
            init
        }
    }
}

/// The suggestion list after a recomputation against `buf`: cleared when the
/// trailing word is empty, left as it was when nothing matches, and replaced
/// by the matches otherwise.
pub open spec fn suggestions_after(
    prev: Seq<Seq<char>>,
    avail: Seq<Seq<char>>,
    buf: Seq<char>,
) -> Seq<Seq<char>> {
    let w = trailing_word(buf);
    if w.len() == 0 {
        Seq::empty()
    } else {
        let ms = matching_words(avail, w);
        if ms.len() == 0 {
            prev
        } else {
            ms
        }
    }
}

/// Law: a vocabulary entry that contains the word as a substring — anywhere,
/// not merely as a prefix — appears among the matches.
pub proof fn lemma_matching_words_complete(avail: Seq<Seq<char>>, w: Seq<char>, i: int)
    requires
        0 <= i < avail.len(),
        is_substring(avail[i], w),
    ensures
        matching_words(avail, w).contains(avail[i]),
    decreases avail.len(),
{
    let ms = matching_words(avail, w);
    if i == avail.len() - 1 {
        assert(ms[ms.len() - 1] == avail[i]);
    } else {
        lemma_matching_words_complete(avail.drop_last(), w, i);
        assert(avail.drop_last()[i] == avail[i]);
        let init = matching_words(avail.drop_last(), w);
        let j = choose|j: int| 0 <= j < init.len() && init[j] == avail[i];
        assert(ms[j] == avail[i]);
    }
}

/// Law: every match is a vocabulary entry that contains the word.
pub proof fn lemma_matching_words_sound(avail: Seq<Seq<char>>, w: Seq<char>, j: int)
    requires
        0 <= j < matching_words(avail, w).len(),
    ensures
        is_substring(matching_words(avail, w)[j], w),
        avail.contains(matching_words(avail, w)[j]),
    decreases avail.len(),
{
    let ms = matching_words(avail, w);
    let init = matching_words(avail.drop_last(), w);
    if is_substring(avail.last(), w) && j == ms.len() - 1 {
        assert(ms[j] == avail.last());
        assert(avail[avail.len() - 1] == avail.last());
    } else {
        assert(ms[j] == init[j]);
        lemma_matching_words_sound(avail.drop_last(), w, j);
        let i = choose|i: int|
            0 <= i < avail.drop_last().len() && avail.drop_last()[i] == init[j];
        assert(avail[i] == init[j]);
    }
}

/// The suggestion box: a fixed vocabulary and the entries currently matching
/// the trailing word of the buffer.
#[derive(Debug, Clone, PartialEq, Eq)]
pub struct Suggestion {
    /// The known tokens, fixed at startup.
    pub available_completions: Vec<Vec<char>>,
    /// The entries offered for display, recomputed on buffer mutation.
    pub suggested_completions: Vec<Vec<char>>,
}

impl Suggestion {
    /// A suggestion box over the startup vocabulary, with nothing suggested.
    pub fn new() -> (s: Suggestion)
        ensures
            words_view(s.available_completions@) == vocabulary(),
            s.suggested_completions@ =~= Seq::<Vec<char>>::empty(),
    {
        let select = vec!['S', 'E', 'L', 'E', 'C', 'T'];
        let from = vec!['F', 'R', 'O', 'M'];
        let where_kw = vec!['W', 'H', 'E', 'R', 'E'];
        let aggregators = vec!['A', 'G', 'G', 'R', 'E', 'G', 'A', 'T', 'O', 'R', 'S'];
        let available = vec![select, from, where_kw, aggregators];
        proof {
            assert(words_view(available@) =~~= vocabulary());
        }
        Suggestion { available_completions: available, suggested_completions: Vec::new() }
    }
}

} // verus!
