//! Word extraction and substring matching on character sequences.
//!
//! Autocomplete always operates on the trailing word of the buffer: the
//! characters after the last space. A vocabulary entry is a candidate when it
//! contains that word as a substring anywhere, not merely as a prefix.
use vstd::prelude::*;

verus! {

/// Index of the first character after the last space of `s`, or 0 when `s`
/// holds no space: where the trailing word starts.
pub open spec fn word_start(s: Seq<char>) -> int
    decreases s.len(),
{
    if s.len() == 0 {
        0
    } else if s.last() == ' ' {
        s.len() as int
    } else {
        word_start(s.drop_last())
    }
}

/// The trailing word of `s`: everything after the last space.
pub open spec fn trailing_word(s: Seq<char>) -> Seq<char> {
    s.skip(word_start(s))
}

/// The start of the trailing word lies inside the sequence, the character
/// before it (if any) is a space, and no later character is one.
pub proof fn lemma_word_start_bounds(s: Seq<char>)
    ensures
        0 <= word_start(s) <= s.len(),
        word_start(s) > 0 ==> s[word_start(s) - 1] == ' ',
        forall|i: int| word_start(s) <= i < s.len() ==> s[i] != ' ',
    decreases s.len(),
{
    if s.len() > 0 && s.last() != ' ' {
        lemma_word_start_bounds(s.drop_last());
        assert(forall|i: int| 0 <= i < s.len() - 1 ==> s[i] == s.drop_last()[i]);
    }
}

/// Any index with those properties is the start of the trailing word.
pub proof fn lemma_word_start_unique(s: Seq<char>, k: int)
    requires
        0 <= k <= s.len(),
        k > 0 ==> s[k - 1] == ' ',
        forall|i: int| k <= i < s.len() ==> s[i] != ' ',
    ensures
        word_start(s) == k,
    decreases s.len(),
{
    if s.len() == 0 {
    } else if s.last() == ' ' {
        assert(k == s.len());
    } else {
        assert(k < s.len());
        assert(forall|i: int| 0 <= i < s.len() - 1 ==> s[i] == s.drop_last()[i]);
        lemma_word_start_unique(s.drop_last(), k);
    }
}

/// Finds where the trailing word of `s` starts.
#[verifier::loop_isolation(false)]
pub fn find_word_start(s: &Vec<char>) -> (k: usize)
    ensures
        k == word_start(s@),
{
    let mut k: usize = s.len();
    while k > 0 && s[k - 1] != ' '
        invariant
            k <= s@.len(),
            forall|i: int| k <= i < s@.len() ==> s@[i] != ' ',
        decreases k,
    {
        k = k - 1;
    }
    proof {
        lemma_word_start_unique(s@, k as int);
    }
    k
}

/// The trailing word never reaches past the end of the buffer, so a cursor
/// sitting at the end always lies at or after the word's start.
pub proof fn lemma_trailing_word_fits(s: Seq<char>)
    ensures
        trailing_word(s).len() <= s.len(),
{
    lemma_word_start_bounds(s);
}

/// Whether `needle` occurs somewhere inside `hay` as a contiguous run.
pub open spec fn is_substring(hay: Seq<char>, needle: Seq<char>) -> bool {
    exists|i: int|
        0 <= i && i + needle.len() <= hay.len() && #[trigger] hay.subrange(i, i + needle.len())
            == needle
}

/// Decides whether `needle` occurs inside `hay`.
#[verifier::loop_isolation(false)]
pub fn contains_chars(hay: &Vec<char>, needle: &Vec<char>) -> (r: bool)
    ensures
        r == is_substring(hay@, needle@),
{
    let n = needle.len();
    let h = hay.len();
    if n > h {
        return false;
    }
    let mut i: usize = 0;
    while i <= h - n
        invariant
            i <= h - n + 1,
            forall|j: int|
                0 <= j < i ==> #[trigger] hay@.subrange(j, j + needle@.len()) != needle@,
        decreases h - n - i + 1,
    {
        let mut t: usize = 0;
        while t < n && hay[i + t] == needle[t]
            invariant
                t <= n,
                i + n <= h,
                forall|u: int| 0 <= u < t ==> hay@[i + u] == needle@[u],
            decreases n - t,
        {
            t = t + 1;
        }
        if t == n {
            proof {
                assert(hay@.subrange(i as int, i + needle@.len()) =~= needle@);
            }
            return true;
        }
        proof {
            assert(hay@.subrange(i as int, i + needle@.len())[t as int] != needle@[t as int]);
        }
        i = i + 1;
    }
    proof {
        assert(!is_substring(hay@, needle@));
    }
    false
}

} // verus!
