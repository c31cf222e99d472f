//! Structural grammar check for the query buffer.
//!
//! A query is well-formed when it has the shape
//! `SELECT [DISTINCT] (* | column list) FROM identifier` followed, in this
//! order, by the optional clauses `WHERE ...`, `GROUP BY ...`, `ORDER BY ...`,
//! `PER PARTITION LIMIT (number | ?)`, `LIMIT (number | ?)`,
//! `ALLOW FILTERING`, `BYPASS CACHE`, `USING TIMEOUT number`, trailing
//! whitespace and an optional semicolon. Keywords are case-sensitive and
//! uppercase. The check is a whole-buffer boolean test, not a parser.
//!
//! The grammar is modelled as a sequence of clause groups; each group is a
//! small alternation of flat token patterns (literals and character-class
//! repetitions), and a string is well-formed exactly when it splits into
//! segments matched by the groups in order.
use vstd::prelude::*;

verus! {

/// A literal token of the grammar.
#[derive(Debug, PartialEq, Eq, Structural, Clone, Copy)]
pub enum Keyword {
    Select,
    Distinct,
    From,
    Where,
    Group,
    By,
    Order,
    Per,
    Partition,
    Limit,
    Allow,
    Filtering,
    Bypass,
    Cache,
    Using,
    Timeout,
    Asterisk,
    Question,
    Semicolon,
}

/// A set of characters that a repetition may draw from.
#[derive(Debug, PartialEq, Eq, Structural, Clone, Copy)]
pub enum CharClass {
    /// Whitespace.
    Space,
    /// Letters, digits and underscore: identifier characters.
    Word,
    /// Identifier characters, commas and whitespace: a column or grouping list.
    List,
    /// The free text allowed in a constraint clause.
    Constraint,
    /// Decimal digits.
    Digit,
}

/// One token pattern: a literal, or a repetition over a character class.
#[derive(Debug, PartialEq, Eq, Structural, Clone, Copy)]
pub enum Atom {
    /// The exact characters of the keyword.
    Lit(Keyword),
    /// One or more characters of the class.
    Plus(CharClass),
    /// Zero or more characters of the class.
    Star(CharClass),
}

/// The characters of a literal token.
pub open spec fn keyword_chars(kw: Keyword) -> Seq<char> {
    match kw {
        Keyword::Select => seq!['S', 'E', 'L', 'E', 'C', 'T'],
        Keyword::Distinct => seq!['D', 'I', 'S', 'T', 'I', 'N', 'C', 'T'],
        Keyword::From => seq!['F', 'R', 'O', 'M'],
        Keyword::Where => seq!['W', 'H', 'E', 'R', 'E'],
        Keyword::Group => seq!['G', 'R', 'O', 'U', 'P'],
        Keyword::By => seq!['B', 'Y'],
        Keyword::Order => seq!['O', 'R', 'D', 'E', 'R'],
        Keyword::Per => seq!['P', 'E', 'R'],
        Keyword::Partition => seq!['P', 'A', 'R', 'T', 'I', 'T', 'I', 'O', 'N'],
        Keyword::Limit => seq!['L', 'I', 'M', 'I', 'T'],
        Keyword::Allow => seq!['A', 'L', 'L', 'O', 'W'],
        Keyword::Filtering => seq!['F', 'I', 'L', 'T', 'E', 'R', 'I', 'N', 'G'],
        Keyword::Bypass => seq!['B', 'Y', 'P', 'A', 'S', 'S'],
        Keyword::Cache => seq!['C', 'A', 'C', 'H', 'E'],
        Keyword::Using => seq!['U', 'S', 'I', 'N', 'G'],
        Keyword::Timeout => seq!['T', 'I', 'M', 'E', 'O', 'U', 'T'],
        Keyword::Asterisk => seq!['*'],
        Keyword::Question => seq!['?'],
        Keyword::Semicolon => seq![';'],
    }
}

/// The characters of a literal token, as a vector.
fn keyword_vec(kw: Keyword) -> (v: Vec<char>)
    ensures
        v@ == keyword_chars(kw),
{
    match kw {
        Keyword::Select => vec!['S', 'E', 'L', 'E', 'C', 'T'],
        Keyword::Distinct => vec!['D', 'I', 'S', 'T', 'I', 'N', 'C', 'T'],
        Keyword::From => vec!['F', 'R', 'O', 'M'],
        Keyword::Where => vec!['W', 'H', 'E', 'R', 'E'],
        Keyword::Group => vec!['G', 'R', 'O', 'U', 'P'],
        Keyword::By => vec!['B', 'Y'],
        Keyword::Order => vec!['O', 'R', 'D', 'E', 'R'],
        Keyword::Per => vec!['P', 'E', 'R'],
        Keyword::Partition => vec!['P', 'A', 'R', 'T', 'I', 'T', 'I', 'O', 'N'],
        Keyword::Limit => vec!['L', 'I', 'M', 'I', 'T'],
        Keyword::Allow => vec!['A', 'L', 'L', 'O', 'W'],
        Keyword::Filtering => vec!['F', 'I', 'L', 'T', 'E', 'R', 'I', 'N', 'G'],
        Keyword::Bypass => vec!['B', 'Y', 'P', 'A', 'S', 'S'],
        Keyword::Cache => vec!['C', 'A', 'C', 'H', 'E'],
        Keyword::Using => vec!['U', 'S', 'I', 'N', 'G'],
        Keyword::Timeout => vec!['T', 'I', 'M', 'E', 'O', 'U', 'T'],
        Keyword::Asterisk => vec!['*'],
        Keyword::Question => vec!['?'],
        Keyword::Semicolon => vec![';'],
    }
}

/// Whether `ch` is a whitespace character.
pub open spec fn is_space_char(ch: char) -> bool {
    ch == ' ' || ch == '\t' || ch == '\n' || ch == '\r' || ch == '\u{b}' || ch == '\u{c}'
}

/// Whether `ch` is an identifier character: a letter, a digit or `_`.
pub open spec fn is_word_char(ch: char) -> bool {
    ('a' as u32 <= ch as u32 && ch as u32 <= 'z' as u32) || ('A' as u32 <= ch as u32 && ch as u32
        <= 'Z' as u32) || ('0' as u32 <= ch as u32 && ch as u32 <= '9' as u32) || ch == '_'
}

/// Whether `ch` is a decimal digit.
pub open spec fn is_digit_char(ch: char) -> bool {
    '0' as u32 <= ch as u32 && ch as u32 <= '9' as u32
}

/// Whether `ch` belongs to the class `c`.
pub open spec fn in_class(c: CharClass, ch: char) -> bool {
    match c {
        CharClass::Space => is_space_char(ch),
        CharClass::Word => is_word_char(ch),
        CharClass::List => is_word_char(ch) || is_space_char(ch) || ch == ',',
        CharClass::Constraint => is_word_char(ch) || is_space_char(ch) || ch == '=' || ch == '<'
            || ch == '>' || ch == '!' || ch == '\'' || ch == '"' || ch == '(' || ch == ')'
            || ch == ',',
        CharClass::Digit => is_digit_char(ch),
    }
}

/// Whether `ch` belongs to the class `c`.
fn char_in_class(c: CharClass, ch: char) -> (b: bool)
    ensures
        b == in_class(c, ch),
{
    let u = ch as u32;
    let word = ('a' as u32 <= u && u <= 'z' as u32) || ('A' as u32 <= u && u <= 'Z' as u32) || ('0'
        as u32 <= u && u <= '9' as u32) || ch == '_';
    let space = ch == ' ' || ch == '\t' || ch == '\n' || ch == '\r' || ch == '\u{b}' || ch
        == '\u{c}';
    match c {
        CharClass::Space => space,
        CharClass::Word => word,
        CharClass::List => word || space || ch == ',',
        CharClass::Constraint => word || space || ch == ',' || ch == '=' || ch == '<' || ch == '>'
            || ch == '!' || ch == '\'' || ch == '"' || ch == '(' || ch == ')',
        CharClass::Digit => '0' as u32 <= u && u <= '9' as u32,
    }
}

/// Whether every character of `t` belongs to the class `c`.
pub open spec fn all_in_class(c: CharClass, t: Seq<char>) -> bool {
    forall|i: int| 0 <= i < t.len() ==> in_class(c, t[i])
}

/// Whether `s` splits into segments matched, in order, by the atoms: a
/// literal matches its own characters, `Plus` a nonempty run from its class,
/// `Star` a possibly empty run.
pub open spec fn atoms_match(atoms: Seq<Atom>, s: Seq<char>) -> bool
    decreases atoms.len(),
{
    if atoms.len() == 0 {
        s.len() == 0
    } else {
        let rest = atoms.drop_first();
        match atoms[0] {
            Atom::Lit(kw) => {
                let l = keyword_chars(kw);
                &&& l.len() <= s.len()
                &&& s.take(l.len() as int) == l
                &&& atoms_match(rest, s.skip(l.len() as int))
            },
            Atom::Plus(c) => exists|k: int|
                1 <= k <= s.len() && all_in_class(c, s.take(k)) && atoms_match(rest, s.skip(k)),
            Atom::Star(c) => exists|k: int|
                0 <= k <= s.len() && all_in_class(c, s.take(k)) && atoms_match(rest, s.skip(k)),
        }
    }
}

/// Decides `atoms_match` for the atoms from `ai` on against `s[si..end]`.
#[verifier::loop_isolation(false)]
fn atoms_exec(atoms: &Vec<Atom>, ai: usize, s: &Vec<char>, si: usize, end: usize) -> (b: bool)
    requires
        ai <= atoms@.len(),
        si <= end,
        end <= s@.len(),
    ensures
        b == atoms_match(atoms@.skip(ai as int), s@.subrange(si as int, end as int)),
    decreases atoms@.len() - ai,
{
    let ghost seg = s@.subrange(si as int, end as int);
    if ai == atoms.len() {
        proof {
            assert(atoms@.skip(ai as int) =~= Seq::<Atom>::empty());
        }
        return si == end;
    }
    let ghost cur = atoms@.skip(ai as int);
    let ghost rest = atoms@.skip(ai as int + 1);
    proof {
        assert(cur.drop_first() =~= rest);
        assert(cur[0] == atoms@[ai as int]);
    }
    match atoms[ai] {
        Atom::Lit(kw) => {
            let lit = keyword_vec(kw);
            let n = lit.len();
            if end - si < n {
                return false;
            }
            let mut t: usize = 0;
            while t < n && s[si + t] == lit[t]
                invariant
                    t <= n,
                    forall|u: int| 0 <= u < t ==> s@[si + u] == keyword_chars(kw)[u],
                decreases n - t,
            {
                t = t + 1;
            }
            if t < n {
                proof {
                    assert(seg.take(n as int)[t as int] != keyword_chars(kw)[t as int]);
                }
                return false;
            }
            proof {
                assert(seg.take(n as int) =~= keyword_chars(kw));
                assert(seg.skip(n as int) =~= s@.subrange(si + n as int, end as int));
            }
            atoms_exec(atoms, ai + 1, s, si + n, end)
        },
        Atom::Plus(c) => {
            let rem = end - si;
            let mut km1: usize = 0;
            while km1 < rem
                invariant
                    km1 <= rem,
                    forall|j: int| 0 <= j < km1 ==> in_class(c, seg[j]),
                    forall|kk: int|
                        1 <= kk <= km1 ==> !(all_in_class(c, seg.take(kk)) && atoms_match(
                            rest,
                            seg.skip(kk),
                        )),
                decreases rem - km1,
            {
                let k = km1 + 1;
                proof {
                    assert(seg.skip(k as int) =~= s@.subrange(si + k as int, end as int));
                }
                if !char_in_class(c, s[si + km1]) {
                    proof {
                        assert(seg[km1 as int] == s@[si + km1]);
                        assert forall|kk: int| 1 <= kk <= seg.len() implies !(all_in_class(
                            c,
                            seg.take(kk),
                        ) && atoms_match(rest, seg.skip(kk))) by {
                            if kk > km1 {
                                assert(seg.take(kk)[km1 as int] == seg[km1 as int]);
                                assert(!in_class(c, seg.take(kk)[km1 as int]));
                            }
                        }
                    }
                    return false;
                }
                if atoms_exec(atoms, ai + 1, s, si + k, end) {
                    proof {
                        assert(all_in_class(c, seg.take(k as int))) by {
                            assert(forall|j: int| 0 <= j < k ==> seg.take(k as int)[j] == seg[j]);
                        }
                        assert(atoms_match(rest, seg.skip(k as int)));
                        assert(atoms_match(cur, seg));
                    }
                    return true;
                }
                km1 = k;
            }
            proof {
                assert(!atoms_match(cur, seg));
            }
            false
        },
        Atom::Star(c) => {
            if atoms_exec(atoms, ai + 1, s, si, end) {
                proof {
                    assert(seg.skip(0) =~= s@.subrange(si as int, end as int));
                    assert(all_in_class(c, seg.take(0)));
                    assert(atoms_match(cur, seg));
                }
                return true;
            }
            proof {
                assert(seg.skip(0) =~= s@.subrange(si as int, end as int));
            }
            let rem = end - si;
            let mut km1: usize = 0;
            while km1 < rem
                invariant
                    km1 <= rem,
                    forall|j: int| 0 <= j < km1 ==> in_class(c, seg[j]),
                    forall|kk: int|
                        1 <= kk <= km1 ==> !(all_in_class(c, seg.take(kk)) && atoms_match(
                            rest,
                            seg.skip(kk),
                        )),
                decreases rem - km1,
            {
                let k = km1 + 1;
                proof {
                    assert(seg.skip(k as int) =~= s@.subrange(si + k as int, end as int));
                }
                if !char_in_class(c, s[si + km1]) {
                    proof {
                        assert(seg[km1 as int] == s@[si + km1]);
                        assert forall|kk: int| 1 <= kk <= seg.len() implies !(all_in_class(
                            c,
                            seg.take(kk),
                        ) && atoms_match(rest, seg.skip(kk))) by {
                            if kk > km1 {
                                assert(seg.take(kk)[km1 as int] == seg[km1 as int]);
                                assert(!in_class(c, seg.take(kk)[km1 as int]));
                            }
                        }
                        assert(!atoms_match(rest, seg.skip(0)));
                    }
                    return false;
                }
                if atoms_exec(atoms, ai + 1, s, si + k, end) {
                    proof {
                        assert(all_in_class(c, seg.take(k as int))) by {
                            assert(forall|j: int| 0 <= j < k ==> seg.take(k as int)[j] == seg[j]);
                        }
                        assert(atoms_match(rest, seg.skip(k as int)));
                        assert(atoms_match(cur, seg));
                    }
                    return true;
                }
                km1 = k;
            }
            proof {
                assert(!atoms_match(rest, seg.skip(0)));
                assert(!atoms_match(cur, seg));
            }
            false
        },
    }
}

/// One clause of the query shape, in grammar order.
#[derive(Debug, PartialEq, Eq, Structural, Clone, Copy)]
pub enum Clause {
    /// `SELECT [DISTINCT] (* | column list) FROM identifier`, mandatory.
    Head,
    /// `WHERE` followed by constraint text.
    Where,
    /// `GROUP BY` followed by an identifier list.
    GroupBy,
    /// `ORDER BY` followed by an identifier list.
    OrderBy,
    /// `PER PARTITION LIMIT` followed by a number or `?`.
    PerPartitionLimit,
    /// `LIMIT` followed by a number or `?`.
    Limit,
    /// `ALLOW FILTERING`.
    AllowFiltering,
    /// `BYPASS CACHE`.
    BypassCache,
    /// `USING TIMEOUT` followed by a number.
    UsingTimeout,
    /// Trailing whitespace, mandatory but possibly empty.
    TrailingSpace,
    /// A final `;`.
    Semicolon,
}

/// Whether the clause may be absent altogether.
pub open spec fn clause_optional(g: Clause) -> bool {
    match g {
        Clause::Head => false,
        Clause::TrailingSpace => false,
        _ => true,
    }
}

/// `SELECT ws * ws FROM ws identifier`.
pub open spec fn head_star_atoms() -> Seq<Atom> {
    seq![
        Atom::Lit(Keyword::Select),
        Atom::Plus(CharClass::Space),
        Atom::Lit(Keyword::Asterisk),
        Atom::Plus(CharClass::Space),
        Atom::Lit(Keyword::From),
        Atom::Plus(CharClass::Space),
        Atom::Plus(CharClass::Word),
    ]
}

/// `SELECT ws column-list ws FROM ws identifier`.
pub open spec fn head_cols_atoms() -> Seq<Atom> {
    seq![
        Atom::Lit(Keyword::Select),
        Atom::Plus(CharClass::Space),
        Atom::Plus(CharClass::List),
        Atom::Plus(CharClass::Space),
        Atom::Lit(Keyword::From),
        Atom::Plus(CharClass::Space),
        Atom::Plus(CharClass::Word),
    ]
}

/// `SELECT ws DISTINCT ws * ws FROM ws identifier`.
pub open spec fn head_distinct_star_atoms() -> Seq<Atom> {
    seq![
        Atom::Lit(Keyword::Select),
        Atom::Plus(CharClass::Space),
        Atom::Lit(Keyword::Distinct),
        Atom::Plus(CharClass::Space),
        Atom::Lit(Keyword::Asterisk),
        Atom::Plus(CharClass::Space),
        Atom::Lit(Keyword::From),
        Atom::Plus(CharClass::Space),
        Atom::Plus(CharClass::Word),
    ]
}

/// `SELECT ws DISTINCT ws column-list ws FROM ws identifier`.
pub open spec fn head_distinct_cols_atoms() -> Seq<Atom> {
    seq![
        Atom::Lit(Keyword::Select),
        Atom::Plus(CharClass::Space),
        Atom::Lit(Keyword::Distinct),
        Atom::Plus(CharClass::Space),
        Atom::Plus(CharClass::List),
        Atom::Plus(CharClass::Space),
        Atom::Lit(Keyword::From),
        Atom::Plus(CharClass::Space),
        Atom::Plus(CharClass::Word),
    ]
}

/// `ws WHERE ws constraint-text`.
pub open spec fn where_atoms() -> Seq<Atom> {
    seq![
        Atom::Plus(CharClass::Space),
        Atom::Lit(Keyword::Where),
        Atom::Plus(CharClass::Space),
        Atom::Plus(CharClass::Constraint),
    ]
}

/// `ws GROUP ws BY ws identifier-list`.
pub open spec fn group_by_atoms() -> Seq<Atom> {
    seq![
        Atom::Plus(CharClass::Space),
        Atom::Lit(Keyword::Group),
        Atom::Plus(CharClass::Space),
        Atom::Lit(Keyword::By),
        Atom::Plus(CharClass::Space),
        Atom::Plus(CharClass::List),
    ]
}

/// `ws ORDER ws BY ws identifier-list`.
pub open spec fn order_by_atoms() -> Seq<Atom> {
    seq![
        Atom::Plus(CharClass::Space),
        Atom::Lit(Keyword::Order),
        Atom::Plus(CharClass::Space),
        Atom::Lit(Keyword::By),
        Atom::Plus(CharClass::Space),
        Atom::Plus(CharClass::List),
    ]
}

/// `ws PER ws PARTITION ws LIMIT ws` up to its number or `?`.
pub open spec fn per_partition_prefix_atoms() -> Seq<Atom> {
    seq![
        Atom::Plus(CharClass::Space),
        Atom::Lit(Keyword::Per),
        Atom::Plus(CharClass::Space),
        Atom::Lit(Keyword::Partition),
        Atom::Plus(CharClass::Space),
        Atom::Lit(Keyword::Limit),
        Atom::Plus(CharClass::Space),
    ]
}

/// `ws LIMIT ws` up to its number or `?`.
pub open spec fn limit_prefix_atoms() -> Seq<Atom> {
    seq![
        Atom::Plus(CharClass::Space),
        Atom::Lit(Keyword::Limit),
        Atom::Plus(CharClass::Space),
    ]
}

/// `ws ALLOW ws FILTERING`.
pub open spec fn allow_filtering_atoms() -> Seq<Atom> {
    seq![
        Atom::Plus(CharClass::Space),
        Atom::Lit(Keyword::Allow),
        Atom::Plus(CharClass::Space),
        Atom::Lit(Keyword::Filtering),
    ]
}

/// `ws BYPASS ws CACHE`.
pub open spec fn bypass_cache_atoms() -> Seq<Atom> {
    seq![
        Atom::Plus(CharClass::Space),
        Atom::Lit(Keyword::Bypass),
        Atom::Plus(CharClass::Space),
        Atom::Lit(Keyword::Cache),
    ]
}

/// `ws USING ws TIMEOUT ws number`.
pub open spec fn using_timeout_atoms() -> Seq<Atom> {
    seq![
        Atom::Plus(CharClass::Space),
        Atom::Lit(Keyword::Using),
        Atom::Plus(CharClass::Space),
        Atom::Lit(Keyword::Timeout),
        Atom::Plus(CharClass::Space),
        Atom::Plus(CharClass::Digit),
    ]
}

/// Whether the segment `t` is one full occurrence of the clause `g`.
pub open spec fn clause_matches(g: Clause, t: Seq<char>) -> bool {
    match g {
        Clause::Head => atoms_match(head_star_atoms(), t) || atoms_match(head_cols_atoms(), t)
            || atoms_match(head_distinct_star_atoms(), t) || atoms_match(
            head_distinct_cols_atoms(),
            t,
        ),
        Clause::Where => atoms_match(where_atoms(), t),
        Clause::GroupBy => atoms_match(group_by_atoms(), t),
        Clause::OrderBy => atoms_match(order_by_atoms(), t),
        Clause::PerPartitionLimit => atoms_match(
            per_partition_prefix_atoms().push(Atom::Plus(CharClass::Digit)),
            t,
        ) || atoms_match(per_partition_prefix_atoms().push(Atom::Lit(Keyword::Question)), t),
        Clause::Limit => atoms_match(limit_prefix_atoms().push(Atom::Plus(CharClass::Digit)), t)
            || atoms_match(limit_prefix_atoms().push(Atom::Lit(Keyword::Question)), t),
        Clause::AllowFiltering => atoms_match(allow_filtering_atoms(), t),
        Clause::BypassCache => atoms_match(bypass_cache_atoms(), t),
        Clause::UsingTimeout => atoms_match(using_timeout_atoms(), t),
        Clause::TrailingSpace => atoms_match(seq![Atom::Star(CharClass::Space)], t),
        Clause::Semicolon => atoms_match(seq![Atom::Lit(Keyword::Semicolon)], t),
    }
}

/// The clauses of the query shape, in the only order the grammar permits.
pub open spec fn query_clauses() -> Seq<Clause> {
    seq![
        Clause::Head,
        Clause::Where,
        Clause::GroupBy,
        Clause::OrderBy,
        Clause::PerPartitionLimit,
        Clause::Limit,
        Clause::AllowFiltering,
        Clause::BypassCache,
        Clause::UsingTimeout,
        Clause::TrailingSpace,
        Clause::Semicolon,
    ]
}

/// Whether `s` splits into segments matched, in order, by the clauses `gs`,
/// where an optional clause may be skipped.
pub open spec fn clauses_match(gs: Seq<Clause>, s: Seq<char>) -> bool
    decreases gs.len(),
{
    if gs.len() == 0 {
        s.len() == 0
    } else {
        ||| (clause_optional(gs[0]) && clauses_match(gs.drop_first(), s))
        ||| exists|k: int|
            0 <= k <= s.len() && clause_matches(gs[0], s.take(k)) && clauses_match(
                gs.drop_first(),
                s.skip(k),
            )
    }
}

/// Whether the whole buffer is a structurally well-formed query.
pub open spec fn is_valid_query(s: Seq<char>) -> bool {
    clauses_match(query_clauses(), s)
}

/// Decides `atoms_match` for a whole atom vector against `s[si..end]`.
fn flat_exec(atoms: &Vec<Atom>, s: &Vec<char>, si: usize, end: usize) -> (b: bool)
    requires
        si <= end,
        end <= s@.len(),
    ensures
        b == atoms_match(atoms@, s@.subrange(si as int, end as int)),
{
    proof {
        assert(atoms@.skip(0) =~= atoms@);
    }
    atoms_exec(atoms, 0, s, si, end)
}

/// Whether the clause may be absent altogether.
fn clause_optional_exec(g: Clause) -> (b: bool)
    ensures
        b == clause_optional(g),
{
    match g {
        Clause::Head => false,
        Clause::TrailingSpace => false,
        _ => true,
    }
}

/// Decides `clause_matches` against `s[si..end]`.
fn clause_exec(g: Clause, s: &Vec<char>, si: usize, end: usize) -> (b: bool)
    requires
        si <= end,
        end <= s@.len(),
    ensures
        b == clause_matches(g, s@.subrange(si as int, end as int)),
{
    match g {
        Clause::Head => {
            let plain_star = vec![
                Atom::Lit(Keyword::Select),
                Atom::Plus(CharClass::Space),
                Atom::Lit(Keyword::Asterisk),
                Atom::Plus(CharClass::Space),
                Atom::Lit(Keyword::From),
                Atom::Plus(CharClass::Space),
                Atom::Plus(CharClass::Word),
            ];
            let plain_cols = vec![
                Atom::Lit(Keyword::Select),
                Atom::Plus(CharClass::Space),
                Atom::Plus(CharClass::List),
                Atom::Plus(CharClass::Space),
                Atom::Lit(Keyword::From),
                Atom::Plus(CharClass::Space),
                Atom::Plus(CharClass::Word),
            ];
            let distinct_star = vec![
                Atom::Lit(Keyword::Select),
                Atom::Plus(CharClass::Space),
                Atom::Lit(Keyword::Distinct),
                Atom::Plus(CharClass::Space),
                Atom::Lit(Keyword::Asterisk),
                Atom::Plus(CharClass::Space),
                Atom::Lit(Keyword::From),
                Atom::Plus(CharClass::Space),
                Atom::Plus(CharClass::Word),
            ];
            let distinct_cols = vec![
                Atom::Lit(Keyword::Select),
                Atom::Plus(CharClass::Space),
                Atom::Lit(Keyword::Distinct),
                Atom::Plus(CharClass::Space),
                Atom::Plus(CharClass::List),
                Atom::Plus(CharClass::Space),
                Atom::Lit(Keyword::From),
                Atom::Plus(CharClass::Space),
                Atom::Plus(CharClass::Word),
            ];
            proof {
                assert(plain_star@ =~= head_star_atoms());
                assert(plain_cols@ =~= head_cols_atoms());
                assert(distinct_star@ =~= head_distinct_star_atoms());
                assert(distinct_cols@ =~= head_distinct_cols_atoms());
            }
            flat_exec(&plain_star, s, si, end) || flat_exec(&plain_cols, s, si, end) || flat_exec(
                &distinct_star,
                s,
                si,
                end,
            ) || flat_exec(&distinct_cols, s, si, end)
        },
        Clause::Where => {
            let atoms = vec![
                Atom::Plus(CharClass::Space),
                Atom::Lit(Keyword::Where),
                Atom::Plus(CharClass::Space),
                Atom::Plus(CharClass::Constraint),
            ];
            proof {
                assert(atoms@ =~= where_atoms());
            }
            flat_exec(&atoms, s, si, end)
        },
        Clause::GroupBy => {
            let atoms = vec![
                Atom::Plus(CharClass::Space),
                Atom::Lit(Keyword::Group),
                Atom::Plus(CharClass::Space),
                Atom::Lit(Keyword::By),
                Atom::Plus(CharClass::Space),
                Atom::Plus(CharClass::List),
            ];
            proof {
                assert(atoms@ =~= group_by_atoms());
            }
            flat_exec(&atoms, s, si, end)
        },
        Clause::OrderBy => {
            let atoms = vec![
                Atom::Plus(CharClass::Space),
                Atom::Lit(Keyword::Order),
                Atom::Plus(CharClass::Space),
                Atom::Lit(Keyword::By),
                Atom::Plus(CharClass::Space),
                Atom::Plus(CharClass::List),
            ];
            proof {
                assert(atoms@ =~= order_by_atoms());
            }
            flat_exec(&atoms, s, si, end)
        },
        Clause::PerPartitionLimit => {
            let number = vec![
                Atom::Plus(CharClass::Space),
                Atom::Lit(Keyword::Per),
                Atom::Plus(CharClass::Space),
                Atom::Lit(Keyword::Partition),
                Atom::Plus(CharClass::Space),
                Atom::Lit(Keyword::Limit),
                Atom::Plus(CharClass::Space),
                Atom::Plus(CharClass::Digit),
            ];
            let placeholder = vec![
                Atom::Plus(CharClass::Space),
                Atom::Lit(Keyword::Per),
                Atom::Plus(CharClass::Space),
                Atom::Lit(Keyword::Partition),
                Atom::Plus(CharClass::Space),
                Atom::Lit(Keyword::Limit),
                Atom::Plus(CharClass::Space),
                Atom::Lit(Keyword::Question),
            ];
            proof {
                assert(number@ =~= per_partition_prefix_atoms().push(
                    Atom::Plus(CharClass::Digit),
                ));
                assert(placeholder@ =~= per_partition_prefix_atoms().push(
                    Atom::Lit(Keyword::Question),
                ));
            }
            flat_exec(&number, s, si, end) || flat_exec(&placeholder, s, si, end)
        },
        Clause::Limit => {
            let number = vec![
                Atom::Plus(CharClass::Space),
                Atom::Lit(Keyword::Limit),
                Atom::Plus(CharClass::Space),
                Atom::Plus(CharClass::Digit),
            ];
            let placeholder = vec![
                Atom::Plus(CharClass::Space),
                Atom::Lit(Keyword::Limit),
                Atom::Plus(CharClass::Space),
                Atom::Lit(Keyword::Question),
            ];
            proof {
                assert(number@ =~= limit_prefix_atoms().push(Atom::Plus(CharClass::Digit)));
                assert(placeholder@ =~= limit_prefix_atoms().push(Atom::Lit(Keyword::Question)));
            }
            flat_exec(&number, s, si, end) || flat_exec(&placeholder, s, si, end)
        },
        Clause::AllowFiltering => {
            let atoms = vec![
                Atom::Plus(CharClass::Space),
                Atom::Lit(Keyword::Allow),
                Atom::Plus(CharClass::Space),
                Atom::Lit(Keyword::Filtering),
            ];
            proof {
                assert(atoms@ =~= allow_filtering_atoms());
            }
            flat_exec(&atoms, s, si, end)
        },
        Clause::BypassCache => {
            let atoms = vec![
                Atom::Plus(CharClass::Space),
                Atom::Lit(Keyword::Bypass),
                Atom::Plus(CharClass::Space),
                Atom::Lit(Keyword::Cache),
            ];
            proof {
                assert(atoms@ =~= bypass_cache_atoms());
            }
            flat_exec(&atoms, s, si, end)
        },
        Clause::UsingTimeout => {
            let atoms = vec![
                Atom::Plus(CharClass::Space),
                Atom::Lit(Keyword::Using),
                Atom::Plus(CharClass::Space),
                Atom::Lit(Keyword::Timeout),
                Atom::Plus(CharClass::Space),
                Atom::Plus(CharClass::Digit),
            ];
            proof {
                assert(atoms@ =~= using_timeout_atoms());
            }
            flat_exec(&atoms, s, si, end)
        },
        Clause::TrailingSpace => {
            let atoms = vec![Atom::Star(CharClass::Space)];
            proof {
                assert(atoms@ =~= seq![Atom::Star(CharClass::Space)]);
            }
            flat_exec(&atoms, s, si, end)
        },
        Clause::Semicolon => {
            let atoms = vec![Atom::Lit(Keyword::Semicolon)];
            proof {
                assert(atoms@ =~= seq![Atom::Lit(Keyword::Semicolon)]);
            }
            flat_exec(&atoms, s, si, end)
        },
    }
}

/// Decides `clauses_match` for the clauses from `gi` on against `s[si..]`.
#[verifier::loop_isolation(false)]
fn clauses_exec(gs: &Vec<Clause>, gi: usize, s: &Vec<char>, si: usize) -> (b: bool)
    requires
        gi <= gs@.len(),
        si <= s@.len(),
    ensures
        b == clauses_match(gs@.skip(gi as int), s@.skip(si as int)),
    decreases gs@.len() - gi,
{
    let ghost seg = s@.skip(si as int);
    if gi == gs.len() {
        proof {
            assert(gs@.skip(gi as int) =~= Seq::<Clause>::empty());
        }
        return si == s.len();
    }
    let ghost cur = gs@.skip(gi as int);
    let ghost rest = gs@.skip(gi as int + 1);
    proof {
        assert(cur.drop_first() =~= rest);
        assert(cur[0] == gs@[gi as int]);
    }
    let g = gs[gi];
    if clause_optional_exec(g) {
        if clauses_exec(gs, gi + 1, s, si) {
            proof {
                assert(clauses_match(cur, seg));
            }
            return true;
        }
    }
    let total = s.len();
    let rem = total - si;
    let mut k: usize = 0;
    while k < rem
        invariant
            k <= rem,
            forall|kk: int|
                0 <= kk < k ==> !(clause_matches(g, seg.take(kk)) && clauses_match(
                    rest,
                    seg.skip(kk),
                )),
        decreases rem - k,
    {
        proof {
            assert(seg.take(k as int) =~= s@.subrange(si as int, si + k as int));
            assert(seg.skip(k as int) =~= s@.skip(si + k as int));
        }
        if clause_exec(g, s, si, si + k) {
            if clauses_exec(gs, gi + 1, s, si + k) {
                proof {
                    assert(clause_matches(g, seg.take(k as int)));
                    assert(clauses_match(rest, seg.skip(k as int)));
                    assert(clauses_match(cur, seg));
                }
                return true;
            }
        }
        k = k + 1;
    }
    proof {
        assert(seg.take(rem as int) =~= s@.subrange(si as int, total as int));
        assert(seg.skip(rem as int) =~= s@.skip(total as int));
    }
    if clause_exec(g, s, si, total) {
        if clauses_exec(gs, gi + 1, s, total) {
            proof {
                assert(clause_matches(g, seg.take(rem as int)));
                assert(clauses_match(rest, seg.skip(rem as int)));
                assert(clauses_match(cur, seg));
            }
            return true;
        }
    }
    proof {
        assert(!clauses_match(cur, seg));
    }
    false
}

/// Decides whether the buffer is a structurally well-formed query.
pub fn check_query(q: &Vec<char>) -> (b: bool)
    ensures
        b == is_valid_query(q@),
{
    let gs = vec![
        Clause::Head,
        Clause::Where,
        Clause::GroupBy,
        Clause::OrderBy,
        Clause::PerPartitionLimit,
        Clause::Limit,
        Clause::AllowFiltering,
        Clause::BypassCache,
        Clause::UsingTimeout,
        Clause::TrailingSpace,
        Clause::Semicolon,
    ];
    proof {
        assert(gs@ =~= query_clauses());
        assert(gs@.skip(0) =~= gs@);
        assert(q@.skip(0) =~= q@);
    }
    clauses_exec(&gs, 0, q, 0)
}

} // verus!
