//! A small backtracking pattern matcher for the log grammar.
//!
//! Each record of the unit's log, and the tail of each event, has a fixed
//! shape: literal punctuation, runs of characters of some class, free text
//! and the battery reading at the end. A shape is written as a sequence of
//! [`Tok`]s, and [`match_at`] / [`search`] give it leftmost-first semantics:
//! greedy repetitions try their longest run first, lazy ones their shortest,
//! alternatives are tried in order, and an unanchored search reports the
//! earliest starting position at which the shape matches. Capture groups
//! record the span that each marked part covered in that first match.

use vstd::prelude::*;

use crate::classes::{
    regex_digit_class, regex_digit_member, regex_space_class, regex_space_member,
    regex_word_class, regex_word_member,
};

verus! {

/// A set of characters that one step of a shape accepts.
#[derive(Clone, Copy, Debug)]
pub enum CharClass {
    /// `[0-9]`
    AsciiDigit,
    /// `[0-9a-fA-F]`
    HexDigit,
    /// `[-*+0-9]`
    DigitOrSign,
    /// `[.0-9]`
    DigitOrDot,
    /// `[\-a-zA-Z]`
    DashOrLetter,
    /// `.`: every character but a line feed.
    AnyButNewline,
    /// Exactly one of two characters, such as `[DP]`.
    EitherOf(char, char),
    /// Every character but one, such as `[^@]`.
    AllBut(char),
    /// `\d`: a Unicode decimal digit.
    Digit,
    /// `\w`: a Unicode word character.
    Word,
    /// `\s`: Unicode white space.
    Space,
    /// `[^\s]`: anything but Unicode white space.
    NonSpace,
}

/// A fixed list of alternative words.
#[derive(Clone, Copy, Debug)]
pub enum WordSet {
    /// `OK|CANCEL|NOFILE`
    CheckResult,
    /// `ENTRY|EXIT`
    Transition,
}

/// One step of a shape.
#[derive(Clone, Copy, Debug)]
pub enum Tok {
    /// `^`: the start of the text.
    Start,
    /// `$`: the end of the text.
    End,
    /// One literal character.
    Lit(char),
    /// `c?`: a literal character that may be absent (taken when possible).
    OptLit(char),
    /// Exactly one character of a class.
    One(CharClass),
    /// `[..]+`: one or more characters of a class, longest run first.
    Plus(CharClass),
    /// `[..]*`: zero or more characters of a class, longest run first.
    Star(CharClass),
    /// `[..]+?`: one or more characters of a class, shortest run first.
    LazyPlus(CharClass),
    /// One word out of a list, tried in the list's order.
    Words(WordSet),
    /// `\*|[0-9]+`
    StarOrDigits,
    /// The start of capture group `g`.
    Open(usize),
    /// The end of capture group `g`.
    Close(usize),
}

/// Whether Unicode scalar `c` is in the ASCII range.
pub open spec fn is_ascii_char(c: char) -> bool {
    (c as u32) < 128
}

/// Whether `c` belongs to class `cl`. On ASCII characters the Unicode
/// classes are the usual ASCII ones; beyond ASCII they are the regex crate's
/// Unicode tables.
pub open spec fn class_contains(cl: CharClass, c: char) -> bool {
    match cl {
        CharClass::AsciiDigit => '0' <= c <= '9',
        CharClass::HexDigit => ('0' <= c <= '9') || ('a' <= c <= 'f') || ('A' <= c <= 'F'),
        CharClass::DigitOrSign => ('0' <= c <= '9') || c == '-' || c == '*' || c == '+',
        CharClass::DigitOrDot => ('0' <= c <= '9') || c == '.',
        CharClass::DashOrLetter => c == '-' || ('a' <= c <= 'z') || ('A' <= c <= 'Z'),
        CharClass::AnyButNewline => c != '\n',
        CharClass::EitherOf(a, b) => c == a || c == b,
        CharClass::AllBut(a) => c != a,
        CharClass::Digit => if is_ascii_char(c) {
            '0' <= c <= '9'
        } else {
            regex_digit_class(c)
        },
        CharClass::Word => if is_ascii_char(c) {
            ('0' <= c <= '9') || ('a' <= c <= 'z') || ('A' <= c <= 'Z') || c == '_'
        } else {
            regex_word_class(c)
        },
        CharClass::Space => if is_ascii_char(c) {
            c == ' ' || ('\t' <= c <= '\r')
        } else {
            regex_space_class(c)
        },
        CharClass::NonSpace => if is_ascii_char(c) {
            !(c == ' ' || ('\t' <= c <= '\r'))
        } else {
            !regex_space_class(c)
        },
    }
}

/// The words of a word set, in the order in which they are tried.
pub open spec fn word_set(ws: WordSet) -> Seq<Seq<char>> {
    match ws {
        WordSet::CheckResult => seq![
            seq!['O', 'K'],
            seq!['C', 'A', 'N', 'C', 'E', 'L'],
            seq!['N', 'O', 'F', 'I', 'L', 'E'],
        ],
        WordSet::Transition => seq![seq!['E', 'N', 'T', 'R', 'Y'], seq!['E', 'X', 'I', 'T']],
    }
}

/// The state of a match in progress: the start position recorded for each
/// open group, and the span recorded for each closed group.
pub type Caps = (Seq<usize>, Seq<Option<(usize, usize)>>);

/// The end of the run of class-`cl` characters that starts at `i`.
pub open spec fn run_end(cl: CharClass, t: Seq<char>, i: int) -> int
    decreases t.len() - i,
{
    if 0 <= i < t.len() && class_contains(cl, t[i]) {
        run_end(cl, t, i + 1)
    } else {
        i
    }
}

/// Whether word `w` occurs in `t` at `pos`.
pub open spec fn word_at(t: Seq<char>, pos: int, w: Seq<char>) -> bool {
    0 <= pos && pos + w.len() <= t.len() && t.subrange(pos, pos + w.len()) == w
}

pub proof fn lemma_run_end_bounds(cl: CharClass, t: Seq<char>, i: int)
    requires
        0 <= i <= t.len(),
    ensures
        i <= run_end(cl, t, i) <= t.len(),
        forall|j: int| i <= j < run_end(cl, t, i) ==> class_contains(cl, #[trigger] t[j]),
        run_end(cl, t, i) < t.len() ==> !class_contains(cl, t[run_end(cl, t, i)]),
    decreases t.len() - i,
{
    if i < t.len() && class_contains(cl, t[i]) {
        lemma_run_end_bounds(cl, t, i + 1);
    }
}

/// The first match of shape `p`, from step `k` on, for `t` at position
/// `pos`, given the progress `st` of the steps before `k`.
pub open spec fn match_at(p: Seq<Tok>, k: int, t: Seq<char>, pos: int, st: Caps) -> Option<Caps>
    decreases p.len() - k, t.len() + 4,
{
    if k < 0 || pos < 0 || pos > t.len() {
        None
    } else if k >= p.len() {
        Some(st)
    } else {
        match p[k] {
            Tok::Start => if pos == 0 {
                match_at(p, k + 1, t, pos, st)
            } else {
                None
            },
            Tok::End => if pos == t.len() {
                match_at(p, k + 1, t, pos, st)
            } else {
                None
            },
            Tok::Lit(c) => if pos < t.len() && t[pos] == c {
                match_at(p, k + 1, t, pos + 1, st)
            } else {
                None
            },
            Tok::OptLit(c) => if pos < t.len() && t[pos] == c && match_at(
                p,
                k + 1,
                t,
                pos + 1,
                st,
            ) is Some {
                match_at(p, k + 1, t, pos + 1, st)
            } else {
                match_at(p, k + 1, t, pos, st)
            },
            Tok::One(cl) => if pos < t.len() && class_contains(cl, t[pos]) {
                match_at(p, k + 1, t, pos + 1, st)
            } else {
                None
            },
            Tok::Plus(cl) => {
                proof {
                    lemma_run_end_bounds(cl, t, pos);
                }
                longest_first(p, k, t, pos, run_end(cl, t, pos), 1, st)
            },
            Tok::Star(cl) => {
                proof {
                    lemma_run_end_bounds(cl, t, pos);
                }
                longest_first(p, k, t, pos, run_end(cl, t, pos), 0, st)
            },
            Tok::LazyPlus(cl) => {
                proof {
                    lemma_run_end_bounds(cl, t, pos);
                }
                shortest_first(p, k, t, pos + 1, run_end(cl, t, pos), st)
            },
            Tok::Words(ws) => first_word(p, k, t, pos, ws, 0, st),
            Tok::StarOrDigits => if pos < t.len() && t[pos] == '*' && match_at(
                p,
                k + 1,
                t,
                pos + 1,
                st,
            ) is Some {
                match_at(p, k + 1, t, pos + 1, st)
            } else {
                proof {
                    lemma_run_end_bounds(CharClass::AsciiDigit, t, pos);
                }
                longest_first(p, k, t, pos, run_end(CharClass::AsciiDigit, t, pos), 1, st)
            },
            Tok::Open(g) => match_at(p, k + 1, t, pos, (st.0.update(g as int, pos as usize), st.1)),
            Tok::Close(g) => match_at(
                p,
                k + 1,
                t,
                pos,
                (st.0, st.1.update(g as int, Some((st.0[g as int], pos as usize)))),
            ),
        }
    }
}

/// A repetition at step `k` that began at `pos` and may end anywhere in
/// `pos + min ..= e`: the ends are tried from `e` down.
pub open spec fn longest_first(
    p: Seq<Tok>,
    k: int,
    t: Seq<char>,
    pos: int,
    e: int,
    min: int,
    st: Caps,
) -> Option<Caps>
    decreases p.len() - k, e + 1,
{
    if k < 0 || k >= p.len() || pos < 0 || e < pos + min || e > t.len() || min < 0 {
        None
    } else {
        match match_at(p, k + 1, t, e, st) {
            Some(r) => Some(r),
            None => longest_first(p, k, t, pos, e - 1, min, st),
        }
    }
}

/// A lazy repetition at step `k` that may end anywhere in `e ..= last`: the
/// ends are tried from `e` up.
pub open spec fn shortest_first(
    p: Seq<Tok>,
    k: int,
    t: Seq<char>,
    e: int,
    last: int,
    st: Caps,
) -> Option<Caps>
    decreases p.len() - k, t.len() + 2 - e,
{
    if k < 0 || k >= p.len() || e < 1 || e > last || last > t.len() {
        None
    } else {
        match match_at(p, k + 1, t, e, st) {
            Some(r) => Some(r),
            None => shortest_first(p, k, t, e + 1, last, st),
        }
    }
}

/// An alternation of words at step `k`, from the `j`-th word on.
pub open spec fn first_word(
    p: Seq<Tok>,
    k: int,
    t: Seq<char>,
    pos: int,
    ws: WordSet,
    j: int,
    st: Caps,
) -> Option<Caps>
    decreases p.len() - k, 3 - j,
{
    if k < 0 || k >= p.len() || j < 0 || j >= word_set(ws).len() || pos < 0 {
        None
    } else if word_at(t, pos, word_set(ws)[j]) && match_at(
        p,
        k + 1,
        t,
        pos + word_set(ws)[j].len(),
        st,
    ) is Some {
        match_at(p, k + 1, t, pos + word_set(ws)[j].len(), st)
    } else {
        first_word(p, k, t, pos, ws, j + 1, st)
    }
}

/// The state before any step of a shape with `n` groups.
pub open spec fn initial_caps(n: nat) -> Caps {
    (Seq::new(n, |i: int| 0usize), Seq::new(n, |i: int| None))
}

/// The earliest match of `p` in `t` that starts at `s` or later.
pub open spec fn search_from(p: Seq<Tok>, t: Seq<char>, s: int, n: nat) -> Option<Caps>
    decreases t.len() + 1 - s,
{
    if s < 0 || s > t.len() {
        None
    } else {
        match match_at(p, 0, t, s, initial_caps(n)) {
            Some(r) => Some(r),
            None => search_from(p, t, s + 1, n),
        }
    }
}

/// The leftmost-first match of `p` anywhere in `t`, with `n` groups.
pub open spec fn search(p: Seq<Tok>, t: Seq<char>, n: nat) -> Option<Caps> {
    search_from(p, t, 0, n)
}

/// Every group that shape `p` names is below `n`.
pub open spec fn shape_wf(p: Seq<Tok>, n: nat) -> bool {
    forall|i: int|
        0 <= i < p.len() ==> match #[trigger] p[i] {
            Tok::Open(g) => g < n,
            Tok::Close(g) => g < n,
            _ => true,
        }
}

/// A state of `n` slots whose recorded starts and spans all lie at or
/// before `pos`.
pub open spec fn caps_within(st: Caps, n: nat, pos: int) -> bool {
    &&& st.0.len() == n
    &&& st.1.len() == n
    &&& forall|g: int| 0 <= g < n ==> #[trigger] st.0[g] <= pos
    &&& forall|g: int|
        0 <= g < n ==> (#[trigger] st.1[g] matches Some((a, b)) ==> a <= b && b <= pos)
}

proof fn lemma_match_within(p: Seq<Tok>, k: int, t: Seq<char>, pos: int, st: Caps, n: nat)
    requires
        shape_wf(p, n),
        caps_within(st, n, pos),
        0 <= pos <= t.len(),
        t.len() <= usize::MAX,
    ensures
        match_at(p, k, t, pos, st) matches Some(r) ==> caps_within(r, n, t.len() as int),
    decreases p.len() - k, t.len() + 4,
{
    if k < 0 || k >= p.len() {
    } else {
        match p[k] {
            Tok::Start => {
                lemma_match_within(p, k + 1, t, pos, st, n);
            },
            Tok::End => {
                lemma_match_within(p, k + 1, t, pos, st, n);
            },
            Tok::Lit(c) => {
                if pos < t.len() {
                    lemma_match_within(p, k + 1, t, pos + 1, st, n);
                }
            },
            Tok::OptLit(c) => {
                if pos < t.len() {
                    lemma_match_within(p, k + 1, t, pos + 1, st, n);
                }
                lemma_match_within(p, k + 1, t, pos, st, n);
            },
            Tok::One(cl) => {
                if pos < t.len() {
                    lemma_match_within(p, k + 1, t, pos + 1, st, n);
                }
            },
            Tok::Plus(cl) => {
                lemma_run_end_bounds(cl, t, pos);
                lemma_longest_within(p, k, t, pos, run_end(cl, t, pos), 1, st, n);
            },
            Tok::Star(cl) => {
                lemma_run_end_bounds(cl, t, pos);
                lemma_longest_within(p, k, t, pos, run_end(cl, t, pos), 0, st, n);
            },
            Tok::LazyPlus(cl) => {
                lemma_run_end_bounds(cl, t, pos);
                lemma_shortest_within(p, k, t, pos + 1, run_end(cl, t, pos), st, n);
            },
            Tok::Words(ws) => {
                lemma_word_within(p, k, t, pos, ws, 0, st, n);
            },
            Tok::StarOrDigits => {
                if pos < t.len() {
                    lemma_match_within(p, k + 1, t, pos + 1, st, n);
                }
                lemma_run_end_bounds(CharClass::AsciiDigit, t, pos);
                lemma_longest_within(p, k, t, pos, run_end(CharClass::AsciiDigit, t, pos), 1, st, n);
            },
            Tok::Open(g) => {
                assert(g < n);
                let st2 = (st.0.update(g as int, pos as usize), st.1);
                assert(caps_within(st2, n, pos));
                lemma_match_within(p, k + 1, t, pos, st2, n);
            },
            Tok::Close(g) => {
                assert(g < n);
                let st2 = (st.0, st.1.update(g as int, Some((st.0[g as int], pos as usize))));
                assert forall|h: int| 0 <= h < n implies (#[trigger] st2.1[h] matches Some((a, b))
                    ==> a <= b && b <= pos) by {
                    if h == g {
                        assert(st.0[g as int] <= pos);
                    }
                }
                lemma_match_within(p, k + 1, t, pos, st2, n);
            },
        }
    }
}

proof fn lemma_longest_within(
    p: Seq<Tok>,
    k: int,
    t: Seq<char>,
    pos: int,
    e: int,
    min: int,
    st: Caps,
    n: nat,
)
    requires
        shape_wf(p, n),
        caps_within(st, n, pos),
        0 <= pos,
        t.len() <= usize::MAX,
    ensures
        longest_first(p, k, t, pos, e, min, st) matches Some(r) ==> caps_within(r, n, t.len() as int),
    decreases p.len() - k, e + 1,
{
    if k < 0 || k >= p.len() || pos < 0 || e < pos + min || e > t.len() || min < 0 {
    } else {
        lemma_match_within(p, k + 1, t, e, st, n);
        lemma_longest_within(p, k, t, pos, e - 1, min, st, n);
    }
}

proof fn lemma_shortest_within(
    p: Seq<Tok>,
    k: int,
    t: Seq<char>,
    e: int,
    last: int,
    st: Caps,
    n: nat,
)
    requires
        shape_wf(p, n),
        caps_within(st, n, e - 1),
        t.len() <= usize::MAX,
    ensures
        shortest_first(p, k, t, e, last, st) matches Some(r) ==> caps_within(r, n, t.len() as int),
    decreases p.len() - k, t.len() + 2 - e,
{
    if k < 0 || k >= p.len() || e < 1 || e > last || last > t.len() {
    } else {
        lemma_match_within(p, k + 1, t, e, st, n);
        lemma_shortest_within(p, k, t, e + 1, last, st, n);
    }
}

proof fn lemma_word_within(
    p: Seq<Tok>,
    k: int,
    t: Seq<char>,
    pos: int,
    ws: WordSet,
    j: int,
    st: Caps,
    n: nat,
)
    requires
        shape_wf(p, n),
        caps_within(st, n, pos),
        0 <= pos,
        t.len() <= usize::MAX,
    ensures
        first_word(p, k, t, pos, ws, j, st) matches Some(r) ==> caps_within(r, n, t.len() as int),
    decreases p.len() - k, 3 - j,
{
    if k < 0 || k >= p.len() || j < 0 || j >= word_set(ws).len() || pos < 0 {
    } else {
        if word_at(t, pos, word_set(ws)[j]) {
            lemma_match_within(p, k + 1, t, pos + word_set(ws)[j].len(), st, n);
        }
        lemma_word_within(p, k, t, pos, ws, j + 1, st, n);
    }
}

proof fn lemma_search_from_within(p: Seq<Tok>, t: Seq<char>, s: int, n: nat)
    requires
        shape_wf(p, n),
        t.len() <= usize::MAX,
    ensures
        search_from(p, t, s, n) matches Some(r) ==> caps_within(r, n, t.len() as int),
    decreases t.len() + 1 - s,
{
    if s < 0 || s > t.len() {
    } else {
        assert(caps_within(initial_caps(n), n, s));
        lemma_match_within(p, 0, t, s, initial_caps(n), n);
        lemma_search_from_within(p, t, s + 1, n);
    }
}

/// Every group span that a search reports lies inside the searched text:
/// a captured part is a piece of the text.
pub proof fn lemma_search_spans_within(p: Seq<Tok>, t: Seq<char>, n: nat)
    requires
        shape_wf(p, n),
        t.len() <= usize::MAX,
    ensures
        search(p, t, n) matches Some(r) ==> caps_within(r, n, t.len() as int),
{
    lemma_search_from_within(p, t, 0, n);
}

/// Exec form of the matcher's state.
pub struct Captures {
    pub starts: Vec<usize>,
    pub spans: Vec<Option<(usize, usize)>>,
}

impl Captures {
    pub open spec fn view(&self) -> Caps {
        (self.starts@, self.spans@)
    }

    fn copy(&self) -> (r: Captures)
        ensures
            r.view() == self.view(),
    {
        let mut starts: Vec<usize> = Vec::new();
        let mut spans: Vec<Option<(usize, usize)>> = Vec::new();
        for i in 0..self.starts.len()
            invariant
                starts@ == self.starts@.take(i as int),
        {
            starts.push(self.starts[i]);
        }
        for i in 0..self.spans.len()
            invariant
                spans@ == self.spans@.take(i as int),
        {
            spans.push(self.spans[i]);
        }
        assert(starts@ == self.starts@);
        assert(spans@ == self.spans@);
        Captures { starts, spans }
    }
}

/// Whether `c` belongs to class `cl`.
pub fn in_class(cl: CharClass, c: char) -> (b: bool)
    ensures
        b == class_contains(cl, c),
{
    let ascii = (c as u32) < 128;
    match cl {
        CharClass::AsciiDigit => '0' <= c && c <= '9',
        CharClass::HexDigit => ('0' <= c && c <= '9') || ('a' <= c && c <= 'f') || ('A' <= c
            && c <= 'F'),
        CharClass::DigitOrSign => ('0' <= c && c <= '9') || c == '-' || c == '*' || c == '+',
        CharClass::DigitOrDot => ('0' <= c && c <= '9') || c == '.',
        CharClass::DashOrLetter => c == '-' || ('a' <= c && c <= 'z') || ('A' <= c && c <= 'Z'),
        CharClass::AnyButNewline => c != '\n',
        CharClass::EitherOf(a, b) => c == a || c == b,
        CharClass::AllBut(a) => c != a,
        CharClass::Digit => if ascii {
            '0' <= c && c <= '9'
        } else {
            regex_digit_member(c)
        },
        CharClass::Word => if ascii {
            ('0' <= c && c <= '9') || ('a' <= c && c <= 'z') || ('A' <= c && c <= 'Z') || c
                == '_'
        } else {
            regex_word_member(c)
        },
        CharClass::Space => if ascii {
            c == ' ' || ('\t' <= c && c <= '\r')
        } else {
            regex_space_member(c)
        },
        CharClass::NonSpace => if ascii {
            !(c == ' ' || ('\t' <= c && c <= '\r'))
        } else {
            !regex_space_member(c)
        },
    }
}

/// The end of the run of class-`cl` characters that starts at `pos`.
fn run_end_exec(cl: CharClass, t: &Vec<char>, pos: usize) -> (e: usize)
    requires
        pos <= t.len(),
    ensures
        e as int == run_end(cl, t@, pos as int),
{
    let mut e = pos;
    while e < t.len() && in_class(cl, t[e])
        invariant
            pos <= e <= t.len(),
            run_end(cl, t@, pos as int) == run_end(cl, t@, e as int),
        decreases t.len() - e,
    {
        e = e + 1;
    }
    e
}

/// The words of a word set.
fn word_set_exec(ws: WordSet) -> (r: Vec<Vec<char>>)
    ensures
        r@.len() == word_set(ws).len(),
        forall|j: int| 0 <= j < r@.len() ==> #[trigger] r@[j]@ == word_set(ws)[j],
{
    match ws {
        WordSet::CheckResult => {
            let r = vec![vec!['O', 'K'], vec!['C', 'A', 'N', 'C', 'E', 'L'], vec!['N', 'O', 'F', 'I', 'L', 'E']];
            assert(r@[0]@ == word_set(ws)[0]);
            assert(r@[1]@ == word_set(ws)[1]);
            assert(r@[2]@ == word_set(ws)[2]);
            r
        },
        WordSet::Transition => {
            let r = vec![vec!['E', 'N', 'T', 'R', 'Y'], vec!['E', 'X', 'I', 'T']];
            assert(r@[0]@ == word_set(ws)[0]);
            assert(r@[1]@ == word_set(ws)[1]);
            r
        },
    }
}

/// Whether word `w` occurs in `t` at `pos`.
fn word_at_exec(t: &Vec<char>, pos: usize, w: &Vec<char>) -> (b: bool)
    requires
        pos <= t.len(),
    ensures
        b == word_at(t@, pos as int, w@),
{
    if w.len() > t.len() - pos {
        return false;
    }
    let mut i: usize = 0;
    while i < w.len()
        invariant
            i <= w.len(),
            pos + w.len() <= t.len(),
            forall|j: int| 0 <= j < i ==> t@[pos + j] == w@[j],
        decreases w.len() - i,
    {
        if t[pos + i] != w[i] {
            assert(t@.subrange(pos as int, pos + w.len())[i as int] != w@[i as int]);
            return false;
        }
        i = i + 1;
    }
    assert(t@.subrange(pos as int, pos + w.len()) =~= w@);
    true
}


/// The view of an optional exec state.
pub open spec fn opt_view(r: Option<Captures>) -> Option<Caps> {
    match r {
        Some(c) => Some(c.view()),
        None => None,
    }
}

/// The first match of shape `p`, from step `k` on, at position `pos`.
pub fn match_at_exec(p: &Vec<Tok>, k: usize, t: &Vec<char>, pos: usize, st: &Captures) -> (r:
    Option<Captures>)
    requires
        k <= p.len(),
        pos <= t.len(),
        shape_wf(p@, st.starts@.len()),
        st.spans@.len() == st.starts@.len(),
    ensures
        opt_view(r) == match_at(p@, k as int, t@, pos as int, st.view()),
    decreases p.len() - k, 1nat,
{
    if k == p.len() {
        return Some(st.copy());
    }
    match p[k] {
        Tok::Start => if pos == 0 {
            match_at_exec(p, k + 1, t, pos, st)
        } else {
            None
        },
        Tok::End => if pos == t.len() {
            match_at_exec(p, k + 1, t, pos, st)
        } else {
            None
        },
        Tok::Lit(c) => if pos < t.len() && t[pos] == c {
            match_at_exec(p, k + 1, t, pos + 1, st)
        } else {
            None
        },
        Tok::OptLit(c) => {
            if pos < t.len() && t[pos] == c {
                let r = match_at_exec(p, k + 1, t, pos + 1, st);
                if r.is_some() {
                    return r;
                }
            }
            match_at_exec(p, k + 1, t, pos, st)
        },
        Tok::One(cl) => if pos < t.len() && in_class(cl, t[pos]) {
            match_at_exec(p, k + 1, t, pos + 1, st)
        } else {
            None
        },
        Tok::Plus(cl) => {
            let e = run_end_exec(cl, t, pos);
            proof {
                lemma_run_end_bounds(cl, t@, pos as int);
            }
            longest_first_exec(p, k, t, pos, e, 1, st)
        },
        Tok::Star(cl) => {
            let e = run_end_exec(cl, t, pos);
            proof {
                lemma_run_end_bounds(cl, t@, pos as int);
            }
            longest_first_exec(p, k, t, pos, e, 0, st)
        },
        Tok::LazyPlus(cl) => {
            let e = run_end_exec(cl, t, pos);
            proof {
                lemma_run_end_bounds(cl, t@, pos as int);
            }
            if pos >= t.len() {
                assert(shortest_first(p@, k as int, t@, pos + 1, e as int, st.view()) is None);
                return None;
            }
            shortest_first_exec(p, k, t, pos + 1, e, st)
        },
        Tok::Words(ws) => first_word_exec(p, k, t, pos, ws, st),
        Tok::StarOrDigits => {
            if pos < t.len() && t[pos] == '*' {
                let r = match_at_exec(p, k + 1, t, pos + 1, st);
                if r.is_some() {
                    return r;
                }
            }
            let e = run_end_exec(CharClass::AsciiDigit, t, pos);
            proof {
                lemma_run_end_bounds(CharClass::AsciiDigit, t@, pos as int);
            }
            longest_first_exec(p, k, t, pos, e, 1, st)
        },
        Tok::Open(g) => {
            assert(g < st.starts@.len());
            let mut s2 = st.copy();
            s2.starts.set(g, pos);
            match_at_exec(p, k + 1, t, pos, &s2)
        },
        Tok::Close(g) => {
            assert(g < st.starts@.len());
            let mut s2 = st.copy();
            let a = s2.starts[g];
            s2.spans.set(g, Some((a, pos)));
            match_at_exec(p, k + 1, t, pos, &s2)
        },
    }
}

fn longest_first_exec(
    p: &Vec<Tok>,
    k: usize,
    t: &Vec<char>,
    pos: usize,
    e0: usize,
    min: usize,
    st: &Captures,
) -> (r: Option<Captures>)
    requires
        k < p.len(),
        pos <= e0 <= t.len(),
        min <= 1,
        shape_wf(p@, st.starts@.len()),
        st.spans@.len() == st.starts@.len(),
    ensures
        opt_view(r) == longest_first(p@, k as int, t@, pos as int, e0 as int, min as int, st.view()),
    decreases p.len() - k, 0nat,
{
    let mut e = e0;
    loop
        invariant
            k < p.len(),
            pos <= e <= e0 <= t.len(),
            min <= 1,
            shape_wf(p@, st.starts@.len()),
            st.spans@.len() == st.starts@.len(),
            longest_first(p@, k as int, t@, pos as int, e0 as int, min as int, st.view())
                == longest_first(p@, k as int, t@, pos as int, e as int, min as int, st.view()),
        decreases e,
    {
        if e - pos < min {
            return None;
        }
        let r = match_at_exec(p, k + 1, t, e, st);
        if r.is_some() {
            return r;
        }
        if e == pos {
            assert(longest_first(p@, k as int, t@, pos as int, e - 1, min as int, st.view()) is None);
            return None;
        }
        e = e - 1;
    }
}

fn shortest_first_exec(
    p: &Vec<Tok>,
    k: usize,
    t: &Vec<char>,
    e0: usize,
    last: usize,
    st: &Captures,
) -> (r: Option<Captures>)
    requires
        k < p.len(),
        1 <= e0,
        last <= t.len(),
        shape_wf(p@, st.starts@.len()),
        st.spans@.len() == st.starts@.len(),
    ensures
        opt_view(r) == shortest_first(p@, k as int, t@, e0 as int, last as int, st.view()),
    decreases p.len() - k, 0nat,
{
    let mut e = e0;
    loop
        invariant
            k < p.len(),
            1 <= e0 <= e,
            last <= t.len(),
            shape_wf(p@, st.starts@.len()),
            st.spans@.len() == st.starts@.len(),
            shortest_first(p@, k as int, t@, e0 as int, last as int, st.view())
                == shortest_first(p@, k as int, t@, e as int, last as int, st.view()),
        decreases t.len() + 1 - e,
    {
        if e > last {
            return None;
        }
        let r = match_at_exec(p, k + 1, t, e, st);
        if r.is_some() {
            return r;
        }
        if e == last {
            assert(shortest_first(p@, k as int, t@, e + 1, last as int, st.view()) is None);
            return None;
        }
        e = e + 1;
    }
}

fn first_word_exec(p: &Vec<Tok>, k: usize, t: &Vec<char>, pos: usize, ws: WordSet, st: &Captures) -> (r:
    Option<Captures>)
    requires
        k < p.len(),
        pos <= t.len(),
        shape_wf(p@, st.starts@.len()),
        st.spans@.len() == st.starts@.len(),
    ensures
        opt_view(r) == first_word(p@, k as int, t@, pos as int, ws, 0, st.view()),
    decreases p.len() - k, 0nat,
{
    let words = word_set_exec(ws);
    let mut j: usize = 0;
    while j < words.len()
        invariant
            k < p.len(),
            pos <= t.len(),
            j <= words@.len(),
            words@.len() == word_set(ws).len(),
            forall|i: int| 0 <= i < words@.len() ==> #[trigger] words@[i]@ == word_set(ws)[i],
            shape_wf(p@, st.starts@.len()),
            st.spans@.len() == st.starts@.len(),
            first_word(p@, k as int, t@, pos as int, ws, 0, st.view())
                == first_word(p@, k as int, t@, pos as int, ws, j as int, st.view()),
        decreases words.len() - j,
    {
        let w = &words[j];
        assert(w@ == word_set(ws)[j as int]);
        if word_at_exec(t, pos, w) {
            let r = match_at_exec(p, k + 1, t, pos + w.len(), st);
            if r.is_some() {
                return r;
            }
        }
        j = j + 1;
    }
    None
}

/// The leftmost-first match of shape `p` in `t`, with `n` groups.
pub fn search_exec(p: &Vec<Tok>, t: &Vec<char>, n: usize) -> (r: Option<Captures>)
    requires
        shape_wf(p@, n as nat),
    ensures
        opt_view(r) == search(p@, t@, n as nat),
{
    let mut starts: Vec<usize> = Vec::new();
    let mut spans: Vec<Option<(usize, usize)>> = Vec::new();
    for i in 0..n
        invariant
            starts@ == Seq::new(i as nat, |j: int| 0usize),
            spans@ == Seq::new(i as nat, |j: int| None::<(usize, usize)>),
    {
        starts.push(0);
        spans.push(None);
        assert(starts@ =~= Seq::new((i + 1) as nat, |j: int| 0usize));
        assert(spans@ =~= Seq::new((i + 1) as nat, |j: int| None::<(usize, usize)>));
    }
    let init = Captures { starts, spans };
    assert(init.view() == initial_caps(n as nat));
    let mut s: usize = 0;
    loop
        invariant
            s <= t.len(),
            shape_wf(p@, n as nat),
            init.view() == initial_caps(n as nat),
            init.starts@.len() == n,
            init.spans@.len() == n,
            search(p@, t@, n as nat) == search_from(p@, t@, s as int, n as nat),
        decreases t.len() - s,
    {
        let r = match_at_exec(p, 0, t, s, &init);
        if r.is_some() {
            return r;
        }
        if s == t.len() {
            assert(search_from(p@, t@, s + 1, n as nat) is None);
            return None;
        }
        s = s + 1;
    }
}

} // verus!
