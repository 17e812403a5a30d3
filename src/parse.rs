//! Splitting of line-oriented text and reading of decimal numbers.
use vstd::prelude::*;

verus! {

/// ASCII whitespace: space, tab, line feed, vertical tab, form feed, carriage return.
pub open spec fn is_space(c: char) -> bool {
    c == ' ' || c == '\t' || c == '\n' || c == '\r' || c == '\x0b' || c == '\x0c'
}

/// Whether `c` separates pieces: the given separator, or whitespace when none is given.
pub open spec fn is_sep(c: char, sep: Option<char>) -> bool {
    match sep {
        Some(d) => c == d,
        None => is_space(c),
    }
}

/// The pieces of `s` from position `i` on, given the piece `cur` read so far. With a given
/// separator, empty pieces between separators are kept; split at whitespace, they are
/// dropped. A last piece without a separator
/// after it counts only when it is not empty.
pub open spec fn pieces_from(s: Seq<char>, i: int, cur: Seq<char>, sep: Option<char>) -> Seq<
    Seq<char>,
>
    decreases s.len() - i,
{
    if i >= s.len() {
        if cur.len() > 0 {
            seq![cur]
        } else {
            seq![]
        }
    } else if is_sep(s[i], sep) {
        (if cur.len() > 0 || sep is Some {
            seq![cur]
        } else {
            seq![]
        }) + pieces_from(s, i + 1, Seq::empty(), sep)
    } else {
        pieces_from(s, i + 1, cur.push(s[i]), sep)
    }
}

/// Lines of `s`, without their line feeds.
pub open spec fn lines(s: Seq<char>) -> Seq<Seq<char>> {
    pieces_from(s, 0, Seq::empty(), Some('\n'))
}

/// Maximal runs of non-whitespace characters of `s`.
pub open spec fn words(s: Seq<char>) -> Seq<Seq<char>> {
    pieces_from(s, 0, Seq::empty(), None)
}

pub open spec fn char_views(v: Seq<Vec<char>>) -> Seq<Seq<char>> {
    v.map_values(|p: Vec<char>| p@)
}

fn is_sep_exec(c: char, sep: Option<char>) -> (r: bool)
    ensures
        r == is_sep(c, sep),
{
    match sep {
        Some(d) => c == d,
        None => c == ' ' || c == '\t' || c == '\n' || c == '\r' || c == '\x0b' || c == '\x0c',
    }
}

/// Splits `s` at the given separator, or into words when none is given.
pub fn split_pieces(s: &Vec<char>, sep: Option<char>) -> (r: Vec<Vec<char>>)
    ensures
        char_views(r@) == pieces_from(s@, 0, Seq::empty(), sep),
{
    let mut out: Vec<Vec<char>> = Vec::new();
    let mut cur: Vec<char> = Vec::new();
    let mut i: usize = 0;
    while i < s.len()
        invariant
            i <= s@.len(),
            char_views(out@) + pieces_from(s@, i as int, cur@, sep) == pieces_from(
                s@,
                0,
                Seq::empty(),
                sep,
            ),
        decreases s@.len() - i,
    {
        let c = s[i];
        let ghost old_out = out@;
        let ghost old_cur = cur@;
        if is_sep_exec(c, sep) {
            if cur.len() > 0 || sep.is_some() {
                out.push(cur);
                assert(char_views(out@) =~= char_views(old_out) + seq![old_cur]);
            } else {
                assert(char_views(out@) =~= char_views(old_out) + Seq::<Seq<char>>::empty());
            }
            cur = Vec::new();
            assert(char_views(out@) + pieces_from(s@, i + 1, cur@, sep) =~= char_views(old_out)
                + pieces_from(s@, i as int, old_cur, sep));
        } else {
            cur.push(c);
            assert(cur@ == old_cur.push(s@[i as int]));
        }
        i = i + 1;
    }
    if cur.len() > 0 {
        let ghost old_out = out@;
        out.push(cur);
        assert(char_views(out@) =~= char_views(old_out) + pieces_from(s@, i as int, cur@, sep));
    } else {
        assert(char_views(out@) =~= char_views(out@) + pieces_from(s@, i as int, cur@, sep));
    }
    out
}

/// `s` without leading whitespace.
pub open spec fn trim_start(s: Seq<char>) -> Seq<char>
    decreases s.len(),
{
    if s.len() > 0 && is_space(s[0]) {
        trim_start(s.drop_first())
    } else {
        s
    }
}

/// `s` without trailing whitespace.
pub open spec fn trim_end(s: Seq<char>) -> Seq<char>
    decreases s.len(),
{
    if s.len() > 0 && is_space(s.last()) {
        trim_end(s.drop_last())
    } else {
        s
    }
}

/// `s` without surrounding whitespace.
pub open spec fn trim(s: Seq<char>) -> Seq<char> {
    trim_end(trim_start(s))
}

/// Copy of `cs` without surrounding whitespace.
pub fn trim_chars(cs: &Vec<char>) -> (r: Vec<char>)
    ensures
        r@ == trim(cs@),
{
    let n = cs.len();
    let mut a: usize = 0;
    assert(cs@.subrange(0, n as int) =~= cs@);
    while a < n && is_sep_exec(cs[a], None)
        invariant
            a <= n == cs@.len(),
            trim_start(cs@.subrange(a as int, n as int)) == trim_start(cs@),
        decreases n - a,
    {
        assert(cs@.subrange(a as int, n as int).drop_first() =~= cs@.subrange(a + 1, n as int));
        a = a + 1;
    }
    let ghost ts = cs@.subrange(a as int, n as int);
    assert(trim_start(ts) == ts);
    let mut b: usize = n;
    while b > a && is_sep_exec(cs[b - 1], None)
        invariant
            a <= b <= n == cs@.len(),
            trim_end(cs@.subrange(a as int, b as int)) == trim_end(ts),
        decreases b - a,
    {
        assert(cs@.subrange(a as int, b as int).drop_last() =~= cs@.subrange(a as int, b - 1));
        b = b - 1;
    }
    let mut t: Vec<char> = Vec::new();
    let mut i: usize = a;
    while i < b
        invariant
            a <= i <= b <= n == cs@.len(),
            t@ == cs@.subrange(a as int, i as int),
        decreases b - i,
    {
        t.push(cs[i]);
        assert(cs@.subrange(a as int, i + 1) =~= cs@.subrange(a as int, i as int).push(
            cs@[i as int],
        ));
        i = i + 1;
    }
    t
}

pub open spec fn is_digit(c: char) -> bool {
    '0' <= c && c <= '9'
}

pub open spec fn digit_value(c: char) -> nat {
    (c as u32 - '0' as u32) as nat
}

/// Whether `s` is a non-empty run of decimal digits.
pub open spec fn is_digits(s: Seq<char>) -> bool {
    s.len() > 0 && forall|i: int| 0 <= i < s.len() ==> is_digit(#[trigger] s[i])
}

/// Value of a run of decimal digits.
pub open spec fn digits_value(s: Seq<char>) -> nat
    decreases s.len(),
{
    if s.len() == 0 {
        0
    } else {
        digits_value(s.drop_last()) * 10 + digit_value(s.last())
    }
}

/// The value of `s` when it is a run of decimal digits no larger than `max`.
pub open spec fn bounded_digits(s: Seq<char>, max: nat) -> Option<nat> {
    if is_digits(s) && digits_value(s) <= max {
        Some(digits_value(s))
    } else {
        None
    }
}

proof fn lemma_digits_grow(s: Seq<char>, i: int)
    requires
        0 <= i <= s.len(),
        forall|k: int| 0 <= k < s.len() ==> is_digit(#[trigger] s[k]),
    ensures
        digits_value(s.subrange(0, i)) <= digits_value(s),
    decreases s.len() - i,
{
    if i < s.len() {
        lemma_digits_grow(s, i + 1);
        let p = s.subrange(0, i + 1);
        assert(p.drop_last() =~= s.subrange(0, i));
    } else {
        assert(s.subrange(0, i) =~= s);
    }
}

/// Reads `s[lo..hi]` as a run of decimal digits whose value is at most `max`.
pub fn parse_digits(s: &Vec<char>, lo: usize, hi: usize, max: u64) -> (r: Option<u64>)
    requires
        lo <= hi <= s@.len(),
    ensures
        match bounded_digits(s@.subrange(lo as int, hi as int), max as nat) {
            Some(v) => r == Some(v as u64),
            None => r is None,
        },
{
    let ghost t = s@.subrange(lo as int, hi as int);
    if lo == hi {
        return None;
    }
    let mut v: u64 = 0;
    let mut i: usize = lo;
    while i < hi
        invariant
            lo < hi <= s@.len(),
            lo <= i <= hi,
            t == s@.subrange(lo as int, hi as int),
            forall|k: int| 0 <= k < i - lo ==> is_digit(#[trigger] t[k]),
            v as nat == digits_value(t.subrange(0, i - lo)),
            v <= max,
        decreases hi - i,
    {
        let c = s[i];
        assert(c == t[i - lo]);
        if !('0' <= c && c <= '9') {
            assert(!is_digits(t));
            return None;
        }
        let d = (c as u32 - '0' as u32) as u64;
        assert(t.subrange(0, i - lo + 1).drop_last() =~= t.subrange(0, i - lo));
        if d > max || v > (max - d) / 10 {
            proof {
                if d <= max {
                    assert(v * 10 + d > max) by (nonlinear_arith)
                        requires
                            v > (max - d) / 10,
                            d <= max,
                    ;
                }
                if is_digits(t) {
                    lemma_digits_grow(t, i - lo + 1);
                }
            }
            return None;
        }
        assert(v * 10 + d <= max) by (nonlinear_arith)
            requires
                v <= (max - d) / 10,
                d <= max,
        ;
        v = v * 10 + d;
        i = i + 1;
    }
    assert(t.subrange(0, t.len() as int) =~= t);
    Some(v)
}

/// The value of `s` when it is an optional `+` followed by a run of decimal digits no
/// larger than `max`, as Rust's unsigned integer parsers read it.
pub open spec fn unsigned_of(s: Seq<char>, max: nat) -> Option<nat> {
    if s.len() > 0 && s[0] == '+' {
        bounded_digits(s.subrange(1, s.len() as int), max)
    } else {
        bounded_digits(s, max)
    }
}

/// Reads `s[lo..hi]` as an optionally `+`-signed decimal number at most `max`.
pub fn parse_unsigned(s: &Vec<char>, lo: usize, hi: usize, max: u64) -> (r: Option<u64>)
    requires
        lo <= hi <= s@.len(),
    ensures
        match unsigned_of(s@.subrange(lo as int, hi as int), max as nat) {
            Some(v) => r == Some(v as u64),
            None => r is None,
        },
{
    let ghost t = s@.subrange(lo as int, hi as int);
    if lo < hi && s[lo] == '+' {
        assert(t.subrange(1, t.len() as int) =~= s@.subrange(lo + 1, hi as int));
        parse_digits(s, lo + 1, hi, max)
    } else {
        parse_digits(s, lo, hi, max)
    }
}

} // verus!
