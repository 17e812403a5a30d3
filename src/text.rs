//! Character-level helpers shared by the renderers and parsers.
use vstd::prelude::*;

verus! {

/// Decimal digit character of a value below ten.
pub open spec fn digit_char(d: nat) -> char {
    if d == 0 { '0' }
    else if d == 1 { '1' }
    else if d == 2 { '2' }
    else if d == 3 { '3' }
    else if d == 4 { '4' }
    else if d == 5 { '5' }
    else if d == 6 { '6' }
    else if d == 7 { '7' }
    else if d == 8 { '8' }
    else { '9' }
}

/// Decimal rendering of a natural number, without leading zeros.
pub open spec fn dec(n: nat) -> Seq<char>
    decreases n,
{
    if n < 10 {
        seq![digit_char(n)]
    } else {
        dec(n / 10).push(digit_char(n % 10))
    }
}

/// Decimal rendering of a signed integer.
pub open spec fn int_text(i: int) -> Seq<char> {
    if i < 0 {
        seq!['-'] + dec((-i) as nat)
    } else {
        dec(i as nat)
    }
}

fn digit_of(d: u64) -> (c: char)
    requires
        d < 10,
    ensures
        c == digit_char(d as nat),
{
    if d == 0 { '0' }
    else if d == 1 { '1' }
    else if d == 2 { '2' }
    else if d == 3 { '3' }
    else if d == 4 { '4' }
    else if d == 5 { '5' }
    else if d == 6 { '6' }
    else if d == 7 { '7' }
    else if d == 8 { '8' }
    else { '9' }
}

/// Appends the decimal rendering of `n`.
pub fn push_dec(out: &mut Vec<char>, n: u64)
    ensures
        final(out)@ == old(out)@ + dec(n as nat),
    decreases n,
{
    if n < 10 {
        out.push(digit_of(n));
        assert(dec(n as nat) == seq![digit_char(n as nat)]);
    } else {
        push_dec(out, n / 10);
        out.push(digit_of(n % 10));
    }
}

/// Appends the decimal rendering of a signed integer.
pub fn push_int(out: &mut Vec<char>, i: i64)
    ensures
        final(out)@ == old(out)@ + int_text(i as int),
{
    if i < 0 {
        out.push('-');
        let m: u64 = (0i128 - (i as i128)) as u64;
        push_dec(out, m);
    } else {
        push_dec(out, i as u64);
    }
}

/// Appends every character of `s`.
pub fn push_str(out: &mut Vec<char>, s: &str)
    ensures
        final(out)@ == old(out)@ + s@,
{
    let n = s.unicode_len();
    let ghost start = out@;
    let mut i: usize = 0;
    while i < n
        invariant
            n == s@.len(),
            i <= n,
            out@ == start + s@.subrange(0, i as int),
        decreases n - i,
    {
        let c = s.get_char(i);
        out.push(c);
        assert(s@.subrange(0, i + 1) == s@.subrange(0, i as int).push(c));
        i = i + 1;
    }
    assert(s@.subrange(0, n as int) == s@);
}

/// Appends every character of `v`.
pub fn push_chars(out: &mut Vec<char>, v: &Vec<char>)
    ensures
        final(out)@ == old(out)@ + v@,
{
    let ghost start = out@;
    let mut i: usize = 0;
    while i < v.len()
        invariant
            i <= v@.len(),
            out@ == start + v@.subrange(0, i as int),
        decreases v@.len() - i,
    {
        out.push(v[i]);
        assert(v@.subrange(0, i + 1) == v@.subrange(0, i as int).push(v@[i as int]));
        i = i + 1;
    }
    assert(v@.subrange(0, v@.len() as int) == v@);
}

/// Relies on `Iterator::collect` into a `String`: the characters in order.
#[verifier::external_body]
pub(crate) fn string_of(v: &Vec<char>) -> (r: String)
    ensures
        r@ == v@,
{
    v.iter().collect()
}

/// The characters of `s`, in order.
pub fn chars_of(s: &str) -> (r: Vec<char>)
    ensures
        r@ == s@,
{
    let mut r: Vec<char> = Vec::new();
    push_str(&mut r, s);
    r
}

/// Lower-case hexadecimal digit of a value below sixteen.
pub open spec fn hex_lower(d: nat) -> char {
    if d < 10 {
        digit_char(d)
    } else if d == 10 {
        'a'
    } else if d == 11 {
        'b'
    } else if d == 12 {
        'c'
    } else if d == 13 {
        'd'
    } else if d == 14 {
        'e'
    } else {
        'f'
    }
}

/// How a character stands inside a JSON string literal: the quote and the backslash
/// behind a backslash, the five usual control characters by their letter, the other
/// control characters below U+0020 as `\u00XX`, every other character as it is.
pub open spec fn json_escape(c: char) -> Seq<char> {
    if c == '"' {
        seq!['\\', '"']
    } else if c == '\\' {
        seq!['\\', '\\']
    } else if c == '\x08' {
        seq!['\\', 'b']
    } else if c == '\t' {
        seq!['\\', 't']
    } else if c == '\n' {
        seq!['\\', 'n']
    } else if c == '\x0c' {
        seq!['\\', 'f']
    } else if c == '\r' {
        seq!['\\', 'r']
    } else if (c as u32) < 0x20 {
        seq!['\\', 'u', '0', '0', hex_lower(c as nat / 16), hex_lower(c as nat % 16)]
    } else {
        seq![c]
    }
}

/// The characters of `s`, each escaped.
pub open spec fn json_escaped(s: Seq<char>) -> Seq<char>
    decreases s.len(),
{
    if s.len() == 0 {
        Seq::empty()
    } else {
        json_escaped(s.drop_last()) + json_escape(s.last())
    }
}

/// JSON string literal of a text: quoted, with `serde_json`'s escapes.
pub open spec fn json_str(s: Seq<char>) -> Seq<char> {
    seq!['"'] + json_escaped(s) + seq!['"']
}

/// Relies on `serde_json::to_string` applied to a `str`: a quote, each character as
/// its escape table has it, a quote. Serialising a `str` into an in-memory buffer has no
/// failing path.
#[verifier::external_body]
fn quote_json(s: &str) -> (r: String)
    ensures
        r@ == json_str(s@),
{
    serde_json::to_string(s).expect("serialising a str into memory cannot fail")
}

/// Appends the JSON string literal of `s`.
pub fn push_json(out: &mut Vec<char>, s: &str)
    ensures
        final(out)@ == old(out)@ + json_str(s@),
{
    let q = quote_json(s);
    let v = chars_of(q.as_str());
    push_chars(out, &v);
}

/// Items joined by `sep`.
pub open spec fn join(items: Seq<Seq<char>>, sep: Seq<char>) -> Seq<char>
    decreases items.len(),
{
    if items.len() == 0 {
        seq![]
    } else if items.len() == 1 {
        items[0]
    } else {
        join(items.drop_last(), sep) + sep + items.last()
    }
}

/// Key/value entries of a rendered text, in order.
pub type Entries = Seq<(Seq<char>, Seq<char>)>;

/// Key/value entries, each written `key`, `kv`, `value`, joined by `sep`.
pub open spec fn kv_join(es: Seq<(Seq<char>, Seq<char>)>, kv: Seq<char>, sep: Seq<char>) -> Seq<
    char,
>
    decreases es.len(),
{
    if es.len() == 0 {
        seq![]
    } else if es.len() == 1 {
        es[0].0 + kv + es[0].1
    } else {
        kv_join(es.drop_last(), kv, sep) + sep + es.last().0 + kv + es.last().1
    }
}

/// `es` with `(key, v)` appended when a value is present.
pub open spec fn opt_push(
    es: Seq<(Seq<char>, Seq<char>)>,
    key: Seq<char>,
    v: Option<Seq<char>>,
) -> Seq<(Seq<char>, Seq<char>)> {
    match v {
        Some(t) => es.push((key, t)),
        None => es,
    }
}

/// JSON array of string literals.
pub open spec fn json_array(items: Seq<Seq<char>>) -> Seq<char> {
    "["@ + join(items.map_values(|t: Seq<char>| json_str(t)), ","@) + "]"@
}

pub open spec fn views(v: Seq<String>) -> Seq<Seq<char>> {
    v.map_values(|s: String| s@)
}

/// Appends one entry to text that holds the entries `es`.
pub(crate) fn push_entry(
    out: &mut Vec<char>,
    Ghost(es): Ghost<Seq<(Seq<char>, Seq<char>)>>,
    kv: &str,
    sep: &str,
    key: &str,
    val: &Vec<char>,
)
    requires
        old(out)@ == kv_join(es, kv@, sep@),
        kv@.len() > 0,
    ensures
        final(out)@ == kv_join(es.push((key@, val@)), kv@, sep@),
{
    let ghost start = out@;
    let ghost es2 = es.push((key@, val@));
    assert(es2.drop_last() =~= es);
    proof {
        if es.len() > 0 {
            assert(out@.len() > 0);
        }
    }
    if out.len() > 0 {
        push_str(out, sep);
    }
    push_str(out, key);
    push_str(out, kv);
    push_chars(out, val);
    assert(out@ =~= kv_join(es2, kv@, sep@));
}

/// Appends the JSON array of the texts in `items`.
pub fn push_json_array(out: &mut Vec<char>, items: &Vec<String>)
    ensures
        final(out)@ == old(out)@ + json_array(views(items@)),
{
    let ghost start = out@;
    push_str(out, "[");
    let mut i: usize = 0;
    while i < items.len()
        invariant
            i <= items@.len(),
            out@ == start + "["@ + join(
                views(items@.subrange(0, i as int)).map_values(|t: Seq<char>| json_str(t)),
                ","@,
            ),
        decreases items@.len() - i,
    {
        let ghost before = views(items@.subrange(0, i as int)).map_values(
            |t: Seq<char>| json_str(t),
        );
        let ghost after = views(items@.subrange(0, i + 1)).map_values(|t: Seq<char>| json_str(t));
        assert(after.drop_last() =~= before);
        assert(after.last() == json_str(items@[i as int]@));
        if i > 0 {
            push_str(out, ",");
        }
        push_json(out, items[i].as_str());
        i = i + 1;
    }
    assert(items@.subrange(0, items@.len() as int) =~= items@);
    push_str(out, "]");
}

pub open spec fn opt_view(v: Option<Vec<char>>) -> Option<Seq<char>> {
    match v {
        Some(t) => Some(t@),
        None => None,
    }
}

/// Appends an entry to text that holds the entries `es`, when a value is present.
pub(crate) fn push_opt(
    out: &mut Vec<char>,
    Ghost(es): Ghost<Seq<(Seq<char>, Seq<char>)>>,
    kv: &str,
    sep: &str,
    key: &str,
    val: &Option<Vec<char>>,
)
    requires
        old(out)@ == kv_join(es, kv@, sep@),
        kv@.len() > 0,
    ensures
        final(out)@ == kv_join(opt_push(es, key@, opt_view(*val)), kv@, sep@),
{
    match val {
        Some(t) => push_entry(out, Ghost(es), kv, sep, key, t),
        None => {},
    }
}

/// Appends the texts of `items` joined by `sep`.
pub fn push_join(out: &mut Vec<char>, items: &Vec<String>, sep: &str)
    ensures
        final(out)@ == old(out)@ + join(views(items@), sep@),
{
    let ghost start = out@;
    let mut i: usize = 0;
    while i < items.len()
        invariant
            i <= items@.len(),
            out@ == start + join(views(items@.subrange(0, i as int)), sep@),
        decreases items@.len() - i,
    {
        assert(views(items@.subrange(0, i + 1)).drop_last() =~= views(
            items@.subrange(0, i as int),
        ));
        if i > 0 {
            push_str(out, sep);
        }
        push_str(out, items[i].as_str());
        i = i + 1;
    }
    assert(items@.subrange(0, items@.len() as int) =~= items@);
}

} // verus!
