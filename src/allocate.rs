//! Allocation of fresh domain names and of local display ports.
use vstd::prelude::*;

use crate::parse::{
    bounded_digits, digit_value, digits_value, is_digits, parse_unsigned, unsigned_of,
};
use crate::text::digit_char;
use crate::text::{chars_of, dec, push_chars, push_dec, string_of, views};
use crate::xl::U32_MAX;

verus! {

/// The number that follows `prefix` in `name`, when `name` starts with `prefix` (removed
/// once) and the rest reads as a `u32`: decimal digits, optionally after a `+`.
pub open spec fn suffix_of(name: Seq<char>, prefix: Seq<char>) -> Option<nat> {
    if prefix.len() <= name.len() && name.subrange(0, prefix.len() as int) == prefix {
        unsigned_of(name.subrange(prefix.len() as int, name.len() as int), U32_MAX as nat)
    } else {
        None
    }
}

/// Largest number that follows `prefix` among `names`; zero when there is none.
pub open spec fn max_suffix(names: Seq<Seq<char>>, prefix: Seq<char>) -> nat
    decreases names.len(),
{
    if names.len() == 0 {
        0
    } else {
        let m = max_suffix(names.drop_last(), prefix);
        match suffix_of(names.last(), prefix) {
            Some(v) => if v > m {
                v
            } else {
                m
            },
            None => m,
        }
    }
}

fn suffix(name: &Vec<char>, prefix: &Vec<char>) -> (r: Option<u64>)
    ensures
        match suffix_of(name@, prefix@) {
            Some(v) => r == Some(v as u64),
            None => r is None,
        },
{
    let p = prefix.len();
    if p > name.len() {
        return None;
    }
    let mut i: usize = 0;
    while i < p
        invariant
            p == prefix@.len() <= name@.len(),
            i <= p,
            forall|k: int| 0 <= k < i ==> name@[k] == prefix@[k],
        decreases p - i,
    {
        if name[i] != prefix[i] {
            assert(name@.subrange(0, p as int)[i as int] != prefix@[i as int]);
            return None;
        }
        i = i + 1;
    }
    assert(name@.subrange(0, p as int) =~= prefix@);
    parse_unsigned(name, p, name.len(), U32_MAX)
}

/// A name for a new domain: `prefix` followed by one more than the largest number that
/// follows `prefix` among the running domains' names (other names are ignored).
pub fn new_domnaname(prefix: &str, running: &Vec<String>) -> (r: String)
    ensures
        r@ == prefix@ + dec(max_suffix(views(running@), prefix@) + 1),
{
    let pc = chars_of(prefix);
    let mut max: u64 = 0;
    let mut i: usize = 0;
    while i < running.len()
        invariant
            i <= running@.len(),
            pc@ == prefix@,
            max as nat == max_suffix(views(running@.subrange(0, i as int)), prefix@),
            max <= U32_MAX,
        decreases running@.len() - i,
    {
        let name = chars_of(running[i].as_str());
        assert(views(running@.subrange(0, i + 1)).drop_last() =~= views(
            running@.subrange(0, i as int),
        ));
        match suffix(&name, &pc) {
            Some(v) => {
                if v > max {
                    max = v;
                }
            },
            None => {},
        }
        i = i + 1;
    }
    assert(running@.subrange(0, running@.len() as int) =~= running@);
    let mut out: Vec<char> = Vec::new();
    push_chars(&mut out, &pc);
    push_dec(&mut out, max + 1);
    string_of(&out)
}

proof fn lemma_digit_char(d: nat)
    requires
        d < 10,
    ensures
        '0' <= digit_char(d) <= '9',
        digit_value(digit_char(d)) == d,
{
}

proof fn lemma_dec_value(n: nat)
    ensures
        is_digits(dec(n)),
        digits_value(dec(n)) == n,
    decreases n,
{
    if n < 10 {
        lemma_digit_char(n);
        assert(dec(n).drop_last() =~= Seq::<char>::empty());
        assert(digits_value(Seq::<char>::empty()) == 0);
        assert(digits_value(dec(n)) == digits_value(dec(n).drop_last()) * 10 + digit_value(
            dec(n).last(),
        ));
    } else {
        lemma_dec_value(n / 10);
        lemma_digit_char(n % 10);
        assert(dec(n).drop_last() =~= dec(n / 10));
        assert(dec(n).last() == digit_char(n % 10));
        assert(digits_value(dec(n)) == digits_value(dec(n).drop_last()) * 10 + digit_value(
            dec(n).last(),
        ));
        assert((n / 10) * 10 + n % 10 == n);
    }
}

proof fn lemma_max_suffix_bounds(names: Seq<Seq<char>>, prefix: Seq<char>, i: int)
    requires
        0 <= i < names.len(),
        suffix_of(names[i], prefix) is Some,
    ensures
        suffix_of(names[i], prefix)->Some_0 <= max_suffix(names, prefix),
    decreases names.len(),
{
    if i < names.len() - 1 {
        assert(names.drop_last()[i] == names[i]);
        lemma_max_suffix_bounds(names.drop_last(), prefix, i);
    }
}

/// The name allocated for `prefix` is not the name of any running domain, as long as the
/// largest number in use is below the largest `u32`; with no number in use, it is
/// `prefix` followed by `1`.
pub proof fn lemma_fresh_name(names: Seq<Seq<char>>, prefix: Seq<char>)
    ensures
        max_suffix(names, prefix) < U32_MAX ==> forall|i: int|
            0 <= i < names.len() ==> #[trigger] names[i] != prefix + dec(
                max_suffix(names, prefix) + 1,
            ),
        (forall|i: int| 0 <= i < names.len() ==> #[trigger] suffix_of(names[i], prefix) is None)
            ==> prefix + dec(max_suffix(names, prefix) + 1) == prefix + seq!['1'],
    decreases names.len(),
{
    let m = max_suffix(names, prefix);
    let fresh = prefix + dec(m + 1);
    lemma_dec_value(m + 1);
    if m < U32_MAX {
        assert forall|i: int| 0 <= i < names.len() implies #[trigger] names[i] != fresh by {
            if names[i] == fresh {
                assert(fresh.subrange(0, prefix.len() as int) =~= prefix);
                assert(fresh.subrange(prefix.len() as int, fresh.len() as int) =~= dec(m + 1));
                assert(suffix_of(names[i], prefix) == Some(m + 1));
                lemma_max_suffix_bounds(names, prefix, i);
            }
        }
    }
    if forall|i: int| 0 <= i < names.len() ==> #[trigger] suffix_of(names[i], prefix) is None {
        lemma_no_suffix(names, prefix);
        assert(dec(1) == seq![digit_char(1)]);
    }
}

proof fn lemma_no_suffix(names: Seq<Seq<char>>, prefix: Seq<char>)
    requires
        forall|i: int| 0 <= i < names.len() ==> #[trigger] suffix_of(names[i], prefix) is None,
    ensures
        max_suffix(names, prefix) == 0,
    decreases names.len(),
{
    if names.len() > 0 {
        assert forall|i: int| 0 <= i < names.drop_last().len() implies #[trigger] suffix_of(
            names.drop_last()[i],
            prefix,
        ) is None by {
            assert(names.drop_last()[i] == names[i]);
        }
        lemma_no_suffix(names.drop_last(), prefix);
        assert(suffix_of(names[names.len() - 1], prefix) is None);
    }
}

/// First port tried for a display.
pub const DEFAULT_VNC_PORT: u16 = 5900;

/// What follows an attempt to bind a local port.
#[derive(Clone, Copy, Debug, PartialEq, Eq, Structural)]
pub enum PortProbe {
    /// The port could be bound: it is free.
    Found(u16),
    /// Try this port next.
    Next(u16),
    /// No port is left to try.
    Exhausted,
}

/// Decides what follows an attempt to bind `port`, which succeeded when `bound` holds.
pub fn probe_step(port: u16, bound: bool) -> (r: PortProbe)
    ensures
        bound ==> r == PortProbe::Found(port),
        !bound && port < 65535 ==> r == PortProbe::Next((port + 1) as u16),
        !bound && port == 65535 ==> r == PortProbe::Exhausted,
{
    if bound {
        PortProbe::Found(port)
    } else if port < 65535 {
        PortProbe::Next(port + 1)
    } else {
        PortProbe::Exhausted
    }
}

/// The port that a scan from `start` settles on, where `free` tells which ports can be
/// bound: `probe_step` applied from `start` until it finds or runs out.
pub open spec fn scan_from(start: nat, free: spec_fn(nat) -> bool) -> Option<nat>
    decreases 65536 - start,
{
    if start > 65535 {
        None
    } else if free(start) {
        Some(start)
    } else {
        scan_from(start + 1, free)
    }
}

/// A scan that found port `p` finds `p` again when nothing was bound in between, started
/// anew from any port between its start and `p`, including `p` itself.
pub proof fn lemma_scan_repeats(start: nat, p: nat, free: spec_fn(nat) -> bool)
    requires
        scan_from(start, free) == Some(p),
    ensures
        start <= p,
        forall|q: nat| start <= q <= p ==> #[trigger] scan_from(q, free) == Some(p),
    decreases 65536 - start,
{
    if !free(start) {
        lemma_scan_repeats(start + 1, p, free);
        assert forall|q: nat| start <= q <= p implies #[trigger] scan_from(q, free) == Some(p) by {
            if q > start {
                assert(start + 1 <= q);
            }
        }
    }
}

} // verus!
