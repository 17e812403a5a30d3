//! Lexicographic order on texts.
use vstd::prelude::*;

verus! {

/// Whether `a` comes strictly before `b` in lexicographic order of character codes.
pub open spec fn lex_lt(a: Seq<char>, b: Seq<char>) -> bool
    decreases a.len(),
{
    if a.len() == 0 {
        b.len() > 0
    } else if b.len() == 0 {
        false
    } else if a[0] != b[0] {
        (a[0] as u32) < (b[0] as u32)
    } else {
        lex_lt(a.drop_first(), b.drop_first())
    }
}

/// Lexicographic order is transitive.
pub proof fn lemma_lex_trans(a: Seq<char>, b: Seq<char>, c: Seq<char>)
    requires
        lex_lt(a, b),
        lex_lt(b, c),
    ensures
        lex_lt(a, c),
    decreases a.len(),
{
    if a.len() > 0 && b.len() > 0 && c.len() > 0 && a[0] == b[0] && b[0] == c[0] {
        lemma_lex_trans(a.drop_first(), b.drop_first(), c.drop_first());
    }
}

/// Whether the keys of `es` stand in strictly increasing lexicographic order.
pub open spec fn keys_sorted(es: Seq<(Seq<char>, Seq<char>)>) -> bool {
    forall|i: int, j: int| 0 <= i < j < es.len() ==> lex_lt(#[trigger] es[i].0, #[trigger] es[j].0)
}

/// The keys of `es` are sorted and none comes after `b`.
pub open spec fn sorted_up_to(es: Seq<(Seq<char>, Seq<char>)>, b: Seq<char>) -> bool {
    &&& keys_sorted(es)
    &&& forall|i: int| 0 <= i < es.len() ==> (#[trigger] es[i].0 == b || lex_lt(es[i].0, b))
}

/// Appending an entry under a key that follows every key so far keeps the keys sorted.
pub proof fn lemma_push_sorted(
    es: Seq<(Seq<char>, Seq<char>)>,
    b: Seq<char>,
    k: Seq<char>,
    v: Option<Seq<char>>,
)
    requires
        sorted_up_to(es, b),
        lex_lt(b, k),
    ensures
        sorted_up_to(crate::text::opt_push(es, k, v), k),
{
    assert forall|i: int| 0 <= i < es.len() implies lex_lt(#[trigger] es[i].0, k) by {
        if es[i].0 != b {
            lemma_lex_trans(es[i].0, b, k);
        }
    }
    match v {
        Some(t) => {
            let es2 = es.push((k, t));
            assert forall|i: int, j: int| 0 <= i < j < es2.len() implies lex_lt(
                #[trigger] es2[i].0,
                #[trigger] es2[j].0,
            ) by {
                if j < es.len() {
                    assert(es2[i] == es[i] && es2[j] == es[j]);
                } else {
                    assert(es2[i] == es[i]);
                }
            }
            assert forall|i: int| 0 <= i < es2.len() implies (#[trigger] es2[i].0 == k || lex_lt(
                es2[i].0,
                k,
            )) by {
                if i < es.len() {
                    assert(es2[i] == es[i]);
                }
            }
        },
        None => {},
    }
}

} // verus!
