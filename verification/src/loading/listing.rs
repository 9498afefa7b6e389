//! The preload list: asset paths in ascending order, each once.

use vstd::prelude::*;

use crate::text::str_eq;

use super::preload::chars_of;

verus! {

/// `a` comes before `b` in the order `String`'s `Ord` gives: character by
/// character, by code point, a proper prefix first.
pub open spec fn text_lt(a: Seq<char>, b: Seq<char>) -> bool
    decreases a.len(),
{
    if a.len() == 0 {
        b.len() > 0
    } else if b.len() == 0 {
        false
    } else if a[0] != b[0] {
        (a[0] as int) < (b[0] as int)
    } else {
        text_lt(a.drop_first(), b.drop_first())
    }
}

/// Strictly ascending: every path comes before every later one (so none
/// occurs twice).
pub open spec fn strictly_ascending(v: Seq<String>) -> bool {
    forall|i: int, j: int| 0 <= i < j < v.len() ==> text_lt(#[trigger] v[i]@, #[trigger] v[j]@)
}

/// Some element of `v` reads `x`.
pub open spec fn holds_text(v: Seq<String>, x: Seq<char>) -> bool {
    exists|i: int| 0 <= i < v.len() && v[i]@ == x
}

/// No text comes before itself.
pub proof fn lemma_text_lt_irreflexive(a: Seq<char>)
    ensures
        !text_lt(a, a),
    decreases a.len(),
{
    if a.len() > 0 {
        lemma_text_lt_irreflexive(a.drop_first());
    }
}

/// The order is transitive.
pub proof fn lemma_text_lt_transitive(a: Seq<char>, b: Seq<char>, c: Seq<char>)
    requires
        text_lt(a, b),
        text_lt(b, c),
    ensures
        text_lt(a, c),
    decreases a.len(),
{
    if a.len() > 0 && b.len() > 0 && c.len() > 0 && a[0] == b[0] && b[0] == c[0] {
        lemma_text_lt_transitive(a.drop_first(), b.drop_first(), c.drop_first());
    }
}

/// Of two different texts, one comes before the other.
pub proof fn lemma_text_lt_total(a: Seq<char>, b: Seq<char>)
    requires
        a != b,
    ensures
        text_lt(a, b) || text_lt(b, a),
    decreases a.len(),
{
    if a.len() == 0 && b.len() == 0 {
        assert(a =~= b);
    } else if a.len() > 0 && b.len() > 0 && a[0] == b[0] {
        if a.drop_first() == b.drop_first() {
            assert(a =~= seq![a[0]] + a.drop_first());
            assert(b =~= seq![b[0]] + b.drop_first());
        }
        lemma_text_lt_total(a.drop_first(), b.drop_first());
    } else if a.len() > 0 && b.len() > 0 {
        assert((a[0] as int) != (b[0] as int));
    }
}

/// `a` comes before `b` (see [`text_lt`]).
fn chars_lt(a: &Vec<char>, b: &Vec<char>) -> (r: bool)
    ensures
        r == text_lt(a@, b@),
{
    let mut i: usize = 0;
    assert(a@.skip(0) =~= a@ && b@.skip(0) =~= b@);
    while i < a.len() && i < b.len() && a[i] == b[i]
        invariant
            i <= a.len(),
            i <= b.len(),
            text_lt(a@.skip(i as int), b@.skip(i as int)) == text_lt(a@, b@),
        decreases a.len() - i,
    {
        proof {
            let (sa, sb) = (a@.skip(i as int), b@.skip(i as int));
            assert(sa.drop_first() =~= a@.skip(i + 1));
            assert(sb.drop_first() =~= b@.skip(i + 1));
        }
        i += 1;
    }
    let (sa, sb) = (Ghost(a@.skip(i as int)), Ghost(b@.skip(i as int)));
    if i == a.len() {
        assert(sa@.len() == 0);
        i < b.len()
    } else if i == b.len() {
        assert(sb@.len() == 0);
        false
    } else {
        assert(sa@[0] == a@[i as int] && sb@[0] == b@[i as int]);
        a[i] < b[i]
    }
}

/// The paths in ascending order, each once (sorting, then dropping
/// repeats): the result is strictly ascending and reads exactly the texts
/// the input reads.
pub fn sorted_unique_paths(paths: Vec<String>) -> (r: Vec<String>)
    ensures
        strictly_ascending(r@),
        forall|x: Seq<char>| holds_text(r@, x) <==> holds_text(paths@, x),
{
    let mut out: Vec<String> = Vec::new();
    let mut n: usize = 0;
    while n < paths.len()
        invariant
            n <= paths.len(),
            strictly_ascending(out@),
            forall|x: Seq<char>| holds_text(out@, x) <==> holds_text(paths@.take(n as int), x),
        decreases paths.len() - n,
    {
        let x = &paths[n];
        let xc = chars_of(x.as_str());
        let mut k: usize = 0;
        while k < out.len() && chars_lt(&chars_of(out[k].as_str()), &xc)
            invariant
                k <= out.len(),
                xc@ == x@,
                forall|m: int| 0 <= m < k ==> text_lt(#[trigger] out@[m]@, x@),
            decreases out.len() - k,
        {
            k += 1;
        }
        let ghost before = out@;
        let ghost taken = paths@.take(n as int);
        let ghost next = paths@.take(n + 1);
        proof {
            assert(next =~= taken.push(paths@[n as int]));
            assert forall|y: Seq<char>| holds_text(next, y) <==> (holds_text(taken, y) || y == x@) by {
                if holds_text(next, y) {
                    let i = choose|i: int| 0 <= i < next.len() && next[i]@ == y;
                    if i < n {
                        assert(taken[i] == next[i]);
                    }
                }
                if holds_text(taken, y) {
                    let i = choose|i: int| 0 <= i < taken.len() && taken[i]@ == y;
                    assert(next[i] == taken[i]);
                }
                if y == x@ {
                    assert(next[n as int]@ == y);
                }
            }
        }
        if k < out.len() && str_eq(out[k].as_str(), x.as_str()) {
            proof {
                assert forall|y: Seq<char>| holds_text(out@, y) <==> holds_text(next, y) by {
                    if y == x@ {
                        assert(out@[k as int]@ == y);
                    }
                }
            }
        } else {
            proof {
                if k < out.len() {
                    lemma_text_lt_total(out@[k as int]@, x@);
                }
            }
            out.insert(k, x.clone());
            proof {
                assert(out@[k as int]@ == x@);
                assert forall|i: int, j: int| 0 <= i < j < out@.len() implies text_lt(
                    #[trigger] out@[i]@,
                    #[trigger] out@[j]@,
                ) by {
                    if j < k {
                        assert(out@[i] == before[i] && out@[j] == before[j]);
                    } else if j == k {
                        assert(out@[i] == before[i]);
                    } else if i == k {
                        assert(out@[j] == before[j - 1]);
                        if j - 1 > k {
                            assert(text_lt(before[k as int]@, before[j - 1]@));
                            lemma_text_lt_transitive(x@, before[k as int]@, before[j - 1]@);
                        }
                    } else if i < k {
                        assert(out@[i] == before[i] && out@[j] == before[j - 1]);
                        if j - 1 >= k {
                            assert(text_lt(before[i]@, x@));
                            lemma_text_lt_transitive(before[i]@, x@, before[k as int]@);
                            if j - 1 > k {
                                lemma_text_lt_transitive(before[i]@, before[k as int]@, before[j - 1]@);
                            }
                        }
                    } else {
                        assert(out@[i] == before[i - 1] && out@[j] == before[j - 1]);
                    }
                }
                assert forall|y: Seq<char>| holds_text(out@, y) <==> holds_text(next, y) by {
                    if holds_text(out@, y) {
                        let i = choose|i: int| 0 <= i < out@.len() && out@[i]@ == y;
                        if i < k {
                            assert(out@[i] == before[i]);
                        } else if i > k {
                            assert(out@[i] == before[i - 1]);
                        }
                    }
                    if holds_text(before, y) {
                        let i = choose|i: int| 0 <= i < before.len() && before[i]@ == y;
                        if i < k {
                            assert(out@[i] == before[i]);
                        } else {
                            assert(out@[i + 1] == before[i]);
                        }
                    }
                }
            }
        }
        n += 1;
    }
    proof {
        assert(paths@.take(paths.len() as int) =~= paths@);
    }
    out
}

} // verus!
