//! Counting the items of a sequence that have a property.

use vstd::prelude::*;

verus! {

/// How many items of `s` satisfy `p`.
pub open spec fn count<T>(s: Seq<T>, p: spec_fn(T) -> bool) -> nat
    decreases s.len(),
{
    if s.len() == 0 {
        0
    } else {
        count(s.drop_last(), p) + if p(s.last()) {
            1nat
        } else {
            0nat
        }
    }
}

/// One more item adds one to the count if it has the property.
pub proof fn lemma_count_push<T>(s: Seq<T>, x: T, p: spec_fn(T) -> bool)
    ensures
        count(s.push(x), p) == count(s, p) + if p(x) {
            1nat
        } else {
            0nat
        },
{
    assert(s.push(x).drop_last() =~= s);
}

/// Two sequences whose items agree on the property, place by place, count
/// alike.
pub proof fn lemma_count_same<T>(s: Seq<T>, t: Seq<T>, p: spec_fn(T) -> bool, q: spec_fn(T) -> bool)
    requires
        s.len() == t.len(),
        forall|i: int| 0 <= i < s.len() ==> p(#[trigger] s[i]) == q(t[i]),
    ensures
        count(s, p) == count(t, q),
    decreases s.len(),
{
    if s.len() > 0 {
        lemma_count_same(s.drop_last(), t.drop_last(), p, q);
    }
}

/// The count is zero exactly if no item has the property.
pub proof fn lemma_count_zero<T>(s: Seq<T>, p: spec_fn(T) -> bool)
    ensures
        count(s, p) == 0 <==> (forall|i: int| 0 <= i < s.len() ==> !p(#[trigger] s[i])),
    decreases s.len(),
{
    if s.len() > 0 {
        lemma_count_zero(s.drop_last(), p);
        let d = s.drop_last();
        assert(forall|i: int| 0 <= i < d.len() ==> d[i] == s[i]);
        if count(s, p) == 0 {
            assert forall|i: int| 0 <= i < s.len() implies !p(#[trigger] s[i]) by {
                if i < d.len() {
                    assert(!p(d[i]));
                }
            }
        } else {
            if p(s.last()) {
                assert(p(s[s.len() - 1]));
            } else {
                let i = choose|i: int| 0 <= i < d.len() && p(#[trigger] d[i]);
                assert(p(s[i]));
            }
        }
    }
}

/// Where `p` is the stronger property, both count alike exactly when every
/// item that has `q` has `p` too.
pub proof fn lemma_count_equal<T>(s: Seq<T>, p: spec_fn(T) -> bool, q: spec_fn(T) -> bool)
    requires
        forall|x: T| #[trigger] p(x) ==> q(x),
    ensures
        count(s, p) <= count(s, q),
        count(s, p) == count(s, q) <==> (forall|i: int|
            0 <= i < s.len() && q(#[trigger] s[i]) ==> p(s[i])),
    decreases s.len(),
{
    if s.len() > 0 {
        let d = s.drop_last();
        lemma_count_equal(d, p, q);
        assert(forall|i: int| 0 <= i < d.len() ==> d[i] == s[i]);
        if count(s, p) == count(s, q) {
            assert forall|i: int| 0 <= i < s.len() && q(#[trigger] s[i]) implies p(s[i]) by {
                if i < d.len() {
                    assert(q(d[i]));
                }
            }
        } else {
            if q(s.last()) && !p(s.last()) {
                assert(q(s[s.len() - 1]));
            } else {
                let i = choose|i: int| 0 <= i < d.len() && q(#[trigger] d[i]) && !p(d[i]);
                assert(q(s[i]) && !p(s[i]));
            }
        }
    }
}

/// Dropping items that lack `p` leaves the count of `p`.
pub proof fn lemma_count_filter<T>(s: Seq<T>, keep: spec_fn(T) -> bool, p: spec_fn(T) -> bool)
    requires
        forall|x: T| #[trigger] p(x) ==> keep(x),
    ensures
        count(s.filter(keep), p) == count(s, p),
    decreases s.len(),
{
    reveal(Seq::filter);
    if s.len() > 0 {
        lemma_count_filter(s.drop_last(), keep, p);
        if keep(s.last()) {
            lemma_count_push(s.drop_last().filter(keep), s.last(), p);
        }
    }
}

/// Items that lack `p` at the end of a sequence add nothing to the count.
pub proof fn lemma_count_tail<T>(s: Seq<T>, n: int, p: spec_fn(T) -> bool)
    requires
        0 <= n <= s.len(),
        forall|i: int| n <= i < s.len() ==> !p(#[trigger] s[i]),
    ensures
        count(s, p) == count(s.take(n), p),
    decreases s.len(),
{
    if s.len() == n {
        assert(s.take(n) =~= s);
    } else {
        let d = s.drop_last();
        assert(!p(s[s.len() - 1]));
        assert forall|i: int| n <= i < d.len() implies !p(#[trigger] d[i]) by {
            assert(d[i] == s[i]);
        }
        lemma_count_tail(d, n, p);
        assert(d.take(n) =~= s.take(n));
    }
}

} // verus!
