//! Matching a cache key against a pattern with wildcards.

use vstd::prelude::*;

verus! {

/// Whether `text` matches `pattern`, in which `%` stands for any run of
/// characters, the empty one too, and `_` for any one character. Every other
/// character stands for itself.
pub open spec fn like(pattern: Seq<char>, text: Seq<char>) -> bool
    decreases pattern.len(), text.len(),
{
    if pattern.len() == 0 {
        text.len() == 0
    } else if pattern[0] == '%' {
        like(pattern.skip(1), text) || (text.len() > 0 && like(pattern, text.skip(1)))
    } else {
        text.len() > 0 && (pattern[0] == '_' || pattern[0] == text[0]) && like(
            pattern.skip(1),
            text.skip(1),
        )
    }
}

/// The characters of a string, one by one.
fn chars_of(s: &str) -> (v: Vec<char>)
    ensures
        v@ == s@,
{
    let mut v: Vec<char> = Vec::new();
    for c in it: s.chars()
        invariant
            it.seq() == s@,
            v@ == s@.take(it.index() as int),
    {
        assert(s@.take(it.index() + 1) =~= s@.take(it.index() as int).push(c));
        v.push(c);
    }
    assert(s@.take(s@.len() as int) =~= s@);
    v
}

/// Unfolds `like` once at the places `i` of the pattern and `j` of the text.
proof fn lemma_like_unfold(pattern: Seq<char>, text: Seq<char>, i: int, j: int)
    requires
        0 <= i < pattern.len(),
        0 <= j <= text.len(),
    ensures
        like(pattern.skip(i), text.skip(j)) == if pattern[i] == '%' {
            like(pattern.skip(i + 1), text.skip(j)) || (j < text.len() && like(
                pattern.skip(i),
                text.skip(j + 1),
            ))
        } else {
            j < text.len() && (pattern[i] == '_' || pattern[i] == text[j]) && like(
                pattern.skip(i + 1),
                text.skip(j + 1),
            )
        },
{
    assert(pattern.skip(i).skip(1) =~= pattern.skip(i + 1));
    assert(pattern.skip(i)[0] == pattern[i]);
    if j < text.len() {
        assert(text.skip(j).skip(1) =~= text.skip(j + 1));
        assert(text.skip(j)[0] == text[j]);
    }
}

/// Whether `text` matches `pattern`, with `%` for any run of characters and
/// `_` for any one character. The pattern is worked off from its end, with
/// one answer kept for each place of the text.
pub fn like_match(pattern: &str, text: &str) -> (r: bool)
    ensures
        r == like(pattern@, text@),
{
    let p = chars_of(pattern);
    let t = chars_of(text);
    let n = t.len();
    // `end` answers for the empty rest of the text, `row[j]` for the rest from `j` on.
    let mut end = true;
    let mut row: Vec<bool> = Vec::new();
    let mut k: usize = 0;
    while k < n
        invariant
            k <= n,
            n == t@.len(),
            row@.len() == k,
            forall|j: int| 0 <= j < k ==> !row@[j],
        decreases n - k,
    {
        row.push(false);
        k += 1;
    }
    let mut i = p.len();
    proof {
        assert(p@.skip(i as int) =~= Seq::<char>::empty());
        assert forall|j: int| 0 <= j < n implies row@[j] == like(
            p@.skip(i as int),
            t@.skip(j),
        ) by {
            assert(t@.skip(j).len() > 0);
        }
        assert(t@.skip(n as int).len() == 0);
    }
    while i > 0
        invariant
            i <= p@.len(),
            n == t@.len(),
            row@.len() == n,
            end == like(p@.skip(i as int), t@.skip(n as int)),
            forall|j: int| 0 <= j < n ==> row@[j] == like(p@.skip(i as int), t@.skip(j)),
        decreases i,
    {
        i -= 1;
        let c = p[i];
        proof {
            lemma_like_unfold(p@, t@, i as int, n as int);
        }
        if c == '%' {
            let mut j = n;
            while j > 0
                invariant
                    j <= n,
                    i < p@.len(),
                    c == p@[i as int],
                    c == '%',
                    n == t@.len(),
                    row@.len() == n,
                    end == like(p@.skip(i as int), t@.skip(n as int)),
                    forall|x: int| j <= x < n ==> row@[x] == like(p@.skip(i as int), t@.skip(x)),
                    forall|x: int| 0 <= x < j ==> row@[x] == like(p@.skip(i + 1), t@.skip(x)),
                decreases j,
            {
                j -= 1;
                proof {
                    lemma_like_unfold(p@, t@, i as int, j as int);
                }
                let after = if j + 1 == n {
                    end
                } else {
                    row[j + 1]
                };
                let here = row[j] || after;
                row[j] = here;
            }
        } else {
            let mut j: usize = 0;
            while j < n
                invariant
                    j <= n,
                    i < p@.len(),
                    c == p@[i as int],
                    c != '%',
                    n == t@.len(),
                    row@.len() == n,
                    end == like(p@.skip(i + 1), t@.skip(n as int)),
                    forall|x: int| 0 <= x < j ==> row@[x] == like(p@.skip(i as int), t@.skip(x)),
                    forall|x: int| j <= x < n ==> row@[x] == like(p@.skip(i + 1), t@.skip(x)),
                decreases n - j,
            {
                proof {
                    lemma_like_unfold(p@, t@, i as int, j as int);
                }
                let after = if j + 1 == n {
                    end
                } else {
                    row[j + 1]
                };
                let here = (c == '_' || c == t[j]) && after;
                row[j] = here;
                j += 1;
            }
            end = false;
        }
    }
    proof {
        assert(p@.skip(0) =~= p@);
        assert(t@.skip(0) =~= t@);
    }
    if n == 0 {
        end
    } else {
        row[0]
    }
}

/// The pattern `%` alone matches every text.
pub proof fn lemma_like_any(text: Seq<char>)
    ensures
        like(seq!['%'], text),
    decreases text.len(),
{
    let pattern = seq!['%'];
    assert(pattern.skip(1) =~= Seq::<char>::empty());
    assert(pattern[0] == '%');
    if text.len() > 0 {
        lemma_like_any(text.skip(1));
    } else {
        assert(like(pattern.skip(1), text));
    }
}

/// The text agrees with the pattern place by place: each character of the
/// pattern is `_` or the character of the text at its place.
pub open spec fn agrees(pattern: Seq<char>, text: Seq<char>) -> bool {
    &&& pattern.len() <= text.len()
    &&& forall|i: int| 0 <= i < pattern.len() ==> pattern[i] == '_' || pattern[i] == text[i]
}

/// A text matches a pattern without `%` that is followed by `%` exactly if
/// its beginning agrees with the pattern.
pub proof fn lemma_like_prefix(prefix: Seq<char>, text: Seq<char>)
    requires
        forall|i: int| 0 <= i < prefix.len() ==> prefix[i] != '%',
    ensures
        like(prefix.push('%'), text) <==> agrees(prefix, text),
    decreases prefix.len(),
{
    let pattern = prefix.push('%');
    if prefix.len() == 0 {
        assert(pattern =~= seq!['%']);
        lemma_like_any(text);
    } else {
        assert(pattern[0] == prefix[0]);
        assert(pattern.skip(1) =~= prefix.skip(1).push('%'));
        if text.len() > 0 {
            let rest = prefix.skip(1);
            let tail = text.skip(1);
            assert forall|i: int| 0 <= i < rest.len() implies rest[i] != '%' by {
                assert(rest[i] == prefix[i + 1]);
            }
            lemma_like_prefix(rest, tail);
            if agrees(prefix, text) {
                assert forall|i: int| 0 <= i < rest.len() implies rest[i] == '_' || rest[i]
                    == tail[i] by {
                    assert(rest[i] == prefix[i + 1] && tail[i] == text[i + 1]);
                }
            }
            if (prefix[0] == '_' || prefix[0] == text[0]) && agrees(rest, tail) {
                assert forall|i: int| 0 <= i < prefix.len() implies prefix[i] == '_' || prefix[i]
                    == text[i] by {
                    if i > 0 {
                        assert(rest[i - 1] == prefix[i] && tail[i - 1] == text[i]);
                    }
                }
            }
        }
    }
}

} // verus!
