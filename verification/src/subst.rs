//! Placeholder substitution: the one pure text transform of the crate.
//!
//! A template marks every position where injected data belongs with the
//! sentinel token `"__RESUME_DATA__"` (a quoted string literal, quotes
//! included). Substitution replaces every occurrence of that token, scanning
//! left to right without overlap, with the raw payload text; a template
//! without the token passes through unchanged.

use vstd::prelude::*;
use vstd::string::*;

verus! {

/// The sentinel token, surrounding quotes included, as a character sequence.
pub open spec fn sentinel() -> Seq<char> {
    "\"__RESUME_DATA__\""@
}

/// The sentinel token is seventeen characters long.
pub proof fn lemma_sentinel_len()
    ensures
        sentinel().len() == 17,
{
    reveal_strlit("\"__RESUME_DATA__\"");
}

/// The sentinel occurs in `t` starting at position `i`.
pub open spec fn sentinel_at(t: Seq<char>, i: int) -> bool {
    &&& 0 <= i
    &&& i + 17 <= t.len()
    &&& t.subrange(i, i + 17) == sentinel()
}

/// The sentinel occurs somewhere in `t`.
pub open spec fn contains_sentinel(t: Seq<char>) -> bool {
    exists|i: int| sentinel_at(t, i)
}

/// Left-to-right, non-overlapping replacement of every sentinel occurrence
/// in `t` by `p`.
pub open spec fn spec_subst(t: Seq<char>, p: Seq<char>) -> Seq<char>
    decreases t.len(),
{
    if t.len() == 0 {
        Seq::<char>::empty()
    } else if sentinel_at(t, 0) {
        p + spec_subst(t.skip(17), p)
    } else {
        seq![t[0]] + spec_subst(t.skip(1), p)
    }
}

/// How many sentinel occurrences the left-to-right, non-overlapping scan
/// of `t` finds.
pub open spec fn sentinel_count(t: Seq<char>) -> nat
    decreases t.len(),
{
    if t.len() == 0 {
        0
    } else if sentinel_at(t, 0) {
        1 + sentinel_count(t.skip(17))
    } else {
        sentinel_count(t.skip(1))
    }
}

/// The sentinel token as template text.
fn sentinel_str() -> (r: &'static str)
    ensures
        r@ == sentinel(),
        r@.len() == 17,
{
    let s = "\"__RESUME_DATA__\"";
    proof {
        reveal_strlit("\"__RESUME_DATA__\"");
    }
    s
}

/// Does the sentinel occur in `t` starting at character position `i`?
fn sentinel_match_at(t: &str, i: usize, n: usize) -> (b: bool)
    requires
        n == t@.len(),
        i <= n,
    ensures
        b == sentinel_at(t@, i as int),
{
    proof {
        lemma_sentinel_len();
    }
    if n - i < 17 {
        proof {
            assert(!sentinel_at(t@, i as int));
        }
        return false;
    }
    let s = sentinel_str();
    let mut j: usize = 0;
    while j < 17
        invariant
            n == t@.len(),
            i + 17 <= n,
            j <= 17,
            s@ == sentinel(),
            s@.len() == 17,
            forall|k: int| 0 <= k < j ==> t@[i + k] == sentinel()[k],
        decreases 17 - j,
    {
        if t.get_char(i + j) != s.get_char(j) {
            proof {
                assert(t@.subrange(i as int, i + 17)[j as int] != sentinel()[j as int]);
                assert(!sentinel_at(t@, i as int));
            }
            return false;
        }
        j = j + 1;
    }
    proof {
        assert(t@.subrange(i as int, i + 17) =~= sentinel());
    }
    true
}

/// Replace every occurrence of the sentinel token in `template` by
/// `payload`, scanning left to right without overlap.
pub fn substitute(template: &str, payload: &str) -> (r: String)
    ensures
        r@ == spec_subst(template@, payload@),
{
    proof {
        lemma_sentinel_len();
    }
    let n = template.unicode_len();
    let mut out = String::new();
    let mut seg: usize = 0;
    let mut i: usize = 0;
    proof {
        assert(template@.skip(0) =~= template@);
        assert(template@.subrange(0, 0) =~= Seq::<char>::empty());
        assert(out@ + template@.subrange(0, 0) + spec_subst(template@.skip(0), payload@)
            =~= spec_subst(template@, payload@));
    }
    while i < n
        invariant
            n == template@.len(),
            seg <= i <= n,
            spec_subst(template@, payload@) == out@ + template@.subrange(
                seg as int,
                i as int,
            ) + spec_subst(template@.skip(i as int), payload@),
        decreases n - i,
    {
        if sentinel_match_at(template, i, n) {
            proof {
                lemma_sentinel_len();
                assert(template@.skip(i as int).subrange(0, 17) =~= template@.subrange(
                    i as int,
                    i + 17,
                ));
                assert(sentinel_at(template@.skip(i as int), 0));
                assert(template@.skip(i as int).skip(17) =~= template@.skip(i + 17));
            }
            let piece = template.substring_char(seg, i);
            out.append(piece);
            out.append(payload);
            i = i + 17;
            seg = i;
            proof {
                assert(template@.subrange(seg as int, i as int) =~= Seq::<char>::empty());
                assert(out@ + template@.subrange(seg as int, i as int) =~= out@);
            }
        } else {
            proof {
                assert(template@.skip(i as int)[0] == template@[i as int]);
                if sentinel_at(template@.skip(i as int), 0) {
                    assert(template@.subrange(i as int, i + 17) =~= template@.skip(
                        i as int,
                    ).subrange(0, 17));
                    assert(sentinel_at(template@, i as int));
                }
                assert(!sentinel_at(template@.skip(i as int), 0));
                assert(template@.skip(i as int).skip(1) =~= template@.skip(i + 1));
                assert(template@.subrange(seg as int, i as int) + seq![
                    template@[i as int],
                ] =~= template@.subrange(seg as int, i + 1));
            }
            i = i + 1;
        }
    }
    let piece = template.substring_char(seg, n);
    out.append(piece);
    proof {
        assert(template@.skip(n as int) =~= Seq::<char>::empty());
        assert(spec_subst(template@.skip(n as int), payload@) =~= Seq::<char>::empty());
        assert(out@ =~= spec_subst(template@, payload@));
    }
    out
}

/// A template without the sentinel passes through substitution unchanged.
pub proof fn lemma_subst_absent(t: Seq<char>, p: Seq<char>)
    requires
        !contains_sentinel(t),
    ensures
        spec_subst(t, p) == t,
    decreases t.len(),
{
    if t.len() == 0 {
        assert(spec_subst(t, p) =~= t);
    } else {
        assert(!sentinel_at(t, 0));
        assert forall|i: int| !sentinel_at(t.skip(1), i) by {
            if sentinel_at(t.skip(1), i) {
                assert(t.subrange(i + 1, i + 1 + 17) =~= t.skip(1).subrange(i, i + 17));
                assert(sentinel_at(t, i + 1));
            }
        }
        lemma_subst_absent(t.skip(1), p);
        assert(spec_subst(t, p) =~= t);
    }
}

/// The scan finds no occurrence exactly when the template contains none.
pub proof fn lemma_count_zero_iff_absent(t: Seq<char>)
    ensures
        sentinel_count(t) == 0 <==> !contains_sentinel(t),
    decreases t.len(),
{
    lemma_sentinel_len();
    if t.len() == 0 {
        assert forall|i: int| !sentinel_at(t, i) by {}
    } else if sentinel_at(t, 0) {
        assert(contains_sentinel(t));
    } else {
        lemma_count_zero_iff_absent(t.skip(1));
        assert forall|i: int| sentinel_at(t, i) implies sentinel_at(t.skip(1), i - 1) by {
            assert(i != 0);
            assert(t.skip(1).subrange(i - 1, i - 1 + 17) =~= t.subrange(i, i + 17));
        }
        assert forall|i: int| sentinel_at(t.skip(1), i) implies sentinel_at(t, i + 1) by {
            assert(t.subrange(i + 1, i + 1 + 17) =~= t.skip(1).subrange(i, i + 17));
        }
        assert(contains_sentinel(t) <==> contains_sentinel(t.skip(1)));
    }
}

/// Substitution splits the template at its leftmost occurrence, at `i`: the
/// prefix before `i` is free of the sentinel and kept verbatim, the payload
/// stands where the occurrence stood, and the rest is substituted in turn.
pub open spec fn splits_at_leftmost(t: Seq<char>, p: Seq<char>, i: int) -> bool {
    &&& sentinel_at(t, i)
    &&& !contains_sentinel(t.take(i))
    &&& spec_subst(t, p) == t.take(i) + p + spec_subst(t.skip(i + 17), p)
}

/// A template containing the sentinel is substituted by replacing its
/// leftmost occurrence with the payload, keeping the sentinel-free prefix
/// verbatim, and substituting the remainder the same way; so every
/// occurrence, left to right, becomes one payload copy.
pub proof fn lemma_subst_replaces_leftmost(t: Seq<char>, p: Seq<char>)
    requires
        contains_sentinel(t),
    ensures
        exists|i: int| splits_at_leftmost(t, p, i),
    decreases t.len(),
{
    if sentinel_at(t, 0) {
        assert(t.take(0) =~= Seq::<char>::empty());
        assert forall|k: int| !(#[trigger] sentinel_at(t.take(0), k)) by {}
        assert(t.take(0) + p =~= p);
        assert(spec_subst(t, p) == t.take(0) + p + spec_subst(t.skip(17), p));
        assert(splits_at_leftmost(t, p, 0));
    } else {
        let j = choose|j: int| sentinel_at(t, j);
        assert(j != 0);
        assert(t.skip(1).subrange(j - 1, j - 1 + 17) =~= t.subrange(j, j + 17));
        assert(sentinel_at(t.skip(1), j - 1));
        lemma_subst_replaces_leftmost(t.skip(1), p);
        let i = choose|i: int| splits_at_leftmost(t.skip(1), p, i);
        assert(t.subrange(i + 1, i + 1 + 17) =~= t.skip(1).subrange(i, i + 17));
        assert(sentinel_at(t, i + 1));
        assert forall|k: int| !(#[trigger] sentinel_at(t.take(i + 1), k)) by {
            if sentinel_at(t.take(i + 1), k) {
                assert(t.take(i + 1).subrange(k, k + 17) =~= t.subrange(k, k + 17));
                if k == 0 {
                    assert(t.subrange(0, 17) =~= t.subrange(k, k + 17));
                    assert(sentinel_at(t, 0));
                } else {
                    assert(t.skip(1).take(i).subrange(k - 1, k - 1 + 17) =~= t.subrange(
                        k,
                        k + 17,
                    ));
                    assert(sentinel_at(t.skip(1).take(i), k - 1));
                    assert(contains_sentinel(t.skip(1).take(i)));
                }
            }
        }
        assert(t.skip(1).skip(i + 17) =~= t.skip(i + 1 + 17));
        assert(seq![t[0]] + (t.skip(1).take(i) + p + spec_subst(t.skip(1).skip(i + 17), p))
            =~= t.take(i + 1) + p + spec_subst(t.skip(i + 1 + 17), p));
        assert(spec_subst(t, p) == t.take(i + 1) + p + spec_subst(t.skip(i + 1 + 17), p));
        assert(splits_at_leftmost(t, p, i + 1));
    }
}

/// Substitution replaces the payload in at every found occurrence: a scan
/// finding `k` occurrences shortens the template by `17 * k` characters and
/// lengthens it by `k` payload copies.
pub proof fn lemma_subst_length(t: Seq<char>, p: Seq<char>)
    ensures
        spec_subst(t, p).len() + 17 * sentinel_count(t) == t.len() + p.len() * sentinel_count(t),
    decreases t.len(),
{
    let li: int = p.len() as int;
    if t.len() == 0 {
        assert(sentinel_count(t) == 0);
        assert(spec_subst(t, p).len() == 0);
        assert(li * 0 == 0) by (nonlinear_arith);
    } else if sentinel_at(t, 0) {
        lemma_subst_length(t.skip(17), p);
        let ci: int = sentinel_count(t.skip(17)) as int;
        assert(li * (ci + 1) == li * ci + li) by (nonlinear_arith);
        assert(17 * (ci + 1) == 17 * ci + 17) by (nonlinear_arith);
        assert(spec_subst(t, p).len() == li + spec_subst(t.skip(17), p).len());
        assert(sentinel_count(t) == ci + 1);
        assert(t.skip(17).len() == t.len() - 17);
    } else {
        lemma_subst_length(t.skip(1), p);
        assert(sentinel_count(t) == sentinel_count(t.skip(1)));
        assert(spec_subst(t, p).len() == 1 + spec_subst(t.skip(1), p).len());
        assert(t.skip(1).len() == t.len() - 1);
    }
}

} // verus!
