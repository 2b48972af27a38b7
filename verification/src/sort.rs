//! Ordering of text and a stable insertion sort of `(name, value)` pairs,
//! as `slice::sort_by` orders them with `String`'s ordering: by name only,
//! or by name and then value.

use vstd::prelude::*;

use crate::text::chars_of;

verus! {

/// A `(name, value)` pair, as text.
pub type PairView = (Seq<char>, Seq<char>);

/// The text of a `(String, String)` pair.
pub open spec fn pair_view(p: (String, String)) -> PairView {
    (p.0@, p.1@)
}

/// The texts of a sequence of `(String, String)` pairs.
pub open spec fn pairs_view(s: Seq<(String, String)>) -> Seq<PairView> {
    Seq::new(s.len(), |i: int| pair_view(s[i]))
}

/// `a < b` in `String`'s order: lexicographic by Unicode code point (the
/// same order as comparing their UTF-8 bytes).
pub open spec fn text_lt(a: Seq<char>, b: Seq<char>) -> bool
    decreases a.len(),
{
    if a.len() == 0 {
        b.len() > 0
    } else if b.len() == 0 {
        false
    } else if a[0] != b[0] {
        (a[0] as u32) < (b[0] as u32)
    } else {
        text_lt(a.drop_first(), b.drop_first())
    }
}

/// No text is smaller than itself.
pub proof fn lemma_text_lt_irreflexive(a: Seq<char>)
    ensures
        !text_lt(a, a),
    decreases a.len(),
{
    if a.len() > 0 {
        lemma_text_lt_irreflexive(a.drop_first());
    }
}

/// Two different texts are ordered one way or the other.
pub proof fn lemma_text_lt_total(a: Seq<char>, b: Seq<char>)
    ensures
        a == b || text_lt(a, b) || text_lt(b, a),
    decreases a.len(),
{
    if a.len() > 0 && b.len() > 0 && a[0] == b[0] {
        lemma_text_lt_total(a.drop_first(), b.drop_first());
        if a.drop_first() == b.drop_first() {
            assert(a =~= seq![a[0]] + a.drop_first());
            assert(b =~= seq![b[0]] + b.drop_first());
        }
    } else if a.len() == 0 && b.len() == 0 {
        assert(a =~= b);
    } else if a.len() > 0 && b.len() > 0 {
        let x = a[0] as u32;
        let y = b[0] as u32;
        vstd::utf8::char_u32_cast(a[0], x);
        vstd::utf8::char_u32_cast(b[0], y);
    }
}

/// No text is both smaller and greater than another.
pub proof fn lemma_text_lt_asymmetric(a: Seq<char>, b: Seq<char>)
    ensures
        !(text_lt(a, b) && text_lt(b, a)),
    decreases a.len(),
{
    if a.len() > 0 && b.len() > 0 && a[0] == b[0] {
        lemma_text_lt_asymmetric(a.drop_first(), b.drop_first());
    }
}

/// The order on texts is transitive.
pub proof fn lemma_text_lt_transitive(a: Seq<char>, b: Seq<char>, c: Seq<char>)
    requires
        text_lt(a, b),
        text_lt(b, c),
    ensures
        text_lt(a, c),
    decreases a.len(),
{
    if a.len() > 0 && b.len() > 0 && c.len() > 0 && a[0] == b[0] && b[0] == c[0] {
        lemma_text_lt_transitive(a.drop_first(), b.drop_first(), c.drop_first());
    }
}

/// Whether pair `a` sorts strictly before pair `b`: by name, and when
/// `by_value` also by value among equal names.
pub open spec fn pair_lt(a: PairView, b: PairView, by_value: bool) -> bool {
    text_lt(a.0, b.0) || (by_value && a.0 == b.0 && text_lt(a.1, b.1))
}

/// Whether two pairs tie in the order (neither sorts before the other):
/// same name, and when `by_value` also the same value.
pub open spec fn pair_tie(a: PairView, b: PairView, by_value: bool) -> bool {
    a.0 == b.0 && (by_value ==> a.1 == b.1)
}

proof fn lemma_pair_order(a: PairView, b: PairView, c: PairView, by_value: bool)
    ensures
        !pair_lt(a, a, by_value),
        !(pair_lt(a, b, by_value) && pair_lt(b, a, by_value)),
        pair_tie(a, b, by_value) <==> (!pair_lt(a, b, by_value) && !pair_lt(b, a, by_value)),
        pair_lt(a, b, by_value) && pair_lt(b, c, by_value) ==> pair_lt(a, c, by_value),
        pair_lt(a, b, by_value) && !pair_lt(c, b, by_value) ==> pair_lt(a, c, by_value),
        pair_lt(a, b, by_value) && pair_tie(a, c, by_value) ==> !pair_tie(b, c, by_value),
{
    lemma_text_lt_irreflexive(a.0);
    lemma_text_lt_irreflexive(a.1);
    lemma_text_lt_asymmetric(a.0, b.0);
    lemma_text_lt_asymmetric(a.1, b.1);
    lemma_text_lt_total(a.0, b.0);
    lemma_text_lt_total(a.1, b.1);
    lemma_text_lt_total(b.0, c.0);
    lemma_text_lt_total(b.1, c.1);
    lemma_text_lt_total(a.0, c.0);
    lemma_text_lt_total(a.1, c.1);
    if text_lt(a.0, b.0) && text_lt(b.0, c.0) {
        lemma_text_lt_transitive(a.0, b.0, c.0);
    }
    if text_lt(a.1, b.1) && text_lt(b.1, c.1) {
        lemma_text_lt_transitive(a.1, b.1, c.1);
    }
    lemma_text_lt_irreflexive(b.0);
    lemma_text_lt_irreflexive(b.1);
    lemma_text_lt_asymmetric(b.0, c.0);
    lemma_text_lt_asymmetric(b.1, c.1);
}

/// The position at which a stable insertion places `e` in `t`: before the
/// first element that `e` sorts strictly before, else at the end.
pub open spec fn insert_pos(t: Seq<PairView>, e: PairView, by_value: bool) -> int
    decreases t.len(),
{
    if t.len() == 0 {
        0
    } else if pair_lt(e, t[0], by_value) {
        0
    } else {
        1 + insert_pos(t.drop_first(), e, by_value)
    }
}

/// The stable sort of `s`: each element in turn inserted after every
/// element it does not sort strictly before.
pub open spec fn stable_sorted(s: Seq<PairView>, by_value: bool) -> Seq<PairView>
    decreases s.len(),
{
    if s.len() == 0 {
        s
    } else {
        let t = stable_sorted(s.drop_last(), by_value);
        t.insert(insert_pos(t, s.last(), by_value), s.last())
    }
}

/// Whether `t` is in order: no element sorts strictly before an earlier one.
pub open spec fn is_sorted(t: Seq<PairView>, by_value: bool) -> bool {
    forall|i: int, j: int| 0 <= i < j < t.len() ==> !pair_lt(#[trigger] t[j], #[trigger] t[i], by_value)
}

/// The elements of `s` that tie with `x`, in their order in `s`.
pub open spec fn ties_of(s: Seq<PairView>, x: PairView, by_value: bool) -> Seq<PairView>
    decreases s.len(),
{
    if s.len() == 0 {
        s
    } else if pair_tie(s.last(), x, by_value) {
        ties_of(s.drop_last(), x, by_value).push(s.last())
    } else {
        ties_of(s.drop_last(), x, by_value)
    }
}

proof fn lemma_ties_of_concat(a: Seq<PairView>, b: Seq<PairView>, x: PairView, by_value: bool)
    ensures
        ties_of(a + b, x, by_value) == ties_of(a, x, by_value) + ties_of(b, x, by_value),
    decreases b.len(),
{
    if b.len() == 0 {
        assert(a + b =~= a);
        assert(ties_of(a, x, by_value) + ties_of(b, x, by_value) =~= ties_of(a, x, by_value));
    } else {
        lemma_ties_of_concat(a, b.drop_last(), x, by_value);
        assert((a + b).drop_last() =~= a + b.drop_last());
        assert((a + b).last() == b.last());
        if pair_tie(b.last(), x, by_value) {
            assert(ties_of(a, x, by_value) + ties_of(b, x, by_value) =~= (ties_of(a, x, by_value)
                + ties_of(b.drop_last(), x, by_value)).push(b.last()));
        }
    }
}

proof fn lemma_ties_of_none(s: Seq<PairView>, x: PairView, by_value: bool)
    requires
        forall|k: int| 0 <= k < s.len() ==> !pair_tie(#[trigger] s[k], x, by_value),
    ensures
        ties_of(s, x, by_value) == Seq::<PairView>::empty(),
    decreases s.len(),
{
    if s.len() > 0 {
        lemma_ties_of_none(s.drop_last(), x, by_value);
        assert(!pair_tie(s[s.len() - 1], x, by_value));
    }
}

proof fn lemma_insert_pos_facts(t: Seq<PairView>, e: PairView, by_value: bool)
    requires
        is_sorted(t, by_value),
    ensures
        0 <= insert_pos(t, e, by_value) <= t.len(),
        forall|k: int| 0 <= k < insert_pos(t, e, by_value) ==> !pair_lt(e, #[trigger] t[k], by_value),
        forall|k: int| insert_pos(t, e, by_value) <= k < t.len() ==> pair_lt(e, #[trigger] t[k], by_value),
    decreases t.len(),
{
    if t.len() > 0 {
        let p = insert_pos(t, e, by_value);
        if pair_lt(e, t[0], by_value) {
            assert forall|k: int| 0 <= k < t.len() implies pair_lt(e, #[trigger] t[k], by_value) by {
                if k > 0 {
                    assert(!pair_lt(t[k], t[0], by_value));
                    lemma_pair_order(e, t[0], t[k], by_value);
                }
            }
        } else {
            let r = t.drop_first();
            assert(is_sorted(r, by_value)) by {
                assert forall|i: int, j: int| 0 <= i < j < r.len() implies !pair_lt(#[trigger] r[j], #[trigger] r[i], by_value) by {
                    assert(r[j] == t[j + 1] && r[i] == t[i + 1]);
                }
            }
            lemma_insert_pos_facts(r, e, by_value);
            assert forall|k: int| 0 <= k < p implies !pair_lt(e, #[trigger] t[k], by_value) by {
                if k > 0 {
                    assert(t[k] == r[k - 1]);
                }
            }
            assert forall|k: int| p <= k < t.len() implies pair_lt(e, #[trigger] t[k], by_value) by {
                assert(t[k] == r[k - 1]);
            }
        }
    }
}

/// The stable sort is in order, and keeps the tying elements of every group
/// in the order the input gave them: it is exactly what a stable sort gives.
pub proof fn lemma_stable_sorted_correct(s: Seq<PairView>, by_value: bool)
    ensures
        stable_sorted(s, by_value).len() == s.len(),
        is_sorted(stable_sorted(s, by_value), by_value),
        forall|x: PairView| #[trigger] ties_of(stable_sorted(s, by_value), x, by_value) == ties_of(s, x, by_value),
    decreases s.len(),
{
    if s.len() > 0 {
        let init = s.drop_last();
        let e = s.last();
        lemma_stable_sorted_correct(init, by_value);
        let t = stable_sorted(init, by_value);
        lemma_insert_pos_facts(t, e, by_value);
        let p = insert_pos(t, e, by_value);
        let u = t.insert(p, e);
        assert(u == stable_sorted(s, by_value));
        assert forall|i: int, j: int| 0 <= i < j < u.len() implies !pair_lt(#[trigger] u[j], #[trigger] u[i], by_value) by {
            if j < p {
                assert(u[i] == t[i] && u[j] == t[j]);
            } else if j == p {
                assert(u[j] == e && u[i] == t[i]);
            } else if i < p {
                assert(u[i] == t[i] && u[j] == t[j - 1]);
            } else if i == p {
                assert(u[i] == e && u[j] == t[j - 1]);
                lemma_pair_order(e, t[j - 1], e, by_value);
            } else {
                assert(u[i] == t[i - 1] && u[j] == t[j - 1]);
            }
        }
        assert forall|x: PairView| #[trigger] ties_of(u, x, by_value) == ties_of(s, x, by_value) by {
            let front = t.subrange(0, p);
            let back = t.subrange(p, t.len() as int);
            assert(t =~= front + back);
            assert(u =~= front + seq![e] + back);
            lemma_ties_of_concat(front + seq![e], back, x, by_value);
            lemma_ties_of_concat(front, seq![e], x, by_value);
            lemma_ties_of_concat(front, back, x, by_value);
            assert(seq![e].drop_last() =~= Seq::<PairView>::empty());
            assert(seq![e].last() == e);
            assert(ties_of(Seq::<PairView>::empty(), x, by_value) == Seq::<PairView>::empty());
            assert(ties_of(s, x, by_value) == if pair_tie(e, x, by_value) {
                ties_of(init, x, by_value).push(e)
            } else {
                ties_of(init, x, by_value)
            });
            if pair_tie(e, x, by_value) {
                assert forall|k: int| 0 <= k < back.len() implies !pair_tie(#[trigger] back[k], x, by_value) by {
                    assert(back[k] == t[k + p]);
                    lemma_pair_order(e, t[k + p], x, by_value);
                }
                lemma_ties_of_none(back, x, by_value);
                assert(ties_of(seq![e], x, by_value) =~= seq![e]);
                assert(ties_of(front + back, x, by_value) =~= ties_of(front, x, by_value));
                assert(ties_of(u, x, by_value) =~= ties_of(front, x, by_value).push(e));
            } else {
                assert(ties_of(seq![e], x, by_value) =~= Seq::<PairView>::empty());
                assert(ties_of(u, x, by_value) =~= ties_of(front, x, by_value) + ties_of(back, x, by_value));
            }
        }
    }
}

/// The stable sort keeps exactly the pairs it was given, each as often.
pub proof fn lemma_stable_sorted_permutes(s: Seq<PairView>, by_value: bool)
    ensures
        stable_sorted(s, by_value).to_multiset() == s.to_multiset(),
    decreases s.len(),
{
    if s.len() > 0 {
        let init = s.drop_last();
        let e = s.last();
        lemma_stable_sorted_permutes(init, by_value);
        lemma_stable_sorted_correct(init, by_value);
        let t = stable_sorted(init, by_value);
        lemma_insert_pos_facts(t, e, by_value);
        vstd::seq_lib::to_multiset_insert(t, insert_pos(t, e, by_value), e);
        vstd::seq_lib::to_multiset_build(init, e);
        assert(init.push(e) =~= s);
    }
}

/// Two sequences in name-and-value order that hold the same pairs, each as
/// often, are the same sequence.
pub proof fn lemma_sorted_by_value_unique(a: Seq<PairView>, b: Seq<PairView>)
    requires
        is_sorted(a, true),
        is_sorted(b, true),
        a.to_multiset() == b.to_multiset(),
    ensures
        a == b,
    decreases a.len(),
{
    vstd::seq_lib::to_multiset_len(a);
    vstd::seq_lib::to_multiset_len(b);
    if a.len() == 0 {
        assert(a =~= b);
    } else {
        let x = a[0];
        let y = b[0];
        vstd::seq_lib::to_multiset_contains(a, x);
        vstd::seq_lib::to_multiset_contains(b, x);
        vstd::seq_lib::to_multiset_contains(a, y);
        vstd::seq_lib::to_multiset_contains(b, y);
        assert(a.contains(x));
        assert(b.contains(y));
        let j = choose|j: int| 0 <= j < b.len() && b[j] == x;
        let k = choose|k: int| 0 <= k < a.len() && a[k] == y;
        if j > 0 {
            assert(!pair_lt(b[j], b[0], true));
        }
        if k > 0 {
            assert(!pair_lt(a[k], a[0], true));
        }
        lemma_pair_order(x, y, x, true);
        assert(x == y);
        let ra = a.drop_first();
        let rb = b.drop_first();
        vstd::seq_lib::to_multiset_remove(a, 0);
        vstd::seq_lib::to_multiset_remove(b, 0);
        assert(a.remove(0) =~= ra);
        assert(b.remove(0) =~= rb);
        assert(is_sorted(ra, true)) by {
            assert forall|i: int, j: int| 0 <= i < j < ra.len() implies !pair_lt(#[trigger] ra[j], #[trigger] ra[i], true) by {
                assert(ra[j] == a[j + 1] && ra[i] == a[i + 1]);
            }
        }
        assert(is_sorted(rb, true)) by {
            assert forall|i: int, j: int| 0 <= i < j < rb.len() implies !pair_lt(#[trigger] rb[j], #[trigger] rb[i], true) by {
                assert(rb[j] == b[j + 1] && rb[i] == b[i + 1]);
            }
        }
        lemma_sorted_by_value_unique(ra, rb);
        assert(a =~= seq![x] + ra);
        assert(b =~= seq![y] + rb);
    }
}

/// Sorting by name and value gives the same sequence for any two inputs
/// that hold the same pairs, each as often: the input order is forgotten.
pub proof fn lemma_sorted_by_value_order_free(a: Seq<PairView>, b: Seq<PairView>)
    requires
        a.to_multiset() == b.to_multiset(),
    ensures
        stable_sorted(a, true) == stable_sorted(b, true),
{
    lemma_stable_sorted_correct(a, true);
    lemma_stable_sorted_correct(b, true);
    lemma_stable_sorted_permutes(a, true);
    lemma_stable_sorted_permutes(b, true);
    lemma_sorted_by_value_unique(stable_sorted(a, true), stable_sorted(b, true));
}

/// Whether `a` sorts strictly before `b` in `String`'s order.
pub fn text_less(a: &String, b: &String) -> (r: bool)
    ensures
        r == text_lt(a@, b@),
{
    let x = chars_of(a.as_str());
    let y = chars_of(b.as_str());
    let mut i: usize = 0;
    assert(x@.skip(0) =~= x@);
    assert(y@.skip(0) =~= y@);
    while i < x.len() && i < y.len() && x[i] == y[i]
        invariant
            i <= x.len(),
            i <= y.len(),
            text_lt(x@, y@) == text_lt(x@.skip(i as int), y@.skip(i as int)),
        decreases x.len() - i,
    {
        assert(x@.skip(i as int).drop_first() =~= x@.skip(i as int + 1));
        assert(y@.skip(i as int).drop_first() =~= y@.skip(i as int + 1));
        i = i + 1;
    }
    if i == x.len() {
        i < y.len()
    } else if i == y.len() {
        false
    } else {
        assert(x@.skip(i as int)[0] == x@[i as int]);
        assert(y@.skip(i as int)[0] == y@[i as int]);
        (x[i] as u32) < (y[i] as u32)
    }
}

fn pair_less(a: &(String, String), b: &(String, String), by_value: bool) -> (r: bool)
    ensures
        r == pair_lt(pair_view(*a), pair_view(*b), by_value),
{
    if text_less(&a.0, &b.0) {
        return true;
    }
    if !by_value {
        return false;
    }
    if a.0 != b.0 {
        return false;
    }
    text_less(&a.1, &b.1)
}

/// A copy of `pairs`, sorted stably: by name only, or (when `by_value`) by
/// name and then value, as `sort_by` with `String::cmp` orders them.
pub fn sort_pairs(pairs: &Vec<(String, String)>, by_value: bool) -> (r: Vec<(String, String)>)
    ensures
        pairs_view(r@) == stable_sorted(pairs_view(pairs@), by_value),
{
    let ghost input = pairs_view(pairs@);
    let mut out: Vec<(String, String)> = Vec::new();
    let mut i: usize = 0;
    assert(input.take(0) =~= Seq::<PairView>::empty());
    assert(pairs_view(out@) =~= Seq::<PairView>::empty());
    while i < pairs.len()
        invariant
            i <= pairs.len(),
            input == pairs_view(pairs@),
            pairs_view(out@) == stable_sorted(input.take(i as int), by_value),
        decreases pairs.len() - i,
    {
        let e = (pairs[i].0.clone(), pairs[i].1.clone());
        let ghost t = pairs_view(out@);
        let ghost ev = pair_view(e);
        assert(ev == input[i as int]);
        let mut j: usize = 0;
        assert(t.skip(0) =~= t);
        while j < out.len() && !pair_less(&e, &out[j], by_value)
            invariant
                j <= out.len(),
                t == pairs_view(out@),
                ev == pair_view(e),
                insert_pos(t, ev, by_value) == j + insert_pos(t.skip(j as int), ev, by_value),
            decreases out.len() - j,
        {
            assert(t.skip(j as int)[0] == t[j as int]);
            assert(t.skip(j as int).drop_first() =~= t.skip(j as int + 1));
            j = j + 1;
        }
        out.insert(j, e);
        assert(input.take(i as int + 1).drop_last() =~= input.take(i as int));
        assert(input.take(i as int + 1).last() == ev);
        assert(pairs_view(out@) =~= t.insert(j as int, ev));
        i = i + 1;
    }
    assert(input.take(pairs.len() as int) =~= input);
    out
}

} // verus!
