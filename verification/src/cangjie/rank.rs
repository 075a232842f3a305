//! Ordering of lookup results: most frequent first, each character once.
use vstd::prelude::*;
use vstd::multiset::Multiset;
use crate::cangjie::db::{Char, CharView, chars_view};

verus! {

broadcast use vstd::seq_lib::group_to_multiset_ensures;

/// `x` placed after every row of `s` at least as frequent as it (and before
/// the first less frequent one), so rows of equal frequency keep their order.
pub open spec fn insert_by_freq(s: Seq<CharView>, x: CharView) -> Seq<CharView>
    decreases s.len(),
{
    if s.len() == 0 {
        seq![x]
    } else if s[0].frequency < x.frequency {
        seq![x] + s
    } else {
        seq![s[0]] + insert_by_freq(s.drop_first(), x)
    }
}

/// The rows of `s` ordered by decreasing frequency; rows of equal frequency
/// keep the order the database gave them (a stable sort).
pub open spec fn sort_by_freq(s: Seq<CharView>) -> Seq<CharView>
    decreases s.len(),
{
    if s.len() == 0 {
        s
    } else {
        insert_by_freq(sort_by_freq(s.drop_last()), s.last())
    }
}

/// Some row of `s` has text `t`.
pub open spec fn has_text(s: Seq<CharView>, t: Seq<char>) -> bool {
    exists|i: int| 0 <= i < s.len() && #[trigger] s[i].chchar == t
}

/// `s` with every row dropped whose text an earlier row already has.
pub open spec fn dedup_text(s: Seq<CharView>) -> Seq<CharView>
    decreases s.len(),
{
    if s.len() == 0 {
        s
    } else {
        let d = dedup_text(s.drop_last());
        if has_text(d, s.last().chchar) {
            d
        } else {
            d.push(s.last())
        }
    }
}

/// The candidate order of a lookup: sorted by frequency, duplicates removed.
pub open spec fn rank(s: Seq<CharView>) -> Seq<CharView> {
    dedup_text(sort_by_freq(s))
}

/// Frequencies do not increase along `s`.
pub open spec fn freq_sorted(s: Seq<CharView>) -> bool {
    forall|i: int, j: int| 0 <= i < j < s.len() ==> #[trigger] s[i].frequency >= #[trigger] s[j].frequency
}

/// No two rows of `s` share a text.
pub open spec fn distinct_texts(s: Seq<CharView>) -> bool {
    forall|i: int, j: int| 0 <= i < j < s.len() ==> #[trigger] s[i].chchar != #[trigger] s[j].chchar
}

proof fn lemma_insert_at(s: Seq<CharView>, x: CharView, k: int)
    requires
        0 <= k <= s.len(),
        forall|j: int| 0 <= j < k ==> #[trigger] s[j].frequency >= x.frequency,
        k < s.len() ==> s[k].frequency < x.frequency,
    ensures
        insert_by_freq(s, x) =~= s.insert(k, x),
    decreases s.len(),
{
    if s.len() == 0 {
    } else if s[0].frequency < x.frequency {
        assert(k == 0);
    } else {
        assert(k > 0);
        lemma_insert_at(s.drop_first(), x, k - 1);
        assert(s.drop_first().insert(k - 1, x) =~= s.insert(k, x).drop_first());
    }
}

proof fn lemma_insert_position(s: Seq<CharView>, x: CharView) -> (k: int)
    ensures
        0 <= k <= s.len(),
        insert_by_freq(s, x) =~= s.insert(k, x),
    decreases s.len(),
{
    if s.len() == 0 {
        0
    } else if s[0].frequency < x.frequency {
        0
    } else {
        let k = lemma_insert_position(s.drop_first(), x);
        assert(s.drop_first().insert(k, x) =~= s.insert(k + 1, x).drop_first());
        assert(insert_by_freq(s, x) =~= s.insert(k + 1, x));
        k + 1
    }
}

proof fn lemma_insert_multiset(s: Seq<CharView>, x: CharView)
    ensures
        insert_by_freq(s, x).to_multiset() =~= s.to_multiset().insert(x),
{
    let k = lemma_insert_position(s, x);
    let t = s.insert(k, x);
    s.insert_ensures(k, x);
    assert(t.remove(k) =~= s);
    assert(t.remove(k).to_multiset() =~= t.to_multiset().remove(t[k]));
    assert(t.contains(x));
    assert(t.to_multiset().count(x) > 0);
}

proof fn lemma_insert_sorted(s: Seq<CharView>, x: CharView)
    requires
        freq_sorted(s),
    ensures
        freq_sorted(insert_by_freq(s, x)),
        insert_by_freq(s, x).len() == s.len() + 1,
        forall|i: int|
            0 <= i < insert_by_freq(s, x).len() ==> #[trigger] insert_by_freq(s, x)[i] == x || s.contains(
                insert_by_freq(s, x)[i],
            ),
    decreases s.len(),
{
    if s.len() == 0 {
    } else if s[0].frequency < x.frequency {
        let r = seq![x] + s;
        assert forall|i: int| 0 <= i < r.len() implies #[trigger] r[i] == x || s.contains(r[i]) by {
            if i > 0 {
                assert(r[i] == s[i - 1]);
            }
        }
    } else {
        let t = s.drop_first();
        lemma_insert_sorted(t, x);
        let it = insert_by_freq(t, x);
        let r = seq![s[0]] + it;
        assert forall|i: int| 0 <= i < r.len() implies #[trigger] r[i] == x || s.contains(r[i]) by {
            if i > 0 {
                assert(r[i] == it[i - 1]);
                if it[i - 1] != x {
                    let k = choose|k: int| 0 <= k < t.len() && t[k] == it[i - 1];
                    assert(s[k + 1] == t[k]);
                }
            } else {
                assert(s[0] == r[0]);
            }
        }
        assert forall|i: int, j: int| 0 <= i < j < r.len() implies #[trigger] r[i].frequency
            >= #[trigger] r[j].frequency by {
            if i == 0 {
                assert(r[j] == it[j - 1]);
                if it[j - 1] == x {
                } else {
                    let k = choose|k: int| 0 <= k < t.len() && t[k] == it[j - 1];
                    assert(s[k + 1] == t[k]);
                }
            } else {
                assert(r[i] == it[i - 1]);
                assert(r[j] == it[j - 1]);
            }
        }
    }
}

/// Sorting keeps every row (as a multiset) and orders by decreasing frequency.
pub proof fn lemma_sort_by_freq(s: Seq<CharView>)
    ensures
        sort_by_freq(s).to_multiset() =~= s.to_multiset(),
        sort_by_freq(s).len() == s.len(),
        freq_sorted(sort_by_freq(s)),
    decreases s.len(),
{
    if s.len() > 0 {
        lemma_sort_by_freq(s.drop_last());
        lemma_insert_multiset(sort_by_freq(s.drop_last()), s.last());
        lemma_insert_sorted(sort_by_freq(s.drop_last()), s.last());
        assert(s.drop_last().push(s.last()) =~= s);
    }
}

/// Dropping duplicate texts leaves distinct texts, keeps only rows of `s`,
/// keeps some row for every text of `s`, and keeps the order of `s`.
pub proof fn lemma_dedup_text(s: Seq<CharView>)
    ensures
        distinct_texts(dedup_text(s)),
        dedup_text(s).len() <= s.len(),
        forall|i: int| 0 <= i < dedup_text(s).len() ==> s.contains(#[trigger] dedup_text(s)[i]),
        forall|i: int| 0 <= i < s.len() ==> has_text(dedup_text(s), #[trigger] s[i].chchar),
        freq_sorted(s) ==> freq_sorted(dedup_text(s)),
    decreases s.len(),
{
    if s.len() > 0 {
        let p = s.drop_last();
        lemma_dedup_text(p);
        let d = dedup_text(p);
        let x = s.last();
        assert forall|i: int| 0 <= i < dedup_text(s).len() implies s.contains(
            #[trigger] dedup_text(s)[i],
        ) by {
            if i < d.len() {
                let k = choose|k: int| 0 <= k < p.len() && p[k] == d[i];
                assert(s[k] == p[k]);
            } else {
                assert(s[s.len() - 1] == x);
            }
        }
        assert forall|i: int| 0 <= i < s.len() implies has_text(
            dedup_text(s),
            #[trigger] s[i].chchar,
        ) by {
            if i < p.len() {
                assert(s[i] == p[i]);
                assert(has_text(d, p[i].chchar));
                let k = choose|k: int| 0 <= k < d.len() && d[k].chchar == p[i].chchar;
                assert(dedup_text(s)[k] == d[k]);
            } else {
                if !has_text(d, x.chchar) {
                    assert(dedup_text(s)[d.len() as int] == x);
                }
            }
        }
        if freq_sorted(s) {
            assert forall|i: int, j: int| 0 <= i < j < dedup_text(s).len() implies #[trigger] dedup_text(
                s,
            )[i].frequency >= #[trigger] dedup_text(s)[j].frequency by {
                let ki = choose|k: int| 0 <= k < p.len() && p[k] == d[i];
                if j < d.len() {
                    assert(freq_sorted(p));
                } else {
                    assert(s[ki] == p[ki]);
                    assert(s[s.len() - 1] == x);
                }
            }
        }
    }
}

/// The ranked rows are exactly distinct texts in decreasing frequency,
/// each a row of the lookup, and every text of the lookup appears.
pub proof fn law_rank(s: Seq<CharView>)
    ensures
        freq_sorted(rank(s)),
        distinct_texts(rank(s)),
        forall|i: int| 0 <= i < rank(s).len() ==> s.contains(#[trigger] rank(s)[i]),
        forall|i: int| 0 <= i < s.len() ==> has_text(rank(s), #[trigger] s[i].chchar),
        s.len() > 0 ==> rank(s).len() > 0,
{
    let t = sort_by_freq(s);
    lemma_sort_by_freq(s);
    lemma_dedup_text(t);
    assert forall|i: int| 0 <= i < rank(s).len() implies s.contains(#[trigger] rank(s)[i]) by {
        assert(t.contains(rank(s)[i]));
        assert(t.to_multiset().count(rank(s)[i]) > 0);
    }
    assert forall|i: int| 0 <= i < s.len() implies has_text(rank(s), #[trigger] s[i].chchar) by {
        assert(s.contains(s[i]));
        assert(s.to_multiset().count(s[i]) > 0);
        assert(t.contains(s[i]));
        let k = choose|k: int| 0 <= k < t.len() && t[k] == s[i];
        assert(has_text(rank(s), t[k].chchar));
    }
    if s.len() > 0 {
        assert(has_text(rank(s), s[0].chchar));
    }
}

/// Index of the first row of `v` less frequent than `f`, or `v.len()`.
fn first_less_frequent(v: &Vec<Char>, f: u32) -> (k: usize)
    ensures
        k <= v.len(),
        forall|j: int| 0 <= j < k ==> #[trigger] v@[j].frequency >= f,
        k < v.len() ==> v@[k as int].frequency < f,
{
    let mut k: usize = 0;
    while k < v.len()
        invariant
            k <= v.len(),
            forall|j: int| 0 <= j < k ==> #[trigger] v@[j].frequency >= f,
        decreases v.len() - k,
    {
        if v[k].frequency < f {
            return k;
        }
        k = k + 1;
    }
    k
}

/// Copies of the rows of `chars`, stably sorted by decreasing frequency.
pub fn sort_by_frequency(chars: &Vec<Char>) -> (r: Vec<Char>)
    ensures
        chars_view(r@) == sort_by_freq(chars_view(chars@)),
{
    let mut out: Vec<Char> = Vec::new();
    let mut i: usize = 0;
    while i < chars.len()
        invariant
            i <= chars.len(),
            chars_view(out@) == sort_by_freq(chars_view(chars@).take(i as int)),
        decreases chars.len() - i,
    {
        let x = chars[i].duplicate();
        let k = first_less_frequent(&out, x.frequency);
        let ghost before = out@;
        proof {
            let bv = chars_view(before);
            assert(bv.len() == before.len());
            assert forall|j: int| 0 <= j < k implies #[trigger] bv[j].frequency >= x@.frequency by {
                assert(bv[j] == before[j]@);
            }
            if k < bv.len() {
                assert(bv[k as int] == before[k as int]@);
            }
            lemma_insert_at(bv, x@, k as int);
            let cv = chars_view(chars@);
            assert(cv.take(i + 1).drop_last() =~= cv.take(i as int));
            assert(cv.take(i + 1).last() == chars@[i as int]@);
        }
        out.insert(k, x);
        proof {
            let bv = chars_view(before);
            assert(chars_view(out@) =~= bv.insert(k as int, x@)) by {
                before.insert_ensures(k as int, x);
                bv.insert_ensures(k as int, x@);
                assert forall|j: int| 0 <= j < out@.len() implies #[trigger] chars_view(out@)[j]
                    == bv.insert(k as int, x@)[j] by {
                    if j < k {
                        assert(out@[j] == before[j]);
                    } else if j == k {
                    } else {
                        assert(out@[j] == before[j - 1]);
                    }
                }
            }
        }
        i = i + 1;
    }
    assert(chars_view(chars@).take(chars.len() as int) =~= chars_view(chars@));
    out
}

/// Whether some row of `v` has text `t`.
fn contains_text(v: &Vec<Char>, t: &String) -> (b: bool)
    ensures
        b == has_text(chars_view(v@), t@),
{
    let mut k: usize = 0;
    while k < v.len()
        invariant
            k <= v.len(),
            forall|j: int| 0 <= j < k ==> #[trigger] v@[j].chchar@ != t@,
        decreases v.len() - k,
    {
        if v[k].chchar == *t {
            assert(chars_view(v@)[k as int].chchar == t@);
            return true;
        }
        k = k + 1;
    }
    assert forall|j: int| 0 <= j < v.len() implies #[trigger] chars_view(v@)[j].chchar != t@ by {
        assert(chars_view(v@)[j] == v@[j]@);
    }
    false
}

/// Copies of the rows of `chars`, keeping only the first row of each text.
pub fn dedup_by_text(chars: &Vec<Char>) -> (r: Vec<Char>)
    ensures
        chars_view(r@) == dedup_text(chars_view(chars@)),
{
    let mut out: Vec<Char> = Vec::new();
    let mut i: usize = 0;
    while i < chars.len()
        invariant
            i <= chars.len(),
            chars_view(out@) == dedup_text(chars_view(chars@).take(i as int)),
        decreases chars.len() - i,
    {
        let ghost cv = chars_view(chars@);
        proof {
            assert(cv.take(i + 1).drop_last() =~= cv.take(i as int));
            assert(cv.take(i + 1).last() == chars@[i as int]@);
        }
        if !contains_text(&out, &chars[i].chchar) {
            let x = chars[i].duplicate();
            let ghost before = out@;
            out.push(x);
            assert(chars_view(out@) =~= chars_view(before).push(x@));
        }
        i = i + 1;
    }
    assert(chars_view(chars@).take(chars.len() as int) =~= chars_view(chars@));
    out
}

} // verus!
