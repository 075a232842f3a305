//! The `default.custom.yaml` written for new RIME users: RIME only builds
//! schemas listed in `default.yaml`'s `schema_list`, so every installed
//! schema is listed, Cangjie/Quick/Jyutping first for Hong Kong users.
use vstd::prelude::*;
use crate::text::{chars_of, decimal, decimal_digits, string_from_chars};

verus! {

/// The file-name suffix of a RIME schema.
pub open spec fn schema_suffix() -> Seq<char> {
    seq!['.', 's', 'c', 'h', 'e', 'm', 'a', '.', 'y', 'a', 'm', 'l']
}

/// `s` ends with `suf`.
pub open spec fn ends_with(s: Seq<char>, suf: Seq<char>) -> bool {
    s.len() >= suf.len() && s.subrange(s.len() - suf.len(), s.len() as int) == suf
}

/// `s` starts with `p`.
pub open spec fn starts_with(s: Seq<char>, p: Seq<char>) -> bool {
    s.len() >= p.len() && s.subrange(0, p.len() as int) == p
}

/// `p` occurs in `s`.
pub open spec fn contains_text(s: Seq<char>, p: Seq<char>) -> bool {
    exists|i: int| 0 <= i && i + p.len() <= s.len() && #[trigger] s.subrange(i, i + p.len()) == p
}

/// The schema id of a schema file name.
pub open spec fn schema_id_of(name: Seq<char>) -> Option<Seq<char>> {
    if ends_with(name, schema_suffix()) {
        Some(name.subrange(0, name.len() - schema_suffix().len()))
    } else {
        None
    }
}

/// Schema ids of the file names, first occurrence of each, in order.
pub open spec fn collect_ids(names: Seq<Seq<char>>) -> Seq<Seq<char>>
    decreases names.len(),
{
    if names.len() == 0 {
        Seq::empty()
    } else {
        let ids = collect_ids(names.drop_last());
        match schema_id_of(names.last()) {
            Some(id) => if ids.contains(id) {
                ids
            } else {
                ids.push(id)
            },
            None => ids,
        }
    }
}

/// Code-point (equivalently UTF-8 byte) lexicographic order.
pub open spec fn lex_lt(a: Seq<char>, b: Seq<char>) -> bool
    decreases a.len(),
{
    if b.len() == 0 {
        false
    } else if a.len() == 0 {
        true
    } else if a[0] != b[0] {
        (a[0] as u32) < (b[0] as u32)
    } else {
        lex_lt(a.drop_first(), b.drop_first())
    }
}

/// `x` placed before the first element greater than it.
pub open spec fn insert_lex(s: Seq<Seq<char>>, x: Seq<char>) -> Seq<Seq<char>>
    decreases s.len(),
{
    if s.len() == 0 {
        seq![x]
    } else if lex_lt(x, s[0]) {
        seq![x] + s
    } else {
        seq![s[0]] + insert_lex(s.drop_first(), x)
    }
}

/// `s` in lexicographic order (a stable sort).
pub open spec fn sort_lex(s: Seq<Seq<char>>) -> Seq<Seq<char>>
    decreases s.len(),
{
    if s.len() == 0 {
        s
    } else {
        insert_lex(sort_lex(s.drop_last()), s.last())
    }
}

/// Cangjie, Quick and Jyutping schemas go first.
pub open spec fn preferred(id: Seq<char>) -> bool {
    starts_with(id, "cangjie"@) || starts_with(id, "quick"@) || contains_text(id, "jyut"@)
}

/// The elements of `s` with `preferred` equal to `p`, in order.
pub open spec fn keep_preferred(s: Seq<Seq<char>>, p: bool) -> Seq<Seq<char>>
    decreases s.len(),
{
    if s.len() == 0 {
        s
    } else if preferred(s.last()) == p {
        keep_preferred(s.drop_last(), p).push(s.last())
    } else {
        keep_preferred(s.drop_last(), p)
    }
}

/// Ids sorted, then preferred ones first (keeping the sorted order in each group).
pub open spec fn schema_order(ids: Seq<Seq<char>>) -> Seq<Seq<char>> {
    keep_preferred(sort_lex(ids), true) + keep_preferred(sort_lex(ids), false)
}

/// The `schema_list` entries of the ids.
pub open spec fn schema_list_text(ids: Seq<Seq<char>>) -> Seq<char>
    decreases ids.len(),
{
    if ids.len() == 0 {
        Seq::empty()
    } else {
        schema_list_text(ids.drop_last()) + "    - schema: "@ + ids.last() + seq!['\n']
    }
}

/// The page size written: clamped into 1..=9.
pub open spec fn clamp_page_size(n: nat) -> nat {
    if n < 1 {
        1
    } else if n > 9 {
        9
    } else {
        n
    }
}

/// The file's first lines.
pub open spec fn yaml_header() -> Seq<char> {
    "# Generated by cosmic-ext-ime on first run. Edit freely; it is never overwritten.\n# Remove schemas you do not want from schema_list to speed up deployment.\npatch:\n  schema_list:\n"@
}

/// The whole file for the ordered ids.
pub open spec fn default_custom_text(ids: Seq<Seq<char>>, page_size: nat) -> Seq<char> {
    yaml_header() + schema_list_text(ids) + "  menu/page_size: "@ + decimal_digits(
        clamp_page_size(page_size),
    ) + seq!['\n']
}

/// The views of a list of strings.
pub open spec fn strings_view(s: Seq<String>) -> Seq<Seq<char>> {
    s.map_values(|x: String| x@)
}

proof fn lemma_lex_skip(a: Seq<char>, b: Seq<char>, i: int)
    requires
        0 <= i <= a.len(),
        i <= b.len(),
        a.subrange(0, i) == b.subrange(0, i),
    ensures
        lex_lt(a, b) == lex_lt(a.subrange(i, a.len() as int), b.subrange(i, b.len() as int)),
    decreases i,
{
    if i > 0 {
        assert(a[0] == a.subrange(0, i)[0]);
        assert(b[0] == b.subrange(0, i)[0]);
        let a1 = a.drop_first();
        let b1 = b.drop_first();
        assert(a1.subrange(0, i - 1) =~= a.subrange(0, i).drop_first());
        assert(b1.subrange(0, i - 1) =~= b.subrange(0, i).drop_first());
        lemma_lex_skip(a1, b1, i - 1);
        assert(a1.subrange(i - 1, a1.len() as int) =~= a.subrange(i, a.len() as int));
        assert(b1.subrange(i - 1, b1.len() as int) =~= b.subrange(i, b.len() as int));
    } else {
        assert(a.subrange(0, a.len() as int) =~= a);
        assert(b.subrange(0, b.len() as int) =~= b);
    }
}


broadcast use vstd::seq_lib::group_to_multiset_ensures;

proof fn lemma_insert_lex_position(s: Seq<Seq<char>>, x: Seq<char>) -> (k: int)
    ensures
        0 <= k <= s.len(),
        insert_lex(s, x) =~= s.insert(k, x),
    decreases s.len(),
{
    if s.len() == 0 || lex_lt(x, s[0]) {
        0
    } else {
        let k = lemma_insert_lex_position(s.drop_first(), x);
        assert(s.drop_first().insert(k, x) =~= s.insert(k + 1, x).drop_first());
        k + 1
    }
}

proof fn lemma_sort_lex_multiset(s: Seq<Seq<char>>)
    ensures
        sort_lex(s).to_multiset() =~= s.to_multiset(),
    decreases s.len(),
{
    if s.len() > 0 {
        lemma_sort_lex_multiset(s.drop_last());
        let t = sort_lex(s.drop_last());
        let k = lemma_insert_lex_position(t, s.last());
        let u = t.insert(k, s.last());
        t.insert_ensures(k, s.last());
        assert(u.remove(k) =~= t);
        assert(u.contains(s.last()));
        assert(u.to_multiset().count(s.last()) > 0);
        assert(s.drop_last().push(s.last()) =~= s);
    }
}

proof fn lemma_keep_preferred(s: Seq<Seq<char>>)
    ensures
        keep_preferred(s, true).to_multiset().add(keep_preferred(s, false).to_multiset()) =~= s.to_multiset(),
        forall|i: int| 0 <= i < keep_preferred(s, true).len() ==> preferred(#[trigger] keep_preferred(s, true)[i]),
        forall|i: int| 0 <= i < keep_preferred(s, false).len() ==> !preferred(#[trigger] keep_preferred(s, false)[i]),
    decreases s.len(),
{
    if s.len() > 0 {
        lemma_keep_preferred(s.drop_last());
        assert(s.drop_last().push(s.last()) =~= s);
    }
}

/// The listed schemas are exactly the collected ids (as a multiset), all
/// preferred schemas (Cangjie, Quick, Jyutping) come before all others.
pub proof fn law_schema_order(ids: Seq<Seq<char>>)
    ensures
        schema_order(ids).to_multiset() =~= ids.to_multiset(),
        forall|i: int, j: int|
            0 <= i < j < schema_order(ids).len() && !preferred(#[trigger] schema_order(ids)[i])
                ==> !preferred(#[trigger] schema_order(ids)[j]),
{
    let t = sort_lex(ids);
    lemma_sort_lex_multiset(ids);
    lemma_keep_preferred(t);
    let a = keep_preferred(t, true);
    let b = keep_preferred(t, false);
    vstd::seq_lib::lemma_multiset_commutative(a, b);
    assert forall|i: int, j: int|
        0 <= i < j < schema_order(ids).len() && !preferred(#[trigger] schema_order(ids)[i])
            implies !preferred(#[trigger] schema_order(ids)[j]) by {
        if i < a.len() {
            assert(schema_order(ids)[i] == a[i]);
        }
        assert(j >= a.len());
        assert(schema_order(ids)[j] == b[j - a.len()]);
    }
}

/// Every schema file yields a listed id, and no id is listed twice.
pub proof fn law_collect_ids(names: Seq<Seq<char>>)
    ensures
        forall|i: int|
            0 <= i < names.len() && schema_id_of(#[trigger] names[i]) is Some ==> collect_ids(names).contains(
                schema_id_of(names[i])->0,
            ),
        forall|i: int, j: int|
            0 <= i < j < collect_ids(names).len() ==> #[trigger] collect_ids(names)[i] != #[trigger] collect_ids(
                names,
            )[j],
    decreases names.len(),
{
    if names.len() > 0 {
        let p = names.drop_last();
        law_collect_ids(p);
        let ids = collect_ids(p);
        assert forall|i: int|
            0 <= i < names.len() && schema_id_of(#[trigger] names[i]) is Some implies collect_ids(names).contains(
                schema_id_of(names[i])->0,
            ) by {
            let id = schema_id_of(names[i])->0;
            if i < p.len() {
                assert(p[i] == names[i]);
                assert(ids.contains(id));
                let k = choose|k: int| 0 <= k < ids.len() && ids[k] == id;
                assert(collect_ids(names)[k] == id);
            } else {
                if !ids.contains(id) {
                    assert(collect_ids(names)[ids.len() as int] == id);
                }
            }
        }
    }
}

/// Whether `a` sorts before `b`.
pub fn lex_less(a: &Vec<char>, b: &Vec<char>) -> (r: bool)
    ensures
        r == lex_lt(a@, b@),
{
    let mut i: usize = 0;
    while i < a.len() && i < b.len()
        invariant
            i <= a.len(),
            i <= b.len(),
            a@.subrange(0, i as int) == b@.subrange(0, i as int),
        decreases a.len() - i,
    {
        if a[i] != b[i] {
            proof {
                lemma_lex_skip(a@, b@, i as int);
                let a2 = a@.subrange(i as int, a.len() as int);
                let b2 = b@.subrange(i as int, b.len() as int);
                assert(a2[0] == a@[i as int]);
                assert(b2[0] == b@[i as int]);
            }
            return (a[i] as u32) < (b[i] as u32);
        }
        assert(a@.subrange(0, i + 1) =~= a@.subrange(0, i as int).push(a@[i as int]));
        assert(b@.subrange(0, i + 1) =~= b@.subrange(0, i as int).push(b@[i as int]));
        i = i + 1;
    }
    proof {
        lemma_lex_skip(a@, b@, i as int);
    }
    i < b.len()
}

fn ends_with_chars(s: &Vec<char>, suf: &Vec<char>) -> (r: bool)
    ensures
        r == ends_with(s@, suf@),
{
    if s.len() < suf.len() {
        return false;
    }
    let off = s.len() - suf.len();
    let mut i: usize = 0;
    while i < suf.len()
        invariant
            off == s.len() - suf.len(),
            i <= suf.len(),
            forall|j: int| 0 <= j < i ==> #[trigger] s@[off + j] == suf@[j],
        decreases suf.len() - i,
    {
        if s[off + i] != suf[i] {
            assert(s@.subrange(off as int, s.len() as int)[i as int] == s@[off + i]);
            return false;
        }
        i = i + 1;
    }
    assert forall|j: int| 0 <= j < suf.len() implies #[trigger] s@.subrange(off as int, s.len() as int)[j]
        == suf@[j] by {
        assert(s@[off + j] == suf@[j]);
    }
    assert(s@.subrange(off as int, s.len() as int) =~= suf@);
    true
}

fn starts_with_chars(s: &Vec<char>, p: &Vec<char>) -> (r: bool)
    ensures
        r == starts_with(s@, p@),
{
    if s.len() < p.len() {
        return false;
    }
    let mut i: usize = 0;
    while i < p.len()
        invariant
            p.len() <= s.len(),
            i <= p.len(),
            forall|j: int| 0 <= j < i ==> #[trigger] s@[j] == p@[j],
        decreases p.len() - i,
    {
        if s[i] != p[i] {
            assert(s@.subrange(0, p.len() as int)[i as int] == s@[i as int]);
            return false;
        }
        i = i + 1;
    }
    assert(s@.subrange(0, p.len() as int) =~= p@);
    true
}

pub fn contains_chars(s: &Vec<char>, p: &Vec<char>) -> (r: bool)
    ensures
        r == contains_text(s@, p@),
{
    if s.len() < p.len() {
        return false;
    }
    let mut i: usize = 0;
    while i <= s.len() - p.len()
        invariant
            p.len() <= s.len(),
            i <= s.len() - p.len() + 1,
            forall|k: int| 0 <= k < i ==> #[trigger] s@.subrange(k, k + p.len()) != p@,
        decreases s.len() - p.len() + 1 - i,
    {
        let mut j: usize = 0;
        let mut same = true;
        while j < p.len()
            invariant
                p.len() <= s.len(),
                i <= s.len() - p.len(),
                j <= p.len(),
                same == (forall|m: int| 0 <= m < j ==> #[trigger] s@[i + m] == p@[m]),
            decreases p.len() - j,
        {
            if s[i + j] != p[j] {
                same = false;
            }
            j = j + 1;
        }
        if same {
            assert forall|m: int| 0 <= m < p.len() implies #[trigger] s@.subrange(i as int, i + p.len())[m]
                == p@[m] by {
                assert(s@[i + m] == p@[m]);
            }
            assert(s@.subrange(i as int, i + p.len()) =~= p@);
            return true;
        }
        proof {
            assert(s@.subrange(i as int, i + p.len()) != p@) by {
                let m = choose|m: int| 0 <= m < p.len() && s@[i + m] != p@[m];
                assert(s@.subrange(i as int, i + p.len())[m] == s@[i + m]);
            }
        }
        i = i + 1;
    }
    false
}

fn is_preferred(id: &Vec<char>) -> (r: bool)
    ensures
        r == preferred(id@),
{
    let cj = chars_of("cangjie");
    let qk = chars_of("quick");
    let jy = chars_of("jyut");
    starts_with_chars(id, &cj) || starts_with_chars(id, &qk) || contains_chars(id, &jy)
}

fn contains_string(v: &Vec<String>, x: &String) -> (r: bool)
    ensures
        r == strings_view(v@).contains(x@),
{
    let mut i: usize = 0;
    while i < v.len()
        invariant
            i <= v.len(),
            forall|j: int| 0 <= j < i ==> #[trigger] v@[j]@ != x@,
        decreases v.len() - i,
    {
        if v[i] == *x {
            assert(strings_view(v@)[i as int] == x@);
            return true;
        }
        i = i + 1;
    }
    assert forall|j: int| 0 <= j < strings_view(v@).len() implies #[trigger] strings_view(v@)[j] != x@ by {
        assert(strings_view(v@)[j] == v@[j]@);
    }
    false
}

/// Schema ids found among file names: each `<id>.schema.yaml` once, in
/// the order first seen.
pub fn schema_ids(file_names: &Vec<String>) -> (ids: Vec<String>)
    ensures
        strings_view(ids@) == collect_ids(strings_view(file_names@)),
{
    let suffix = chars_of(".schema.yaml");
    proof {
        reveal_strlit(".schema.yaml");
    }
    assert(suffix@ =~= schema_suffix());
    let mut ids: Vec<String> = Vec::new();
    let mut i: usize = 0;
    while i < file_names.len()
        invariant
            i <= file_names.len(),
            suffix@ == schema_suffix(),
            strings_view(ids@) == collect_ids(strings_view(file_names@).take(i as int)),
        decreases file_names.len() - i,
    {
        let name = chars_of(file_names[i].as_str());
        proof {
            let nv = strings_view(file_names@);
            assert(nv.take(i + 1).drop_last() =~= nv.take(i as int));
            assert(nv.take(i + 1).last() == file_names@[i as int]@);
        }
        if ends_with_chars(&name, &suffix) {
            let n = name.len() - suffix.len();
            let mut idv: Vec<char> = Vec::new();
            let mut k: usize = 0;
            while k < n
                invariant
                    n <= name.len(),
                    k <= n,
                    idv@ == name@.subrange(0, k as int),
                decreases n - k,
            {
                idv.push(name[k]);
                assert(name@.subrange(0, k + 1) =~= name@.subrange(0, k as int).push(name@[k as int]));
                k = k + 1;
            }
            let id = string_from_chars(&idv);
            if !contains_string(&ids, &id) {
                let ghost before = ids@;
                ids.push(id);
                assert(strings_view(ids@) =~= strings_view(before).push(idv@));
            }
        }
        i = i + 1;
    }
    assert(strings_view(file_names@).take(file_names.len() as int) =~= strings_view(file_names@));
    ids
}

proof fn lemma_insert_lex_at(s: Seq<Seq<char>>, x: Seq<char>, k: int)
    requires
        0 <= k <= s.len(),
        forall|j: int| 0 <= j < k ==> !lex_lt(x, #[trigger] s[j]),
        k < s.len() ==> lex_lt(x, s[k]),
    ensures
        insert_lex(s, x) =~= s.insert(k, x),
    decreases s.len(),
{
    if s.len() > 0 && k > 0 {
        assert forall|j: int| 0 <= j < k - 1 implies !lex_lt(x, #[trigger] s.drop_first()[j]) by {
            assert(s.drop_first()[j] == s[j + 1]);
        }
        lemma_insert_lex_at(s.drop_first(), x, k - 1);
        assert(s.drop_first().insert(k - 1, x) =~= s.insert(k, x).drop_first());
    }
}

/// The ids in the order they are listed: sorted, preferred schemas first.
pub fn order_schema_ids(ids: &Vec<String>) -> (r: Vec<String>)
    ensures
        strings_view(r@) == schema_order(strings_view(ids@)),
{
    // Insertion sort.
    let mut sorted: Vec<String> = Vec::new();
    let mut i: usize = 0;
    while i < ids.len()
        invariant
            i <= ids.len(),
            strings_view(sorted@) == sort_lex(strings_view(ids@).take(i as int)),
        decreases ids.len() - i,
    {
        let x = ids[i].clone();
        let xc = chars_of(x.as_str());
        let mut k: usize = 0;
        while k < sorted.len()
            invariant
                k <= sorted.len(),
                xc@ == x@,
                forall|j: int| 0 <= j < k ==> !lex_lt(x@, #[trigger] strings_view(sorted@)[j]),
            ensures
                k <= sorted.len(),
                forall|j: int| 0 <= j < k ==> !lex_lt(x@, #[trigger] strings_view(sorted@)[j]),
                k < sorted.len() ==> lex_lt(x@, strings_view(sorted@)[k as int]),
            decreases sorted.len() - k,
        {
            let yc = chars_of(sorted[k].as_str());
            assert(strings_view(sorted@)[k as int] == sorted@[k as int]@);
            if lex_less(&xc, &yc) {
                break;
            }
            k = k + 1;
        }
        proof {
            let sv = strings_view(sorted@);
            if k < sorted.len() {
                assert(lex_lt(x@, sv[k as int]));
            }
            lemma_insert_lex_at(sv, x@, k as int);
            let iv = strings_view(ids@);
            assert(iv.take(i + 1).drop_last() =~= iv.take(i as int));
            assert(iv.take(i + 1).last() == ids@[i as int]@);
        }
        let ghost before = sorted@;
        sorted.insert(k, x);
        proof {
            let bv = strings_view(before);
            assert(strings_view(sorted@) =~= bv.insert(k as int, x@)) by {
                before.insert_ensures(k as int, x);
                assert forall|j: int| 0 <= j < sorted@.len() implies #[trigger] strings_view(sorted@)[j]
                    == bv.insert(k as int, x@)[j] by {
                    if j < k {
                        assert(sorted@[j] == before[j]);
                    } else if j > k {
                        assert(sorted@[j] == before[j - 1]);
                    }
                }
            }
        }
        i = i + 1;
    }
    assert(strings_view(ids@).take(ids.len() as int) =~= strings_view(ids@));
    let ghost sv = strings_view(sorted@);
    // Preferred first, then the rest, each in sorted order.
    let mut first: Vec<String> = Vec::new();
    let mut rest: Vec<String> = Vec::new();
    let mut j: usize = 0;
    while j < sorted.len()
        invariant
            j <= sorted.len(),
            sv == strings_view(sorted@),
            strings_view(first@) == keep_preferred(sv.take(j as int), true),
            strings_view(rest@) == keep_preferred(sv.take(j as int), false),
        decreases sorted.len() - j,
    {
        let c = chars_of(sorted[j].as_str());
        let p = is_preferred(&c);
        proof {
            assert(sv.take(j + 1).drop_last() =~= sv.take(j as int));
            assert(sv.take(j + 1).last() == sorted@[j as int]@);
        }
        let s = sorted[j].clone();
        if p {
            let ghost before = first@;
            first.push(s);
            assert(strings_view(first@) =~= strings_view(before).push(sorted@[j as int]@));
        } else {
            let ghost before = rest@;
            rest.push(s);
            assert(strings_view(rest@) =~= strings_view(before).push(sorted@[j as int]@));
        }
        j = j + 1;
    }
    assert(sv.take(sorted.len() as int) =~= sv);
    let mut out = first;
    let ghost fv = strings_view(out@);
    let mut m: usize = 0;
    while m < rest.len()
        invariant
            m <= rest.len(),
            strings_view(out@) == fv + strings_view(rest@).take(m as int),
        decreases rest.len() - m,
    {
        let ghost before = out@;
        out.push(rest[m].clone());
        assert(strings_view(out@) =~= strings_view(before).push(rest@[m as int]@));
        assert(strings_view(rest@).take(m + 1) =~= strings_view(rest@).take(m as int).push(rest@[m as int]@));
        m = m + 1;
    }
    assert(strings_view(rest@).take(rest.len() as int) =~= strings_view(rest@));
    out
}

/// The `default.custom.yaml` text listing `ids` (already ordered) and the
/// page size clamped into 1..=9.
pub fn default_custom_yaml(ids: &Vec<String>, page_size: usize) -> (y: String)
    ensures
        y@ == default_custom_text(strings_view(ids@), page_size as nat),
{
    let mut y = String::new();
    y.append(
        "# Generated by cosmic-ext-ime on first run. Edit freely; it is never overwritten.\n# Remove schemas you do not want from schema_list to speed up deployment.\npatch:\n  schema_list:\n",
    );
    let ghost head = y@;
    let mut i: usize = 0;
    while i < ids.len()
        invariant
            i <= ids.len(),
            head == yaml_header(),
            y@ == head + schema_list_text(strings_view(ids@).take(i as int)),
        decreases ids.len() - i,
    {
        let ghost before = y@;
        y.append("    - schema: ");
        y.append(ids[i].as_str());
        y.append("\n");
        proof {
            reveal_strlit("\n");
            let iv = strings_view(ids@);
            assert(iv.take(i + 1).drop_last() =~= iv.take(i as int));
            assert(iv.take(i + 1).last() == ids@[i as int]@);
            assert(y@ =~= head + schema_list_text(iv.take(i + 1)));
        }
        i = i + 1;
    }
    assert(strings_view(ids@).take(ids.len() as int) =~= strings_view(ids@));
    let ps: usize = if page_size < 1 {
        1
    } else if page_size > 9 {
        9
    } else {
        page_size
    };
    y.append("  menu/page_size: ");
    let d = decimal(ps as u128);
    y.append(d.as_str());
    y.append("\n");
    proof {
        reveal_strlit("\n");
    }
    y
}

/// The generated file for the schema files found (in the shared data
/// directory, then the user's), and how many schemas it lists.
pub fn default_custom(file_names: &Vec<String>, page_size: usize) -> (r: (String, usize))
    ensures
        r.0@ == default_custom_text(schema_order(collect_ids(strings_view(file_names@))), page_size as nat),
        r.1 == schema_order(collect_ids(strings_view(file_names@))).len(),
{
    let ids = schema_ids(file_names);
    let ordered = order_schema_ids(&ids);
    let y = default_custom_yaml(&ordered, page_size);
    (y, ordered.len())
}

} // verus!
