//! What the settings window decides: which value a menu entry stands for,
//! how toggles change the character sets, and which schema is selected.
use vstd::prelude::*;
use crate::config::{all_char_sets, CangjieVersion, CharSet, Engine, Mode, RimeSchema, RimeState};

verus! {

/// The engine for menu entry `i` (entries past the end pick the last).
pub fn engine_choice(i: usize) -> (e: Engine)
    ensures
        e == (if i == 0 {
            Engine::Cangjie
        } else {
            Engine::Rime
        }),
{
    if i == 0 {
        Engine::Cangjie
    } else {
        Engine::Rime
    }
}

/// The mode for menu entry `i` (entries past the end pick the last).
pub fn mode_choice(i: usize) -> (m: Mode)
    ensures
        m == (if i == 0 {
            Mode::Cangjie
        } else {
            Mode::Quick
        }),
{
    if i == 0 {
        Mode::Cangjie
    } else {
        Mode::Quick
    }
}

/// The Cangjie version for menu entry `i` (entries past the end pick the last).
pub fn version_choice(i: usize) -> (v: CangjieVersion)
    ensures
        v == (if i == 0 {
            CangjieVersion::V3
        } else {
            CangjieVersion::V5
        }),
{
    if i == 0 {
        CangjieVersion::V3
    } else {
        CangjieVersion::V5
    }
}

/// The schema id for schema menu entry `i`: entry 0 is RIME's default
/// (empty id), entry `k + 1` the `k`-th schema, anything else empty.
pub fn schema_choice(schemas: &Vec<RimeSchema>, i: usize) -> (id: String)
    ensures
        i == 0 ==> id@.len() == 0,
        i > 0 && i - 1 < schemas@.len() ==> id@ == schemas@[i - 1].id@,
        i > 0 && i - 1 >= schemas@.len() ==> id@.len() == 0,
{
    if i == 0 {
        String::new()
    } else if i - 1 < schemas.len() {
        schemas[i - 1].id.clone()
    } else {
        String::new()
    }
}

/// The selected schema menu entry: 0 for RIME's default, else one past the
/// configured schema's position, if it is listed.
pub fn schema_index(schemas: &Vec<RimeSchema>, configured: &String) -> (r: Option<usize>)
    ensures
        configured@.len() == 0 ==> r == Some(0usize),
        configured@.len() > 0 ==> match r {
            Some(k) => 1 <= k <= schemas@.len() && schemas@[k - 1].id@ == configured@ && forall|j: int|
                0 <= j < k - 1 ==> #[trigger] schemas@[j].id@ != configured@,
            None => forall|j: int| 0 <= j < schemas@.len() ==> #[trigger] schemas@[j].id@ != configured@,
        },
{
    if configured.as_str().is_empty() {
        return Some(0);
    }
    let mut j: usize = 0;
    while j < schemas.len()
        invariant
            j <= schemas.len(),
            configured@.len() > 0,
            forall|m: int| 0 <= m < j ==> #[trigger] schemas@[m].id@ != configured@,
        decreases schemas.len() - j,
    {
        if schemas[j].id == *configured {
            return Some(j + 1);
        }
        j = j + 1;
    }
    None
}

/// Page size entered in the settings: clamped into 1..=9.
pub fn page_size_choice(n: u32) -> (r: u32)
    ensures
        r == (if n < 1 {
            1
        } else if n > 9 {
            9
        } else {
            n
        }),
{
    if n < 1 {
        1
    } else if n > 9 {
        9
    } else {
        n
    }
}

/// Popup font size entered in the settings: clamped into 8..=48.
pub fn font_size_choice(n: u32) -> (r: u32)
    ensures
        r == (if n < 8 {
            8
        } else if n > 48 {
            48
        } else {
            n
        }),
{
    if n < 8 {
        8
    } else if n > 48 {
        48
    } else {
        n
    }
}

/// Sets other than `x`.
pub open spec fn other_than(x: CharSet) -> spec_fn(CharSet) -> bool {
    |c: CharSet| c != x
}

/// The set `x`.
pub open spec fn same_as(x: CharSet) -> spec_fn(CharSet) -> bool {
    |c: CharSet| c == x
}

/// `s` without `x`, then `x` appended when `on`.
pub open spec fn toggled(s: Seq<CharSet>, x: CharSet, on: bool) -> Seq<CharSet> {
    let kept = s.filter(other_than(x));
    if on {
        kept.push(x)
    } else {
        kept
    }
}

/// The elements of `s` equal to the first `k` sets of the menu order,
/// grouped in menu order.
pub open spec fn menu_order(s: Seq<CharSet>, k: nat) -> Seq<CharSet>
    decreases k,
{
    if k == 0 {
        Seq::empty()
    } else {
        menu_order(s, (k - 1) as nat) + s.filter(same_as(all_char_sets()[k - 1]))
    }
}

fn keep_equal(s: &Vec<CharSet>, x: CharSet, out: &mut Vec<CharSet>)
    ensures
        final(out)@ == old(out)@ + s@.filter(same_as(x)),
{
    let ghost start = out@;
    let mut i: usize = 0;
    while i < s.len()
        invariant
            i <= s.len(),
            out@ == start + s@.take(i as int).filter(same_as(x)),
        decreases s.len() - i,
    {
        proof {
            assert(s@.take(i + 1) =~= s@.take(i as int).push(s@[i as int]));
            s@.take(i as int).lemma_filter_push(s@[i as int], same_as(x));
        }
        if s[i] == x {
            out.push(x);
        }
        i = i + 1;
    }
    assert(s@.take(s.len() as int) =~= s@);
}

/// The character sets after switching `set` on or off: the others kept,
/// `set` present exactly when on, all in menu order.
pub fn toggle_char_set(sets: &Vec<CharSet>, set: CharSet, on: bool) -> (r: Vec<CharSet>)
    ensures
        r@ == menu_order(toggled(sets@, set, on), 9),
{
    let mut kept: Vec<CharSet> = Vec::new();
    let mut i: usize = 0;
    while i < sets.len()
        invariant
            i <= sets.len(),
            kept@ == sets@.take(i as int).filter(other_than(set)),
        decreases sets.len() - i,
    {
        proof {
            assert(sets@.take(i + 1) =~= sets@.take(i as int).push(sets@[i as int]));
            sets@.take(i as int).lemma_filter_push(sets@[i as int], other_than(set));
        }
        if sets[i] != set {
            kept.push(sets[i]);
        }
        i = i + 1;
    }
    assert(sets@.take(sets.len() as int) =~= sets@);
    if on {
        kept.push(set);
    }
    let all = CharSet::all();
    let mut out: Vec<CharSet> = Vec::new();
    let mut k: usize = 0;
    while k < 9
        invariant
            k <= 9,
            all@ == all_char_sets(),
            kept@ == toggled(sets@, set, on),
            out@ == menu_order(kept@, k as nat),
        decreases 9 - k,
    {
        keep_equal(&kept, all[k], &mut out);
        assert(all[k as int] == all_char_sets()[k as int]);
        k = k + 1;
    }
    out
}

/// The hint under the schema menu: RIME's error if it failed, else whether
/// the schema list is still to come.
pub fn rime_hint(state: &RimeState) -> (h: String)
    ensures
        state.error@.len() > 0 ==> h@ == state.error@,
        state.error@.len() == 0 && state.schemas@.len() == 0 ==> h@
            == "Schema list appears once the RIME engine has started (a few seconds after selecting it)."@,
        state.error@.len() == 0 && state.schemas@.len() > 0 ==> h@
            == "Schemas come from /usr/share/rime-data and ~/.local/share/cosmic-ext-ime/rime; edit default.custom.yaml there to add or remove them."@,
{
    if !state.error.as_str().is_empty() {
        state.error.clone()
    } else if state.schemas.len() == 0 {
        "Schema list appears once the RIME engine has started (a few seconds after selecting it).".to_owned()
    } else {
        "Schemas come from /usr/share/rime-data and ~/.local/share/cosmic-ext-ime/rime; edit default.custom.yaml there to add or remove them.".to_owned()
    }
}

/// Labels of the schema menu: RIME's default first, then "name (id)" for
/// each schema.
pub fn schema_labels(schemas: &Vec<RimeSchema>) -> (labels: Vec<String>)
    ensures
        labels@.len() == schemas@.len() + 1,
        labels@[0]@ == "RIME 預設 (default)"@,
        forall|i: int|
            0 <= i < schemas@.len() ==> #[trigger] labels@[i + 1]@ == schemas@[i].name@ + " ("@
                + schemas@[i].id@ + ")"@,
{
    let mut labels: Vec<String> = Vec::new();
    labels.push("RIME 預設 (default)".to_owned());
    let mut i: usize = 0;
    while i < schemas.len()
        invariant
            i <= schemas.len(),
            labels@.len() == i + 1,
            labels@[0]@ == "RIME 預設 (default)"@,
            forall|j: int|
                0 <= j < i ==> #[trigger] labels@[j + 1]@ == schemas@[j].name@ + " ("@
                    + schemas@[j].id@ + ")"@,
        decreases schemas.len() - i,
    {
        let mut l = schemas[i].name.clone();
        l.append(" (");
        l.append(schemas[i].id.as_str());
        l.append(")");
        labels.push(l);
        i = i + 1;
    }
    labels
}

} // verus!
