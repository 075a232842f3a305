//! Properties of Cangjie/Quick key handling that hold in every state.
use vstd::prelude::*;
use crate::engine::{Key, KeyInput, Modifiers, ResponseView};
use crate::cangjie::engine::{comp_ok, CangjieEngine};
use crate::cangjie::db::CharView;
use crate::cangjie::model::{
    ask, done, idle, is_input_key, max_input_len, page_slice, radicals_of, ranked_candidates,
    sp_key, sp_merge, sp_page_down, sp_page_up, sp_push, sp_resume, total_pages, Composition, Mode, PendingKind, PendingView, Setup, StepView,
};

verus! {

/// A key press with no modifiers.
pub open spec fn plain(key: Key) -> KeyInput {
    KeyInput { key, modifiers: Modifiers { shift: false, ctrl: false, alt: false, logo: false } }
}

/// Chords with Ctrl, Alt or Super belong to the application: they are
/// ignored and change nothing.
pub proof fn law_chords_pass_through(su: Setup, s: Composition, input: KeyInput)
    requires
        input.modifiers.ctrl || input.modifiers.alt || input.modifiers.logo,
    ensures
        sp_key(su, s, input) == done(s, ResponseView::Ignored),
{
}

/// Escape while composing discards everything and is consumed; with nothing
/// typed it is forwarded.
pub proof fn law_escape(su: Setup, s: Composition)
    ensures
        s.input.len() > 0 ==> sp_key(su, s, plain(Key::Escape)) == done(idle(), ResponseView::Consumed),
        s.input.len() == 0 ==> sp_key(su, s, plain(Key::Escape)) == done(s, ResponseView::Ignored),
{
}

/// Enter, Tab, the arrows left and right, and modifier keys are forwarded
/// untouched.
pub proof fn law_forwarded_keys(su: Setup, s: Composition, key: Key)
    requires
        key is Enter || key is Tab || key is Left || key is Right || key is Modifier || key is Other,
    ensures
        sp_key(su, s, plain(key)) == done(s, ResponseView::Ignored),
{
}

/// Backspace drops exactly the last typed key and the candidates.
pub proof fn law_backspace(su: Setup, s: Composition)
    requires
        s.input.len() > 0,
    ensures
        sp_key(su, s, plain(Key::Backspace)).state == (Composition {
            input: s.input.drop_last(),
            cands: Seq::empty(),
            page: 0,
            clear: false,
        }),
        sp_key(su, s, plain(Key::Backspace)).step == StepView::Done(ResponseView::Consumed),
{
}

/// In Cangjie mode, typing a radical key and then Backspace gives back the
/// keys typed before, when no candidates were shown, the code had room and
/// the last lookup had not failed.
pub proof fn law_backspace_undoes_key(su: Setup, s: Composition, c: char)
    requires
        su.mode == Mode::Cangjie,
        is_input_key(su, c),
        s.cands.len() == 0,
        !s.clear,
        s.input.len() < max_input_len(su.mode),
    ensures
        sp_key(su, s, plain(Key::Char(c))).step == StepView::Done(ResponseView::Consumed),
        sp_key(su, sp_key(su, s, plain(Key::Char(c))).state, plain(Key::Backspace)).state.input
            == s.input,
{
    assert(s.input.push(c).drop_last() =~= s.input);
}

/// Page down then page up returns to the same page, and the other way round.
pub proof fn law_paging_round_trip(su: Setup, s: Composition)
    requires
        comp_ok(su, s),
        s.cands.len() > 0,
    ensures
        sp_page_up(su, sp_page_down(su, s).0).0 == s,
        sp_page_down(su, sp_page_up(su, s).0).0 == s,
        sp_page_down(su, s).1 == ResponseView::Consumed,
{
    let t = total_pages(s.cands.len(), su.page_size) as int;
    let p = s.page;
    let d = (p + 1) % t;
    let u = (p + t - 1) % t;
    if p + 1 < t {
        vstd::arithmetic::div_mod::lemma_small_mod((p + 1) as nat, t as nat);
        vstd::arithmetic::div_mod::lemma_mod_add_multiples_vanish(p, t);
        vstd::arithmetic::div_mod::lemma_small_mod(p as nat, t as nat);
    } else {
        vstd::arithmetic::div_mod::lemma_mod_self_0(t);
        vstd::arithmetic::div_mod::lemma_small_mod((t - 1) as nat, t as nat);
    }
    if p > 0 {
        vstd::arithmetic::div_mod::lemma_mod_add_multiples_vanish(p - 1, t);
        vstd::arithmetic::div_mod::lemma_small_mod((p - 1) as nat, t as nat);
        vstd::arithmetic::div_mod::lemma_small_mod(p as nat, t as nat);
    } else {
        vstd::arithmetic::div_mod::lemma_small_mod((t - 1) as nat, t as nat);
        vstd::arithmetic::div_mod::lemma_mod_self_0(t);
    }
}

/// With candidates shown, typing a new radical key in Cangjie mode commits
/// the first candidate on the page and starts a new code with that key.
pub proof fn law_new_key_commits_first(su: Setup, s: Composition, c: char)
    requires
        comp_ok(su, s),
        su.mode == Mode::Cangjie,
        is_input_key(su, c),
        s.cands.len() > 0,
    ensures
        sp_key(su, s, plain(Key::Char(c))) == done(
            Composition { input: seq![c], cands: Seq::empty(), page: 0, clear: false },
            ResponseView::Commit(page_slice(s, su.page_size)[0].text),
        ),
{
    crate::cangjie::engine::lemma_page_nonempty(su, s);
    assert(idle().input.push(c) =~= seq![c]);
}

/// Space with all candidates on one page commits the first of them and
/// leaves the engine idle.
pub proof fn law_space_commits_single_page(su: Setup, s: Composition)
    requires
        comp_ok(su, s),
        s.cands.len() > 0,
        s.cands.len() <= su.page_size,
    ensures
        sp_key(su, s, plain(Key::Space)) == done(idle(), ResponseView::Commit(s.cands[0].text)),
{
    crate::cangjie::engine::lemma_page_nonempty(su, s);
    let n = s.cands.len() as int;
    let ps = su.page_size as int;
    assert((n - 1) / ps == 0) by (nonlinear_arith)
        requires
            0 <= n - 1 < ps,
    ;
    assert(s.page == 0);
    let pg = s.page;
    assert(pg * ps == 0) by (nonlinear_arith)
        requires
            pg == 0,
    ;
    assert(crate::cangjie::model::page_start(s, su.page_size) == 0);
    assert(crate::cangjie::model::page_end(s, su.page_size) == n);
    assert(page_slice(s, su.page_size)[0] == s.cands[0]);
}

/// In Quick mode, the second radical key asks for a lookup of the first
/// key, a wildcard, and the second key.
pub proof fn law_quick_looks_up_first_and_last(su: Setup, s: Composition, c: char)
    requires
        su.mode == Mode::Quick,
        is_input_key(su, c),
        s.input.len() == 1,
        s.cands.len() == 0,
        !s.clear,
    ensures
        sp_key(su, s, plain(Key::Char(c))).step == StepView::Lookup(seq![s.input[0], '*', c], false),
        sp_key(su, s, plain(Key::Char(c))).pending == Some(
            PendingView { committed: None, kind: PendingKind::Input },
        ),
{
    let i2 = s.input.push(c);
    assert(i2.drop_last() =~= s.input);
    assert(i2.len() == 2);
    assert(crate::cangjie::model::join_star(i2.drop_last()) == s.input);
    assert(crate::cangjie::model::join_star(i2) =~= seq![s.input[0], '*', c]);
}

/// With full-width characters off, punctuation typed while idle is forwarded.
pub proof fn law_halfwidth_forwards(su: Setup, c: char)
    requires
        !su.fullwidth,
        !is_input_key(su, c),
        c != '*',
        !('0' <= c && c <= '9'),
    ensures
        sp_key(su, idle(), plain(Key::Char(c))) == done(idle(), ResponseView::Ignored),
{
}


/// `*` is the wildcard after the first key in Cangjie mode: it is appended to
/// the code and shown as a full-width star. With nothing typed, in either
/// mode, it is punctuation looked up in the shortcode table.
pub proof fn law_star_wildcard(su: Setup, s: Composition)
    requires
        su.mode == Mode::Cangjie,
        s.input.len() > 0,
        s.input.len() < max_input_len(su.mode),
        s.cands.len() == 0,
        !s.clear,
    ensures
        sp_key(su, s, plain(Key::Char('*'))) == done(
            Composition { input: s.input.push('*'), ..s },
            ResponseView::Consumed,
        ),
        radicals_of(su, s.input.push('*')) == radicals_of(su, s.input) + seq!['\u{FF0A}'],
        su.fullwidth ==> sp_key(su, idle(), plain(Key::Char('*'))).step == StepView::Lookup(
            seq!['*'],
            true,
        ),
        su.fullwidth ==> sp_key(
            Setup { mode: Mode::Quick, ..su },
            idle(),
            plain(Key::Char('*')),
        ).step == StepView::Lookup(seq!['*'], true),
{
    assert(s.input.push('*').drop_last() =~= s.input);
}


/// Space is the power key: with keys typed and nothing shown it asks for a
/// lookup; with more candidates than fit on a page it turns the page.
pub proof fn law_space_looks_up_then_pages(su: Setup, s: Composition)
    requires
        s.input.len() > 0,
    ensures
        s.cands.len() == 0 ==> sp_key(su, s, plain(Key::Space)) == ask(su, s, None, PendingKind::Input),
        s.cands.len() > su.page_size ==> sp_key(su, s, plain(Key::Space)) == done(
            sp_page_down(su, s).0,
            ResponseView::Consumed,
        ),
{
}

/// A lookup with a single match commits it at once and leaves the engine
/// idle.
pub proof fn law_unique_match_commits(su: Setup, s: Composition, chars: Seq<CharView>)
    requires
        su.page_size > 0,
        ranked_candidates(su, chars).len() == 1,
    ensures
        sp_resume(su, s, PendingView { committed: None, kind: PendingKind::Input }, Ok(chars))
            == done(idle(), ResponseView::Commit(ranked_candidates(su, chars)[0].text)),
{
    let s1 = Composition { input: s.input, cands: ranked_candidates(su, chars), page: 0, clear: s.clear };
    assert(chars.len() > 0) by {
        if chars.len() == 0 {
            assert(crate::cangjie::rank::rank(chars) =~= Seq::<CharView>::empty());
        }
    }
    let ps = su.page_size as int;
    assert(0 * ps == 0);
    assert(crate::cangjie::model::page_start(s1, su.page_size) == 0);
    assert(crate::cangjie::model::page_end(s1, su.page_size) == 1);
    assert(page_slice(s1, su.page_size).len() == 1);
}


/// Adding a key to the code: after a failed lookup the engine first starts
/// over; a full code (five keys in Cangjie, two in Quick) stays as it is and
/// the key is refused; otherwise the key is appended.
pub proof fn law_push_key(su: Setup, s: Composition, c: char)
    ensures
        ({
            let s1 = if s.clear {
                idle()
            } else {
                s
            };
            &&& s1.input.len() >= max_input_len(su.mode) ==> sp_push(su, s, c) == (s1, false)
            &&& s1.input.len() < max_input_len(su.mode) ==> sp_push(su, s, c).1 && sp_push(su, s, c).0.input
                == s1.input.push(c)
        }),
{
}

/// No key and no lookup answer ever makes the code longer than five keys in
/// Cangjie or two in Quick.
pub proof fn law_code_length_bounded(
    su: Setup,
    s: Composition,
    input: KeyInput,
    res: Result<Seq<CharView>, crate::cangjie::db::CangjieError>,
)
    requires
        comp_ok(su, s),
    ensures
        sp_key(su, s, input).state.input.len() <= max_input_len(su.mode),
        sp_key(su, s, input).step is Lookup ==> sp_resume(
            su,
            sp_key(su, s, input).state,
            sp_key(su, s, input).pending.unwrap(),
            res,
        ).state.input.len() <= max_input_len(su.mode),
{
    crate::cangjie::engine::lemma_key_ok(su, s, input);
    let o = sp_key(su, s, input);
    if o.step is Lookup {
        crate::cangjie::engine::lemma_resume_ok(su, o.state, o.pending.unwrap(), res);
    }
}


/// Every engine reachable through its operations holds at most five typed
/// keys in Cangjie and two in Quick, its page lies within the candidates'
/// pages, and it shows candidates only while keys are typed.
pub proof fn law_engine_bounds(e: &CangjieEngine)
    requires
        e.wf(),
    ensures
        e.state().input.len() <= max_input_len(e.config().mode),
        0 <= e.state().page < total_pages(e.state().cands.len(), e.config().page_size as nat),
        e.state().cands.len() > 0 ==> e.state().input.len() > 0,
{
}

/// Page Down then Page Up gives back the state it started from, both keys
/// consumed, while candidates are shown; with none shown both keys are
/// forwarded and change nothing.
pub proof fn law_page_keys_round_trip(su: Setup, s: Composition)
    requires
        comp_ok(su, s),
    ensures
        s.cands.len() > 0 ==> sp_key(su, s, plain(Key::PageDown)).step == StepView::Done(ResponseView::Consumed)
            && sp_key(su, s, plain(Key::PageDown)).state.input == s.input
            && sp_key(su, s, plain(Key::PageDown)).state.cands == s.cands
            && comp_ok(su, sp_key(su, s, plain(Key::PageDown)).state)
            && sp_key(su, sp_key(su, s, plain(Key::PageDown)).state, plain(Key::PageUp)) == done(
                s,
                ResponseView::Consumed,
            ),
        s.cands.len() == 0 ==> sp_key(su, s, plain(Key::PageDown)) == done(s, ResponseView::Ignored)
            && sp_key(su, s, plain(Key::PageUp)) == done(s, ResponseView::Ignored),
{
    crate::cangjie::engine::lemma_key_ok(su, s, plain(Key::PageDown));
    if s.cands.len() > 0 {
        law_paging_round_trip(su, s);
    }
}


/// A digit 1–9 while candidates are shown commits the candidate with that
/// number on the page being shown — index `page * page_size + digit - 1` of
/// the whole list — and leaves the engine idle.
pub proof fn law_digit_picks_on_shown_page(su: Setup, s: Composition, d: char)
    requires
        comp_ok(su, s),
        s.cands.len() > 0,
        '1' <= d <= '9',
        (d as int - '1' as int) < su.page_size,
        s.page * su.page_size + (d as int - '1' as int) < s.cands.len(),
    ensures
        sp_key(su, s, plain(Key::Char(d))) == done(
            idle(),
            ResponseView::Commit(s.cands[s.page * su.page_size + (d as int - '1' as int)].text),
        ),
{
    crate::cangjie::engine::lemma_page_nonempty(su, s);
    let k = d as int - '1' as int;
    let start = s.page * su.page_size;
    let sl = page_slice(s, su.page_size);
    assert(sl.len() > k);
    assert(sl[k] == s.cands[start + k]);
}

/// Page Down shows the next page, and after the last page the first; Page
/// Up shows the previous page, and before the first the last. Typed keys and
/// candidates stay.
pub proof fn law_page_keys_move_one_page(su: Setup, s: Composition)
    requires
        comp_ok(su, s),
        s.cands.len() > 0,
    ensures
        sp_key(su, s, plain(Key::PageDown)).state.page == (if s.page + 1 < total_pages(
            s.cands.len(),
            su.page_size,
        ) {
            s.page + 1
        } else {
            0
        }),
        sp_key(su, s, plain(Key::PageUp)).state.page == (if s.page > 0 {
            s.page - 1
        } else {
            total_pages(s.cands.len(), su.page_size) - 1
        }),
        sp_key(su, s, plain(Key::Down)) == sp_key(su, s, plain(Key::PageDown)),
        sp_key(su, s, plain(Key::Up)) == sp_key(su, s, plain(Key::PageUp)),
        sp_key(su, s, plain(Key::PageDown)).state.input == s.input,
        sp_key(su, s, plain(Key::PageDown)).state.cands == s.cands,
        sp_key(su, s, plain(Key::PageUp)).state.input == s.input,
        sp_key(su, s, plain(Key::PageUp)).state.cands == s.cands,
{
    let t = total_pages(s.cands.len(), su.page_size) as int;
    let p = s.page;
    if p + 1 < t {
        vstd::arithmetic::div_mod::lemma_small_mod((p + 1) as nat, t as nat);
    } else {
        vstd::arithmetic::div_mod::lemma_mod_self_0(t);
    }
    if p > 0 {
        vstd::arithmetic::div_mod::lemma_mod_add_multiples_vanish(p - 1, t);
        vstd::arithmetic::div_mod::lemma_small_mod((p - 1) as nat, t as nat);
    } else {
        vstd::arithmetic::div_mod::lemma_small_mod((t - 1) as nat, t as nat);
    }
}


/// A Cangjie code holds at most five keys and a Quick code two.
pub proof fn law_code_lengths()
    ensures
        max_input_len(Mode::Cangjie) == 5,
        max_input_len(Mode::Quick) == 2,
{
}

/// Text committed earlier while handling a key comes first in the key's
/// final response: a forwarded key is still forwarded after it, a consumed
/// key or a bell becomes that commit, and a later commit is appended.
pub proof fn law_merge_commit(t: Seq<char>, u: Seq<char>, r: ResponseView)
    ensures
        sp_merge(None, r) == r,
        sp_merge(Some(t), ResponseView::Ignored) == ResponseView::CommitAndForward(t),
        sp_merge(Some(t), ResponseView::Consumed) == ResponseView::Commit(t),
        sp_merge(Some(t), ResponseView::Bell) == ResponseView::Commit(t),
        sp_merge(Some(t), ResponseView::Commit(u)) == ResponseView::Commit(t + u),
        sp_merge(Some(t), ResponseView::CommitAndForward(u)) == ResponseView::CommitAndForward(t + u),
{
}

} // verus!
