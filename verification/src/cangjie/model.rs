//! The Cangjie/Quick key-handling rules as functions on plain states.
//!
//! Key handling mirrors ibus-cangjie: Space is the "power key", typing a new
//! key auto-commits the first candidate, and full-width punctuation comes from
//! libcangjie's shortcode table.
use vstd::prelude::*;
use crate::engine::{CandidateView, Key, KeyInput, ResponseView};
use crate::cangjie::db::{CangjieError, CharView};
use crate::cangjie::rank::rank;

verus! {

/// Input style.
#[derive(Debug, Clone, Copy, PartialEq, Eq, Structural)]
pub enum Mode {
    /// Full Cangjie: up to five keys, `*` wildcard, lookup on Space.
    Cangjie,
    /// Quick (速成): first and last key, lookup as soon as two keys are typed.
    Quick,
}

/// What an engine is built with and never changes by typing.
pub struct Setup {
    pub mode: Mode,
    pub page_size: nat,
    pub fullwidth: bool,
    /// Radical shown for each input key, first entry wins.
    pub radicals: Seq<(char, Seq<char>)>,
    /// Keys the database accepts as radicals.
    pub keys: Seq<char>,
}

/// The visible composition: typed keys, candidates, current page, and
/// whether the next key starts over (after a failed lookup).
pub struct Composition {
    pub input: Seq<char>,
    pub cands: Seq<CandidateView>,
    pub page: int,
    pub clear: bool,
}

/// Where key handling resumes once the database answered.
#[derive(Debug, Clone, Copy, PartialEq, Eq, Structural)]
pub enum PendingKind {
    /// Lookup of the typed keys; its response is the key's response.
    Input,
    /// Full-width lookup of one character; an empty answer forwards the key.
    Fullwidth,
    /// Lookup of the typed keys before handling this non-radical key.
    OtherKey(char),
}

/// A suspended key: text already committed by it, and how to go on.
pub struct PendingView {
    pub committed: Option<Seq<char>>,
    pub kind: PendingKind,
}

/// What handling a key asks of the caller next.
pub enum StepView {
    Done(ResponseView),
    /// Look up `code` (in the shortcode table when the flag is set).
    Lookup(Seq<char>, bool),
}

/// The result of handling a key or a lookup answer.
pub struct Outcome {
    pub state: Composition,
    pub pending: Option<PendingView>,
    pub step: StepView,
}

/// Keys per code: five for Cangjie, first-and-last for Quick.
pub open spec fn max_input_len(mode: Mode) -> nat {
    match mode {
        Mode::Cangjie => 5,
        Mode::Quick => 2,
    }
}

/// A lowercase letter that the database accepts as a radical key.
pub open spec fn is_input_key(su: Setup, c: char) -> bool {
    'a' <= c && c <= 'z' && su.keys.contains(c)
}

/// The radical of the first entry of `t` for `c`.
pub open spec fn table_lookup(t: Seq<(char, Seq<char>)>, c: char) -> Option<Seq<char>>
    decreases t.len(),
{
    if t.len() == 0 {
        None
    } else if t[0].0 == c {
        Some(t[0].1)
    } else {
        table_lookup(t.drop_first(), c)
    }
}

/// How one typed key is shown: `*` as a full-width star, a radical key as its
/// radical, anything else as itself.
pub open spec fn radical_text(su: Setup, c: char) -> Seq<char> {
    if c == '*' {
        seq!['\u{FF0A}']
    } else {
        match table_lookup(su.radicals, c) {
            Some(r) => r,
            None => seq![c],
        }
    }
}

/// The radicals of a key sequence, one after the other.
pub open spec fn radicals_of(su: Setup, code: Seq<char>) -> Seq<char>
    decreases code.len(),
{
    if code.len() == 0 {
        Seq::empty()
    } else {
        radicals_of(su, code.drop_last()) + radical_text(su, code.last())
    }
}

/// The keys joined by `*` wildcards (Quick looks up first-any-last).
pub open spec fn join_star(keys: Seq<char>) -> Seq<char>
    decreases keys.len(),
{
    if keys.len() == 0 {
        Seq::empty()
    } else if keys.len() == 1 {
        keys
    } else {
        join_star(keys.drop_last()) + seq!['*', keys.last()]
    }
}

/// The code looked up for the typed keys.
pub open spec fn lookup_code(su: Setup, input: Seq<char>) -> Seq<char> {
    match su.mode {
        Mode::Quick => join_star(input),
        Mode::Cangjie => input,
    }
}

/// A lone non-radical key is punctuation whose full-width lookup returned
/// several choices: look it up in the shortcode table again.
pub open spec fn by_shortcode(su: Setup, input: Seq<char>) -> bool {
    input.len() == 1 && !is_input_key(su, input[0])
}

/// Candidates for a lookup result: ranked rows, with their radicals as hint.
pub open spec fn ranked_candidates(su: Setup, chars: Seq<CharView>) -> Seq<CandidateView> {
    rank(chars).map_values(
        |c: CharView| CandidateView { text: c.chchar, hint: Some(radicals_of(su, c.code)) },
    )
}

/// Number of pages of `n` candidates, at least one.
pub open spec fn total_pages(n: nat, page_size: nat) -> nat {
    if n == 0 {
        1
    } else {
        ((n - 1) as nat / page_size + 1) as nat
    }
}

/// Index of the first candidate on the current page.
pub open spec fn page_start(s: Composition, page_size: nat) -> int {
    let n = s.cands.len() as int;
    if s.page * page_size < n {
        s.page * page_size
    } else {
        n
    }
}

/// Index past the last candidate on the current page.
pub open spec fn page_end(s: Composition, page_size: nat) -> int {
    let n = s.cands.len() as int;
    let start = page_start(s, page_size);
    if start + page_size < n {
        start + page_size
    } else {
        n
    }
}

/// The candidates on the current page.
pub open spec fn page_slice(s: Composition, page_size: nat) -> Seq<CandidateView> {
    s.cands.subrange(page_start(s, page_size), page_end(s, page_size))
}

/// Nothing typed, nothing shown.
pub open spec fn idle() -> Composition {
    Composition { input: Seq::empty(), cands: Seq::empty(), page: 0, clear: false }
}

/// Commit the candidate at `i` on the current page and start over; an index
/// past the page does nothing.
pub open spec fn sp_select(su: Setup, s: Composition, i: int) -> (Composition, ResponseView) {
    let sl = page_slice(s, su.page_size);
    if 0 <= i < sl.len() {
        (idle(), ResponseView::Commit(sl[i].text))
    } else {
        (s, ResponseView::Consumed)
    }
}

/// Append a key (after starting over if the last lookup failed); refused
/// once the code is full.
pub open spec fn sp_push(su: Setup, s: Composition, c: char) -> (Composition, bool) {
    let s1 = if s.clear {
        idle()
    } else {
        s
    };
    if s1.input.len() >= max_input_len(su.mode) {
        (s1, false)
    } else {
        (Composition { input: s1.input.push(c), cands: s1.cands, page: s1.page, clear: s1.clear }, true)
    }
}

/// Take a lookup result: show the ranked candidates (committing a lone one),
/// or ring the bell; an empty or invalid lookup also starts over on the next key.
pub open spec fn sp_apply(
    su: Setup,
    s: Composition,
    res: Result<Seq<CharView>, CangjieError>,
) -> (Composition, ResponseView) {
    match res {
        Ok(chars) => {
            if chars.len() > 0 {
                let s1 = Composition {
                    input: s.input,
                    cands: ranked_candidates(su, chars),
                    page: 0,
                    clear: s.clear,
                };
                if s1.cands.len() == 1 {
                    sp_select(su, s1, 0)
                } else {
                    (s1, ResponseView::Consumed)
                }
            } else {
                (
                    Composition { input: s.input, cands: Seq::empty(), page: s.page, clear: true },
                    ResponseView::Bell,
                )
            }
        },
        Err(CangjieError::Invalid) => (
            Composition { input: s.input, cands: Seq::empty(), page: s.page, clear: true },
            ResponseView::Bell,
        ),
        Err(_) => (
            Composition { input: s.input, cands: Seq::empty(), page: s.page, clear: s.clear },
            ResponseView::Bell,
        ),
    }
}

/// Fold text committed earlier while handling a key into that key's final
/// response: it goes first, and a forwarded key is still forwarded.
pub open spec fn sp_merge(committed: Option<Seq<char>>, r: ResponseView) -> ResponseView {
    match committed {
        None => r,
        Some(t) => match r {
            ResponseView::Ignored => ResponseView::CommitAndForward(t),
            ResponseView::Consumed => ResponseView::Commit(t),
            ResponseView::Bell => ResponseView::Commit(t),
            ResponseView::Commit(u) => ResponseView::Commit(t + u),
            ResponseView::CommitAndForward(u) => ResponseView::CommitAndForward(t + u),
        },
    }
}

/// The committed text of a response, if it is a `Commit`.
pub open spec fn commit_text(r: ResponseView) -> Option<Seq<char>> {
    match r {
        ResponseView::Commit(t) => Some(t),
        _ => None,
    }
}

/// Finished with `r`.
pub open spec fn done(s: Composition, r: ResponseView) -> Outcome {
    Outcome { state: s, pending: None, step: StepView::Done(r) }
}

/// Suspended on a lookup of the typed keys.
pub open spec fn ask(
    su: Setup,
    s: Composition,
    committed: Option<Seq<char>>,
    kind: PendingKind,
) -> Outcome {
    Outcome {
        state: s,
        pending: Some(PendingView { committed, kind }),
        step: StepView::Lookup(lookup_code(su, s.input), by_shortcode(su, s.input)),
    }
}

/// Next page, wrapping around; nothing to page through is not ours.
pub open spec fn sp_page_down(su: Setup, s: Composition) -> (Composition, ResponseView) {
    if s.cands.len() == 0 {
        (s, ResponseView::Ignored)
    } else {
        let t = total_pages(s.cands.len(), su.page_size) as int;
        (
            Composition { input: s.input, cands: s.cands, page: (s.page + 1) % t, clear: s.clear },
            ResponseView::Consumed,
        )
    }
}

/// Previous page, wrapping around.
pub open spec fn sp_page_up(su: Setup, s: Composition) -> (Composition, ResponseView) {
    if s.cands.len() == 0 {
        (s, ResponseView::Ignored)
    } else {
        let t = total_pages(s.cands.len(), su.page_size) as int;
        (
            Composition {
                input: s.input,
                cands: s.cands,
                page: (s.page + t - 1) % t,
                clear: s.clear,
            },
            ResponseView::Consumed,
        )
    }
}

/// Commit the full-width form of `c` from the shortcode table (forwarding
/// it when full-width characters are off or the table has none).
pub open spec fn sp_fullwidth(
    su: Setup,
    s: Composition,
    c: char,
    committed: Option<Seq<char>>,
) -> Outcome {
    if !su.fullwidth {
        done(s, sp_merge(committed, ResponseView::Ignored))
    } else {
        let (s1, ok) = sp_push(su, s, c);
        if !ok {
            done(s1, sp_merge(committed, ResponseView::Bell))
        } else {
            Outcome {
                state: s1,
                pending: Some(PendingView { committed, kind: PendingKind::Fullwidth }),
                step: StepView::Lookup(seq![c], true),
            }
        }
    }
}

/// A radical key: commit the first shown candidate, append the key, and in
/// Quick look up as soon as the code is full.
pub open spec fn sp_input_char(su: Setup, s: Composition, c: char) -> Outcome {
    let (s1, committed) = if s.cands.len() > 0 {
        let (a, r) = sp_select(su, s, 0);
        (a, commit_text(r))
    } else {
        (s, None)
    };
    let (s2, ok) = sp_push(su, s1, c);
    if su.mode == Mode::Quick && s2.input.len() == max_input_len(su.mode) {
        ask(su, s2, committed, PendingKind::Input)
    } else {
        done(
            s2,
            sp_merge(
                committed,
                if ok {
                    ResponseView::Consumed
                } else {
                    ResponseView::Bell
                },
            ),
        )
    }
}

/// The rest of a non-radical key once the typed keys were looked up: commit
/// the first candidate, then the key's full-width form.
pub open spec fn sp_other_tail(
    su: Setup,
    s: Composition,
    c: char,
    committed: Option<Seq<char>>,
) -> Outcome {
    if s.cands.len() > 0 {
        let (a, r) = sp_select(su, s, 0);
        match r {
            ResponseView::Commit(t) => sp_fullwidth(su, a, c, Some(t)),
            _ => sp_fullwidth(su, a, c, committed),
        }
    } else {
        sp_fullwidth(su, s, c, committed)
    }
}

/// A non-radical key: typed keys not yet looked up are looked up first.
pub open spec fn sp_other_key(su: Setup, s: Composition, c: char) -> Outcome {
    if s.cands.len() == 0 && s.input.len() > 0 {
        ask(su, s, None, PendingKind::OtherKey(c))
    } else {
        sp_other_tail(su, s, c, None)
    }
}

/// Space: full-width space when idle, lookup of typed keys, commit when all
/// candidates fit on one page, else the next page.
pub open spec fn sp_space(su: Setup, s: Composition) -> Outcome {
    if s.input.len() == 0 {
        sp_fullwidth(su, s, ' ', None)
    } else if s.cands.len() == 0 {
        ask(su, s, None, PendingKind::Input)
    } else if s.cands.len() <= su.page_size {
        let (a, r) = sp_select(su, s, 0);
        done(a, r)
    } else {
        let (a, r) = sp_page_down(su, s);
        done(a, r)
    }
}

/// A digit picks a candidate (1–9) while candidates are shown, else it is
/// committed full-width.
pub open spec fn sp_number(su: Setup, s: Composition, d: char) -> Outcome {
    if s.cands.len() > 0 {
        let n = d as int - '0' as int;
        if n >= 1 {
            let (a, r) = sp_select(su, s, n - 1);
            done(a, r)
        } else {
            done(s, ResponseView::Consumed)
        }
    } else {
        sp_fullwidth(su, s, d, None)
    }
}

/// Handling of one key press.
pub open spec fn sp_key(su: Setup, s: Composition, input: KeyInput) -> Outcome {
    let m = input.modifiers;
    if m.ctrl || m.alt || m.logo {
        done(s, ResponseView::Ignored)
    } else {
        match input.key {
            Key::Escape => {
                if s.input.len() == 0 {
                    done(s, ResponseView::Ignored)
                } else {
                    done(idle(), ResponseView::Consumed)
                }
            },
            Key::Space => sp_space(su, s),
            Key::PageDown => {
                let (a, r) = sp_page_down(su, s);
                done(a, r)
            },
            Key::Down => {
                let (a, r) = sp_page_down(su, s);
                done(a, r)
            },
            Key::PageUp => {
                let (a, r) = sp_page_up(su, s);
                done(a, r)
            },
            Key::Up => {
                let (a, r) = sp_page_up(su, s);
                done(a, r)
            },
            Key::Backspace => {
                if s.input.len() == 0 {
                    done(s, ResponseView::Ignored)
                } else {
                    done(
                        Composition {
                            input: s.input.drop_last(),
                            cands: Seq::empty(),
                            page: 0,
                            clear: false,
                        },
                        ResponseView::Consumed,
                    )
                }
            },
            Key::Char(c) => {
                if '0' <= c && c <= '9' {
                    sp_number(su, s, c)
                } else if c == '*' {
                    if su.mode == Mode::Cangjie && s.input.len() > 0 {
                        sp_input_char(su, s, '*')
                    } else {
                        sp_other_key(su, s, '*')
                    }
                } else if is_input_key(su, c) {
                    sp_input_char(su, s, c)
                } else {
                    sp_other_key(su, s, c)
                }
            },
            _ => done(s, ResponseView::Ignored),
        }
    }
}

/// Going on with a suspended key once the database answered.
pub open spec fn sp_resume(
    su: Setup,
    s: Composition,
    p: PendingView,
    res: Result<Seq<CharView>, CangjieError>,
) -> Outcome {
    let (s1, r) = sp_apply(su, s, res);
    match p.kind {
        PendingKind::Input => done(s1, sp_merge(p.committed, r)),
        PendingKind::Fullwidth => match r {
            ResponseView::Bell => done(idle(), sp_merge(p.committed, ResponseView::Ignored)),
            _ => done(s1, sp_merge(p.committed, r)),
        },
        PendingKind::OtherKey(c) => match r {
            ResponseView::Commit(t) => sp_other_tail(su, s1, c, Some(t)),
            ResponseView::Bell => done(s1, ResponseView::Bell),
            _ => sp_other_tail(su, s1, c, None),
        },
    }
}

} // verus!
