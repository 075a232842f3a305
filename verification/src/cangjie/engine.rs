//! The Cangjie/Quick engine: key handling over plain data, suspending on
//! every database lookup so that the caller performs it.
use vstd::prelude::*;
use crate::engine::{
    Candidate, CandidateView, candidates_view, copy_candidates, Key, KeyInput, PageInfo, Preedit,
    Response, ResponseView,
};
use crate::cangjie::db::{CangjieError, Char, CharView, Filter, Version, chars_view, lookup_view};
use crate::cangjie::model::{
    ask, by_shortcode, idle, is_input_key, join_star, lookup_code, max_input_len, page_end,
    page_slice, page_start, radical_text, radicals_of, ranked_candidates, sp_apply, sp_fullwidth,
    sp_input_char, sp_key, sp_merge, sp_number, sp_other_key, sp_other_tail, sp_page_down,
    sp_page_up, sp_push, sp_resume, sp_select, sp_space, table_lookup, total_pages, Composition,
    Mode, Outcome, PendingKind, PendingView, Setup, StepView,
};
use crate::cangjie::rank::{dedup_by_text, rank, sort_by_frequency};
use crate::text::{chars_of, concat_strings, push_char, string_from_chars};

verus! {

/// How an engine is built.
#[derive(Debug, Clone, Copy, PartialEq, Eq, Structural)]
pub struct Config {
    pub version: Version,
    pub filter: Filter,
    pub mode: Mode,
    pub page_size: usize,
    /// Commit full-width variants of numbers, punctuation and space.
    pub fullwidth_chars: bool,
}

impl Default for Config {
    fn default() -> (c: Config)
        ensures
            c.version == Version::V5,
            c.filter.spec_bits() == 3,
            c.mode == Mode::Cangjie,
            c.page_size == 9,
            c.fullwidth_chars,
    {
        Config {
            version: Version::V5,
            filter: Filter::hong_kong(),
            mode: Mode::Cangjie,
            page_size: 9,
            fullwidth_chars: true,
        }
    }
}

/// A database lookup the engine needs answered.
#[derive(Debug, Clone, PartialEq, Eq)]
pub struct Lookup {
    pub code: String,
    /// Look `code` up in the single-key shortcut table (full-width
    /// punctuation, digits, space) rather than the Cangjie table.
    pub by_shortcode: bool,
}

/// What handling a key asks of the caller next.
#[derive(Debug, Clone, PartialEq, Eq)]
pub enum Step {
    /// The key is handled.
    Done(Response),
    /// Perform this lookup and hand the result to [`CangjieEngine::resume`].
    Lookup(Lookup),
}

impl View for Step {
    type V = StepView;

    open spec fn view(&self) -> StepView {
        match self {
            Step::Done(r) => StepView::Done(r@),
            Step::Lookup(l) => StepView::Lookup(l.code@, l.by_shortcode),
        }
    }
}

/// The text of an optional string.
pub open spec fn opt_view(o: Option<String>) -> Option<Seq<char>> {
    match o {
        Some(s) => Some(s@),
        None => None,
    }
}

struct Pending {
    committed: Option<String>,
    kind: PendingKind,
}

/// The composition rules hold: page size positive, page in range, code not
/// longer than the mode allows, no candidates without typed keys.
pub open spec fn comp_ok(su: Setup, s: Composition) -> bool {
    &&& su.page_size > 0
    &&& 0 <= s.page < total_pages(s.cands.len(), su.page_size)
    &&& s.input.len() <= max_input_len(su.mode)
    &&& s.input.len() == 0 ==> s.cands.len() == 0
}

/// A suspended key waits with typed keys and no candidates, and the engine
/// is suspended exactly when it asked for a lookup.
pub open spec fn outcome_ok(su: Setup, o: Outcome) -> bool {
    &&& comp_ok(su, o.state)
    &&& (o.pending is Some <==> o.step is Lookup)
    &&& o.pending is Some ==> o.state.cands.len() == 0 && o.state.page == 0 && o.state.input.len() > 0
}

/// Cangjie/Quick engine state. The database is not part of it: lookups are
/// handed out as [`Step::Lookup`] and answered through [`CangjieEngine::resume`].
pub struct CangjieEngine {
    cfg: Config,
    radicals: Vec<(char, String)>,
    input_keys: Vec<char>,
    input: Vec<char>,
    candidates: Vec<Candidate>,
    page: usize,
    /// Set after a failed lookup: the bad input stays visible until the next key.
    clear_on_next_input: bool,
    pending: Option<Pending>,
}

/// A page size and a page index within range give a page start below the
/// number of candidates.
proof fn lemma_page_start(page: int, n: int, ps: int)
    requires
        ps > 0,
        n > 0,
        0 <= page < (n - 1) / ps + 1,
    ensures
        page * ps <= n - 1,
{
    assert(page <= (n - 1) / ps);
    assert(page * ps <= ((n - 1) / ps) * ps) by (nonlinear_arith)
        requires
            page <= (n - 1) / ps,
            ps > 0,
    ;
    assert(((n - 1) / ps) * ps <= n - 1) by (nonlinear_arith)
        requires
            ps > 0,
            n > 0,
    ;
}

proof fn lemma_table_lookup(t: Seq<(char, Seq<char>)>, c: char, k: int)
    requires
        0 <= k <= t.len(),
        forall|j: int| 0 <= j < k ==> #[trigger] t[j].0 != c,
        k < t.len() ==> t[k].0 == c,
    ensures
        table_lookup(t, c) == (if k < t.len() {
            Some(t[k].1)
        } else {
            None
        }),
    decreases t.len(),
{
    if t.len() > 0 && k > 0 {
        assert(t[0].0 != c);
        assert forall|j: int| 0 <= j < k - 1 implies #[trigger] t.drop_first()[j].0 != c by {
            assert(t.drop_first()[j] == t[j + 1]);
        }
        lemma_table_lookup(t.drop_first(), c, k - 1);
    }
}

/// On a page within range of a non-empty list, the page has a first candidate.
pub proof fn lemma_page_nonempty(su: Setup, s: Composition)
    requires
        comp_ok(su, s),
        s.cands.len() > 0,
    ensures
        page_slice(s, su.page_size).len() > 0,
        page_start(s, su.page_size) == s.page * su.page_size,
{
    lemma_page_start(s.page, s.cands.len() as int, su.page_size as int);
}

impl CangjieEngine {
    /// What the engine was built with.
    pub closed spec fn setup(&self) -> Setup {
        Setup {
            mode: self.cfg.mode,
            page_size: self.cfg.page_size as nat,
            fullwidth: self.cfg.fullwidth_chars,
            radicals: self.radicals@.map_values(|p: (char, String)| (p.0, p.1@)),
            keys: self.input_keys@,
        }
    }

    /// The current composition.
    pub closed spec fn state(&self) -> Composition {
        Composition {
            input: self.input@,
            cands: candidates_view(self.candidates@),
            page: self.page as int,
            clear: self.clear_on_next_input,
        }
    }

    /// The key waiting for a lookup answer, if any.
    pub closed spec fn pending(&self) -> Option<PendingView> {
        match self.pending {
            Some(p) => Some(PendingView { committed: opt_view(p.committed), kind: p.kind }),
            None => None,
        }
    }

    /// The configuration in force.
    pub closed spec fn config(&self) -> Config {
        self.cfg
    }

    /// The engine's own rules hold.
    pub open spec fn wf(&self) -> bool {
        &&& comp_ok(self.setup(), self.state())
        &&& self.pending() is Some ==> self.state().cands.len() == 0 && self.state().page == 0
            && self.state().input.len() > 0
        &&& self.setup().page_size == self.config().page_size
        &&& self.setup().mode == self.config().mode
        &&& self.setup().fullwidth == self.config().fullwidth_chars
    }

    /// The state, pending key and step as one outcome.
    pub open spec fn outcome(&self, st: Step) -> Outcome {
        Outcome { state: self.state(), pending: self.pending(), step: st@ }
    }

    closed spec fn fixed(&self, other: &Self) -> bool {
        &&& self.cfg == other.cfg
        &&& self.radicals == other.radicals
        &&& self.input_keys == other.input_keys
    }

    /// A new engine. `radicals` gives the radical shown for each input key
    /// and `input_keys` the keys the database accepts, both as read from the
    /// database when it was opened.
    pub fn new(cfg: Config, radicals: Vec<(char, String)>, input_keys: Vec<char>) -> (e: Self)
        requires
            cfg.page_size > 0,
        ensures
            e.wf(),
            e.config() == cfg,
            e.state() == idle(),
            e.pending() is None,
            e.setup().radicals == radicals@.map_values(|p: (char, String)| (p.0, p.1@)),
            e.setup().keys == input_keys@,
    {
        let e = CangjieEngine {
            cfg,
            radicals,
            input_keys,
            input: Vec::new(),
            candidates: Vec::new(),
            page: 0,
            clear_on_next_input: false,
            pending: None,
        };
        assert(e.state().input =~= idle().input);
        assert(e.state().cands =~= idle().cands);
        e
    }


    /// Discard any in-progress composition (and a key waiting for a lookup).
    pub fn reset(&mut self)
        requires
            old(self).wf(),
        ensures
            final(self).wf(),
            final(self).state() == idle(),
            final(self).pending() is None,
            final(self).config() == old(self).config(),
            final(self).setup() == old(self).setup(),
    {
        self.clear_composition();
        self.pending = None;
    }

    /// Handle one key press. A [`Step::Lookup`] must be answered through
    /// [`CangjieEngine::resume`] before the next key.
    pub fn process_key(&mut self, input: KeyInput) -> (st: Step)
        requires
            old(self).wf(),
            old(self).pending() is None,
        ensures
            final(self).wf(),
            final(self).outcome(st) == sp_key(old(self).setup(), old(self).state(), input),
            final(self).setup() == old(self).setup(),
            final(self).config() == old(self).config(),
    {
        proof {
            lemma_key_ok(self.setup(), self.state(), input);
        }
        let m = input.modifiers;
        if m.ctrl || m.alt || m.logo {
            return Step::Done(Response::Ignored);
        }
        match input.key {
            Key::Escape => {
                if self.input.len() == 0 {
                    Step::Done(Response::Ignored)
                } else {
                    self.clear_composition();
                    Step::Done(Response::Consumed)
                }
            },
            Key::Space => self.space(),
            Key::PageDown => Step::Done(self.page_down()),
            Key::Down => Step::Done(self.page_down()),
            Key::PageUp => Step::Done(self.page_up()),
            Key::Up => Step::Done(self.page_up()),
            Key::Backspace => {
                if self.input.len() == 0 {
                    return Step::Done(Response::Ignored);
                }
                self.clear_on_next_input = false;
                self.input.pop();
                self.candidates = Vec::new();
                self.page = 0;
                assert(candidates_view(self.candidates@) =~= Seq::<CandidateView>::empty());
                Step::Done(Response::Consumed)
            },
            Key::Char(c) => {
                if '0' <= c && c <= '9' {
                    self.number(c)
                } else if c == '*' {
                    if self.cfg.mode == Mode::Cangjie && self.input.len() > 0 {
                        self.input_char('*')
                    } else {
                        self.other_key('*')
                    }
                } else if self.is_input_key(c) {
                    self.input_char(c)
                } else {
                    self.other_key(c)
                }
            },
            _ => Step::Done(Response::Ignored),
        }
    }

    /// Go on with the suspended key, given the answer to its lookup.
    pub fn resume(&mut self, result: Result<Vec<Char>, CangjieError>) -> (st: Step)
        requires
            old(self).wf(),
            old(self).pending() is Some,
        ensures
            final(self).wf(),
            final(self).outcome(st) == sp_resume(
                old(self).setup(),
                old(self).state(),
                old(self).pending().unwrap(),
                lookup_view(result),
            ),
            final(self).setup() == old(self).setup(),
            final(self).config() == old(self).config(),
    {
        proof {
            lemma_resume_ok(self.setup(), self.state(), self.pending().unwrap(), lookup_view(result));
            lemma_apply_ok(self.setup(), self.state(), lookup_view(result));
        }
        let p = match self.pending.take() {
            Some(p) => p,
            None => {
                return Step::Done(Response::Ignored);
            },
        };
        let r = self.apply_lookup(result);
        match p.kind {
            PendingKind::Input => Step::Done(merge_commit(p.committed, r)),
            PendingKind::Fullwidth => match r {
                Response::Bell => {
                    self.clear_composition();
                    Step::Done(merge_commit(p.committed, Response::Ignored))
                },
                _ => Step::Done(merge_commit(p.committed, r)),
            },
            PendingKind::OtherKey(c) => match r {
                Response::Commit(t) => self.other_tail(c, Some(t)),
                Response::Bell => Step::Done(Response::Bell),
                _ => self.other_tail(c, None),
            },
        }
    }

    /// The engine's display name.
    pub fn name(&self) -> (n: &str)
        ensures
            n@ == (match self.config().mode {
                Mode::Cangjie => seq!['\u{5009}', '\u{9821}'],
                Mode::Quick => seq!['\u{901F}', '\u{6210}'],
            }),
    {
        match self.cfg.mode {
            Mode::Cangjie => {
                let n = "\u{5009}\u{9821}";
                proof {
                    reveal_strlit("\u{5009}\u{9821}");
                }
                n
            },
            Mode::Quick => {
                let n = "\u{901F}\u{6210}";
                proof {
                    reveal_strlit("\u{901F}\u{6210}");
                }
                n
            },
        }
    }

    /// The typed keys shown as radicals, cursor at the end.
    pub fn preedit(&self) -> (p: Preedit)
        ensures
            p.text@ == radicals_of(self.setup(), self.state().input),
            p.cursor == vstd::utf8::encode_utf8(p.text@).len() as usize,
    {
        let text = self.radicals_string(&self.input);
        let cursor = text.as_str().len();
        Preedit { text, cursor }
    }

    /// Candidates on the current page.
    pub fn candidates(&self) -> (c: Vec<Candidate>)
        requires
            self.wf(),
        ensures
            candidates_view(c@) == page_slice(self.state(), self.setup().page_size),
    {
        let (start, end) = self.page_bounds();
        let c = copy_candidates(&self.candidates, start, end);
        assert(candidates_view(self.candidates@).subrange(start as int, end as int) =~= candidates_view(
            self.candidates@.subrange(start as int, end as int),
        ));
        c
    }

    /// Current page, number of pages and page size.
    pub fn page_info(&self) -> (i: PageInfo)
        requires
            self.wf(),
        ensures
            i.page == self.state().page,
            i.total_pages is Some,
            i.total_pages->0 as nat == total_pages(self.state().cands.len(), self.setup().page_size),
            i.page < i.total_pages->0,
            i.has_next == (self.state().page + 1 < total_pages(self.state().cands.len(), self.setup().page_size)),
            i.page_size == self.config().page_size,
    {
        let t = self.total_pages();
        PageInfo { page: self.page, total_pages: Some(t), has_next: self.page + 1 < t, page_size: self.cfg.page_size }
    }

    /// The highlighted candidate: always the first.
    pub fn selected(&self) -> (i: usize)
        ensures
            i == 0,
    {
        0
    }

    /// Whether keys are being composed.
    pub fn is_composing(&self) -> (b: bool)
        ensures
            b == (self.state().input.len() > 0),
    {
        self.input.len() > 0
    }

    /// Current mode.
    pub fn mode(&self) -> (m: Mode)
        ensures
            m == self.config().mode,
    {
        self.cfg.mode
    }

    /// Switch between Cangjie and Quick, discarding the composition.
    pub fn set_mode(&mut self, mode: Mode)
        requires
            old(self).wf(),
        ensures
            final(self).wf(),
            final(self).config() == (Config { mode, ..old(self).config() }),
            final(self).setup().radicals == old(self).setup().radicals,
            final(self).setup().keys == old(self).setup().keys,
            final(self).state() == idle(),
            final(self).pending() is None,
    {
        self.cfg.mode = mode;
        self.clear_composition();
        self.pending = None;
    }

    /// Turn full-width characters on or off.
    pub fn set_fullwidth_chars(&mut self, on: bool)
        requires
            old(self).wf(),
        ensures
            final(self).wf(),
            final(self).config() == (Config { fullwidth_chars: on, ..old(self).config() }),
            final(self).setup().radicals == old(self).setup().radicals,
            final(self).setup().keys == old(self).setup().keys,
            final(self).state() == old(self).state(),
            final(self).pending() == old(self).pending(),
    {
        self.cfg.fullwidth_chars = on;
    }

    fn max_input_len(&self) -> (n: usize)
        ensures
            n == max_input_len(self.cfg.mode),
    {
        match self.cfg.mode {
            Mode::Cangjie => 5,
            Mode::Quick => 2,
        }
    }

    fn find_radical(&self, c: char) -> (r: Option<usize>)
        ensures
            match r {
                Some(k) => k < self.radicals.len() && table_lookup(self.setup().radicals, c) == Some(
                    self.radicals@[k as int].1@,
                ),
                None => table_lookup(self.setup().radicals, c) is None,
            },
    {
        let ghost t = self.setup().radicals;
        let mut k: usize = 0;
        while k < self.radicals.len()
            invariant
                k <= self.radicals.len(),
                t == self.radicals@.map_values(|p: (char, String)| (p.0, p.1@)),
                forall|j: int| 0 <= j < k ==> #[trigger] t[j].0 != c,
            decreases self.radicals.len() - k,
        {
            if self.radicals[k].0 == c {
                proof {
                    lemma_table_lookup(t, c, k as int);
                }
                return Some(k);
            }
            k = k + 1;
        }
        proof {
            lemma_table_lookup(t, c, k as int);
        }
        None
    }

    /// The radicals of a key sequence.
    fn radicals_string(&self, code: &Vec<char>) -> (s: String)
        ensures
            s@ == radicals_of(self.setup(), code@),
    {
        let mut s = String::new();
        let mut i: usize = 0;
        while i < code.len()
            invariant
                i <= code.len(),
                s@ == radicals_of(self.setup(), code@.take(i as int)),
            decreases code.len() - i,
        {
            let c = code[i];
            let ghost before = s@;
            if c == '*' {
                push_char(&mut s, '\u{FF0A}');
            } else {
                match self.find_radical(c) {
                    Some(k) => {
                        s.append(self.radicals[k].1.as_str());
                    },
                    None => {
                        push_char(&mut s, c);
                    },
                }
            }
            assert(code@.take(i + 1).drop_last() =~= code@.take(i as int));
            assert(s@ =~= before + radical_text(self.setup(), c));
            i = i + 1;
        }
        assert(code@.take(code.len() as int) =~= code@);
        s
    }

    fn is_input_key(&self, c: char) -> (b: bool)
        ensures
            b == is_input_key(self.setup(), c),
    {
        if !('a' <= c && c <= 'z') {
            return false;
        }
        let mut k: usize = 0;
        while k < self.input_keys.len()
            invariant
                k <= self.input_keys.len(),
                'a' <= c && c <= 'z',
                forall|j: int| 0 <= j < k ==> #[trigger] self.input_keys@[j] != c,
            decreases self.input_keys.len() - k,
        {
            if self.input_keys[k] == c {
                assert(self.input_keys@[k as int] == c);
                assert(self.input_keys@.contains(c));
                assert(self.setup().keys == self.input_keys@);
                assert('a' <= c && c <= 'z');
                return true;
            }
            k = k + 1;
        }
        false
    }

    fn total_pages(&self) -> (t: usize)
        requires
            self.cfg.page_size > 0,
        ensures
            t == total_pages(self.candidates@.len(), self.cfg.page_size as nat),
            t >= 1,
    {
        let n = self.candidates.len();
        if n == 0 {
            1
        } else {
            (n - 1) / self.cfg.page_size + 1
        }
    }

    fn page_bounds(&self) -> (r: (usize, usize))
        requires
            comp_ok(self.setup(), self.state()),
        ensures
            r.0 == page_start(self.state(), self.setup().page_size),
            r.1 == page_end(self.state(), self.setup().page_size),
            r.0 <= r.1 <= self.candidates.len(),
    {
        let n = self.candidates.len();
        let ps = self.cfg.page_size;
        if n == 0 {
            return (0, 0);
        }
        proof {
            lemma_page_start(self.page as int, n as int, ps as int);
        }
        let start = self.page * ps;
        let end = if n - start <= ps {
            n
        } else {
            start + ps
        };
        (start, end)
    }

    /// Drop typed keys and candidates.
    fn clear_composition(&mut self)
        ensures
            final(self).state() == idle(),
            final(self).fixed(old(self)),
            final(self).pending == old(self).pending,
    {
        self.input = Vec::new();
        self.candidates = Vec::new();
        self.page = 0;
        self.clear_on_next_input = false;
        assert(self.state().input =~= idle().input);
        assert(self.state().cands =~= idle().cands);
    }

    /// Commit the candidate at `index` on the current page.
    fn select(&mut self, index: usize) -> (r: Response)
        requires
            comp_ok(old(self).setup(), old(self).state()),
        ensures
            (final(self).state(), r@) == sp_select(old(self).setup(), old(self).state(), index as int),
            final(self).fixed(old(self)),
            final(self).pending == old(self).pending,
    {
        let (start, end) = self.page_bounds();
        if index < end - start {
            let text = self.candidates[start + index].text.clone();
            proof {
                let sl = page_slice(self.state(), self.setup().page_size);
                assert(sl[index as int] == candidates_view(self.candidates@)[start + index]);
            }
            self.clear_composition();
            Response::Commit(text)
        } else {
            Response::Consumed
        }
    }

    fn push_input(&mut self, c: char) -> (ok: bool)
        ensures
            (final(self).state(), ok) == sp_push(old(self).setup(), old(self).state(), c),
            final(self).fixed(old(self)),
            final(self).pending == old(self).pending,
    {
        if self.clear_on_next_input {
            self.clear_composition();
        }
        if self.input.len() >= self.max_input_len() {
            return false;
        }
        self.input.push(c);
        true
    }

    /// The lookup for the keys typed so far.
    fn current_lookup(&self) -> (l: Lookup)
        ensures
            l.code@ == lookup_code(self.setup(), self.input@),
            l.by_shortcode == by_shortcode(self.setup(), self.input@),
    {
        let code = match self.cfg.mode {
            Mode::Quick => {
                let mut v: Vec<char> = Vec::new();
                let mut i: usize = 0;
                while i < self.input.len()
                    invariant
                        i <= self.input.len(),
                        v@ == join_star(self.input@.take(i as int)),
                    decreases self.input.len() - i,
                {
                    let ghost before = v@;
                    if i > 0 {
                        v.push('*');
                    }
                    v.push(self.input[i]);
                    proof {
                        let t = self.input@.take(i + 1);
                        assert(t.drop_last() =~= self.input@.take(i as int));
                        if i == 0 {
                            assert(v@ =~= t);
                        } else {
                            assert(v@ =~= before + seq!['*', t.last()]);
                        }
                    }
                    i = i + 1;
                }
                assert(self.input@.take(self.input.len() as int) =~= self.input@);
                string_from_chars(&v)
            },
            Mode::Cangjie => string_from_chars(&self.input),
        };
        let by_shortcode = self.input.len() == 1 && !self.is_input_key(self.input[0]);
        Lookup { code, by_shortcode }
    }

    /// Show the ranked rows of a successful lookup as candidates.
    fn set_candidates(&mut self, chars: &Vec<Char>)
        ensures
            final(self).state() == (Composition {
                input: old(self).state().input,
                cands: ranked_candidates(old(self).setup(), chars_view(chars@)),
                page: 0,
                clear: old(self).state().clear,
            }),
            final(self).fixed(old(self)),
            final(self).pending == old(self).pending,
    {
        let sorted = sort_by_frequency(chars);
        let unique = dedup_by_text(&sorted);
        let ghost ranked = rank(chars_view(chars@));
        assert(chars_view(unique@) == ranked);
        let ghost target = ranked_candidates(self.setup(), chars_view(chars@));
        let mut cands: Vec<Candidate> = Vec::new();
        let mut i: usize = 0;
        while i < unique.len()
            invariant
                i <= unique.len(),
                chars_view(unique@) == ranked,
                ranked == rank(chars_view(chars@)),
                target == ranked_candidates(self.setup(), chars_view(chars@)),
                target.len() == unique.len(),
                cands.len() == i,
                forall|j: int| 0 <= j < i ==> #[trigger] cands@[j]@ == target[j],
            decreases unique.len() - i,
        {
            let code = chars_of(unique[i].code.as_str());
            let hint = self.radicals_string(&code);
            let text = unique[i].chchar.clone();
            let ghost before = cands@;
            proof {
                assert(ranked[i as int] == unique@[i as int]@);
                assert(chars_view(unique@)[i as int] == unique@[i as int]@);
                assert(target[i as int] == CandidateView {
                    text: ranked[i as int].chchar,
                    hint: Some(radicals_of(self.setup(), ranked[i as int].code)),
                });
            }
            cands.push(Candidate { text, hint: Some(hint) });
            assert(cands@[i as int]@ == target[i as int]);
            assert forall|j: int| 0 <= j < i + 1 implies #[trigger] cands@[j]@ == target[j] by {
                if j < i {
                    assert(cands@[j] == before[j]);
                }
            }
            i = i + 1;
        }
        self.candidates = cands;
        self.page = 0;
        assert(candidates_view(self.candidates@) =~= target);
    }

    /// Take a lookup result.
    fn apply_lookup(&mut self, result: Result<Vec<Char>, CangjieError>) -> (r: Response)
        requires
            comp_ok(old(self).setup(), old(self).state()),
            old(self).state().input.len() > 0,
        ensures
            (final(self).state(), r@) == sp_apply(
                old(self).setup(),
                old(self).state(),
                lookup_view(result),
            ),
            final(self).fixed(old(self)),
            final(self).pending == old(self).pending,
    {
        match result {
            Ok(chars) => {
                if chars.len() > 0 {
                    self.set_candidates(&chars);
                    if self.candidates.len() == 1 {
                        self.select(0)
                    } else {
                        Response::Consumed
                    }
                } else {
                    self.candidates = Vec::new();
                    self.clear_on_next_input = true;
                    assert(candidates_view(self.candidates@) =~= Seq::<CandidateView>::empty());
                    Response::Bell
                }
            },
            Err(CangjieError::Invalid) => {
                self.candidates = Vec::new();
                self.clear_on_next_input = true;
                assert(candidates_view(self.candidates@) =~= Seq::<CandidateView>::empty());
                Response::Bell
            },
            Err(_) => {
                self.candidates = Vec::new();
                assert(candidates_view(self.candidates@) =~= Seq::<CandidateView>::empty());
                Response::Bell
            },
        }
    }

    fn page_down(&mut self) -> (r: Response)
        requires
            comp_ok(old(self).setup(), old(self).state()),
        ensures
            (final(self).state(), r@) == sp_page_down(old(self).setup(), old(self).state()),
            final(self).fixed(old(self)),
            final(self).pending == old(self).pending,
    {
        if self.candidates.len() == 0 {
            return Response::Ignored;
        }
        let t = self.total_pages();
        self.page = (self.page + 1) % t;
        Response::Consumed
    }

    fn page_up(&mut self) -> (r: Response)
        requires
            comp_ok(old(self).setup(), old(self).state()),
        ensures
            (final(self).state(), r@) == sp_page_up(old(self).setup(), old(self).state()),
            final(self).fixed(old(self)),
            final(self).pending == old(self).pending,
    {
        if self.candidates.len() == 0 {
            return Response::Ignored;
        }
        let t = self.total_pages();
        let p = if self.page == 0 {
            t - 1
        } else {
            self.page - 1
        };
        proof {
            let pg = self.page as int;
            let ti = t as int;
            if pg == 0 {
                vstd::arithmetic::div_mod::lemma_small_mod((ti - 1) as nat, ti as nat);
            } else {
                vstd::arithmetic::div_mod::lemma_mod_add_multiples_vanish(pg - 1, ti);
                vstd::arithmetic::div_mod::lemma_small_mod((pg - 1) as nat, ti as nat);
            }
        }
        self.page = p;
        Response::Consumed
    }

    /// Full-width form of `c`, after text `committed` earlier by this key.
    fn fullwidth_char(&mut self, c: char, committed: Option<String>) -> (st: Step)
        requires
            old(self).pending is None,
        ensures
            final(self).outcome(st) == sp_fullwidth(
                old(self).setup(),
                old(self).state(),
                c,
                opt_view(committed),
            ),
            final(self).fixed(old(self)),
    {
        if !self.cfg.fullwidth_chars {
            return Step::Done(merge_commit(committed, Response::Ignored));
        }
        if !self.push_input(c) {
            return Step::Done(merge_commit(committed, Response::Bell));
        }
        let code = crate::text::string_of_char(c);
        self.pending = Some(Pending { committed, kind: PendingKind::Fullwidth });
        Step::Lookup(Lookup { code, by_shortcode: true })
    }

    /// Suspend on a lookup of the typed keys.
    fn ask(&mut self, committed: Option<String>, kind: PendingKind) -> (st: Step)
        ensures
            final(self).outcome(st) == ask(
                old(self).setup(),
                old(self).state(),
                opt_view(committed),
                kind,
            ),
            final(self).fixed(old(self)),
    {
        let l = self.current_lookup();
        self.pending = Some(Pending { committed, kind });
        Step::Lookup(l)
    }

    fn input_char(&mut self, c: char) -> (st: Step)
        requires
            comp_ok(old(self).setup(), old(self).state()),
            old(self).pending is None,
        ensures
            final(self).outcome(st) == sp_input_char(old(self).setup(), old(self).state(), c),
            final(self).fixed(old(self)),
    {
        let committed = if self.candidates.len() > 0 {
            match self.select(0) {
                Response::Commit(t) => Some(t),
                _ => None,
            }
        } else {
            None
        };
        let ok = self.push_input(c);
        if self.cfg.mode == Mode::Quick && self.input.len() == self.max_input_len() {
            self.ask(committed, PendingKind::Input)
        } else {
            let r = if ok {
                Response::Consumed
            } else {
                Response::Bell
            };
            Step::Done(merge_commit(committed, r))
        }
    }

    fn other_tail(&mut self, c: char, committed: Option<String>) -> (st: Step)
        requires
            comp_ok(old(self).setup(), old(self).state()),
            old(self).pending is None,
        ensures
            final(self).outcome(st) == sp_other_tail(
                old(self).setup(),
                old(self).state(),
                c,
                opt_view(committed),
            ),
            final(self).fixed(old(self)),
    {
        if self.candidates.len() > 0 {
            match self.select(0) {
                Response::Commit(t) => self.fullwidth_char(c, Some(t)),
                _ => self.fullwidth_char(c, committed),
            }
        } else {
            self.fullwidth_char(c, committed)
        }
    }

    fn other_key(&mut self, c: char) -> (st: Step)
        requires
            comp_ok(old(self).setup(), old(self).state()),
            old(self).pending is None,
        ensures
            final(self).outcome(st) == sp_other_key(old(self).setup(), old(self).state(), c),
            final(self).fixed(old(self)),
    {
        if self.candidates.len() == 0 && self.input.len() > 0 {
            self.ask(None, PendingKind::OtherKey(c))
        } else {
            self.other_tail(c, None)
        }
    }

    fn space(&mut self) -> (st: Step)
        requires
            comp_ok(old(self).setup(), old(self).state()),
            old(self).pending is None,
        ensures
            final(self).outcome(st) == sp_space(old(self).setup(), old(self).state()),
            final(self).fixed(old(self)),
    {
        if self.input.len() == 0 {
            return self.fullwidth_char(' ', None);
        }
        if self.candidates.len() == 0 {
            return self.ask(None, PendingKind::Input);
        }
        if self.candidates.len() <= self.cfg.page_size {
            return Step::Done(self.select(0));
        }
        Step::Done(self.page_down())
    }

    fn number(&mut self, d: char) -> (st: Step)
        requires
            comp_ok(old(self).setup(), old(self).state()),
            old(self).pending is None,
            '0' <= d <= '9',
        ensures
            final(self).outcome(st) == sp_number(old(self).setup(), old(self).state(), d),
            final(self).fixed(old(self)),
    {
        if self.candidates.len() > 0 {
            let n = (d as u32) - ('0' as u32);
            if n >= 1 {
                return Step::Done(self.select((n - 1) as usize));
            }
            return Step::Done(Response::Consumed);
        }
        self.fullwidth_char(d, None)
    }
}


/// Selecting keeps the rules.
pub proof fn lemma_select_ok(su: Setup, s: Composition, i: int)
    requires
        comp_ok(su, s),
    ensures
        comp_ok(su, sp_select(su, s, i).0),
{
}

/// Appending a key keeps the rules.
pub proof fn lemma_push_ok(su: Setup, s: Composition, c: char)
    requires
        comp_ok(su, s),
    ensures
        comp_ok(su, sp_push(su, s, c).0),
        sp_push(su, s, c).1 ==> sp_push(su, s, c).0.input.len() > 0,
        s.cands.len() == 0 ==> sp_push(su, s, c).0.cands.len() == 0,
{
}

/// A lookup answered for typed keys without candidates keeps the rules.
pub proof fn lemma_apply_ok(su: Setup, s: Composition, res: Result<Seq<CharView>, CangjieError>)
    requires
        comp_ok(su, s),
        s.cands.len() == 0,
        s.page == 0,
        s.input.len() > 0,
    ensures
        comp_ok(su, sp_apply(su, s, res).0),
{
    match res {
        Ok(chars) => {
            if chars.len() > 0 {
                let s1 = Composition {
                    input: s.input,
                    cands: ranked_candidates(su, chars),
                    page: 0,
                    clear: s.clear,
                };
                lemma_select_ok(su, s1, 0);
            }
        },
        _ => {},
    }
}

/// Full-width handling keeps the rules.
pub proof fn lemma_fullwidth_ok(su: Setup, s: Composition, c: char, committed: Option<Seq<char>>)
    requires
        comp_ok(su, s),
        s.cands.len() == 0,
    ensures
        outcome_ok(su, sp_fullwidth(su, s, c, committed)),
{
    lemma_push_ok(su, s, c);
}

/// The tail of a non-radical key keeps the rules.
pub proof fn lemma_other_tail_ok(su: Setup, s: Composition, c: char, committed: Option<Seq<char>>)
    requires
        comp_ok(su, s),
    ensures
        outcome_ok(su, sp_other_tail(su, s, c, committed)),
{
    if s.cands.len() > 0 {
        lemma_page_nonempty(su, s);
        let (a, r) = sp_select(su, s, 0);
        lemma_fullwidth_ok(su, a, c, Some(page_slice(s, su.page_size)[0].text));
    } else {
        lemma_fullwidth_ok(su, s, c, committed);
    }
}

/// Every key press keeps the engine's rules: the page stays in range, the
/// code never exceeds the mode's length, candidates only exist for typed
/// keys, and the engine suspends exactly when it asks for a lookup.
pub proof fn lemma_key_ok(su: Setup, s: Composition, input: KeyInput)
    requires
        comp_ok(su, s),
    ensures
        outcome_ok(su, sp_key(su, s, input)),
{
    match input.key {
        Key::Space => {
            if s.input.len() == 0 {
                lemma_fullwidth_ok(su, s, ' ', None);
            } else if s.cands.len() > 0 {
                lemma_select_ok(su, s, 0);
            }
        },
        Key::Char(c) => {
            lemma_other_tail_ok(su, s, c, None);
            lemma_other_tail_ok(su, s, '*', None);
            if s.cands.len() > 0 {
                lemma_page_nonempty(su, s);
                let (a, r) = sp_select(su, s, 0);
                lemma_push_ok(su, a, c);
                lemma_push_ok(su, a, '*');
                let n = c as int - '0' as int;
                lemma_select_ok(su, s, n - 1);
            } else {
                lemma_push_ok(su, s, c);
                lemma_push_ok(su, s, '*');
                lemma_fullwidth_ok(su, s, c, None);
            }
        },
        _ => {},
    }
}

/// Answering a suspended key's lookup keeps the engine's rules.
pub proof fn lemma_resume_ok(
    su: Setup,
    s: Composition,
    p: PendingView,
    res: Result<Seq<CharView>, CangjieError>,
)
    requires
        comp_ok(su, s),
        s.cands.len() == 0,
        s.page == 0,
        s.input.len() > 0,
    ensures
        outcome_ok(su, sp_resume(su, s, p, res)),
{
    lemma_apply_ok(su, s, res);
    let (s1, r) = sp_apply(su, s, res);
    match p.kind {
        PendingKind::OtherKey(c) => {
            lemma_other_tail_ok(su, s1, c, None);
            match r {
                ResponseView::Commit(t) => lemma_other_tail_ok(su, s1, c, Some(t)),
                _ => {},
            }
        },
        _ => {},
    }
}

/// Fold an auto-commit that happened earlier in the key's handling into the
/// final response for that key.
pub fn merge_commit(committed: Option<String>, response: Response) -> (r: Response)
    ensures
        r@ == sp_merge(opt_view(committed), response@),
{
    match committed {
        None => response,
        Some(text) => match response {
            Response::Ignored => Response::CommitAndForward(text),
            Response::Consumed => Response::Commit(text),
            Response::Bell => Response::Commit(text),
            Response::Commit(t) => Response::Commit(concat_strings(&text, &t)),
            Response::CommitAndForward(t) => Response::CommitAndForward(concat_strings(&text, &t)),
        },
    }
}

} // verus!
