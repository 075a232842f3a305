//! Smart Pinyin (智能拼音): the engine's own state and key decisions. The
//! libpinyin instance (parsing, sentence guessing, candidates, training)
//! is driven by the caller as each [`PinyinStep`] says.
use vstd::prelude::*;
use crate::engine::{
    Candidate, CandidateView, candidates_view, copy_candidates, Key, KeyInput, Modifiers, PageInfo, Preedit, Response,
    ResponseView,
};
use crate::text::{concat_strings, string_from_chars};
use crate::paths::{first_present, join_path, joined, pick_present};
use crate::schema_list::strings_view;

verus! {

/// Pinyin input scheme.
#[derive(Debug, Clone, Copy, PartialEq, Eq, Structural)]
pub enum Scheme {
    /// 全拼
    Full,
    /// 双拼 schemes
    DoubleZrm,
    DoubleMs,
    DoubleZiguang,
    DoubleAbc,
    DoublePyjj,
    DoubleXhe,
}

/// libpinyin's double-pinyin layouts.
#[derive(Debug, Clone, Copy, PartialEq, Eq, Structural)]
pub enum DoublePinyinScheme {
    Zrm,
    Ms,
    Ziguang,
    Abc,
    Pyjj,
    Xhe,
}

impl Default for Scheme {
    fn default() -> (s: Scheme)
        ensures
            s == Scheme::Full,
    {
        Scheme::Full
    }
}

impl Scheme {
    /// Whether this is a 双拼 scheme.
    pub fn is_double(self) -> (b: bool)
        ensures
            b == (self != Scheme::Full),
    {
        match self {
            Scheme::Full => false,
            _ => true,
        }
    }

    /// The double-pinyin layout handed to libpinyin (full pinyin keeps
    /// libpinyin's default, Microsoft).
    pub fn raw(self) -> (r: DoublePinyinScheme)
        ensures
            r == (match self {
                Scheme::Full => DoublePinyinScheme::Ms,
                Scheme::DoubleMs => DoublePinyinScheme::Ms,
                Scheme::DoubleZrm => DoublePinyinScheme::Zrm,
                Scheme::DoubleZiguang => DoublePinyinScheme::Ziguang,
                Scheme::DoubleAbc => DoublePinyinScheme::Abc,
                Scheme::DoublePyjj => DoublePinyinScheme::Pyjj,
                Scheme::DoubleXhe => DoublePinyinScheme::Xhe,
            }),
    {
        match self {
            Scheme::Full | Scheme::DoubleMs => DoublePinyinScheme::Ms,
            Scheme::DoubleZrm => DoublePinyinScheme::Zrm,
            Scheme::DoubleZiguang => DoublePinyinScheme::Ziguang,
            Scheme::DoubleAbc => DoublePinyinScheme::Abc,
            Scheme::DoublePyjj => DoublePinyinScheme::Pyjj,
            Scheme::DoubleXhe => DoublePinyinScheme::Xhe,
        }
    }
}

/// How a Pinyin engine is set up (paths as text).
#[derive(Debug, Clone, PartialEq, Eq)]
pub struct Config {
    pub system_data_dir: String,
    pub user_data_dir: String,
    pub scheme: Scheme,
    /// Fuzzy pinyin (z/zh, c/ch, s/sh, n/l, an/ang, en/eng, in/ing, ...).
    pub fuzzy: bool,
    /// Accept incomplete syllables (initials only), e.g. "nh" → 你好.
    pub incomplete: bool,
    pub page_size: usize,
    /// Commit full-width punctuation while idle.
    pub fullwidth_punctuation: bool,
}

/// Where libpinyin's system data is looked for, in order: `data` under its
/// install prefix's data directory `pkg`, then the usual distribution paths.
pub open spec fn system_dir_candidates(pkg: Seq<char>) -> Seq<Seq<char>> {
    seq![
        joined(pkg, "data"@),
        "/usr/lib/x86_64-linux-gnu/libpinyin/data"@,
        "/usr/lib/aarch64-linux-gnu/libpinyin/data"@,
        "/usr/lib/libpinyin/data"@,
        "/usr/share/libpinyin/data"@,
    ]
}

/// The directories that may hold libpinyin's system data (`merged.bin`),
/// in the order they are tried; `pkg_data_dir` is libpinyin's own.
pub fn system_data_dirs(pkg_data_dir: &String) -> (d: Vec<String>)
    ensures
        strings_view(d@) == system_dir_candidates(pkg_data_dir@),
{
    proof {
        reveal_strlit("/usr/lib/x86_64-linux-gnu/libpinyin/data");
        reveal_strlit("/usr/lib/aarch64-linux-gnu/libpinyin/data");
        reveal_strlit("/usr/lib/libpinyin/data");
        reveal_strlit("/usr/share/libpinyin/data");
    }
    let mut d: Vec<String> = Vec::new();
    d.push(join_path(pkg_data_dir, "data"));
    d.push("/usr/lib/x86_64-linux-gnu/libpinyin/data".to_owned());
    d.push("/usr/lib/aarch64-linux-gnu/libpinyin/data".to_owned());
    d.push("/usr/lib/libpinyin/data".to_owned());
    d.push("/usr/share/libpinyin/data".to_owned());
    assert(strings_view(d@) =~= system_dir_candidates(pkg_data_dir@));
    d
}

impl Config {
    /// The default set-up: system data in the first of
    /// [`system_data_dirs`] that holds `merged.bin` (`has_data` holds one
    /// flag per entry), else in the first of them; user data in
    /// `cosmic-ext-ime/pinyin` under the data home; full pinyin, fuzzy and
    /// incomplete syllables on, nine candidates a page, full-width
    /// punctuation.
    pub fn defaults(data_home: &String, pkg_data_dir: &String, has_data: &Vec<bool>) -> (c: Config)
        ensures
            c.system_data_dir@ == first_present(
                system_dir_candidates(pkg_data_dir@),
                has_data@,
                joined(pkg_data_dir@, "data"@),
            ),
            c.user_data_dir@ == joined(joined(data_home@, "cosmic-ext-ime"@), "pinyin"@),
            c.scheme == Scheme::Full,
            c.fuzzy,
            c.incomplete,
            c.page_size == 9,
            c.fullwidth_punctuation,
    {
        let dirs = system_data_dirs(pkg_data_dir);
        let fallback = join_path(pkg_data_dir, "data");
        let system = pick_present(&dirs, has_data, &fallback);
        let app = join_path(data_home, "cosmic-ext-ime");
        let user = join_path(&app, "pinyin");
        Config {
            system_data_dir: system,
            user_data_dir: user,
            scheme: Scheme::Full,
            fuzzy: true,
            incomplete: true,
            page_size: 9,
            fullwidth_punctuation: true,
        }
    }
}

/// libpinyin options: pinyin input with the divided and resplit tables,
/// dynamic adjustment and all corrections always; incomplete syllables and
/// all fuzzy pairs as configured.
#[derive(Debug, Clone, Copy, PartialEq, Eq, Structural)]
pub struct PinyinOptions {
    pub is_pinyin: bool,
    pub use_divided_table: bool,
    pub use_resplit_table: bool,
    pub dynamic_adjust: bool,
    pub correct_all: bool,
    pub incomplete: bool,
    pub ambiguities_all: bool,
}

/// The options for a configuration.
pub fn options(cfg: &Config) -> (o: PinyinOptions)
    ensures
        o == (PinyinOptions {
            is_pinyin: true,
            use_divided_table: true,
            use_resplit_table: true,
            dynamic_adjust: true,
            correct_all: true,
            incomplete: cfg.incomplete,
            ambiguities_all: cfg.fuzzy,
        }),
{
    PinyinOptions {
        is_pinyin: true,
        use_divided_table: true,
        use_resplit_table: true,
        dynamic_adjust: true,
        correct_all: true,
        incomplete: cfg.incomplete,
        ambiguities_all: cfg.fuzzy,
    }
}

/// The full-width mark for an ASCII punctuation key.
pub open spec fn punctuation_mark(c: char) -> Option<Seq<char>> {
    if c == ',' {
        Some("，"@)
    } else if c == '.' {
        Some("。"@)
    } else if c == '?' {
        Some("？"@)
    } else if c == '!' {
        Some("！"@)
    } else if c == ':' {
        Some("："@)
    } else if c == ';' {
        Some("；"@)
    } else if c == '(' {
        Some("（"@)
    } else if c == ')' {
        Some("）"@)
    } else if c == '<' {
        Some("《"@)
    } else if c == '>' {
        Some("》"@)
    } else if c == '\\' {
        Some("、"@)
    } else if c == '~' {
        Some("～"@)
    } else if c == '^' {
        Some("……"@)
    } else if c == '_' {
        Some("——"@)
    } else if c == '$' {
        Some("￥"@)
    } else {
        None
    }
}

/// The full-width mark for an ASCII punctuation key, if it has one.
pub fn punctuation(c: char) -> (r: Option<&'static str>)
    ensures
        match r {
            Some(p) => punctuation_mark(c) == Some(p@),
            None => punctuation_mark(c) is None,
        },
{
    match c {
        ',' => Some("，"),
        '.' => Some("。"),
        '?' => Some("？"),
        '!' => Some("！"),
        ':' => Some("："),
        ';' => Some("；"),
        '(' => Some("（"),
        ')' => Some("）"),
        '<' => Some("《"),
        '>' => Some("》"),
        '\\' => Some("、"),
        '~' => Some("～"),
        '^' => Some("……"),
        '_' => Some("——"),
        '$' => Some("￥"),
        _ => None,
    }
}

/// The engine's plain state.
pub struct PinyinState {
    /// Raw keys typed so far (letters and the `'` separator).
    pub input: Seq<char>,
    /// Pinyin-key offsets fixed by earlier word selections, innermost last.
    pub chosen: Seq<usize>,
    pub cands: Seq<CandidateView>,
    pub page: int,
    pub commits_since_save: u32,
}

/// What the caller must do with libpinyin for a key.
pub enum PinyinStepView {
    Done(ResponseView),
    Reset(ResponseView),
    Reparse,
    Select(usize),
    Unchoose(usize),
    CommitSentence(Option<Seq<char>>),
}

/// What the caller must do with libpinyin for a key.
#[derive(Debug, Clone, PartialEq, Eq)]
pub enum PinyinStep {
    /// Respond; libpinyin is untouched.
    Done(Response),
    /// Reset the libpinyin instance, then respond.
    Reset(Response),
    /// The typed keys changed: parse them again, guess the sentence, and
    /// hand the new candidates to [`PinyinEngine::set_candidates`]; respond
    /// `Consumed`.
    Reparse,
    /// Choose candidate `index` (of the full list) at the current offset.
    Select(usize),
    /// The last word choice was undone: clear libpinyin's constraint at
    /// this offset, guess again, hand over the new candidates; `Consumed`.
    Unchoose(usize),
    /// Commit the guessed sentence (see [`PinyinEngine::sentence_committed`]),
    /// followed by this full-width mark, or forwarding the key without one.
    CommitSentence(Option<String>),
}

impl View for PinyinStep {
    type V = PinyinStepView;

    open spec fn view(&self) -> PinyinStepView {
        match self {
            PinyinStep::Done(r) => PinyinStepView::Done(r@),
            PinyinStep::Reset(r) => PinyinStepView::Reset(r@),
            PinyinStep::Reparse => PinyinStepView::Reparse,
            PinyinStep::Select(i) => PinyinStepView::Select(*i),
            PinyinStep::Unchoose(o) => PinyinStepView::Unchoose(*o),
            PinyinStep::CommitSentence(m) => PinyinStepView::CommitSentence(
                match m {
                    Some(p) => Some(p@),
                    None => None,
                },
            ),
        }
    }
}

/// Number of pages of `n` candidates, at least one.
pub open spec fn pinyin_total_pages(n: nat, page_size: nat) -> nat {
    if n == 0 {
        1
    } else {
        ((n - 1) as nat / page_size + 1) as nat
    }
}

/// Nothing typed, nothing chosen or shown; the save counter is kept.
pub open spec fn pinyin_idle(s: PinyinState) -> PinyinState {
    PinyinState { input: Seq::empty(), chosen: Seq::empty(), cands: Seq::empty(), page: 0, ..s }
}

/// Choose the candidate at `i` on the current page, if there is one.
pub open spec fn sp_pick(ps: nat, s: PinyinState, i: int) -> PinyinStepView {
    let index = s.page * ps + i;
    if index >= s.cands.len() {
        PinyinStepView::Done(ResponseView::Consumed)
    } else {
        PinyinStepView::Select(index as usize)
    }
}

/// Key handling. Letters always compose; while composing `'` separates
/// syllables, 1–9 and Space pick a word, Enter commits the typed letters,
/// Escape cancels, the arrows page, and other characters end the sentence;
/// while idle, punctuation commits its full-width mark if enabled.
pub open spec fn sp_pinyin_key(cfg: Config, s: PinyinState, input: KeyInput) -> (PinyinState, PinyinStepView) {
    let m = input.modifiers;
    let composing = s.input.len() > 0;
    let ps = cfg.page_size as nat;
    let t = pinyin_total_pages(s.cands.len(), ps) as int;
    if m.ctrl || m.alt || m.logo {
        (s, PinyinStepView::Done(ResponseView::Ignored))
    } else {
        match input.key {
            Key::Char(c) => {
                if 'a' <= c && c <= 'z' {
                    (PinyinState { input: s.input.push(c), ..s }, PinyinStepView::Reparse)
                } else if c == '\'' && composing {
                    (PinyinState { input: s.input.push(c), ..s }, PinyinStepView::Reparse)
                } else if composing && '1' <= c && c <= '9' {
                    (s, sp_pick(ps, s, c as int - '1' as int))
                } else if !composing && cfg.fullwidth_punctuation {
                    match punctuation_mark(c) {
                        Some(p) => (s, PinyinStepView::Done(ResponseView::Commit(p))),
                        None => (s, PinyinStepView::Done(ResponseView::Ignored)),
                    }
                } else if composing {
                    (
                        s,
                        PinyinStepView::CommitSentence(
                            if cfg.fullwidth_punctuation {
                                punctuation_mark(c)
                            } else {
                                None
                            },
                        ),
                    )
                } else {
                    (s, PinyinStepView::Done(ResponseView::Ignored))
                }
            },
            Key::Space => if composing {
                (s, sp_pick(ps, s, 0))
            } else {
                (s, PinyinStepView::Done(ResponseView::Ignored))
            },
            Key::Enter => if composing {
                (pinyin_idle(s), PinyinStepView::Reset(ResponseView::Commit(s.input)))
            } else {
                (s, PinyinStepView::Done(ResponseView::Ignored))
            },
            Key::Backspace => if !composing {
                (s, PinyinStepView::Done(ResponseView::Ignored))
            } else if s.chosen.len() > 0 {
                let c1 = s.chosen.drop_last();
                (
                    PinyinState { chosen: c1, ..s },
                    PinyinStepView::Unchoose(
                        if c1.len() > 0 {
                            c1.last()
                        } else {
                            0
                        },
                    ),
                )
            } else {
                (PinyinState { input: s.input.drop_last(), ..s }, PinyinStepView::Reparse)
            },
            Key::Escape => if composing {
                (pinyin_idle(s), PinyinStepView::Reset(ResponseView::Consumed))
            } else {
                (s, PinyinStepView::Done(ResponseView::Ignored))
            },
            Key::PageDown | Key::Down => if composing {
                (PinyinState { page: (s.page + 1) % t, ..s }, PinyinStepView::Done(ResponseView::Consumed))
            } else {
                (s, PinyinStepView::Done(ResponseView::Ignored))
            },
            Key::PageUp | Key::Up => if composing {
                (
                    PinyinState { page: (s.page + t - 1) % t, ..s },
                    PinyinStepView::Done(ResponseView::Consumed),
                )
            } else {
                (s, PinyinStepView::Done(ResponseView::Ignored))
            },
            _ => if composing {
                (s, PinyinStepView::Done(ResponseView::Consumed))
            } else {
                (s, PinyinStepView::Done(ResponseView::Ignored))
            },
        }
    }
}

/// The response once the sentence `text` was committed for a key: the
/// sentence and the mark, or the sentence with the key forwarded.
pub open spec fn sentence_response(text: Seq<char>, mark: Option<Seq<char>>) -> ResponseView {
    match mark {
        Some(p) => ResponseView::Commit(text + p),
        None => ResponseView::CommitAndForward(text),
    }
}

/// What follows libpinyin's choice of a word.
#[derive(Debug, Clone, Copy, PartialEq, Eq, Structural)]
pub enum Choice {
    /// Nothing was chosen: respond `Consumed`, nothing changes.
    Unchanged,
    /// The choice covers the whole input: commit the guessed sentence
    /// ([`PinyinEngine::sentence_committed`] with `from_pick`).
    CommitSentence,
    /// The choice was kept: guess the sentence again, hand the new
    /// candidates to [`PinyinEngine::set_candidates`], respond `Consumed`.
    Chosen,
}

/// The response to the key once a choice is settled: `Consumed` when
/// nothing was chosen or the choice was kept; a committed sentence is
/// answered by [`PinyinEngine::sentence_committed`] instead.
pub open spec fn choice_response(c: Choice) -> Option<ResponseView> {
    match c {
        Choice::Unchanged => Some(ResponseView::Consumed),
        Choice::Chosen => Some(ResponseView::Consumed),
        Choice::CommitSentence => None,
    }
}

impl Choice {
    /// The response to give for this outcome, unless the sentence is to be
    /// committed.
    pub fn response(self) -> (r: Option<Response>)
        ensures
            match r {
                Some(x) => choice_response(self) == Some(x@),
                None => choice_response(self) is None,
            },
    {
        match self {
            Choice::Unchanged => Some(Response::Consumed),
            Choice::Chosen => Some(Response::Consumed),
            Choice::CommitSentence => None,
        }
    }
}

/// The state and outcome after libpinyin answered a choice with
/// `new_offset` (`None`: no such candidate) for an input of `n_pinyin` keys.
pub open spec fn sp_choice(s: PinyinState, new_offset: Option<i32>, n_pinyin: usize) -> (PinyinState, Choice) {
    match new_offset {
        None => (s, Choice::Unchanged),
        Some(o) => if o < 0 {
            (s, Choice::Unchanged)
        } else if o >= n_pinyin {
            (s, Choice::CommitSentence)
        } else {
            (PinyinState { chosen: s.chosen.push(o as usize), ..s }, Choice::Chosen)
        },
    }
}

/// After committing the guessed sentence `text`: the engine starts over,
/// the commit is counted (the dictionary is due to be saved every tenth
/// time, which resets the count), and the key is answered — with the
/// sentence alone after a word choice, else with the sentence and the mark
/// or the sentence and the key forwarded.
pub open spec fn sp_sentence_committed(
    s: PinyinState,
    text: Seq<char>,
    mark: Option<Seq<char>>,
    from_pick: bool,
) -> (PinyinState, bool, ResponseView) {
    let save = s.commits_since_save + 1 >= save_every();
    (
        PinyinState {
            commits_since_save: if save {
                0
            } else {
                (s.commits_since_save + 1) as u32
            },
            ..pinyin_idle(s)
        },
        save,
        if from_pick {
            ResponseView::Commit(text)
        } else {
            sentence_response(text, mark)
        },
    )
}

/// Commits between saves of the user dictionary.
pub open spec fn save_every() -> u32 {
    10
}

/// Smart Pinyin engine state (the libpinyin instance lives with the caller).
pub struct PinyinEngine {
    cfg: Config,
    input: Vec<char>,
    chosen: Vec<usize>,
    candidates: Vec<Candidate>,
    page: usize,
    commits_since_save: u32,
}

impl PinyinEngine {
    /// The plain state.
    pub closed spec fn state(&self) -> PinyinState {
        PinyinState {
            input: self.input@,
            chosen: self.chosen@,
            cands: candidates_view(self.candidates@),
            page: self.page as int,
            commits_since_save: self.commits_since_save,
        }
    }

    /// The configuration.
    pub closed spec fn config(&self) -> Config {
        self.cfg
    }

    /// Page in range, page size positive, save counter below the threshold.
    pub open spec fn wf(&self) -> bool {
        &&& self.config().page_size > 0
        &&& 0 <= self.state().page < pinyin_total_pages(self.state().cands.len(), self.config().page_size as nat)
        &&& self.state().commits_since_save < save_every()
    }

    /// A fresh engine.
    pub fn new(cfg: Config) -> (e: Self)
        requires
            cfg.page_size > 0,
        ensures
            e.wf(),
            e.config() == cfg,
            e.state().input.len() == 0,
            e.state().chosen.len() == 0,
            e.state().cands.len() == 0,
            e.state().page == 0,
            e.state().commits_since_save == 0,
    {
        PinyinEngine {
            cfg,
            input: Vec::new(),
            chosen: Vec::new(),
            candidates: Vec::new(),
            page: 0,
            commits_since_save: 0,
        }
    }

    /// The typed keys.
    pub fn input(&self) -> (s: String)
        ensures
            s@ == self.state().input,
    {
        string_from_chars(&self.input)
    }

    /// The scheme in use.
    pub fn scheme(&self) -> (s: Scheme)
        ensures
            s == self.config().scheme,
    {
        self.cfg.scheme
    }

    /// Where the next word choice starts: after the last chosen word.
    pub fn offset(&self) -> (o: usize)
        ensures
            o == (if self.state().chosen.len() > 0 {
                self.state().chosen.last()
            } else {
                0
            }),
    {
        if self.chosen.len() > 0 {
            self.chosen[self.chosen.len() - 1]
        } else {
            0
        }
    }

    fn total_pages(&self) -> (t: usize)
        requires
            self.cfg.page_size > 0,
        ensures
            t == pinyin_total_pages(self.candidates@.len(), self.cfg.page_size as nat),
            t >= 1,
    {
        let n = self.candidates.len();
        if n == 0 {
            1
        } else {
            (n - 1) / self.cfg.page_size + 1
        }
    }

    fn pick(&self, i: usize) -> (st: PinyinStep)
        requires
            self.wf(),
            i <= 8,
        ensures
            st@ == sp_pick(self.cfg.page_size as nat, self.state(), i as int),
    {
        let n = self.candidates.len();
        if n == 0 {
            return PinyinStep::Done(Response::Consumed);
        }
        proof {
            assert(self.page as int <= (n - 1) as int / self.cfg.page_size as int);
            let pg = self.page as int;
            let psz = self.cfg.page_size as int;
            let nn = n as int;
            assert(pg * psz <= ((nn - 1) / psz) * psz) by (nonlinear_arith)
                requires
                    pg <= (nn - 1) / psz,
                    psz > 0,
            ;
            assert(((nn - 1) / psz) * psz <= nn - 1) by (nonlinear_arith)
                requires
                    psz > 0,
                    nn > 0,
            ;
        }
        let start = self.page * self.cfg.page_size;
        if i >= n - start {
            PinyinStep::Done(Response::Consumed)
        } else {
            PinyinStep::Select(start + i)
        }
    }

    /// Handle one key press; the returned step says what libpinyin must do.
    pub fn process_key(&mut self, input: KeyInput) -> (st: PinyinStep)
        requires
            old(self).wf(),
        ensures
            final(self).wf(),
            final(self).config() == old(self).config(),
            (final(self).state(), st@) == sp_pinyin_key(old(self).config(), old(self).state(), input),
    {
        let m = input.modifiers;
        if m.ctrl || m.alt || m.logo {
            return PinyinStep::Done(Response::Ignored);
        }
        let composing = self.input.len() > 0;
        match input.key {
            Key::Char(c) => {
                if 'a' <= c && c <= 'z' {
                    self.input.push(c);
                    PinyinStep::Reparse
                } else if c == '\'' && composing {
                    self.input.push(c);
                    PinyinStep::Reparse
                } else if composing && '1' <= c && c <= '9' {
                    let i = (c as u32) - ('1' as u32);
                    self.pick(i as usize)
                } else if !composing && self.cfg.fullwidth_punctuation {
                    match punctuation(c) {
                        Some(p) => PinyinStep::Done(Response::Commit(p.to_owned())),
                        None => PinyinStep::Done(Response::Ignored),
                    }
                } else if composing {
                    let mark = if self.cfg.fullwidth_punctuation {
                        match punctuation(c) {
                            Some(p) => Some(p.to_owned()),
                            None => None,
                        }
                    } else {
                        None
                    };
                    PinyinStep::CommitSentence(mark)
                } else {
                    PinyinStep::Done(Response::Ignored)
                }
            },
            Key::Space => {
                if composing {
                    self.pick(0)
                } else {
                    PinyinStep::Done(Response::Ignored)
                }
            },
            Key::Enter => {
                if composing {
                    let raw = string_from_chars(&self.input);
                    self.clear();
                    PinyinStep::Reset(Response::Commit(raw))
                } else {
                    PinyinStep::Done(Response::Ignored)
                }
            },
            Key::Backspace => {
                if !composing {
                    PinyinStep::Done(Response::Ignored)
                } else if self.chosen.len() > 0 {
                    self.chosen.pop();
                    PinyinStep::Unchoose(self.offset())
                } else {
                    self.input.pop();
                    PinyinStep::Reparse
                }
            },
            Key::Escape => {
                if composing {
                    self.clear();
                    PinyinStep::Reset(Response::Consumed)
                } else {
                    PinyinStep::Done(Response::Ignored)
                }
            },
            Key::PageDown | Key::Down => {
                if composing {
                    let t = self.total_pages();
                    self.page = (self.page + 1) % t;
                    PinyinStep::Done(Response::Consumed)
                } else {
                    PinyinStep::Done(Response::Ignored)
                }
            },
            Key::PageUp | Key::Up => {
                if composing {
                    let t = self.total_pages();
                    let p = if self.page == 0 {
                        t - 1
                    } else {
                        self.page - 1
                    };
                    proof {
                        let pg = self.page as int;
                        let ti = t as int;
                        if pg == 0 {
                            vstd::arithmetic::div_mod::lemma_small_mod((ti - 1) as nat, ti as nat);
                        } else {
                            vstd::arithmetic::div_mod::lemma_mod_add_multiples_vanish(pg - 1, ti);
                            vstd::arithmetic::div_mod::lemma_small_mod((pg - 1) as nat, ti as nat);
                        }
                    }
                    self.page = p;
                    PinyinStep::Done(Response::Consumed)
                } else {
                    PinyinStep::Done(Response::Ignored)
                }
            },
            _ => {
                if composing {
                    PinyinStep::Done(Response::Consumed)
                } else {
                    PinyinStep::Done(Response::Ignored)
                }
            },
        }
    }

    fn clear(&mut self)
        ensures
            final(self).state() == pinyin_idle(old(self).state()),
            final(self).cfg == old(self).cfg,
    {
        self.input = Vec::new();
        self.chosen = Vec::new();
        self.candidates = Vec::new();
        self.page = 0;
        assert(self.state().input =~= Seq::<char>::empty());
        assert(self.state().chosen =~= Seq::<usize>::empty());
        assert(self.state().cands =~= Seq::<CandidateView>::empty());
    }

    /// Discard the composition (the caller resets libpinyin too).
    pub fn reset(&mut self)
        requires
            old(self).wf(),
        ensures
            final(self).wf(),
            final(self).config() == old(self).config(),
            final(self).state() == pinyin_idle(old(self).state()),
    {
        self.clear();
    }

    /// New candidates from libpinyin, in its order; empty texts are skipped
    /// and no candidates are kept while nothing is typed. Back to page 0.
    pub fn set_candidates(&mut self, texts: Vec<String>)
        requires
            old(self).wf(),
        ensures
            final(self).wf(),
            final(self).config() == old(self).config(),
            final(self).state().input == old(self).state().input,
            final(self).state().chosen == old(self).state().chosen,
            final(self).state().commits_since_save == old(self).state().commits_since_save,
            final(self).state().page == 0,
            old(self).state().input.len() == 0 ==> final(self).state().cands.len() == 0,
            old(self).state().input.len() > 0 ==> final(self).state().cands == texts@.map_values(
                |t: String| t@,
            ).filter(|t: Seq<char>| t.len() > 0).map_values(
                |t: Seq<char>| CandidateView { text: t, hint: None },
            ),
    {
        self.candidates = Vec::new();
        self.page = 0;
        if self.input.len() == 0 {
            assert(candidates_view(self.candidates@) =~= Seq::<CandidateView>::empty());
            return;
        }
        let ghost tv = texts@.map_values(|t: String| t@);
        let mut out: Vec<Candidate> = Vec::new();
        let mut i: usize = 0;
        while i < texts.len()
            invariant
                i <= texts.len(),
                tv == texts@.map_values(|t: String| t@),
                candidates_view(out@) == tv.take(i as int).filter(|t: Seq<char>| t.len() > 0).map_values(
                    |t: Seq<char>| CandidateView { text: t, hint: None },
                ),
            decreases texts.len() - i,
        {
            let ghost before = out@;
            proof {
                assert(tv.take(i + 1) =~= tv.take(i as int).push(texts@[i as int]@));
                tv.take(i as int).lemma_filter_push(texts@[i as int]@, |t: Seq<char>| t.len() > 0);
            }
            if !texts[i].as_str().is_empty() {
                out.push(Candidate { text: texts[i].clone(), hint: None });
                assert(candidates_view(out@) =~= candidates_view(before).push(
                    CandidateView { text: texts@[i as int]@, hint: None },
                ));
            }
            i = i + 1;
        }
        assert(tv.take(texts.len() as int) =~= tv);
        self.candidates = out;
    }

    /// A word was chosen; the next choice starts at `new_offset`.
    pub fn chose(&mut self, new_offset: usize)
        requires
            old(self).wf(),
        ensures
            final(self).wf(),
            final(self).config() == old(self).config(),
            final(self).state() == (PinyinState { chosen: old(self).state().chosen.push(new_offset), ..old(self).state() }),
    {
        self.chosen.push(new_offset);
    }

    /// What follows libpinyin's choice of candidate `index` (from a
    /// [`PinyinStep::Select`]): `new_offset` is the offset libpinyin returned
    /// for the choice, `None` when it had no such candidate, and `n_pinyin`
    /// the number of pinyin keys in the parsed input. A missing candidate or
    /// a negative offset changes nothing; an offset at or past the end means
    /// the whole sentence is chosen and is to be committed; otherwise the
    /// choice is kept and composing goes on from the new offset.
    pub fn choice_made(&mut self, new_offset: Option<i32>, n_pinyin: usize) -> (c: Choice)
        requires
            old(self).wf(),
        ensures
            final(self).wf(),
            final(self).config() == old(self).config(),
            (final(self).state(), c) == sp_choice(old(self).state(), new_offset, n_pinyin),
            c is CommitSentence <==> choice_response(c) is None,
            !(c is CommitSentence) ==> choice_response(c) == Some(ResponseView::Consumed),
    {
        match new_offset {
            None => Choice::Unchanged,
            Some(o) => {
                if o < 0 {
                    Choice::Unchanged
                } else if o as usize >= n_pinyin {
                    Choice::CommitSentence
                } else {
                    self.chosen.push(o as usize);
                    Choice::Chosen
                }
            },
        }
    }

    /// The line above the candidates: nothing while idle, else libpinyin's
    /// segmented pinyin for the typed keys (`auxiliary`).
    pub fn header(&self, auxiliary: String) -> (h: String)
        ensures
            self.state().input.len() == 0 ==> h@.len() == 0,
            self.state().input.len() > 0 ==> h@ == auxiliary@,
    {
        if self.input.len() == 0 {
            String::new()
        } else {
            auxiliary
        }
    }

    /// The composition shown in the text field: empty while idle, else
    /// libpinyin's guessed `sentence` with the cursor at its end.
    pub fn preedit(&self, sentence: String) -> (p: Preedit)
        ensures
            self.state().input.len() == 0 ==> p.text@.len() == 0 && p.cursor == 0,
            self.state().input.len() > 0 ==> p.text@ == sentence@ && p.cursor == vstd::utf8::encode_utf8(
                sentence@,
            ).len() as usize,
    {
        if self.input.len() == 0 {
            Preedit { text: String::new(), cursor: 0 }
        } else {
            let cursor = sentence.as_str().len();
            Preedit { text: sentence, cursor }
        }
    }

    /// The guessed sentence was committed (libpinyin trained on it): count
    /// the commit, start over, and answer the key. Returns whether the user
    /// dictionary is due to be saved (every tenth commit), and the response.
    pub fn sentence_committed(&mut self, text: String, mark: Option<String>, from_pick: bool) -> (r: (bool, Response))
        requires
            old(self).wf(),
        ensures
            final(self).wf(),
            final(self).config() == old(self).config(),
            (final(self).state(), r.0, r.1@) == sp_sentence_committed(
                old(self).state(),
                text@,
                match mark {
                    Some(p) => Some(p@),
                    None => None,
                },
                from_pick,
            ),
    {
        self.commits_since_save = self.commits_since_save + 1;
        let save = self.commits_since_save >= 10;
        if save {
            self.commits_since_save = 0;
        }
        self.clear();
        let resp = if from_pick {
            Response::Commit(text)
        } else {
            match mark {
                Some(p) => Response::Commit(concat_strings(&text, &p)),
                None => Response::CommitAndForward(text),
            }
        };
        (save, resp)
    }

    /// The dictionary was saved on the engine's drop: no unsaved commits.
    pub fn saved(&mut self)
        requires
            old(self).wf(),
        ensures
            final(self).wf(),
            final(self).config() == old(self).config(),
            final(self).state() == (PinyinState { commits_since_save: 0, ..old(self).state() }),
    {
        self.commits_since_save = 0;
    }

    /// Whether commits are waiting to be saved.
    pub fn unsaved_commits(&self) -> (b: bool)
        ensures
            b == (self.state().commits_since_save > 0),
    {
        self.commits_since_save > 0
    }

    /// The display name.
    pub fn name(&self) -> (n: &'static str)
        ensures
            n@ == (if self.config().scheme != Scheme::Full {
                "双拼"@
            } else {
                "拼音"@
            }),
    {
        if self.cfg.scheme.is_double() {
            "双拼"
        } else {
            "拼音"
        }
    }

    /// Candidates on the current page.
    pub fn candidates(&self) -> (c: Vec<Candidate>)
        requires
            self.wf(),
        ensures
            candidates_view(c@) == self.state().cands.subrange(
                if self.state().page * self.config().page_size < self.state().cands.len() {
                    self.state().page * self.config().page_size
                } else {
                    self.state().cands.len() as int
                },
                if self.state().page * self.config().page_size + self.config().page_size < self.state().cands.len() {
                    self.state().page * self.config().page_size + self.config().page_size
                } else {
                    self.state().cands.len() as int
                },
            ),
    {
        let n = self.candidates.len();
        let ps = self.cfg.page_size;
        if n == 0 {
            let c = copy_candidates(&self.candidates, 0, 0);
            assert(candidates_view(self.candidates@).subrange(0, 0) =~= candidates_view(self.candidates@.subrange(0, 0)));
            return c;
        }
        proof {
            let pg = self.page as int;
            let psz = ps as int;
            let nn = n as int;
            assert(pg * psz <= ((nn - 1) / psz) * psz) by (nonlinear_arith)
                requires
                    pg <= (nn - 1) / psz,
                    psz > 0,
            ;
            assert(((nn - 1) / psz) * psz <= nn - 1) by (nonlinear_arith)
                requires
                    psz > 0,
                    nn > 0,
            ;
        }
        let start = self.page * ps;
        let end = if n - start <= ps {
            n
        } else {
            start + ps
        };
        let c = copy_candidates(&self.candidates, start, end);
        assert(candidates_view(self.candidates@).subrange(start as int, end as int) =~= candidates_view(
            self.candidates@.subrange(start as int, end as int),
        ));
        c
    }

    /// Current page, number of pages and page size.
    pub fn page_info(&self) -> (i: PageInfo)
        requires
            self.wf(),
        ensures
            i.page == self.state().page,
            i.total_pages is Some,
            i.total_pages->0 as nat == pinyin_total_pages(self.state().cands.len(), self.config().page_size as nat),
            i.page < i.total_pages->0,
            i.has_next == (self.state().page + 1 < pinyin_total_pages(self.state().cands.len(), self.config().page_size as nat)),
            i.page_size == self.config().page_size,
    {
        let t = self.total_pages();
        PageInfo { page: self.page, total_pages: Some(t), has_next: self.page + 1 < t, page_size: self.cfg.page_size }
    }

    /// Whether letters are being composed.
    pub fn is_composing(&self) -> (b: bool)
        ensures
            b == (self.state().input.len() > 0),
    {
        self.input.len() > 0
    }
}

/// Enter commits exactly the typed letters and starts over.
pub proof fn law_enter_commits_raw(cfg: Config, s: PinyinState, input: KeyInput)
    requires
        input.key == Key::Enter,
        !input.modifiers.ctrl && !input.modifiers.alt && !input.modifiers.logo,
        s.input.len() > 0,
    ensures
        sp_pinyin_key(cfg, s, input) == (pinyin_idle(s), PinyinStepView::Reset(ResponseView::Commit(s.input))),
{
}

/// Backspace first undoes the last word choice, and deletes letters only
/// once no choice is left.
pub proof fn law_backspace_undoes_choice_first(cfg: Config, s: PinyinState, input: KeyInput)
    requires
        input.key == Key::Backspace,
        !input.modifiers.ctrl && !input.modifiers.alt && !input.modifiers.logo,
        s.input.len() > 0,
    ensures
        s.chosen.len() > 0 ==> sp_pinyin_key(cfg, s, input).0.input == s.input
            && sp_pinyin_key(cfg, s, input).0.chosen == s.chosen.drop_last(),
        s.chosen.len() == 0 ==> sp_pinyin_key(cfg, s, input).0.input == s.input.drop_last()
            && sp_pinyin_key(cfg, s, input).1 == PinyinStepView::Reparse,
{
}

/// Punctuation ends a sentence: the sentence is committed first, then the
/// full-width mark.
pub proof fn law_sentence_then_mark(text: Seq<char>, p: Seq<char>)
    ensures
        sentence_response(text, Some(p)) == ResponseView::Commit(text + p),
        sentence_response(text, None) == ResponseView::CommitAndForward(text),
{
}


/// Space on a composition whose first shown word libpinyin takes to the
/// end of the input commits the whole guessed sentence and leaves the
/// engine idle; a shorter choice keeps composing from the new offset.
pub proof fn law_space_commits_whole_sentence(
    cfg: Config,
    s: PinyinState,
    m: Modifiers,
    o: i32,
    n_pinyin: usize,
    text: Seq<char>,
)
    requires
        !m.ctrl && !m.alt && !m.logo,
        s.input.len() > 0,
        s.page * cfg.page_size < s.cands.len(),
        0 <= o,
    ensures
        sp_pinyin_key(cfg, s, KeyInput { key: Key::Space, modifiers: m }) == (
            s,
            PinyinStepView::Select((s.page * cfg.page_size) as usize),
        ),
        o >= n_pinyin ==> sp_choice(s, Some(o), n_pinyin).1 == Choice::CommitSentence
            && sp_sentence_committed(s, text, None, true).2 == ResponseView::Commit(text)
            && sp_sentence_committed(s, text, None, true).0.input.len() == 0,
        o < n_pinyin ==> sp_choice(s, Some(o), n_pinyin) == (
            PinyinState { chosen: s.chosen.push(o as usize), ..s },
            Choice::Chosen,
        ),
{
}


/// While composing, Page Down (or Down) shows the next page, and after the
/// last page the first; Page Up (or Up) shows the previous page, and before
/// the first the last; both consume the key and keep everything else. Page
/// Down then Page Up gives back the page it started from.
pub proof fn law_pinyin_page_keys(cfg: Config, s: PinyinState, m: Modifiers)
    requires
        !m.ctrl && !m.alt && !m.logo,
        s.input.len() > 0,
        cfg.page_size > 0,
        0 <= s.page < pinyin_total_pages(s.cands.len(), cfg.page_size as nat),
    ensures
        ({
            let t = pinyin_total_pages(s.cands.len(), cfg.page_size as nat) as int;
            let down = sp_pinyin_key(cfg, s, KeyInput { key: Key::PageDown, modifiers: m });
            let up = sp_pinyin_key(cfg, s, KeyInput { key: Key::PageUp, modifiers: m });
            &&& down == (
                PinyinState {
                    page: if s.page + 1 < t {
                        s.page + 1
                    } else {
                        0
                    },
                    ..s
                },
                PinyinStepView::Done(ResponseView::Consumed),
            )
            &&& up == (
                PinyinState {
                    page: if s.page > 0 {
                        s.page - 1
                    } else {
                        t - 1
                    },
                    ..s
                },
                PinyinStepView::Done(ResponseView::Consumed),
            )
            &&& sp_pinyin_key(cfg, s, KeyInput { key: Key::Down, modifiers: m }) == down
            &&& sp_pinyin_key(cfg, s, KeyInput { key: Key::Up, modifiers: m }) == up
            &&& sp_pinyin_key(cfg, down.0, KeyInput { key: Key::PageUp, modifiers: m }).0 == s
        }),
{
    let t = pinyin_total_pages(s.cands.len(), cfg.page_size as nat) as int;
    let p = s.page;
    if p + 1 < t {
        vstd::arithmetic::div_mod::lemma_small_mod((p + 1) as nat, t as nat);
        vstd::arithmetic::div_mod::lemma_mod_add_multiples_vanish(p, t);
        vstd::arithmetic::div_mod::lemma_small_mod(p as nat, t as nat);
    } else {
        vstd::arithmetic::div_mod::lemma_mod_self_0(t);
        vstd::arithmetic::div_mod::lemma_small_mod((t - 1) as nat, t as nat);
    }
    if p > 0 {
        vstd::arithmetic::div_mod::lemma_mod_add_multiples_vanish(p - 1, t);
        vstd::arithmetic::div_mod::lemma_small_mod((p - 1) as nat, t as nat);
    } else {
        vstd::arithmetic::div_mod::lemma_small_mod((t - 1) as nat, t as nat);
    }
}

/// While composing, a digit 1–9 (and Space, for the first) chooses the word
/// with that number on the page being shown — index
/// `page * page_size + digit - 1` of the whole list — when there is one,
/// and otherwise is consumed with nothing chosen.
pub proof fn law_pinyin_digit_picks_on_shown_page(cfg: Config, s: PinyinState, m: Modifiers, d: char)
    requires
        !m.ctrl && !m.alt && !m.logo,
        s.input.len() > 0,
        '1' <= d <= '9',
        s.page >= 0,
    ensures
        ({
            let i = s.page * cfg.page_size + (d as int - '1' as int);
            &&& i < s.cands.len() ==> sp_pinyin_key(cfg, s, KeyInput { key: Key::Char(d), modifiers: m })
                == (s, PinyinStepView::Select(i as usize))
            &&& i >= s.cands.len() ==> sp_pinyin_key(cfg, s, KeyInput { key: Key::Char(d), modifiers: m })
                == (s, PinyinStepView::Done(ResponseView::Consumed))
        }),
        s.page * cfg.page_size < s.cands.len() ==> sp_pinyin_key(
            cfg,
            s,
            KeyInput { key: Key::Space, modifiers: m },
        ) == (s, PinyinStepView::Select((s.page * cfg.page_size) as usize)),
{
}


/// The user dictionary is due to be saved on every tenth committed
/// sentence: the count of commits since the last save goes up by one and
/// returns to 0 when it reaches ten.
pub proof fn law_save_every_tenth(s: PinyinState, text: Seq<char>, mark: Option<Seq<char>>, from_pick: bool)
    requires
        s.commits_since_save < 10,
    ensures
        sp_sentence_committed(s, text, mark, from_pick).1 == (s.commits_since_save == 9),
        sp_sentence_committed(s, text, mark, from_pick).0.commits_since_save == (if s.commits_since_save == 9 {
            0
        } else {
            s.commits_since_save + 1
        }),
        sp_sentence_committed(s, text, mark, from_pick).0.input.len() == 0,
{
}

/// The full-width marks: ，。？！：；（）《》、～ and …… for ^, —— for _,
/// ￥ for $; other keys have none.
pub proof fn law_punctuation_marks(c: char)
    ensures
        punctuation_mark(',') == Some("，"@),
        punctuation_mark('.') == Some("。"@),
        punctuation_mark('?') == Some("？"@),
        punctuation_mark('!') == Some("！"@),
        punctuation_mark(':') == Some("："@),
        punctuation_mark(';') == Some("；"@),
        punctuation_mark('(') == Some("（"@),
        punctuation_mark(')') == Some("）"@),
        punctuation_mark('<') == Some("《"@),
        punctuation_mark('>') == Some("》"@),
        punctuation_mark('\\') == Some("、"@),
        punctuation_mark('~') == Some("～"@),
        punctuation_mark('^') == Some("……"@),
        punctuation_mark('_') == Some("——"@),
        punctuation_mark('$') == Some("￥"@),
        'a' <= c <= 'z' ==> punctuation_mark(c) is None,
        '0' <= c <= '9' ==> punctuation_mark(c) is None,
{
}

} // verus!
