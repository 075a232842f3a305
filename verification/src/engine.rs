//! Frontend-agnostic input engine interface.
//!
//! The Wayland frontend translates raw key events into [`KeyInput`], hands them
//! to an engine, and renders whatever the engine reports as preedit and
//! candidates afterwards.
use vstd::prelude::*;

verus! {

/// Modifier keys held while a key was pressed.
#[derive(Debug, Clone, Copy, PartialEq, Eq, Structural)]
pub struct Modifiers {
    pub shift: bool,
    pub ctrl: bool,
    pub alt: bool,
    pub logo: bool,
}

impl Default for Modifiers {
    fn default() -> (m: Modifiers)
        ensures
            !m.shift && !m.ctrl && !m.alt && !m.logo,
    {
        Modifiers { shift: false, ctrl: false, alt: false, logo: false }
    }
}

impl Modifiers {
    /// True when any modifier is held.
    pub fn any(&self) -> (r: bool)
        ensures
            r == (self.shift || self.ctrl || self.alt || self.logo),
    {
        self.shift || self.ctrl || self.alt || self.logo
    }

    /// True when Ctrl, Alt or Super is held: such chords belong to the
    /// application, never to the engine.
    pub fn has_command(&self) -> (r: bool)
        ensures
            r == (self.ctrl || self.alt || self.logo),
    {
        self.ctrl || self.alt || self.logo
    }
}

/// Which modifier key a [`Key::Modifier`] press was.
#[derive(Debug, Clone, Copy, PartialEq, Eq, Structural)]
pub enum ModifierKey {
    ShiftL,
    ShiftR,
    ControlL,
    ControlR,
    AltL,
    AltR,
    SuperL,
    SuperR,
    Other,
}

/// Keys the engine cares about beyond plain characters.
#[derive(Debug, Clone, Copy, PartialEq, Eq, Structural)]
pub enum Key {
    Char(char),
    Backspace,
    Escape,
    Space,
    Enter,
    Tab,
    Up,
    Down,
    Left,
    Right,
    PageUp,
    PageDown,
    /// Shift, Ctrl, Alt, Super and friends.
    Modifier(ModifierKey),
    Other,
}

/// One key press as the engine sees it.
#[derive(Debug, Clone, Copy, PartialEq, Eq, Structural)]
pub struct KeyInput {
    pub key: Key,
    pub modifiers: Modifiers,
}

/// A candidate as a pair of character sequences.
pub struct CandidateView {
    pub text: Seq<char>,
    pub hint: Option<Seq<char>>,
}

/// One entry of the candidate list.
#[derive(Debug, Clone, PartialEq, Eq)]
pub struct Candidate {
    pub text: String,
    /// Full input code for this candidate, shown as a hint (e.g. Cangjie radicals).
    pub hint: Option<String>,
}

impl View for Candidate {
    type V = CandidateView;

    open spec fn view(&self) -> CandidateView {
        CandidateView {
            text: self.text@,
            hint: match self.hint {
                Some(h) => Some(h@),
                None => None,
            },
        }
    }
}

/// The views of a list of candidates.
pub open spec fn candidates_view(s: Seq<Candidate>) -> Seq<CandidateView> {
    s.map_values(|c: Candidate| c@)
}

impl Candidate {
    /// A copy of this candidate.
    pub fn duplicate(&self) -> (c: Candidate)
        ensures
            c@ == self@,
    {
        let hint = match &self.hint {
            Some(h) => Some(h.clone()),
            None => None,
        };
        Candidate { text: self.text.clone(), hint }
    }
}

/// Copies of the candidates in `s[from..to]`.
pub fn copy_candidates(s: &Vec<Candidate>, from: usize, to: usize) -> (r: Vec<Candidate>)
    requires
        from <= to <= s.len(),
    ensures
        candidates_view(r@) == candidates_view(s@.subrange(from as int, to as int)),
{
    let mut r: Vec<Candidate> = Vec::new();
    let mut i: usize = from;
    while i < to
        invariant
            from <= i <= to <= s.len(),
            r@.len() == i - from,
            candidates_view(r@) == candidates_view(s@.subrange(from as int, i as int)),
        decreases to - i,
    {
        let c = s[i].duplicate();
        let ghost before = r@;
        r.push(c);
        assert(candidates_view(r@) =~= candidates_view(s@.subrange(from as int, i + 1))) by {
            assert(r@ == before.push(c));
            assert(candidates_view(before) =~= candidates_view(s@.subrange(from as int, i as int)));
            let sub = s@.subrange(from as int, i + 1);
            assert(sub.len() == r@.len());
            assert forall|k: int| 0 <= k < r@.len() implies #[trigger] candidates_view(r@)[k]
                == candidates_view(sub)[k] by {
                if k < before.len() {
                    assert(candidates_view(before)[k] == candidates_view(s@.subrange(from as int, i as int))[k]);
                    assert(r@[k] == before[k]);
                    assert(sub[k] == s@.subrange(from as int, i as int)[k]);
                } else {
                    assert(r@[k] == c);
                    assert(sub[k] == s@[i as int]);
                }
            }
        }
        i = i + 1;
    }
    r
}

/// Text being composed and the position of the cursor in it.
#[derive(Debug, Clone, PartialEq, Eq)]
pub struct Preedit {
    pub text: String,
    /// Byte offset of the cursor within `text`.
    pub cursor: usize,
}

impl Default for Preedit {
    fn default() -> (p: Preedit)
        ensures
            p.text@ == Seq::<char>::empty(),
            p.cursor == 0,
    {
        Preedit { text: String::new(), cursor: 0 }
    }
}

/// A response as character sequences.
pub enum ResponseView {
    Ignored,
    Consumed,
    Bell,
    Commit(Seq<char>),
    CommitAndForward(Seq<char>),
}

/// What the engine did with a key.
#[derive(Debug, Clone, PartialEq, Eq)]
pub enum Response {
    /// Engine did not handle it; frontend should forward it to the application.
    Ignored,
    /// Engine consumed it and its visible state may have changed.
    Consumed,
    /// Engine consumed it but the input was invalid; frontend may signal an error.
    Bell,
    /// Engine consumed it and wants `text` committed to the application.
    Commit(String),
    /// Commit `text`, then forward the key to the application as if ignored.
    CommitAndForward(String),
}

impl View for Response {
    type V = ResponseView;

    open spec fn view(&self) -> ResponseView {
        match self {
            Response::Ignored => ResponseView::Ignored,
            Response::Consumed => ResponseView::Consumed,
            Response::Bell => ResponseView::Bell,
            Response::Commit(t) => ResponseView::Commit(t@),
            Response::CommitAndForward(t) => ResponseView::CommitAndForward(t@),
        }
    }
}

/// Paging state of the candidate list.
#[derive(Debug, Clone, Copy, PartialEq, Eq, Structural)]
pub struct PageInfo {
    pub page: usize,
    /// `None` when the engine only knows whether a next page exists.
    pub total_pages: Option<usize>,
    pub has_next: bool,
    pub page_size: usize,
}

/// The interface every engine offers to the frontend.
pub trait InputEngine {
    fn name(&self) -> &str;

    fn process_key(&mut self, input: KeyInput) -> Response;

    /// Key releases; only engines that track them override this.
    fn release_key(&mut self, input: KeyInput) -> (r: Response)
        default_ensures
            r == Response::Ignored,
    {
        Response::Ignored
    }

    fn preedit(&self) -> Preedit;

    /// Candidates on the current page.
    fn candidates(&self) -> Vec<Candidate>;

    fn page_info(&self) -> PageInfo;

    /// Index within the current page that is highlighted.
    fn selected(&self) -> usize;

    /// Discard any in-progress composition.
    fn reset(&mut self);

    /// Whether a composition is in progress: by default, whether the
    /// preedit text is non-empty.
    fn is_composing(&self) -> (b: bool)
        default_ensures
            exists|p: Preedit| #[trigger] call_ensures(Self::preedit, (self,), p) && b == (p.text@.len() > 0),
    {
        let p = self.preedit();
        !p.text.as_str().is_empty()
    }

    /// Line shown above the candidates in the popup: by default, the
    /// preedit text.
    fn header(&self) -> (h: String)
        default_ensures
            exists|p: Preedit| #[trigger] call_ensures(Self::preedit, (self,), p) && h@ == p.text@,
    {
        self.preedit().text
    }
}

} // verus!
