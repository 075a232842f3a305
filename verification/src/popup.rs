//! Text of the candidate window: the typed header above the numbered
//! candidates, their hints, and a paging line.
use vstd::prelude::*;
use crate::engine::{Candidate, CandidateView, candidates_view, copy_candidates, PageInfo};
use crate::text::{decimal, decimal_digits, push_char};

verus! {

/// How a piece of popup text is drawn.
#[derive(Debug, Clone, Copy, PartialEq, Eq, Structural)]
pub enum SpanStyle {
    /// The typed text, bold.
    Header,
    /// A candidate line.
    Candidate,
    /// The highlighted candidate line, in the accent color.
    Highlight,
    /// Hints and paging, dimmed.
    Hint,
}

/// A styled piece of popup text as plain values.
pub struct SpanView {
    pub text: Seq<char>,
    pub style: SpanStyle,
}

/// A styled piece of popup text.
#[derive(Debug, Clone, PartialEq, Eq)]
pub struct Span {
    pub text: String,
    pub style: SpanStyle,
}

/// The views of a list of spans.
pub open spec fn spans_view(s: Seq<Span>) -> Seq<SpanView> {
    s.map_values(|x: Span| SpanView { text: x.text@, style: x.style })
}

/// The spans of candidate `i`: its numbered line, highlighted when it is
/// the selected one of several, then its hint if any.
pub open spec fn candidate_spans(i: nat, c: CandidateView, selected: nat, n: nat) -> Seq<SpanView> {
    seq![
        SpanView {
            text: seq!['\n'] + decimal_digits(i + 1) + seq!['.', ' '] + c.text,
            style: if i == selected && n > 1 {
                SpanStyle::Highlight
            } else {
                SpanStyle::Candidate
            },
        },
    ] + match c.hint {
        Some(h) => seq![SpanView { text: seq![' ', ' '] + h, style: SpanStyle::Hint }],
        None => Seq::empty(),
    }
}

/// The spans of the first `k` candidates.
pub open spec fn candidates_spans(cands: Seq<CandidateView>, k: nat, selected: nat) -> Seq<SpanView>
    decreases k,
{
    if k == 0 {
        Seq::empty()
    } else {
        candidates_spans(cands, (k - 1) as nat, selected) + candidate_spans(
            (k - 1) as nat,
            cands[k - 1],
            selected,
            cands.len(),
        )
    }
}

/// The paging line: "page/total" when the total is known and above one;
/// otherwise arrows around the page number when there is a page before or
/// after.
pub open spec fn paging_line(page: PageInfo) -> Option<Seq<char>> {
    match page.total_pages {
        Some(total) => if total > 1 {
            Some(seq!['\n'] + decimal_digits((page.page + 1) as nat) + seq!['/'] + decimal_digits(total as nat))
        } else {
            None
        },
        None => if page.page > 0 || page.has_next {
            Some(
                seq!['\n'] + (if page.page > 0 {
                    seq!['\u{25C2}', ' ']
                } else {
                    Seq::empty()
                }) + decimal_digits((page.page + 1) as nat) + (if page.has_next {
                    seq![' ', '\u{25B8}']
                } else {
                    Seq::empty()
                }),
            )
        } else {
            None
        },
    }
}

/// Everything the popup shows, or `None` to hide it (no header and no
/// candidates).
pub open spec fn popup_text(header: Seq<char>, cands: Seq<CandidateView>, page: PageInfo, selected: nat) -> Option<Seq<SpanView>> {
    if header.len() == 0 && cands.len() == 0 {
        None
    } else {
        Some(
            seq![SpanView { text: header, style: SpanStyle::Header }] + candidates_spans(cands, cands.len(), selected)
                + match paging_line(page) {
                Some(p) => seq![SpanView { text: p, style: SpanStyle::Hint }],
                None => Seq::empty(),
            },
        )
    }
}

fn push_span(spans: &mut Vec<Span>, text: String, style: SpanStyle)
    ensures
        spans_view(final(spans)@) == spans_view(old(spans)@).push(SpanView { text: text@, style }),
{
    let ghost t = text@;
    spans.push(Span { text, style });
    assert(spans_view(final(spans)@) =~= spans_view(old(spans)@).push(SpanView { text: t, style }));
}

/// The popup's styled text for `header` (the typed keys) and the page of
/// candidates, or `None` when there is nothing to show.
pub fn popup_spans(header: &String, candidates: &Vec<Candidate>, page: PageInfo, selected: usize) -> (r: Option<Vec<Span>>)
    ensures
        match r {
            Some(s) => popup_text(header@, candidates_view(candidates@), page, selected as nat) == Some(spans_view(s@)),
            None => popup_text(header@, candidates_view(candidates@), page, selected as nat) is None,
        },
{
    if header.as_str().is_empty() && candidates.len() == 0 {
        return None;
    }
    let ghost cv = candidates_view(candidates@);
    let mut spans: Vec<Span> = Vec::new();
    push_span(&mut spans, header.clone(), SpanStyle::Header);
    let ghost head = spans_view(spans@);
    let n = candidates.len();
    let mut i: usize = 0;
    while i < n
        invariant
            n == candidates.len(),
            cv == candidates_view(candidates@),
            i <= n,
            spans_view(spans@) == head + candidates_spans(cv, i as nat, selected as nat),
        decreases n - i,
    {
        let ghost before = spans_view(spans@);
        let mut line = String::new();
        push_char(&mut line, '\n');
        let num = decimal((i as u128) + 1);
        line.append(num.as_str());
        push_char(&mut line, '.');
        push_char(&mut line, ' ');
        line.append(candidates[i].text.as_str());
        assert(line@ =~= seq!['\n'] + decimal_digits((i + 1) as nat) + seq!['.', ' '] + candidates@[i as int].text@);
        let style = if i == selected && n > 1 {
            SpanStyle::Highlight
        } else {
            SpanStyle::Candidate
        };
        push_span(&mut spans, line, style);
        let ghost mid = spans_view(spans@);
        match &candidates[i].hint {
            Some(h) => {
                let mut t = String::new();
                push_char(&mut t, ' ');
                push_char(&mut t, ' ');
                t.append(h.as_str());
                assert(t@ =~= seq![' ', ' '] + h@);
                push_span(&mut spans, t, SpanStyle::Hint);
                assert(cv[i as int].hint == Some(h@));
            },
            None => {
                assert(cv[i as int].hint is None);
            },
        }
        proof {
            assert(cv[i as int] == candidates@[i as int]@);
            assert(spans_view(spans@) =~~= before + candidate_spans(i as nat, cv[i as int], selected as nat, n as nat));
        }
        i = i + 1;
    }
    let ghost mid = spans_view(spans@);
    let paging: Option<String> = match page.total_pages {
        Some(total) => {
            if total > 1 {
                let mut p = String::new();
                push_char(&mut p, '\n');
                p.append(decimal((page.page as u128) + 1).as_str());
                push_char(&mut p, '/');
                p.append(decimal(total as u128).as_str());
                assert(p@ =~= seq!['\n'] + decimal_digits((page.page + 1) as nat) + seq!['/'] + decimal_digits(total as nat));
                Some(p)
            } else {
                None
            }
        },
        None => {
            if page.page > 0 || page.has_next {
                let mut p = String::new();
                push_char(&mut p, '\n');
                if page.page > 0 {
                    push_char(&mut p, '\u{25C2}');
                    push_char(&mut p, ' ');
                }
                p.append(decimal((page.page as u128) + 1).as_str());
                if page.has_next {
                    push_char(&mut p, ' ');
                    push_char(&mut p, '\u{25B8}');
                }
                assert(p@ =~= seq!['\n'] + (if page.page > 0 {
                    seq!['\u{25C2}', ' ']
                } else {
                    Seq::<char>::empty()
                }) + decimal_digits((page.page + 1) as nat) + (if page.has_next {
                    seq![' ', '\u{25B8}']
                } else {
                    Seq::<char>::empty()
                }));
                Some(p)
            } else {
                None
            }
        },
    };
    match paging {
        Some(p) => {
            assert(paging_line(page) == Some(p@));
            push_span(&mut spans, p, SpanStyle::Hint);
        },
        None => {
            assert(paging_line(page) is None);
        },
    }
    assert(spans_view(spans@) =~~= popup_text(header@, cv, page, selected as nat)->0);
    Some(spans)
}


/// What the popup last drew, as plain values.
pub struct ContentView {
    pub header: Seq<char>,
    pub cands: Seq<CandidateView>,
    pub page: PageInfo,
    pub selected: nat,
}

/// What the popup last drew, kept to draw it again when the output scale or
/// the style changes.
pub struct Content {
    pub header: String,
    pub candidates: Vec<Candidate>,
    pub page: PageInfo,
    pub selected: usize,
}

impl View for Content {
    type V = ContentView;

    open spec fn view(&self) -> ContentView {
        ContentView {
            header: self.header@,
            cands: candidates_view(self.candidates@),
            page: self.page,
            selected: self.selected as nat,
        }
    }
}

/// The popup as plain values: on screen or not, and what it last drew.
pub struct PopupView {
    pub visible: bool,
    pub last: Option<ContentView>,
}

/// What to do with the popup surface, as plain values.
pub enum SurfaceActionView {
    Keep,
    Detach,
    Draw(Seq<SpanView>),
}

/// What to do with the popup surface.
#[derive(Debug, Clone, PartialEq, Eq)]
pub enum SurfaceAction {
    /// Leave the surface as it is.
    Keep,
    /// Attach no buffer and commit: the popup disappears.
    Detach,
    /// Lay out these spans, draw them into a new buffer, attach it and
    /// commit; then report with [`PopupState::drawn`] whether it worked.
    Draw(Vec<Span>),
}

impl View for SurfaceAction {
    type V = SurfaceActionView;

    open spec fn view(&self) -> SurfaceActionView {
        match self {
            SurfaceAction::Keep => SurfaceActionView::Keep,
            SurfaceAction::Detach => SurfaceActionView::Detach,
            SurfaceAction::Draw(s) => SurfaceActionView::Draw(spans_view(s@)),
        }
    }
}

/// Closing forgets the content and takes the popup off screen if it was on.
pub open spec fn sp_close(v: PopupView) -> (PopupView, SurfaceActionView) {
    (
        PopupView { visible: false, last: None },
        if v.visible {
            SurfaceActionView::Detach
        } else {
            SurfaceActionView::Keep
        },
    )
}

/// Showing nothing closes; anything else is remembered and drawn.
pub open spec fn sp_show(v: PopupView, c: ContentView) -> (PopupView, SurfaceActionView) {
    match popup_text(c.header, c.cands, c.page, c.selected) {
        None => sp_close(v),
        Some(spans) => (PopupView { visible: v.visible, last: Some(c) }, SurfaceActionView::Draw(spans)),
    }
}

/// After a scale or style change: the remembered content is drawn again
/// while on screen; otherwise it is dropped and nothing is drawn.
pub open spec fn sp_redraw(v: PopupView) -> (PopupView, SurfaceActionView) {
    match v.last {
        Some(c) => if v.visible {
            sp_show(PopupView { visible: v.visible, last: None }, c)
        } else {
            (PopupView { visible: v.visible, last: None }, SurfaceActionView::Keep)
        },
        None => (v, SurfaceActionView::Keep),
    }
}

/// The popup's own state between surface operations.
pub struct PopupState {
    visible: bool,
    last: Option<Content>,
}

impl View for PopupState {
    type V = PopupView;

    closed spec fn view(&self) -> PopupView {
        PopupView {
            visible: self.visible,
            last: match self.last {
                Some(c) => Some(c@),
                None => None,
            },
        }
    }
}

impl PopupState {
    /// A popup that is not on screen and remembers nothing.
    pub fn new() -> (p: PopupState)
        ensures
            p@ == (PopupView { visible: false, last: None }),
    {
        PopupState { visible: false, last: None }
    }

    /// Whether the popup is on screen.
    pub fn is_visible(&self) -> (b: bool)
        ensures
            b == self@.visible,
    {
        self.visible
    }

    /// Take the popup off screen and forget what it showed.
    pub fn close(&mut self) -> (a: SurfaceAction)
        ensures
            (final(self)@, a@) == sp_close(old(self)@),
    {
        self.last = None;
        if self.visible {
            self.visible = false;
            SurfaceAction::Detach
        } else {
            SurfaceAction::Keep
        }
    }

    /// Show `header` (the typed keys) above the candidates of the page.
    pub fn show(&mut self, header: &String, candidates: &Vec<Candidate>, page: PageInfo, selected: usize) -> (a: SurfaceAction)
        ensures
            (final(self)@, a@) == sp_show(
                old(self)@,
                ContentView { header: header@, cands: candidates_view(candidates@), page, selected: selected as nat },
            ),
    {
        match popup_spans(header, candidates, page, selected) {
            None => self.close(),
            Some(spans) => {
                let kept = copy_candidates(candidates, 0, candidates.len());
                proof {
                    assert(candidates@.subrange(0, candidates@.len() as int) =~= candidates@);
                }
                self.last = Some(Content { header: header.clone(), candidates: kept, page, selected });
                SurfaceAction::Draw(spans)
            },
        }
    }

    /// The outcome of a `Draw`: on screen once a buffer was attached.
    pub fn drawn(&mut self, ok: bool)
        ensures
            final(self)@ == (PopupView { visible: old(self)@.visible || ok, last: old(self)@.last }),
    {
        if ok {
            self.visible = true;
        }
    }

    /// The output scale or the style changed when `changed`: draw the
    /// remembered content again.
    pub fn redraw(&mut self, changed: bool) -> (a: SurfaceAction)
        ensures
            (final(self)@, a@) == (if changed {
                sp_redraw(old(self)@)
            } else {
                (old(self)@, SurfaceActionView::Keep)
            }),
    {
        if !changed {
            return SurfaceAction::Keep;
        }
        match self.last.take() {
            Some(c) => {
                if self.visible {
                    self.show(&c.header, &c.candidates, c.page, c.selected)
                } else {
                    SurfaceAction::Keep
                }
            },
            None => SurfaceAction::Keep,
        }
    }
}

/// Closing leaves nothing to draw again: a later scale or style change keeps
/// the popup off screen.
pub proof fn law_closed_stays_closed(v: PopupView)
    ensures
        sp_redraw(sp_close(v).0).1 == SurfaceActionView::Keep,
        sp_redraw(sp_close(v).0).0 == sp_close(v).0,
{
}

/// Showing no header and no candidates closes the popup.
pub proof fn law_show_nothing_closes(v: PopupView, page: PageInfo, selected: nat)
    ensures
        sp_show(v, ContentView { header: Seq::empty(), cands: Seq::empty(), page, selected }) == sp_close(v),
{
}

/// What was shown and drawn is drawn again, span for span, when the scale
/// or the style changes.
pub proof fn law_redraw_repeats(v: PopupView, c: ContentView)
    requires
        sp_show(v, c).1 is Draw,
    ensures
        sp_redraw(PopupView { visible: true, last: sp_show(v, c).0.last }).1 == sp_show(v, c).1,
        sp_redraw(PopupView { visible: true, last: sp_show(v, c).0.last }).0.last == Some(c),
{
}

/// One color channel of `src` drawn over `dst` with coverage `a`
/// (premultiplied "over", 8-bit).
pub open spec fn blend_channel(src: int, a: int, dst: int) -> int {
    (src * a + dst * (255 - a)) / 255
}

/// The alpha channel after drawing with coverage `a` over alpha `dst`.
pub open spec fn blend_alpha(a: int, dst: int) -> int {
    let v = a + dst * (255 - a) / 255;
    if v > 255 {
        255
    } else {
        v
    }
}

proof fn lemma_channel_bound(src: int, a: int, dst: int)
    requires
        0 <= src <= 255,
        0 <= a <= 255,
        0 <= dst <= 255,
    ensures
        0 <= src * a + dst * (255 - a) <= 255 * 255,
        0 <= blend_channel(src, a, dst) <= 255,
{
    assert(0 <= src * a <= 255 * a) by (nonlinear_arith)
        requires
            0 <= src <= 255,
            0 <= a <= 255,
    ;
    assert(0 <= dst * (255 - a) <= 255 * (255 - a)) by (nonlinear_arith)
        requires
            0 <= dst <= 255,
            0 <= a <= 255,
    ;
}

/// A text pixel of color (r, g, b) with coverage `a` drawn over the
/// buffer pixel `px`, stored as [blue, green, red, alpha].
pub fn blend_pixel(px: [u8; 4], r: u8, g: u8, b: u8, a: u8) -> (out: [u8; 4])
    ensures
        out[0] as int == blend_channel(b as int, a as int, px[0] as int),
        out[1] as int == blend_channel(g as int, a as int, px[1] as int),
        out[2] as int == blend_channel(r as int, a as int, px[2] as int),
        out[3] as int == blend_alpha(a as int, px[3] as int),
{
    let a32 = a as u32;
    proof {
        lemma_channel_bound(b as int, a as int, px[0] as int);
        lemma_channel_bound(g as int, a as int, px[1] as int);
        lemma_channel_bound(r as int, a as int, px[2] as int);
        assert(0 <= px[3] as int * (255 - a as int) <= 255 * 255) by (nonlinear_arith)
            requires
                0 <= px[3] as int <= 255,
                0 <= a as int <= 255,
        ;
    }
    let c0 = ((b as u32) * a32 + (px[0] as u32) * (255 - a32)) / 255;
    let c1 = ((g as u32) * a32 + (px[1] as u32) * (255 - a32)) / 255;
    let c2 = ((r as u32) * a32 + (px[2] as u32) * (255 - a32)) / 255;
    let v = a32 + (px[3] as u32) * (255 - a32) / 255;
    let c3 = if v > 255 {
        255
    } else {
        v
    };
    [c0 as u8, c1 as u8, c2 as u8, c3 as u8]
}

/// The part `[start, start + len)` of a row or column that lies within
/// `[0, limit)`, as a range (empty when `lo >= hi`).
pub fn clip_span(start: i32, len: i32, limit: i32) -> (r: (i32, i32))
    requires
        len >= 0,
    ensures
        r.0 == (if start > 0 {
            start as int
        } else {
            0
        }),
        r.1 == (if start as int + len as int <= limit as int {
            start as int + len as int
        } else {
            limit as int
        }),
{
    let lo = if start > 0 {
        start
    } else {
        0
    };
    let end = (start as i64) + (len as i64);
    let hi = if end <= (limit as i64) {
        end as i32
    } else {
        limit
    };
    (lo, hi)
}

} // verus!
