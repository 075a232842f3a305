//! Decisions of the input-method daemon: what to do with each key event and
//! each protocol event, given as actions for the Wayland frontend to perform.
//!
//! The frontend owns the keyboard grab, the virtual keyboard used to forward
//! keys the engine does not want, and the engine itself.
use vstd::prelude::*;
use std::collections::HashSet;
use crate::engine::{
    Candidate, CandidateView, candidates_view, Key, KeyInput, PageInfo, Preedit, Response,
    ResponseView,
};
use crate::text::{decimal, decimal_digits, push_char};

verus! {

broadcast use vstd::std_specs::hash::group_hash_axioms;

/// An action as plain values.
pub enum ImActionView {
    Forward { time: u32, key: u32, pressed: bool },
    ReleaseAll { time: u32, keys: Set<u32> },
    ResetEngine,
    Sync(Option<Seq<char>>),
    ReleaseGrab,
    Grab,
}

/// Something the frontend must do, in order.
#[derive(Debug, PartialEq, Eq)]
pub enum ImAction {
    /// Send a key press or release to the application (virtual keyboard).
    Forward { time: u32, key: u32, pressed: bool },
    /// Send a release for each of these keys to the application, in any
    /// order.
    ReleaseAll { time: u32, keys: HashSet<u32> },
    /// Discard the engine's composition.
    ResetEngine,
    /// Commit the text, if any, then show the engine's preedit and commit
    /// the input-method state with the current serial.
    Sync(Option<String>),
    /// Release the keyboard grab.
    ReleaseGrab,
    /// Take a new keyboard grab.
    Grab,
}

impl View for ImAction {
    type V = ImActionView;

    open spec fn view(&self) -> ImActionView {
        match self {
            ImAction::Forward { time, key, pressed } => ImActionView::Forward {
                time: *time,
                key: *key,
                pressed: *pressed,
            },
            ImAction::ReleaseAll { time, keys } => ImActionView::ReleaseAll { time: *time, keys: keys@ },
            ImAction::ResetEngine => ImActionView::ResetEngine,
            ImAction::Sync(t) => ImActionView::Sync(
                match t {
                    Some(s) => Some(s@),
                    None => None,
                },
            ),
            ImAction::ReleaseGrab => ImActionView::ReleaseGrab,
            ImAction::Grab => ImActionView::Grab,
        }
    }
}

/// The views of a list of actions.
pub open spec fn actions_view(s: Seq<ImAction>) -> Seq<ImActionView> {
    s.map_values(|a: ImAction| a@)
}

/// Daemon state as plain values.
pub struct ImView {
    /// Number of `done` events received; the serial expected by `commit`.
    pub serial: u32,
    pub pending_activate: bool,
    pub pending_deactivate: bool,
    /// A keyboard grab is held.
    pub grabbed: bool,
    /// Keycodes whose press was swallowed, so their release is swallowed too.
    pub consumed: Set<u32>,
    /// Keycodes forwarded as pressed and not yet released.
    pub forwarded: Set<u32>,
    pub last_time: u32,
    /// Chinese input on; when off every key is forwarded untouched.
    pub enabled: bool,
    /// A Shift press with no other key since; releasing it toggles `enabled`
    /// when `shift_tap_toggle` is set.
    pub shift_tap: bool,
    /// Ctrl+Space toggles Chinese input (a setting, off by default).
    pub ctrl_space_toggle: bool,
    /// A lone Shift tap toggles Chinese input (a setting, off by default).
    pub shift_tap_toggle: bool,
    pub exit: bool,
}

/// The view after forwarding a key event, and the event.
pub open spec fn sp_forward(v: ImView, time: u32, key: u32, pressed: bool) -> (ImView, Seq<ImActionView>) {
    (
        ImView {
            forwarded: if pressed {
                v.forwarded.insert(key)
            } else {
                v.forwarded.remove(key)
            },
            ..v
        },
        seq![ImActionView::Forward { time, key, pressed }],
    )
}

/// Toggle Chinese input; turning it off while composing discards the
/// composition and clears the preedit.
pub open spec fn sp_toggle(v: ImView, composing: bool) -> (ImView, Seq<ImActionView>) {
    let v1 = ImView { enabled: !v.enabled, ..v };
    if !v1.enabled && composing {
        (v1, seq![ImActionView::ResetEngine, ImActionView::Sync(None)])
    } else {
        (v1, Seq::empty())
    }
}

/// The next serial, wrapping.
pub open spec fn next_serial(s: u32) -> u32 {
    if s == u32::MAX {
        0
    } else {
        (s + 1) as u32
    }
}

/// A `done` event: apply a pending deactivation (drop the grab, release every
/// forwarded key, reset the engine) and then a pending activation (grab the
/// keyboard afresh, reset the engine).
pub open spec fn sp_done(v: ImView) -> (ImView, Seq<ImActionView>) {
    let v0 = ImView { serial: next_serial(v.serial), ..v };
    let (v1, a1) = if v0.pending_deactivate {
        (
            ImView {
                pending_deactivate: false,
                grabbed: false,
                forwarded: Set::empty(),
                consumed: Set::empty(),
                ..v0
            },
            (if v0.grabbed {
                seq![ImActionView::ReleaseGrab]
            } else {
                Seq::empty()
            }) + seq![
                ImActionView::ReleaseAll { time: v0.last_time, keys: v0.forwarded },
                ImActionView::ResetEngine,
            ],
        )
    } else {
        (v0, Seq::empty())
    };
    if v1.pending_activate {
        (
            ImView { pending_activate: false, grabbed: true, consumed: Set::empty(), ..v1 },
            a1 + (if v1.grabbed {
                seq![ImActionView::ReleaseGrab]
            } else {
                Seq::empty()
            }) + seq![ImActionView::Grab, ImActionView::ResetEngine],
        )
    } else {
        (v1, a1)
    }
}

/// What the frontend knows about a key event from the keymap.
#[derive(Debug, Clone, Copy, PartialEq, Eq, Structural)]
pub struct KeyContext {
    /// A keymap has been received.
    pub has_keymap: bool,
    /// The key, translated with the keymap (meaningful with a keymap).
    pub input: KeyInput,
    /// The key is a Shift key (meaningful with a keymap).
    pub is_shift: bool,
    /// The engine is composing.
    pub composing: bool,
}

/// Outcome of a key event: actions, and a key for the engine if any.
pub struct KeyStepView {
    pub actions: Seq<ImActionView>,
    pub process: Option<KeyInput>,
}

/// A key event. Releases: a lone Shift tap toggles input when that toggle
/// is enabled, releases of swallowed presses are swallowed, the rest are
/// forwarded. Presses: without a keymap forward; Ctrl+Space toggles when that
/// toggle is enabled; while disabled, and for modifier keys, forward; else
/// hand the key to the engine.
pub open spec fn sp_key_event(v: ImView, time: u32, key: u32, pressed: bool, cx: KeyContext) -> (ImView, KeyStepView) {
    let v0 = ImView { last_time: time, ..v };
    if !pressed {
        if v0.shift_tap_toggle && cx.has_keymap && cx.is_shift && v0.shift_tap {
            let (v1, a1) = sp_forward(ImView { shift_tap: false, ..v0 }, time, key, false);
            let (v2, a2) = sp_toggle(v1, cx.composing);
            (v2, KeyStepView { actions: a1 + a2, process: None })
        } else if v0.consumed.contains(key) {
            (ImView { consumed: v0.consumed.remove(key), ..v0 }, KeyStepView { actions: Seq::empty(), process: None })
        } else {
            let (v1, a1) = sp_forward(v0, time, key, false);
            (v1, KeyStepView { actions: a1, process: None })
        }
    } else if !cx.has_keymap {
        let (v1, a1) = sp_forward(v0, time, key, true);
        (v1, KeyStepView { actions: a1, process: None })
    } else {
        let m = cx.input.modifiers;
        let v1 = ImView { shift_tap: cx.is_shift && !m.ctrl && !m.alt && !m.logo, ..v0 };
        if v1.ctrl_space_toggle && cx.input.key == Key::Space && m.ctrl {
            let (v2, a2) = sp_toggle(ImView { consumed: v1.consumed.insert(key), ..v1 }, cx.composing);
            (v2, KeyStepView { actions: a2, process: None })
        } else if !v1.enabled || cx.input.key is Modifier {
            let (v2, a2) = sp_forward(v1, time, key, true);
            (v2, KeyStepView { actions: a2, process: None })
        } else {
            (v1, KeyStepView { actions: Seq::empty(), process: Some(cx.input) })
        }
    }
}

/// What the engine's response to a pressed key means for the application:
/// forwarded, swallowed, or swallowed with a commit; a commit-and-forward
/// commits first, then forwards.
pub open spec fn sp_engine_response(v: ImView, time: u32, key: u32, r: ResponseView) -> (ImView, Seq<ImActionView>) {
    match r {
        ResponseView::Ignored => sp_forward(v, time, key, true),
        ResponseView::Consumed => (ImView { consumed: v.consumed.insert(key), ..v }, seq![ImActionView::Sync(None)]),
        ResponseView::Bell => (ImView { consumed: v.consumed.insert(key), ..v }, seq![ImActionView::Sync(None)]),
        ResponseView::Commit(t) => (ImView { consumed: v.consumed.insert(key), ..v }, seq![ImActionView::Sync(Some(t))]),
        ResponseView::CommitAndForward(t) => {
            let (v1, a1) = sp_forward(v, time, key, true);
            (v1, seq![ImActionView::Sync(Some(t))] + a1)
        },
    }
}


/// One numbered candidate as shown inline: a marker on the highlighted one,
/// its number (from 1), its text and a space.
pub open spec fn candidate_entry(i: nat, c: CandidateView, selected: nat) -> Seq<char> {
    (if i == selected {
        seq!['\u{25B8}']
    } else {
        Seq::empty()
    }) + decimal_digits(i + 1) + c.text + seq![' ']
}

/// All numbered candidates, in order.
pub open spec fn candidate_entries(cands: Seq<CandidateView>, selected: nat) -> Seq<char>
    decreases cands.len(),
{
    if cands.len() == 0 {
        Seq::empty()
    } else {
        candidate_entries(cands.drop_last(), selected) + candidate_entry(
            (cands.len() - 1) as nat,
            cands.last(),
            selected,
        )
    }
}

/// "(page/total)" when there is more than one page.
pub open spec fn paging_note(info: PageInfo) -> Seq<char> {
    match info.total_pages {
        Some(t) => if t > 1 {
            seq!['('] + decimal_digits((info.page + 1) as nat) + seq!['/'] + decimal_digits(t as nat) + seq![')']
        } else {
            Seq::empty()
        },
        None => Seq::empty(),
    }
}

/// The preedit string shown in the text field: the composition, then the
/// candidates of the page and the paging note.
pub open spec fn shown_line(text: Seq<char>, cands: Seq<CandidateView>, info: PageInfo, selected: nat) -> Seq<char> {
    if cands.len() == 0 {
        text
    } else {
        text + seq![' '] + candidate_entries(cands, selected) + paging_note(info)
    }
}

/// The preedit string and cursor to show in the text field for the engine's
/// state (the cursor stays where the engine put it in the composition).
pub fn preedit_line(preedit: &Preedit, candidates: &Vec<Candidate>, info: PageInfo, selected: usize) -> (r: (
    String,
    i32,
))
    ensures
        r.0@ == shown_line(preedit.text@, candidates_view(candidates@), info, selected as nat),
        r.1 == preedit.cursor as i32,
{
    let mut shown = preedit.text.clone();
    if candidates.len() > 0 {
        push_char(&mut shown, ' ');
        let ghost base = shown@;
        let mut i: usize = 0;
        while i < candidates.len()
            invariant
                i <= candidates.len(),
                shown@ == base + candidate_entries(candidates_view(candidates@).take(i as int), selected as nat),
            decreases candidates.len() - i,
        {
            let ghost before = shown@;
            if i == selected {
                push_char(&mut shown, '\u{25B8}');
            }
            let num = decimal((i as u128) + 1);
            shown.append(num.as_str());
            shown.append(candidates[i].text.as_str());
            push_char(&mut shown, ' ');
            proof {
                let cv = candidates_view(candidates@);
                assert(cv.take(i + 1).drop_last() =~= cv.take(i as int));
                assert(cv.take(i + 1).last() == candidates@[i as int]@);
                assert(shown@ =~= before + candidate_entry(i as nat, candidates@[i as int]@, selected as nat));
            }
            i = i + 1;
        }
        assert(candidates_view(candidates@).take(candidates.len() as int) =~= candidates_view(candidates@));
        let ghost mid = shown@;
        match info.total_pages {
            Some(t) => {
                if t > 1 {
                    push_char(&mut shown, '(');
                    let p = decimal((info.page as u128) + 1);
                    shown.append(p.as_str());
                    push_char(&mut shown, '/');
                    let tt = decimal(t as u128);
                    shown.append(tt.as_str());
                    push_char(&mut shown, ')');
                    assert(shown@ =~= mid + paging_note(info));
                } else {
                    assert(shown@ =~= mid + paging_note(info));
                }
            },
            None => {
                assert(shown@ =~= mid + paging_note(info));
            },
        }
    }
    (shown, preedit.cursor as i32)
}

/// A key event's result: actions to perform, then, if `process` is set,
/// hand that key to the engine and its response to
/// [`ImCore::engine_response`].
pub struct KeyStep {
    pub actions: Vec<ImAction>,
    pub process: Option<KeyInput>,
}

/// Keyboard-grab and key bookkeeping of the daemon.
pub struct ImCore {
    done_serial: u32,
    pending_activate: bool,
    pending_deactivate: bool,
    grabbed: bool,
    consumed_keys: HashSet<u32>,
    forwarded_keys: HashSet<u32>,
    last_key_time: u32,
    enabled: bool,
    shift_tap_pending: bool,
    ctrl_space_toggle: bool,
    shift_tap_toggle: bool,
    exit: bool,
}

/// After focus leaves a text field, no key is left pressed in the
/// application: every forwarded key is released, and nothing stays tracked.
pub proof fn law_deactivate_releases_all(v: ImView)
    requires
        v.pending_deactivate,
    ensures
        sp_done(v).1.contains(ImActionView::ReleaseAll { time: v.last_time, keys: v.forwarded }),
        sp_done(v).0.forwarded.is_empty(),
        sp_done(v).0.consumed.is_empty(),
        !sp_done(v).0.pending_deactivate,
{
    let head = if v.grabbed {
        seq![ImActionView::ReleaseGrab]
    } else {
        Seq::<ImActionView>::empty()
    };
    let a1 = head + seq![
        ImActionView::ReleaseAll { time: v.last_time, keys: v.forwarded },
        ImActionView::ResetEngine,
    ];
    assert(a1[head.len() as int] == ImActionView::ReleaseAll { time: v.last_time, keys: v.forwarded });
    let acts = sp_done(v).1;
    assert(acts[head.len() as int] == a1[head.len() as int]);
}

/// The release of a key whose press was swallowed is swallowed too, and
/// the key is no longer tracked.
pub proof fn law_consumed_release_swallowed(v: ImView, time: u32, key: u32, cx: KeyContext)
    requires
        v.consumed.contains(key),
        !(v.shift_tap_toggle && cx.has_keymap && cx.is_shift && v.shift_tap),
    ensures
        sp_key_event(v, time, key, false, cx).1.actions.len() == 0,
        !sp_key_event(v, time, key, false, cx).0.consumed.contains(key),
        sp_key_event(v, time, key, false, cx).1.process is None,
{
}

/// With its toggle enabled, Ctrl+Space toggles Chinese input; pressing it
/// twice gives back the setting it started from.
pub proof fn law_ctrl_space_toggles(v: ImView, t1: u32, t2: u32, key: u32, cx: KeyContext)
    requires
        v.ctrl_space_toggle,
        cx.has_keymap,
        cx.input.key == Key::Space,
        cx.input.modifiers.ctrl,
    ensures
        sp_key_event(v, t1, key, true, cx).0.enabled == !v.enabled,
        sp_key_event(sp_key_event(v, t1, key, true, cx).0, t2, key, true, cx).0.enabled == v.enabled,
        sp_key_event(v, t1, key, true, cx).1.process is None,
{
}

/// While Chinese input is off, every key press other than an enabled
/// Ctrl+Space toggle goes to the application untouched, never to the engine.
pub proof fn law_disabled_forwards(v: ImView, time: u32, key: u32, cx: KeyContext)
    requires
        !v.enabled,
        cx.has_keymap,
        !(v.ctrl_space_toggle && cx.input.key == Key::Space && cx.input.modifiers.ctrl),
    ensures
        sp_key_event(v, time, key, true, cx).1.actions == seq![
            ImActionView::Forward { time, key, pressed: true },
        ],
        sp_key_event(v, time, key, true, cx).1.process is None,
        sp_key_event(v, time, key, true, cx).0.forwarded.contains(key),
{
}

/// While Chinese input is on, every non-modifier key press other than an
/// enabled Ctrl+Space toggle is handed to the engine.
pub proof fn law_enabled_processes(v: ImView, time: u32, key: u32, cx: KeyContext)
    requires
        v.enabled,
        cx.has_keymap,
        !(cx.input.key is Modifier),
        !(v.ctrl_space_toggle && cx.input.key == Key::Space && cx.input.modifiers.ctrl),
    ensures
        sp_key_event(v, time, key, true, cx).1.process == Some(cx.input),
        sp_key_event(v, time, key, true, cx).1.actions.len() == 0,
{
}

/// With both toggle settings off, no key event turns Chinese input on or
/// off: Ctrl+Space and a lone Shift tap take the ordinary path.
pub proof fn law_toggles_off_keep_input(v: ImView, time: u32, key: u32, pressed: bool, cx: KeyContext)
    requires
        !v.ctrl_space_toggle,
        !v.shift_tap_toggle,
    ensures
        sp_key_event(v, time, key, pressed, cx).0.enabled == v.enabled,
        pressed && cx.has_keymap && v.enabled && !(cx.input.key is Modifier) ==> sp_key_event(
            v,
            time,
            key,
            pressed,
            cx,
        ).1.process == Some(cx.input),
{
}

/// The daemon state after a key press, including the engine's answer when
/// the press was handed to the engine.
pub open spec fn after_press(v: ImView, time: u32, key: u32, cx: KeyContext, r: ResponseView) -> ImView {
    let (v1, st) = sp_key_event(v, time, key, true, cx);
    match st.process {
        Some(_) => sp_engine_response(v1, time, key, r).0,
        None => v1,
    }
}

/// Whether a press is kept from the application: an enabled Ctrl+Space
/// toggle, or a key the engine consumed, rang the bell on, or committed.
pub open spec fn press_swallowed(v: ImView, cx: KeyContext, r: ResponseView) -> bool {
    cx.has_keymap && ((v.ctrl_space_toggle && cx.input.key == Key::Space && cx.input.modifiers.ctrl)
        || (v.enabled && !(cx.input.key is Modifier) && (r is Consumed || r is Bell || r is Commit)))
}

/// No action in `a` sends a key to the application.
pub open spec fn forwards_nothing(a: Seq<ImActionView>) -> bool {
    forall|i: int| 0 <= i < a.len() ==> !(#[trigger] a[i] is Forward)
}

/// Press and release of one key go together: a swallowed press has its
/// release swallowed too, a press that reached the application has its
/// release forwarded (a lone Shift tap may also toggle input, which sends
/// no further key), and either way the key is no longer tracked. The
/// release is seen with the same keymap as the press, and a Shift key is a
/// modifier key.
pub proof fn law_press_release_pair(
    v: ImView,
    t1: u32,
    t2: u32,
    key: u32,
    press: KeyContext,
    r: ResponseView,
    release: KeyContext,
)
    requires
        !v.consumed.contains(key),
        release.has_keymap == press.has_keymap,
        release.is_shift == press.is_shift,
        press.is_shift ==> press.input.key is Modifier,
    ensures
        press_swallowed(v, press, r) ==> after_press(v, t1, key, press, r).consumed.contains(key),
        !press_swallowed(v, press, r) ==> !after_press(v, t1, key, press, r).consumed.contains(key)
            && after_press(v, t1, key, press, r).forwarded.contains(key),
        press_swallowed(v, press, r) ==> sp_key_event(after_press(v, t1, key, press, r), t2, key, false, release).1.actions.len()
            == 0,
        !press_swallowed(v, press, r) ==> ({
            let a = sp_key_event(after_press(v, t1, key, press, r), t2, key, false, release).1.actions;
            &&& a.len() >= 1
            &&& a[0] == ImActionView::Forward { time: t2, key, pressed: false }
            &&& forwards_nothing(a.drop_first())
        }),
        !sp_key_event(after_press(v, t1, key, press, r), t2, key, false, release).0.consumed.contains(key),
        !press_swallowed(v, press, r) ==> !sp_key_event(after_press(v, t1, key, press, r), t2, key, false, release).0.forwarded.contains(key),
        sp_key_event(after_press(v, t1, key, press, r), t2, key, false, release).1.process is None,
{
    let w = after_press(v, t1, key, press, r);
    let a = sp_key_event(w, t2, key, false, release).1.actions;
    if !press_swallowed(v, press, r) {
        assert(forwards_nothing(a.drop_first())) by {
            let head = seq![ImActionView::Forward { time: t2, key, pressed: false }];
            if a.len() > 1 {
                assert(a.drop_first() =~= seq![ImActionView::ResetEngine, ImActionView::Sync(None)]);
            } else {
                assert(a.drop_first() =~= Seq::<ImActionView>::empty());
            }
        }
    }
}

/// A forwarded press is tracked until its release is forwarded.
pub proof fn law_forward_then_release(v: ImView, time: u32, key: u32)
    ensures
        sp_forward(v, time, key, true).0.forwarded.contains(key),
        !sp_forward(sp_forward(v, time, key, true).0, time, key, false).0.forwarded.contains(key),
{
}

/// A response committing text commits it before any forwarding, and a
/// swallowed key's release will be swallowed.
pub proof fn law_commit_before_forward(v: ImView, time: u32, key: u32, t: Seq<char>)
    ensures
        sp_engine_response(v, time, key, ResponseView::CommitAndForward(t)).1 == seq![
            ImActionView::Sync(Some(t)),
            ImActionView::Forward { time, key, pressed: true },
        ],
        sp_engine_response(v, time, key, ResponseView::Commit(t)).0.consumed.contains(key),
{
    assert(seq![ImActionView::Sync(Some(t))] + seq![ImActionView::Forward { time, key, pressed: true }]
        =~= seq![ImActionView::Sync(Some(t)), ImActionView::Forward { time, key, pressed: true }]);
}

impl ImCore {
    /// The state as plain values.
    pub closed spec fn view(&self) -> ImView {
        ImView {
            serial: self.done_serial,
            pending_activate: self.pending_activate,
            pending_deactivate: self.pending_deactivate,
            grabbed: self.grabbed,
            consumed: self.consumed_keys@,
            forwarded: self.forwarded_keys@,
            last_time: self.last_key_time,
            enabled: self.enabled,
            shift_tap: self.shift_tap_pending,
            ctrl_space_toggle: self.ctrl_space_toggle,
            shift_tap_toggle: self.shift_tap_toggle,
            exit: self.exit,
        }
    }

    /// Fresh state: input enabled, nothing grabbed or pending, both toggle
    /// keys off (the settings' defaults).
    pub fn new() -> (c: Self)
        ensures
            c.view() == (ImView {
                serial: 0,
                pending_activate: false,
                pending_deactivate: false,
                grabbed: false,
                consumed: Set::empty(),
                forwarded: Set::empty(),
                last_time: 0,
                enabled: true,
                shift_tap: false,
                ctrl_space_toggle: false,
                shift_tap_toggle: false,
                exit: false,
            }),
    {
        let c = ImCore {
            done_serial: 0,
            pending_activate: false,
            pending_deactivate: false,
            grabbed: false,
            consumed_keys: HashSet::new(),
            forwarded_keys: HashSet::new(),
            last_key_time: 0,
            enabled: true,
            shift_tap_pending: false,
            ctrl_space_toggle: false,
            shift_tap_toggle: false,
            exit: false,
        };
        c
    }

    /// The serial to commit with.
    pub fn serial(&self) -> (s: u32)
        ensures
            s == self.view().serial,
    {
        self.done_serial
    }

    /// Whether Chinese input is on.
    pub fn enabled(&self) -> (b: bool)
        ensures
            b == self.view().enabled,
    {
        self.enabled
    }

    /// Apply the settings that turn the Ctrl+Space and Shift-tap toggles on
    /// or off.
    pub fn set_toggles(&mut self, ctrl_space: bool, shift_tap: bool)
        ensures
            final(self).view() == (ImView {
                ctrl_space_toggle: ctrl_space,
                shift_tap_toggle: shift_tap,
                ..old(self).view()
            }),
    {
        self.ctrl_space_toggle = ctrl_space;
        self.shift_tap_toggle = shift_tap;
    }

    /// Whether the daemon should stop.
    pub fn should_exit(&self) -> (b: bool)
        ensures
            b == self.view().exit,
    {
        self.exit
    }

    /// A text field became active; applied at the next `done`.
    pub fn activate(&mut self)
        ensures
            final(self).view() == (ImView { pending_activate: true, ..old(self).view() }),
    {
        self.pending_activate = true;
    }

    /// The text field lost focus; applied at the next `done`.
    pub fn deactivate(&mut self)
        ensures
            final(self).view() == (ImView { pending_deactivate: true, ..old(self).view() }),
    {
        self.pending_deactivate = true;
    }

    /// Another input method holds the seat.
    pub fn unavailable(&mut self)
        ensures
            final(self).view() == (ImView { exit: true, ..old(self).view() }),
    {
        self.exit = true;
    }

    fn forward(&mut self, time: u32, key: u32, pressed: bool, actions: &mut Vec<ImAction>)
        ensures
            (final(self).view(), actions_view(final(actions)@)) == ({
                let (v, a) = sp_forward(old(self).view(), time, key, pressed);
                (v, actions_view(old(actions)@) + a)
            }),
    {
        if pressed {
            self.forwarded_keys.insert(key);
        } else {
            self.forwarded_keys.remove(&key);
        }
        let ghost before = actions@;
        actions.push(ImAction::Forward { time, key, pressed });
        assert(actions_view(actions@) =~= actions_view(before) + seq![
            ImActionView::Forward { time, key, pressed },
        ]);
    }

    fn toggle(&mut self, composing: bool, actions: &mut Vec<ImAction>)
        ensures
            (final(self).view(), actions_view(final(actions)@)) == ({
                let (v, a) = sp_toggle(old(self).view(), composing);
                (v, actions_view(old(actions)@) + a)
            }),
    {
        self.enabled = !self.enabled;
        let ghost before = actions@;
        if !self.enabled && composing {
            actions.push(ImAction::ResetEngine);
            actions.push(ImAction::Sync(None));
            assert(actions_view(actions@) =~= actions_view(before) + seq![
                ImActionView::ResetEngine,
                ImActionView::Sync(None),
            ]);
        } else {
            assert(actions_view(actions@) =~= actions_view(before) + Seq::<ImActionView>::empty());
        }
    }

    /// Handle a `done` event.
    #[verifier::spinoff_prover]
    #[verifier::rlimit(40)]
    pub fn done(&mut self) -> (actions: Vec<ImAction>)
        ensures
            (final(self).view(), actions_view(actions@)) == sp_done(old(self).view()),
    {
        let mut actions: Vec<ImAction> = Vec::new();
        self.done_serial = if self.done_serial == u32::MAX {
            0
        } else {
            self.done_serial + 1
        };
        let ghost v0 = self.view();
        if self.pending_deactivate {
            let ghost g0 = self.grabbed;
            self.pending_deactivate = false;
            if self.grabbed {
                actions.push(ImAction::ReleaseGrab);
                self.grabbed = false;
            }
            let time = self.last_key_time;
            let mut keys: HashSet<u32> = HashSet::new();
            std::mem::swap(&mut keys, &mut self.forwarded_keys);
            let ghost start = actions@;
            actions.push(ImAction::ReleaseAll { time, keys });
            actions.push(ImAction::ResetEngine);
            self.consumed_keys = HashSet::new();
            proof {
                let head = if g0 {
                    seq![ImActionView::ReleaseGrab]
                } else {
                    Seq::<ImActionView>::empty()
                };
                assert(actions_view(start) =~= head);
                assert(actions_view(actions@) =~= head + seq![
                    ImActionView::ReleaseAll { time: v0.last_time, keys: v0.forwarded },
                    ImActionView::ResetEngine,
                ]);
            }
        } else {
            assert(actions_view(actions@) =~= Seq::<ImActionView>::empty());
        }
        let ghost mid = actions@;
        let ghost g1 = self.grabbed;
        if self.pending_activate {
            self.pending_activate = false;
            if self.grabbed {
                actions.push(ImAction::ReleaseGrab);
            }
            actions.push(ImAction::Grab);
            self.grabbed = true;
            actions.push(ImAction::ResetEngine);
            self.consumed_keys = HashSet::new();
            proof {
                let head = if g1 {
                    seq![ImActionView::ReleaseGrab]
                } else {
                    Seq::<ImActionView>::empty()
                };
                assert(actions_view(actions@) =~= actions_view(mid) + head + seq![
                    ImActionView::Grab,
                    ImActionView::ResetEngine,
                ]);
            }
        }
        proof {
            let (v1, a1) = sp_done(old(self).view());
            assert(self.view().consumed =~= v1.consumed);
            assert(self.view().forwarded =~= v1.forwarded);
            assert(actions_view(actions@) =~= a1);
        }
        actions
    }

    /// Handle a key event from the keyboard grab.
    pub fn key_event(&mut self, time: u32, key: u32, pressed: bool, cx: KeyContext) -> (st: KeyStep)
        ensures
            (final(self).view(), KeyStepView { actions: actions_view(st.actions@), process: st.process })
                == sp_key_event(old(self).view(), time, key, pressed, cx),
    {
        let mut actions: Vec<ImAction> = Vec::new();
        self.last_key_time = time;
        if !pressed {
            if self.shift_tap_toggle && cx.has_keymap && cx.is_shift && self.shift_tap_pending {
                self.shift_tap_pending = false;
                self.forward(time, key, false, &mut actions);
                self.toggle(cx.composing, &mut actions);
                return KeyStep { actions, process: None };
            }
            if self.consumed_keys.contains(&key) {
                self.consumed_keys.remove(&key);
                assert(actions_view(actions@) =~= Seq::<ImActionView>::empty());
                return KeyStep { actions, process: None };
            }
            self.forward(time, key, false, &mut actions);
            assert(actions_view(actions@) =~= Seq::<ImActionView>::empty() + seq![
                ImActionView::Forward { time, key, pressed: false },
            ]);
            return KeyStep { actions, process: None };
        }
        if !cx.has_keymap {
            self.forward(time, key, true, &mut actions);
            assert(actions_view(actions@) =~= Seq::<ImActionView>::empty() + seq![
                ImActionView::Forward { time, key, pressed: true },
            ]);
            return KeyStep { actions, process: None };
        }
        let m = cx.input.modifiers;
        self.shift_tap_pending = cx.is_shift && !m.ctrl && !m.alt && !m.logo;
        if self.ctrl_space_toggle && cx.input.key == Key::Space && m.ctrl {
            self.consumed_keys.insert(key);
            self.toggle(cx.composing, &mut actions);
            return KeyStep { actions, process: None };
        }
        let is_modifier = match cx.input.key {
            Key::Modifier(_) => true,
            _ => false,
        };
        if !self.enabled || is_modifier {
            self.forward(time, key, true, &mut actions);
            assert(actions_view(actions@) =~= Seq::<ImActionView>::empty() + seq![
                ImActionView::Forward { time, key, pressed: true },
            ]);
            return KeyStep { actions, process: None };
        }
        assert(actions_view(actions@) =~= Seq::<ImActionView>::empty());
        KeyStep { actions, process: Some(cx.input) }
    }

    /// The engine's response to the pressed key `key`.
    pub fn engine_response(&mut self, time: u32, key: u32, r: Response) -> (actions: Vec<ImAction>)
        ensures
            (final(self).view(), actions_view(actions@)) == sp_engine_response(old(self).view(), time, key, r@),
    {
        let mut actions: Vec<ImAction> = Vec::new();
        match r {
            Response::Ignored => {
                self.forward(time, key, true, &mut actions);
                assert(actions_view(actions@) =~= Seq::<ImActionView>::empty() + seq![
                    ImActionView::Forward { time, key, pressed: true },
                ]);
            },
            Response::Consumed => {
                self.consumed_keys.insert(key);
                actions.push(ImAction::Sync(None));
                assert(actions_view(actions@) =~= seq![ImActionView::Sync(None)]);
            },
            Response::Bell => {
                self.consumed_keys.insert(key);
                actions.push(ImAction::Sync(None));
                assert(actions_view(actions@) =~= seq![ImActionView::Sync(None)]);
            },
            Response::Commit(t) => {
                self.consumed_keys.insert(key);
                let ghost tv = t@;
                actions.push(ImAction::Sync(Some(t)));
                assert(actions_view(actions@) =~= seq![ImActionView::Sync(Some(tv))]);
            },
            Response::CommitAndForward(t) => {
                let ghost tv = t@;
                actions.push(ImAction::Sync(Some(t)));
                self.forward(time, key, true, &mut actions);
                assert(actions_view(actions@) =~= seq![ImActionView::Sync(Some(tv))] + seq![
                    ImActionView::Forward { time, key, pressed: true },
                ]);
            },
        }
        actions
    }
}

} // verus!
