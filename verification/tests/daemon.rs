use std::collections::HashSet;
use cosmic_ext_ime::daemon::{preedit_line, ImAction, ImCore, KeyContext};
use cosmic_ext_ime::engine::{Candidate, Key, KeyInput, ModifierKey, Modifiers, PageInfo, Preedit, Response};

fn cx(key: Key, ctrl: bool, is_shift: bool, composing: bool) -> KeyContext {
    KeyContext {
        has_keymap: true,
        input: KeyInput { key, modifiers: Modifiers { ctrl, ..Modifiers::default() } },
        is_shift,
        composing,
    }
}

#[test]
fn activation_grabs_on_done() {
    let mut c = ImCore::new();
    c.activate();
    assert_eq!(c.done(), vec![ImAction::Grab, ImAction::ResetEngine]);
    assert_eq!(c.serial(), 1);
    c.activate();
    assert_eq!(c.done(), vec![ImAction::ReleaseGrab, ImAction::Grab, ImAction::ResetEngine]);
    assert_eq!(c.done(), vec![]);
    assert_eq!(c.serial(), 3);
}

#[test]
fn deactivation_releases_forwarded_keys() {
    let mut c = ImCore::new();
    c.activate();
    c.done();
    let st = c.key_event(5, 30, true, cx(Key::Char('a'), false, false, false));
    assert_eq!(st.process, Some(KeyInput { key: Key::Char('a'), modifiers: Modifiers::default() }));
    assert_eq!(c.engine_response(5, 30, Response::Ignored), vec![ImAction::Forward { time: 5, key: 30, pressed: true }]);
    let st = c.key_event(6, 31, true, cx(Key::Modifier(ModifierKey::ShiftL), false, true, false));
    assert_eq!(st.actions, vec![ImAction::Forward { time: 6, key: 31, pressed: true }]);
    c.deactivate();
    assert_eq!(
        c.done(),
        vec![
            ImAction::ReleaseGrab,
            ImAction::ReleaseAll { time: 6, keys: HashSet::from([30, 31]) },
            ImAction::ResetEngine,
        ]
    );
    // Nothing stays tracked: a later release of 30 is not swallowed, and
    // a second deactivation releases nothing.
    c.deactivate();
    assert_eq!(c.done(), vec![ImAction::ReleaseAll { time: 6, keys: HashSet::new() }, ImAction::ResetEngine]);
}

#[test]
fn consumed_press_swallows_its_release() {
    let mut c = ImCore::new();
    let st = c.key_event(1, 30, true, cx(Key::Char('a'), false, false, false));
    assert!(st.actions.is_empty());
    assert_eq!(c.engine_response(1, 30, Response::Consumed), vec![ImAction::Sync(None)]);
    let rel = c.key_event(2, 30, false, cx(Key::Char('a'), false, false, false));
    assert!(rel.actions.is_empty());
    assert_eq!(rel.process, None);
    // A second release is forwarded.
    let rel = c.key_event(3, 30, false, cx(Key::Char('a'), false, false, false));
    assert_eq!(rel.actions, vec![ImAction::Forward { time: 3, key: 30, pressed: false }]);
}

#[test]
fn ctrl_space_toggles_and_resets_a_composition() {
    let mut c = ImCore::new();
    c.set_toggles(true, false);
    let st = c.key_event(1, 57, true, cx(Key::Space, true, false, true));
    assert_eq!(st.actions, vec![ImAction::ResetEngine, ImAction::Sync(None)]);
    assert!(!c.enabled());
    let st = c.key_event(2, 30, true, cx(Key::Char('a'), false, false, false));
    assert_eq!(st.actions, vec![ImAction::Forward { time: 2, key: 30, pressed: true }]);
    assert_eq!(st.process, None);
    let st = c.key_event(3, 57, true, cx(Key::Space, true, false, false));
    assert!(st.actions.is_empty());
    assert!(c.enabled());
}

#[test]
fn lone_shift_tap_toggles() {
    let mut c = ImCore::new();
    c.set_toggles(false, true);
    let shift = Key::Modifier(ModifierKey::ShiftL);
    let st = c.key_event(1, 42, true, cx(shift, false, true, false));
    assert_eq!(st.actions, vec![ImAction::Forward { time: 1, key: 42, pressed: true }]);
    let st = c.key_event(2, 42, false, cx(shift, false, true, false));
    assert_eq!(st.actions, vec![ImAction::Forward { time: 2, key: 42, pressed: false }]);
    assert!(!c.enabled());
}

#[test]
fn commit_and_forward_commits_first() {
    let mut c = ImCore::new();
    assert_eq!(
        c.engine_response(4, 51, Response::CommitAndForward("明".into())),
        vec![ImAction::Sync(Some("明".into())), ImAction::Forward { time: 4, key: 51, pressed: true }]
    );
    assert_eq!(c.engine_response(5, 52, Response::Commit("日".into())), vec![ImAction::Sync(Some("日".into()))]);
}

#[test]
fn no_keymap_forwards_everything() {
    let mut c = ImCore::new();
    let mut k = cx(Key::Char('a'), false, false, false);
    k.has_keymap = false;
    let st = c.key_event(1, 30, true, k);
    assert_eq!(st.actions, vec![ImAction::Forward { time: 1, key: 30, pressed: true }]);
}

#[test]
fn unavailable_exits() {
    let mut c = ImCore::new();
    assert!(!c.should_exit());
    c.unavailable();
    assert!(c.should_exit());
}

#[test]
fn preedit_line_lists_candidates() {
    let p = Preedit { text: "日".into(), cursor: 3 };
    let cands = vec![
        Candidate { text: "日".into(), hint: None },
        Candidate { text: "曰".into(), hint: None },
    ];
    let info = PageInfo { page: 0, total_pages: Some(2), has_next: true, page_size: 2 };
    assert_eq!(preedit_line(&p, &cands, info, 0), ("日 ▸1日 2曰 (1/2)".to_string(), 3));
    let one = PageInfo { page: 0, total_pages: Some(1), has_next: false, page_size: 9 };
    assert_eq!(preedit_line(&p, &vec![], one, 0), ("日".to_string(), 3));
}

#[test]
fn toggles_are_off_until_enabled() {
    let mut c = ImCore::new();
    // Ctrl+Space goes to the engine like any other key.
    let st = c.key_event(1, 57, true, cx(Key::Space, true, false, true));
    assert!(st.actions.is_empty());
    assert!(st.process.is_some());
    assert!(c.enabled());
    // The engine ignores the chord: it reaches the application, and so does
    // its release.
    let a = c.engine_response(1, 57, Response::Ignored);
    assert_eq!(a, vec![ImAction::Forward { time: 1, key: 57, pressed: true }]);
    let rel = c.key_event(2, 57, false, cx(Key::Space, true, false, true));
    assert_eq!(rel.actions, vec![ImAction::Forward { time: 2, key: 57, pressed: false }]);
    // A lone Shift tap only passes through.
    let shift = Key::Modifier(ModifierKey::ShiftL);
    c.key_event(3, 42, true, cx(shift, false, true, false));
    let st = c.key_event(4, 42, false, cx(shift, false, true, false));
    assert_eq!(st.actions, vec![ImAction::Forward { time: 4, key: 42, pressed: false }]);
    assert!(c.enabled());
}

#[test]
fn swallowed_press_swallows_its_release() {
    let mut c = ImCore::new();
    let st = c.key_event(1, 30, true, cx(Key::Char('a'), false, false, false));
    assert!(st.process.is_some());
    assert_eq!(c.engine_response(1, 30, Response::Consumed), vec![ImAction::Sync(None)]);
    let rel = c.key_event(2, 30, false, cx(Key::Char('a'), false, false, false));
    assert!(rel.actions.is_empty());
    // A second release of the same key is forwarded: it is no longer tracked.
    let rel = c.key_event(3, 30, false, cx(Key::Char('a'), false, false, false));
    assert_eq!(rel.actions, vec![ImAction::Forward { time: 3, key: 30, pressed: false }]);
}
