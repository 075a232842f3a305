use cosmic_ext_ime::engine::{Candidate, Key, KeyInput, Modifiers, PageInfo, Preedit, Response};
use cosmic_ext_ime::pinyin::{options, punctuation, system_data_dirs, Choice, Config, DoublePinyinScheme, PinyinEngine, PinyinStep, Scheme};
use cosmic_ext_ime::popup::{popup_spans, PopupState, Span, SpanStyle, SurfaceAction};

fn cfg() -> Config {
    Config {
        system_data_dir: "/usr/share/libpinyin/data".into(),
        user_data_dir: "/tmp/pinyin".into(),
        scheme: Scheme::Full,
        fuzzy: true,
        incomplete: true,
        page_size: 9,
        fullwidth_punctuation: true,
    }
}

fn key(k: Key) -> KeyInput {
    KeyInput { key: k, modifiers: Modifiers::default() }
}

#[test]
fn pinyin_key_decisions() {
    let mut e = PinyinEngine::new(cfg());
    assert_eq!(e.name(), "拼音");
    assert_eq!(e.process_key(key(Key::Char(','))), PinyinStep::Done(Response::Commit("，".into())));
    assert_eq!(e.process_key(key(Key::Char('1'))), PinyinStep::Done(Response::Ignored));
    assert_eq!(e.process_key(key(Key::Space)), PinyinStep::Done(Response::Ignored));
    for c in "nihao".chars() {
        assert_eq!(e.process_key(key(Key::Char(c))), PinyinStep::Reparse);
    }
    assert_eq!(e.input(), "nihao");
    e.set_candidates(vec!["你好".into(), "".into(), "你".into(), "尼".into()]);
    assert_eq!(e.candidates().len(), 3);
    assert_eq!(e.process_key(key(Key::Space)), PinyinStep::Select(0));
    assert_eq!(e.process_key(key(Key::Char('3'))), PinyinStep::Select(2));
    assert_eq!(e.process_key(key(Key::Char('4'))), PinyinStep::Done(Response::Consumed));
    e.chose(2);
    assert_eq!(e.offset(), 2);
    assert_eq!(e.process_key(key(Key::Backspace)), PinyinStep::Unchoose(0));
    assert_eq!(e.process_key(key(Key::Backspace)), PinyinStep::Reparse);
    assert_eq!(e.input(), "niha");
    assert_eq!(e.process_key(key(Key::Char('.'))), PinyinStep::CommitSentence(Some("。".into())));
    assert_eq!(e.process_key(key(Key::Char('@'))), PinyinStep::CommitSentence(None));
    assert_eq!(e.process_key(key(Key::Tab)), PinyinStep::Done(Response::Consumed));
    assert_eq!(e.process_key(key(Key::Enter)), PinyinStep::Reset(Response::Commit("niha".into())));
    assert!(!e.is_composing());
}

#[test]
fn pinyin_sentence_commits_and_saves_every_tenth() {
    let mut e = PinyinEngine::new(cfg());
    for i in 0..9 {
        e.process_key(key(Key::Char('a')));
        let (save, r) = e.sentence_committed("啊".into(), Some("。".into()), false);
        assert!(!save, "commit {i}");
        assert_eq!(r, Response::Commit("啊。".into()));
    }
    assert!(e.unsaved_commits());
    let (save, r) = e.sentence_committed("啊".into(), None, false);
    assert!(save);
    assert_eq!(r, Response::CommitAndForward("啊".into()));
    assert!(!e.unsaved_commits());
    let (_, r) = e.sentence_committed("你好".into(), None, true);
    assert_eq!(r, Response::Commit("你好".into()));
}

#[test]
fn pinyin_paging_and_schemes() {
    let mut e = PinyinEngine::new(Config { page_size: 2, scheme: Scheme::DoubleZrm, ..cfg() });
    assert_eq!(e.name(), "双拼");
    e.process_key(key(Key::Char('n')));
    e.set_candidates(vec!["你".into(), "呢".into(), "那".into()]);
    assert_eq!(e.page_info().total_pages, Some(2));
    assert_eq!(e.process_key(key(Key::PageUp)), PinyinStep::Done(Response::Consumed));
    assert_eq!(e.page_info().page, 1);
    assert_eq!(e.candidates()[0].text, "那");
    assert_eq!(e.process_key(key(Key::Char('1'))), PinyinStep::Select(2));
    assert_eq!(e.process_key(key(Key::Escape)), PinyinStep::Reset(Response::Consumed));
    assert_eq!(Scheme::Full.raw(), DoublePinyinScheme::Ms);
    assert_eq!(Scheme::DoubleXhe.raw(), DoublePinyinScheme::Xhe);
    assert!(!Scheme::Full.is_double());
    let o = options(&Config { fuzzy: false, ..cfg() });
    assert!(o.incomplete && !o.ambiguities_all && o.is_pinyin);
    assert_eq!(punctuation('^'), Some("……"));
    assert_eq!(punctuation('a'), None);
}

#[test]
fn popup_text_layout() {
    let cands = vec![
        Candidate { text: "明".into(), hint: Some("日月".into()) },
        Candidate { text: "朋".into(), hint: None },
    ];
    let page = PageInfo { page: 0, total_pages: Some(3), has_next: true, page_size: 2 };
    let spans = popup_spans(&"日月".to_string(), &cands, page, 0).unwrap();
    let expect = vec![
        Span { text: "日月".into(), style: SpanStyle::Header },
        Span { text: "\n1. 明".into(), style: SpanStyle::Highlight },
        Span { text: "  日月".into(), style: SpanStyle::Hint },
        Span { text: "\n2. 朋".into(), style: SpanStyle::Candidate },
        Span { text: "\n1/3".into(), style: SpanStyle::Hint },
    ];
    assert_eq!(spans, expect);
    let rime_page = PageInfo { page: 1, total_pages: None, has_next: true, page_size: 5 };
    let spans = popup_spans(&String::new(), &cands[..1].to_vec(), rime_page, 0).unwrap();
    assert_eq!(spans[1].style, SpanStyle::Candidate);
    assert_eq!(spans.last().unwrap().text, "\n◂ 2 ▸");
    assert!(popup_spans(&String::new(), &vec![], page, 0).is_none());
}

#[test]
fn popup_redraws_what_it_showed_until_closed() {
    let cands = vec![
        Candidate { text: "明".into(), hint: None },
        Candidate { text: "朋".into(), hint: None },
    ];
    let page = PageInfo { page: 0, total_pages: Some(1), has_next: false, page_size: 9 };
    let mut popup = PopupState::new();
    assert!(!popup.is_visible());
    let first = popup.show(&"日".to_string(), &cands, page, 1);
    let spans = popup_spans(&"日".to_string(), &cands, page, 1).unwrap();
    assert_eq!(first, SurfaceAction::Draw(spans.clone()));
    // Not on screen until the buffer was attached.
    assert!(!popup.is_visible());
    popup.drawn(true);
    assert!(popup.is_visible());
    assert_eq!(popup.redraw(false), SurfaceAction::Keep);
    assert_eq!(popup.redraw(true), SurfaceAction::Draw(spans));
    assert_eq!(popup.close(), SurfaceAction::Detach);
    assert!(!popup.is_visible());
    assert_eq!(popup.redraw(true), SurfaceAction::Keep);
    assert_eq!(popup.close(), SurfaceAction::Keep);
}

#[test]
fn popup_showing_nothing_closes_it() {
    let page = PageInfo { page: 0, total_pages: Some(1), has_next: false, page_size: 9 };
    let mut popup = PopupState::new();
    let cands = vec![Candidate { text: "日".into(), hint: None }];
    assert!(matches!(popup.show(&String::new(), &cands, page, 0), SurfaceAction::Draw(_)));
    popup.drawn(true);
    assert_eq!(popup.show(&String::new(), &vec![], page, 0), SurfaceAction::Detach);
    assert!(!popup.is_visible());
    // A failed draw leaves the popup off screen, and a hidden popup drops
    // what it remembered on the next redraw.
    assert!(matches!(popup.show(&"a".to_string(), &vec![], page, 0), SurfaceAction::Draw(_)));
    popup.drawn(false);
    assert!(!popup.is_visible());
    assert_eq!(popup.redraw(true), SurfaceAction::Keep);
}

#[test]
fn pinyin_default_directories() {
    let pkg = "/opt/libpinyin/share/libpinyin".to_string();
    let dirs = system_data_dirs(&pkg);
    assert_eq!(dirs.len(), 5);
    assert_eq!(dirs[0], "/opt/libpinyin/share/libpinyin/data");
    assert_eq!(dirs[3], "/usr/lib/libpinyin/data");
    let home = "/home/u/.local/share".to_string();
    let c = Config::defaults(&home, &pkg, &vec![false, false, false, true, true]);
    assert_eq!(c.system_data_dir, "/usr/lib/libpinyin/data");
    assert_eq!(c.user_data_dir, "/home/u/.local/share/cosmic-ext-ime/pinyin");
    assert_eq!(c.scheme, Scheme::Full);
    assert!(c.fuzzy && c.incomplete && c.fullwidth_punctuation);
    assert_eq!(c.page_size, 9);
    let c = Config::defaults(&home, &pkg, &vec![false; 5]);
    assert_eq!(c.system_data_dir, "/opt/libpinyin/share/libpinyin/data");
}

#[test]
fn pinyin_word_choice_outcomes() {
    let mut e = PinyinEngine::new(cfg());
    assert_eq!(e.header("ni'hao|".into()), "");
    assert_eq!(e.preedit("你好".into()), Preedit { text: String::new(), cursor: 0 });
    for c in "nihao".chars() {
        e.process_key(key(Key::Char(c)));
    }
    assert_eq!(e.header("ni'hao|".into()), "ni'hao|");
    assert_eq!(e.preedit("你好".into()), Preedit { text: "你好".into(), cursor: 6 });
    e.set_candidates(vec!["你好".into(), "你".into()]);
    // libpinyin had no such candidate, or refused the choice.
    assert_eq!(e.choice_made(None, 2), Choice::Unchanged);
    assert_eq!(e.choice_made(Some(-1), 2), Choice::Unchanged);
    assert_eq!(e.offset(), 0);
    // Choosing 你 covers the first of two syllables: composing goes on.
    assert_eq!(e.choice_made(Some(1), 2), Choice::Chosen);
    assert_eq!(e.offset(), 1);
    assert!(e.is_composing());
    // Choosing the rest reaches the end: the sentence is committed.
    assert_eq!(e.choice_made(Some(2), 2), Choice::CommitSentence);
    let (_, r) = e.sentence_committed("你好".into(), None, true);
    assert_eq!(r, Response::Commit("你好".into()));
    assert!(!e.is_composing());
}
