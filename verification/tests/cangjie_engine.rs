use cosmic_ext_ime::cangjie::db::{check, CangjieError, Char, Filter, Version};
use cosmic_ext_ime::cangjie::engine::{merge_commit, CangjieEngine, Config, Lookup, Step};
use cosmic_ext_ime::cangjie::model::Mode;
use cosmic_ext_ime::engine::{Key, KeyInput, Modifiers, Response};

/// A small stand-in for the libcangjie2 database holding the rows these
/// tests look up, with libcangjie's radicals and shortcode table entries.
fn row(chchar: &str, code: &str, frequency: u32) -> Char {
    Char { chchar: chchar.to_string(), code: code.to_string(), frequency }
}

fn lookup(l: &Lookup) -> Result<Vec<Char>, CangjieError> {
    let rows = if l.by_shortcode {
        match l.code.as_str() {
            " " => vec![row("\u{3000}", " ", 0)],
            "1" => vec![row("１", "1", 0)],
            "," => vec![row("，", ",", 10), row("、", ",", 5), row("﹐", ",", 1)],
            "." => vec![row("。", ".", 10), row("．", ".", 5)],
            _ => vec![],
        }
    } else {
        match l.code.as_str() {
            "a" => vec![
                row("曰", "a", 200),
                row("日", "a", 9000),
                row("曰", "a", 100),
                row("冃", "a", 10),
            ],
            "ab" => vec![row("明", "ab", 5000)],
            "a*b" => vec![
                row("晴", "aqmb", 900),
                row("明", "ab", 5000),
                row("暗", "aytb", 800),
                row("明", "ab", 5000),
            ],
            "abc" => vec![],
            _ => vec![],
        }
    };
    Ok(rows)
}

fn radicals() -> Vec<(char, String)> {
    let table = [
        ('a', "日"), ('b', "月"), ('c', "金"), ('d', "木"), ('e', "水"), ('f', "火"), ('g', "土"),
        ('h', "竹"), ('i', "戈"), ('j', "十"), ('k', "大"), ('l', "中"), ('m', "一"), ('n', "弓"),
        ('o', "人"), ('p', "心"), ('q', "手"), ('r', "口"), ('s', "尸"), ('t', "廿"), ('u', "山"),
        ('v', "女"), ('w', "田"), ('x', "難"), ('y', "卜"), ('z', "Ｚ"),
    ];
    table.iter().map(|(k, r)| (*k, r.to_string())).collect()
}

fn input_keys() -> Vec<char> {
    ('a'..='z').collect()
}

fn key(k: Key) -> KeyInput {
    KeyInput { key: k, modifiers: Modifiers::default() }
}

fn engine(cfg: Config) -> CangjieEngine {
    CangjieEngine::new(cfg, radicals(), input_keys())
}

fn cangjie() -> CangjieEngine {
    engine(Config::default())
}

fn quick() -> CangjieEngine {
    engine(Config { mode: Mode::Quick, ..Config::default() })
}

/// Hand a key to the engine, answering its lookups from the table.
fn press(e: &mut CangjieEngine, input: KeyInput) -> Response {
    let mut step = e.process_key(input);
    loop {
        match step {
            Step::Done(r) => return r,
            Step::Lookup(l) => step = e.resume(lookup(&l)),
        }
    }
}

fn type_str(engine: &mut CangjieEngine, s: &str) -> Vec<Response> {
    s.chars().map(|c| press(engine, key(Key::Char(c)))).collect()
}

#[test]
fn cangjie_waits_for_space_then_commits_unique_match() {
    let mut e = cangjie();
    type_str(&mut e, "ab");
    assert_eq!(e.preedit().text, "日月");
    assert!(e.candidates().is_empty());
    assert_eq!(press(&mut e, key(Key::Space)), Response::Commit("明".into()));
    assert!(!e.is_composing());
}

#[test]
fn cangjie_multiple_matches_show_candidates_ranked_by_frequency() {
    let mut e = cangjie();
    type_str(&mut e, "a");
    assert_eq!(press(&mut e, key(Key::Space)), Response::Consumed);
    let cands = e.candidates();
    assert!(cands.len() > 1);
    assert_eq!(cands[0].text, "日", "日 is the most frequent single-key 'a'");
    assert_eq!(press(&mut e, key(Key::Char('1'))), Response::Commit("日".into()));
}

#[test]
fn space_commits_first_when_one_page_else_pages() {
    let mut e = cangjie();
    type_str(&mut e, "a");
    press(&mut e, key(Key::Space));
    let info = e.page_info();
    let first = e.candidates()[0].text.clone();
    let r = press(&mut e, key(Key::Space));
    if info.total_pages.unwrap() > 1 {
        assert_eq!(r, Response::Consumed);
        assert_eq!(e.page_info().page, 1);
    } else {
        assert_eq!(r, Response::Commit(first));
    }
}

#[test]
fn typing_new_key_auto_commits_first_candidate() {
    let mut e = cangjie();
    type_str(&mut e, "a");
    press(&mut e, key(Key::Space));
    let first = e.candidates()[0].text.clone();
    assert_eq!(press(&mut e, key(Key::Char('b'))), Response::Commit(first));
    assert_eq!(e.preedit().text, "月");
}

#[test]
fn quick_looks_up_first_and_last_key() {
    let mut e = quick();
    type_str(&mut e, "a");
    assert!(e.candidates().is_empty());
    let r = press(&mut e, key(Key::Char('b')));
    assert_eq!(r, Response::Consumed);
    assert_eq!(e.preedit().text, "日月");
    let cands = e.candidates();
    assert!(!cands.is_empty());
    assert!(cands.len() <= 9);
    assert_eq!(cands[0].text, "明", "明 (日月) must rank first for Quick ab");
    assert_eq!(cands[0].hint.as_deref(), Some("日月"));
    assert!(cands.iter().any(|c| c.text == "晴"), "晴 (日手一月) matches a*b");
}

#[test]
fn quick_third_key_commits_first_and_starts_over() {
    let mut e = quick();
    type_str(&mut e, "ab");
    assert_eq!(press(&mut e, key(Key::Char('c'))), Response::Commit("明".into()));
    assert_eq!(e.preedit().text, "金");
    assert!(e.candidates().is_empty());
}

#[test]
fn quick_unknown_pair_rings_bell_and_clears_on_next_key() {
    let mut e = quick();
    type_str(&mut e, "z");
    let r = press(&mut e, key(Key::Char('z')));
    assert_eq!(r, Response::Bell);
    assert_eq!(e.preedit().text, "ＺＺ", "bad input stays visible");
    type_str(&mut e, "a");
    assert_eq!(e.preedit().text, "日");
}

#[test]
fn escape_and_backspace() {
    let mut e = cangjie();
    type_str(&mut e, "abc");
    assert_eq!(press(&mut e, key(Key::Backspace)), Response::Consumed);
    assert_eq!(e.preedit().text, "日月");
    assert_eq!(press(&mut e, key(Key::Escape)), Response::Consumed);
    assert!(!e.is_composing());
    assert_eq!(press(&mut e, key(Key::Escape)), Response::Ignored);
    assert_eq!(press(&mut e, key(Key::Backspace)), Response::Ignored);
}

#[test]
fn fullwidth_punctuation_from_shortcode_table() {
    let mut e = cangjie();
    let r = press(&mut e, key(Key::Char(',')));
    match r {
        Response::Commit(t) => assert_ne!(t, ","),
        Response::Consumed => {
            let cands = e.candidates();
            assert!(cands.iter().any(|c| c.text == "，"));
            assert_eq!(e.preedit().text, ",");
        }
        other => panic!("unexpected {other:?}"),
    }
}

#[test]
fn fullwidth_space_and_digits() {
    let mut e = cangjie();
    assert_eq!(press(&mut e, key(Key::Space)), Response::Commit("　".into()));
    assert_eq!(press(&mut e, key(Key::Char('1'))), Response::Commit("１".into()));
}

#[test]
fn halfwidth_mode_forwards_punctuation() {
    let mut e = engine(Config { fullwidth_chars: false, ..Config::default() });
    assert_eq!(press(&mut e, key(Key::Space)), Response::Ignored);
    assert_eq!(press(&mut e, key(Key::Char(','))), Response::Ignored);
    assert_eq!(press(&mut e, key(Key::Char('1'))), Response::Ignored);
}

#[test]
fn punctuation_after_input_commits_then_handles_punctuation() {
    let mut e = cangjie();
    type_str(&mut e, "ab");
    let r = press(&mut e, key(Key::Char(',')));
    match r {
        Response::Commit(t) => assert!(t.starts_with('明'), "got {t:?}"),
        other => panic!("unexpected {other:?}"),
    }
}

#[test]
fn halfwidth_punctuation_after_input_commits_and_forwards() {
    let mut e = engine(Config { fullwidth_chars: false, ..Config::default() });
    type_str(&mut e, "ab");
    assert_eq!(press(&mut e, key(Key::Char(','))), Response::CommitAndForward("明".into()));
    assert!(!e.is_composing());
}

#[test]
fn modifiers_pass_through() {
    let mut e = cangjie();
    let ctrl_a = KeyInput {
        key: Key::Char('a'),
        modifiers: Modifiers { ctrl: true, ..Modifiers::default() },
    };
    assert_eq!(press(&mut e, ctrl_a), Response::Ignored);
    assert!(!e.is_composing());
}

#[test]
fn wildcard_in_cangjie() {
    let mut e = cangjie();
    type_str(&mut e, "a*b");
    assert_eq!(e.preedit().text, "日＊月");
    assert_eq!(press(&mut e, key(Key::Space)), Response::Consumed);
    assert!(e.candidates().iter().any(|c| c.text == "晴"));
}

#[test]
fn enter_is_forwarded() {
    let mut e = cangjie();
    type_str(&mut e, "ab");
    assert_eq!(press(&mut e, key(Key::Enter)), Response::Ignored);
}

// Further cases of the engine's rules.

#[test]
fn ranking_drops_duplicate_characters() {
    let mut e = cangjie();
    type_str(&mut e, "a");
    press(&mut e, key(Key::Space));
    let texts: Vec<String> = e.candidates().into_iter().map(|c| c.text).collect();
    assert_eq!(texts, vec!["日", "曰", "冃"]);
    assert_eq!(e.candidates()[0].hint.as_deref(), Some("日"));
}

#[test]
fn quick_wildcard_star_is_fullwidth_punctuation() {
    let mut e = quick();
    // '*' is not a radical in Quick: it goes to the shortcode table, which has no entry.
    assert_eq!(press(&mut e, key(Key::Char('*'))), Response::Ignored);
    assert!(!e.is_composing());
}

#[test]
fn cangjie_code_length_is_limited_to_five() {
    let mut e = cangjie();
    let r = type_str(&mut e, "abcdef");
    assert_eq!(r[4], Response::Consumed);
    assert_eq!(r[5], Response::Bell);
    assert_eq!(e.preedit().text, "日月金木水");
}

#[test]
fn failed_lookup_rings_and_next_key_starts_over() {
    let mut e = cangjie();
    type_str(&mut e, "abc");
    assert_eq!(press(&mut e, key(Key::Space)), Response::Bell);
    assert_eq!(e.preedit().text, "日月金");
    type_str(&mut e, "a");
    assert_eq!(e.preedit().text, "日");
}

#[test]
fn paging_wraps_around() {
    let mut e = engine(Config { page_size: 1, ..Config::default() });
    type_str(&mut e, "a");
    press(&mut e, key(Key::Space));
    assert_eq!(e.page_info().total_pages, Some(3));
    assert_eq!(press(&mut e, key(Key::PageUp)), Response::Consumed);
    assert_eq!(e.page_info().page, 2);
    assert_eq!(e.candidates()[0].text, "冃");
    assert_eq!(press(&mut e, key(Key::PageDown)), Response::Consumed);
    assert_eq!(e.page_info().page, 0);
    assert!(e.page_info().has_next);
}

#[test]
fn number_past_the_page_is_swallowed() {
    let mut e = cangjie();
    type_str(&mut e, "a");
    press(&mut e, key(Key::Space));
    assert_eq!(press(&mut e, key(Key::Char('9'))), Response::Consumed);
    assert_eq!(press(&mut e, key(Key::Char('0'))), Response::Consumed);
    assert!(e.is_composing());
}

#[test]
fn full_stop_after_candidates_commits_first_then_stop_choices() {
    let mut e = cangjie();
    type_str(&mut e, "a");
    press(&mut e, key(Key::Space));
    assert_eq!(press(&mut e, key(Key::Char('.'))), Response::Commit("日".into()));
    assert_eq!(e.preedit().text, ".");
    assert_eq!(e.candidates()[0].text, "。");
}

#[test]
fn mode_switch_and_names() {
    let mut e = cangjie();
    assert_eq!(e.name(), "倉頡");
    type_str(&mut e, "ab");
    e.set_mode(Mode::Quick);
    assert_eq!(e.name(), "速成");
    assert_eq!(e.mode(), Mode::Quick);
    assert!(!e.is_composing());
    assert_eq!(e.preedit().cursor, 0);
    type_str(&mut e, "a");
    assert_eq!(e.preedit().cursor, "日".len());
}

#[test]
fn merge_commit_puts_earlier_text_first() {
    assert_eq!(merge_commit(None, Response::Bell), Response::Bell);
    assert_eq!(merge_commit(Some("明".into()), Response::Ignored), Response::CommitAndForward("明".into()));
    assert_eq!(merge_commit(Some("明".into()), Response::Bell), Response::Commit("明".into()));
    assert_eq!(merge_commit(Some("明".into()), Response::Commit("，".into())), Response::Commit("明，".into()));
    assert_eq!(
        merge_commit(Some("a".into()), Response::CommitAndForward("b".into())),
        Response::CommitAndForward("ab".into())
    );
}

#[test]
fn database_errors_ring_the_bell() {
    let mut e = cangjie();
    type_str(&mut e, "ab");
    let step = e.process_key(key(Key::Space));
    assert!(matches!(step, Step::Lookup(_)));
    assert_eq!(e.resume(Err(CangjieError::DbError)), Step::Done(Response::Bell));
    assert!(e.candidates().is_empty());
    assert_eq!(e.preedit().text, "日月");
    let step = e.process_key(key(Key::Space));
    assert_eq!(step, Step::Lookup(Lookup { code: "ab".into(), by_shortcode: false }));
    assert_eq!(e.resume(Err(CangjieError::Invalid)), Step::Done(Response::Bell));
}

#[test]
fn filters_and_error_codes() {
    assert_eq!((Filter::big5() | Filter::hkscs()).bits(), Filter::hong_kong().bits());
    assert_eq!((Filter::kanji() | Filter::symbols()).bits(), 32 | 256);
    assert_eq!(Version::V3.raw(), 3);
    assert_eq!(Version::V5.raw(), 5);
    assert_eq!(check(0), Ok(()));
    assert_eq!(check(1), Ok(()));
    assert_eq!(check(2), Err(CangjieError::DbOpen));
    assert_eq!(check(3), Err(CangjieError::DbError));
    assert_eq!(check(4), Err(CangjieError::NoMem));
    assert_eq!(check(5), Err(CangjieError::Invalid));
    assert_eq!(check(-7), Err(CangjieError::Unknown(-7)));
}
