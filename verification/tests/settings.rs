use cosmic_ext_ime::cangjie::db::Version;
use cosmic_ext_ime::cangjie::model::Mode as CjMode;
use cosmic_ext_ime::config::{CangjieVersion, CharSet, Engine, Mode, PopeinputConfig, RimeSchema, RimeState};
use cosmic_ext_ime::rime::Schema;
use cosmic_ext_ime::settings::{
    engine_choice, font_size_choice, mode_choice, page_size_choice, rime_hint, schema_choice, schema_index,
    schema_labels, toggle_char_set, version_choice,
};
use cosmic_ext_ime::setup::{cangjie_config, engine_setup, rime_config, rime_deploy_pending, rime_state, EngineSetup};
use cosmic_ext_ime::cangjie::db::Filter;

#[test]
fn labels() {
    assert_eq!(Engine::Cangjie.label(), "倉頡／速成 (libcangjie)");
    assert_eq!(Engine::Rime.label(), "RIME 中州韻");
    assert_eq!(Mode::Quick.label(), "速成 Quick");
    assert_eq!(CangjieVersion::V3.label(), "倉頡三代 (Cangjie 3)");
    assert_eq!(CharSet::Hkscs.label(), "香港增補字符集 HKSCS");
    assert_eq!(CharSet::Zhuyin.description(), "ㄅㄆㄇㄈ");
    assert_eq!(CharSet::all().len(), 9);
    assert_eq!(Engine::all(), [Engine::Cangjie, Engine::Rime]);
}

#[test]
fn defaults_and_layouts() {
    let c = PopeinputConfig::default();
    assert_eq!(c.char_sets, vec![CharSet::Big5, CharSet::Hkscs]);
    assert_eq!(c.page_size, 9);
    assert!(c.is_chinese_layout("Chinese"));
    assert!(c.is_chinese_layout("English (US), Hong Kong"));
    assert!(!c.is_chinese_layout("English (US)"));
    assert!(c.has_char_set(CharSet::Big5));
    assert!(!c.has_char_set(CharSet::Kanji));
    let f = c.engine_fields();
    assert_eq!(f.char_sets, c.char_sets);
    assert_eq!(f, c.clone().engine_fields());
}

#[test]
fn cangjie_settings_map_to_engine_config() {
    let mut c = PopeinputConfig::default();
    c.mode = Mode::Quick;
    c.cangjie_version = CangjieVersion::V3;
    c.page_size = 40;
    c.char_sets = vec![CharSet::Kanji, CharSet::Symbols];
    let e = cangjie_config(&c);
    assert_eq!(e.mode, CjMode::Quick);
    assert_eq!(e.version, Version::V3);
    assert_eq!(e.page_size, 9);
    assert_eq!(e.filter.bits(), 32 | 256);
    c.char_sets = vec![];
    c.page_size = 0;
    let e = cangjie_config(&c);
    assert_eq!(e.filter.bits(), 3);
    assert_eq!(e.page_size, 1);
}

#[test]
fn rime_settings_and_state() {
    let mut c = PopeinputConfig::default();
    let r = rime_config(&c, "/usr/share/rime-data".into(), "/tmp/rime".into());
    assert_eq!(r.schema, None);
    c.rime_schema = "cangjie5".into();
    let r = rime_config(&c, "/a".into(), "/b".into());
    assert_eq!(r.schema.as_deref(), Some("cangjie5"));
    let prev = RimeState { schemas: vec![], error: String::new(), deploy_requested: 3, deploy_done: 1 };
    assert!(rime_deploy_pending(&prev));
    let s = rime_state(&vec![Schema { id: "cangjie5".into(), name: "倉頡五代".into() }], None, &prev);
    assert_eq!(s.schemas, vec![RimeSchema { id: "cangjie5".into(), name: "倉頡五代".into() }]);
    assert!(!rime_deploy_pending(&s));
    let e = rime_state(&vec![], Some("failed".into()), &prev);
    assert_eq!(e.error, "failed");
}

#[test]
fn settings_window_choices() {
    assert_eq!(engine_choice(7), Engine::Rime);
    assert_eq!(mode_choice(0), Mode::Cangjie);
    assert_eq!(version_choice(1), CangjieVersion::V5);
    assert_eq!(page_size_choice(0), 1);
    assert_eq!(page_size_choice(12), 9);
    assert_eq!(font_size_choice(3), 8);
    assert_eq!(font_size_choice(60), 48);
    let schemas = vec![
        RimeSchema { id: "cangjie5".into(), name: "倉頡五代".into() },
        RimeSchema { id: "quick5".into(), name: "速成".into() },
    ];
    assert_eq!(schema_choice(&schemas, 0), "");
    assert_eq!(schema_choice(&schemas, 2), "quick5");
    assert_eq!(schema_choice(&schemas, 3), "");
    assert_eq!(schema_index(&schemas, &String::new()), Some(0));
    assert_eq!(schema_index(&schemas, &"quick5".to_string()), Some(2));
    assert_eq!(schema_index(&schemas, &"luna".to_string()), None);
    assert_eq!(schema_labels(&schemas), vec!["RIME 預設 (default)", "倉頡五代 (cangjie5)", "速成 (quick5)"]);
    let mut st = RimeState::default();
    assert!(rime_hint(&st).starts_with("Schema list appears"));
    st.schemas = schemas.clone();
    assert!(rime_hint(&st).starts_with("Schemas come from"));
    st.error = "boom".into();
    assert_eq!(rime_hint(&st), "boom");
}

#[test]
fn char_set_toggles_keep_menu_order() {
    let sets = vec![CharSet::Symbols, CharSet::Big5];
    assert_eq!(toggle_char_set(&sets, CharSet::Hkscs, true), vec![CharSet::Big5, CharSet::Hkscs, CharSet::Symbols]);
    assert_eq!(toggle_char_set(&sets, CharSet::Symbols, false), vec![CharSet::Big5]);
    assert_eq!(toggle_char_set(&sets, CharSet::Big5, true), vec![CharSet::Big5, CharSet::Symbols]);
}

#[test]
fn engine_selection_follows_the_setting() {
    let mut cfg = PopeinputConfig::default();
    match engine_setup(&cfg, "/s".into(), "/u".into()) {
        EngineSetup::Cangjie(c) => {
            assert_eq!(c.mode, CjMode::Cangjie);
            assert_eq!(c.version, Version::V5);
            assert_eq!(c.page_size, 9);
        }
        EngineSetup::Rime(_) => panic!("expected the Cangjie engine"),
    }
    cfg.engine = Engine::Rime;
    cfg.rime_schema = "cangjie5".into();
    match engine_setup(&cfg, "/s".into(), "/u".into()) {
        EngineSetup::Rime(r) => {
            assert_eq!(r.schema, Some("cangjie5".to_string()));
            assert_eq!(r.shared_data_dir, "/s");
            assert_eq!(r.user_data_dir, "/u");
        }
        EngineSetup::Cangjie(_) => panic!("expected the RIME engine"),
    }
}

#[test]
fn engine_fields_ignore_other_settings() {
    let a = PopeinputConfig::default();
    let mut b = PopeinputConfig::default();
    b.follow_layout = !a.follow_layout;
    b.ctrl_space_toggle = true;
    b.popup_font_size = 30;
    assert!(a.engine_fields().same(&b.engine_fields()));
    b.char_sets.push(CharSet::Kanji);
    assert!(!a.engine_fields().same(&b.engine_fields()));
    let mut c = PopeinputConfig::default();
    c.page_size = 5;
    assert!(!a.engine_fields().same(&c.engine_fields()));
}

#[test]
fn filter_or_unites_bits() {
    assert_eq!((Filter::big5() | Filter::hkscs()).bits(), Filter::hong_kong().bits());
    assert_eq!((Filter::kanji() | Filter::hiragana()).bits(), Filter::kanji().bits() | Filter::hiragana().bits());
}
