use cosmic_ext_ime::paths::{data_home, join_path};
use cosmic_ext_ime::rime::shared_data_dirs;
use cosmic_ext_ime::engine::{Key, KeyInput, ModifierKey, Modifiers, PageInfo, Response};
use cosmic_ext_ime::rime::{commit_text, key_step, release_mask_for, respond, to_rime_key, KeyStep, Snapshot};
use cosmic_ext_ime::schema_list::{default_custom, order_schema_ids, schema_ids};

fn key(k: Key, m: Modifiers) -> KeyInput {
    KeyInput { key: k, modifiers: m }
}

#[test]
fn rime_key_codes() {
    let none = Modifiers::default();
    assert_eq!(to_rime_key(&key(Key::Char('a'), none)), (0x61, 0));
    assert_eq!(to_rime_key(&key(Key::Char('日'), none)), (0x0100_0000 + 0x65e5, 0));
    assert_eq!(to_rime_key(&key(Key::PageDown, none)), (0xff56, 0));
    assert_eq!(to_rime_key(&key(Key::Modifier(ModifierKey::SuperR), none)), (0xffec, 0));
    assert_eq!(to_rime_key(&key(Key::Modifier(ModifierKey::Other), none)).0, 0);
    assert_eq!(to_rime_key(&key(Key::Other, none)).0, 0);
    let all = Modifiers { shift: true, ctrl: true, alt: true, logo: true };
    assert_eq!(to_rime_key(&key(Key::Space, all)), (0x20, 1 | 4 | 8 | 64));
    assert_eq!(release_mask_for(4), 4 | (1 << 30));
}

#[test]
fn rime_responses() {
    assert_eq!(respond(true, Some("明".into())), Response::Commit("明".into()));
    assert_eq!(respond(true, None), Response::Consumed);
    assert_eq!(respond(false, Some("明".into())), Response::CommitAndForward("明".into()));
    assert_eq!(respond(false, None), Response::Ignored);
    assert_eq!(commit_text(String::new()), None);
    assert_eq!(commit_text("明".into()), Some("明".to_string()));
}

#[test]
fn snapshot_from_librime_values() {
    let s = Snapshot::from_rime(
        "倉頡五代".into(),
        true,
        "日月".into(),
        99,
        -1,
        false,
        0,
        2,
        vec![("明".into(), "".into()), ("朋".into(), "bb".into())],
    );
    assert_eq!(s.name(), "倉頡五代");
    assert_eq!(s.preedit().cursor, "日月".len());
    assert_eq!(s.page_info(), PageInfo { page: 0, total_pages: None, has_next: true, page_size: 1 });
    let c = s.candidates();
    assert_eq!(c[0].hint, None);
    assert_eq!(c[1].hint.as_deref(), Some("bb"));
    assert_eq!(s.selected, 2);
    assert!(s.composing);
    let e = Snapshot::empty();
    assert_eq!(e.name(), "RIME");
    let last = Snapshot::from_rime(String::new(), false, String::new(), -3, 2, true, 5, -1, vec![]);
    assert_eq!(last.page_info(), PageInfo { page: 2, total_pages: None, has_next: false, page_size: 5 });
    assert_eq!(last.preedit().cursor, 0);
}

#[test]
fn schema_ids_from_file_names() {
    let names: Vec<String> = vec!["luna_pinyin.schema.yaml", "cangjie5.schema.yaml", "README", "cangjie5.schema.yaml", "jyut6ping3.schema.yaml", "quick5.schema.yaml"]
        .into_iter()
        .map(String::from)
        .collect();
    let ids = schema_ids(&names);
    assert_eq!(ids, vec!["luna_pinyin", "cangjie5", "jyut6ping3", "quick5"]);
    assert_eq!(order_schema_ids(&ids), vec!["cangjie5", "jyut6ping3", "quick5", "luna_pinyin"]);
    let (yaml, n) = default_custom(&names, 12);
    assert_eq!(n, 4);
    assert_eq!(
        yaml,
        "# Generated by cosmic-ext-ime on first run. Edit freely; it is never overwritten.\n\
         # Remove schemas you do not want from schema_list to speed up deployment.\n\
         patch:\n  schema_list:\n    - schema: cangjie5\n    - schema: jyut6ping3\n    - schema: quick5\n    - schema: luna_pinyin\n  menu/page_size: 9\n"
    );
    let (yaml0, n0) = default_custom(&vec![], 0);
    assert_eq!(n0, 0);
    assert!(yaml0.ends_with("  schema_list:\n  menu/page_size: 1\n"));
}

#[test]
fn rime_default_directories() {
    let home = data_home(None, Some("/home/u".to_string()));
    assert_eq!(home, "/home/u/.local/share");
    let cfg = cosmic_ext_ime::rime::Config::defaults(&home, &vec![false, true]);
    assert_eq!(cfg.shared_data_dir, "/usr/local/share/rime-data");
    assert_eq!(cfg.user_data_dir, "/home/u/.local/share/cosmic-ext-ime/rime");
    assert_eq!(cfg.schema, None);
    assert_eq!(cfg.page_size, 9);
    let cfg = cosmic_ext_ime::rime::Config::defaults(&home, &vec![true, true]);
    assert_eq!(cfg.shared_data_dir, "/usr/share/rime-data");
    let cfg = cosmic_ext_ime::rime::Config::defaults(&home, &vec![]);
    assert_eq!(cfg.shared_data_dir, "/usr/share/rime-data");
    assert_eq!(shared_data_dirs(), vec!["/usr/share/rime-data".to_string(), "/usr/local/share/rime-data".to_string()]);
}

#[test]
fn data_home_and_path_joining() {
    assert_eq!(data_home(Some("/x/data".to_string()), Some("/home/u".to_string())), "/x/data");
    assert_eq!(data_home(None, None), ".");
    assert_eq!(data_home(None, Some("/home/u/".to_string())), "/home/u/.local/share");
    assert_eq!(join_path(&"/a".to_string(), "b"), "/a/b");
    assert_eq!(join_path(&"/a/".to_string(), "b"), "/a/b");
    assert_eq!(join_path(&String::new(), "b"), "b");
}

#[test]
fn rime_keys_without_keysym_are_ignored() {
    let plain = Modifiers::default();
    assert_eq!(key_step(&key(Key::Other, plain), false), KeyStep::Ignore);
    assert_eq!(key_step(&key(Key::Modifier(ModifierKey::Other), plain), true), KeyStep::Ignore);
    let ctrl = Modifiers { ctrl: true, ..Modifiers::default() };
    assert_eq!(key_step(&key(Key::Char('a'), ctrl), false), KeyStep::Send { keysym: 0x61, mask: 4 });
    assert_eq!(
        key_step(&key(Key::Modifier(ModifierKey::ShiftL), plain), true),
        KeyStep::Send { keysym: 0xffe1, mask: 0x4000_0000 }
    );
}
