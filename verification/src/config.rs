//! The settings contract between the daemon and any settings UI.
//!
//! Stored through cosmic-config under `~/.config/cosmic/<APP_ID>/v1/<field>`,
//! one file per field; any writer can change a key and the daemon picks it
//! up live.
use vstd::prelude::*;
use crate::schema_list::contains_text;
use crate::text::{chars_of};

verus! {

/// Application id of the settings store.
pub const APP_ID: &'static str = "io.github.wanleung.CosmicExtIme";

/// Version of the settings store.
pub const CONFIG_VERSION: u64 = 1;

/// Version of the state store.
pub const STATE_VERSION: u64 = 1;

/// Which engine the daemon runs.
#[derive(Debug, Clone, Copy, PartialEq, Eq, Structural)]
pub enum Engine {
    /// libcangjie2: Cangjie / Quick, tuned for Hong Kong users.
    Cangjie,
    /// librime: any RIME schema (Cangjie, Quick, Jyutping, Pinyin, ...).
    Rime,
}

impl Engine {
    /// Every engine, in menu order.
    pub fn all() -> (a: [Engine; 2])
        ensures
            a@ == seq![Engine::Cangjie, Engine::Rime],
    {
        let a = [Engine::Cangjie, Engine::Rime];
        assert(a@ =~= seq![Engine::Cangjie, Engine::Rime]);
        a
    }

    /// Menu label.
    pub fn label(self) -> (s: &'static str)
        ensures
            s@ == (match self {
                Engine::Cangjie => "倉頡／速成 (libcangjie)"@,
                Engine::Rime => "RIME 中州韻"@,
            }),
    {
        match self {
            Engine::Cangjie => "倉頡／速成 (libcangjie)",
            Engine::Rime => "RIME 中州韻",
        }
    }
}

/// Cangjie input style.
#[derive(Debug, Clone, Copy, PartialEq, Eq, Structural)]
pub enum Mode {
    Cangjie,
    Quick,
}

impl Mode {
    /// Every mode, in menu order.
    pub fn all() -> (a: [Mode; 2])
        ensures
            a@ == seq![Mode::Cangjie, Mode::Quick],
    {
        let a = [Mode::Cangjie, Mode::Quick];
        assert(a@ =~= seq![Mode::Cangjie, Mode::Quick]);
        a
    }

    /// Menu label.
    pub fn label(self) -> (s: &'static str)
        ensures
            s@ == (match self {
                Mode::Cangjie => "倉頡 Cangjie"@,
                Mode::Quick => "速成 Quick"@,
            }),
    {
        match self {
            Mode::Cangjie => "倉頡 Cangjie",
            Mode::Quick => "速成 Quick",
        }
    }
}

/// Cangjie table generation.
#[derive(Debug, Clone, Copy, PartialEq, Eq, Structural)]
pub enum CangjieVersion {
    V3,
    V5,
}

impl CangjieVersion {
    /// Every version, in menu order.
    pub fn all() -> (a: [CangjieVersion; 2])
        ensures
            a@ == seq![CangjieVersion::V3, CangjieVersion::V5],
    {
        let a = [CangjieVersion::V3, CangjieVersion::V5];
        assert(a@ =~= seq![CangjieVersion::V3, CangjieVersion::V5]);
        a
    }

    /// Menu label.
    pub fn label(self) -> (s: &'static str)
        ensures
            s@ == (match self {
                CangjieVersion::V3 => "倉頡三代 (Cangjie 3)"@,
                CangjieVersion::V5 => "倉頡五代 (Cangjie 5)"@,
            }),
    {
        match self {
            CangjieVersion::V3 => "倉頡三代 (Cangjie 3)",
            CangjieVersion::V5 => "倉頡五代 (Cangjie 5)",
        }
    }
}

/// Character sets in libcangjie's database; maps 1:1 to `CANGJIE_FILTER_*`.
#[derive(Debug, Clone, Copy, PartialEq, Eq, Hash, Structural)]
pub enum CharSet {
    Big5,
    Hkscs,
    Chinese,
    Kanji,
    Hiragana,
    Katakana,
    Zhuyin,
    Punctuation,
    Symbols,
}

/// The character sets in menu order.
pub open spec fn all_char_sets() -> Seq<CharSet> {
    seq![
        CharSet::Big5,
        CharSet::Hkscs,
        CharSet::Chinese,
        CharSet::Kanji,
        CharSet::Hiragana,
        CharSet::Katakana,
        CharSet::Zhuyin,
        CharSet::Punctuation,
        CharSet::Symbols,
    ]
}

impl CharSet {
    /// Every character set, in menu order.
    pub fn all() -> (a: [CharSet; 9])
        ensures
            a@ == all_char_sets(),
    {
        let a = [
            CharSet::Big5,
            CharSet::Hkscs,
            CharSet::Chinese,
            CharSet::Kanji,
            CharSet::Hiragana,
            CharSet::Katakana,
            CharSet::Zhuyin,
            CharSet::Punctuation,
            CharSet::Symbols,
        ];
        assert(a@ =~= all_char_sets());
        a
    }

    /// Position in menu order.
    pub fn index(self) -> (i: usize)
        ensures
            i < 9,
            all_char_sets()[i as int] == self,
    {
        match self {
            CharSet::Big5 => 0,
            CharSet::Hkscs => 1,
            CharSet::Chinese => 2,
            CharSet::Kanji => 3,
            CharSet::Hiragana => 4,
            CharSet::Katakana => 5,
            CharSet::Zhuyin => 6,
            CharSet::Punctuation => 7,
            CharSet::Symbols => 8,
        }
    }

    /// Menu label.
    pub fn label(self) -> (s: &'static str)
        ensures
            s@ == (match self {
                CharSet::Big5 => "Big5 常用字"@,
                CharSet::Hkscs => "香港增補字符集 HKSCS"@,
                CharSet::Chinese => "所有中文字 (all Chinese)"@,
                CharSet::Kanji => "日文漢字 Kanji"@,
                CharSet::Hiragana => "平假名 Hiragana"@,
                CharSet::Katakana => "片假名 Katakana"@,
                CharSet::Zhuyin => "注音符號 Zhuyin"@,
                CharSet::Punctuation => "標點符號 Punctuation"@,
                CharSet::Symbols => "符號 Symbols"@,
            }),
    {
        match self {
            CharSet::Big5 => "Big5 常用字",
            CharSet::Hkscs => "香港增補字符集 HKSCS",
            CharSet::Chinese => "所有中文字 (all Chinese)",
            CharSet::Kanji => "日文漢字 Kanji",
            CharSet::Hiragana => "平假名 Hiragana",
            CharSet::Katakana => "片假名 Katakana",
            CharSet::Zhuyin => "注音符號 Zhuyin",
            CharSet::Punctuation => "標點符號 Punctuation",
            CharSet::Symbols => "符號 Symbols",
        }
    }

    /// One-line explanation under the label.
    pub fn description(self) -> (s: &'static str)
        ensures
            s@ == (match self {
                CharSet::Big5 => "Traditional Chinese, the everyday set"@,
                CharSet::Hkscs => "Hong Kong characters not in Big5 (e.g. 嘅 啲)"@,
                CharSet::Chinese => "Every Chinese character in the table, including rare and simplified forms"@,
                CharSet::Kanji => "All CJK Unified Ideographs used in Japanese"@,
                CharSet::Hiragana => "Type with zj + romaji, e.g. zja → あ"@,
                CharSet::Katakana => "Type with zj + romaji, e.g. zja → ア"@,
                CharSet::Zhuyin => "ㄅㄆㄇㄈ"@,
                CharSet::Punctuation => "Full-width punctuation with z-codes, e.g. zxab → ，"@,
                CharSet::Symbols => "Arrows, box drawing, units and other symbols"@,
            }),
    {
        match self {
            CharSet::Big5 => "Traditional Chinese, the everyday set",
            CharSet::Hkscs => "Hong Kong characters not in Big5 (e.g. 嘅 啲)",
            CharSet::Chinese => "Every Chinese character in the table, including rare and simplified forms",
            CharSet::Kanji => "All CJK Unified Ideographs used in Japanese",
            CharSet::Hiragana => "Type with zj + romaji, e.g. zja → あ",
            CharSet::Katakana => "Type with zj + romaji, e.g. zja → ア",
            CharSet::Zhuyin => "ㄅㄆㄇㄈ",
            CharSet::Punctuation => "Full-width punctuation with z-codes, e.g. zxab → ，",
            CharSet::Symbols => "Arrows, box drawing, units and other symbols",
        }
    }
}

/// The daemon's settings.
#[derive(Debug, Clone, PartialEq)]
pub struct PopeinputConfig {
    pub engine: Engine,
    /// RIME schema id (e.g. "cangjie5"); empty means RIME's own default.
    pub rime_schema: String,
    pub mode: Mode,
    pub cangjie_version: CangjieVersion,
    pub char_sets: Vec<CharSet>,
    /// Candidates per page, 1–9 (selected with the number keys).
    pub page_size: u32,
    /// Commit full-width digits, punctuation and space while idle.
    pub fullwidth_chars: bool,
    /// Chinese input is on only while a matching keyboard layout is active,
    /// so COSMIC's input-source switcher and panel applet control it.
    pub follow_layout: bool,
    /// Case-insensitive substrings matched against the active layout's name.
    pub chinese_layouts: Vec<String>,
    pub ctrl_space_toggle: bool,
    pub shift_tap_toggle: bool,
    pub popup_font_size: u32,
}

/// The views of a list of strings.
pub open spec fn texts(s: Seq<String>) -> Seq<Seq<char>> {
    s.map_values(|x: String| x@)
}

fn string_of(s: &str) -> (r: String)
    ensures
        r@ == s@,
{
    s.to_owned()
}

impl Default for PopeinputConfig {
    fn default() -> (c: PopeinputConfig)
        ensures
            c.engine == Engine::Cangjie,
            c.rime_schema@.len() == 0,
            c.mode == Mode::Cangjie,
            c.cangjie_version == CangjieVersion::V5,
            c.char_sets@ == seq![CharSet::Big5, CharSet::Hkscs],
            c.page_size == 9,
            c.fullwidth_chars,
            c.follow_layout,
            texts(c.chinese_layouts@) == seq!["chinese"@, "cantonese"@, "hong kong"@, "taiwanese"@],
            !c.ctrl_space_toggle,
            !c.shift_tap_toggle,
            c.popup_font_size == 18,
    {
        let mut char_sets: Vec<CharSet> = Vec::new();
        char_sets.push(CharSet::Big5);
        char_sets.push(CharSet::Hkscs);
        let mut layouts: Vec<String> = Vec::new();
        layouts.push(string_of("chinese"));
        layouts.push(string_of("cantonese"));
        layouts.push(string_of("hong kong"));
        layouts.push(string_of("taiwanese"));
        assert(char_sets@ =~= seq![CharSet::Big5, CharSet::Hkscs]);
        assert(texts(layouts@) =~= seq!["chinese"@, "cantonese"@, "hong kong"@, "taiwanese"@]);
        PopeinputConfig {
            engine: Engine::Cangjie,
            rime_schema: String::new(),
            mode: Mode::Cangjie,
            cangjie_version: CangjieVersion::V5,
            char_sets,
            page_size: 9,
            fullwidth_chars: true,
            follow_layout: true,
            chinese_layouts: layouts,
            ctrl_space_toggle: false,
            shift_tap_toggle: false,
            popup_font_size: 18,
        }
    }
}

/// ASCII letters lowered, everything else unchanged.
pub open spec fn ascii_lower_char(c: char) -> char {
    if 'A' <= c && c <= 'Z' {
        ((c as u32) + 32) as char
    } else {
        c
    }
}

/// `s` with ASCII letters lowered.
pub open spec fn ascii_lower(s: Seq<char>) -> Seq<char> {
    s.map_values(|c: char| ascii_lower_char(c))
}

fn lower_char(c: char) -> (r: char)
    ensures
        r == ascii_lower_char(c),
{
    if 'A' <= c && c <= 'Z' {
        let b = (c as u32) as u8;
        ((b + 32) as char)
    } else {
        c
    }
}

/// The characters of `s`, ASCII letters lowered.
pub fn to_ascii_lower(s: &str) -> (v: Vec<char>)
    ensures
        v@ == ascii_lower(s@),
{
    let cs = chars_of(s);
    let mut v: Vec<char> = Vec::new();
    let mut i: usize = 0;
    while i < cs.len()
        invariant
            i <= cs.len(),
            cs@ == s@,
            v@ == ascii_lower(cs@.take(i as int)),
        decreases cs.len() - i,
    {
        let l = lower_char(cs[i]);
        v.push(l);
        assert(ascii_lower(cs@.take(i + 1)) =~= ascii_lower(cs@.take(i as int)).push(l));
        i = i + 1;
    }
    assert(cs@.take(cs.len() as int) =~= cs@);
    v
}

/// The settings a change to which requires rebuilding the engine.
#[derive(Debug, Clone, PartialEq)]
pub struct EngineFields {
    pub engine: Engine,
    pub rime_schema: String,
    pub mode: Mode,
    pub cangjie_version: CangjieVersion,
    pub char_sets: Vec<CharSet>,
    pub page_size: u32,
    pub fullwidth_chars: bool,
}

/// The settings that decide the engine, as plain values: engine, RIME
/// schema, mode, Cangjie version, character sets, page size, full-width.
pub open spec fn engine_settings(c: PopeinputConfig) -> (Engine, Seq<char>, Mode, CangjieVersion, Seq<CharSet>, u32, bool) {
    (c.engine, c.rime_schema@, c.mode, c.cangjie_version, c.char_sets@, c.page_size, c.fullwidth_chars)
}

impl EngineFields {
    /// The fields as plain values.
    pub open spec fn settings(&self) -> (Engine, Seq<char>, Mode, CangjieVersion, Seq<CharSet>, u32, bool) {
        (
            self.engine,
            self.rime_schema@,
            self.mode,
            self.cangjie_version,
            self.char_sets@,
            self.page_size,
            self.fullwidth_chars,
        )
    }

    /// Whether the two hold the same settings, field by field: when they
    /// differ, the engine must be rebuilt.
    pub fn same(&self, other: &EngineFields) -> (b: bool)
        ensures
            b == (self.settings() == other.settings()),
    {
        if self.engine != other.engine || self.mode != other.mode || self.cangjie_version != other.cangjie_version
            || self.page_size != other.page_size || self.fullwidth_chars != other.fullwidth_chars {
            return false;
        }
        if self.rime_schema != other.rime_schema {
            return false;
        }
        if self.char_sets.len() != other.char_sets.len() {
            return false;
        }
        let mut i: usize = 0;
        while i < self.char_sets.len()
            invariant
                i <= self.char_sets.len(),
                self.char_sets.len() == other.char_sets.len(),
                forall|j: int| 0 <= j < i ==> #[trigger] self.char_sets@[j] == other.char_sets@[j],
            decreases self.char_sets.len() - i,
        {
            if self.char_sets[i] != other.char_sets[i] {
                return false;
            }
            i = i + 1;
        }
        assert(self.char_sets@ =~= other.char_sets@);
        true
    }
}

/// Only the seven engine settings decide whether the engine is rebuilt:
/// two configurations have the same engine fields exactly when those agree,
/// and the layout following, the layout names, the toggle keys and the
/// popup font size never matter.
pub proof fn law_engine_settings(
    a: PopeinputConfig,
    b: PopeinputConfig,
    follow_layout: bool,
    chinese_layouts: Vec<String>,
    ctrl_space_toggle: bool,
    shift_tap_toggle: bool,
    popup_font_size: u32,
)
    ensures
        engine_settings(a) == engine_settings(b) <==> (a.engine == b.engine && a.rime_schema@ == b.rime_schema@
            && a.mode == b.mode && a.cangjie_version == b.cangjie_version && a.char_sets@ == b.char_sets@
            && a.page_size == b.page_size && a.fullwidth_chars == b.fullwidth_chars),
        engine_settings(
            PopeinputConfig {
                follow_layout,
                chinese_layouts,
                ctrl_space_toggle,
                shift_tap_toggle,
                popup_font_size,
                ..a
            },
        ) == engine_settings(a),
{
}

impl PopeinputConfig {
    /// Whether the keyboard layout named `layout_name` is a Chinese one:
    /// some configured pattern occurs in it, ignoring ASCII case.
    pub fn is_chinese_layout(&self, layout_name: &str) -> (b: bool)
        ensures
            b == exists|i: int|
                0 <= i < self.chinese_layouts@.len() && contains_text(
                    ascii_lower(layout_name@),
                    ascii_lower(#[trigger] self.chinese_layouts@[i]@),
                ),
    {
        let name = to_ascii_lower(layout_name);
        let mut i: usize = 0;
        while i < self.chinese_layouts.len()
            invariant
                i <= self.chinese_layouts.len(),
                name@ == ascii_lower(layout_name@),
                forall|j: int|
                    0 <= j < i ==> !contains_text(
                        ascii_lower(layout_name@),
                        ascii_lower(#[trigger] self.chinese_layouts@[j]@),
                    ),
            decreases self.chinese_layouts.len() - i,
        {
            let p = to_ascii_lower(self.chinese_layouts[i].as_str());
            if crate::schema_list::contains_chars(&name, &p) {
                return true;
            }
            i = i + 1;
        }
        false
    }

    /// Whether `set` is enabled.
    pub fn has_char_set(&self, set: CharSet) -> (b: bool)
        ensures
            b == self.char_sets@.contains(set),
    {
        let mut i: usize = 0;
        while i < self.char_sets.len()
            invariant
                i <= self.char_sets.len(),
                forall|j: int| 0 <= j < i ==> #[trigger] self.char_sets@[j] != set,
            decreases self.char_sets.len() - i,
        {
            if self.char_sets[i] == set {
                assert(self.char_sets@[i as int] == set);
                return true;
            }
            i = i + 1;
        }
        false
    }

    /// The settings a change to which requires rebuilding the engine.
    pub fn engine_fields(&self) -> (f: EngineFields)
        ensures
            f.settings() == engine_settings(*self),
            f.engine == self.engine,
            f.rime_schema@ == self.rime_schema@,
            f.mode == self.mode,
            f.cangjie_version == self.cangjie_version,
            f.char_sets@ == self.char_sets@,
            f.page_size == self.page_size,
            f.fullwidth_chars == self.fullwidth_chars,
    {
        let mut sets: Vec<CharSet> = Vec::new();
        let mut i: usize = 0;
        while i < self.char_sets.len()
            invariant
                i <= self.char_sets.len(),
                sets@ == self.char_sets@.take(i as int),
            decreases self.char_sets.len() - i,
        {
            sets.push(self.char_sets[i]);
            assert(self.char_sets@.take(i + 1) =~= self.char_sets@.take(i as int).push(self.char_sets@[i as int]));
            i = i + 1;
        }
        assert(self.char_sets@.take(self.char_sets.len() as int) =~= self.char_sets@);
        EngineFields {
            engine: self.engine,
            rime_schema: self.rime_schema.clone(),
            mode: self.mode,
            cangjie_version: self.cangjie_version,
            char_sets: sets,
            page_size: self.page_size,
            fullwidth_chars: self.fullwidth_chars,
        }
    }
}

/// A deployed schema as published for the settings UI.
#[derive(Debug, Clone, PartialEq, Eq)]
pub struct RimeSchema {
    pub id: String,
    pub name: String,
}

/// Runtime facts the daemon publishes for the settings UI (cosmic-config
/// state), so the UI never needs to link librime.
#[derive(Debug, Clone, PartialEq)]
pub struct RimeState {
    /// Schemas RIME has deployed; filled once the RIME engine has started.
    pub schemas: Vec<RimeSchema>,
    /// Why RIME could not start, or empty.
    pub error: String,
    /// Redeploys the settings app asked for.
    pub deploy_requested: u64,
    /// Redeploy requests the daemon has served.
    pub deploy_done: u64,
}

impl Default for RimeState {
    fn default() -> (s: RimeState)
        ensures
            s.schemas@.len() == 0,
            s.error@.len() == 0,
            s.deploy_requested == 0,
            s.deploy_done == 0,
    {
        RimeState { schemas: Vec::new(), error: String::new(), deploy_requested: 0, deploy_done: 0 }
    }
}

} // verus!
