//! Turns the shared settings into what the engines need, and keeps the
//! RIME state published for the settings UI.
use vstd::prelude::*;
use crate::cangjie::db::{Filter, Version};
use crate::cangjie::engine::Config as CangjieConfig;
use crate::cangjie::model::Mode as CangjieMode;
use crate::config::{CangjieVersion, CharSet, Engine, Mode, PopeinputConfig, RimeSchema, RimeState};
use crate::rime::{Config as RimeConfig, Schema};

verus! {

/// libcangjie's filter bit for a character set.
pub open spec fn charset_bit(c: CharSet) -> u32 {
    match c {
        CharSet::Big5 => 1,
        CharSet::Hkscs => 2,
        CharSet::Punctuation => 4,
        CharSet::Chinese => 8,
        CharSet::Zhuyin => 16,
        CharSet::Kanji => 32,
        CharSet::Katakana => 64,
        CharSet::Hiragana => 128,
        CharSet::Symbols => 256,
    }
}

/// The union of the bits of the sets.
pub open spec fn union_bits(s: Seq<CharSet>) -> u32
    decreases s.len(),
{
    if s.len() == 0 {
        0
    } else {
        union_bits(s.drop_last()) | charset_bit(s.last())
    }
}

/// The filter for the configured sets: their union, or Big5 + HKSCS when
/// none is configured.
pub open spec fn filter_bits(s: Seq<CharSet>) -> u32 {
    if s.len() == 0 {
        3
    } else {
        union_bits(s)
    }
}

fn charset_filter(c: CharSet) -> (f: Filter)
    ensures
        f.spec_bits() == charset_bit(c),
{
    match c {
        CharSet::Big5 => Filter::big5(),
        CharSet::Hkscs => Filter::hkscs(),
        CharSet::Chinese => Filter::chinese(),
        CharSet::Kanji => Filter::kanji(),
        CharSet::Hiragana => Filter::hiragana(),
        CharSet::Katakana => Filter::katakana(),
        CharSet::Zhuyin => Filter::zhuyin(),
        CharSet::Punctuation => Filter::punctuation(),
        CharSet::Symbols => Filter::symbols(),
    }
}

proof fn lemma_or_zero(x: u32)
    ensures
        0u32 | x == x,
{
    assert(0u32 | x == x) by (bit_vector);
}

/// The Cangjie engine settings for the shared settings: mode and version
/// carried over, the character sets' filter, page size clamped into 1..=9.
pub fn cangjie_config(cfg: &PopeinputConfig) -> (c: CangjieConfig)
    ensures
        cangjie_config_for(cfg, c),
{
    let mode = match cfg.mode {
        Mode::Cangjie => CangjieMode::Cangjie,
        Mode::Quick => CangjieMode::Quick,
    };
    let version = match cfg.cangjie_version {
        CangjieVersion::V3 => Version::V3,
        CangjieVersion::V5 => Version::V5,
    };
    let filter = if cfg.char_sets.len() == 0 {
        Filter::hong_kong()
    } else {
        let mut f = charset_filter(cfg.char_sets[0]);
        proof {
            lemma_or_zero(charset_bit(cfg.char_sets@[0]));
            assert(cfg.char_sets@.take(1).drop_last() =~= Seq::<CharSet>::empty());
            assert(cfg.char_sets@.take(1).last() == cfg.char_sets@[0]);
            assert(union_bits(Seq::<CharSet>::empty()) == 0);
            assert(union_bits(cfg.char_sets@.take(1)) == 0u32 | charset_bit(cfg.char_sets@[0]));
        }
        let mut i: usize = 1;
        while i < cfg.char_sets.len()
            invariant
                1 <= i <= cfg.char_sets.len(),
                f.spec_bits() == union_bits(cfg.char_sets@.take(i as int)),
            decreases cfg.char_sets.len() - i,
        {
            f = f.union(charset_filter(cfg.char_sets[i]));
            assert(cfg.char_sets@.take(i + 1).drop_last() =~= cfg.char_sets@.take(i as int));
            i = i + 1;
        }
        assert(cfg.char_sets@.take(cfg.char_sets.len() as int) =~= cfg.char_sets@);
        f
    };
    let page_size: usize = if cfg.page_size < 1 {
        1
    } else if cfg.page_size > 9 {
        9
    } else {
        cfg.page_size as usize
    };
    CangjieConfig { version, filter, mode, page_size, fullwidth_chars: cfg.fullwidth_chars }
}

/// `c` is the Cangjie engine setting for `cfg`.
pub open spec fn cangjie_config_for(cfg: &PopeinputConfig, c: CangjieConfig) -> bool {
    &&& c.mode == (match cfg.mode {
            Mode::Cangjie => CangjieMode::Cangjie,
            Mode::Quick => CangjieMode::Quick,
        })
    &&& c.version == (match cfg.cangjie_version {
            CangjieVersion::V3 => Version::V3,
            CangjieVersion::V5 => Version::V5,
        })
    &&& c.filter.spec_bits() == filter_bits(cfg.char_sets@)
    &&& c.page_size == (if cfg.page_size < 1 {
            1
        } else if cfg.page_size > 9 {
            9
        } else {
            cfg.page_size
        })
    &&& c.fullwidth_chars == cfg.fullwidth_chars
}


/// The RIME engine settings for the shared settings: the schema unless
/// empty, and the page size.
pub fn rime_config(cfg: &PopeinputConfig, shared_data_dir: String, user_data_dir: String) -> (c: RimeConfig)
    ensures
        rime_config_for(cfg, shared_data_dir@, user_data_dir@, c),
{
    let schema = if cfg.rime_schema.as_str().is_empty() {
        None
    } else {
        Some(cfg.rime_schema.clone())
    };
    RimeConfig { shared_data_dir, user_data_dir, schema, page_size: cfg.page_size as usize }
}

/// `c` is the RIME engine setting for `cfg` with these data directories.
pub open spec fn rime_config_for(cfg: &PopeinputConfig, shared: Seq<char>, user: Seq<char>, c: RimeConfig) -> bool {
    &&& c.shared_data_dir@ == shared
    &&& c.user_data_dir@ == user
    &&& cfg.rime_schema@.len() == 0 ==> c.schema is None
    &&& cfg.rime_schema@.len() > 0 ==> c.schema is Some && c.schema->0@ == cfg.rime_schema@
    &&& c.page_size == cfg.page_size as usize
}

/// Which engine the shared settings select, with its settings.
pub enum EngineSetup {
    Cangjie(CangjieConfig),
    Rime(RimeConfig),
}

/// The engine to build for the shared settings: libcangjie's with the
/// Cangjie settings, or librime's with the RIME settings and these data
/// directories.
pub fn engine_setup(cfg: &PopeinputConfig, shared_data_dir: String, user_data_dir: String) -> (e: EngineSetup)
    ensures
        match e {
            EngineSetup::Cangjie(c) => cfg.engine == Engine::Cangjie && cangjie_config_for(cfg, c),
            EngineSetup::Rime(c) => cfg.engine == Engine::Rime && rime_config_for(
                cfg,
                shared_data_dir@,
                user_data_dir@,
                c,
            ),
        },
{
    match cfg.engine {
        Engine::Cangjie => EngineSetup::Cangjie(cangjie_config(cfg)),
        Engine::Rime => EngineSetup::Rime(rime_config(cfg, shared_data_dir, user_data_dir)),
    }
}

/// The RIME state to publish after starting RIME: the deployed schemas, the
/// error if it failed, and every redeploy requested so far marked done.
pub fn rime_state(schemas: &Vec<Schema>, error: Option<String>, previous: &RimeState) -> (s: RimeState)
    ensures
        s.schemas@.len() == schemas@.len(),
        forall|i: int|
            0 <= i < schemas@.len() ==> #[trigger] s.schemas@[i].id@ == schemas@[i].id@
                && s.schemas@[i].name@ == schemas@[i].name@,
        s.error@ == (match error {
            Some(e) => e@,
            None => Seq::empty(),
        }),
        s.deploy_requested == previous.deploy_requested,
        s.deploy_done == previous.deploy_requested,
{
    let mut out: Vec<RimeSchema> = Vec::new();
    let mut i: usize = 0;
    while i < schemas.len()
        invariant
            i <= schemas.len(),
            out@.len() == i,
            forall|j: int|
                0 <= j < i ==> #[trigger] out@[j].id@ == schemas@[j].id@ && out@[j].name@
                    == schemas@[j].name@,
        decreases schemas.len() - i,
    {
        out.push(RimeSchema { id: schemas[i].id.clone(), name: schemas[i].name.clone() });
        i = i + 1;
    }
    let error = match error {
        Some(e) => e,
        None => String::new(),
    };
    RimeState {
        schemas: out,
        error,
        deploy_requested: previous.deploy_requested,
        deploy_done: previous.deploy_requested,
    }
}

/// True when the settings app asked for a RIME redeploy not yet served.
pub fn rime_deploy_pending(state: &RimeState) -> (b: bool)
    ensures
        b == (state.deploy_requested > state.deploy_done),
{
    state.deploy_requested > state.deploy_done
}

/// After publishing, no redeploy is pending.
pub proof fn law_published_state_served(previous: RimeState, s: RimeState)
    requires
        s.deploy_requested == previous.deploy_requested,
        s.deploy_done == previous.deploy_requested,
    ensures
        !(s.deploy_requested > s.deploy_done),
{
}

} // verus!
