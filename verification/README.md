# cosmic-ext-ime

Chinese input for the COSMIC desktop on Wayland: Cangjie (倉頡) and Quick
(速成) through libcangjie2, Smart Pinyin through libpinyin, and RIME through
librime. The key handling, candidate ranking and paging, the daemon's
keyboard-grab bookkeeping, the configuration rules and the popup text are
written in Verus and proved against their contracts.

## Layout

- `src/` — the verified library.
  - `engine.rs`: keys, responses, candidates and the engine interface.
  - `cangjie/`: the Cangjie/Quick rules as spec functions (`model.rs`), the
    engine that follows them and asks its caller for database lookups
    (`engine.rs`), result ranking (`rank.rs`), database types (`db.rs`) and
    the laws of the engine (`laws.rs`).
  - `pinyin.rs`: the Pinyin engine's own state; libpinyin work is requested
    step by step.
  - `rime.rs`: key codes for librime and the snapshot of a RIME session.
  - `schema_list.rs`: the generated `default.custom.yaml`.
  - `daemon.rs`: the input-method state (consumed and forwarded keys,
    activation, and the Ctrl+Space and lone-Shift toggles, which are off
    until enabled in the settings) and the preedit line.
  - `keys.rs`: keysym to engine key.
  - `config.rs`, `setup.rs`, `settings.rs`: shared configuration, engine
    set-up from it, and the settings window's decisions.
  - `popup.rs`: the candidate window's text, its redraw state and pixel
    blending.
  - `paths.rs`: default data directories from the environment's values.
  - `text.rs`: string helpers.
- `tests/` — tests against the library.
- `app/` — the Wayland daemon: it talks to the compositor and libcangjie2
  and performs what the library decides. It runs the libcangjie engine with
  the settings' defaults; the RIME and Pinyin engines exist in the library
  only, as librime and libpinyin are not linked here.
