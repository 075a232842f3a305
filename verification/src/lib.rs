//! Input-method engines and daemon logic for the COSMIC desktop.

pub mod cangjie;
pub mod config;
pub mod daemon;
pub mod engine;
pub mod keys;
pub mod paths;
pub mod pinyin;
pub mod popup;
pub mod rime;
pub mod schema_list;
pub mod settings;
pub mod setup;
pub mod text;
