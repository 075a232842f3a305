//! Cangjie (倉頡) and Quick (速成) input, as a verified state machine that
//! asks the libcangjie2 database for lookups.

pub mod db;
pub mod rank;
pub mod model;
pub mod engine;
pub mod laws;
