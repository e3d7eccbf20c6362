//! The challenge description format (`chall.yaml`).

pub mod value;
pub mod parse;
pub mod lists;
pub mod categories;
pub mod flag;
pub mod files;
pub mod deploy;
pub mod correctness;
pub mod shape;
pub mod messages;
