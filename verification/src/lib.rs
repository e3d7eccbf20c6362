//! Challenge deployment tooling: validation of challenge description files,
//! deployment bookkeeping, and the pure decisions behind building, pushing and
//! deploying challenge containers.

pub mod byte_offsets;
pub mod decimal;
pub mod docker;
pub mod editor;
pub mod env;
pub mod json;
pub mod k8s;
pub mod logging;
pub mod paths;
pub mod shared;
pub mod static_files;
pub mod text;
pub mod webhook;
pub mod yaml;
