//! Decision logic of a desktop application's self-update subsystem.

pub mod download;
pub mod fetch;
pub mod install;
pub mod release;
pub mod request;
pub mod text;
pub mod update;
pub mod version;
