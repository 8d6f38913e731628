//! Rules of an extension manager for the `just` command runner.

pub mod error;
pub mod install;
pub mod naming;
pub mod path;
pub mod source;
pub mod store;
pub mod text;
