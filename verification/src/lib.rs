//! The core of a small JavaScript execution host: module specifiers and
//! their resolution, module loading, bytecode bundles, and the state machine
//! that drives one engine session from start-up to its exit code.

pub mod bundle;
pub mod crypto;
pub mod encoding;
pub mod engine;
pub mod error_fmt;
pub mod errors;
pub mod fetch;
pub mod flag;
pub mod fs_ops;
pub mod fs_url;
pub mod jsr;
pub mod loader;
pub mod map;
pub mod os;
pub mod path_util;
pub mod registry;
pub mod resolver;
pub mod specifier;
pub mod test_files;
pub mod test_runner;
pub mod text;
pub mod url_views;
