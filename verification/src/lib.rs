//! A build orchestrator for workspaces of native modules: it drives each
//! module's backend through configure, compile and list-outputs, resolves
//! the declared outputs to files, and merges them into one target
//! directory.

pub mod args;
pub mod builder;
pub mod finder;
pub mod lua;
pub mod manifest;
pub mod manifest_ext;
pub mod merge;
pub mod model;
pub mod orchestrator;
pub mod output;
pub mod packager;
pub mod path;
pub mod text;
