//! The bridge to module build scripts: the environment a script is given,
//! the handle through which it reports its outputs, and the description of
//! the processes it asks to run.

pub mod engine;
pub mod lib_command;
pub mod output_list;
