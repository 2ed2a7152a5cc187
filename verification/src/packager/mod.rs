//! Packaging of what was built: the parameters of a packaging run, the
//! order of its phases, and the layout of a framework bundle.

pub mod args;
pub mod framework;
pub mod interface;
