//! Build backends: what every backend is given, and the two there are.

pub mod cargo;
pub mod interface;
pub mod lua;
pub mod util;
