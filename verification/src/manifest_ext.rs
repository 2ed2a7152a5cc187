//! The packager's own table in a package manifest, and what can go wrong
//! when it is read.

use vstd::prelude::*;
use vstd::string::*;
use crate::text::prefixed_with;

verus! {

/// A manifest reduced to the packager's table, `bp3d-package`.
pub struct ManifestExtension<T> {
    value: T,
}

impl<T> ManifestExtension<T> {
    /// What the table holds.
    pub closed spec fn value(&self) -> T {
        self.value
    }

    /// The manifest whose table holds `value`.
    pub fn new(value: T) -> (r: Self)
        ensures
            r.value() == value,
    {
        ManifestExtension { value }
    }

    /// What the table holds.
    pub fn into_value(self) -> (r: T)
        ensures
            r == self.value(),
    {
        self.value
    }
}

/// Why the packager's table could not be read. Each variant carries the
/// cause in words.
#[derive(Debug, PartialEq, Eq)]
pub enum Error {
    /// The manifest could not be read.
    Io(String),
    /// The manifest is no valid TOML, or the table is not as expected.
    Toml(String),
}

/// The error in words.
pub open spec fn message_of(e: Error) -> Seq<char> {
    match e {
        Error::Io(cause) => "io error: "@ + cause@,
        Error::Toml(cause) => "toml error: "@ + cause@,
    }
}

impl Error {
    /// The error in words.
    pub fn message(&self) -> (r: String)
        ensures
            r@ == message_of(*self),
    {
        match self {
            Error::Io(cause) => prefixed_with("io error: ", cause.as_str()),
            Error::Toml(cause) => prefixed_with("toml error: ", cause.as_str()),
        }
    }
}

} // verus!
