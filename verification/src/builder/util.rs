//! The registry of build backends: the closed set of backends and the tags
//! by which a workspace names them.

use vstd::prelude::*;
use vstd::string::*;
use crate::text::same_text;

verus! {

/// The build backends there are.
#[derive(Clone, Copy, Debug, PartialEq, Eq, Structural)]
pub enum BuilderType {
    Cargo,
    Lua,
}

/// The tag by which a workspace names a backend.
pub open spec fn tag_of(ty: BuilderType) -> Seq<char> {
    match ty {
        BuilderType::Cargo => "cargo"@,
        BuilderType::Lua => "lua"@,
    }
}

/// The backend that a tag names, if it names one.
pub open spec fn backend_of(tag: Seq<char>) -> Option<BuilderType> {
    if tag == "cargo"@ {
        Some(BuilderType::Cargo)
    } else if tag == "lua"@ {
        Some(BuilderType::Lua)
    } else {
        None
    }
}

impl BuilderType {
    /// The backend's name, as shown to the user.
    pub fn name(&self) -> (r: &'static str)
        ensures
            r@ == match *self {
                BuilderType::Cargo => "Cargo"@,
                BuilderType::Lua => "Lua"@,
            },
    {
        match self {
            BuilderType::Cargo => "Cargo",
            BuilderType::Lua => "Lua",
        }
    }

    /// The tag by which a workspace names the backend.
    pub fn tag(&self) -> (r: &'static str)
        ensures
            r@ == tag_of(*self),
    {
        match self {
            BuilderType::Cargo => "cargo",
            BuilderType::Lua => "lua",
        }
    }

    /// The backend that `tag` names. Tags are matched exactly.
    pub fn from_tag(tag: &str) -> (r: Option<BuilderType>)
        ensures
            r == backend_of(tag@),
    {
        if same_text(tag, "cargo") {
            Some(BuilderType::Cargo)
        } else if same_text(tag, "lua") {
            Some(BuilderType::Lua)
        } else {
            None
        }
    }
}

/// Every backend is found again by its own tag.
pub proof fn lemma_tag_names_its_backend(ty: BuilderType)
    ensures
        backend_of(tag_of(ty)) == Some(ty),
{
    reveal_strlit("cargo");
    reveal_strlit("lua");
    assert("cargo"@.len() == 5);
    assert("lua"@.len() == 3);
}

} // verus!
