//! The declared workspace: its modules, each with the backend that builds
//! it and, where it is not found under its own name, its path.

use vstd::prelude::*;
use vstd::string::*;
use crate::builder::interface::{Context, Module};
use crate::builder::util::BuilderType;
use crate::path::{join, joined};

verus! {

/// One declared module.
pub struct Member {
    pub name: String,
    /// The backend that builds the module.
    pub ty: BuilderType,
    /// The module's path relative to the workspace root; its name where
    /// absent.
    pub path: Option<String>,
}

/// The declared modules, in declaration order.
pub struct Workspace {
    pub modules: Vec<Member>,
}

/// The file that declares the workspace rooted at `root`.
pub open spec fn workspace_file_of(root: Seq<char>) -> Seq<char> {
    joined(root, "bp3d-make.toml"@)
}

impl Workspace {
    /// The file that declares the workspace rooted at `root`.
    pub fn file_path(root: &str) -> (r: String)
        ensures
            r@ == workspace_file_of(root@),
    {
        join(root, "bp3d-make.toml")
    }
}

impl Member {
    /// Where the module lies under `root`.
    pub open spec fn location(&self, root: Seq<char>) -> Seq<char> {
        joined(
            root,
            match self.path {
                Some(p) => p@,
                None => self.name@,
            },
        )
    }

    /// The module as the backends see it: its name, and its path under the
    /// workspace root.
    pub fn module(&self, context: &Context) -> (r: Module)
        ensures
            r.name@ == self.name@,
            r.path@ == self.location(context.root@),
    {
        let relative = match &self.path {
            Some(p) => p.as_str(),
            None => self.name.as_str(),
        };
        Module { name: self.name.clone(), path: join(context.root.as_str(), relative) }
    }
}

} // verus!
