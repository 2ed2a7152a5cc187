//! The parameters a build is started with, as the user gives them.

use vstd::prelude::*;
use vstd::string::*;
use crate::builder::interface::Context;
use crate::output::texts;

verus! {

/// What the user asks of a build.
pub struct Args {
    /// Which target to build for.
    pub target: Option<String>,
    /// Which features to build with.
    pub features: Vec<String>,
    /// Whether to build in release mode.
    pub release: bool,
    /// Whether to build with all features.
    pub all_features: bool,
    /// The root of the project, where the workspace is declared.
    pub root: Option<String>,
}

impl Args {
    /// The root to work in: the one that was given, or else the current
    /// directory.
    pub open spec fn root_text(&self) -> Seq<char> {
        match self.root {
            Some(r) => r@,
            None => "./"@,
        }
    }

    /// The parameters of the run that was asked for.
    pub fn context(self) -> (r: Context)
        ensures
            r.root@ == self.root_text(),
            r.target_text() == (match self.target {
                Some(t) => Some(t@),
                None => None,
            }),
            r.release == self.release,
            r.all_features == self.all_features,
            r.feature_texts() == texts(self.features@),
    {
        let root = match self.root {
            Some(r) => r,
            None => "./".to_owned(),
        };
        Context {
            root,
            target: self.target,
            release: self.release,
            all_features: self.all_features,
            features: self.features,
        }
    }
}

} // verus!
