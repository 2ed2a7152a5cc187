//! What every build backend is given: the module to build and the
//! parameters of the run.

use vstd::prelude::*;
use vstd::string::*;
use crate::output::texts;
use crate::path::{join, joined, joined_option, PathExt};
use crate::text::{contains_text, has_substring};

verus! {

/// One buildable unit of the workspace.
pub struct Module {
    /// The name shown to the user.
    pub name: String,
    /// The module's root directory, or its build script.
    pub path: String,
}

/// The parameters of one run, the same for every module.
pub struct Context {
    /// The workspace root.
    pub root: String,
    /// The target triple; the host's where absent.
    pub target: Option<String>,
    pub release: bool,
    pub all_features: bool,
    pub features: Vec<String>,
}

/// The name of the directory that holds a configuration's files.
pub open spec fn profile_name(release: bool) -> Seq<char> {
    if release {
        "release"@
    } else {
        "debug"@
    }
}

/// Where the files built under `base` go: `target`, then the triple where
/// one was asked for, then the configuration.
pub open spec fn target_dir(base: Seq<char>, target: Option<Seq<char>>, release: bool) -> Seq<
    char,
> {
    joined(joined_option(joined(base, "target"@), target), profile_name(release))
}

/// The extension of a dynamic library on the platform that `triple` names.
pub open spec fn dynlib_extension_of(triple: Seq<char>) -> Seq<char> {
    if has_substring(triple, "apple"@) {
        ".dylib"@
    } else if has_substring(triple, "windows"@) {
        ".dll"@
    } else {
        ".so"@
    }
}

/// The extension of a static library on the platform that `triple` names.
pub open spec fn staticlib_extension_of(triple: Seq<char>) -> Seq<char> {
    if has_substring(triple, "windows"@) {
        ".lib"@
    } else {
        ".a"@
    }
}

/// The extension of an executable on the platform that `triple` names.
pub open spec fn exe_extension_of(triple: Seq<char>) -> Seq<char> {
    if has_substring(triple, "windows"@) {
        ".exe"@
    } else {
        ""@
    }
}

/// Reads `current_platform::CURRENT_PLATFORM`, the triple this library was
/// compiled for. Trusted, and nothing is claimed of the text: it differs
/// from one build to the next.
#[verifier::external_body]
pub(crate) fn host_triple() -> &'static str {
    current_platform::CURRENT_PLATFORM
}

/// The extension of a dynamic library on the platform that `triple` names.
pub fn dynlib_extension_for(triple: &str) -> (r: &'static str)
    ensures
        r@ == dynlib_extension_of(triple@),
{
    if contains_text(triple, "apple") {
        ".dylib"
    } else if contains_text(triple, "windows") {
        ".dll"
    } else {
        ".so"
    }
}

/// The extension of a static library on the platform that `triple` names.
pub fn staticlib_extension_for(triple: &str) -> (r: &'static str)
    ensures
        r@ == staticlib_extension_of(triple@),
{
    if contains_text(triple, "windows") {
        ".lib"
    } else {
        ".a"
    }
}

/// The extension of an executable on the platform that `triple` names.
pub fn exe_extension_for(triple: &str) -> (r: &'static str)
    ensures
        r@ == exe_extension_of(triple@),
{
    if contains_text(triple, "windows") {
        ".exe"
    } else {
        ""
    }
}

impl Context {
    /// The triple that was asked for, as text.
    pub open spec fn target_text(&self) -> Option<Seq<char>> {
        match self.target {
            Some(t) => Some(t@),
            None => None,
        }
    }

    /// The triple that was asked for, or `host` where none was.
    pub open spec fn target_or_text(&self, host: Seq<char>) -> Seq<char> {
        match self.target {
            Some(t) => t@,
            None => host,
        }
    }

    /// The triple to build for: the one that was asked for, or `host`.
    pub fn target_or<'a>(&'a self, host: &'a str) -> (r: &'a str)
        ensures
            r@ == self.target_or_text(host@),
    {
        match &self.target {
            Some(t) => t.as_str(),
            None => host,
        }
    }

    /// The triple to build for: the one that was asked for, or the host's.
    pub fn target(&self) -> (r: &str)
        ensures
            self.target matches Some(t) ==> r@ == t@,
    {
        self.target_or(host_triple())
    }

    /// The extension of a dynamic library on the platform built for.
    pub fn get_dynlib_extension(&self) -> (r: &'static str)
        ensures
            exists|host: Seq<char>| r@ == dynlib_extension_of(self.target_or_text(host)),
    {
        let triple = self.target();
        let r = dynlib_extension_for(triple);
        assert(r@ == dynlib_extension_of(self.target_or_text(triple@)));
        r
    }

    /// The extension of a static library on the platform built for.
    pub fn get_staticlib_extension(&self) -> (r: &'static str)
        ensures
            exists|host: Seq<char>| r@ == staticlib_extension_of(self.target_or_text(host)),
    {
        let triple = self.target();
        let r = staticlib_extension_for(triple);
        assert(r@ == staticlib_extension_of(self.target_or_text(triple@)));
        r
    }

    /// The extension of an executable on the platform built for.
    pub fn get_exe_extension(&self) -> (r: &'static str)
        ensures
            exists|host: Seq<char>| r@ == exe_extension_of(self.target_or_text(host)),
    {
        let triple = self.target();
        let r = exe_extension_for(triple);
        assert(r@ == exe_extension_of(self.target_or_text(triple@)));
        r
    }

    /// The directory under `base` that holds what this run builds.
    pub fn target_dir_under(&self, base: &str) -> (r: String)
        ensures
            r@ == target_dir(base@, self.target_text(), self.release),
    {
        let top = join(base, "target");
        let with_triple = match &self.target {
            Some(t) => top.as_str().join_option(Some(t.as_str())),
            None => top.as_str().join_option(None),
        };
        join(
            with_triple.as_str(),
            if self.release {
                "release"
            } else {
                "debug"
            },
        )
    }

    /// The features asked for, in order.
    pub open spec fn feature_texts(&self) -> Seq<Seq<char>> {
        texts(self.features@)
    }
}

} // verus!
