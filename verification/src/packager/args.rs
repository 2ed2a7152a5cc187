//! The parameters a packaging run is started with, as the user gives them.

use vstd::prelude::*;
use vstd::string::*;
use crate::builder::interface::host_triple;
use crate::output::texts;
use crate::packager::interface::{Config, Context, Package, PackageType};

verus! {

/// What the user asks of a packaging run.
pub struct Args {
    /// Which targets to build for.
    pub target_list: Vec<String>,
    /// Whether to build in release mode.
    pub release: bool,
    /// The packager to use.
    pub package_type: PackageType,
    /// The root of the package, where its manifest is.
    pub root: Option<String>,
}

/// The targets of a run: those that were asked for, or else `host` alone.
pub open spec fn targets_or(asked: Seq<Seq<char>>, host: Seq<char>) -> Seq<Seq<char>> {
    if asked.len() == 0 {
        seq![host]
    } else {
        asked
    }
}

/// The configuration of a run.
pub open spec fn config_of(release: bool) -> Config {
    if release {
        Config::Release
    } else {
        Config::Debug
    }
}

impl Args {
    /// The root to work in: the one that was given, or else the current
    /// directory.
    pub open spec fn root_text(&self) -> Seq<char> {
        match self.root {
            Some(r) => r@,
            None => "./"@,
        }
    }

    /// The parameters of the run that was asked for, on a host with the
    /// triple `host`.
    pub fn context_on<P: Package>(self, package: P, host: &str) -> (r: Context<P>)
        ensures
            r.root@ == self.root_text(),
            r.package == package,
            r.config == config_of(self.release),
            texts(r.targets@) == targets_or(texts(self.target_list@), host@),
    {
        let root = match self.root {
            Some(r) => r,
            None => "./".to_owned(),
        };
        let mut targets = self.target_list;
        if targets.len() == 0 {
            targets.push(host.to_owned());
            assert(texts(targets@) =~= seq![host@]);
        }
        Context {
            root,
            package,
            config: if self.release {
                Config::Release
            } else {
                Config::Debug
            },
            targets,
        }
    }

    /// The parameters of the run that was asked for. Where no target was
    /// asked for, the run is for the host alone.
    pub fn context<P: Package>(self, package: P) -> (r: Context<P>)
        ensures
            r.root@ == self.root_text(),
            r.package == package,
            r.config == config_of(self.release),
            exists|host: Seq<char>|
                texts(r.targets@) == #[trigger] targets_or(texts(self.target_list@), host),
    {
        let host = host_triple();
        let r = self.context_on(package, host);
        assert(texts(r.targets@) == targets_or(texts(self.target_list@), host@));
        r
    }
}

} // verus!
