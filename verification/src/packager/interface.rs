//! What every packager is given, and the phases a packaging run goes
//! through.

use vstd::prelude::*;
use vstd::string::*;
use crate::lua::lib_command::{CommandInfo, CommandModel};
use crate::manifest::PackageManifest;
use crate::output::{lemma_texts_push, models, texts, Output, OutputModel};
use crate::path::{join, joined};

verus! {

/// The build configuration.
#[derive(Clone, Copy, Debug, PartialEq, Eq, Structural)]
pub enum Config {
    Debug,
    Release,
}

/// The packagers there are.
#[derive(Clone, Copy, Debug, PartialEq, Eq, Structural)]
pub enum PackageType {
    /// Bundles a library as a framework for macOS and iOS.
    Framework,
}

impl PackageType {
    /// The packager's name, as shown to the user.
    pub fn name(&self) -> (r: &'static str)
        ensures
            r@ == "Framework"@,
    {
        match self {
            PackageType::Framework => "Framework",
        }
    }
}

/// The package that is being packaged.
pub trait Package {
    /// Whether the package has a name.
    spec fn named(&self) -> bool;

    /// Whether the package has a version.
    spec fn versioned(&self) -> bool;

    spec fn name_text(&self) -> Seq<char>;

    spec fn version_text(&self) -> Seq<char>;

    /// The outputs the package declares, in order.
    spec fn declared(&self) -> Seq<OutputModel>;

    /// Returns the name of the package.
    fn get_name(&self) -> (r: &str)
        requires
            self.named(),
        ensures
            r@ == self.name_text(),
    ;

    /// Returns the version of this package.
    fn get_version(&self) -> (r: &str)
        requires
            self.versioned(),
        ensures
            r@ == self.version_text(),
    ;

    /// Returns all outputs of this package.
    fn get_outputs(&self) -> (r: Vec<Output>)
        ensures
            models(r@) == self.declared(),
    ;
}

impl Package for PackageManifest {
    open spec fn named(&self) -> bool {
        self.package() is Some
    }

    open spec fn name_text(&self) -> Seq<char> {
        self.package_name()
    }

    open spec fn versioned(&self) -> bool {
        PackageManifest::versioned(self)
    }

    open spec fn version_text(&self) -> Seq<char> {
        self.package()->0.version->0@
    }

    open spec fn declared(&self) -> Seq<OutputModel> {
        self.outputs()
    }

    fn get_name(&self) -> (r: &str) {
        PackageManifest::get_name(self)
    }

    fn get_version(&self) -> (r: &str) {
        PackageManifest::get_version(self)
    }

    fn get_outputs(&self) -> (r: Vec<Output>) {
        PackageManifest::get_outputs(self)
    }
}

/// The parameters of one packaging run.
pub struct Context<P: Package> {
    /// The root of the package.
    pub root: String,
    pub package: P,
    pub config: Config,
    /// The target triples to package for, in order.
    pub targets: Vec<String>,
}

/// The name of the directory that holds a configuration's files.
pub open spec fn config_name(config: Config) -> Seq<char> {
    match config {
        Config::Debug => "debug"@,
        Config::Release => "release"@,
    }
}

/// Where the files built for `target` are: under `target` in the root, in
/// the directory of the triple, in that of the configuration.
pub open spec fn target_path_of(root: Seq<char>, target: Seq<char>, config: Config) -> Seq<char> {
    joined(joined(joined(root, "target"@), target), config_name(config))
}

impl<P: Package> Context<P> {
    /// The directory that holds the files built for `target`.
    pub fn get_target_path(&self, target: &str) -> (r: String)
        ensures
            r@ == target_path_of(self.root@, target@, self.config),
    {
        let config_path_name = match self.config {
            Config::Debug => "debug",
            Config::Release => "release",
        };
        let top = join(self.root.as_str(), "target");
        let of_target = join(top.as_str(), target);
        join(of_target.as_str(), config_path_name)
    }
}

impl<P: Package> crate::finder::Context for Context<P> {
    open spec fn target_path(&self, target: Seq<char>) -> Seq<char> {
        target_path_of(self.root@, target, self.config)
    }

    open spec fn outputs(&self) -> Seq<OutputModel> {
        self.package.declared()
    }

    fn get_target_path(&self, target: &str) -> (r: String) {
        Context::get_target_path(self, target)
    }

    fn get_outputs(&self) -> (r: Vec<Output>) {
        self.package.get_outputs()
    }
}

/// One phase of a packaging run.
#[derive(Debug, PartialEq, Eq)]
pub enum Phase {
    /// Build one target.
    BuildTarget(String),
    /// What follows the builds of all targets.
    Build,
    /// Package one target.
    PackageTarget(String),
    /// Put the packages of all targets together.
    Package,
}

/// What a `Phase` stands for in contracts.
pub enum PhaseModel {
    BuildTarget(Seq<char>),
    Build,
    PackageTarget(Seq<char>),
    Package,
}

impl View for Phase {
    type V = PhaseModel;

    open spec fn view(&self) -> PhaseModel {
        match self {
            Phase::BuildTarget(t) => PhaseModel::BuildTarget(t@),
            Phase::Build => PhaseModel::Build,
            Phase::PackageTarget(t) => PhaseModel::PackageTarget(t@),
            Phase::Package => PhaseModel::Package,
        }
    }
}

/// The models of a sequence of phases, in the same order.
pub open spec fn phase_models(phases: Seq<Phase>) -> Seq<PhaseModel> {
    phases.map_values(|p: Phase| p@)
}

/// The phases of a run over `targets`: every target is built, in order;
/// then comes what follows the builds; then every target is packaged, in
/// order; then the packages are put together.
pub open spec fn phases_of(targets: Seq<Seq<char>>) -> Seq<PhaseModel> {
    Seq::new(targets.len(), |i: int| PhaseModel::BuildTarget(targets[i])).push(PhaseModel::Build)
        + Seq::new(targets.len(), |i: int| PhaseModel::PackageTarget(targets[i])).push(
        PhaseModel::Package,
    )
}

/// What the user is told when a phase fails.
pub open spec fn phase_failure_of(phase: PhaseModel) -> Seq<char> {
    match phase {
        PhaseModel::BuildTarget(_) => "Failed to build target"@,
        PhaseModel::Build => "Failed to run post-build phase"@,
        PhaseModel::PackageTarget(_) => "Failed to package target"@,
        PhaseModel::Package => "Failed to generate full package"@,
    }
}

impl Phase {
    /// What the user is told when this phase fails.
    pub fn failure_message(&self) -> (r: &'static str)
        ensures
            r@ == phase_failure_of(self@),
    {
        match self {
            Phase::BuildTarget(_) => "Failed to build target",
            Phase::Build => "Failed to run post-build phase",
            Phase::PackageTarget(_) => "Failed to package target",
            Phase::Package => "Failed to generate full package",
        }
    }
}

/// The phases of a packaging run over `targets`, in the order they are
/// carried out.
pub fn phases(targets: &Vec<String>) -> (r: Vec<Phase>)
    ensures
        phase_models(r@) == phases_of(texts(targets@)),
{
    let ghost all = texts(targets@);
    let ghost builds = Seq::new(all.len(), |i: int| PhaseModel::BuildTarget(all[i]));
    let ghost packages = Seq::new(all.len(), |i: int| PhaseModel::PackageTarget(all[i]));
    let mut r: Vec<Phase> = Vec::new();
    let mut i: usize = 0;
    assert(phase_models(r@) =~= builds.take(0));
    while i < targets.len()
        invariant
            i <= targets.len(),
            all == texts(targets@),
            builds == Seq::new(all.len(), |i: int| PhaseModel::BuildTarget(all[i])),
            phase_models(r@) == builds.take(i as int),
        decreases targets.len() - i,
    {
        let p = Phase::BuildTarget(targets[i].clone());
        assert(phase_models(r@.push(p)) =~= phase_models(r@).push(p@));
        assert(builds.take(i as int).push(p@) =~= builds.take(i + 1));
        r.push(p);
        i += 1;
    }
    assert(builds.take(i as int) =~= builds);
    assert(phase_models(r@.push(Phase::Build)) =~= phase_models(r@).push(PhaseModel::Build));
    r.push(Phase::Build);
    let ghost head = builds.push(PhaseModel::Build);
    let mut j: usize = 0;
    assert(phase_models(r@) =~= head + packages.take(0));
    while j < targets.len()
        invariant
            j <= targets.len(),
            all == texts(targets@),
            packages == Seq::new(all.len(), |i: int| PhaseModel::PackageTarget(all[i])),
            phase_models(r@) == head + packages.take(j as int),
        decreases targets.len() - j,
    {
        let p = Phase::PackageTarget(targets[j].clone());
        assert(phase_models(r@.push(p)) =~= phase_models(r@).push(p@));
        assert((head + packages.take(j as int)).push(p@) =~= head + packages.take(j + 1));
        r.push(p);
        j += 1;
    }
    assert(packages.take(j as int) =~= packages);
    assert(phase_models(r@.push(Phase::Package)) =~= phase_models(r@).push(PhaseModel::Package));
    r.push(Phase::Package);
    assert(phase_models(r@) =~= phases_of(all));
    r
}

/// The command that builds one target of the package in `root`: `cargo
/// build --target` and the triple, run in the root.
pub fn build_target_command(target: &str, root: &str) -> (r: CommandInfo)
    ensures
        r@ == (CommandModel {
            exe: "cargo"@,
            args: Some(seq!["build"@, "--target"@, target@]),
            env: None,
            working_directory: Some(root@),
        }),
{
    let mut args: Vec<String> = Vec::new();
    args.push("build".to_owned());
    args.push("--target".to_owned());
    args.push(target.to_owned());
    assert(texts(args@) =~= seq!["build"@, "--target"@, target@]);
    CommandInfo {
        exe: "cargo".to_owned(),
        args: Some(args),
        env: None,
        working_directory: Some(root.to_owned()),
    }
}

} // verus!
