//! The backend for packages built by cargo: which manifests it loads, the
//! build command it runs, and the outputs it reports.

use vstd::prelude::*;
use vstd::string::*;
use vstd::multiset::Multiset;
use crate::builder::interface::{target_dir, Context, Module};
use crate::lua::lib_command::{CommandInfo, CommandModel};
use crate::manifest::PackageManifest;
use crate::output::{lemma_texts_push, models, texts, OutputKind, OutputList, OutputModel};
use crate::path::{join, joined};
use crate::text::prefixed_with;

verus! {

/// The cargo backend, configured: the manifests of the module's packages.
pub struct Cargo {
    manifests: Vec<PackageManifest>,
}

/// The manifest of the package in `dir`.
pub open spec fn manifest_path_of(dir: Seq<char>) -> Seq<char> {
    joined(dir, "Cargo.toml"@)
}

/// The manifests of the workspace members, in the order they are declared.
pub open spec fn member_manifest_paths_of(dir: Seq<char>, members: Seq<Seq<char>>) -> Seq<
    Seq<char>,
> {
    Seq::new(members.len(), |i: int| manifest_path_of(joined(dir, members[i])))
}

/// The outputs of all of `manifests`, one manifest after the other.
pub open spec fn all_outputs(manifests: Seq<PackageManifest>) -> Seq<OutputModel>
    decreases manifests.len(),
{
    if manifests.len() == 0 {
        Seq::empty()
    } else {
        all_outputs(manifests.drop_last()) + manifests.last().outputs()
    }
}

/// The arguments of the build command: `build`, then `--release` in a
/// release run, then `--all-features` or else `--features` and the features
/// where there are any, then `--target` and the triple where one was asked
/// for.
pub open spec fn build_args(
    release: bool,
    all_features: bool,
    features: Seq<Seq<char>>,
    target: Option<Seq<char>>,
) -> Seq<Seq<char>> {
    seq!["build"@] + (if release {
        seq!["--release"@]
    } else {
        seq![]
    }) + (if all_features {
        seq!["--all-features"@]
    } else if features.len() > 0 {
        seq!["--features"@] + features
    } else {
        seq![]
    }) + (match target {
        Some(t) => seq!["--target"@, t],
        None => seq![],
    })
}

/// Adds to `outputs` what `manifest` declares: the module's build directory
/// as a place to search, then the package's executables and its library.
pub fn list_outputs(
    manifest: &PackageManifest,
    context: &Context,
    module: &Module,
    outputs: &mut OutputList,
)
    ensures
        final(outputs).target_paths() == old(outputs).target_paths().push(
            target_dir(module.path@, context.target_text(), context.release),
        ),
        final(outputs).outputs() == old(outputs).outputs() + manifest.outputs(),
{
    let base_path = context.target_dir_under(module.path.as_str());
    outputs.add_target_path(base_path);
    let ghost before = outputs.outputs();
    let declared = manifest.get_outputs();
    let ghost all = models(declared@);
    let mut i: usize = 0;
    assert(outputs.outputs() =~= before + all.take(0));
    while i < declared.len()
        invariant
            i <= declared.len(),
            all == models(declared@),
            outputs.outputs() == before + all.take(i as int),
            outputs.target_paths() == old(outputs).target_paths().push(
                target_dir(module.path@, context.target_text(), context.release),
            ),
        decreases declared.len() - i,
    {
        assert((before + all.take(i as int)).push(all[i as int]) =~= before + all.take(i + 1));
        let name = declared[i].name().to_owned();
        match declared[i].kind() {
            OutputKind::Bin => outputs.add_bin(name),
            OutputKind::Lib => outputs.add_lib(name),
            OutputKind::Config => outputs.add_config(name),
            OutputKind::Other => outputs.add_other(name),
        }
        i += 1;
    }
    assert(all.take(i as int) =~= all);
}

impl Cargo {
    /// The loaded manifests: the workspace members first, the module's own
    /// manifest last.
    pub closed spec fn manifests(&self) -> Seq<PackageManifest> {
        self.manifests@
    }

    /// The manifest of the package in `dir`.
    pub fn manifest_path(dir: &str) -> (r: String)
        ensures
            r@ == manifest_path_of(dir@),
    {
        join(dir, "Cargo.toml")
    }

    /// The manifests to load besides the module's own: one per member of the
    /// workspace that `root` declares, in order. None where it declares no
    /// workspace.
    pub fn member_manifest_paths(module: &Module, root: &PackageManifest) -> (r: Vec<String>)
        ensures
            texts(r@) == member_manifest_paths_of(module.path@, root.members()),
    {
        let mut r: Vec<String> = Vec::new();
        match root.workspace_members() {
            None => {
                assert(texts(r@) =~= member_manifest_paths_of(module.path@, root.members()));
            },
            Some(members) => {
                let ghost all = member_manifest_paths_of(module.path@, texts(members@));
                let mut i: usize = 0;
                assert(texts(r@) =~= all.take(0));
                while i < members.len()
                    invariant
                        i <= members.len(),
                        all == member_manifest_paths_of(module.path@, texts(members@)),
                        texts(r@) == all.take(i as int),
                    decreases members.len() - i,
                {
                    let dir = join(module.path.as_str(), members[i].as_str());
                    let p = Self::manifest_path(dir.as_str());
                    proof {
                        lemma_texts_push(r@, p);
                        assert(all.take(i as int).push(p@) =~= all.take(i + 1));
                    }
                    r.push(p);
                    i += 1;
                }
                assert(all.take(i as int) =~= all);
            },
        }
        r
    }

    /// The backend configured from the module's own manifest and those of
    /// the workspace members.
    pub fn new(root: PackageManifest, members: Vec<PackageManifest>) -> (r: Self)
        ensures
            r.manifests() == members@.push(root),
    {
        let mut manifests = members;
        manifests.push(root);
        Cargo { manifests }
    }

    /// The build command for the module: `cargo` with `build_args`, run in
    /// the module's directory.
    pub fn build_command(&self, context: &Context, module: &Module) -> (r: CommandInfo)
        ensures
            r@ == (CommandModel {
                exe: "cargo"@,
                args: Some(
                    build_args(
                        context.release,
                        context.all_features,
                        context.feature_texts(),
                        context.target_text(),
                    ),
                ),
                env: None,
                working_directory: Some(module.path@),
            }),
    {
        let mut args: Vec<String> = Vec::new();
        args.push("build".to_owned());
        if context.release {
            args.push("--release".to_owned());
        }
        let ghost first = seq!["build"@] + (if context.release {
            seq!["--release"@]
        } else {
            seq![]
        });
        assert(texts(args@) =~= first);
        if context.all_features {
            args.push("--all-features".to_owned());
        } else if context.features.len() > 0 {
            args.push("--features".to_owned());
            let ghost head = texts(args@);
            let mut i: usize = 0;
            assert(texts(args@) =~= head + context.feature_texts().take(0));
            while i < context.features.len()
                invariant
                    i <= context.features.len(),
                    texts(args@) == head + context.feature_texts().take(i as int),
                decreases context.features.len() - i,
            {
                let f = context.features[i].clone();
                proof {
                    lemma_texts_push(args@, f);
                    assert((head + context.feature_texts().take(i as int)).push(f@) =~= head
                        + context.feature_texts().take(i + 1));
                }
                args.push(f);
                i += 1;
            }
            assert(context.feature_texts().take(i as int) =~= context.feature_texts());
            assert(head =~= first + seq!["--features"@]);
        }
        let ghost second = first + (if context.all_features {
            seq!["--all-features"@]
        } else if context.feature_texts().len() > 0 {
            seq!["--features"@] + context.feature_texts()
        } else {
            seq![]
        });
        assert(texts(args@) =~= second);
        match &context.target {
            Some(t) => {
                args.push("--target".to_owned());
                args.push(t.clone());
            },
            None => {},
        }
        assert(texts(args@) =~= build_args(
            context.release,
            context.all_features,
            context.feature_texts(),
            context.target_text(),
        ));
        CommandInfo {
            exe: "cargo".to_owned(),
            args: Some(args),
            env: None,
            working_directory: Some(module.path.clone()),
        }
    }

    /// What the module produced: the outputs of every loaded manifest, in
    /// the order the manifests were loaded, and the module's build directory
    /// once per manifest.
    pub fn list_outputs(&self, context: &Context, module: &Module) -> (r: OutputList)
        ensures
            r.outputs() == all_outputs(self.manifests()),
            r.target_paths() == Seq::new(
                self.manifests().len(),
                |i: int| target_dir(module.path@, context.target_text(), context.release),
            ),
    {
        let mut outputs = OutputList::new();
        let mut i: usize = 0;
        let ghost dir = target_dir(module.path@, context.target_text(), context.release);
        assert(outputs.target_paths() =~= Seq::new(0, |k: int| dir));
        assert(self.manifests@.take(0) =~= Seq::<PackageManifest>::empty());
        while i < self.manifests.len()
            invariant
                i <= self.manifests.len(),
                dir == target_dir(module.path@, context.target_text(), context.release),
                outputs.outputs() == all_outputs(self.manifests@.take(i as int)),
                outputs.target_paths() == Seq::new(i as nat, |k: int| dir),
            decreases self.manifests.len() - i,
        {
            assert(self.manifests@.take(i + 1).drop_last() =~= self.manifests@.take(i as int));
            list_outputs(&self.manifests[i], context, module, &mut outputs);
            assert(outputs.target_paths() =~= Seq::new((i + 1) as nat, |k: int| dir));
            i += 1;
        }
        assert(self.manifests@.take(i as int) =~= self.manifests@);
        outputs
    }
}

/// The outputs of two groups of manifests are those of the first group
/// followed by those of the second.
pub proof fn lemma_all_outputs_add(a: Seq<PackageManifest>, b: Seq<PackageManifest>)
    ensures
        all_outputs(a + b) == all_outputs(a) + all_outputs(b),
    decreases b.len(),
{
    if b.len() == 0 {
        assert(a + b =~= a);
        assert(all_outputs(a) + all_outputs(b) =~= all_outputs(a));
    } else {
        assert((a + b).drop_last() =~= a + b.drop_last());
        assert((a + b).last() == b.last());
        lemma_all_outputs_add(a, b.drop_last());
        assert(all_outputs(a + b) =~= all_outputs(a) + all_outputs(b));
    }
}

/// Which outputs are reported does not depend on the order in which the
/// manifests are processed: two orders of the same manifests report the same
/// outputs, each as often.
pub proof fn lemma_outputs_ignore_manifest_order(a: Seq<PackageManifest>, b: Seq<PackageManifest>)
    requires
        a.to_multiset() == b.to_multiset(),
    ensures
        all_outputs(a).to_multiset() == all_outputs(b).to_multiset(),
    decreases a.len(),
{
    broadcast use vstd::seq_lib::group_to_multiset_ensures;

    a.to_multiset_ensures();
    b.to_multiset_ensures();
    if a.len() == 0 {
        assert(b.len() == 0);
        assert(a =~= b);
    } else {
        let m = a.last();
        let rest = a.drop_last();
        assert(a =~= rest.push(m));
        rest.to_multiset_ensures();
        assert(b.to_multiset().count(m) > 0);
        assert(b.contains(m));
        let k = choose|k: int| 0 <= k < b.len() && b[k] == m;
        let others = b.remove(k);
        others.to_multiset_ensures();
        assert(rest.to_multiset() =~= a.to_multiset().remove(m));
        assert(others.to_multiset() =~= rest.to_multiset());
        lemma_outputs_ignore_manifest_order(rest, others);
        let front = b.take(k);
        let back = b.skip(k + 1);
        assert(b =~= front + seq![m] + back);
        assert(others =~= front + back);
        lemma_all_outputs_add(front + seq![m], back);
        lemma_all_outputs_add(front, seq![m]);
        lemma_all_outputs_add(front, back);
        assert(seq![m].drop_last() =~= Seq::<PackageManifest>::empty());
        assert(seq![m].last() == m);
        assert(all_outputs(Seq::<PackageManifest>::empty()) =~= Seq::<OutputModel>::empty());
        assert(all_outputs(seq![m]) =~= m.outputs());
        let f = all_outputs(front);
        let g = all_outputs(back);
        let h = m.outputs();
        vstd::seq_lib::lemma_multiset_commutative(f + h, g);
        vstd::seq_lib::lemma_multiset_commutative(f, h);
        vstd::seq_lib::lemma_multiset_commutative(f, g);
        vstd::seq_lib::lemma_multiset_commutative(f + g, h);
        vstd::seq_lib::lemma_multiset_commutative(all_outputs(rest), h);
        assert(all_outputs(b).to_multiset() =~= all_outputs(others).to_multiset().add(
            h.to_multiset(),
        ));
        assert(all_outputs(a) =~= all_outputs(rest) + h);
    }
}

/// Why the cargo backend failed. Each variant carries the cause in words.
#[derive(Debug, PartialEq, Eq)]
pub enum Error {
    /// The build command could not be run.
    Io(String),
    /// A manifest could not be loaded.
    Cargo(String),
    /// The build command ran and reported failure.
    Build,
}

/// The error in words.
pub open spec fn message_of(e: Error) -> Seq<char> {
    match e {
        Error::Io(cause) => "io error: "@ + cause@,
        Error::Cargo(cause) => "cargo manifest error: "@ + cause@,
        Error::Build => "cargo build failed"@,
    }
}

/// What the exit of the build command means: the module is compiled only
/// if the command reports success; where it does not, the build has failed.
pub open spec fn compiled(succeeded: bool) -> Result<(), Error> {
    if succeeded {
        Ok(())
    } else {
        Err(Error::Build)
    }
}

/// What the exit of the build command means for the compile step.
pub fn compile_result(succeeded: bool) -> (r: Result<(), Error>)
    ensures
        r == compiled(succeeded),
        r is Ok <==> succeeded,
{
    if succeeded {
        Ok(())
    } else {
        Err(Error::Build)
    }
}

impl Error {
    /// The error in words.
    pub fn message(&self) -> (r: String)
        ensures
            r@ == message_of(*self),
    {
        match self {
            Error::Io(cause) => prefixed_with("io error: ", cause.as_str()),
            Error::Cargo(cause) => prefixed_with("cargo manifest error: ", cause.as_str()),
            Error::Build => "cargo build failed".to_owned(),
        }
    }
}

} // verus!
