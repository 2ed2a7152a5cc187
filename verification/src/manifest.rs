//! What the build reads of a package manifest: the package's name and
//! version, its declared executables and library, and the members of the
//! workspace it may declare.

use vstd::prelude::*;
use vstd::string::*;
use crate::output::{lemma_models_push, models, texts, Output, OutputKind, OutputModel};

verus! {

/// The `[package]` table.
pub struct PackageInfo {
    pub name: String,
    /// Absent where the version is inherited from a workspace that was not
    /// loaded.
    pub version: Option<String>,
}

/// One build target of a package: an executable or the library.
pub struct Product {
    /// The name the manifest gives the target, if it gives one.
    pub name: Option<String>,
}

/// A package manifest, once loaded. Every target in it has a name to go by:
/// its own, or else the package's.
pub struct PackageManifest {
    package: Option<PackageInfo>,
    bin: Vec<Product>,
    lib: Option<Product>,
    workspace: Option<Vec<String>>,
}

/// The name of a target: its own, or else the package's.
pub open spec fn product_name(p: Product, package_name: Seq<char>) -> Seq<char> {
    match p.name {
        Some(n) => n@,
        None => package_name,
    }
}

/// One executable per declared executable, in order.
pub open spec fn bin_outputs(bins: Seq<Product>, package_name: Seq<char>) -> Seq<OutputModel> {
    Seq::new(
        bins.len(),
        |i: int| OutputModel { kind: OutputKind::Bin, name: product_name(bins[i], package_name) },
    )
}

/// One library where one is declared.
pub open spec fn lib_outputs(lib: Option<Product>, package_name: Seq<char>) -> Seq<OutputModel> {
    match lib {
        Some(p) => seq![OutputModel { kind: OutputKind::Lib, name: product_name(p, package_name) }],
        None => seq![],
    }
}

/// Whether every target has a name to go by: without a package, each
/// target names itself.
pub open spec fn targets_named(package: Option<PackageInfo>, bin: Seq<Product>, lib: Option<Product>)
    -> bool {
    package is None ==> {
        &&& forall|i: int| 0 <= i < bin.len() ==> (#[trigger] bin[i]).name is Some
        &&& lib matches Some(p) ==> p.name is Some
    }
}

impl PackageManifest {
    #[verifier::type_invariant]
    spec fn targets_have_names(&self) -> bool {
        targets_named(self.package, self.bin@, self.lib)
    }

    /// The `[package]` table; absent in a manifest that only declares a
    /// workspace.
    pub closed spec fn package(&self) -> Option<PackageInfo> {
        self.package
    }

    /// The declared executables, in order.
    pub closed spec fn bins(&self) -> Seq<Product> {
        self.bin@
    }

    /// The declared library.
    pub closed spec fn library(&self) -> Option<Product> {
        self.lib
    }

    /// The members of the declared workspace; none where none is declared.
    pub closed spec fn members(&self) -> Seq<Seq<char>> {
        match self.workspace {
            Some(m) => texts(m@),
            None => Seq::empty(),
        }
    }

    /// The package's name; empty where there is no package.
    pub open spec fn package_name(&self) -> Seq<char> {
        match self.package() {
            Some(p) => p.name@,
            None => Seq::empty(),
        }
    }

    /// What the package produces: its executables, then its library.
    pub open spec fn outputs(&self) -> Seq<OutputModel> {
        bin_outputs(self.bins(), self.package_name()) + lib_outputs(
            self.library(),
            self.package_name(),
        )
    }

    /// The manifest with these tables, unless a target would be left
    /// without a name: one that gives none in a manifest without a package.
    pub fn new(
        package: Option<PackageInfo>,
        bin: Vec<Product>,
        lib: Option<Product>,
        workspace: Option<Vec<String>>,
    ) -> (r: Option<Self>)
        ensures
            r is Some <==> targets_named(package, bin@, lib),
            r matches Some(m) ==> m.package() == package && m.bins() == bin@ && m.library() == lib
                && m.members() == (match workspace {
                Some(w) => texts(w@),
                None => Seq::empty(),
            }),
    {
        if package.is_none() {
            let mut i: usize = 0;
            while i < bin.len()
                invariant
                    i <= bin.len(),
                    package is None,
                    forall|k: int| 0 <= k < i ==> (#[trigger] bin@[k]).name is Some,
                decreases bin.len() - i,
            {
                if bin[i].name.is_none() {
                    assert(bin@[i as int].name is None);
                    return None;
                }
                i += 1;
            }
            match &lib {
                Some(p) => {
                    if p.name.is_none() {
                        return None;
                    }
                },
                None => {},
            }
        }
        Some(PackageManifest { package, bin, lib, workspace })
    }

    /// Whether the manifest has a `[package]` table.
    pub fn has_package(&self) -> (r: bool)
        ensures
            r == self.package() is Some,
    {
        self.package.is_some()
    }

    /// The name of the package.
    pub fn get_name(&self) -> (r: &str)
        requires
            self.package() is Some,
        ensures
            r@ == self.package_name(),
    {
        match &self.package {
            Some(p) => p.name.as_str(),
            None => "",
        }
    }

    /// Whether the manifest tells the version of the package.
    pub open spec fn versioned(&self) -> bool {
        self.package() matches Some(p) && p.version is Some
    }

    /// Whether the manifest tells the version of the package.
    pub fn has_version(&self) -> (r: bool)
        ensures
            r == self.versioned(),
    {
        match &self.package {
            Some(p) => p.version.is_some(),
            None => false,
        }
    }

    /// The version of the package.
    pub fn get_version(&self) -> (r: &str)
        requires
            self.versioned(),
        ensures
            r@ == self.package()->0.version->0@,
    {
        match &self.package {
            Some(p) => match &p.version {
                Some(v) => v.as_str(),
                None => "",
            },
            None => "",
        }
    }

    /// The members of the declared workspace, in order; `None` where the
    /// manifest declares no workspace.
    pub fn workspace_members(&self) -> (r: Option<&Vec<String>>)
        ensures
            match r {
                Some(m) => texts(m@) == self.members(),
                None => self.members() == Seq::<Seq<char>>::empty(),
            },
    {
        match &self.workspace {
            Some(m) => Some(m),
            None => None,
        }
    }

    fn name_of(&self, product: &Product) -> (r: String)
        requires
            product.name is None ==> self.package() is Some,
        ensures
            r@ == product_name(*product, self.package_name()),
    {
        match &product.name {
            Some(n) => n.clone(),
            None => self.get_name().to_owned(),
        }
    }

    /// What the package produces: one executable per declared executable,
    /// then the library where one is declared. A target without a name of
    /// its own goes by the package's.
    pub fn get_outputs(&self) -> (r: Vec<Output>)
        ensures
            models(r@) == self.outputs(),
    {
        proof {
            use_type_invariant(self);
        }
        let mut r: Vec<Output> = Vec::new();
        let mut i: usize = 0;
        assert(models(r@) =~= bin_outputs(self.bin@.take(0), self.package_name()));
        while i < self.bin.len()
            invariant
                i <= self.bin.len(),
                targets_named(self.package, self.bin@, self.lib),
                models(r@) == bin_outputs(self.bin@.take(i as int), self.package_name()),
            decreases self.bin.len() - i,
        {
            assert(self.bin@[i as int].name is None ==> self.package is Some);
            let o = Output::Bin(self.name_of(&self.bin[i]));
            proof {
                lemma_models_push(r@, o);
                assert(bin_outputs(self.bin@.take(i as int), self.package_name()).push(o@)
                    =~= bin_outputs(self.bin@.take(i + 1), self.package_name()));
            }
            r.push(o);
            i += 1;
        }
        assert(self.bin@.take(i as int) =~= self.bin@);
        match &self.lib {
            Some(p) => {
                let o = Output::Lib(self.name_of(p));
                proof {
                    lemma_models_push(r@, o);
                }
                r.push(o);
                assert(models(r@) =~= self.outputs());
            },
            None => {
                assert(models(r@) =~= self.outputs());
            },
        }
        r
    }
}

} // verus!
