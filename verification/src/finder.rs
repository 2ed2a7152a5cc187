//! Resolution of declared outputs to files on disk.
//!
//! Every platform and linkage has an ordered chain of candidate file names;
//! the first candidate that is present under the target directory wins. What
//! is present is handed in as a `Listing`, so resolution itself never touches
//! the file system.

use vstd::prelude::*;
use vstd::string::*;
use crate::output::{
    lemma_models_push, lemma_texts_push, models, texts, Output, OutputKind, OutputModel,
    PathOutputList,
};
use crate::path::{join, joined};
use crate::text::{affixed, prefixed_with, same_text};

verus! {

/// The two families of file naming conventions.
#[derive(Clone, Copy, Debug, PartialEq, Eq, Structural)]
pub enum Platform {
    Posix,
    Windows,
}

/// The linkage wanted of a library.
#[derive(Clone, Copy, Debug, PartialEq, Eq, Structural)]
pub enum LibType {
    Dynamic,
    Static,
}

/// The files found for one output. An absent field means that no candidate
/// was present; it is not an error.
#[derive(Debug, PartialEq, Eq)]
pub struct FinderResult {
    pub path: Option<String>,
    pub debug_info: Option<String>,
    pub exports: Option<String>,
}

/// What a `FinderResult` stands for in contracts.
pub struct FinderResultModel {
    pub path: Option<Seq<char>>,
    pub debug_info: Option<Seq<char>>,
    pub exports: Option<Seq<char>>,
}

/// The text of an optional string.
pub open spec fn text_option(o: Option<String>) -> Option<Seq<char>> {
    match o {
        Some(s) => Some(s@),
        None => None,
    }
}

impl View for FinderResult {
    type V = FinderResultModel;

    open spec fn view(&self) -> FinderResultModel {
        FinderResultModel {
            path: text_option(self.path),
            debug_info: text_option(self.debug_info),
            exports: text_option(self.exports),
        }
    }
}

/// The models of a sequence of results, in the same order.
pub open spec fn result_models(results: Seq<FinderResult>) -> Seq<FinderResultModel> {
    results.map_values(|r: FinderResult| r@)
}

/// The result in which nothing was found.
pub open spec fn nothing_found() -> FinderResultModel {
    FinderResultModel { path: None, debug_info: None, exports: None }
}

/// The names, relative to one directory, of the files known to exist in it.
pub struct Listing {
    names: Vec<String>,
}

impl View for Listing {
    type V = Set<Seq<char>>;

    closed spec fn view(&self) -> Set<Seq<char>> {
        texts(self.names@).to_set()
    }
}

impl Listing {
    /// The listing of an empty directory.
    pub fn new() -> (r: Self)
        ensures
            r@ == Set::<Seq<char>>::empty(),
    {
        let r = Listing { names: Vec::new() };
        assert(r@ =~= Set::<Seq<char>>::empty());
        r
    }

    /// Records that `name` exists.
    pub fn insert(&mut self, name: String)
        ensures
            final(self)@ == old(self)@.insert(name@),
    {
        proof {
            lemma_texts_push(self.names@, name);
            texts(self.names@).lemma_push_to_set_commute(name@);
        }
        self.names.push(name);
    }

    /// Whether `name` is known to exist.
    pub fn contains(&self, name: &str) -> (r: bool)
        ensures
            r == self@.contains(name@),
    {
        let mut i: usize = 0;
        while i < self.names.len()
            invariant
                i <= self.names.len(),
                forall|k: int| 0 <= k < i ==> texts(self.names@)[k] != name@,
            decreases self.names.len() - i,
        {
            if same_text(self.names[i].as_str(), name) {
                assert(texts(self.names@)[i as int] == name@);
                return true;
            }
            i += 1;
        }
        false
    }
}

/// `name` followed by `ext`.
pub open spec fn plain(name: Seq<char>, ext: Seq<char>) -> Seq<char> {
    name + ext
}

/// `name` between the prefix `lib` and `ext`.
pub open spec fn prefixed(name: Seq<char>, ext: Seq<char>) -> Seq<char> {
    "lib"@ + name + ext
}

/// The file names tried, in order, for the artifact itself.
pub open spec fn path_candidates(platform: Platform, lib_type: LibType, o: OutputModel) -> Seq<
    Seq<char>,
> {
    match o.kind {
        OutputKind::Bin => match platform {
            Platform::Posix => seq![o.name],
            Platform::Windows => seq![plain(o.name, ".exe"@)],
        },
        OutputKind::Lib => match (platform, lib_type) {
            (Platform::Posix, LibType::Dynamic) => seq![
                prefixed(o.name, ".dylib"@),
                prefixed(o.name, ".so"@),
                plain(o.name, ".dylib"@),
                plain(o.name, ".so"@),
            ],
            (Platform::Windows, LibType::Dynamic) => seq![
                plain(o.name, ".dll"@),
                prefixed(o.name, ".dll"@),
            ],
            (Platform::Posix, LibType::Static) => seq![
                prefixed(o.name, ".a"@),
                plain(o.name, ".a"@),
            ],
            (Platform::Windows, LibType::Static) => seq![
                plain(o.name, ".lib"@),
                prefixed(o.name, ".lib"@),
            ],
        },
        OutputKind::Config => seq![o.name],
        OutputKind::Other => seq![o.name],
    }
}

/// The file names tried, in order, for the artifact's debug information.
pub open spec fn debug_info_candidates(platform: Platform, o: OutputModel) -> Seq<Seq<char>> {
    match o.kind {
        OutputKind::Bin => match platform {
            Platform::Posix => seq![plain(o.name, ".d"@)],
            Platform::Windows => seq![plain(o.name, ".pdb"@)],
        },
        OutputKind::Lib => match platform {
            Platform::Posix => seq![prefixed(o.name, ".d"@), plain(o.name, ".d"@)],
            Platform::Windows => seq![plain(o.name, ".pdb"@), prefixed(o.name, ".pdb"@)],
        },
        OutputKind::Config => seq![],
        OutputKind::Other => seq![],
    }
}

/// The file names tried, in order, for the import library that goes with a
/// dynamic library on Windows. Nothing else has one.
pub open spec fn exports_candidates(platform: Platform, lib_type: LibType, o: OutputModel) -> Seq<
    Seq<char>,
> {
    if o.kind == OutputKind::Lib && platform == Platform::Windows && lib_type == LibType::Dynamic {
        seq![
            plain(o.name, ".dll.lib"@),
            prefixed(o.name, ".dll.lib"@),
            plain(o.name, ".lib"@),
            prefixed(o.name, ".lib"@),
        ]
    } else {
        seq![]
    }
}

/// Every file name that resolving `o` may look at, under either linkage.
pub open spec fn all_candidates(platform: Platform, o: OutputModel) -> Seq<Seq<char>> {
    path_candidates(platform, LibType::Static, o) + path_candidates(platform, LibType::Dynamic, o)
        + debug_info_candidates(platform, o) + exports_candidates(platform, LibType::Dynamic, o)
}

/// The first of `candidates` that is present, if any is.
pub open spec fn first_present(candidates: Seq<Seq<char>>, present: Set<Seq<char>>) -> Option<
    Seq<char>,
>
    decreases candidates.len(),
{
    if candidates.len() == 0 {
        None
    } else if present.contains(candidates[0]) {
        Some(candidates[0])
    } else {
        first_present(candidates.drop_first(), present)
    }
}

/// The path of `name` under `dir`, if `name` is present there.
pub open spec fn located(dir: Seq<char>, present: Set<Seq<char>>, name: Seq<char>) -> Option<
    Seq<char>,
> {
    if present.contains(name) {
        Some(joined(dir, name))
    } else {
        None
    }
}

/// The path under `dir` of the first of `candidates` that is present.
pub open spec fn found(dir: Seq<char>, present: Set<Seq<char>>, candidates: Seq<Seq<char>>)
    -> Option<Seq<char>> {
    match first_present(candidates, present) {
        Some(name) => Some(joined(dir, name)),
        None => None,
    }
}

/// What resolving `o` under `dir` yields when exactly `present` exists there.
pub open spec fn resolved(
    platform: Platform,
    lib_type: LibType,
    o: OutputModel,
    dir: Seq<char>,
    present: Set<Seq<char>>,
) -> FinderResultModel {
    FinderResultModel {
        path: found(dir, present, path_candidates(platform, lib_type, o)),
        debug_info: found(dir, present, debug_info_candidates(platform, o)),
        exports: found(dir, present, exports_candidates(platform, lib_type, o)),
    }
}

/// `one` alone where its artifact was found, nothing where it was not.
pub open spec fn kept(one: FinderResultModel) -> Seq<FinderResultModel> {
    if one.path is Some {
        seq![one]
    } else {
        seq![]
    }
}

/// Every variant of `o` that exists: for a library the static one and then
/// the dynamic one, for anything else the one there is.
pub open spec fn resolved_all(
    platform: Platform,
    o: OutputModel,
    dir: Seq<char>,
    present: Set<Seq<char>>,
) -> Seq<FinderResultModel> {
    if o.kind == OutputKind::Lib {
        kept(resolved(platform, LibType::Static, o, dir, present)) + kept(
            resolved(platform, LibType::Dynamic, o, dir, present),
        )
    } else {
        kept(resolved(platform, LibType::Dynamic, o, dir, present))
    }
}

/// `first_present` returns the earliest candidate that is present, and
/// nothing exactly when none is.
pub proof fn lemma_first_present(candidates: Seq<Seq<char>>, present: Set<Seq<char>>)
    ensures
        match first_present(candidates, present) {
            Some(name) => exists|i: int|
                0 <= i < candidates.len() && #[trigger] candidates[i] == name && present.contains(
                    name,
                ) && forall|j: int| 0 <= j < i ==> !present.contains(#[trigger] candidates[j]),
            None => forall|j: int|
                0 <= j < candidates.len() ==> !present.contains(#[trigger] candidates[j]),
        },
    decreases candidates.len(),
{
    if candidates.len() > 0 && !present.contains(candidates[0]) {
        let rest = candidates.drop_first();
        lemma_first_present(rest, present);
        match first_present(rest, present) {
            Some(name) => {
                let i = choose|i: int|
                    0 <= i < rest.len() && #[trigger] rest[i] == name && present.contains(name)
                        && forall|j: int| 0 <= j < i ==> !present.contains(#[trigger] rest[j]);
                assert(candidates[i + 1] == name);
                assert forall|j: int| 0 <= j < i + 1 implies !present.contains(
                    #[trigger] candidates[j],
                ) by {
                    if j > 0 {
                        assert(candidates[j] == rest[j - 1]);
                    }
                }
            },
            None => {
                assert forall|j: int| 0 <= j < candidates.len() implies !present.contains(
                    #[trigger] candidates[j],
                ) by {
                    if j > 0 {
                        assert(candidates[j] == rest[j - 1]);
                    }
                }
            },
        }
    } else if candidates.len() > 0 {
        assert(candidates[0] == candidates[0]);
    }
}

/// Two listings that agree on every candidate give the same first match.
pub proof fn lemma_first_present_agrees(
    candidates: Seq<Seq<char>>,
    a: Set<Seq<char>>,
    b: Set<Seq<char>>,
)
    requires
        forall|i: int|
            0 <= i < candidates.len() ==> a.contains(#[trigger] candidates[i]) == b.contains(
                candidates[i],
            ),
    ensures
        first_present(candidates, a) == first_present(candidates, b),
    decreases candidates.len(),
{
    if candidates.len() > 0 {
        assert(a.contains(candidates[0]) == b.contains(candidates[0]));
        let rest = candidates.drop_first();
        assert forall|i: int| 0 <= i < rest.len() implies a.contains(#[trigger] rest[i])
            == b.contains(rest[i]) by {
            assert(rest[i] == candidates[i + 1]);
        }
        lemma_first_present_agrees(rest, a, b);
    }
}

fn plain_name(name: &str, ext: &str) -> (r: String)
    ensures
        r@ == plain(name@, ext@),
{
    prefixed_with(name, ext)
}

fn prefixed_name(name: &str, ext: &str) -> (r: String)
    ensures
        r@ == prefixed(name@, ext@),
{
    affixed("lib", name, ext)
}

fn one(a: String) -> (r: Vec<String>)
    ensures
        texts(r@) == seq![a@],
{
    let mut v: Vec<String> = Vec::new();
    v.push(a);
    assert(texts(v@) =~= seq![a@]);
    v
}

fn two(a: String, b: String) -> (r: Vec<String>)
    ensures
        texts(r@) == seq![a@, b@],
{
    let mut v: Vec<String> = Vec::new();
    v.push(a);
    v.push(b);
    assert(texts(v@) =~= seq![a@, b@]);
    v
}

fn four(a: String, b: String, c: String, d: String) -> (r: Vec<String>)
    ensures
        texts(r@) == seq![a@, b@, c@, d@],
{
    let mut v: Vec<String> = Vec::new();
    v.push(a);
    v.push(b);
    v.push(c);
    v.push(d);
    assert(texts(v@) =~= seq![a@, b@, c@, d@]);
    v
}

fn none() -> (r: Vec<String>)
    ensures
        texts(r@) == Seq::<Seq<char>>::empty(),
{
    let v: Vec<String> = Vec::new();
    assert(texts(v@) =~= Seq::<Seq<char>>::empty());
    v
}

/// The file names to try, in order, for the artifact itself.
pub fn path_candidate_names(platform: Platform, lib_type: LibType, output: &Output) -> (r: Vec<
    String,
>)
    ensures
        texts(r@) == path_candidates(platform, lib_type, output@),
{
    let name = output.name();
    match output {
        Output::Bin(_) => match platform {
            Platform::Posix => one(name.to_owned()),
            Platform::Windows => one(plain_name(name, ".exe")),
        },
        Output::Lib(_) => match platform {
            Platform::Posix => match lib_type {
                LibType::Dynamic => four(
                    prefixed_name(name, ".dylib"),
                    prefixed_name(name, ".so"),
                    plain_name(name, ".dylib"),
                    plain_name(name, ".so"),
                ),
                LibType::Static => two(prefixed_name(name, ".a"), plain_name(name, ".a")),
            },
            Platform::Windows => match lib_type {
                LibType::Dynamic => two(plain_name(name, ".dll"), prefixed_name(name, ".dll")),
                LibType::Static => two(plain_name(name, ".lib"), prefixed_name(name, ".lib")),
            },
        },
        Output::Config(_) => one(name.to_owned()),
        Output::Other(_) => one(name.to_owned()),
    }
}

/// The file names to try, in order, for the artifact's debug information.
pub fn debug_info_candidate_names(platform: Platform, output: &Output) -> (r: Vec<String>)
    ensures
        texts(r@) == debug_info_candidates(platform, output@),
{
    let name = output.name();
    match output {
        Output::Bin(_) => match platform {
            Platform::Posix => one(plain_name(name, ".d")),
            Platform::Windows => one(plain_name(name, ".pdb")),
        },
        Output::Lib(_) => match platform {
            Platform::Posix => two(prefixed_name(name, ".d"), plain_name(name, ".d")),
            Platform::Windows => two(plain_name(name, ".pdb"), prefixed_name(name, ".pdb")),
        },
        Output::Config(_) => none(),
        Output::Other(_) => none(),
    }
}

/// The file names to try, in order, for the import library.
pub fn exports_candidate_names(platform: Platform, lib_type: LibType, output: &Output) -> (r: Vec<
    String,
>)
    ensures
        texts(r@) == exports_candidates(platform, lib_type, output@),
{
    let name = output.name();
    match (output, platform, lib_type) {
        (Output::Lib(_), Platform::Windows, LibType::Dynamic) => four(
            plain_name(name, ".dll.lib"),
            prefixed_name(name, ".dll.lib"),
            plain_name(name, ".lib"),
            prefixed_name(name, ".lib"),
        ),
        _ => none(),
    }
}

/// Every file name that resolving `output` may look at, under either
/// linkage. A listing that is right about these names resolves as the
/// directory itself would.
pub fn candidate_names(platform: Platform, output: &Output) -> (r: Vec<String>)
    ensures
        texts(r@) == all_candidates(platform, output@),
{
    let mut all = path_candidate_names(platform, LibType::Static, output);
    let mut dynamic = path_candidate_names(platform, LibType::Dynamic, output);
    let mut debug = debug_info_candidate_names(platform, output);
    let mut exports = exports_candidate_names(platform, LibType::Dynamic, output);
    proof {
        lemma_texts_add(all@, dynamic@);
        lemma_texts_add(all@ + dynamic@, debug@);
        lemma_texts_add(all@ + dynamic@ + debug@, exports@);
    }
    all.append(&mut dynamic);
    all.append(&mut debug);
    all.append(&mut exports);
    all
}

/// What the finder needs of its surroundings: where a target's files are
/// built, and which outputs are declared.
pub trait Context {
    /// The directory that holds the files built for `target`.
    spec fn target_path(&self, target: Seq<char>) -> Seq<char>;

    /// The declared outputs, in order.
    spec fn outputs(&self) -> Seq<OutputModel>;

    fn get_target_path(&self, target: &str) -> (r: String)
        ensures
            r@ == self.target_path(target@),
    ;

    fn get_outputs(&self) -> (r: Vec<Output>)
        ensures
            models(r@) == self.outputs(),
    ;
}

/// A copy of `outputs`.
pub fn clone_outputs(outputs: &Vec<Output>) -> (r: Vec<Output>)
    ensures
        models(r@) == models(outputs@),
{
    let mut r: Vec<Output> = Vec::new();
    let mut i: usize = 0;
    assert(models(r@) =~= models(outputs@).take(0));
    while i < outputs.len()
        invariant
            i <= outputs.len(),
            models(r@) == models(outputs@).take(i as int),
        decreases outputs.len() - i,
    {
        let o = outputs[i].clone();
        proof {
            lemma_models_push(r@, o);
            assert(models(outputs@).take(i as int).push(o@) =~= models(outputs@).take(i + 1));
        }
        r.push(o);
        i += 1;
    }
    assert(models(outputs@).take(i as int) =~= models(outputs@));
    r
}

/// One search directory of a module: its files are in that directory
/// whatever the target, and its outputs are the module's.
impl<'a> Context for PathOutputList<'a> {
    open spec fn target_path(&self, target: Seq<char>) -> Seq<char> {
        self.path@
    }

    open spec fn outputs(&self) -> Seq<OutputModel> {
        models(self.outputs@)
    }

    fn get_target_path(&self, target: &str) -> (r: String) {
        self.path.to_owned()
    }

    fn get_outputs(&self) -> (r: Vec<Output>) {
        clone_outputs(self.outputs)
    }
}

/// Resolves outputs for one target of one context.
pub struct Finder<'a, C: Context> {
    context: &'a C,
    target: &'a str,
    platform: Platform,
    listing: &'a Listing,
}

/// `i` is the index of the first of `outs` that `predicate` accepts, or the
/// length of `outs` where it accepts none.
pub open spec fn first_accepted<F: Fn(&Output) -> bool>(predicate: F, outs: Seq<Output>, i: int)
    -> bool {
    &&& 0 <= i <= outs.len()
    &&& forall|j: int| 0 <= j < i ==> #[trigger] call_ensures(predicate, (&outs[j],), false)
    &&& i < outs.len() ==> call_ensures(predicate, (&outs[i],), true)
}

impl<'a, C: Context> Finder<'a, C> {
    /// The directory in which this finder looks.
    pub closed spec fn directory(&self) -> Seq<char> {
        self.context.target_path(self.target@)
    }

    /// The naming conventions this finder goes by.
    pub closed spec fn platform(&self) -> Platform {
        self.platform
    }

    /// The names that exist in the directory.
    pub closed spec fn present(&self) -> Set<Seq<char>> {
        self.listing@
    }

    /// The outputs that the context declares.
    pub closed spec fn declared(&self) -> Seq<OutputModel> {
        self.context.outputs()
    }

    /// A finder for `target`, where `listing` tells which files exist in the
    /// target's directory.
    pub fn new(context: &'a C, target: &'a str, platform: Platform, listing: &'a Listing) -> (r:
        Self)
        ensures
            r.directory() == context.target_path(target@),
            r.platform() == platform,
            r.present() == listing@,
            r.declared() == context.outputs(),
    {
        Self { context, target, platform, listing }
    }

    /// The path of `file_name` in the directory, if it exists there.
    pub fn get_path(&self, file_name: &str) -> (r: Option<String>)
        ensures
            text_option(r) == located(self.directory(), self.present(), file_name@),
    {
        if self.listing.contains(file_name) {
            let dir = self.context.get_target_path(self.target);
            Some(join(dir.as_str(), file_name))
        } else {
            None
        }
    }

    fn first_existing(&self, candidates: &Vec<String>) -> (r: Option<String>)
        ensures
            text_option(r) == found(self.directory(), self.present(), texts(candidates@)),
    {
        let ghost all = texts(candidates@);
        let mut i: usize = 0;
        assert(all.skip(0) =~= all);
        while i < candidates.len()
            invariant
                i <= candidates.len(),
                all == texts(candidates@),
                first_present(all, self.present()) == first_present(
                    all.skip(i as int),
                    self.present(),
                ),
            decreases candidates.len() - i,
        {
            let name = candidates[i].as_str();
            assert(all.skip(i as int)[0] == name@);
            assert(all.skip(i as int).drop_first() =~= all.skip(i + 1));
            match self.get_path(name) {
                Some(p) => {
                    return Some(p);
                },
                None => {},
            }
            i += 1;
        }
        None
    }

    /// Resolves `output` under the wanted linkage.
    pub fn resolve_output(&self, lib_type: LibType, output: &Output) -> (r: FinderResult)
        ensures
            r@ == resolved(self.platform(), lib_type, output@, self.directory(), self.present()),
    {
        let paths = path_candidate_names(self.platform, lib_type, output);
        let debug = debug_info_candidate_names(self.platform, output);
        let exports = exports_candidate_names(self.platform, lib_type, output);
        FinderResult {
            path: self.first_existing(&paths),
            debug_info: self.first_existing(&debug),
            exports: self.first_existing(&exports),
        }
    }

    /// Resolves `output` under the wanted linkage.
    pub fn find_output(&self, lib_type: LibType, output: &Output) -> (r: FinderResult)
        ensures
            r@ == resolved(self.platform(), lib_type, output@, self.directory(), self.present()),
    {
        self.resolve_output(lib_type, output)
    }

    /// Every variant of `output` that exists: a library is looked for as a
    /// static and as a dynamic one.
    pub fn resolve_output_all(&self, output: &Output) -> (r: Vec<FinderResult>)
        ensures
            result_models(r@) == resolved_all(
                self.platform(),
                output@,
                self.directory(),
                self.present(),
            ),
    {
        let mut results: Vec<FinderResult> = Vec::new();
        if output.is_lib() {
            let rstatic = self.resolve_output(LibType::Static, output);
            let rdynamic = self.resolve_output(LibType::Dynamic, output);
            if rstatic.path.is_some() {
                results.push(rstatic);
            }
            if rdynamic.path.is_some() {
                results.push(rdynamic);
            }
        } else {
            let rdynamic = self.resolve_output(LibType::Dynamic, output);
            if rdynamic.path.is_some() {
                results.push(rdynamic);
            }
        }
        assert(result_models(results@) =~= resolved_all(
            self.platform(),
            output@,
            self.directory(),
            self.present(),
        ));
        results
    }

    /// Resolves the first declared output that `predicate` accepts; nothing
    /// is found where it accepts none.
    pub fn find_first<F: Fn(&Output) -> bool>(&self, lib_type: LibType, predicate: F) -> (r:
        FinderResult)
        requires
            forall|o: &Output| call_requires(predicate, (o,)),
        ensures
            exists|outs: Seq<Output>, i: int|
                models(outs) == self.declared() && #[trigger] first_accepted(predicate, outs, i)
                    && r@ == if i < outs.len() {
                    resolved(
                        self.platform(),
                        lib_type,
                        outs[i]@,
                        self.directory(),
                        self.present(),
                    )
                } else {
                    nothing_found()
                },
    {
        let outs = self.context.get_outputs();
        let mut i: usize = 0;
        while i < outs.len()
            invariant
                i <= outs.len(),
                models(outs@) == self.declared(),
                forall|o: &Output| call_requires(predicate, (o,)),
                forall|j: int| 0 <= j < i ==> #[trigger] call_ensures(predicate, (&outs@[j],), false),
            decreases outs.len() - i,
        {
            if predicate(&outs[i]) {
                let r = self.resolve_output(lib_type, &outs[i]);
                assert(first_accepted(predicate, outs@, i as int));
                return r;
            }
            i += 1;
        }
        assert(first_accepted(predicate, outs@, outs@.len() as int));
        FinderResult { path: None, debug_info: None, exports: None }
    }
}

/// A library of which a static and a dynamic file both exist resolves to
/// exactly two results, the static one first, and each names its file.
pub proof fn lemma_library_in_both_linkages(
    platform: Platform,
    o: OutputModel,
    dir: Seq<char>,
    present: Set<Seq<char>>,
)
    requires
        o.kind == OutputKind::Lib,
        exists|i: int|
            0 <= i < path_candidates(platform, LibType::Static, o).len() && present.contains(
                #[trigger] path_candidates(platform, LibType::Static, o)[i],
            ),
        exists|i: int|
            0 <= i < path_candidates(platform, LibType::Dynamic, o).len() && present.contains(
                #[trigger] path_candidates(platform, LibType::Dynamic, o)[i],
            ),
    ensures
        resolved_all(platform, o, dir, present) == seq![
            resolved(platform, LibType::Static, o, dir, present),
            resolved(platform, LibType::Dynamic, o, dir, present),
        ],
        resolved_all(platform, o, dir, present).len() == 2,
        resolved(platform, LibType::Static, o, dir, present).path is Some,
        resolved(platform, LibType::Dynamic, o, dir, present).path is Some,
{
    lemma_first_present(path_candidates(platform, LibType::Static, o), present);
    lemma_first_present(path_candidates(platform, LibType::Dynamic, o), present);
    assert(resolved_all(platform, o, dir, present) =~= seq![
        resolved(platform, LibType::Static, o, dir, present),
        resolved(platform, LibType::Dynamic, o, dir, present),
    ]);
}

/// Where none of an output's candidate names exists, resolution finds
/// nothing: every field is absent, under either linkage, and no variant is
/// reported.
pub proof fn lemma_no_file_resolves_to_nothing(
    platform: Platform,
    lib_type: LibType,
    o: OutputModel,
    dir: Seq<char>,
    present: Set<Seq<char>>,
)
    requires
        forall|i: int|
            0 <= i < all_candidates(platform, o).len() ==> !present.contains(
                #[trigger] all_candidates(platform, o)[i],
            ),
    ensures
        resolved(platform, lib_type, o, dir, present) == nothing_found(),
        resolved_all(platform, o, dir, present) == Seq::<FinderResultModel>::empty(),
{
    lemma_candidates_covered(platform, LibType::Static, o);
    lemma_candidates_covered(platform, LibType::Dynamic, o);
    assert forall|n: Seq<char>| all_candidates(platform, o).contains(n) implies !present.contains(
        n,
    ) by {
        let i = choose|i: int|
            0 <= i < all_candidates(platform, o).len() && all_candidates(platform, o)[i] == n;
        assert(!present.contains(all_candidates(platform, o)[i]));
    }
    lemma_first_present(path_candidates(platform, LibType::Static, o), present);
    lemma_first_present(path_candidates(platform, LibType::Dynamic, o), present);
    lemma_first_present(debug_info_candidates(platform, o), present);
    lemma_first_present(exports_candidates(platform, lib_type, o), present);
    assert(resolved_all(platform, o, dir, present) =~= Seq::<FinderResultModel>::empty());
}

/// Resolution looks at nothing but the candidate names: two listings that
/// agree on them resolve alike.
pub proof fn lemma_resolution_reads_only_candidates(
    platform: Platform,
    lib_type: LibType,
    o: OutputModel,
    dir: Seq<char>,
    a: Set<Seq<char>>,
    b: Set<Seq<char>>,
)
    requires
        forall|i: int|
            0 <= i < all_candidates(platform, o).len() ==> a.contains(
                #[trigger] all_candidates(platform, o)[i],
            ) == b.contains(all_candidates(platform, o)[i]),
    ensures
        resolved(platform, lib_type, o, dir, a) == resolved(platform, lib_type, o, dir, b),
        resolved_all(platform, o, dir, a) == resolved_all(platform, o, dir, b),
{
    lemma_candidates_covered(platform, LibType::Static, o);
    lemma_candidates_covered(platform, LibType::Dynamic, o);
    assert forall|n: Seq<char>| all_candidates(platform, o).contains(n) implies a.contains(n)
        == b.contains(n) by {
        let i = choose|i: int|
            0 <= i < all_candidates(platform, o).len() && all_candidates(platform, o)[i] == n;
        assert(a.contains(all_candidates(platform, o)[i]) == b.contains(
            all_candidates(platform, o)[i],
        ));
    }
    lemma_first_present_agrees(path_candidates(platform, LibType::Static, o), a, b);
    lemma_first_present_agrees(path_candidates(platform, LibType::Dynamic, o), a, b);
    lemma_first_present_agrees(debug_info_candidates(platform, o), a, b);
    lemma_first_present_agrees(exports_candidates(platform, LibType::Static, o), a, b);
    lemma_first_present_agrees(exports_candidates(platform, LibType::Dynamic, o), a, b);
}

proof fn lemma_texts_add(a: Seq<String>, b: Seq<String>)
    ensures
        texts(a + b) == texts(a) + texts(b),
{
    assert(texts(a + b) =~= texts(a) + texts(b));
}

/// Every name tried under one linkage is among `all_candidates`.
proof fn lemma_candidates_covered(platform: Platform, lib_type: LibType, o: OutputModel)
    ensures
        forall|i: int|
            0 <= i < path_candidates(platform, lib_type, o).len() ==> all_candidates(
                platform,
                o,
            ).contains(#[trigger] path_candidates(platform, lib_type, o)[i]),
        forall|i: int|
            0 <= i < debug_info_candidates(platform, o).len() ==> all_candidates(
                platform,
                o,
            ).contains(#[trigger] debug_info_candidates(platform, o)[i]),
        forall|i: int|
            0 <= i < exports_candidates(platform, lib_type, o).len() ==> all_candidates(
                platform,
                o,
            ).contains(#[trigger] exports_candidates(platform, lib_type, o)[i]),
{
    let st = path_candidates(platform, LibType::Static, o);
    let dy = path_candidates(platform, LibType::Dynamic, o);
    let de = debug_info_candidates(platform, o);
    let ex = exports_candidates(platform, LibType::Dynamic, o);
    let all = all_candidates(platform, o);
    assert forall|i: int| 0 <= i < st.len() implies all.contains(#[trigger] st[i]) by {
        assert(all[i] == st[i]);
    }
    assert forall|i: int| 0 <= i < dy.len() implies all.contains(#[trigger] dy[i]) by {
        assert(all[st.len() + i] == dy[i]);
    }
    assert forall|i: int| 0 <= i < de.len() implies all.contains(#[trigger] de[i]) by {
        assert(all[st.len() + dy.len() + i] == de[i]);
    }
    assert forall|i: int| 0 <= i < ex.len() implies all.contains(#[trigger] ex[i]) by {
        assert(all[st.len() + dy.len() + de.len() + i] == ex[i]);
    }
}

} // verus!
