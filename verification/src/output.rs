//! The vocabulary for build artifacts: an artifact is described by its kind
//! and its logical name, never by a path.

use vstd::prelude::*;

verus! {

/// The four kinds of artifact a module can produce.
#[derive(Clone, Copy, Debug, PartialEq, Eq, Structural)]
pub enum OutputKind {
    Bin,
    Lib,
    Config,
    Other,
}

/// An artifact as a module declares it: a kind and a logical name.
#[derive(Debug, PartialEq, Eq)]
pub enum Output {
    Bin(String),
    Lib(String),
    Config(String),
    Other(String),
}

/// What an `Output` stands for in contracts.
pub struct OutputModel {
    pub kind: OutputKind,
    pub name: Seq<char>,
}

impl View for Output {
    type V = OutputModel;

    open spec fn view(&self) -> OutputModel {
        match self {
            Output::Bin(v) => OutputModel { kind: OutputKind::Bin, name: v@ },
            Output::Lib(v) => OutputModel { kind: OutputKind::Lib, name: v@ },
            Output::Config(v) => OutputModel { kind: OutputKind::Config, name: v@ },
            Output::Other(v) => OutputModel { kind: OutputKind::Other, name: v@ },
        }
    }
}

/// The models of a sequence of outputs, in the same order.
pub open spec fn models(outputs: Seq<Output>) -> Seq<OutputModel> {
    outputs.map_values(|o: Output| o@)
}

/// The texts of a sequence of strings, in the same order.
pub open spec fn texts(strings: Seq<String>) -> Seq<Seq<char>> {
    strings.map_values(|s: String| s@)
}

/// Appending an output appends its model.
pub proof fn lemma_models_push(outputs: Seq<Output>, o: Output)
    ensures
        models(outputs.push(o)) == models(outputs).push(o@),
{
    assert(models(outputs.push(o)) =~= models(outputs).push(o@));
}

/// Appending a string appends its text.
pub proof fn lemma_texts_push(strings: Seq<String>, s: String)
    ensures
        texts(strings.push(s)) == texts(strings).push(s@),
{
    assert(texts(strings.push(s)) =~= texts(strings).push(s@));
}

impl Clone for Output {
    fn clone(&self) -> (r: Self)
        ensures
            r@ == self@,
    {
        match self {
            Output::Bin(v) => Output::Bin(v.clone()),
            Output::Lib(v) => Output::Lib(v.clone()),
            Output::Config(v) => Output::Config(v.clone()),
            Output::Other(v) => Output::Other(v.clone()),
        }
    }
}

impl Output {
    /// The logical name, whatever the kind.
    pub fn name(&self) -> (r: &str)
        ensures
            r@ == self@.name,
    {
        match self {
            Output::Bin(v) => v.as_str(),
            Output::Lib(v) => v.as_str(),
            Output::Config(v) => v.as_str(),
            Output::Other(v) => v.as_str(),
        }
    }

    /// The kind of artifact.
    pub fn kind(&self) -> (r: OutputKind)
        ensures
            r == self@.kind,
    {
        match self {
            Output::Bin(_) => OutputKind::Bin,
            Output::Lib(_) => OutputKind::Lib,
            Output::Config(_) => OutputKind::Config,
            Output::Other(_) => OutputKind::Other,
        }
    }

    /// Whether this is a library.
    pub fn is_lib(&self) -> (r: bool)
        ensures
            r == (self@.kind == OutputKind::Lib),
    {
        match self {
            Output::Lib(_) => true,
            _ => false,
        }
    }
}

/// What one module produced: its outputs in the order they were reported,
/// and the directories under which to look for them.
pub struct OutputList {
    outputs: Vec<Output>,
    paths: Vec<String>,
}

/// One search directory of an `OutputList` together with the list's outputs.
pub struct PathOutputList<'a> {
    pub outputs: &'a Vec<Output>,
    pub path: &'a str,
}

impl OutputList {
    /// The outputs reported so far, in order.
    pub closed spec fn outputs(&self) -> Seq<OutputModel> {
        models(self.outputs@)
    }

    /// The search directories added so far, in order.
    pub closed spec fn target_paths(&self) -> Seq<Seq<char>> {
        texts(self.paths@)
    }

    /// An empty list.
    pub fn new() -> (r: Self)
        ensures
            r.outputs() == Seq::<OutputModel>::empty(),
            r.target_paths() == Seq::<Seq<char>>::empty(),
    {
        let r = Self { outputs: Vec::new(), paths: Vec::new() };
        assert(r.outputs() =~= Seq::<OutputModel>::empty());
        assert(r.target_paths() =~= Seq::<Seq<char>>::empty());
        r
    }

    /// Adds a directory under which the outputs are to be looked for.
    pub fn add_target_path(&mut self, path: String)
        ensures
            final(self).target_paths() == old(self).target_paths().push(path@),
            final(self).outputs() == old(self).outputs(),
    {
        proof {
            lemma_texts_push(self.paths@, path);
        }
        self.paths.push(path);
    }

    fn add(&mut self, output: Output)
        ensures
            final(self).outputs() == old(self).outputs().push(output@),
            final(self).target_paths() == old(self).target_paths(),
    {
        proof {
            lemma_models_push(self.outputs@, output);
        }
        self.outputs.push(output);
    }

    /// Reports an executable.
    pub fn add_bin(&mut self, name: String)
        ensures
            final(self).outputs() == old(self).outputs().push(
                (OutputModel { kind: OutputKind::Bin, name: name@ }),
            ),
            final(self).target_paths() == old(self).target_paths(),
    {
        self.add(Output::Bin(name));
    }

    /// Reports a library.
    pub fn add_lib(&mut self, name: String)
        ensures
            final(self).outputs() == old(self).outputs().push(
                (OutputModel { kind: OutputKind::Lib, name: name@ }),
            ),
            final(self).target_paths() == old(self).target_paths(),
    {
        self.add(Output::Lib(name));
    }

    /// Reports a configuration file.
    pub fn add_config(&mut self, name: String)
        ensures
            final(self).outputs() == old(self).outputs().push(
                (OutputModel { kind: OutputKind::Config, name: name@ }),
            ),
            final(self).target_paths() == old(self).target_paths(),
    {
        self.add(Output::Config(name));
    }

    /// Reports any other file.
    pub fn add_other(&mut self, name: String)
        ensures
            final(self).outputs() == old(self).outputs().push(
                (OutputModel { kind: OutputKind::Other, name: name@ }),
            ),
            final(self).target_paths() == old(self).target_paths(),
    {
        self.add(Output::Other(name));
    }

    /// The outputs, in the order they were reported.
    pub fn as_ref(&self) -> (r: &Vec<Output>)
        ensures
            models(r@) == self.outputs(),
    {
        &self.outputs
    }

    /// One entry per search directory, in the order the directories were
    /// added, each with all the outputs.
    pub fn iter(&self) -> (r: Vec<PathOutputList<'_>>)
        ensures
            r@.len() == self.target_paths().len(),
            forall|i: int|
                0 <= i < r@.len() ==> (#[trigger] r@[i]).path@ == self.target_paths()[i] && models(
                    r@[i].outputs@,
                ) == self.outputs(),
    {
        let mut r: Vec<PathOutputList<'_>> = Vec::new();
        let mut i: usize = 0;
        while i < self.paths.len()
            invariant
                i <= self.paths.len(),
                r@.len() == i,
                forall|k: int|
                    0 <= k < i ==> (#[trigger] r@[k]).path@ == self.target_paths()[k] && models(
                        r@[k].outputs@,
                    ) == self.outputs(),
            decreases self.paths.len() - i,
        {
            r.push(PathOutputList { outputs: &self.outputs, path: self.paths[i].as_str() });
            i += 1;
        }
        r
    }
}

} // verus!
