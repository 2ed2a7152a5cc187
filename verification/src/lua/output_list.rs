//! The handle through which a script reports what it produced.

use vstd::prelude::*;
use vstd::string::*;
use crate::output::{OutputKind, OutputList, OutputModel};
use crate::text::same_text;

verus! {

/// An output list as a script sees it: a handle with one method per way of
/// adding to the list.
pub struct OutputListWrapper(OutputList);

/// What calling `method` with `argument` does to the outputs: the four
/// `add` methods append an output of their kind, anything else appends
/// nothing.
pub open spec fn outputs_after_call(
    outputs: Seq<OutputModel>,
    method: Seq<char>,
    argument: Seq<char>,
) -> Seq<OutputModel> {
    if method == "addTargetPath"@ {
        outputs
    } else if method == "addBin"@ {
        outputs.push(OutputModel { kind: OutputKind::Bin, name: argument })
    } else if method == "addLib"@ {
        outputs.push(OutputModel { kind: OutputKind::Lib, name: argument })
    } else if method == "addConfig"@ {
        outputs.push(OutputModel { kind: OutputKind::Config, name: argument })
    } else if method == "addOther"@ {
        outputs.push(OutputModel { kind: OutputKind::Other, name: argument })
    } else {
        outputs
    }
}

/// What calling `method` with `argument` does to the search directories:
/// `addTargetPath` appends one, anything else appends nothing.
pub open spec fn paths_after_call(paths: Seq<Seq<char>>, method: Seq<char>, argument: Seq<char>)
    -> Seq<Seq<char>> {
    if method == "addTargetPath"@ {
        paths.push(argument)
    } else {
        paths
    }
}

/// Whether the handle has a method of this name.
pub open spec fn is_method(method: Seq<char>) -> bool {
    method == "addTargetPath"@ || method == "addBin"@ || method == "addLib"@ || method
        == "addConfig"@ || method == "addOther"@
}

impl OutputListWrapper {
    /// The outputs reported so far, in order.
    pub closed spec fn outputs(&self) -> Seq<OutputModel> {
        self.0.outputs()
    }

    /// The search directories added so far, in order.
    pub closed spec fn target_paths(&self) -> Seq<Seq<char>> {
        self.0.target_paths()
    }

    /// A handle on an empty list.
    pub fn new() -> (r: Self)
        ensures
            r.outputs() == Seq::<OutputModel>::empty(),
            r.target_paths() == Seq::<Seq<char>>::empty(),
    {
        Self(OutputList::new())
    }

    /// The list that the script has filled.
    pub fn into_inner(self) -> (r: OutputList)
        ensures
            r.outputs() == self.outputs(),
            r.target_paths() == self.target_paths(),
    {
        self.0
    }

    /// The names of the handle's methods.
    pub fn methods() -> (r: Vec<&'static str>)
        ensures
            r@.len() == 5,
            r@[0]@ == "addTargetPath"@,
            r@[1]@ == "addBin"@,
            r@[2]@ == "addLib"@,
            r@[3]@ == "addConfig"@,
            r@[4]@ == "addOther"@,
    {
        let mut r: Vec<&'static str> = Vec::new();
        r.push("addTargetPath");
        r.push("addBin");
        r.push("addLib");
        r.push("addConfig");
        r.push("addOther");
        r
    }

    /// Carries out the call of `method` with `argument`. Returns whether the
    /// handle has such a method; where it has none the list stays as it is.
    pub fn call(&mut self, method: &str, argument: String) -> (r: bool)
        ensures
            r == is_method(method@),
            final(self).outputs() == outputs_after_call(old(self).outputs(), method@, argument@),
            final(self).target_paths() == paths_after_call(
                old(self).target_paths(),
                method@,
                argument@,
            ),
    {
        if same_text(method, "addTargetPath") {
            self.0.add_target_path(argument);
            true
        } else if same_text(method, "addBin") {
            self.0.add_bin(argument);
            true
        } else if same_text(method, "addLib") {
            self.0.add_lib(argument);
            true
        } else if same_text(method, "addConfig") {
            self.0.add_config(argument);
            true
        } else if same_text(method, "addOther") {
            self.0.add_other(argument);
            true
        } else {
            false
        }
    }
}

} // verus!
