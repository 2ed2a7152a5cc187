//! The backend for modules built by a script: which file holds the script,
//! the environment the script is given, and the entry points called in it.

use vstd::prelude::*;
use vstd::string::*;
use crate::builder::interface::{Context, Module};
use crate::lua::engine::{
    all_features_assigned, all_features_global, feature_flags, feature_global_of,
    features_assigned, features_global, release_global, target_global, value_of, Error,
    GlobalModel, LuaEngine, ScriptValueModel,
};
use crate::orchestrator::BuildStep;
use crate::output::texts;
use crate::path::{extension, extension_of, join, joined};
use crate::text::{lowercase_of, same_text, to_lower, uppercase_of};

verus! {

/// The script backend, configured: the interpreter of the module's script
/// and the file that holds the script.
pub struct LuaBuilder {
    engine: LuaEngine,
    script: String,
}

/// Whether a path names a script: its extension is `lua`, in any case.
pub open spec fn is_script_file(path: Seq<char>) -> bool {
    extension_of(path) matches Some(ext) && lowercase_of(ext) == "lua"@
}

/// The file that holds a module's script: the module's path where that
/// names a script, else `bp3d-make.lua` in the module's directory.
pub open spec fn script_path_of(path: Seq<char>) -> Seq<char> {
    if is_script_file(path) {
        path
    } else {
        joined(path, "bp3d-make.lua"@)
    }
}

/// The globals of a module's script, in the order they are set: the
/// features, the release flag, the target, the all-features flag.
pub open spec fn configured(
    features: Seq<Seq<char>>,
    release: bool,
    target: Seq<char>,
    all_features: bool,
) -> Seq<GlobalModel> {
    features_assigned(features).push(release_global(release)).push(target_global(target))
        + all_features_assigned(all_features)
}

/// The function of the script that carries out a step.
pub open spec fn entry_point_of(step: BuildStep) -> Seq<char> {
    match step {
        BuildStep::Configure => "doConfigure"@,
        BuildStep::Compile => "doCompile"@,
        BuildStep::ListOutputs => "listOutputs"@,
    }
}

/// Whether an extension, already in lower case, is that of a script.
pub fn is_script_extension(lowered: &str) -> (r: bool)
    ensures
        r == (lowered@ == "lua"@),
{
    same_text(lowered, "lua")
}

impl LuaBuilder {
    /// The assignments made to the script's globals, in order.
    pub closed spec fn assignments(&self) -> Seq<GlobalModel> {
        self.engine.assignments()
    }

    /// The file that holds the script.
    pub closed spec fn script_text(&self) -> Seq<char> {
        self.script@
    }

    /// The file that holds the module's script.
    pub fn script_path(module: &Module) -> (r: String)
        ensures
            r@ == script_path_of(module.path@),
    {
        let names_script = match extension(module.path.as_str()) {
            Some(ext) => {
                let lowered = to_lower(ext.as_str());
                is_script_extension(lowered.as_str())
            },
            None => false,
        };
        if names_script {
            module.path.clone()
        } else {
            join(module.path.as_str(), "bp3d-make.lua")
        }
    }

    /// The backend configured for a build for `triple`: an interpreter in
    /// whose state the globals are set. It fails where the interpreter does.
    pub fn configure_for(context: &Context, module: &Module, triple: &str) -> (r: Result<
        Self,
        Error,
    >)
        ensures
            r matches Ok(b) ==> b.assignments() == configured(
                context.feature_texts(),
                context.release,
                triple@,
                context.all_features,
            ) && b.script_text() == script_path_of(module.path@),
    {
        let mut engine = LuaEngine::new()?;
        engine.set_features(&context.features)?;
        engine.set_release(context.release)?;
        engine.set_target(triple)?;
        engine.set_all_features(context.all_features)?;
        assert(engine.assignments() =~= configured(
            context.feature_texts(),
            context.release,
            triple@,
            context.all_features,
        ));
        Ok(LuaBuilder { engine, script: Self::script_path(module) })
    }

    /// The backend configured for the context's target: the triple that was
    /// asked for, or else the host's.
    pub fn do_configure(context: &Context, module: &Module) -> (r: Result<Self, Error>)
        ensures
            r matches Ok(b) ==> (exists|host: Seq<char>|
                b.assignments() == #[trigger] configured(
                    context.feature_texts(),
                    context.release,
                    context.target_or_text(host),
                    context.all_features,
                )) && b.script_text() == script_path_of(module.path@),
    {
        let triple = context.target();
        let r = Self::configure_for(context, module, triple);
        proof {
            if r is Ok {
                assert(r->Ok_0.assignments() == configured(
                    context.feature_texts(),
                    context.release,
                    context.target_or_text(triple@),
                    context.all_features,
                ));
            }
        }
        r
    }

    /// The interpreter and the file that holds the script, to have the
    /// script loaded and run.
    pub fn into_parts(self) -> (r: (LuaEngine, String))
        ensures
            r.0.assignments() == self.assignments(),
            r.1@ == self.script_text(),
    {
        (self.engine, self.script)
    }

    /// The interpreter of the script.
    pub fn engine(&self) -> (r: &LuaEngine)
        ensures
            r.assignments() == self.assignments(),
    {
        &self.engine
    }

    /// The file that holds the script.
    pub fn script(&self) -> (r: &str)
        ensures
            r@ == self.script_text(),
    {
        self.script.as_str()
    }

    /// The name under which the interpreter knows the script.
    pub fn chunk_name() -> (r: &'static str)
        ensures
            r@ == "Module Script"@,
    {
        "Module Script"
    }

    /// The function of the script that carries out `step`.
    pub fn entry_point(step: BuildStep) -> (r: &'static str)
        ensures
            r@ == entry_point_of(step),
    {
        match step {
            BuildStep::Configure => "doConfigure",
            BuildStep::Compile => "doCompile",
            BuildStep::ListOutputs => "listOutputs",
        }
    }
}

/// Where every one of `globals` is set to `value`, a name that occurs among
/// them is found with that value.
proof fn lemma_value_among_equals(
    globals: Seq<GlobalModel>,
    name: Seq<char>,
    value: ScriptValueModel,
)
    requires
        forall|i: int| 0 <= i < globals.len() ==> (#[trigger] globals[i]).value == value,
        exists|i: int| 0 <= i < globals.len() && (#[trigger] globals[i]).name == name,
    ensures
        value_of(globals, name) == Some(value),
    decreases globals.len(),
{
    if globals.last().name != name {
        let rest = globals.drop_last();
        let i = choose|i: int| 0 <= i < globals.len() && (#[trigger] globals[i]).name == name;
        assert(rest[i].name == name);
        assert forall|k: int| 0 <= k < rest.len() implies (#[trigger] rest[k]).value == value by {
            assert(rest[k] == globals[k]);
        }
        lemma_value_among_equals(rest, name, value);
    }
}

/// A name that none of `globals` has is not found among them.
proof fn lemma_value_absent(globals: Seq<GlobalModel>, name: Seq<char>)
    requires
        forall|i: int| 0 <= i < globals.len() ==> (#[trigger] globals[i]).name != name,
    ensures
        value_of(globals, name) is None,
    decreases globals.len(),
{
    if globals.len() > 0 {
        let rest = globals.drop_last();
        assert(globals[globals.len() - 1].name != name);
        assert forall|k: int| 0 <= k < rest.len() implies (#[trigger] rest[k]).name != name by {
            assert(rest[k] == globals[k]);
        }
        lemma_value_absent(rest, name);
    }
}

proof fn lemma_environment(
    features: Seq<Seq<char>>,
    release: bool,
    target: Seq<char>,
    all_features: bool,
    u: Seq<char>,
)
    ensures
        value_of(configured(features, release, target, all_features), "TARGET"@) == Some(
            ScriptValueModel::Text(target),
        ),
        value_of(configured(features, release, target, all_features), "RELEASE"@)
            == Some(ScriptValueModel::Bool(release)),
        value_of(configured(features, release, target, all_features), "FEATURE_ALL"@)
            == Some(ScriptValueModel::Bool(all_features)),
        value_of(configured(features, release, target, all_features), "FEATURES"@)
            == Some(
            ScriptValueModel::List(
                if all_features {
                    seq!["all"@]
                } else {
                    features
                },
            ),
        ),
        value_of(configured(features, release, target, all_features), feature_global_of(u))
            == if exists|i: int|
            0 <= i < features.len() && uppercase_of(#[trigger] features[i]) == u {
            Some(ScriptValueModel::Bool(true))
        } else {
            None
        },
{
    reveal_strlit("TARGET");
    reveal_strlit("RELEASE");
    reveal_strlit("FEATURE_ALL");
    reveal_strlit("FEATURES");
    reveal_strlit("BP3D_MAKE_FEATURE_");
    let t = "TARGET"@;
    let r = "RELEASE"@;
    let a = "FEATURE_ALL"@;
    let l = "FEATURES"@;
    assert(t.len() == 6 && r.len() == 7 && a.len() == 11 && l.len() == 8);
    let flags = feature_flags(features);
    let s0 = flags.push(features_global(features));
    let s1 = s0.push(release_global(release));
    let s2 = s1.push(target_global(target));
    let s3 = s2.push(all_features_global(all_features));
    let all = configured(features, release, target, all_features);
    assert(s0.drop_last() =~= flags);
    assert(s1.drop_last() =~= s0);
    assert(s2.drop_last() =~= s1);
    assert(s3.drop_last() =~= s2);
    let n = feature_global_of(u);
    assert(n.len() == 18 + u.len());
    assert(n[0] == 'B');
    assert(t[0] == 'T' && r[0] == 'R' && a[0] == 'F' && l[0] == 'F');
    assert(n != t && n != r && n != a && n != l);
    if exists|i: int| 0 <= i < features.len() && uppercase_of(#[trigger] features[i]) == u {
        let i = choose|i: int|
            0 <= i < features.len() && uppercase_of(#[trigger] features[i]) == u;
        assert(flags[i].name == n);
        lemma_value_among_equals(flags, n, ScriptValueModel::Bool(true));
        assert(value_of(s0, n) == Some(ScriptValueModel::Bool(true)));
        assert(value_of(s1, n) == Some(ScriptValueModel::Bool(true)));
        assert(value_of(s2, n) == Some(ScriptValueModel::Bool(true)));
        assert(value_of(s3, n) == Some(ScriptValueModel::Bool(true)));
    } else {
        assert forall|i: int| 0 <= i < flags.len() implies (#[trigger] flags[i]).name != n by {
            let other = uppercase_of(features[i]);
            if flags[i].name == n {
                assert(feature_global_of(other).subrange(18, 18 + other.len() as int) =~= other);
                assert(n.subrange(18, 18 + u.len() as int) =~= u);
                assert(other == u);
            }
        }
        lemma_value_absent(flags, n);
        assert(value_of(s0, n) is None);
        assert(value_of(s1, n) is None);
        assert(value_of(s2, n) is None);
        assert(value_of(s3, n) is None);
    }
    assert(value_of(s2, t) == Some(ScriptValueModel::Text(target)));
    assert(value_of(s3, t) == Some(ScriptValueModel::Text(target)));
    assert(value_of(s1, r) == Some(ScriptValueModel::Bool(release)));
    assert(value_of(s2, r) == Some(ScriptValueModel::Bool(release)));
    assert(value_of(s3, r) == Some(ScriptValueModel::Bool(release)));
    assert(value_of(s3, a) == Some(ScriptValueModel::Bool(all_features)));
    assert(value_of(s0, l) == Some(ScriptValueModel::List(features)));
    assert(value_of(s1, l) == Some(ScriptValueModel::List(features)));
    assert(value_of(s2, l) == Some(ScriptValueModel::List(features)));
    assert(value_of(s3, l) == Some(ScriptValueModel::List(features)));
    if all_features {
        let s4 = s3.push(features_global(seq!["all"@]));
        assert(s4.drop_last() =~= s3);
        assert(all =~= s4);
        assert(value_of(s4, t) == value_of(s3, t));
        assert(value_of(s4, r) == value_of(s3, r));
        assert(value_of(s4, a) == value_of(s3, a));
        assert(value_of(s4, n) == value_of(s3, n));
        assert(value_of(s4, l) == Some(ScriptValueModel::List(seq!["all"@])));
    } else {
        assert(all =~= s3);
    }
}

/// What a script finds in its environment: the target, the release flag
/// and the all-features flag as given, and the list of features in the
/// order given, or the single entry `all` where every feature is on.
pub proof fn lemma_script_settings(
    features: Seq<Seq<char>>,
    release: bool,
    target: Seq<char>,
    all_features: bool,
)
    ensures
        value_of(configured(features, release, target, all_features), "TARGET"@) == Some(
            ScriptValueModel::Text(target),
        ),
        value_of(configured(features, release, target, all_features), "RELEASE"@)
            == Some(ScriptValueModel::Bool(release)),
        value_of(configured(features, release, target, all_features), "FEATURE_ALL"@)
            == Some(ScriptValueModel::Bool(all_features)),
        value_of(configured(features, release, target, all_features), "FEATURES"@)
            == Some(
            ScriptValueModel::List(
                if all_features {
                    seq!["all"@]
                } else {
                    features
                },
            ),
        ),
{
    lemma_environment(features, release, target, all_features, Seq::empty());
}

/// Every feature that is on is exposed to the script: the global named
/// after it is set to true, and where not every feature is on, the list of
/// features holds it.
pub proof fn lemma_feature_is_exposed(
    features: Seq<Seq<char>>,
    release: bool,
    target: Seq<char>,
    all_features: bool,
    i: int,
)
    requires
        0 <= i < features.len(),
    ensures
        value_of(
            configured(features, release, target, all_features),
            feature_global_of(uppercase_of(features[i])),
        ) == Some(ScriptValueModel::Bool(true)),
        !all_features ==> value_of(
            configured(features, release, target, all_features),
            "FEATURES"@,
        ) == Some(ScriptValueModel::List(features)) && features.contains(features[i]),
{
    lemma_environment(features, release, target, all_features, uppercase_of(features[i]));
}

/// The flags follow the features: the global named after a name in upper
/// case is set, and set to true, exactly where a feature that is on has that
/// upper-case form. Two features with one upper-case form share their flag.
pub proof fn lemma_flags_follow_features(
    features: Seq<Seq<char>>,
    release: bool,
    target: Seq<char>,
    all_features: bool,
    upper: Seq<char>,
)
    ensures
        value_of(
            configured(features, release, target, all_features),
            feature_global_of(upper),
        ) == if exists|i: int|
            0 <= i < features.len() && uppercase_of(#[trigger] features[i]) == upper {
            Some(ScriptValueModel::Bool(true))
        } else {
            None
        },
{
    lemma_environment(features, release, target, all_features, upper);
}

} // verus!
