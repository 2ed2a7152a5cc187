//! The interpreter of a module's build script, as far as it is prepared
//! here: the state is made, and the globals that tell the script about the
//! build are set in it, in a fixed order. Host libraries are added, and the
//! script is loaded and run, by whoever takes the state over.

use vstd::prelude::*;
use vstd::string::*;
use crate::output::{lemma_texts_push, texts};
use crate::text::{same_text, to_upper, uppercase_of};

verus! {

/// A value handed to a script.
#[derive(Debug, PartialEq, Eq)]
pub enum ScriptValue {
    Bool(bool),
    Text(String),
    List(Vec<String>),
}

/// What a `ScriptValue` stands for in contracts.
pub enum ScriptValueModel {
    Bool(bool),
    Text(Seq<char>),
    List(Seq<Seq<char>>),
}

impl View for ScriptValue {
    type V = ScriptValueModel;

    open spec fn view(&self) -> ScriptValueModel {
        match self {
            ScriptValue::Bool(b) => ScriptValueModel::Bool(*b),
            ScriptValue::Text(t) => ScriptValueModel::Text(t@),
            ScriptValue::List(l) => ScriptValueModel::List(texts(l@)),
        }
    }
}

/// One global and the value it is set to.
#[derive(Debug, PartialEq, Eq)]
pub struct Global {
    pub name: String,
    pub value: ScriptValue,
}

/// What a `Global` stands for in contracts.
pub struct GlobalModel {
    pub name: Seq<char>,
    pub value: ScriptValueModel,
}

impl View for Global {
    type V = GlobalModel;

    open spec fn view(&self) -> GlobalModel {
        GlobalModel { name: self.name@, value: self.value@ }
    }
}

/// The models of a sequence of globals, in the same order.
pub open spec fn global_models(globals: Seq<Global>) -> Seq<GlobalModel> {
    globals.map_values(|g: Global| g@)
}

/// The global that tells a script the target triple.
pub open spec fn target_global(target: Seq<char>) -> GlobalModel {
    GlobalModel { name: "TARGET"@, value: ScriptValueModel::Text(target) }
}

/// The global that tells a script whether this is a release build.
pub open spec fn release_global(release: bool) -> GlobalModel {
    GlobalModel { name: "RELEASE"@, value: ScriptValueModel::Bool(release) }
}

/// The global that tells a script whether every feature is on.
pub open spec fn all_features_global(all_features: bool) -> GlobalModel {
    GlobalModel { name: "FEATURE_ALL"@, value: ScriptValueModel::Bool(all_features) }
}

/// The global that lists the features that are on.
pub open spec fn features_global(features: Seq<Seq<char>>) -> GlobalModel {
    GlobalModel { name: "FEATURES"@, value: ScriptValueModel::List(features) }
}

/// The name of the global that stands for one feature, given the feature's
/// name in upper case.
pub open spec fn feature_global_of(upper: Seq<char>) -> Seq<char> {
    "BP3D_MAKE_FEATURE_"@ + upper
}

/// One global per feature, each set to true, in the order of the features.
pub open spec fn feature_flags(features: Seq<Seq<char>>) -> Seq<GlobalModel> {
    Seq::new(
        features.len(),
        |i: int|
            GlobalModel {
                name: feature_global_of(uppercase_of(features[i])),
                value: ScriptValueModel::Bool(true),
            },
    )
}

/// What setting the features assigns: a flag per feature, then the list.
pub open spec fn features_assigned(features: Seq<Seq<char>>) -> Seq<GlobalModel> {
    feature_flags(features).push(features_global(features))
}

/// What setting the all-features flag assigns: the flag, and where it is
/// on, the list with the single entry `all`.
pub open spec fn all_features_assigned(all_features: bool) -> Seq<GlobalModel> {
    if all_features {
        seq![all_features_global(true), features_global(seq!["all"@])]
    } else {
        seq![all_features_global(false)]
    }
}

/// The value that a script finds under `name` after `assignments` were
/// made in order: that of the last assignment to `name`.
pub open spec fn value_of(assignments: Seq<GlobalModel>, name: Seq<char>) -> Option<
    ScriptValueModel,
>
    decreases assignments.len(),
{
    if assignments.len() == 0 {
        None
    } else if assignments.last().name == name {
        Some(assignments.last().value)
    } else {
        value_of(assignments.drop_last(), name)
    }
}

/// The name of the global that stands for one feature, given the feature's
/// name in upper case.
pub fn feature_global_name(upper: &str) -> (r: String)
    ensures
        r@ == feature_global_of(upper@),
{
    let mut s = "BP3D_MAKE_FEATURE_".to_owned();
    s.append(upper);
    s
}

/// A copy of `strings`.
pub fn clone_strings(strings: &Vec<String>) -> (r: Vec<String>)
    ensures
        texts(r@) == texts(strings@),
{
    let mut r: Vec<String> = Vec::new();
    let mut i: usize = 0;
    assert(texts(r@) =~= texts(strings@).take(0));
    while i < strings.len()
        invariant
            i <= strings.len(),
            texts(r@) == texts(strings@).take(i as int),
        decreases strings.len() - i,
    {
        let s = strings[i].clone();
        proof {
            lemma_texts_push(r@, s);
            assert(texts(strings@).take(i as int).push(s@) =~= texts(strings@).take(i + 1));
        }
        r.push(s);
        i += 1;
    }
    assert(texts(strings@).take(i as int) =~= texts(strings@));
    r
}

/// Why the interpreter failed: whatever went wrong in it, with its own
/// message.
#[derive(Debug, PartialEq, Eq)]
pub struct Error {
    pub message: String,
}

#[verifier::external_type_specification]
#[verifier::external_body]
pub struct ExLua(mlua::Lua);

#[verifier::external_type_specification]
#[verifier::external_body]
pub struct ExLuaError(mlua::prelude::LuaError);

/// The interpreter of one script, before the script is loaded: a state in
/// which no script has run, and the assignments made to its globals.
pub struct LuaEngine {
    lua: mlua::Lua,
    globals: Vec<Global>,
}

/// Calls `mlua::Lua::new_with` for the safe standard libraries and the
/// default options. Trusted: the call succeeds. It refuses nothing but the
/// debug and the foreign-function library, and the safe set holds neither.
#[verifier::external_body]
fn new_state() -> (r: Result<mlua::Lua, mlua::prelude::LuaError>)
    ensures
        r is Ok,
{
    mlua::Lua::new_with(mlua::StdLib::ALL_SAFE, mlua::LuaOptions::new())
}

/// Calls `mlua::Table::set` on the globals of the engine's state, with a
/// boolean. Trusted; nothing is claimed of the outcome. No script has run in
/// an engine's state, so the call runs none either.
#[verifier::external_body]
fn assign_bool(engine: &LuaEngine, name: &str, value: bool) -> Result<(), mlua::prelude::LuaError> {
    engine.lua.globals().set(name, value)
}

/// Calls `mlua::Table::set` on the globals of the engine's state, with a
/// string. Trusted; nothing is claimed of the outcome.
#[verifier::external_body]
fn assign_text(engine: &LuaEngine, name: &str, value: &str) -> Result<(), mlua::prelude::LuaError> {
    engine.lua.globals().set(name, value)
}

/// Calls `mlua::Table::set` on the globals of the engine's state, with a
/// list of strings. Trusted; nothing is claimed of the outcome.
#[verifier::external_body]
fn assign_list(engine: &LuaEngine, name: &str, value: Vec<String>) -> Result<(), mlua::prelude::LuaError> {
    engine.lua.globals().set(name, value)
}

/// The interpreter's own text for an error: what its `Display` writes.
pub uninterp spec fn error_text(e: mlua::prelude::LuaError) -> Seq<char>;

/// Calls `to_string` on an error of the interpreter (`mlua::Error`).
/// Trusted: the result is what the error's `Display` writes, which depends
/// on the error alone.
#[verifier::external_body]
fn describe(e: &mlua::prelude::LuaError) -> (r: String)
    ensures
        r@ == error_text(*e),
{
    e.to_string()
}

impl Error {
    /// The failure that the interpreter describes by `message`.
    pub fn new(message: String) -> (r: Self)
        ensures
            r.message@ == message@,
    {
        Error { message }
    }

    /// The failure that the interpreter reports as `e`: its message is
    /// the interpreter's own text for `e`.
    pub fn of(e: &mlua::prelude::LuaError) -> (r: Self)
        ensures
            r.message@ == error_text(*e),
    {
        Error::new(describe(e))
    }

    /// The error in words: the interpreter's message as it is.
    pub fn message(&self) -> (r: &str)
        ensures
            r@ == self.message@,
    {
        self.message.as_str()
    }
}

/// `after` is `before` followed by some of `wanted`, from its start on.
pub open spec fn began(
    before: Seq<GlobalModel>,
    wanted: Seq<GlobalModel>,
    after: Seq<GlobalModel>,
) -> bool {
    exists|k: int| 0 <= k < wanted.len() && after == before + #[trigger] wanted.take(k)
}

/// What a series of assignments leaves behind: all of `wanted` after
/// `before` where it succeeded; where it failed, those that were made before
/// the one that failed.
pub open spec fn assigned(
    before: Seq<GlobalModel>,
    wanted: Seq<GlobalModel>,
    succeeded: bool,
    after: Seq<GlobalModel>,
) -> bool {
    if succeeded {
        after == before + wanted
    } else {
        began(before, wanted, after)
    }
}

impl LuaEngine {
    /// The assignments made so far, in order.
    pub closed spec fn assignments(&self) -> Seq<GlobalModel> {
        global_models(self.globals@)
    }

    /// The interpreter state that the engine holds. It is the same state
    /// from the making of the engine to its handing over; what is set in it
    /// is told by `assignments`.
    pub closed spec fn state(&self) -> mlua::Lua {
        self.lua
    }

    /// An engine with a state of its own, in which nothing is set yet.
    /// Making one always succeeds.
    pub fn new() -> (r: Result<Self, Error>)
        ensures
            r matches Ok(engine) && engine.assignments() == Seq::<GlobalModel>::empty(),
    {
        match new_state() {
            Ok(lua) => {
                let engine = LuaEngine { lua, globals: Vec::new() };
                assert(engine.assignments() =~= Seq::<GlobalModel>::empty());
                Ok(engine)
            },
            Err(e) => Err(Error::of(&e)),
        }
    }

    /// What became of one assignment: it is recorded where the interpreter
    /// took it, and reported where it did not.
    fn record(&mut self, global: Global, outcome: Result<(), mlua::prelude::LuaError>) -> (r: Result<(), Error>)
        ensures
            r is Ok <==> outcome is Ok,
            r matches Err(failure) ==> failure.message@ == error_text(outcome->Err_0),
            final(self).state() == old(self).state(),
            final(self).assignments() == if outcome is Ok {
                old(self).assignments().push(global@)
            } else {
                old(self).assignments()
            },
    {
        match outcome {
            Ok(()) => {
                assert(global_models(self.globals@.push(global)) =~= global_models(
                    self.globals@,
                ).push(global@));
                self.globals.push(global);
                Ok(())
            },
            Err(e) => Err(Error::of(&e)),
        }
    }

    fn set_bool(&mut self, name: String, value: bool) -> (r: Result<(), Error>)
        ensures
            final(self).state() == old(self).state(),
            final(self).assignments() == if r is Ok {
                old(self).assignments().push(
                    (GlobalModel { name: name@, value: ScriptValueModel::Bool(value) }),
                )
            } else {
                old(self).assignments()
            },
    {
        let outcome = assign_bool(self, name.as_str(), value);
        self.record(Global { name, value: ScriptValue::Bool(value) }, outcome)
    }

    fn set_text(&mut self, name: String, value: &str) -> (r: Result<(), Error>)
        ensures
            final(self).state() == old(self).state(),
            final(self).assignments() == if r is Ok {
                old(self).assignments().push(
                    (GlobalModel { name: name@, value: ScriptValueModel::Text(value@) }),
                )
            } else {
                old(self).assignments()
            },
    {
        let outcome = assign_text(self, name.as_str(), value);
        self.record(Global { name, value: ScriptValue::Text(value.to_owned()) }, outcome)
    }

    fn set_list(&mut self, name: String, value: &Vec<String>) -> (r: Result<(), Error>)
        ensures
            final(self).state() == old(self).state(),
            final(self).assignments() == if r is Ok {
                old(self).assignments().push(
                    (GlobalModel { name: name@, value: ScriptValueModel::List(texts(value@)) }),
                )
            } else {
                old(self).assignments()
            },
    {
        let outcome = assign_list(self, name.as_str(), clone_strings(value));
        self.record(Global { name, value: ScriptValue::List(clone_strings(value)) }, outcome)
    }

    /// Tells the script the target triple.
    pub fn set_target(&mut self, target: &str) -> (r: Result<(), Error>)
        ensures
            final(self).state() == old(self).state(),
            assigned(
                old(self).assignments(),
                seq![target_global(target@)],
                r is Ok,
                final(self).assignments(),
            ),
    {
        let ghost before = self.assignments();
        let ghost wanted = seq![target_global(target@)];
        let r = self.set_text("TARGET".to_owned(), target);
        proof {
            if r is Ok {
                assert(self.assignments() =~= before + wanted);
            } else {
                assert(self.assignments() =~= before + wanted.take(0));
            }
        }
        r
    }

    /// Tells the script whether this is a release build.
    pub fn set_release(&mut self, release: bool) -> (r: Result<(), Error>)
        ensures
            final(self).state() == old(self).state(),
            assigned(
                old(self).assignments(),
                seq![release_global(release)],
                r is Ok,
                final(self).assignments(),
            ),
    {
        let ghost before = self.assignments();
        let ghost wanted = seq![release_global(release)];
        let r = self.set_bool("RELEASE".to_owned(), release);
        proof {
            if r is Ok {
                assert(self.assignments() =~= before + wanted);
            } else {
                assert(self.assignments() =~= before + wanted.take(0));
            }
        }
        r
    }

    /// Tells the script whether every feature is on. Where it is, the list
    /// of features becomes the single entry `all`.
    pub fn set_all_features(&mut self, all_features: bool) -> (r: Result<(), Error>)
        ensures
            final(self).state() == old(self).state(),
            assigned(
                old(self).assignments(),
                all_features_assigned(all_features),
                r is Ok,
                final(self).assignments(),
            ),
    {
        let ghost before = self.assignments();
        let ghost wanted = all_features_assigned(all_features);
        match self.set_bool("FEATURE_ALL".to_owned(), all_features) {
            Ok(()) => {},
            Err(e) => {
                assert(self.assignments() =~= before + wanted.take(0));
                return Err(e);
            },
        }
        if all_features {
            let mut list: Vec<String> = Vec::new();
            list.push("all".to_owned());
            assert(texts(list@) =~= seq!["all"@]);
            match self.set_list("FEATURES".to_owned(), &list) {
                Ok(()) => {},
                Err(e) => {
                    assert(self.assignments() =~= before + wanted.take(1));
                    return Err(e);
                },
            }
        }
        assert(self.assignments() =~= before + wanted);
        Ok(())
    }

    /// Tells the script which features are on: one global per feature,
    /// named after the feature in upper case and set to true, then the list
    /// of the features as they were given.
    pub fn set_features(&mut self, features: &Vec<String>) -> (r: Result<(), Error>)
        ensures
            final(self).state() == old(self).state(),
            assigned(
                old(self).assignments(),
                features_assigned(texts(features@)),
                r is Ok,
                final(self).assignments(),
            ),
    {
        let ghost before = self.assignments();
        let ghost flags = feature_flags(texts(features@));
        let ghost wanted = features_assigned(texts(features@));
        let mut i: usize = 0;
        assert(self.assignments() =~= before + flags.take(0));
        while i < features.len()
            invariant
                i <= features.len(),
                before == old(self).assignments(),
                self.state() == old(self).state(),
                flags == feature_flags(texts(features@)),
                wanted == features_assigned(texts(features@)),
                self.assignments() == before + flags.take(i as int),
            decreases features.len() - i,
        {
            let upper = to_upper(features[i].as_str());
            let name = feature_global_name(upper.as_str());
            assert((before + flags.take(i as int)).push(flags[i as int]) =~= before + flags.take(
                i + 1,
            ));
            match self.set_bool(name, true) {
                Ok(()) => {},
                Err(e) => {
                    assert(flags.take(i as int) =~= wanted.take(i as int));
                    assert(self.assignments() == before + wanted.take(i as int));
                    assert(began(before, wanted, self.assignments()));
                    return Err(e);
                },
            }
            i += 1;
        }
        assert(flags.take(i as int) =~= flags);
        match self.set_list("FEATURES".to_owned(), features) {
            Ok(()) => {},
            Err(e) => {
                assert(flags =~= wanted.take(flags.len() as int));
                assert(self.assignments() == before + wanted.take(flags.len() as int));
                assert(began(before, wanted, self.assignments()));
                return Err(e);
            },
        }
        assert(self.assignments() =~= before + wanted);
        Ok(())
    }

    /// The assignments made so far, in order.
    pub fn globals(&self) -> (r: &Vec<Global>)
        ensures
            global_models(r@) == self.assignments(),
    {
        &self.globals
    }

    /// The value that the script finds under `name`: that of the last
    /// assignment to it, if there is one.
    pub fn get(&self, name: &str) -> (r: Option<&ScriptValue>)
        ensures
            match r {
                Some(v) => value_of(self.assignments(), name@) == Some(v@),
                None => value_of(self.assignments(), name@) is None,
            },
    {
        let ghost all = self.assignments();
        let mut k: usize = self.globals.len();
        assert(all.take(k as int) =~= all);
        while k > 0
            invariant
                k <= self.globals.len(),
                all == self.assignments(),
                value_of(all, name@) == value_of(all.take(k as int), name@),
            decreases k,
        {
            assert(all.take(k as int).last() == self.globals@[k - 1]@);
            if same_text(self.globals[k - 1].name.as_str(), name) {
                return Some(&self.globals[k - 1].value);
            }
            assert(all.take(k as int).drop_last() =~= all.take(k - 1));
            k -= 1;
        }
        None
    }

    /// Hands the engine's state over, with the globals set in it, to have
    /// host libraries added and the script loaded and run.
    pub fn into_interpreter(self) -> (r: mlua::Lua)
        ensures
            r == self.state(),
    {
        self.lua
    }
}

} // verus!
