use bp3d_build::builder::cargo::{compile_result, list_outputs, Cargo, Error as CargoError};
use bp3d_build::builder::interface::{
    dynlib_extension_for, exe_extension_for, staticlib_extension_for, Context, Module,
};
use bp3d_build::builder::lua::{is_script_extension, LuaBuilder};
use bp3d_build::builder::util::BuilderType;
use bp3d_build::lua::engine::{Error as ScriptError, Global, ScriptValue};
use bp3d_build::lua::lib_command::CommandInfo;
use bp3d_build::manifest::{PackageInfo, PackageManifest, Product};
use bp3d_build::model::Member;
use bp3d_build::orchestrator::BuildStep;
use bp3d_build::output::{Output, OutputList};

fn context(target: Option<&str>, release: bool, all_features: bool, features: &[&str]) -> Context {
    Context {
        root: "ws".to_string(),
        target: target.map(|t| t.to_string()),
        release,
        all_features,
        features: features.iter().map(|f| f.to_string()).collect(),
    }
}

fn module(path: &str) -> Module {
    Module { name: "m".to_string(), path: path.to_string() }
}

fn package(name: &str, bins: &[Option<&str>], lib: Option<Option<&str>>) -> PackageManifest {
    PackageManifest::new(
        Some(PackageInfo { name: name.to_string(), version: Some("0.1.0".to_string()) }),
        bins.iter().map(|b| Product { name: b.map(|n| n.to_string()) }).collect(),
        lib.map(|l| Product { name: l.map(|n| n.to_string()) }),
        None,
    )
    .unwrap()
}

fn strings(names: &[&str]) -> Vec<String> {
    names.iter().map(|n| n.to_string()).collect()
}

#[test]
fn context_target_is_the_one_asked_for() {
    let c = context(Some("aarch64-apple-ios"), false, false, &[]);
    assert_eq!(c.target(), "aarch64-apple-ios");
    assert_eq!(c.target_or("host"), "aarch64-apple-ios");
}

#[test]
fn context_target_defaults_to_the_host() {
    let c = context(None, false, false, &[]);
    assert_eq!(c.target_or("x86_64-unknown-linux-gnu"), "x86_64-unknown-linux-gnu");
    assert_eq!(c.target(), c.target_or(c.target()));
}

#[test]
fn library_and_executable_extensions_follow_the_triple() {
    assert_eq!(dynlib_extension_for("aarch64-apple-darwin"), ".dylib");
    assert_eq!(dynlib_extension_for("x86_64-pc-windows-msvc"), ".dll");
    assert_eq!(dynlib_extension_for("x86_64-unknown-linux-gnu"), ".so");
    assert_eq!(dynlib_extension_for("apple-windows"), ".dylib");
    assert_eq!(staticlib_extension_for("x86_64-pc-windows-gnu"), ".lib");
    assert_eq!(staticlib_extension_for("aarch64-apple-darwin"), ".a");
    assert_eq!(exe_extension_for("x86_64-pc-windows-msvc"), ".exe");
    assert_eq!(exe_extension_for("x86_64-unknown-linux-gnu"), "");
    let c = context(Some("x86_64-pc-windows-msvc"), false, false, &[]);
    assert_eq!(c.get_dynlib_extension(), ".dll");
    assert_eq!(c.get_staticlib_extension(), ".lib");
    assert_eq!(c.get_exe_extension(), ".exe");
}

#[test]
fn target_directory_has_triple_only_when_asked_for() {
    assert_eq!(context(None, false, false, &[]).target_dir_under("ws"), "ws/target/debug");
    assert_eq!(context(None, true, false, &[]).target_dir_under("ws"), "ws/target/release");
    assert_eq!(
        context(Some("armv7"), true, false, &[]).target_dir_under("ws/m"),
        "ws/m/target/armv7/release"
    );
    assert_eq!(context(Some("armv7"), false, false, &[]).target_dir_under("./"), "./target/armv7/debug");
}

#[test]
fn registry_maps_tags_to_backends() {
    assert_eq!(BuilderType::from_tag("cargo"), Some(BuilderType::Cargo));
    assert_eq!(BuilderType::from_tag("lua"), Some(BuilderType::Lua));
    assert_eq!(BuilderType::from_tag("Cargo"), None);
    assert_eq!(BuilderType::from_tag("make"), None);
    assert_eq!(BuilderType::from_tag(""), None);
    for ty in [BuilderType::Cargo, BuilderType::Lua] {
        assert_eq!(BuilderType::from_tag(ty.tag()), Some(ty));
    }
    assert_eq!(BuilderType::Cargo.name(), "Cargo");
    assert_eq!(BuilderType::Lua.name(), "Lua");
}

#[test]
fn member_path_defaults_to_its_name() {
    let c = context(None, false, false, &[]);
    let m = Member { name: "engine".to_string(), ty: BuilderType::Cargo, path: None };
    let module = m.module(&c);
    assert_eq!(module.name, "engine");
    assert_eq!(module.path, "ws/engine");
    let m = Member {
        name: "engine".to_string(),
        ty: BuilderType::Lua,
        path: Some("native/engine.lua".to_string()),
    };
    assert_eq!(m.module(&c).path, "ws/native/engine.lua");
}

#[test]
fn workspace_of_two_packages_reports_both_in_either_order() {
    let a = || package("A", &[Some("a")], None);
    let b = || package("B", &[], Some(Some("b")));
    let c = context(None, false, false, &[]);
    let m = module("ws/m");
    let forward = Cargo::new(b(), vec![a()]).list_outputs(&c, &m);
    assert_eq!(forward.as_ref(), &vec![Output::Bin("a".to_string()), Output::Lib("b".to_string())]);
    let backward = Cargo::new(a(), vec![b()]).list_outputs(&c, &m);
    assert_eq!(backward.as_ref(), &vec![Output::Lib("b".to_string()), Output::Bin("a".to_string())]);
    let mut x: Vec<String> = forward.as_ref().iter().map(|o| format!("{:?}", o)).collect();
    let mut y: Vec<String> = backward.as_ref().iter().map(|o| format!("{:?}", o)).collect();
    x.sort();
    y.sort();
    assert_eq!(x, y);
}

#[test]
fn targets_without_a_name_go_by_the_package_name() {
    let p = package("pkg", &[None, Some("tool")], Some(None));
    assert_eq!(
        p.get_outputs(),
        vec![
            Output::Bin("pkg".to_string()),
            Output::Bin("tool".to_string()),
            Output::Lib("pkg".to_string()),
        ]
    );
    assert_eq!(p.get_name(), "pkg");
    assert_eq!(p.get_version(), "0.1.0");
    assert!(p.has_package());
}

#[test]
fn manifest_without_package_needs_named_targets() {
    assert!(PackageManifest::new(None, vec![Product { name: None }], None, None).is_none());
    assert!(PackageManifest::new(None, vec![], Some(Product { name: None }), None).is_none());
    let named = PackageManifest::new(
        None,
        vec![Product { name: Some("t".to_string()) }],
        Some(Product { name: Some("l".to_string()) }),
        Some(vec!["a".to_string()]),
    )
    .unwrap();
    assert!(!named.has_package());
    assert_eq!(named.get_outputs(), vec![Output::Bin("t".to_string()), Output::Lib("l".to_string())]);
    assert_eq!(named.workspace_members(), Some(&vec!["a".to_string()]));
    let virtual_root = PackageManifest::new(None, vec![], None, Some(vec![])).unwrap();
    assert!(virtual_root.get_outputs().is_empty());
}

#[test]
fn cargo_lists_the_build_directory_once_per_manifest() {
    let c = context(Some("armv7"), true, false, &[]);
    let m = module("ws/m");
    let cargo = Cargo::new(package("root", &[], None), vec![package("x", &[None], None)]);
    let list = cargo.list_outputs(&c, &m);
    let entries = list.iter();
    assert_eq!(entries.len(), 2);
    assert_eq!(entries[0].path, "ws/m/target/armv7/release");
    assert_eq!(entries[1].path, "ws/m/target/armv7/release");
    assert_eq!(list.as_ref(), &vec![Output::Bin("x".to_string())]);
}

#[test]
fn list_outputs_appends_to_what_is_there() {
    let c = context(None, false, false, &[]);
    let m = module("ws/m");
    let mut list = OutputList::new();
    list.add_other("first".to_string());
    list_outputs(&package("p", &[Some("b")], Some(None)), &c, &m, &mut list);
    assert_eq!(
        list.as_ref(),
        &vec![
            Output::Other("first".to_string()),
            Output::Bin("b".to_string()),
            Output::Lib("p".to_string()),
        ]
    );
    assert_eq!(list.iter()[0].path, "ws/m/target/debug");
}

#[test]
fn cargo_loads_member_manifests_before_its_own() {
    let m = module("ws/m");
    assert_eq!(Cargo::manifest_path("ws/m"), "ws/m/Cargo.toml");
    let root = PackageManifest::new(
        None,
        vec![],
        None,
        Some(vec!["a".to_string(), "crates/b".to_string()]),
    )
    .unwrap();
    assert_eq!(
        Cargo::member_manifest_paths(&m, &root),
        strings(&["ws/m/a/Cargo.toml", "ws/m/crates/b/Cargo.toml"])
    );
    assert!(Cargo::member_manifest_paths(&m, &package("p", &[], None)).is_empty());
}

#[test]
fn cargo_build_command_follows_the_context() {
    let cargo = Cargo::new(package("p", &[], None), vec![]);
    let m = module("ws/m");
    let cmd = |c: &Context| -> CommandInfo { cargo.build_command(c, &m) };
    let plain = cmd(&context(None, false, false, &[]));
    assert_eq!(plain.exe, "cargo");
    assert_eq!(plain.args, Some(strings(&["build"])));
    assert_eq!(plain.env, None);
    assert_eq!(plain.working_directory, Some("ws/m".to_string()));
    assert_eq!(
        cmd(&context(Some("armv7"), true, false, &["a", "b"])).args,
        Some(strings(&["build", "--release", "--features", "a", "b", "--target", "armv7"]))
    );
    assert_eq!(
        cmd(&context(None, false, true, &["a"])).args,
        Some(strings(&["build", "--all-features"]))
    );
    assert_eq!(
        cmd(&context(Some("t"), false, true, &[])).args,
        Some(strings(&["build", "--all-features", "--target", "t"]))
    );
}

#[test]
fn backend_errors_read_as_cause_after_kind() {
    assert_eq!(CargoError::Io("denied".to_string()).message(), "io error: denied");
    assert_eq!(CargoError::Cargo("bad".to_string()).message(), "cargo manifest error: bad");
    assert_eq!(CargoError::Build.message(), "cargo build failed");
    assert_eq!(ScriptError::new("syntax error".to_string()).message(), "syntax error");
}

#[test]
fn script_is_the_module_path_or_the_conventional_file() {
    assert_eq!(LuaBuilder::script_path(&module("ws/m")), "ws/m/bp3d-make.lua");
    assert_eq!(LuaBuilder::script_path(&module("ws/m/build.lua")), "ws/m/build.lua");
    assert_eq!(LuaBuilder::script_path(&module("ws/m/build.LUA")), "ws/m/build.LUA");
    assert_eq!(LuaBuilder::script_path(&module("ws/m/Build.Lua")), "ws/m/Build.Lua");
    assert_eq!(LuaBuilder::script_path(&module("ws/m/.lua")), "ws/m/.lua/bp3d-make.lua");
    assert_eq!(LuaBuilder::script_path(&module("ws/m.lua/x")), "ws/m.lua/x/bp3d-make.lua");
    assert_eq!(LuaBuilder::script_path(&module("ws/m/build.luau")), "ws/m/build.luau/bp3d-make.lua");
    assert!(is_script_extension("lua"));
    assert!(!is_script_extension("LUA"));
    assert!(!is_script_extension(""));
}

#[test]
fn script_entry_points_match_the_steps() {
    assert_eq!(LuaBuilder::entry_point(BuildStep::Configure), "doConfigure");
    assert_eq!(LuaBuilder::entry_point(BuildStep::Compile), "doCompile");
    assert_eq!(LuaBuilder::entry_point(BuildStep::ListOutputs), "listOutputs");
}

#[test]
fn enabled_feature_is_exposed_as_flag_and_in_the_list() {
    let c = context(Some("t"), false, false, &["foo"]);
    let lua = LuaBuilder::configure_for(&c, &module("ws/m"), "t").unwrap();
    let engine = lua.engine();
    assert_eq!(engine.get("BP3D_MAKE_FEATURE_FOO"), Some(&ScriptValue::Bool(true)));
    assert_eq!(engine.get("FEATURES"), Some(&ScriptValue::List(strings(&["foo"]))));
    assert_eq!(engine.get("FEATURE_ALL"), Some(&ScriptValue::Bool(false)));
    assert_eq!(engine.get("BP3D_MAKE_FEATURE_foo"), None);
    assert_eq!(lua.script(), "ws/m/bp3d-make.lua");
}

#[test]
fn script_environment_is_set_in_a_fixed_order() {
    let c = context(Some("armv7"), true, true, &["a", "b-c"]);
    let lua = LuaBuilder::do_configure(&c, &module("ws/m")).unwrap();
    let g = |name: &str, value: ScriptValue| Global { name: name.to_string(), value };
    assert_eq!(
        lua.engine().globals(),
        &vec![
            g("BP3D_MAKE_FEATURE_A", ScriptValue::Bool(true)),
            g("BP3D_MAKE_FEATURE_B-C", ScriptValue::Bool(true)),
            g("FEATURES", ScriptValue::List(strings(&["a", "b-c"]))),
            g("RELEASE", ScriptValue::Bool(true)),
            g("TARGET", ScriptValue::Text("armv7".to_string())),
            g("FEATURE_ALL", ScriptValue::Bool(true)),
            g("FEATURES", ScriptValue::List(strings(&["all"]))),
        ]
    );
    assert_eq!(lua.engine().get("FEATURES"), Some(&ScriptValue::List(strings(&["all"]))));
    assert_eq!(lua.engine().get("TARGET"), Some(&ScriptValue::Text("armv7".to_string())));
}

#[test]
fn script_target_defaults_to_the_host() {
    let c = context(None, false, false, &[]);
    let lua = LuaBuilder::do_configure(&c, &module("ws/m")).unwrap();
    assert_eq!(
        lua.engine().get("TARGET"),
        Some(&ScriptValue::Text(c.target().to_string()))
    );
    assert_eq!(lua.engine().get("RELEASE"), Some(&ScriptValue::Bool(false)));
    assert_eq!(lua.engine().get("FEATURES"), Some(&ScriptValue::List(vec![])));
}

#[test]
fn configured_interpreter_holds_the_globals() {
    let c = context(Some("armv7"), true, false, &["foo", "b-c"]);
    let lua = LuaBuilder::configure_for(&c, &module("ws/m/build.lua"), "armv7").unwrap();
    let (engine, script) = lua.into_parts();
    assert_eq!(script, "ws/m/build.lua");
    let state = engine.into_interpreter();
    let globals = state.globals();
    assert!(globals.get::<_, bool>("BP3D_MAKE_FEATURE_FOO").unwrap());
    assert!(globals.get::<_, bool>("BP3D_MAKE_FEATURE_B-C").unwrap());
    assert!(globals.get::<_, bool>("RELEASE").unwrap());
    assert!(!globals.get::<_, bool>("FEATURE_ALL").unwrap());
    assert_eq!(globals.get::<_, String>("TARGET").unwrap(), "armv7");
    assert_eq!(globals.get::<_, Vec<String>>("FEATURES").unwrap(), strings(&["foo", "b-c"]));
    assert_eq!(globals.get::<_, Option<bool>>("BP3D_MAKE_FEATURE_foo").unwrap(), None);
    let seen: bool = state
        .load("return BP3D_MAKE_FEATURE_FOO and FEATURES[1] == 'foo' and #FEATURES == 2")
        .eval()
        .unwrap();
    assert!(seen);
}

#[test]
fn all_features_shows_in_the_interpreter_as_the_single_entry() {
    let c = context(None, false, true, &["foo"]);
    let state = LuaBuilder::do_configure(&c, &module("ws/m")).unwrap().into_parts().0.into_interpreter();
    let globals = state.globals();
    assert!(globals.get::<_, bool>("FEATURE_ALL").unwrap());
    assert!(!globals.get::<_, bool>("RELEASE").unwrap());
    assert_eq!(globals.get::<_, Vec<String>>("FEATURES").unwrap(), strings(&["all"]));
    assert_eq!(globals.get::<_, String>("TARGET").unwrap(), c.target());
}

#[test]
fn failed_build_command_fails_the_compile_step() {
    assert_eq!(compile_result(true), Ok(()));
    assert_eq!(compile_result(false), Err(CargoError::Build));
}

#[test]
fn version_may_be_absent() {
    let p = PackageManifest::new(
        Some(PackageInfo { name: "p".to_string(), version: None }),
        vec![],
        None,
        None,
    )
    .unwrap();
    assert!(p.has_package());
    assert!(!p.has_version());
    assert_eq!(p.get_name(), "p");
    assert!(package("q", &[], None).has_version());
    assert!(!PackageManifest::new(None, vec![], None, None).unwrap().has_version());
}
