use bp3d_build::args::Args as BuildArgs;
use bp3d_build::finder::{Finder, LibType, Listing, Platform};
use bp3d_build::manifest::{PackageInfo, PackageManifest, Product};
use bp3d_build::manifest_ext::{Error as ManifestError, ManifestExtension};
use bp3d_build::packager::args::Args;
use bp3d_build::packager::framework::{ensure, platforms, targets_mac, Error, Framework};
use bp3d_build::packager::interface::{
    build_target_command, phases, Config, Context, Package, PackageType, Phase,
};
use bp3d_build::output::Output;

fn manifest() -> PackageManifest {
    PackageManifest::new(
        Some(PackageInfo { name: "engine".to_string(), version: Some("1.2.3-beta".to_string()) }),
        vec![Product { name: Some("tool".to_string()) }],
        Some(Product { name: None }),
        None,
    )
    .unwrap()
}

fn strings(names: &[&str]) -> Vec<String> {
    names.iter().map(|n| n.to_string()).collect()
}

fn framework(includes: Option<&str>, umbrella: Option<&str>) -> Framework {
    Framework::new(
        "Engine".to_string(),
        "com.example.engine".to_string(),
        includes.map(|s| s.to_string()),
        umbrella.map(|s| s.to_string()),
    )
}

#[test]
fn packaging_target_path_has_triple_and_configuration() {
    let c = Context {
        root: "pkg".to_string(),
        package: manifest(),
        config: Config::Debug,
        targets: strings(&["aarch64-apple-ios"]),
    };
    assert_eq!(c.get_target_path("aarch64-apple-ios"), "pkg/target/aarch64-apple-ios/debug");
    let c = Context { config: Config::Release, root: "./".to_string(), ..c };
    assert_eq!(c.get_target_path("t"), "./target/t/release");
}

#[test]
fn package_is_read_through_the_interface() {
    let m = manifest();
    assert_eq!(Package::get_name(&m), "engine");
    assert_eq!(Package::get_version(&m), "1.2.3-beta");
    assert_eq!(
        Package::get_outputs(&m),
        vec![Output::Bin("tool".to_string()), Output::Lib("engine".to_string())]
    );
}

#[test]
fn finder_over_a_packaging_context() {
    let c = Context {
        root: "pkg".to_string(),
        package: manifest(),
        config: Config::Release,
        targets: strings(&["t"]),
    };
    let mut listing = Listing::new();
    listing.insert("libengine.a".to_string());
    let finder = Finder::new(&c, "t", Platform::Posix, &listing);
    let r = finder.find_first(LibType::Static, |o: &Output| o.is_lib());
    assert_eq!(r.path, Some("pkg/target/t/release/libengine.a".to_string()));
    assert_eq!(finder.get_path("libengine.a"), Some("pkg/target/t/release/libengine.a".to_string()));
}

#[test]
fn packaging_phases_come_in_order() {
    assert_eq!(
        phases(&strings(&["a", "b"])),
        vec![
            Phase::BuildTarget("a".to_string()),
            Phase::BuildTarget("b".to_string()),
            Phase::Build,
            Phase::PackageTarget("a".to_string()),
            Phase::PackageTarget("b".to_string()),
            Phase::Package,
        ]
    );
    assert_eq!(phases(&Vec::new()), vec![Phase::Build, Phase::Package]);
    assert_eq!(Phase::BuildTarget("a".to_string()).failure_message(), "Failed to build target");
    assert_eq!(Phase::Build.failure_message(), "Failed to run post-build phase");
    assert_eq!(Phase::PackageTarget("a".to_string()).failure_message(), "Failed to package target");
    assert_eq!(Phase::Package.failure_message(), "Failed to generate full package");
    assert_eq!(PackageType::Framework.name(), "Framework");
}

#[test]
fn target_build_command_names_the_triple() {
    let cmd = build_target_command("aarch64-apple-ios", "pkg");
    assert_eq!(cmd.exe, "cargo");
    assert_eq!(cmd.args, Some(strings(&["build", "--target", "aarch64-apple-ios"])));
    assert_eq!(cmd.env, None);
    assert_eq!(cmd.working_directory, Some("pkg".to_string()));
}

#[test]
fn packaging_arguments_default_to_the_host_and_the_current_directory() {
    let args = Args {
        target_list: Vec::new(),
        release: false,
        package_type: PackageType::Framework,
        root: None,
    };
    let c = args.context_on(manifest(), "x86_64-apple-darwin");
    assert_eq!(c.root, "./");
    assert_eq!(c.config, Config::Debug);
    assert_eq!(c.targets, strings(&["x86_64-apple-darwin"]));
    let args = Args {
        target_list: strings(&["a", "b"]),
        release: true,
        package_type: PackageType::Framework,
        root: Some("pkg".to_string()),
    };
    let c = args.context(manifest());
    assert_eq!(c.root, "pkg");
    assert_eq!(c.config, Config::Release);
    assert_eq!(c.targets, strings(&["a", "b"]));
    let args = Args {
        target_list: Vec::new(),
        release: true,
        package_type: PackageType::Framework,
        root: None,
    };
    assert_eq!(args.context(manifest()).targets.len(), 1);
}

#[test]
fn build_arguments_become_the_context() {
    let args = BuildArgs {
        target: Some("t".to_string()),
        features: strings(&["a"]),
        release: true,
        all_features: false,
        root: None,
    };
    let c = args.context();
    assert_eq!(c.root, "./");
    assert_eq!(c.target, Some("t".to_string()));
    assert!(c.release);
    assert!(!c.all_features);
    assert_eq!(c.features, strings(&["a"]));
    let args = BuildArgs {
        target: None,
        features: Vec::new(),
        release: false,
        all_features: true,
        root: Some("ws".to_string()),
    };
    let c = args.context();
    assert_eq!(c.root, "ws");
    assert_eq!(c.target, None);
    assert!(c.all_features);
}

#[test]
fn mac_bundle_is_versioned_and_ios_bundle_is_flat() {
    let f = framework(None, None);
    assert!(targets_mac("x86_64-apple-darwin"));
    assert!(!targets_mac("aarch64-apple-ios"));
    let mac = f.layout("t/debug", "x86_64-apple-darwin");
    assert_eq!(mac.framework_dir, "t/debug/Engine.framework");
    assert_eq!(mac.bin_dir, "t/debug/Engine.framework/Versions/A/");
    assert_eq!(mac.res_dir, "t/debug/Engine.framework/Versions/A/Resources");
    assert_eq!(mac.module_dir, "t/debug/Engine.framework/Versions/A/Modules");
    let ios = f.layout("t/debug", "aarch64-apple-ios");
    assert_eq!(ios.framework_dir, "t/debug/Engine.framework");
    assert_eq!(ios.bin_dir, "t/debug/Engine.framework/");
    assert_eq!(ios.res_dir, "t/debug/Engine.framework/");
    assert_eq!(ios.module_dir, "t/debug/Engine.framework/Modules");
}

#[test]
fn mac_bundle_links_the_current_version() {
    let f = framework(Some("include"), None);
    let layout = f.layout("t", "x86_64-apple-darwin");
    let pair = |a: &str, b: &str| (a.to_string(), b.to_string());
    assert_eq!(
        f.links(&layout, "x86_64-apple-darwin"),
        vec![
            pair("A", "t/Engine.framework/Versions/Current"),
            pair("Versions/Current/Engine", "t/Engine.framework/Engine"),
            pair("Versions/Current/Resources", "t/Engine.framework/Resources"),
            pair("Versions/Current/Modules", "t/Engine.framework/Modules"),
            pair("Versions/Current/Headers", "t/Engine.framework/Headers"),
        ]
    );
    assert_eq!(framework(None, None).links(&layout, "x86_64-apple-darwin").len(), 4);
    assert!(f.links(&layout, "aarch64-apple-ios").is_empty());
    assert_eq!(f.headers(), Some("include"));
    assert_eq!(framework(None, None).headers(), None);
}

#[test]
fn bundle_texts_are_exact() {
    let f = framework(Some("include"), None);
    assert_eq!(f.install_name(), "@rpath/Engine.framework/Engine");
    assert_eq!(f.umbrella_header(), "Engine.h");
    assert_eq!(framework(None, Some("All.h")).umbrella_header(), "All.h");
    assert_eq!(
        f.module_map(),
        "framework module Engine {\n    umbrella header \"Engine.h\"\n\n    export *\n    module * {\n        export *\n    }\n}\n\n"
    );
    assert_eq!(platforms("x86_64-apple-darwin"), "<string>MacOSX</string>");
    assert_eq!(
        platforms("aarch64-apple-ios"),
        "<string>iPhoneOS</string>\n        <string>iPadOS</string>"
    );
    let plist = f.info_plist("21G72", "1.2.3", platforms("x86_64-apple-darwin"));
    let expected = format!(
        "<?xml version=\"1.0\" encoding=\"UTF-8\"?>
<!DOCTYPE plist PUBLIC \"-//Apple//DTD PLIST 1.0//EN\" \"http://www.apple.com/DTDs/PropertyList-1.0.dtd\">
<plist version=\"1.0\">
<dict>
    <key>BuildMachineOSBuild</key>
    <string>{}</string>
    <key>CFBundleDevelopmentRegion</key>
    <string>en</string>
    <key>CFBundleExecutable</key>
    <string>{}</string>
    <key>CFBundleIdentifier</key>
    <string>{}</string>
    <key>CFBundleInfoDictionaryVersion</key>
    <string>6.0</string>
    <key>CFBundleName</key>
    <string>{}</string>
    <key>CFBundlePackageType</key>
    <string>FMWK</string>
    <key>CFBundleShortVersionString</key>
    <string>{}</string>
    <key>CFBundleSupportedPlatforms</key>
    <array>
        {}
    </array>
    <key>CFBundleVersion</key>
    <string>{}</string>
    <key>MinimumOSVersion</key>
    <string>11.0</string>
    <key>UIDeviceFamily</key>
    <array>
        <integer>1</integer>
        <integer>2</integer>
    </array>
</dict>
</plist>
",
        "21G72", "Engine", "com.example.engine", "Engine", "1.2.3", "<string>MacOSX</string>", "1.2.3"
    );
    assert_eq!(plist, expected);
}

#[test]
fn bundle_commands_are_exact() {
    let f = framework(None, None);
    let layout = f.layout("t", "aarch64-apple-ios");
    let lipo = f.lipo_command(&layout, "t/libengine.dylib");
    assert_eq!(lipo.exe, "lipo");
    assert_eq!(
        lipo.args,
        Some(strings(&["-create", "t/libengine.dylib", "-output", "t/Engine.framework/Engine"]))
    );
    assert_eq!(lipo.working_directory, None);
    let install = f.install_name_command(&layout);
    assert_eq!(install.exe, "install_name_tool");
    assert_eq!(install.args, Some(strings(&["-id", "@rpath/Engine.framework/Engine", "Engine"])));
    assert_eq!(install.working_directory, Some("t/Engine.framework/".to_string()));
    assert_eq!(f.package_path("pkg"), "pkg/target/Engine.xcframework");
    let package = f.package_command(&strings(&["a/Engine.framework", "b/Engine.framework"]), "out");
    assert_eq!(package.exe, "xcrun");
    assert_eq!(
        package.args,
        Some(strings(&[
            "xcodebuild",
            "-create-xcframework",
            "-framework",
            "a/Engine.framework",
            "-framework",
            "b/Engine.framework",
            "-output",
            "out",
        ]))
    );
    assert_eq!(
        f.package_command(&Vec::new(), "out").args,
        Some(strings(&["xcodebuild", "-create-xcframework", "-output", "out"]))
    );
}

#[test]
fn packager_errors_read_as_in_the_tools() {
    assert_eq!(Error::Io("denied".to_string()).message(), "io error: denied");
    assert_eq!(Error::Lipo.message(), "failed to run lipo tool");
    assert_eq!(Error::InstallNameTool.message(), "failed to run install_name_tool");
    assert_eq!(Error::CreateXcFramework.message(), "failed to generate combined XCFramework package");
    assert_eq!(ensure(true, Error::Lipo), Ok(()));
    assert_eq!(ensure(false, Error::Lipo), Err(Error::Lipo));
    assert_eq!(ManifestError::Io("gone".to_string()).message(), "io error: gone");
    assert_eq!(ManifestError::Toml("bad".to_string()).message(), "toml error: bad");
    assert_eq!(ManifestExtension::new(7u32).into_value(), 7);
}
