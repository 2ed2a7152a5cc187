//! The framework packager: how a library is laid out as a framework bundle
//! for macOS and iOS, and the texts and commands that go with it.

use vstd::prelude::*;
use vstd::string::*;
use crate::lua::lib_command::{CommandInfo, CommandModel};
use crate::output::{lemma_texts_push, texts};
use crate::path::{join, joined};
use crate::text::{affixed, contains_text, has_substring, prefixed_with};

verus! {

/// The bundle to make of a package.
pub struct Framework {
    name: String,
    identifier: String,
    includes: Option<String>,
    umbrella: Option<String>,
}

/// The directories of one bundle.
pub struct Layout {
    /// The bundle itself.
    pub framework_dir: String,
    /// Where the library goes.
    pub bin_dir: String,
    /// Where the property list goes.
    pub res_dir: String,
    /// Where the module map goes.
    pub module_dir: String,
}

/// What a `Layout` stands for in contracts.
pub struct LayoutModel {
    pub framework_dir: Seq<char>,
    pub bin_dir: Seq<char>,
    pub res_dir: Seq<char>,
    pub module_dir: Seq<char>,
}

impl View for Layout {
    type V = LayoutModel;

    open spec fn view(&self) -> LayoutModel {
        LayoutModel {
            framework_dir: self.framework_dir@,
            bin_dir: self.bin_dir@,
            res_dir: self.res_dir@,
            module_dir: self.module_dir@,
        }
    }
}

/// Whether a triple names a macOS target. A bundle for macOS is versioned,
/// one for iOS is flat.
pub open spec fn is_mac(target: Seq<char>) -> bool {
    has_substring(target, "darwin"@)
}

/// The directories of the bundle for `target` under `base`.
pub open spec fn layout_of(name: Seq<char>, base: Seq<char>, target: Seq<char>) -> LayoutModel {
    if is_mac(target) {
        LayoutModel {
            framework_dir: joined(base, name + ".framework"@),
            bin_dir: joined(base, name + ".framework/Versions/A/"@),
            res_dir: joined(base, name + ".framework/Versions/A/Resources"@),
            module_dir: joined(base, name + ".framework/Versions/A/Modules"@),
        }
    } else {
        LayoutModel {
            framework_dir: joined(base, name + ".framework"@),
            bin_dir: joined(base, name + ".framework/"@),
            res_dir: joined(base, name + ".framework/"@),
            module_dir: joined(base, name + ".framework/Modules"@),
        }
    }
}

/// The name under which the bundle's library is found at run time.
pub open spec fn install_name_of(name: Seq<char>) -> Seq<char> {
    "@rpath/"@ + name + ".framework/"@ + name
}

/// The umbrella header: the one that was named, or else the bundle's name
/// with `.h`.
pub open spec fn umbrella_of(name: Seq<char>, umbrella: Option<Seq<char>>) -> Seq<char> {
    match umbrella {
        Some(u) => u,
        None => name + ".h"@,
    }
}

/// The module map of the bundle.
pub open spec fn module_map_of(name: Seq<char>, umbrella: Seq<char>) -> Seq<char> {
    "framework module "@ + name + " {\n    umbrella header \""@ + umbrella
        + "\"\n\n    export *\n    module * {\n        export *\n    }\n}\n\n"@
}

/// The platforms that a bundle for `target` supports, as property-list
/// entries.
pub open spec fn platforms_of(target: Seq<char>) -> Seq<char> {
    if is_mac(target) {
        "<string>MacOSX</string>"@
    } else {
        "<string>iPhoneOS</string>\n        <string>iPadOS</string>"@
    }
}

/// The property list of the bundle.
pub open spec fn info_plist_of(
    build_number: Seq<char>,
    name: Seq<char>,
    identifier: Seq<char>,
    version: Seq<char>,
    platforms: Seq<char>,
) -> Seq<char> {
    "<?xml version=\"1.0\" encoding=\"UTF-8\"?>\n<!DOCTYPE plist PUBLIC \"-//Apple//DTD PLIST 1.0//EN\" \"http://www.apple.com/DTDs/PropertyList-1.0.dtd\">\n<plist version=\"1.0\">\n<dict>\n    <key>BuildMachineOSBuild</key>\n    <string>"@ + build_number
        + "</string>\n    <key>CFBundleDevelopmentRegion</key>\n    <string>en</string>\n    <key>CFBundleExecutable</key>\n    <string>"@ + name
        + "</string>\n    <key>CFBundleIdentifier</key>\n    <string>"@ + identifier
        + "</string>\n    <key>CFBundleInfoDictionaryVersion</key>\n    <string>6.0</string>\n    <key>CFBundleName</key>\n    <string>"@ + name
        + "</string>\n    <key>CFBundlePackageType</key>\n    <string>FMWK</string>\n    <key>CFBundleShortVersionString</key>\n    <string>"@ + version
        + "</string>\n    <key>CFBundleSupportedPlatforms</key>\n    <array>\n        "@ + platforms
        + "\n    </array>\n    <key>CFBundleVersion</key>\n    <string>"@ + version
        + "</string>\n    <key>MinimumOSVersion</key>\n    <string>11.0</string>\n    <key>UIDeviceFamily</key>\n    <array>\n        <integer>1</integer>\n        <integer>2</integer>\n    </array>\n</dict>\n</plist>\n"@
}

/// The links that make the current version of a bundle for macOS visible
/// at the bundle's top: each is the text of a link and the place where it
/// goes. A flat bundle has none.
pub open spec fn links_of(
    name: Seq<char>,
    framework_dir: Seq<char>,
    target: Seq<char>,
    with_headers: bool,
) -> Seq<(Seq<char>, Seq<char>)> {
    if is_mac(target) {
        seq![
            ("A"@, joined(framework_dir, "Versions/Current"@)),
            ("Versions/Current/"@ + name, joined(framework_dir, name)),
            ("Versions/Current/Resources"@, joined(framework_dir, "Resources"@)),
            ("Versions/Current/Modules"@, joined(framework_dir, "Modules"@)),
        ] + (if with_headers {
            seq![("Versions/Current/Headers"@, joined(framework_dir, "Headers"@))]
        } else {
            seq![]
        })
    } else {
        seq![]
    }
}

/// `-framework` before every bundle, in the order of the bundles.
pub open spec fn bundle_flags(bundles: Seq<Seq<char>>) -> Seq<Seq<char>> {
    Seq::new(
        2 * bundles.len(),
        |i: int|
            if i % 2 == 0 {
                "-framework"@
            } else {
                bundles[i / 2]
            },
    )
}

/// The arguments that put `bundles` together into the package at `output`.
pub open spec fn package_args(bundles: Seq<Seq<char>>, output: Seq<char>) -> Seq<Seq<char>> {
    seq!["xcodebuild"@, "-create-xcframework"@] + bundle_flags(bundles) + seq!["-output"@, output]
}

/// Whether a triple names a macOS target.
pub fn targets_mac(target: &str) -> (r: bool)
    ensures
        r == is_mac(target@),
{
    contains_text(target, "darwin")
}

/// The platforms that a bundle for `target` supports, as property-list
/// entries.
pub fn platforms(target: &str) -> (r: &'static str)
    ensures
        r@ == platforms_of(target@),
{
    if targets_mac(target) {
        "<string>MacOSX</string>"
    } else {
        "<string>iPhoneOS</string>\n        <string>iPadOS</string>"
    }
}

impl Framework {
    pub closed spec fn name(&self) -> Seq<char> {
        self.name@
    }

    pub closed spec fn identifier(&self) -> Seq<char> {
        self.identifier@
    }

    /// The directory of headers to bundle, if there is one.
    pub closed spec fn includes(&self) -> Option<Seq<char>> {
        match self.includes {
            Some(i) => Some(i@),
            None => None,
        }
    }

    pub closed spec fn umbrella(&self) -> Option<Seq<char>> {
        match self.umbrella {
            Some(u) => Some(u@),
            None => None,
        }
    }

    /// The bundle called `name`.
    pub fn new(
        name: String,
        identifier: String,
        includes: Option<String>,
        umbrella: Option<String>,
    ) -> (r: Self)
        ensures
            r.name() == name@,
            r.identifier() == identifier@,
            r.includes() == (match includes {
                Some(i) => Some(i@),
                None => None,
            }),
            r.umbrella() == (match umbrella {
                Some(u) => Some(u@),
                None => None,
            }),
    {
        Framework { name, identifier, includes, umbrella }
    }

    /// The directory of headers to bundle, if there is one.
    pub fn headers(&self) -> (r: Option<&str>)
        ensures
            match r {
                Some(i) => self.includes() == Some(i@),
                None => self.includes() is None,
            },
    {
        match &self.includes {
            Some(i) => Some(i.as_str()),
            None => None,
        }
    }

    /// The directories of the bundle for `target`, under the directory
    /// `base` that holds what was built for it.
    pub fn layout(&self, base: &str, target: &str) -> (r: Layout)
        ensures
            r@ == layout_of(self.name(), base@, target@),
    {
        let name = self.name.as_str();
        let framework_dir = join(base, prefixed_with(name, ".framework").as_str());
        if targets_mac(target) {
            Layout {
                framework_dir,
                bin_dir: join(base, prefixed_with(name, ".framework/Versions/A/").as_str()),
                res_dir: join(base, prefixed_with(name, ".framework/Versions/A/Resources").as_str()),
                module_dir: join(base, prefixed_with(name, ".framework/Versions/A/Modules").as_str()),
            }
        } else {
            Layout {
                framework_dir,
                bin_dir: join(base, prefixed_with(name, ".framework/").as_str()),
                res_dir: join(base, prefixed_with(name, ".framework/").as_str()),
                module_dir: join(base, prefixed_with(name, ".framework/Modules").as_str()),
            }
        }
    }

    /// The name under which the bundle's library is found at run time.
    pub fn install_name(&self) -> (r: String)
        ensures
            r@ == install_name_of(self.name()),
    {
        let mut s = affixed("@rpath/", self.name.as_str(), ".framework/");
        s.append(self.name.as_str());
        s
    }

    /// The name of the umbrella header.
    pub fn umbrella_header(&self) -> (r: String)
        ensures
            r@ == umbrella_of(self.name(), self.umbrella()),
    {
        match &self.umbrella {
            Some(u) => u.clone(),
            None => prefixed_with(self.name.as_str(), ".h"),
        }
    }

    /// The module map of the bundle.
    pub fn module_map(&self) -> (r: String)
        ensures
            r@ == module_map_of(self.name(), umbrella_of(self.name(), self.umbrella())),
    {
        let umbrella = self.umbrella_header();
        let mut s = affixed(
            "framework module ",
            self.name.as_str(),
            " {\n    umbrella header \"",
        );
        s.append(umbrella.as_str());
        s.append("\"\n\n    export *\n    module * {\n        export *\n    }\n}\n\n");
        s
    }

    /// The property list of the bundle, for a build on the system with
    /// this build number, of this version of the package.
    pub fn info_plist(&self, build_number: &str, version: &str, platforms: &str) -> (r: String)
        ensures
            r@ == info_plist_of(
                build_number@,
                self.name(),
                self.identifier(),
                version@,
                platforms@,
            ),
    {
        let mut s = "<?xml version=\"1.0\" encoding=\"UTF-8\"?>\n<!DOCTYPE plist PUBLIC \"-//Apple//DTD PLIST 1.0//EN\" \"http://www.apple.com/DTDs/PropertyList-1.0.dtd\">\n<plist version=\"1.0\">\n<dict>\n    <key>BuildMachineOSBuild</key>\n    <string>".to_owned();
        s.append(build_number);
        s.append("</string>\n    <key>CFBundleDevelopmentRegion</key>\n    <string>en</string>\n    <key>CFBundleExecutable</key>\n    <string>");
        s.append(self.name.as_str());
        s.append("</string>\n    <key>CFBundleIdentifier</key>\n    <string>");
        s.append(self.identifier.as_str());
        s.append("</string>\n    <key>CFBundleInfoDictionaryVersion</key>\n    <string>6.0</string>\n    <key>CFBundleName</key>\n    <string>");
        s.append(self.name.as_str());
        s.append("</string>\n    <key>CFBundlePackageType</key>\n    <string>FMWK</string>\n    <key>CFBundleShortVersionString</key>\n    <string>");
        s.append(version);
        s.append("</string>\n    <key>CFBundleSupportedPlatforms</key>\n    <array>\n        ");
        s.append(platforms);
        s.append("\n    </array>\n    <key>CFBundleVersion</key>\n    <string>");
        s.append(version);
        s.append("</string>\n    <key>MinimumOSVersion</key>\n    <string>11.0</string>\n    <key>UIDeviceFamily</key>\n    <array>\n        <integer>1</integer>\n        <integer>2</integer>\n    </array>\n</dict>\n</plist>\n");
        s
    }

    /// The links to make in the bundle for `target`, in order: each is the
    /// text of a link and the place where it goes.
    pub fn links(&self, layout: &Layout, target: &str) -> (r: Vec<(String, String)>)
        ensures
            crate::lua::lib_command::pair_texts(r@) == links_of(
                self.name(),
                layout.framework_dir@,
                target@,
                self.includes() is Some,
            ),
    {
        let mut r: Vec<(String, String)> = Vec::new();
        let dir = layout.framework_dir.as_str();
        if targets_mac(target) {
            r.push(("A".to_owned(), join(dir, "Versions/Current")));
            r.push((prefixed_with("Versions/Current/", self.name.as_str()), join(dir, self.name.as_str())));
            r.push(("Versions/Current/Resources".to_owned(), join(dir, "Resources")));
            r.push(("Versions/Current/Modules".to_owned(), join(dir, "Modules")));
            if self.includes.is_some() {
                r.push(("Versions/Current/Headers".to_owned(), join(dir, "Headers")));
            }
        }
        assert(crate::lua::lib_command::pair_texts(r@) =~= links_of(
            self.name(),
            layout.framework_dir@,
            target@,
            self.includes() is Some,
        ));
        r
    }

    /// Where the bundled headers go.
    pub fn headers_dir(&self, layout: &Layout) -> (r: String)
        ensures
            r@ == joined(layout.bin_dir@, "Headers"@),
    {
        join(layout.bin_dir.as_str(), "Headers")
    }

    /// Where the umbrella header is looked for among the bundled headers.
    pub fn umbrella_path(&self, layout: &Layout) -> (r: String)
        ensures
            r@ == joined(
                joined(layout.bin_dir@, "Headers"@),
                umbrella_of(self.name(), self.umbrella()),
            ),
    {
        join(self.headers_dir(layout).as_str(), self.umbrella_header().as_str())
    }

    /// What is written as the umbrella header where the headers hold none.
    pub fn empty_umbrella() -> (r: &'static str)
        ensures
            r@ == "/* Empty generated umbrella header to ensure Xcode can link the framework. */"@,
    {
        "/* Empty generated umbrella header to ensure Xcode can link the framework. */"
    }

    /// Where the module map goes.
    pub fn module_map_path(&self, layout: &Layout) -> (r: String)
        ensures
            r@ == joined(layout.module_dir@, "module.modulemap"@),
    {
        join(layout.module_dir.as_str(), "module.modulemap")
    }

    /// Where the property list goes.
    pub fn info_plist_path(&self, layout: &Layout) -> (r: String)
        ensures
            r@ == joined(layout.res_dir@, "Info.plist"@),
    {
        join(layout.res_dir.as_str(), "Info.plist")
    }

    /// The command that prints the build number of the system.
    pub fn build_number_command() -> (r: CommandInfo)
        ensures
            r@ == (CommandModel {
                exe: "sw_vers"@,
                args: Some(seq!["-buildVersion"@]),
                env: None,
                working_directory: None,
            }),
    {
        let mut args: Vec<String> = Vec::new();
        args.push("-buildVersion".to_owned());
        assert(texts(args@) =~= seq!["-buildVersion"@]);
        CommandInfo {
            exe: "sw_vers".to_owned(),
            args: Some(args),
            env: None,
            working_directory: None,
        }
    }

    /// The command that makes the bundle's library out of what was built.
    pub fn lipo_command(&self, layout: &Layout, binary: &str) -> (r: CommandInfo)
        ensures
            r@ == (CommandModel {
                exe: "lipo"@,
                args: Some(
                    seq!["-create"@, binary@, "-output"@, joined(layout.bin_dir@, self.name())],
                ),
                env: None,
                working_directory: None,
            }),
    {
        let mut args: Vec<String> = Vec::new();
        args.push("-create".to_owned());
        args.push(binary.to_owned());
        args.push("-output".to_owned());
        args.push(join(layout.bin_dir.as_str(), self.name.as_str()));
        assert(texts(args@) =~= seq![
            "-create"@,
            binary@,
            "-output"@,
            joined(layout.bin_dir@, self.name()),
        ]);
        CommandInfo { exe: "lipo".to_owned(), args: Some(args), env: None, working_directory: None }
    }

    /// The command that gives the bundle's library its install name.
    pub fn install_name_command(&self, layout: &Layout) -> (r: CommandInfo)
        ensures
            r@ == (CommandModel {
                exe: "install_name_tool"@,
                args: Some(seq!["-id"@, install_name_of(self.name()), self.name()]),
                env: None,
                working_directory: Some(layout.bin_dir@),
            }),
    {
        let mut args: Vec<String> = Vec::new();
        args.push("-id".to_owned());
        args.push(self.install_name());
        args.push(self.name.clone());
        assert(texts(args@) =~= seq!["-id"@, install_name_of(self.name()), self.name()]);
        CommandInfo {
            exe: "install_name_tool".to_owned(),
            args: Some(args),
            env: None,
            working_directory: Some(layout.bin_dir.clone()),
        }
    }

    /// The package that holds the bundles of all targets: in `target` under
    /// the root, named after the bundle.
    pub fn package_path(&self, root: &str) -> (r: String)
        ensures
            r@ == joined(root@, "target/"@ + self.name() + ".xcframework"@),
    {
        join(root, affixed("target/", self.name.as_str(), ".xcframework").as_str())
    }

    /// The command that puts the bundles in `bundles` together into the
    /// package at `output`.
    pub fn package_command(&self, bundles: &Vec<String>, output: &str) -> (r: CommandInfo)
        ensures
            r@ == (CommandModel {
                exe: "xcrun"@,
                args: Some(package_args(texts(bundles@), output@)),
                env: None,
                working_directory: None,
            }),
    {
        let ghost all = texts(bundles@);
        let ghost head = seq!["xcodebuild"@, "-create-xcframework"@];
        let mut args: Vec<String> = Vec::new();
        args.push("xcodebuild".to_owned());
        args.push("-create-xcframework".to_owned());
        let mut i: usize = 0;
        assert(texts(args@) =~= head + bundle_flags(all.take(0)));
        while i < bundles.len()
            invariant
                i <= bundles.len(),
                all == texts(bundles@),
                head == seq!["xcodebuild"@, "-create-xcframework"@],
                texts(args@) == head + bundle_flags(all.take(i as int)),
            decreases bundles.len() - i,
        {
            let flag = "-framework".to_owned();
            let b = bundles[i].clone();
            proof {
                lemma_texts_push(args@, flag);
                lemma_texts_push(args@.push(flag), b);
                assert(bundle_flags(all.take(i as int)).push(flag@).push(b@) =~= bundle_flags(
                    all.take(i + 1),
                ));
                assert(texts(args@).push(flag@).push(b@) =~= head + bundle_flags(all.take(i + 1)));
            }
            args.push(flag);
            args.push(b);
            i += 1;
        }
        assert(all.take(i as int) =~= all);
        let o1 = "-output".to_owned();
        let o2 = output.to_owned();
        proof {
            lemma_texts_push(args@, o1);
            lemma_texts_push(args@.push(o1), o2);
            assert(texts(args@).push(o1@).push(o2@) =~= package_args(all, output@));
        }
        args.push(o1);
        args.push(o2);
        CommandInfo { exe: "xcrun".to_owned(), args: Some(args), env: None, working_directory: None }
    }
}

/// Why the framework packager failed.
#[derive(Debug, PartialEq, Eq)]
pub enum Error {
    /// A file operation failed, or a tool could not be run; the cause is
    /// given in words.
    Io(String),
    Lipo,
    InstallNameTool,
    CreateXcFramework,
}

/// The error in words.
pub open spec fn message_of(e: Error) -> Seq<char> {
    match e {
        Error::Io(cause) => "io error: "@ + cause@,
        Error::Lipo => "failed to run lipo tool"@,
        Error::InstallNameTool => "failed to run install_name_tool"@,
        Error::CreateXcFramework => "failed to generate combined XCFramework package"@,
    }
}

impl Error {
    /// The error in words.
    pub fn message(&self) -> (r: String)
        ensures
            r@ == message_of(*self),
    {
        match self {
            Error::Io(cause) => prefixed_with("io error: ", cause.as_str()),
            Error::Lipo => "failed to run lipo tool".to_owned(),
            Error::InstallNameTool => "failed to run install_name_tool".to_owned(),
            Error::CreateXcFramework => "failed to generate combined XCFramework package".to_owned(),
        }
    }
}

/// What a tool's exit means: it has done its work only if it reports
/// success, and `failure` is the error where it does not.
pub fn ensure(succeeded: bool, failure: Error) -> (r: Result<(), Error>)
    ensures
        r == if succeeded {
            Ok::<(), Error>(())
        } else {
            Err::<(), Error>(failure)
        },
{
    if !succeeded {
        Err(failure)
    } else {
        Ok(())
    }
}

} // verus!
