use bp3d_build::finder::{
    candidate_names, debug_info_candidate_names, exports_candidate_names, path_candidate_names,
    Finder, FinderResult, LibType, Listing, Platform,
};
use bp3d_build::output::{Output, PathOutputList};

fn listing_of(names: &[&str]) -> Listing {
    let mut listing = Listing::new();
    for n in names {
        listing.insert(n.to_string());
    }
    listing
}

fn some(s: &str) -> Option<String> {
    Some(s.to_string())
}

fn strings(names: &[&str]) -> Vec<String> {
    names.iter().map(|n| n.to_string()).collect()
}

#[test]
fn windows_dynamic_library_with_import_library_and_no_debug_info() {
    let outputs = vec![Output::Lib("net".to_string())];
    let entry = PathOutputList { outputs: &outputs, path: "out" };
    let listing = listing_of(&["net.dll", "net.lib"]);
    let finder = Finder::new(&entry, "x86_64-pc-windows-msvc", Platform::Windows, &listing);
    let r = finder.resolve_output(LibType::Dynamic, &outputs[0]);
    assert_eq!(
        r,
        FinderResult { path: some("out/net.dll"), debug_info: None, exports: some("out/net.lib") }
    );
}

#[test]
fn library_present_in_both_linkages_resolves_twice() {
    let outputs = vec![Output::Lib("foo".to_string())];
    let entry = PathOutputList { outputs: &outputs, path: "t" };
    let listing = listing_of(&["libfoo.a", "libfoo.so"]);
    let finder = Finder::new(&entry, "x86_64-unknown-linux-gnu", Platform::Posix, &listing);
    let all = finder.resolve_output_all(&outputs[0]);
    assert_eq!(all.len(), 2);
    assert_eq!(all[0].path, some("t/libfoo.a"));
    assert_eq!(all[1].path, some("t/libfoo.so"));
    assert_eq!(all[0], finder.resolve_output(LibType::Static, &outputs[0]));
    assert_eq!(all[1], finder.resolve_output(LibType::Dynamic, &outputs[0]));
}

#[test]
fn library_present_in_both_linkages_on_windows() {
    let outputs = vec![Output::Lib("foo".to_string())];
    let entry = PathOutputList { outputs: &outputs, path: "t" };
    let listing = listing_of(&["foo.lib", "foo.dll", "foo.pdb"]);
    let finder = Finder::new(&entry, "x86_64-pc-windows-msvc", Platform::Windows, &listing);
    let all = finder.resolve_output_all(&outputs[0]);
    assert_eq!(
        all,
        vec![
            FinderResult { path: some("t/foo.lib"), debug_info: some("t/foo.pdb"), exports: None },
            FinderResult {
                path: some("t/foo.dll"),
                debug_info: some("t/foo.pdb"),
                exports: some("t/foo.lib"),
            },
        ]
    );
}

#[test]
fn nothing_on_disk_resolves_to_an_empty_result() {
    let listing = Listing::new();
    for platform in [Platform::Posix, Platform::Windows] {
        for output in [
            Output::Bin("a".to_string()),
            Output::Lib("a".to_string()),
            Output::Config("a".to_string()),
            Output::Other("a".to_string()),
        ] {
            let outputs = vec![output];
            let entry = PathOutputList { outputs: &outputs, path: "t" };
            let finder = Finder::new(&entry, "any", platform, &listing);
            for lib_type in [LibType::Static, LibType::Dynamic] {
                let r = finder.resolve_output(lib_type, &outputs[0]);
                assert_eq!(r, FinderResult { path: None, debug_info: None, exports: None });
            }
            assert!(finder.resolve_output_all(&outputs[0]).is_empty());
        }
    }
}

#[test]
fn unrelated_files_do_not_resolve() {
    let outputs = vec![Output::Lib("foo".to_string())];
    let entry = PathOutputList { outputs: &outputs, path: "t" };
    let listing = listing_of(&["libbar.so", "foo", "libfoo", "foo.so.1"]);
    let finder = Finder::new(&entry, "any", Platform::Posix, &listing);
    let r = finder.resolve_output(LibType::Dynamic, &outputs[0]);
    assert_eq!(r, FinderResult { path: None, debug_info: None, exports: None });
}

#[test]
fn posix_dynamic_chain_prefers_prefixed_dylib() {
    let outputs = vec![Output::Lib("z".to_string())];
    let entry = PathOutputList { outputs: &outputs, path: "d" };
    let all = ["libz.dylib", "libz.so", "z.dylib", "z.so"];
    for first in 0..all.len() {
        let listing = listing_of(&all[first..]);
        let finder = Finder::new(&entry, "any", Platform::Posix, &listing);
        let r = finder.resolve_output(LibType::Dynamic, &outputs[0]);
        assert_eq!(r.path, Some(format!("d/{}", all[first])));
        assert_eq!(r.exports, None);
    }
}

#[test]
fn posix_static_chain_and_debug_info_chain() {
    let outputs = vec![Output::Lib("z".to_string())];
    let entry = PathOutputList { outputs: &outputs, path: "d" };
    let listing = listing_of(&["z.a", "z.d"]);
    let finder = Finder::new(&entry, "any", Platform::Posix, &listing);
    let r = finder.resolve_output(LibType::Static, &outputs[0]);
    assert_eq!(r, FinderResult { path: some("d/z.a"), debug_info: some("d/z.d"), exports: None });
    let listing = listing_of(&["z.a", "libz.a", "z.d", "libz.d"]);
    let finder = Finder::new(&entry, "any", Platform::Posix, &listing);
    let r = finder.resolve_output(LibType::Static, &outputs[0]);
    assert_eq!(
        r,
        FinderResult { path: some("d/libz.a"), debug_info: some("d/libz.d"), exports: None }
    );
}

#[test]
fn windows_chains_prefer_the_unprefixed_name() {
    let outputs = vec![Output::Lib("z".to_string())];
    let entry = PathOutputList { outputs: &outputs, path: "d" };
    let listing = listing_of(&[
        "libz.dll", "z.dll", "libz.pdb", "z.pdb", "libz.lib", "z.lib", "libz.dll.lib", "z.dll.lib",
    ]);
    let finder = Finder::new(&entry, "any", Platform::Windows, &listing);
    let r = finder.resolve_output(LibType::Dynamic, &outputs[0]);
    assert_eq!(
        r,
        FinderResult {
            path: some("d/z.dll"),
            debug_info: some("d/z.pdb"),
            exports: some("d/z.dll.lib"),
        }
    );
    let r = finder.resolve_output(LibType::Static, &outputs[0]);
    assert_eq!(r, FinderResult { path: some("d/z.lib"), debug_info: some("d/z.pdb"), exports: None });
    let listing = listing_of(&["libz.dll", "libz.pdb", "libz.lib"]);
    let finder = Finder::new(&entry, "any", Platform::Windows, &listing);
    let r = finder.find_output(LibType::Dynamic, &outputs[0]);
    assert_eq!(
        r,
        FinderResult {
            path: some("d/libz.dll"),
            debug_info: some("d/libz.pdb"),
            exports: some("d/libz.lib"),
        }
    );
}

#[test]
fn windows_exports_chain_order() {
    let outputs = vec![Output::Lib("z".to_string())];
    let entry = PathOutputList { outputs: &outputs, path: "d" };
    let all = ["z.dll.lib", "libz.dll.lib", "z.lib", "libz.lib"];
    for first in 0..all.len() {
        let listing = listing_of(&all[first..]);
        let finder = Finder::new(&entry, "any", Platform::Windows, &listing);
        let r = finder.resolve_output(LibType::Dynamic, &outputs[0]);
        assert_eq!(r.exports, Some(format!("d/{}", all[first])));
    }
}

#[test]
fn binaries_resolve_by_platform() {
    let outputs = vec![Output::Bin("tool".to_string())];
    let entry = PathOutputList { outputs: &outputs, path: "bin" };
    let listing = listing_of(&["tool", "tool.d", "tool.exe", "tool.pdb"]);
    let posix = Finder::new(&entry, "any", Platform::Posix, &listing);
    assert_eq!(
        posix.resolve_output(LibType::Static, &outputs[0]),
        FinderResult { path: some("bin/tool"), debug_info: some("bin/tool.d"), exports: None }
    );
    let windows = Finder::new(&entry, "any", Platform::Windows, &listing);
    assert_eq!(
        windows.resolve_output(LibType::Static, &outputs[0]),
        FinderResult { path: some("bin/tool.exe"), debug_info: some("bin/tool.pdb"), exports: None }
    );
    assert_eq!(posix.resolve_output_all(&outputs[0]).len(), 1);
}

#[test]
fn config_and_other_names_are_taken_literally() {
    let outputs =
        vec![Output::Config("conf/app.toml".to_string()), Output::Other("LICENSE".to_string())];
    let entry = PathOutputList { outputs: &outputs, path: "t" };
    let listing = listing_of(&["conf/app.toml", "LICENSE", "LICENSE.d", "libLICENSE.so"]);
    for platform in [Platform::Posix, Platform::Windows] {
        let finder = Finder::new(&entry, "any", platform, &listing);
        assert_eq!(
            finder.resolve_output(LibType::Dynamic, &outputs[0]),
            FinderResult { path: some("t/conf/app.toml"), debug_info: None, exports: None }
        );
        assert_eq!(
            finder.resolve_output(LibType::Static, &outputs[1]),
            FinderResult { path: some("t/LICENSE"), debug_info: None, exports: None }
        );
    }
}

#[test]
fn get_path_joins_the_name_under_the_directory() {
    let outputs: Vec<Output> = Vec::new();
    let entry = PathOutputList { outputs: &outputs, path: "root/target/debug" };
    let listing = listing_of(&["present"]);
    let finder = Finder::new(&entry, "any", Platform::Posix, &listing);
    assert_eq!(finder.get_path("present"), some("root/target/debug/present"));
    assert_eq!(finder.get_path("absent"), None);
}

#[test]
fn find_first_resolves_the_first_accepted_output() {
    let outputs = vec![
        Output::Bin("a".to_string()),
        Output::Lib("b".to_string()),
        Output::Lib("c".to_string()),
    ];
    let entry = PathOutputList { outputs: &outputs, path: "t" };
    let listing = listing_of(&["a", "libb.so", "libc.so", "libc.a"]);
    let finder = Finder::new(&entry, "any", Platform::Posix, &listing);
    let r = finder.find_first(LibType::Dynamic, |o: &Output| o.is_lib());
    assert_eq!(r.path, some("t/libb.so"));
    let r = finder.find_first(LibType::Static, |o: &Output| o.name() == "c");
    assert_eq!(r.path, some("t/libc.a"));
    let r = finder.find_first(LibType::Static, |o: &Output| o.name() == "missing");
    assert_eq!(r, FinderResult { path: None, debug_info: None, exports: None });
}

#[test]
fn candidate_chains_are_exact() {
    let lib = Output::Lib("n".to_string());
    assert_eq!(
        path_candidate_names(Platform::Posix, LibType::Dynamic, &lib),
        strings(&["libn.dylib", "libn.so", "n.dylib", "n.so"])
    );
    assert_eq!(
        path_candidate_names(Platform::Posix, LibType::Static, &lib),
        strings(&["libn.a", "n.a"])
    );
    assert_eq!(
        path_candidate_names(Platform::Windows, LibType::Dynamic, &lib),
        strings(&["n.dll", "libn.dll"])
    );
    assert_eq!(
        path_candidate_names(Platform::Windows, LibType::Static, &lib),
        strings(&["n.lib", "libn.lib"])
    );
    assert_eq!(debug_info_candidate_names(Platform::Posix, &lib), strings(&["libn.d", "n.d"]));
    assert_eq!(debug_info_candidate_names(Platform::Windows, &lib), strings(&["n.pdb", "libn.pdb"]));
    assert_eq!(
        exports_candidate_names(Platform::Windows, LibType::Dynamic, &lib),
        strings(&["n.dll.lib", "libn.dll.lib", "n.lib", "libn.lib"])
    );
    assert!(exports_candidate_names(Platform::Windows, LibType::Static, &lib).is_empty());
    assert!(exports_candidate_names(Platform::Posix, LibType::Dynamic, &lib).is_empty());
    let bin = Output::Bin("n".to_string());
    assert_eq!(path_candidate_names(Platform::Posix, LibType::Dynamic, &bin), strings(&["n"]));
    assert_eq!(path_candidate_names(Platform::Windows, LibType::Dynamic, &bin), strings(&["n.exe"]));
    assert_eq!(debug_info_candidate_names(Platform::Posix, &bin), strings(&["n.d"]));
    assert_eq!(debug_info_candidate_names(Platform::Windows, &bin), strings(&["n.pdb"]));
    let other = Output::Other("n".to_string());
    assert_eq!(path_candidate_names(Platform::Windows, LibType::Static, &other), strings(&["n"]));
    assert!(debug_info_candidate_names(Platform::Windows, &other).is_empty());
}

#[test]
fn candidate_names_cover_both_linkages() {
    let lib = Output::Lib("n".to_string());
    assert_eq!(
        candidate_names(Platform::Posix, &lib),
        strings(&["libn.a", "n.a", "libn.dylib", "libn.so", "n.dylib", "n.so", "libn.d", "n.d"])
    );
    assert_eq!(
        candidate_names(Platform::Windows, &lib),
        strings(&[
            "n.lib", "libn.lib", "n.dll", "libn.dll", "n.pdb", "libn.pdb", "n.dll.lib",
            "libn.dll.lib", "n.lib", "libn.lib",
        ])
    );
}

#[test]
fn a_listing_limited_to_the_candidates_resolves_alike() {
    let outputs = vec![Output::Lib("q".to_string())];
    let entry = PathOutputList { outputs: &outputs, path: "t" };
    let on_disk = ["libq.so", "q.d", "unrelated.txt", "libq.a.bak"];
    let full = listing_of(&on_disk);
    let mut probed = Listing::new();
    for name in candidate_names(Platform::Posix, &outputs[0]) {
        if on_disk.contains(&name.as_str()) {
            probed.insert(name);
        }
    }
    let a = Finder::new(&entry, "any", Platform::Posix, &full);
    let b = Finder::new(&entry, "any", Platform::Posix, &probed);
    for lib_type in [LibType::Static, LibType::Dynamic] {
        assert_eq!(a.resolve_output(lib_type, &outputs[0]), b.resolve_output(lib_type, &outputs[0]));
    }
    assert_eq!(a.resolve_output_all(&outputs[0]), b.resolve_output_all(&outputs[0]));
}

#[test]
fn listing_knows_what_was_inserted() {
    let mut listing = Listing::new();
    assert!(!listing.contains("a"));
    listing.insert("a".to_string());
    listing.insert("b/c".to_string());
    assert!(listing.contains("a"));
    assert!(listing.contains("b/c"));
    assert!(!listing.contains("b"));
    assert!(!listing.contains("A"));
}
