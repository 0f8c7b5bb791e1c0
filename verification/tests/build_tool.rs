use flion::build_tool::{
    angle_link_directives, build_plugins, compile_plugins_shim, copy_native_libraries,
    download_engine_artifacts, download_google_engine_artifact, embedder_dir,
    embedder_link_directives, engine_artifact_list, engine_commit, exit_code, flutter_build,
    flutter_bundle, run_command, run_environment, search_step, should_copy, Argument, Base,
    BuildMode, LibraryStep, Location, Root, SearchStep, ANGLE_ARCHIVE, ANGLE_URL,
};
use flion::chars::{chars_of, find_char, join};
use flion::utf8_text::same_text;

#[test]
fn modes() {
    assert_eq!(BuildMode::Debug.name(), "debug");
    assert_eq!(BuildMode::Release.name(), "release");
    assert_eq!(BuildMode::Debug.cargo_profile(), "dev");
    assert_eq!(BuildMode::Release.cargo_profile(), "release");
    assert_eq!(BuildMode::from_release_flag(true), BuildMode::Release);
    assert_eq!(BuildMode::from_release_flag(false), BuildMode::Debug);
    assert_eq!(embedder_dir(BuildMode::Debug), "windows-x64-embedder");
    assert_eq!(embedder_dir(BuildMode::Release), "windows-x64-embedder-release");
}

#[test]
fn search_upwards() {
    assert_eq!(search_step(true, true), SearchStep::Found);
    assert_eq!(search_step(true, false), SearchStep::Found);
    assert_eq!(search_step(false, true), SearchStep::Up);
    assert_eq!(search_step(false, false), SearchStep::NotFound);
}

#[test]
fn search_ends_in_the_nearest_directory() {
    let search = |is_here: &[bool]| {
        for (i, here) in is_here.iter().enumerate() {
            match search_step(*here, i + 1 < is_here.len()) {
                SearchStep::Found => return Some(i),
                SearchStep::Up => {}
                SearchStep::NotFound => return None,
            }
        }
        None
    };
    assert_eq!(search(&[false, true, false, true]), Some(1));
    assert_eq!(search(&[true]), Some(0));
    assert_eq!(search(&[false, false]), None);
}

#[test]
fn commit_of_the_engine() {
    assert_eq!(engine_commit("abc123\r\n"), "abc123");
    assert_eq!(engine_commit("\u{A0}\t a b \u{3000}\u{85}"), "a b");
    assert_eq!(engine_commit("\u{200B}x"), "\u{200B}x");
    assert_eq!(engine_commit(" \n"), "");
}

#[test]
fn whitespace_is_what_trim_takes() {
    for code in 0..=0x10FFFFu32 {
        let Some(c) = char::from_u32(code) else {
            continue;
        };
        let expected = matches!(
            code,
            0x9..=0xD
                | 0x20
                | 0x85
                | 0xA0
                | 0x1680
                | 0x2000..=0x200A
                | 0x2028
                | 0x2029
                | 0x202F
                | 0x205F
                | 0x3000
        );
        assert_eq!(engine_commit(&c.to_string()).is_empty(), expected, "{code:x}");
    }
}

#[test]
fn url_of_an_artifact() {
    let download = download_google_engine_artifact("c0ffee", "artifacts", "windows-x64/artifacts.zip");
    assert_eq!(download.name, "artifacts");
    assert_eq!(
        download.url,
        "https://storage.googleapis.com/flutter_infra_release/flutter/c0ffee/windows-x64/artifacts.zip"
    );
}

#[test]
fn missing_artifacts() {
    let names: Vec<_> = engine_artifact_list().iter().map(|(name, _)| *name).collect();
    assert_eq!(
        names,
        vec![
            "artifacts",
            "flutter_patched_sdk_product",
            "windows-x64-embedder",
            "windows-x64-flutter",
            "flutter-cpp-client-wrapper",
        ]
    );
    let downloads = download_engine_artifacts("c", &vec![false, true, false, true, false], true);
    let found: Vec<_> = downloads.iter().map(|d| (d.name, d.url.as_str())).collect();
    assert_eq!(
        found,
        vec![
            (
                "flutter_patched_sdk_product",
                "https://storage.googleapis.com/flutter_infra_release/flutter/c/flutter_patched_sdk_product.zip"
            ),
            (
                "windows-x64-flutter",
                "https://storage.googleapis.com/flutter_infra_release/flutter/c/windows-x64-debug/windows-x64-flutter.zip"
            ),
            (
                "windows-x64-embedder-release",
                "https://github.com/hasali19/flutter-engine-build/releases/download/build-c/windows-x64-embedder-release.zip"
            ),
        ]
    );
    assert!(download_engine_artifacts("c", &vec![false; 5], false).is_empty());
}

#[test]
fn copies() {
    assert!(should_copy(None));
    assert!(should_copy(Some((2, 1))));
    assert!(!should_copy(Some((1, 1))));
    assert!(!should_copy(Some((-1, 0))));
}

#[test]
fn native_libraries() {
    let steps = copy_native_libraries(BuildMode::Release, false);
    assert_eq!(steps.len(), 8);
    assert!(matches!(
        steps[0],
        LibraryStep::Copy {
            from: Location::Below(
                Root::EngineArtifacts,
                "windows-x64-embedder-release",
                "flutter_engine.dll"
            ),
            name: "flutter_engine.dll"
        }
    ));
    assert!(matches!(
        steps[2],
        LibraryStep::Fetch { url: ANGLE_URL, to: Location::In(Root::Build, ANGLE_ARCHIVE) }
    ));
    assert!(matches!(
        steps[3],
        LibraryStep::RemoveDirectory(Location::In(Root::Build, "angle-win64"))
    ));
    assert!(matches!(steps[4], LibraryStep::Unpack { into: Location::At(Root::Build), .. }));
    assert!(matches!(steps[5], LibraryStep::RemoveFile(_)));
    assert!(matches!(
        steps[7],
        LibraryStep::Copy {
            from: Location::Deeper(Root::Build, "angle-win64", "bin", "libGLESv2.dll"),
            ..
        }
    ));
    assert_eq!(copy_native_libraries(BuildMode::Debug, true).len(), 4);
    assert_eq!(
        ANGLE_URL,
        "https://github.com/hasali19/angle-build/releases/download/build-2024-10-05-23-15/angle-win64.tar.gz"
    );
    assert_eq!(ANGLE_ARCHIVE, "angle-win64-2024-10-05-23-15.tar.gz");
}

#[test]
fn build_commands() {
    assert_eq!(flutter_bundle().len(), 2);
    assert!(flutter_build(BuildMode::Debug).is_empty());
    let commands = flutter_build(BuildMode::Release);
    assert_eq!(commands.len(), 2);
    assert_eq!(commands[0].args.len(), 18);
    assert!(matches!(commands[0].args[9], Argument::Text("--aot")));
    assert!(matches!(
        commands[0].args[17],
        Argument::Path(Location::Below(Root::Project, "lib", "main.dart"))
    ));
    assert!(matches!(
        commands[1].args[2],
        Argument::Prefixed("--elf=", Location::In(Root::Build, "app.so"))
    ));
}

#[test]
fn shim_of_the_plugins() {
    let (command, copy) = compile_plugins_shim(false);
    assert_eq!(command.unwrap().args.len(), 12);
    assert!(matches!(
        copy,
        LibraryStep::Copy {
            from: Location::In(Root::Plugins, "flion_plugins_shim.dll"),
            name: "flion_plugins_shim.dll"
        }
    ));
    assert!(compile_plugins_shim(true).0.is_none());
}

#[test]
fn plugin_commands() {
    let commands = build_plugins();
    assert_eq!(commands.len(), 3);
    assert!(matches!(commands[0].command.args[1], Argument::PluginNames));
    assert!(commands[1].directory.is_none());
    assert!(matches!(commands[2].command.args[0], Argument::Text("--install")));
    assert!(matches!(commands[2].log, Location::In(Root::Plugins, "cmake_install.txt")));
}

#[test]
fn running_the_application() {
    let command = run_command(BuildMode::Debug);
    assert!(matches!(command.program, Argument::Text("cargo")));
    assert!(matches!(command.args[2], Argument::Text("dev")));
    let environment = run_environment(BuildMode::Release);
    assert_eq!(environment.len(), 4);
    assert_eq!(environment[3].0, "FLION_AOT_LIBRARY_PATH");
    assert!(matches!(
        environment[0].1,
        Location::In(Root::EngineArtifacts, "windows-x64-embedder-release")
    ));
    assert_eq!(exit_code(Some(0)), 0);
    assert_eq!(exit_code(Some(101)), 1);
    assert_eq!(exit_code(None), 0);
}

#[test]
fn link_directives() {
    assert_eq!(
        angle_link_directives("a/lib", true),
        vec![
            "cargo:rustc-link-search=native=a/lib",
            "cargo:rustc-link-lib=dylib=libEGL.dll",
            "cargo:rustc-link-lib=dylib=libGLESv2.dll",
        ]
    );
    assert_eq!(angle_link_directives("x", false).len(), 1);
    assert_eq!(
        embedder_link_directives("e"),
        vec![
            "cargo::rustc-link-search=native=e",
            "cargo::rustc-link-lib=dylib=flutter_engine.dll",
        ]
    );
}

#[test]
fn joining() {
    assert_eq!(join(&vec![], ";"), "");
    assert_eq!(join(&vec!["a".to_owned()], ";"), "a");
    assert_eq!(join(&vec!["a".to_owned(), String::new(), "é".to_owned()], "::"), "a::::é");
}

#[test]
fn finding_characters() {
    let chars = chars_of("aéa,é");
    assert_eq!(chars, vec!['a', 'é', 'a', ',', 'é']);
    assert_eq!(find_char(&chars, 0, 'é'), 1);
    assert_eq!(find_char(&chars, 2, 'é'), 4);
    assert_eq!(find_char(&chars, 1, 'x'), 5);
    assert_eq!(find_char(&chars, 5, 'a'), 5);
}

#[test]
fn equal_texts() {
    assert!(same_text("", ""));
    assert!(same_text("né", "né"));
    assert!(!same_text("né", "ne"));
    assert!(!same_text("ab", "abc"));
}

fn parts_of(root: Root) -> (Base, String) {
    let path = root.path("abc123");
    (path.base, path.parts.join("|"))
}

#[test]
fn places_of_the_directories() {
    assert_eq!(parts_of(Root::FlutterBin), (Base::FlutterBin, String::new()));
    assert_eq!(parts_of(Root::Project), (Base::Project, String::new()));
    assert_eq!(parts_of(Root::FlutterBuild), (Base::Project, "build".to_owned()));
    assert_eq!(parts_of(Root::Build), (Base::Project, "build|flion".to_owned()));
    assert_eq!(parts_of(Root::Plugins), (Base::Project, "build|flion|plugins".to_owned()));
    assert_eq!(parts_of(Root::EngineArtifacts), (Base::Project, "build|flion|abc123".to_owned()));
}

#[test]
fn places_in_the_directories() {
    let parts = |location: Location| location.path("abc").parts.join("|");
    assert_eq!(parts(Location::At(Root::Build)), "build|flion");
    assert_eq!(parts(Location::In(Root::FlutterBin, "x")), "x");
    assert_eq!(parts(Location::Below(Root::EngineArtifacts, "x", "y")), "build|flion|abc|x|y");
    assert_eq!(parts(Location::Deeper(Root::FlutterBuild, "x", "y", "z")), "build|x|y|z");
    assert_eq!(Location::In(Root::FlutterBin, "x").path("abc").base, Base::FlutterBin);
}
