//! What the build tool does to run an application: the files it needs, the commands it runs, and
//! the environment in which the application runs.
//!
//! Places in the file system are given as a [`Location`]: a file in one of the directories that
//! the caller knows.
use crate::flion_engine::{AOT_LIBRARY_PATH_VARIABLE, ASSETS_PATH_VARIABLE};
use vstd::prelude::*;
use vstd::string::*;

verus! {

/// How an application is built.
#[derive(Clone, Copy, Debug, PartialEq, Eq, Structural)]
pub enum BuildMode {
    Debug,
    Release,
}

impl BuildMode {
    /// The name of the mode, which is also that of the directory for what is built.
    pub fn name(&self) -> (res: &'static str)
        ensures
            res@ == (match self {
                BuildMode::Debug => "debug"@,
                BuildMode::Release => "release"@,
            }),
    {
        match self {
            BuildMode::Debug => "debug",
            BuildMode::Release => "release",
        }
    }

    /// The profile under which Cargo builds in this mode.
    pub fn cargo_profile(&self) -> (res: &'static str)
        ensures
            res@ == (match self {
                BuildMode::Debug => "dev"@,
                BuildMode::Release => "release"@,
            }),
    {
        match self {
            BuildMode::Debug => "dev",
            BuildMode::Release => "release",
        }
    }

    /// The mode that the command line asks for.
    pub fn from_release_flag(release: bool) -> (res: BuildMode)
        ensures
            res == (if release {
                BuildMode::Release
            } else {
                BuildMode::Debug
            }),
    {
        if release {
            BuildMode::Release
        } else {
            BuildMode::Debug
        }
    }
}

/// A directory that the caller knows.
#[derive(Clone, Copy, Debug, PartialEq, Eq, Structural)]
pub enum Root {
    /// The directory with the Flutter program.
    FlutterBin,
    /// The directory of the project.
    Project,
    /// `build` in the project.
    FlutterBuild,
    /// `build/flion` in the project.
    Build,
    /// `build/flion/plugins` in the project.
    Plugins,
    /// The directory in `build/flion` that has the name of the engine commit.
    EngineArtifacts,
}

/// A place in a directory: directly in it, or in a directory below, or two below.
#[derive(Clone, Copy, Debug)]
pub enum Location {
    At(Root),
    In(Root, &'static str),
    Below(Root, &'static str, &'static str),
    Deeper(Root, &'static str, &'static str, &'static str),
}

/// A directory from which paths lead to the other ones.
#[derive(Clone, Copy, Debug, PartialEq, Eq, Structural)]
pub enum Base {
    /// The directory with the Flutter program.
    FlutterBin,
    /// The directory of the project.
    Project,
}

/// A path: the names that lead from a directory to a place below it.
#[derive(Debug)]
pub struct PathBelow {
    pub base: Base,
    pub parts: Vec<String>,
}

/// The model of a [`PathBelow`].
#[verifier::ext_equal]
pub struct PathView {
    pub base: Base,
    pub parts: Seq<Seq<char>>,
}

impl View for PathBelow {
    type V = PathView;

    open spec fn view(&self) -> PathView {
        PathView { base: self.base, parts: self.parts@.map_values(|s: String| s@) }
    }
}

impl PathView {
    /// The place with this name below the path.
    pub open spec fn join(self, name: Seq<char>) -> PathView {
        PathView { parts: self.parts.push(name), ..self }
    }
}

/// Where a directory is, for an engine commit.
pub open spec fn root_path(root: Root, engine_commit: Seq<char>) -> PathView {
    match root {
        Root::FlutterBin => PathView { base: Base::FlutterBin, parts: seq![] },
        Root::Project => PathView { base: Base::Project, parts: seq![] },
        Root::FlutterBuild => PathView { base: Base::Project, parts: seq!["build"@] },
        Root::Build => PathView { base: Base::Project, parts: seq!["build"@, "flion"@] },
        Root::Plugins => PathView {
            base: Base::Project,
            parts: seq!["build"@, "flion"@, "plugins"@],
        },
        Root::EngineArtifacts => PathView {
            base: Base::Project,
            parts: seq!["build"@, "flion"@, engine_commit],
        },
    }
}

/// Where a place is, for an engine commit.
pub open spec fn location_path(location: Location, engine_commit: Seq<char>) -> PathView {
    match location {
        Location::At(root) => root_path(root, engine_commit),
        Location::In(root, name) => root_path(root, engine_commit).join(name@),
        Location::Below(root, dir, name) => root_path(root, engine_commit).join(dir@).join(name@),
        Location::Deeper(root, dir, sub_dir, name) => root_path(root, engine_commit).join(
            dir@,
        ).join(sub_dir@).join(name@),
    }
}

impl PathBelow {
    /// Goes to the place with this name below the path.
    fn push(&mut self, name: &str)
        ensures
            final(self)@ == old(self)@.join(name@),
    {
        let ghost before = self@;
        self.parts.push(name.to_owned());
        assert(self@.parts =~= before.parts.push(name@));
    }
}

impl Root {
    /// Where the directory is, for an engine commit.
    pub fn path(&self, engine_commit: &str) -> (res: PathBelow)
        ensures
            res@ == root_path(*self, engine_commit@),
    {
        let base = match self {
            Root::FlutterBin => Base::FlutterBin,
            _ => Base::Project,
        };
        let mut path = PathBelow { base, parts: Vec::new() };
        assert(path@.parts =~= seq![]);
        match self {
            Root::FlutterBin | Root::Project => {},
            Root::FlutterBuild => path.push("build"),
            Root::Build => {
                path.push("build");
                path.push("flion");
            },
            Root::Plugins => {
                path.push("build");
                path.push("flion");
                path.push("plugins");
            },
            Root::EngineArtifacts => {
                path.push("build");
                path.push("flion");
                path.push(engine_commit);
            },
        }
        assert(path@ =~= root_path(*self, engine_commit@));
        path
    }
}

impl Location {
    /// Where the place is, for an engine commit.
    pub fn path(&self, engine_commit: &str) -> (res: PathBelow)
        ensures
            res@ == location_path(*self, engine_commit@),
    {
        match self {
            Location::At(root) => root.path(engine_commit),
            Location::In(root, name) => {
                let mut path = root.path(engine_commit);
                path.push(name);
                path
            },
            Location::Below(root, dir, name) => {
                let mut path = root.path(engine_commit);
                path.push(dir);
                path.push(name);
                path
            },
            Location::Deeper(root, dir, sub_dir, name) => {
                let mut path = root.path(engine_commit);
                path.push(dir);
                path.push(sub_dir);
                path.push(name);
                path
            },
        }
    }
}

/// An argument of a command.
#[derive(Clone, Copy, Debug)]
pub enum Argument {
    Text(&'static str),
    Path(Location),
    /// The text and the path behind it.
    Prefixed(&'static str, Location),
    /// The argument that names the plugins of the project.
    PluginNames,
}

/// A command: the program and its arguments.
#[derive(Debug)]
pub struct CommandLine {
    pub program: Argument,
    pub args: Vec<Argument>,
}

/// The model of a [`CommandLine`].
#[verifier::ext_equal]
pub struct CommandView {
    pub program: Argument,
    pub args: Seq<Argument>,
}

impl View for CommandLine {
    type V = CommandView;

    open spec fn view(&self) -> CommandView {
        CommandView { program: self.program, args: self.args@ }
    }
}

/// The models of some commands.
pub open spec fn command_views(commands: Seq<CommandLine>) -> Seq<CommandView> {
    commands.map_values(|c: CommandLine| c@)
}

/// The command that builds the bundle of an application, run with the Flutter program.
pub open spec fn bundle_arguments() -> Seq<Argument> {
    seq![Argument::Text("build"), Argument::Text("bundle")]
}

/// The arguments that build the bundle of an application.
pub fn flutter_bundle() -> (res: Vec<Argument>)
    ensures
        res@ == bundle_arguments(),
{
    vec![Argument::Text("build"), Argument::Text("bundle")]
}

/// The command that compiles the application to the kernel of the Dart virtual machine.
pub open spec fn kernel_command() -> CommandView {
    CommandView {
        program: Argument::Path(
            Location::In(Root::FlutterBin, "cache/dart-sdk/bin/dartaotruntime.exe"),
        ),
        args: seq![
            Argument::Path(
                Location::Below(
                    Root::EngineArtifacts,
                    "artifacts",
                    "frontend_server_aot.dart.snapshot",
                ),
            ),
            Argument::Text("--sdk-root"),
            Argument::Path(
                Location::Below(
                    Root::EngineArtifacts,
                    "flutter_patched_sdk_product",
                    "flutter_patched_sdk_product",
                ),
            ),
            Argument::Text("--target=flutter"),
            Argument::Text("--no-print-incremental-dependencies"),
            Argument::Text("-Ddart.vm.profile=false"),
            Argument::Text("-Ddart.vm.product=true"),
            Argument::Text("--delete-tostring-package-uri=dart:ui"),
            Argument::Text("--delete-tostring-package-uri=package:flutter"),
            Argument::Text("--aot"),
            Argument::Text("--tfa"),
            Argument::Text("--target-os"),
            Argument::Text("windows"),
            Argument::Text("--packages"),
            Argument::Path(Location::Below(Root::Project, ".dart_tool", "package_config.json")),
            Argument::Text("--output-dill"),
            Argument::Path(Location::In(Root::Build, "kernel_snapshot.dill")),
            Argument::Path(Location::Below(Root::Project, "lib", "main.dart")),
        ],
    }
}

/// The command that compiles the kernel to machine code.
pub open spec fn aot_command() -> CommandView {
    CommandView {
        program: Argument::Path(
            Location::Below(
                Root::EngineArtifacts,
                "windows-x64-embedder-release",
                "gen_snapshot.exe",
            ),
        ),
        args: seq![
            Argument::Text("--deterministic"),
            Argument::Text("--snapshot_kind=app-aot-elf"),
            Argument::Prefixed("--elf=", Location::In(Root::Build, "app.so")),
            Argument::Text("--strip"),
            Argument::Path(Location::In(Root::Build, "kernel_snapshot.dill")),
        ],
    }
}

/// The commands that compile the application once its bundle is built: in release mode to the
/// kernel and from there to machine code, in debug mode none.
pub fn flutter_build(build_mode: BuildMode) -> (res: Vec<CommandLine>)
    ensures
        command_views(res@) == (match build_mode {
            BuildMode::Debug => seq![],
            BuildMode::Release => seq![kernel_command(), aot_command()],
        }),
{
    match build_mode {
        BuildMode::Debug => {
            let res: Vec<CommandLine> = Vec::new();
            assert(command_views(res@) =~= seq![]);
            res
        },
        BuildMode::Release => {
            let kernel = CommandLine {
                program: Argument::Path(
                    Location::In(Root::FlutterBin, "cache/dart-sdk/bin/dartaotruntime.exe"),
                ),
                args: vec![
                    Argument::Path(
                        Location::Below(
                            Root::EngineArtifacts,
                            "artifacts",
                            "frontend_server_aot.dart.snapshot",
                        ),
                    ),
                    Argument::Text("--sdk-root"),
                    Argument::Path(
                        Location::Below(
                            Root::EngineArtifacts,
                            "flutter_patched_sdk_product",
                            "flutter_patched_sdk_product",
                        ),
                    ),
                    Argument::Text("--target=flutter"),
                    Argument::Text("--no-print-incremental-dependencies"),
                    Argument::Text("-Ddart.vm.profile=false"),
                    Argument::Text("-Ddart.vm.product=true"),
                    Argument::Text("--delete-tostring-package-uri=dart:ui"),
                    Argument::Text("--delete-tostring-package-uri=package:flutter"),
                    Argument::Text("--aot"),
                    Argument::Text("--tfa"),
                    Argument::Text("--target-os"),
                    Argument::Text("windows"),
                    Argument::Text("--packages"),
                    Argument::Path(
                        Location::Below(Root::Project, ".dart_tool", "package_config.json"),
                    ),
                    Argument::Text("--output-dill"),
                    Argument::Path(Location::In(Root::Build, "kernel_snapshot.dill")),
                    Argument::Path(Location::Below(Root::Project, "lib", "main.dart")),
                ],
            };
            let aot = CommandLine {
                program: Argument::Path(
                    Location::Below(
                        Root::EngineArtifacts,
                        "windows-x64-embedder-release",
                        "gen_snapshot.exe",
                    ),
                ),
                args: vec![
                    Argument::Text("--deterministic"),
                    Argument::Text("--snapshot_kind=app-aot-elf"),
                    Argument::Prefixed("--elf=", Location::In(Root::Build, "app.so")),
                    Argument::Text("--strip"),
                    Argument::Path(Location::In(Root::Build, "kernel_snapshot.dill")),
                ],
            };
            assert(kernel@ =~= kernel_command());
            assert(aot@ =~= aot_command());
            let res: Vec<CommandLine> = vec![kernel, aot];
            assert(command_views(res@) =~= seq![kernel_command(), aot_command()]);
            res
        },
    }
}

/// The step of a search for a file, from a directory upwards.
#[derive(Clone, Copy, Debug, PartialEq, Eq, Structural)]
pub enum SearchStep {
    /// The file is in this directory.
    Found,
    /// Look in the directory above.
    Up,
    /// There is no directory above: the file was not found.
    NotFound,
}

/// What to do after looking for the file in a directory.
pub fn search_step(is_here: bool, has_parent: bool) -> (res: SearchStep)
    ensures
        res == search(is_here, has_parent),
{
    if is_here {
        SearchStep::Found
    } else if has_parent {
        SearchStep::Up
    } else {
        SearchStep::NotFound
    }
}

/// The directory, counted upwards, in which the search ends: the first one with the file. `None`
/// where no directory has it. `is_here` tells of each directory, from the lowest to the root,
/// whether the file is in it.
pub open spec fn nearest(is_here: Seq<bool>) -> Option<nat>
    decreases is_here.len(),
{
    if is_here.len() == 0 {
        None
    } else {
        match search(is_here[0], is_here.len() > 1) {
            SearchStep::Found => Some(0),
            SearchStep::Up => match nearest(is_here.skip(1)) {
                Some(n) => Some(n + 1),
                None => None,
            },
            SearchStep::NotFound => None,
        }
    }
}

/// What to do after looking for the file in a directory.
pub open spec fn search(is_here: bool, has_parent: bool) -> SearchStep {
    if is_here {
        SearchStep::Found
    } else if has_parent {
        SearchStep::Up
    } else {
        SearchStep::NotFound
    }
}

/// The search finds the file in the lowest directory that has it, and fails only where none has.
pub proof fn search_finds_the_nearest(is_here: Seq<bool>)
    ensures
        match nearest(is_here) {
            Some(n) => n < is_here.len() && is_here[n as int] && forall|i: int|
                0 <= i < n ==> !#[trigger] is_here[i],
            None => forall|i: int| 0 <= i < is_here.len() ==> !#[trigger] is_here[i],
        },
    decreases is_here.len(),
{
    if is_here.len() > 0 && !is_here[0] {
        let above = is_here.skip(1);
        search_finds_the_nearest(above);
        assert forall|i: int| 0 < i < is_here.len() implies is_here[i] == above[i - 1] by {}
    }
}

/// Whether a character is white space.
pub open spec fn is_white_space(c: char) -> bool {
    ||| 0x9 <= c as u32 <= 0xD
    ||| c as u32 == 0x20
    ||| c as u32 == 0x85
    ||| c as u32 == 0xA0
    ||| c as u32 == 0x1680
    ||| 0x2000 <= c as u32 <= 0x200A
    ||| c as u32 == 0x2028
    ||| c as u32 == 0x2029
    ||| c as u32 == 0x202F
    ||| c as u32 == 0x205F
    ||| c as u32 == 0x3000
}

/// A text without the white space at its start.
pub open spec fn trimmed_start(text: Seq<char>) -> Seq<char>
    decreases text.len(),
{
    if text.len() > 0 && is_white_space(text[0]) {
        trimmed_start(text.skip(1))
    } else {
        text
    }
}

/// A text without the white space at its end.
pub open spec fn trimmed_end(text: Seq<char>) -> Seq<char>
    decreases text.len(),
{
    if text.len() > 0 && is_white_space(text.last()) {
        trimmed_end(text.drop_last())
    } else {
        text
    }
}

/// `str::trim` takes the white space off both ends of a text. White space is what has the
/// Unicode property of that name.
pub assume_specification[ str::trim ](text: &str) -> (res: &str)
    ensures
        res@ == trimmed_end(trimmed_start(text@)),
;

/// The engine commit, from the file that holds it.
pub fn engine_commit(version_file: &str) -> (res: &str)
    ensures
        res@ == trimmed_end(trimmed_start(version_file@)),
{
    version_file.trim()
}

/// A file that the build tool fetches from the network and unpacks.
#[derive(Debug)]
pub struct Download {
    /// The directory that it is unpacked to, in that of the engine artifacts.
    pub name: &'static str,
    pub url: String,
}

/// The model of a [`Download`].
#[verifier::ext_equal]
pub struct DownloadView {
    pub name: &'static str,
    pub url: Seq<char>,
}

impl View for Download {
    type V = DownloadView;

    open spec fn view(&self) -> DownloadView {
        DownloadView { name: self.name, url: self.url@ }
    }
}

/// The models of some downloads.
pub open spec fn download_views(downloads: Seq<Download>) -> Seq<DownloadView> {
    downloads.map_values(|d: Download| d@)
}

/// The artifacts of the engine: the directory that each is unpacked to, and its archive.
pub open spec fn engine_artifacts() -> Seq<(&'static str, &'static str)> {
    seq![
        ("artifacts", "windows-x64/artifacts.zip"),
        ("flutter_patched_sdk_product", "flutter_patched_sdk_product.zip"),
        ("windows-x64-embedder", "windows-x64/windows-x64-embedder.zip"),
        ("windows-x64-flutter", "windows-x64-debug/windows-x64-flutter.zip"),
        ("flutter-cpp-client-wrapper", "windows-x64/flutter-cpp-client-wrapper.zip"),
    ]
}

/// Where an archive of an engine commit is.
pub open spec fn engine_archive_url(commit: Seq<char>, archive: Seq<char>) -> Seq<char> {
    "https://storage.googleapis.com/flutter_infra_release/flutter/"@ + commit + "/"@ + archive
}

/// Where the engine that was built for release mode is.
pub open spec fn release_engine_url(commit: Seq<char>) -> Seq<char> {
    "https://github.com/hasali19/flutter-engine-build/releases/download/build-"@ + commit
        + "/windows-x64-embedder-release.zip"@
}

/// The downloads of the artifacts that are missing. `missing` tells of each of the artifacts
/// whether it is.
pub open spec fn missing_artifacts(
    commit: Seq<char>,
    artifacts: Seq<(&'static str, &'static str)>,
    missing: Seq<bool>,
) -> Seq<DownloadView>
    decreases artifacts.len(),
{
    if artifacts.len() == 0 {
        Seq::empty()
    } else {
        let rest = missing_artifacts(commit, artifacts.drop_last(), missing);
        let (name, archive) = artifacts.last();
        if missing[artifacts.len() - 1] {
            rest.push(DownloadView { name, url: engine_archive_url(commit, archive@) })
        } else {
            rest
        }
    }
}

/// The download of an archive of an engine commit.
pub fn download_google_engine_artifact(
    engine_commit: &str,
    name: &'static str,
    archive_name: &str,
) -> (res: Download)
    ensures
        res@ == (DownloadView { name, url: engine_archive_url(engine_commit@, archive_name@) }),
{
    let mut url = "https://storage.googleapis.com/flutter_infra_release/flutter/".to_owned();
    url.append(engine_commit);
    url.append("/");
    url.append(archive_name);
    Download { name, url }
}

/// The artifacts of the engine: the directory that each is unpacked to, and its archive.
pub fn engine_artifact_list() -> (res: Vec<(&'static str, &'static str)>)
    ensures
        res@ == engine_artifacts(),
{
    vec![
        ("artifacts", "windows-x64/artifacts.zip"),
        ("flutter_patched_sdk_product", "flutter_patched_sdk_product.zip"),
        ("windows-x64-embedder", "windows-x64/windows-x64-embedder.zip"),
        ("windows-x64-flutter", "windows-x64-debug/windows-x64-flutter.zip"),
        ("flutter-cpp-client-wrapper", "windows-x64/flutter-cpp-client-wrapper.zip"),
    ]
}

/// The downloads that an engine commit still needs: the artifacts that are missing, and behind
/// them the engine for release mode where that is missing.
pub fn download_engine_artifacts(
    engine_commit: &str,
    missing: &Vec<bool>,
    release_missing: bool,
) -> (res: Vec<Download>)
    requires
        missing@.len() == engine_artifacts().len(),
    ensures
        download_views(res@) == missing_artifacts(engine_commit@, engine_artifacts(), missing@)
            + if release_missing {
            seq![
                DownloadView {
                    name: "windows-x64-embedder-release",
                    url: release_engine_url(engine_commit@),
                },
            ]
        } else {
            seq![]
        },
{
    let artifacts = engine_artifact_list();
    let mut downloads: Vec<Download> = Vec::new();
    let mut i: usize = 0;
    assert(download_views(downloads@) =~= missing_artifacts(
        engine_commit@,
        artifacts@.take(0),
        missing@,
    ));
    while i < artifacts.len()
        invariant
            i <= artifacts@.len(),
            missing@.len() == artifacts@.len(),
            download_views(downloads@) == missing_artifacts(
                engine_commit@,
                artifacts@.take(i as int),
                missing@,
            ),
        decreases artifacts@.len() - i,
    {
        assert(artifacts@.take(i + 1).drop_last() =~= artifacts@.take(i as int));
        let ghost before = download_views(downloads@);
        if missing[i] {
            let (name, archive_name) = artifacts[i];
            let download = download_google_engine_artifact(engine_commit, name, archive_name);
            downloads.push(download);
            assert(download_views(downloads@) =~= before.push(download@));
        }
        i += 1;
    }
    assert(artifacts@.take(i as int) =~= artifacts@);
    let ghost before = download_views(downloads@);
    if release_missing {
        let mut url =
            "https://github.com/hasali19/flutter-engine-build/releases/download/build-".to_owned();
        url.append(engine_commit);
        url.append("/windows-x64-embedder-release.zip");
        let download = Download { name: "windows-x64-embedder-release", url };
        downloads.push(download);
        assert(download_views(downloads@) =~= before + seq![download@]);
    } else {
        assert(before =~= before + seq![]);
    }
    downloads
}

/// Whether a file is copied to a destination. `modified` holds the times at which the source and
/// the destination were changed, counted from any common start, or `None` where there is no
/// destination yet.
pub fn should_copy(modified: Option<(i128, i128)>) -> (res: bool)
    ensures
        res == (match modified {
            Some((source, destination)) => source > destination,
            None => true,
        }),
{
    match modified {
        Some((source, destination)) => source > destination,
        None => true,
    }
}

/// Where the graphics library is, in the version that the embedder uses.
pub const ANGLE_URL: &'static str =
    "https://github.com/hasali19/angle-build/releases/download/build-2024-10-05-23-15/angle-win64.tar.gz";

/// The name that the archive with the graphics library gets.
pub const ANGLE_ARCHIVE: &'static str = "angle-win64-2024-10-05-23-15.tar.gz";

/// A step of providing the native libraries.
#[derive(Clone, Copy, Debug)]
pub enum LibraryStep {
    /// Copy a file into the directory for what Cargo builds, if it is newer.
    Copy { from: Location, name: &'static str },
    /// Fetch a file from the network.
    Fetch { url: &'static str, to: Location },
    /// Remove a directory, if it is there.
    RemoveDirectory(Location),
    /// Unpack an archive into a directory.
    Unpack { archive: Location, into: Location },
    /// Remove a file.
    RemoveFile(Location),
}

/// The directory with the engine of a mode.
pub open spec fn embedder_directory(build_mode: BuildMode) -> &'static str {
    match build_mode {
        BuildMode::Debug => "windows-x64-embedder",
        BuildMode::Release => "windows-x64-embedder-release",
    }
}

/// The directory with the engine of a mode.
pub fn embedder_dir(build_mode: BuildMode) -> (res: &'static str)
    ensures
        res == embedder_directory(build_mode),
{
    match build_mode {
        BuildMode::Debug => "windows-x64-embedder",
        BuildMode::Release => "windows-x64-embedder-release",
    }
}

/// The steps that provide the libraries of the engine.
pub open spec fn engine_library_steps(build_mode: BuildMode) -> Seq<LibraryStep> {
    seq![
        LibraryStep::Copy {
            from: Location::Below(
                Root::EngineArtifacts,
                embedder_directory(build_mode),
                "flutter_engine.dll",
            ),
            name: "flutter_engine.dll",
        },
        LibraryStep::Copy {
            from: Location::Below(Root::EngineArtifacts, "artifacts", "icudtl.dat"),
            name: "icudtl.dat",
        },
    ]
}

/// The steps that fetch the graphics library.
pub open spec fn angle_fetch_steps() -> Seq<LibraryStep> {
    seq![
        LibraryStep::Fetch { url: ANGLE_URL, to: Location::In(Root::Build, ANGLE_ARCHIVE) },
        LibraryStep::RemoveDirectory(Location::In(Root::Build, "angle-win64")),
        LibraryStep::Unpack {
            archive: Location::In(Root::Build, ANGLE_ARCHIVE),
            into: Location::At(Root::Build),
        },
        LibraryStep::RemoveFile(Location::In(Root::Build, ANGLE_ARCHIVE)),
    ]
}

/// The steps that provide the graphics library once it is there.
pub open spec fn angle_copy_steps() -> Seq<LibraryStep> {
    seq![
        LibraryStep::Copy {
            from: Location::Deeper(Root::Build, "angle-win64", "bin", "libEGL.dll"),
            name: "libEGL.dll",
        },
        LibraryStep::Copy {
            from: Location::Deeper(Root::Build, "angle-win64", "bin", "libGLESv2.dll"),
            name: "libGLESv2.dll",
        },
    ]
}

/// The steps that provide the native libraries of an application. The graphics library is fetched
/// only where it is not there.
pub fn copy_native_libraries(build_mode: BuildMode, angle_is_here: bool) -> (res: Vec<LibraryStep>)
    ensures
        res@ == engine_library_steps(build_mode) + if angle_is_here {
            seq![]
        } else {
            angle_fetch_steps()
        } + angle_copy_steps(),
{
    let mut steps: Vec<LibraryStep> = vec![
        LibraryStep::Copy {
            from: Location::Below(
                Root::EngineArtifacts,
                embedder_dir(build_mode),
                "flutter_engine.dll",
            ),
            name: "flutter_engine.dll",
        },
        LibraryStep::Copy {
            from: Location::Below(Root::EngineArtifacts, "artifacts", "icudtl.dat"),
            name: "icudtl.dat",
        },
    ];
    if !angle_is_here {
        let archive = Location::In(Root::Build, ANGLE_ARCHIVE);
        steps.push(LibraryStep::Fetch { url: ANGLE_URL, to: archive });
        steps.push(LibraryStep::RemoveDirectory(Location::In(Root::Build, "angle-win64")));
        steps.push(LibraryStep::Unpack { archive, into: Location::At(Root::Build) });
        steps.push(LibraryStep::RemoveFile(archive));
    }
    steps.push(
        LibraryStep::Copy {
            from: Location::Deeper(Root::Build, "angle-win64", "bin", "libEGL.dll"),
            name: "libEGL.dll",
        },
    );
    steps.push(
        LibraryStep::Copy {
            from: Location::Deeper(Root::Build, "angle-win64", "bin", "libGLESv2.dll"),
            name: "libGLESv2.dll",
        },
    );
    assert(steps@ =~= engine_library_steps(build_mode) + if angle_is_here {
        seq![]
    } else {
        angle_fetch_steps()
    } + angle_copy_steps());
    steps
}

/// The library that plugins are linked with.
pub open spec fn plugins_shim() -> Location {
    Location::In(Root::Plugins, "flion_plugins_shim.dll")
}

/// The command that compiles the library that plugins are linked with, from its source text on
/// the standard input.
pub open spec fn plugins_shim_command() -> CommandView {
    CommandView {
        program: Argument::Text("rustc"),
        args: seq![
            Argument::Text("-"),
            Argument::Text("--crate-name"),
            Argument::Text("flion_plugins_shim"),
            Argument::Text("--crate-type"),
            Argument::Text("cdylib"),
            Argument::Text("--edition=2024"),
            Argument::Text("--cfg"),
            Argument::Text("cdylib"),
            Argument::Text("-C"),
            Argument::Text("target-feature=+crt-static"),
            Argument::Text("-o"),
            Argument::Path(plugins_shim()),
        ],
    }
}

/// The command that compiles the library that plugins are linked with, where it is not there yet,
/// and the step that copies it.
pub fn compile_plugins_shim(shim_is_here: bool) -> (res: (Option<CommandLine>, LibraryStep))
    ensures
        match res.0 {
            Some(command) => !shim_is_here && command@ == plugins_shim_command(),
            None => shim_is_here,
        },
        res.1 == (LibraryStep::Copy { from: plugins_shim(), name: "flion_plugins_shim.dll" }),
{
    let library = Location::In(Root::Plugins, "flion_plugins_shim.dll");
    let copy = LibraryStep::Copy { from: library, name: "flion_plugins_shim.dll" };
    if shim_is_here {
        (None, copy)
    } else {
        let command = CommandLine {
            program: Argument::Text("rustc"),
            args: vec![
                Argument::Text("-"),
                Argument::Text("--crate-name"),
                Argument::Text("flion_plugins_shim"),
                Argument::Text("--crate-type"),
                Argument::Text("cdylib"),
                Argument::Text("--edition=2024"),
                Argument::Text("--cfg"),
                Argument::Text("cdylib"),
                Argument::Text("-C"),
                Argument::Text("target-feature=+crt-static"),
                Argument::Text("-o"),
                Argument::Path(library),
            ],
        };
        assert(command@ =~= plugins_shim_command());
        (Some(command), copy)
    }
}

/// A command whose output goes to a file.
#[derive(Debug)]
pub struct LoggedCommand {
    pub command: CommandLine,
    /// The directory that it runs in.
    pub directory: Option<Location>,
    pub log: Location,
}

/// The model of a [`LoggedCommand`].
#[verifier::ext_equal]
pub struct LoggedCommandView {
    pub command: CommandView,
    pub directory: Option<Location>,
    pub log: Location,
}

impl View for LoggedCommand {
    type V = LoggedCommandView;

    open spec fn view(&self) -> LoggedCommandView {
        LoggedCommandView { command: self.command@, directory: self.directory, log: self.log }
    }
}

/// The commands that generate, build and install the plugins.
pub open spec fn cmake_commands() -> Seq<LoggedCommandView> {
    let directory = Location::In(Root::Plugins, "build");
    seq![
        LoggedCommandView {
            command: CommandView {
                program: Argument::Text("cmake"),
                args: seq![
                    Argument::Path(Location::At(Root::Plugins)),
                    Argument::PluginNames,
                    Argument::Prefixed("-DCMAKE_INSTALL_PREFIX=", Location::At(Root::Plugins)),
                    Argument::Text("-DCMAKE_BUILD_TYPE=Release"),
                ],
            },
            directory: Some(directory),
            log: Location::In(Root::Plugins, "cmake_gen.txt"),
        },
        LoggedCommandView {
            command: CommandView {
                program: Argument::Text("cmake"),
                args: seq![
                    Argument::Text("--build"),
                    Argument::Path(directory),
                    Argument::Text("--config"),
                    Argument::Text("Release"),
                ],
            },
            directory: None,
            log: Location::In(Root::Plugins, "cmake_build.txt"),
        },
        LoggedCommandView {
            command: CommandView {
                program: Argument::Text("cmake"),
                args: seq![
                    Argument::Text("--install"),
                    Argument::Text("."),
                    Argument::Text("--config"),
                    Argument::Text("Release"),
                ],
            },
            directory: Some(directory),
            log: Location::In(Root::Plugins, "cmake_install.txt"),
        },
    ]
}

/// The commands that generate, build and install the plugins.
pub fn build_plugins() -> (res: Vec<LoggedCommand>)
    ensures
        res@.map_values(|c: LoggedCommand| c@) == cmake_commands(),
{
    let directory = Location::In(Root::Plugins, "build");
    let generate = LoggedCommand {
        command: CommandLine {
            program: Argument::Text("cmake"),
            args: vec![
                Argument::Path(Location::At(Root::Plugins)),
                Argument::PluginNames,
                Argument::Prefixed("-DCMAKE_INSTALL_PREFIX=", Location::At(Root::Plugins)),
                Argument::Text("-DCMAKE_BUILD_TYPE=Release"),
            ],
        },
        directory: Some(directory),
        log: Location::In(Root::Plugins, "cmake_gen.txt"),
    };
    let build = LoggedCommand {
        command: CommandLine {
            program: Argument::Text("cmake"),
            args: vec![
                Argument::Text("--build"),
                Argument::Path(directory),
                Argument::Text("--config"),
                Argument::Text("Release"),
            ],
        },
        directory: None,
        log: Location::In(Root::Plugins, "cmake_build.txt"),
    };
    let install = LoggedCommand {
        command: CommandLine {
            program: Argument::Text("cmake"),
            args: vec![
                Argument::Text("--install"),
                Argument::Text("."),
                Argument::Text("--config"),
                Argument::Text("Release"),
            ],
        },
        directory: Some(directory),
        log: Location::In(Root::Plugins, "cmake_install.txt"),
    };
    assert(generate@ =~= cmake_commands()[0]);
    assert(build@ =~= cmake_commands()[1]);
    assert(install@ =~= cmake_commands()[2]);
    let res: Vec<LoggedCommand> = vec![generate, build, install];
    assert(res@.map_values(|c: LoggedCommand| c@) =~= cmake_commands());
    res
}

/// The environment variables of the application, each with a place in the file system.
pub open spec fn environment(build_mode: BuildMode) -> Seq<(&'static str, Location)> {
    seq![
        (
            "FLUTTER_EMBEDDER_PATH",
            Location::In(Root::EngineArtifacts, embedder_directory(build_mode)),
        ),
        ("ANGLE_PATH", Location::In(Root::Build, "angle-win64")),
        (ASSETS_PATH_VARIABLE, Location::In(Root::FlutterBuild, "flutter_assets")),
        (AOT_LIBRARY_PATH_VARIABLE, Location::In(Root::Build, "app.so")),
    ]
}

/// The environment variables of the application.
pub fn run_environment(build_mode: BuildMode) -> (res: Vec<(&'static str, Location)>)
    ensures
        res@ == environment(build_mode),
{
    vec![
        (
            "FLUTTER_EMBEDDER_PATH",
            Location::In(Root::EngineArtifacts, embedder_dir(build_mode)),
        ),
        ("ANGLE_PATH", Location::In(Root::Build, "angle-win64")),
        (ASSETS_PATH_VARIABLE, Location::In(Root::FlutterBuild, "flutter_assets")),
        (AOT_LIBRARY_PATH_VARIABLE, Location::In(Root::Build, "app.so")),
    ]
}

/// The command that builds and runs the application.
pub fn run_command(build_mode: BuildMode) -> (res: CommandLine)
    ensures
        res.program == Argument::Text("cargo"),
        res.args@.len() == 3,
        res.args@[0] == Argument::Text("run"),
        res.args@[1] == Argument::Text("--profile"),
        res.args@[2] matches Argument::Text(profile) && profile@ == (match build_mode {
            BuildMode::Debug => "dev"@,
            BuildMode::Release => "release"@,
        }),
{
    CommandLine {
        program: Argument::Text("cargo"),
        args: vec![
            Argument::Text("run"),
            Argument::Text("--profile"),
            Argument::Text(build_mode.cargo_profile()),
        ],
    }
}

/// The code with which the tool exits, given that of the application: 1 where the application
/// failed. An application that was ended without a code did not fail.
pub fn exit_code(code: Option<i32>) -> (res: i32)
    ensures
        res == (if code is Some && code->0 != 0 {
            1int
        } else {
            0
        }),
{
    match code {
        Some(code) => if code != 0 {
            1
        } else {
            0
        },
        None => 0,
    }
}

/// The directives that make Cargo link the graphics library in this directory.
pub fn angle_link_directives(lib_dir: &str, for_windows: bool) -> (res: Vec<String>)
    ensures
        res@.map_values(|s: String| s@) == seq!["cargo:rustc-link-search=native="@ + lib_dir@]
            + if for_windows {
            seq![
                "cargo:rustc-link-lib=dylib=libEGL.dll"@,
                "cargo:rustc-link-lib=dylib=libGLESv2.dll"@,
            ]
        } else {
            seq![]
        },
{
    let mut search = "cargo:rustc-link-search=native=".to_owned();
    search.append(lib_dir);
    let mut res: Vec<String> = Vec::new();
    res.push(search);
    if for_windows {
        res.push("cargo:rustc-link-lib=dylib=libEGL.dll".to_owned());
        res.push("cargo:rustc-link-lib=dylib=libGLESv2.dll".to_owned());
    }
    assert(res@.map_values(|s: String| s@) =~= seq![
        "cargo:rustc-link-search=native="@ + lib_dir@,
    ] + if for_windows {
        seq![
            "cargo:rustc-link-lib=dylib=libEGL.dll"@,
            "cargo:rustc-link-lib=dylib=libGLESv2.dll"@,
        ]
    } else {
        seq![]
    });
    res
}

/// The directives that make Cargo link the engine in this directory.
pub fn embedder_link_directives(embedder_path: &str) -> (res: Vec<String>)
    ensures
        res@.map_values(|s: String| s@) == seq![
            "cargo::rustc-link-search=native="@ + embedder_path@,
            "cargo::rustc-link-lib=dylib=flutter_engine.dll"@,
        ],
{
    let mut search = "cargo::rustc-link-search=native=".to_owned();
    search.append(embedder_path);
    let res: Vec<String> = vec![
        search,
        "cargo::rustc-link-lib=dylib=flutter_engine.dll".to_owned(),
    ];
    assert(res@.map_values(|s: String| s@) =~= seq![
        "cargo::rustc-link-search=native="@ + embedder_path@,
        "cargo::rustc-link-lib=dylib=flutter_engine.dll"@,
    ]);
    res
}

/// A text that was trimmed neither starts nor ends with white space, and trimming it again
/// changes nothing.
pub proof fn trimming_twice(text: Seq<char>)
    ensures
        ({
            let once = trimmed_end(trimmed_start(text));
            &&& trimmed_end(trimmed_start(once)) == once
            &&& once.len() > 0 ==> !is_white_space(once[0]) && !is_white_space(once.last())
        }),
{
    lemma_trimmed_start(text);
    lemma_trimmed_end(trimmed_start(text));
}

proof fn lemma_trimmed_start(text: Seq<char>)
    ensures
        trimmed_start(text).len() > 0 ==> !is_white_space(trimmed_start(text)[0]),
    decreases text.len(),
{
    if text.len() > 0 && is_white_space(text[0]) {
        lemma_trimmed_start(text.skip(1));
    }
}

proof fn lemma_trimmed_end(text: Seq<char>)
    ensures
        trimmed_end(text).len() <= text.len(),
        trimmed_end(text).len() > 0 ==> trimmed_end(text)[0] == text[0] && !is_white_space(
            trimmed_end(text).last(),
        ),
    decreases text.len(),
{
    if text.len() > 0 && is_white_space(text.last()) {
        lemma_trimmed_end(text.drop_last());
    }
}

/// A path in the project.
pub open spec fn in_project(parts: Seq<Seq<char>>) -> PathView {
    PathView { base: Base::Project, parts }
}

/// A path leads through the names of its place, behind those of its directory: the directory of the
/// Flutter program and that of the project are where paths start, what Flutter builds is in `build`
/// of the project, and below that in `flion` are what the tool builds, the plugins in `plugins`, and
/// what belongs to an engine commit in a directory with its name.
pub proof fn paths_lead_to_their_places(location: Location, engine_commit: &str, path: PathBelow)
    requires
        call_ensures(Location::path, (&location, engine_commit), path),
    ensures
        ({
            let (root, names): (Root, Seq<Seq<char>>) = match location {
                Location::At(root) => (root, seq![]),
                Location::In(root, name) => (root, seq![name@]),
                Location::Below(root, dir, name) => (root, seq![dir@, name@]),
                Location::Deeper(root, dir, sub_dir, name) => (root, seq![dir@, sub_dir@, name@]),
            };
            let start: Seq<Seq<char>> = match root {
                Root::FlutterBin | Root::Project => seq![],
                Root::FlutterBuild => seq!["build"@],
                Root::Build => seq!["build"@, "flion"@],
                Root::Plugins => seq!["build"@, "flion"@, "plugins"@],
                Root::EngineArtifacts => seq!["build"@, "flion"@, engine_commit@],
            };
            &&& path.base is FlutterBin <==> root is FlutterBin
            &&& path.parts@.len() == start.len() + names.len()
            &&& forall|i: int|
                0 <= i < start.len() ==> (#[trigger] path.parts@[i])@ == start[i]
            &&& forall|i: int|
                start.len() <= i < path.parts@.len() ==> (#[trigger] path.parts@[i])@ == names[i
                    - start.len()]
        }),
{
    let texts = path@.parts;
    assert forall|i: int| 0 <= i < path.parts@.len() implies (#[trigger] path.parts@[i])@
        == texts[i] by {}
    let (root, names): (Root, Seq<Seq<char>>) = match location {
        Location::At(root) => (root, seq![]),
        Location::In(root, name) => (root, seq![name@]),
        Location::Below(root, dir, name) => (root, seq![dir@, name@]),
        Location::Deeper(root, dir, sub_dir, name) => (root, seq![dir@, sub_dir@, name@]),
    };
    let start: Seq<Seq<char>> = match root {
        Root::FlutterBin | Root::Project => seq![],
        Root::FlutterBuild => seq!["build"@],
        Root::Build => seq!["build"@, "flion"@],
        Root::Plugins => seq!["build"@, "flion"@, "plugins"@],
        Root::EngineArtifacts => seq!["build"@, "flion"@, engine_commit@],
    };
    assert(texts == location_path(location, engine_commit@).parts);
    assert(texts =~= start + names);
}

/// The same holds of the path of a directory: it is that of the place which is the directory.
pub proof fn directory_is_its_own_place(root: Root, engine_commit: &str, path: PathBelow)
    requires
        call_ensures(Root::path, (&root, engine_commit), path),
    ensures
        path@ == location_path(Location::At(root), engine_commit@),
{
}

/// The application finds each thing in its environment exactly once and where it is: the engine of
/// its mode among the artifacts of the engine commit, the graphics library in `build/flion`, the
/// assets where Flutter puts them in `build`, and the compiled code in `build/flion`.
pub proof fn variables_lead_to_what_was_built(
    build_mode: BuildMode,
    environment: Vec<(&'static str, Location)>,
    engine_commit: Seq<char>,
    i: int,
)
    requires
        call_ensures(run_environment, (build_mode,), environment),
        0 <= i < environment@.len(),
    ensures
        environment@.len() == 4,
        forall|j: int| 0 <= j < 4 && j != i ==> environment@[i].0@ != (#[trigger] environment@[j]).0@,
        ({
            let name = environment@[i].0@;
            let path = location_path(environment@[i].1, engine_commit);
            ||| {
                &&& name == "FLUTTER_EMBEDDER_PATH"@
                &&& path == in_project(
                    seq![
                        "build"@,
                        "flion"@,
                        engine_commit,
                        match build_mode {
                            BuildMode::Debug => "windows-x64-embedder"@,
                            BuildMode::Release => "windows-x64-embedder-release"@,
                        },
                    ],
                )
            }
            ||| {
                &&& name == "ANGLE_PATH"@
                &&& path == in_project(seq!["build"@, "flion"@, "angle-win64"@])
            }
            ||| {
                &&& name == "FLION_ASSETS_PATH"@
                &&& path == in_project(seq!["build"@, "flutter_assets"@])
            }
            ||| {
                &&& name == "FLION_AOT_LIBRARY_PATH"@
                &&& path == in_project(seq!["build"@, "flion"@, "app.so"@])
            }
        }),
{
    reveal_strlit("FLUTTER_EMBEDDER_PATH");
    reveal_strlit("ANGLE_PATH");
    reveal_strlit("FLION_ASSETS_PATH");
    reveal_strlit("FLION_AOT_LIBRARY_PATH");
    assert(environment@[0].0@.len() == 21);
    assert(environment@[1].0@.len() == 10);
    assert(environment@[2].0@.len() == 17);
    assert(environment@[3].0@.len() == 22);
    let path = location_path(environment@[i].1, engine_commit);
    if i == 0 {
        assert(path =~= in_project(
            seq!["build"@, "flion"@, engine_commit, embedder_directory(build_mode)@],
        ));
    } else if i == 1 {
        assert(path =~= in_project(seq!["build"@, "flion"@, "angle-win64"@]));
    } else if i == 2 {
        assert(path =~= in_project(seq!["build"@, "flutter_assets"@]));
    } else {
        assert(path =~= in_project(seq!["build"@, "flion"@, "app.so"@]));
    }
}

/// Whether an argument is this text.
pub open spec fn is_text(argument: Argument, text: Seq<char>) -> bool {
    argument matches Argument::Text(own) && own@ == text
}

/// Whether an argument is the path of this place.
pub open spec fn is_path(argument: Argument, engine_commit: Seq<char>, path: PathView) -> bool {
    argument matches Argument::Path(location) && location_path(location, engine_commit) == path
}

/// Whether an option is among the arguments and this text is right behind it.
pub open spec fn has_option(args: Seq<Argument>, option: Seq<char>, text: Seq<char>) -> bool {
    exists|i: int|
        0 <= i < args.len() - 1 && is_text(#[trigger] args[i], option) && is_text(
            args[i + 1],
            text,
        )
}

/// Whether an option is among the arguments and this path is right behind it.
pub open spec fn has_path_option(
    args: Seq<Argument>,
    option: Seq<char>,
    engine_commit: Seq<char>,
    path: PathView,
) -> bool {
    exists|i: int|
        0 <= i < args.len() - 1 && is_text(#[trigger] args[i], option) && is_path(
            args[i + 1],
            engine_commit,
            path,
        )
}

/// Whether a flag is among the arguments.
pub open spec fn has_flag(args: Seq<Argument>, flag: Seq<char>) -> bool {
    exists|i: int| 0 <= i < args.len() && is_text(#[trigger] args[i], flag)
}

/// In debug mode nothing is compiled. In release mode the program in `lib/main.dart` of the project
/// is compiled, ahead of time and for Windows, to the file that the second command compiles to the
/// library which the application finds in its environment.
pub proof fn release_is_compiled_in_two_steps(
    build_mode: BuildMode,
    commands: Vec<CommandLine>,
    engine_commit: Seq<char>,
)
    requires
        call_ensures(flutter_build, (build_mode,), commands),
    ensures
        build_mode is Debug ==> commands@.len() == 0,
        build_mode is Release ==> {
            let first = commands@[0].args@;
            let second = commands@[1].args@;
            let kernel = in_project(seq!["build"@, "flion"@, "kernel_snapshot.dill"@]);
            &&& commands@.len() == 2
            &&& is_path(
                commands@[0].program,
                engine_commit,
                PathView {
                    base: Base::FlutterBin,
                    parts: seq!["cache/dart-sdk/bin/dartaotruntime.exe"@],
                },
            )
            &&& first.len() == 18
            &&& is_path(
                first[0],
                engine_commit,
                in_project(
                    seq![
                        "build"@,
                        "flion"@,
                        engine_commit,
                        "artifacts"@,
                        "frontend_server_aot.dart.snapshot"@,
                    ],
                ),
            )
            &&& has_path_option(
                first,
                "--sdk-root"@,
                engine_commit,
                in_project(
                    seq![
                        "build"@,
                        "flion"@,
                        engine_commit,
                        "flutter_patched_sdk_product"@,
                        "flutter_patched_sdk_product"@,
                    ],
                ),
            )
            &&& has_flag(first, "--target=flutter"@)
            &&& has_flag(first, "--no-print-incremental-dependencies"@)
            &&& has_flag(first, "-Ddart.vm.profile=false"@)
            &&& has_flag(first, "-Ddart.vm.product=true"@)
            &&& has_flag(first, "--delete-tostring-package-uri=dart:ui"@)
            &&& has_flag(first, "--delete-tostring-package-uri=package:flutter"@)
            &&& has_flag(first, "--aot"@)
            &&& has_flag(first, "--tfa"@)
            &&& has_option(first, "--target-os"@, "windows"@)
            &&& has_path_option(
                first,
                "--packages"@,
                engine_commit,
                in_project(seq![".dart_tool"@, "package_config.json"@]),
            )
            &&& has_path_option(first, "--output-dill"@, engine_commit, kernel)
            &&& is_path(first.last(), engine_commit, in_project(seq!["lib"@, "main.dart"@]))
            &&& is_path(
                commands@[1].program,
                engine_commit,
                in_project(
                    seq![
                        "build"@,
                        "flion"@,
                        engine_commit,
                        "windows-x64-embedder-release"@,
                        "gen_snapshot.exe"@,
                    ],
                ),
            )
            &&& second.len() == 5
            &&& has_flag(second, "--deterministic"@)
            &&& has_flag(second, "--snapshot_kind=app-aot-elf"@)
            &&& has_flag(second, "--strip"@)
            &&& exists|i: int|
                0 <= i < second.len() && (#[trigger] second[i] matches Argument::Prefixed(
                    prefix,
                    location,
                ) && prefix@ == "--elf="@ && location_path(location, engine_commit) == in_project(
                    seq!["build"@, "flion"@, "app.so"@],
                ))
            &&& is_path(second.last(), engine_commit, kernel)
        },
{
    if build_mode is Release {
        let views = command_views(commands@);
        assert(views.len() == commands@.len());
        assert(views[0] == commands@[0]@);
        assert(views[1] == commands@[1]@);
        let first = commands@[0].args@;
        let second = commands@[1].args@;
        assert(first == kernel_command().args);
        assert(second == aot_command().args);
        let commit = engine_commit;
        let kernel = in_project(seq!["build"@, "flion"@, "kernel_snapshot.dill"@]);
        assert(location_path(
            Location::In(Root::FlutterBin, "cache/dart-sdk/bin/dartaotruntime.exe"),
            commit,
        ) =~= (PathView {
            base: Base::FlutterBin,
            parts: seq!["cache/dart-sdk/bin/dartaotruntime.exe"@],
        }));
        assert(location_path(
            Location::Below(
                Root::EngineArtifacts,
                "artifacts",
                "frontend_server_aot.dart.snapshot",
            ),
            commit,
        ) =~= in_project(
            seq![
                "build"@,
                "flion"@,
                commit,
                "artifacts"@,
                "frontend_server_aot.dart.snapshot"@,
            ],
        ));
        let sdk = in_project(
            seq![
                "build"@,
                "flion"@,
                commit,
                "flutter_patched_sdk_product"@,
                "flutter_patched_sdk_product"@,
            ],
        );
        assert(location_path(
            Location::Below(
                Root::EngineArtifacts,
                "flutter_patched_sdk_product",
                "flutter_patched_sdk_product",
            ),
            commit,
        ) =~= sdk);
        assert(is_text(first[1], "--sdk-root"@) && is_path(first[2], commit, sdk));
        assert(is_text(first[3], "--target=flutter"@));
        assert(is_text(first[4], "--no-print-incremental-dependencies"@));
        assert(is_text(first[5], "-Ddart.vm.profile=false"@));
        assert(is_text(first[6], "-Ddart.vm.product=true"@));
        assert(is_text(first[7], "--delete-tostring-package-uri=dart:ui"@));
        assert(is_text(first[8], "--delete-tostring-package-uri=package:flutter"@));
        assert(is_text(first[9], "--aot"@));
        assert(is_text(first[10], "--tfa"@));
        assert(is_text(first[11], "--target-os"@) && is_text(first[12], "windows"@));
        let packages = in_project(seq![".dart_tool"@, "package_config.json"@]);
        assert(location_path(
            Location::Below(Root::Project, ".dart_tool", "package_config.json"),
            commit,
        ) =~= packages);
        assert(is_text(first[13], "--packages"@) && is_path(first[14], commit, packages));
        assert(location_path(Location::In(Root::Build, "kernel_snapshot.dill"), commit) =~= kernel);
        assert(is_text(first[15], "--output-dill"@) && is_path(first[16], commit, kernel));
        assert(location_path(Location::Below(Root::Project, "lib", "main.dart"), commit)
            =~= in_project(seq!["lib"@, "main.dart"@]));
        assert(location_path(
            Location::Below(
                Root::EngineArtifacts,
                "windows-x64-embedder-release",
                "gen_snapshot.exe",
            ),
            commit,
        ) =~= in_project(
            seq![
                "build"@,
                "flion"@,
                commit,
                "windows-x64-embedder-release"@,
                "gen_snapshot.exe"@,
            ],
        ));
        assert(is_text(second[0], "--deterministic"@));
        assert(is_text(second[1], "--snapshot_kind=app-aot-elf"@));
        assert(is_text(second[3], "--strip"@));
        assert(location_path(Location::In(Root::Build, "app.so"), commit) =~= in_project(
            seq!["build"@, "flion"@, "app.so"@],
        ));
        assert(second[2] is Prefixed);
    } else {
        assert(command_views(commands@).len() == commands@.len());
    }
}

/// Whether a step copies a library of this name from this place.
pub open spec fn copies(
    step: LibraryStep,
    engine_commit: Seq<char>,
    name: Seq<char>,
    path: PathView,
) -> bool {
    step matches LibraryStep::Copy { from, name: own } && own@ == name && location_path(
        from,
        engine_commit,
    ) == path
}

/// The libraries that an application needs are copied, in every mode and whether or not the graphics
/// library is there: the engine of the mode and its data from the artifacts, and the two graphics
/// libraries from the place that the application finds in its environment. The graphics library is
/// fetched exactly if it is not there: the archive that is fetched is unpacked, into a place from
/// which an older one was removed, and then removed.
pub proof fn libraries_are_provided(
    build_mode: BuildMode,
    angle_is_here: bool,
    steps: Vec<LibraryStep>,
    engine_commit: Seq<char>,
)
    requires
        call_ensures(copy_native_libraries, (build_mode, angle_is_here), steps),
    ensures
        ({
            let commit = engine_commit;
            let archive = in_project(
                seq!["build"@, "flion"@, "angle-win64-2024-10-05-23-15.tar.gz"@],
            );
            let angle = in_project(seq!["build"@, "flion"@, "angle-win64"@]);
            let rest = steps@.len() - 2;
            &&& steps@.len() == if angle_is_here {
                4nat
            } else {
                8
            }
            &&& copies(
                steps@[0],
                commit,
                "flutter_engine.dll"@,
                in_project(
                    seq![
                        "build"@,
                        "flion"@,
                        commit,
                        match build_mode {
                            BuildMode::Debug => "windows-x64-embedder"@,
                            BuildMode::Release => "windows-x64-embedder-release"@,
                        },
                        "flutter_engine.dll"@,
                    ],
                ),
            )
            &&& copies(
                steps@[1],
                commit,
                "icudtl.dat"@,
                in_project(seq!["build"@, "flion"@, commit, "artifacts"@, "icudtl.dat"@]),
            )
            &&& copies(
                steps@[rest],
                commit,
                "libEGL.dll"@,
                angle.join("bin"@).join("libEGL.dll"@),
            )
            &&& copies(
                steps@[rest + 1],
                commit,
                "libGLESv2.dll"@,
                angle.join("bin"@).join("libGLESv2.dll"@),
            )
            &&& !angle_is_here ==> {
                &&& steps@[2] matches LibraryStep::Fetch { url, to } && url@
                    == "https://github.com/hasali19/angle-build/releases/download/build-2024-10-05-23-15/angle-win64.tar.gz"@
                    && location_path(to, commit) == archive
                &&& steps@[3] matches LibraryStep::RemoveDirectory(directory) && location_path(
                    directory,
                    commit,
                ) == angle
                &&& steps@[4] matches LibraryStep::Unpack { archive: from, into } && location_path(
                    from,
                    commit,
                ) == archive && location_path(into, commit).join("angle-win64"@) == angle
                &&& steps@[5] matches LibraryStep::RemoveFile(file) && location_path(file, commit)
                    == archive
            }
        }),
{
    let commit = engine_commit;
    let archive = in_project(seq!["build"@, "flion"@, "angle-win64-2024-10-05-23-15.tar.gz"@]);
    let angle = in_project(seq!["build"@, "flion"@, "angle-win64"@]);
    assert(location_path(
        Location::Below(
            Root::EngineArtifacts,
            embedder_directory(build_mode),
            "flutter_engine.dll",
        ),
        commit,
    ) =~= in_project(
        seq![
            "build"@,
            "flion"@,
            commit,
            embedder_directory(build_mode)@,
            "flutter_engine.dll"@,
        ],
    ));
    assert(location_path(Location::Below(Root::EngineArtifacts, "artifacts", "icudtl.dat"), commit)
        =~= in_project(seq!["build"@, "flion"@, commit, "artifacts"@, "icudtl.dat"@]));
    assert(location_path(Location::Deeper(Root::Build, "angle-win64", "bin", "libEGL.dll"), commit)
        =~= angle.join("bin"@).join("libEGL.dll"@));
    assert(location_path(
        Location::Deeper(Root::Build, "angle-win64", "bin", "libGLESv2.dll"),
        commit,
    ) =~= angle.join("bin"@).join("libGLESv2.dll"@));
    assert(location_path(Location::In(Root::Build, ANGLE_ARCHIVE), commit) =~= archive);
    assert(location_path(Location::In(Root::Build, "angle-win64"), commit) =~= angle);
    assert(location_path(Location::At(Root::Build), commit).join("angle-win64"@) =~= angle);
}

/// The library that plugins are linked with is compiled exactly if it is not there, as a dynamic
/// library with its runtime in it, to the place from which it is then copied.
pub proof fn plugins_shim_is_provided(
    shim_is_here: bool,
    res: (Option<CommandLine>, LibraryStep),
    engine_commit: Seq<char>,
)
    requires
        call_ensures(compile_plugins_shim, (shim_is_here,), res),
    ensures
        ({
            let library = in_project(
                seq!["build"@, "flion"@, "plugins"@, "flion_plugins_shim.dll"@],
            );
            &&& copies(res.1, engine_commit, "flion_plugins_shim.dll"@, library)
            &&& res.0 is None <==> shim_is_here
            &&& !shim_is_here ==> {
                let args = res.0->0.args@;
                &&& is_text(res.0->0.program, "rustc"@)
                &&& args.len() == 12
                &&& is_text(args[0], "-"@)
                &&& has_option(args, "--crate-name"@, "flion_plugins_shim"@)
                &&& has_option(args, "--crate-type"@, "cdylib"@)
                &&& has_flag(args, "--edition=2024"@)
                &&& has_option(args, "--cfg"@, "cdylib"@)
                &&& has_option(args, "-C"@, "target-feature=+crt-static"@)
                &&& has_path_option(args, "-o"@, engine_commit, library)
            }
        }),
{
    let library = in_project(seq!["build"@, "flion"@, "plugins"@, "flion_plugins_shim.dll"@]);
    assert(location_path(plugins_shim(), engine_commit) =~= library);
    if !shim_is_here {
        let args = res.0->0.args@;
        assert(res.0->0@ == plugins_shim_command());
        assert(is_text(args[1], "--crate-name"@) && is_text(args[2], "flion_plugins_shim"@));
        assert(is_text(args[3], "--crate-type"@) && is_text(args[4], "cdylib"@));
        assert(is_text(args[5], "--edition=2024"@));
        assert(is_text(args[6], "--cfg"@) && is_text(args[7], "cdylib"@));
        assert(is_text(args[8], "-C"@) && is_text(args[9], "target-feature=+crt-static"@));
        assert(is_text(args[10], "-o"@) && is_path(args[11], engine_commit, library));
    }
}

/// The plugins are generated, built and installed, in this order, all in the same directory below
/// that of the plugins, for release, and each with a log of its own next to it. They are installed
/// into the directory of the plugins.
pub proof fn plugins_are_built_in_order(commands: Vec<LoggedCommand>, engine_commit: Seq<char>)
    requires
        call_ensures(build_plugins, (), commands),
    ensures
        ({
            let plugins = in_project(seq!["build"@, "flion"@, "plugins"@]);
            let build = plugins.join("build"@);
            let first = commands@[0].command.args@;
            let second = commands@[1].command.args@;
            let third = commands@[2].command.args@;
            &&& commands@.len() == 3
            &&& forall|i: int|
                0 <= i < 3 ==> is_text((#[trigger] commands@[i]).command.program, "cmake"@)
            &&& first.len() == 4
            &&& is_path(first[0], engine_commit, plugins)
            &&& first[1] == Argument::PluginNames
            &&& first[2] matches Argument::Prefixed(prefix, location) && prefix@
                == "-DCMAKE_INSTALL_PREFIX="@ && location_path(location, engine_commit) == plugins
            &&& is_text(first[3], "-DCMAKE_BUILD_TYPE=Release"@)
            &&& commands@[0].directory matches Some(directory) && location_path(
                directory,
                engine_commit,
            ) == build
            &&& second.len() == 4
            &&& is_text(second[0], "--build"@)
            &&& is_path(second[1], engine_commit, build)
            &&& is_text(second[2], "--config"@)
            &&& is_text(second[3], "Release"@)
            &&& commands@[1].directory is None
            &&& third.len() == 4
            &&& is_text(third[0], "--install"@)
            &&& is_text(third[1], "."@)
            &&& is_text(third[2], "--config"@)
            &&& is_text(third[3], "Release"@)
            &&& commands@[2].directory matches Some(directory) && location_path(
                directory,
                engine_commit,
            ) == build
            &&& location_path(commands@[0].log, engine_commit) == plugins.join("cmake_gen.txt"@)
            &&& location_path(commands@[1].log, engine_commit) == plugins.join("cmake_build.txt"@)
            &&& location_path(commands@[2].log, engine_commit) == plugins.join("cmake_install.txt"@)
        }),
{
    let plugins = in_project(seq!["build"@, "flion"@, "plugins"@]);
    let views = commands@.map_values(|c: LoggedCommand| c@);
    assert(views == cmake_commands());
    assert(commands@.len() == views.len());
    assert(views[0] == commands@[0]@);
    assert(views[1] == commands@[1]@);
    assert(views[2] == commands@[2]@);
    assert(location_path(Location::At(Root::Plugins), engine_commit) =~= plugins);
}

/// The bundle is built with the arguments `build` and `bundle`.
pub proof fn bundle_is_built(args: Vec<Argument>)
    requires
        call_ensures(flutter_bundle, (), args),
    ensures
        args@.len() == 2,
        is_text(args@[0], "build"@),
        is_text(args@[1], "bundle"@),
{
}

/// The application is run under the profile of its mode, and what was built for the mode is in the
/// directory of its name: `dev` and `debug`, or `release` for both.
pub proof fn modes_keep_their_profiles(
    release: bool,
    build_mode: BuildMode,
    name: &'static str,
    profile: &'static str,
    command: CommandLine,
)
    requires
        call_ensures(BuildMode::from_release_flag, (release,), build_mode),
        call_ensures(BuildMode::name, (&build_mode,), name),
        call_ensures(BuildMode::cargo_profile, (&build_mode,), profile),
        call_ensures(run_command, (build_mode,), command),
    ensures
        build_mode is Release <==> release,
        release ==> name@ == "release"@ && profile@ == "release"@,
        !release ==> name@ == "debug"@ && profile@ == "dev"@,
        is_text(command.program, "cargo"@),
        command.args@.len() == 3,
        is_text(command.args@[0], "run"@),
        has_option(command.args@, "--profile"@, profile@),
{
    let args = command.args@;
    assert(is_text(args[1], "--profile"@) && is_text(args[2], profile@));
}

/// The engine of release mode is in a directory of its own.
pub proof fn modes_have_their_engines(build_mode: BuildMode, directory: &'static str)
    requires
        call_ensures(embedder_dir, (build_mode,), directory),
    ensures
        build_mode is Debug ==> directory@ == "windows-x64-embedder"@,
        build_mode is Release ==> directory@ == "windows-x64-embedder-release"@,
{
}

/// The tool fails exactly if the application ended with a code that is not 0, and then with 1.
pub proof fn tool_fails_with_the_application(code: Option<i32>, exit: i32)
    requires
        call_ensures(exit_code, (code,), exit),
    ensures
        exit == 0 || exit == 1,
        exit == 0 <==> code is None || code == Some(0i32),
{
}

/// A file is copied exactly if there is no copy or the file was changed after the copy was.
pub proof fn newer_files_are_copied(source: i128, destination: i128, fresh: bool, again: bool)
    requires
        call_ensures(should_copy, (None,), fresh),
        call_ensures(should_copy, (Some((source, destination)),), again),
    ensures
        fresh,
        again <==> destination < source,
{
}

/// A search ends where the file is, goes up from where it is not, and fails only at the top.
pub proof fn search_goes_up(is_here: bool, has_parent: bool, step: SearchStep)
    requires
        call_ensures(search_step, (is_here, has_parent), step),
    ensures
        step is Found <==> is_here,
        step is Up <==> !is_here && has_parent,
        step is NotFound <==> !is_here && !has_parent,
{
}

/// Whether a part of a text starts at this place, and all else in the text is white space.
pub open spec fn is_surrounded_by_space(text: Seq<char>, part: Seq<char>, from: int) -> bool {
    &&& text.subrange(from, from + part.len()) == part
    &&& forall|i: int|
        0 <= i < text.len() && !(from <= i < from + part.len()) ==> is_white_space(
            #[trigger] text[i],
        )
}

/// The engine commit is what the file holds between white space: what stands before it and behind
/// it is white space, and it neither starts nor ends with any.
pub proof fn commit_is_the_trimmed_file(version_file: &str, commit: &str)
    requires
        call_ensures(engine_commit, (version_file,), commit),
    ensures
        exists|from: int|
            0 <= from <= version_file@.len() - commit@.len() && #[trigger] is_surrounded_by_space(
                version_file@,
                commit@,
                from,
            ),
        commit@.len() > 0 ==> !is_white_space(commit@[0]) && !is_white_space(commit@.last()),
{
    trimming_twice(version_file@);
    let from = lemma_trimmed_place(version_file@);
    assert(is_surrounded_by_space(version_file@, commit@, from));
}

/// Where the trimmed text starts.
proof fn lemma_trimmed_place(text: Seq<char>) -> (from: int)
    ensures
        ({
            let trimmed = trimmed_end(trimmed_start(text));
            let to = from + trimmed.len();
            &&& 0 <= from <= to <= text.len()
            &&& text.subrange(from, to) == trimmed
            &&& forall|i: int|
                0 <= i < text.len() && !(from <= i < to) ==> is_white_space(#[trigger] text[i])
        }),
    decreases text.len(),
{
    if text.len() > 0 && is_white_space(text[0]) {
        let rest = text.skip(1);
        let inner = lemma_trimmed_place(rest);
        let trimmed = trimmed_end(trimmed_start(text));
        assert(rest.subrange(inner, inner + trimmed.len()) =~= text.subrange(
            inner + 1,
            inner + 1 + trimmed.len(),
        ));
        assert forall|i: int|
            0 <= i < text.len() && !(inner + 1 <= i < inner + 1
                + trimmed.len()) implies is_white_space(#[trigger] text[i]) by {
            if i > 0 {
                assert(rest[i - 1] == text[i]);
            }
        }
        inner + 1
    } else {
        lemma_trimmed_end_place(text);
        0
    }
}

/// What is trimmed off the end is white space.
proof fn lemma_trimmed_end_place(text: Seq<char>)
    ensures
        trimmed_end(text).len() <= text.len(),
        text.subrange(0, trimmed_end(text).len() as int) == trimmed_end(text),
        forall|i: int|
            trimmed_end(text).len() <= i < text.len() ==> is_white_space(#[trigger] text[i]),
    decreases text.len(),
{
    if text.len() > 0 && is_white_space(text.last()) {
        let fewer = text.drop_last();
        lemma_trimmed_end_place(fewer);
        assert(fewer.subrange(0, trimmed_end(text).len() as int) =~= text.subrange(
            0,
            trimmed_end(text).len() as int,
        ));
        assert forall|i: int| trimmed_end(text).len() <= i < text.len() implies is_white_space(
            #[trigger] text[i],
        ) by {
            if i < fewer.len() {
                assert(fewer[i] == text[i]);
            }
        }
    } else {
        assert(text.subrange(0, text.len() as int) =~= text);
    }
}

/// The artifacts of the engine by their numbers: the directory of each, and its archive.
pub open spec fn is_artifact(i: int, name: Seq<char>, archive: Seq<char>) -> bool {
    ||| i == 0 && name == "artifacts"@ && archive == "windows-x64/artifacts.zip"@
    ||| i == 1 && name == "flutter_patched_sdk_product"@ && archive
        == "flutter_patched_sdk_product.zip"@
    ||| i == 2 && name == "windows-x64-embedder"@ && archive
        == "windows-x64/windows-x64-embedder.zip"@
    ||| i == 3 && name == "windows-x64-flutter"@ && archive
        == "windows-x64-debug/windows-x64-flutter.zip"@
    ||| i == 4 && name == "flutter-cpp-client-wrapper"@ && archive
        == "windows-x64/flutter-cpp-client-wrapper.zip"@
}

/// Each artifact of the engine is fetched exactly if it is missing, from the place of the engine
/// commit, and so is the engine for release mode.
pub proof fn missing_artifacts_are_fetched(
    engine_commit: &str,
    missing: Vec<bool>,
    release_missing: bool,
    downloads: Vec<Download>,
    i: int,
    name: Seq<char>,
    archive: Seq<char>,
)
    requires
        call_ensures(
            download_engine_artifacts,
            (engine_commit, &missing, release_missing),
            downloads,
        ),
        missing@.len() == 5,
        is_artifact(i, name, archive),
    ensures
        missing@[i] <==> exists|k: int|
            0 <= k < downloads@.len() && (#[trigger] downloads@[k]).name@ == name,
        forall|k: int|
            0 <= k < downloads@.len() && (#[trigger] downloads@[k]).name@ == name
                ==> downloads@[k].url@
                == "https://storage.googleapis.com/flutter_infra_release/flutter/"@
                + engine_commit@ + "/"@ + archive,
        release_missing <==> exists|k: int|
            0 <= k < downloads@.len() && (#[trigger] downloads@[k]).name@
                == "windows-x64-embedder-release"@,
        forall|k: int|
            0 <= k < downloads@.len() && (#[trigger] downloads@[k]).name@
                == "windows-x64-embedder-release"@ ==> downloads@[k].url@
                == "https://github.com/hasali19/flutter-engine-build/releases/download/build-"@
                + engine_commit@ + "/windows-x64-embedder-release.zip"@,
{
    reveal_strlit("artifacts");
    reveal_strlit("flutter_patched_sdk_product");
    reveal_strlit("windows-x64-embedder");
    reveal_strlit("windows-x64-flutter");
    reveal_strlit("flutter-cpp-client-wrapper");
    reveal_strlit("windows-x64-embedder-release");
    let artifacts = engine_artifacts();
    let commit = engine_commit@;
    let fetched = missing_artifacts(commit, artifacts, missing@);
    let views = download_views(downloads@);
    assert(artifacts[0].0@.len() == 9);
    assert(artifacts[1].0@.len() == 27);
    assert(artifacts[2].0@.len() == 20);
    assert(artifacts[3].0@.len() == 19);
    assert(artifacts[4].0@.len() == 26);
    assert("windows-x64-embedder-release"@.len() == 28);
    assert(views.len() == downloads@.len());
    assert(artifacts[i].0@ == name && artifacts[i].1@ == archive);
    if missing@[i] {
        let k = lemma_missing_is_fetched(commit, artifacts, missing@, i);
        assert(views[k] == downloads@[k]@);
        assert(downloads@[k].name@ == name);
    }
    if release_missing {
        let k = fetched.len() as int;
        assert(views[k] == downloads@[k]@);
        assert(downloads@[k].name@ == "windows-x64-embedder-release"@);
    }
    assert forall|k: int| 0 <= k < downloads@.len() implies {
        &&& (#[trigger] downloads@[k]).name@ == name ==> missing@[i] && downloads@[k].url@
            == engine_archive_url(commit, archive)
        &&& downloads@[k].name@ == "windows-x64-embedder-release"@ ==> release_missing
            && downloads@[k].url@ == release_engine_url(commit)
    } by {
        assert(views[k] == downloads@[k]@);
        if k < fetched.len() {
            assert(views[k] == fetched[k]);
            let j = lemma_fetched_is_missing(commit, artifacts, missing@, k);
        }
    }
}

/// Whether a download is that of a missing artifact.
spec fn is_fetch_of(
    download: DownloadView,
    commit: Seq<char>,
    artifacts: Seq<(&'static str, &'static str)>,
    missing: Seq<bool>,
    i: int,
) -> bool {
    &&& 0 <= i < artifacts.len()
    &&& missing[i]
    &&& download.name == artifacts[i].0
    &&& download.url == engine_archive_url(commit, artifacts[i].1@)
}

/// Each download is that of a missing artifact.
proof fn lemma_fetched_is_missing(
    commit: Seq<char>,
    artifacts: Seq<(&'static str, &'static str)>,
    missing: Seq<bool>,
    k: int,
) -> (i: int)
    requires
        0 <= k < missing_artifacts(commit, artifacts, missing).len(),
    ensures
        is_fetch_of(
            missing_artifacts(commit, artifacts, missing)[k],
            commit,
            artifacts,
            missing,
            i,
        ),
    decreases artifacts.len(),
{
    let fewer = artifacts.drop_last();
    let before = missing_artifacts(commit, fewer, missing);
    if k < before.len() {
        let i = lemma_fetched_is_missing(commit, fewer, missing, k);
        assert(artifacts[i] == fewer[i]);
        i
    } else {
        artifacts.len() - 1
    }
}

/// Each missing artifact has its download.
proof fn lemma_missing_is_fetched(
    commit: Seq<char>,
    artifacts: Seq<(&'static str, &'static str)>,
    missing: Seq<bool>,
    i: int,
) -> (k: int)
    requires
        0 <= i < artifacts.len(),
        missing[i],
    ensures
        0 <= k < missing_artifacts(commit, artifacts, missing).len(),
        is_fetch_of(
            missing_artifacts(commit, artifacts, missing)[k],
            commit,
            artifacts,
            missing,
            i,
        ),
    decreases artifacts.len(),
{
    let fewer = artifacts.drop_last();
    if i < fewer.len() {
        assert(fewer[i] == artifacts[i]);
        lemma_missing_is_fetched(commit, fewer, missing, i)
    } else {
        missing_artifacts(commit, fewer, missing).len() as int
    }
}

/// The list of the artifacts, and where an archive of an engine commit is fetched from.
pub proof fn artifacts_are_listed(
    list: Vec<(&'static str, &'static str)>,
    engine_commit: &str,
    name: &'static str,
    archive: &str,
    download: Download,
    i: int,
)
    requires
        call_ensures(engine_artifact_list, (), list),
        call_ensures(download_google_engine_artifact, (engine_commit, name, archive), download),
        0 <= i < list@.len(),
    ensures
        list@.len() == 5,
        is_artifact(i, list@[i].0@, list@[i].1@),
        download.name == name,
        download.url@ == "https://storage.googleapis.com/flutter_infra_release/flutter/"@
            + engine_commit@ + "/"@ + archive@,
{
    assert(download@.url == download.url@);
}

/// Cargo is told where the graphics library is, and on Windows to link its two parts.
pub proof fn angle_is_linked(lib_dir: &str, for_windows: bool, lines: Vec<String>)
    requires
        call_ensures(angle_link_directives, (lib_dir, for_windows), lines),
    ensures
        lines@.len() == if for_windows {
            3nat
        } else {
            1
        },
        lines@[0]@ == "cargo:rustc-link-search=native="@ + lib_dir@,
        for_windows ==> lines@[1]@ == "cargo:rustc-link-lib=dylib=libEGL.dll"@,
        for_windows ==> lines@[2]@ == "cargo:rustc-link-lib=dylib=libGLESv2.dll"@,
{
    let texts = lines@.map_values(|s: String| s@);
    assert(texts.len() == lines@.len());
    assert(texts[0] == lines@[0]@);
    if for_windows {
        assert(texts[1] == lines@[1]@);
        assert(texts[2] == lines@[2]@);
    }
}

/// Cargo is told where the engine is, and to link it.
pub proof fn engine_is_linked(embedder_path: &str, lines: Vec<String>)
    requires
        call_ensures(embedder_link_directives, (embedder_path,), lines),
    ensures
        lines@.len() == 2,
        lines@[0]@ == "cargo::rustc-link-search=native="@ + embedder_path@,
        lines@[1]@ == "cargo::rustc-link-lib=dylib=flutter_engine.dll"@,
{
    let texts = lines@.map_values(|s: String| s@);
    assert(texts.len() == lines@.len());
    assert(texts[0] == lines@[0]@);
    assert(texts[1] == lines@[1]@);
}

/// The characters that Unicode calls white space, one by one.
pub open spec fn white_space_characters() -> Seq<char> {
    seq![
        '\u{9}',
        '\u{a}',
        '\u{b}',
        '\u{c}',
        '\u{d}',
        '\u{20}',
        '\u{85}',
        '\u{a0}',
        '\u{1680}',
        '\u{2000}',
        '\u{2001}',
        '\u{2002}',
        '\u{2003}',
        '\u{2004}',
        '\u{2005}',
        '\u{2006}',
        '\u{2007}',
        '\u{2008}',
        '\u{2009}',
        '\u{200a}',
        '\u{2028}',
        '\u{2029}',
        '\u{202f}',
        '\u{205f}',
        '\u{3000}',
    ]
}

/// White space is each of the characters that Unicode calls so, and no other.
pub proof fn white_space_is_that_of_unicode(c: char)
    ensures
        is_white_space(c) <==> white_space_characters().contains(c),
{
    let all = white_space_characters();
    assert(forall|i: int| 0 <= i < 25 ==> is_white_space(#[trigger] all[i]));
    if is_white_space(c) {
        assert(exists|i: int| 0 <= i < 25 && #[trigger] all[i] == c) by {
            assert(all[0] == c || all[1] == c || all[2] == c || all[3] == c || all[4] == c
                || all[5] == c || all[6] == c || all[7] == c || all[8] == c || all[9] == c
                || all[10] == c || all[11] == c || all[12] == c || all[13] == c || all[14] == c
                || all[15] == c || all[16] == c || all[17] == c || all[18] == c || all[19] == c
                || all[20] == c || all[21] == c || all[22] == c || all[23] == c || all[24] == c);
        }
    }
}

} // verus!
