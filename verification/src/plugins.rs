//! The plugins of a project: which of them are built, and the list of those with a class.
use crate::chars::{join, joined};
use crate::documents::{
    json_list, json_list_at, json_string, json_string_at, texts, yaml_has_key, yaml_key_at,
    yaml_value, yaml_value_at, DocumentError, YamlValue, YamlView,
};
use crate::utf8_text::same_text;
use vstd::prelude::*;
use vstd::string::*;

verus! {

/// A plugin as the dependencies of a project list it, as far as the list gives it.
#[derive(Debug)]
pub struct PluginEntry {
    pub name: Option<String>,
    pub path: Option<String>,
}

/// The model of a [`PluginEntry`].
pub struct PluginEntryView {
    pub name: Option<Seq<char>>,
    pub path: Option<Seq<char>>,
}

/// The text of an optional string.
pub open spec fn opt_text(s: Option<String>) -> Option<Seq<char>> {
    match s {
        Some(s) => Some(s@),
        None => None,
    }
}

impl View for PluginEntry {
    type V = PluginEntryView;

    open spec fn view(&self) -> PluginEntryView {
        PluginEntryView { name: opt_text(self.name), path: opt_text(self.path) }
    }
}

/// Whether an item of the list can be read.
pub open spec fn is_readable(item: Seq<char>) -> bool {
    json_string_at(item, "/name"@) is Some && json_string_at(item, "/path"@) is Some
}

/// The plugin that an item of the list describes.
pub open spec fn entry_of(item: Seq<char>) -> PluginEntryView {
    PluginEntryView {
        name: json_string_at(item, "/name"@)->0,
        path: json_string_at(item, "/path"@)->0,
    }
}

/// The plugins for Windows that the dependencies of a project list, or `None` where the list
/// cannot be read.
pub open spec fn listed_plugins(document: Seq<char>) -> Option<Seq<PluginEntryView>> {
    match json_list_at(document, "/plugins/windows"@) {
        Some(Some(items)) => if forall|i: int|
            0 <= i < items.len() ==> is_readable(#[trigger] items[i]) {
            Some(items.map_values(|item: Seq<char>| entry_of(item)))
        } else {
            None
        },
        Some(None) => Some(Seq::empty()),
        None => None,
    }
}

/// Reads one item of the list.
fn read_entry(item: &str) -> (res: Result<PluginEntry, DocumentError>)
    ensures
        match res {
            Ok(entry) => is_readable(item@) && entry@ == entry_of(item@),
            Err(e) => !is_readable(item@) && e is Json,
        },
{
    let name = match json_string(item, "/name") {
        Ok(name) => name,
        Err(e) => return Err(DocumentError::Json(e)),
    };
    let path = match json_string(item, "/path") {
        Ok(path) => path,
        Err(e) => return Err(DocumentError::Json(e)),
    };
    Ok(PluginEntry { name, path })
}

/// The plugins for Windows that the dependencies of a project list.
pub fn read_plugins(document: &str) -> (res: Result<Vec<PluginEntry>, DocumentError>)
    ensures
        match res {
            Ok(entries) => listed_plugins(document@) == Some(
                entries@.map_values(|entry: PluginEntry| entry@),
            ),
            Err(e) => listed_plugins(document@) is None && e is Json,
        },
{
    let items = match json_list(document, "/plugins/windows") {
        Ok(Some(items)) => items,
        Ok(None) => {
            let entries: Vec<PluginEntry> = Vec::new();
            assert(entries@.map_values(|entry: PluginEntry| entry@) =~= Seq::empty());
            return Ok(entries);
        },
        Err(e) => return Err(DocumentError::Json(e)),
    };
    let ghost listed = texts(items@);
    let mut entries: Vec<PluginEntry> = Vec::new();
    let mut i: usize = 0;
    while i < items.len()
        invariant
            i <= items@.len(),
            listed == texts(items@),
            json_list_at(document@, "/plugins/windows"@) == Some(Some(listed)),
            forall|j: int| 0 <= j < i ==> is_readable(#[trigger] listed[j]),
            entries@.len() == i,
            forall|j: int| 0 <= j < i ==> (#[trigger] entries@[j])@ == entry_of(listed[j]),
        decreases items@.len() - i,
    {
        assert(listed[i as int] == items@[i as int]@);
        match read_entry(items[i].as_str()) {
            Ok(entry) => {
                entries.push(entry);
            },
            Err(e) => {
                assert(!is_readable(listed[i as int]));
                return Err(e);
            },
        }
        i += 1;
    }
    assert(entries@.map_values(|entry: PluginEntry| entry@) =~= listed.map_values(
        |item: Seq<char>| entry_of(item),
    ));
    Ok(entries)
}

/// What the description of a plugin says of the platforms that it supports.
#[derive(Debug)]
pub struct PlatformFacts {
    /// It supports Windows.
    pub windows: bool,
    /// It supports this embedder by itself.
    pub flion: bool,
    /// The class that registers it on Windows.
    pub class: Option<String>,
    /// Whether it is called directly from Dart on Windows.
    pub ffi: Option<bool>,
}

/// The model of a [`PlatformFacts`].
pub struct PlatformFactsView {
    pub windows: bool,
    pub flion: bool,
    pub class: Option<Seq<char>>,
    pub ffi: Option<bool>,
}

impl View for PlatformFacts {
    type V = PlatformFactsView;

    open spec fn view(&self) -> PlatformFactsView {
        PlatformFactsView {
            windows: self.windows,
            flion: self.flion,
            class: opt_text(self.class),
            ffi: self.ffi,
        }
    }
}

/// What is done with a plugin.
#[derive(Debug)]
pub enum PluginTarget {
    /// Nothing.
    Ignore,
    /// It is built, and registered by its class where it has one.
    Build { class: Option<String> },
}

/// The model of a [`PluginTarget`].
pub enum PluginTargetView {
    Ignore,
    Build { class: Option<Seq<char>> },
}

impl View for PluginTarget {
    type V = PluginTargetView;

    open spec fn view(&self) -> PluginTargetView {
        match self {
            PluginTarget::Ignore => PluginTargetView::Ignore,
            PluginTarget::Build { class } => PluginTargetView::Build { class: opt_text(*class) },
        }
    }
}

impl PlatformFactsView {
    /// A plugin is built if it supports Windows, does not support this embedder by itself, and
    /// has a class or is called from Dart.
    pub open spec fn target(self) -> PluginTargetView {
        if self.windows && !self.flion && (self.class is Some || self.ffi == Some(true)) {
            PluginTargetView::Build { class: self.class }
        } else {
            PluginTargetView::Ignore
        }
    }
}

impl PlatformFacts {
    /// What is done with the plugin.
    pub fn target(self) -> (res: PluginTarget)
        ensures
            res@ == self@.target(),
    {
        let ffi_plugin = match self.ffi {
            Some(ffi) => ffi,
            None => false,
        };
        if self.windows && !self.flion && (self.class.is_some() || ffi_plugin) {
            PluginTarget::Build { class: self.class }
        } else {
            PluginTarget::Ignore
        }
    }
}

/// The path to the platforms in the description of a plugin.
pub open spec fn platforms_path() -> Seq<Seq<char>> {
    seq!["flutter"@, "plugin"@, "platforms"@]
}

/// The path to a setting for Windows in the description of a plugin.
pub open spec fn windows_path(setting: Seq<char>) -> Seq<Seq<char>> {
    platforms_path().push("windows"@).push(setting)
}

/// The text of a value.
pub open spec fn as_text(value: YamlView) -> Option<Seq<char>> {
    match value {
        YamlView::Text(text) => Some(text),
        _ => None,
    }
}

/// The truth of a value.
pub open spec fn as_flag(value: YamlView) -> Option<bool> {
    match value {
        YamlView::Flag(flag) => Some(flag),
        _ => None,
    }
}

/// What the description of a plugin says. `Some(None)` where it holds no document, and `None`
/// where it is not YAML.
pub open spec fn described_facts(pubspec: Seq<char>) -> Option<Option<PlatformFactsView>> {
    match (
        yaml_key_at(pubspec, platforms_path(), "windows"@),
        yaml_key_at(pubspec, platforms_path(), "flion"@),
        yaml_value_at(pubspec, windows_path("pluginClass"@)),
        yaml_value_at(pubspec, windows_path("ffiPlugin"@)),
    ) {
        (Some(windows), Some(flion), Some(class), Some(ffi)) => match (windows, flion, class, ffi) {
            (Some(windows), Some(flion), Some(class), Some(ffi)) => Some(
                Some(
                    PlatformFactsView {
                        windows,
                        flion,
                        class: as_text(class),
                        ffi: as_flag(ffi),
                    },
                ),
            ),
            _ => Some(None),
        },
        _ => None,
    }
}

/// The path to the platforms in the description of a plugin.
fn path_to_platforms() -> (res: Vec<String>)
    ensures
        texts(res@) == platforms_path(),
{
    let res: Vec<String> = vec!["flutter".to_owned(), "plugin".to_owned(), "platforms".to_owned()];
    assert(texts(res@) =~= platforms_path());
    res
}

/// The path to a setting for Windows in the description of a plugin.
fn path_to_windows(setting: &str) -> (res: Vec<String>)
    ensures
        texts(res@) == windows_path(setting@),
{
    let mut res = path_to_platforms();
    let ghost before = texts(res@);
    res.push("windows".to_owned());
    res.push(setting.to_owned());
    assert(texts(res@) =~= before.push("windows"@).push(setting@));
    res
}

/// What the description of a plugin says of its platforms, or `None` where it holds no document.
pub fn read_facts(pubspec: &str) -> (res: Result<Option<PlatformFacts>, DocumentError>)
    ensures
        match res {
            Ok(Some(facts)) => described_facts(pubspec@) == Some(Some(facts@)),
            Ok(None) => described_facts(pubspec@) == Some(None::<PlatformFactsView>),
            Err(e) => described_facts(pubspec@) is None && e is Yaml,
        },
{
    let platforms = path_to_platforms();
    let windows = match yaml_has_key(pubspec, &platforms, "windows") {
        Ok(windows) => windows,
        Err(e) => return Err(DocumentError::Yaml(e)),
    };
    let flion = match yaml_has_key(pubspec, &platforms, "flion") {
        Ok(flion) => flion,
        Err(e) => return Err(DocumentError::Yaml(e)),
    };
    let class = match yaml_value(pubspec, &path_to_windows("pluginClass")) {
        Ok(class) => class,
        Err(e) => return Err(DocumentError::Yaml(e)),
    };
    let ffi = match yaml_value(pubspec, &path_to_windows("ffiPlugin")) {
        Ok(ffi) => ffi,
        Err(e) => return Err(DocumentError::Yaml(e)),
    };
    match (windows, flion, class, ffi) {
        (Some(windows), Some(flion), Some(class), Some(ffi)) => {
            let class = match class {
                YamlValue::Text(text) => Some(text),
                _ => None,
            };
            let ffi = match ffi {
                YamlValue::Flag(flag) => Some(flag),
                _ => None,
            };
            Ok(Some(PlatformFacts { windows, flion, class, ffi }))
        },
        _ => Ok(None),
    }
}

/// The plugins that are built, in order, and the text that lists those with a class.
pub struct PluginList {
    names: Vec<String>,
    list: String,
}

/// The model of a [`PluginList`].
#[verifier::ext_equal]
pub struct PluginListView {
    pub names: Seq<Seq<char>>,
    pub list: Seq<char>,
}

/// The line that lists a plugin with a class.
pub open spec fn plugin_line(name: Seq<char>, class: Seq<char>) -> Seq<char> {
    name + ","@ + class + "\n"@
}

impl PluginListView {
    /// The list with one more plugin.
    pub open spec fn added(self, name: Seq<char>, target: PluginTargetView) -> PluginListView {
        match target {
            PluginTargetView::Ignore => self,
            PluginTargetView::Build { class } => PluginListView {
                names: self.names.push(name),
                list: match class {
                    Some(class) => self.list + plugin_line(name, class),
                    None => self.list,
                },
            },
        }
    }
}

impl View for PluginList {
    type V = PluginListView;

    closed spec fn view(&self) -> PluginListView {
        PluginListView { names: texts(self.names@), list: self.list@ }
    }
}

impl PluginList {
    /// No plugins.
    pub fn new() -> (res: PluginList)
        ensures
            res@ == (PluginListView { names: seq![], list: seq![] }),
    {
        let res = PluginList { names: Vec::new(), list: String::new() };
        assert(res@ =~= (PluginListView { names: seq![], list: seq![] }));
        res
    }

    /// Takes in a plugin that is to be built.
    pub fn push(&mut self, name: &str, target: &PluginTarget)
        ensures
            final(self)@ == old(self)@.added(name@, target@),
    {
        let ghost before = self@;
        match target {
            PluginTarget::Ignore => {},
            PluginTarget::Build { class } => {
                self.names.push(name.to_owned());
                assert(texts(self.names@) =~= before.names.push(name@));
                if let Some(class) = class {
                    self.list.append(name);
                    self.list.append(",");
                    self.list.append(class.as_str());
                    self.list.append("\n");
                    assert(self.list@ =~= before.list + plugin_line(name@, class@));
                }
            },
        }
    }

    /// The text that lists the plugins with a class, a line each.
    pub fn list(&self) -> (res: &str)
        ensures
            res@ == self@.list,
    {
        self.list.as_str()
    }

    /// Whether the text differs from the one that was written before.
    pub fn has_changed(&self, written: Option<&str>) -> (res: bool)
        ensures
            res == (match written {
                Some(written) => written@ != self@.list,
                None => self@.list.len() != 0,
            }),
    {
        match written {
            Some(written) => !same_text(written, self.list.as_str()),
            None => !self.list.as_str().is_empty(),
        }
    }

    /// The argument that tells CMake the names of the plugins.
    pub fn cmake_argument(&self) -> (res: String)
        ensures
            res@ == "-DFLUTTER_PLUGINS="@ + joined(self@.names, ";"@),
    {
        let names = join(&self.names, ";");
        let mut res = "-DFLUTTER_PLUGINS=".to_owned();
        res.append(names.as_str());
        res
    }
}

/// The list after all plugins of a project were taken in.
pub open spec fn list_of(plugins: Seq<(Seq<char>, PluginTargetView)>) -> PluginListView
    decreases plugins.len(),
{
    if plugins.len() == 0 {
        PluginListView { names: seq![], list: seq![] }
    } else {
        list_of(plugins.drop_last()).added(plugins.last().0, plugins.last().1)
    }
}

/// Only plugins that are built are listed by name, each as often as it was taken in, and in order.
pub proof fn listed_names(plugins: Seq<(Seq<char>, PluginTargetView)>)
    ensures
        list_of(plugins).names == plugins.filter(
            |p: (Seq<char>, PluginTargetView)| p.1 is Build,
        ).map_values(|p: (Seq<char>, PluginTargetView)| p.0),
    decreases plugins.len(),
{
    let builds = |p: (Seq<char>, PluginTargetView)| p.1 is Build;
    let name = |p: (Seq<char>, PluginTargetView)| p.0;
    reveal(Seq::filter);
    if plugins.len() == 0 {
        assert(plugins.filter(builds).map_values(name) =~= seq![]);
    } else {
        listed_names(plugins.drop_last());
        let fewer = plugins.drop_last().filter(builds);
        if builds(plugins.last()) {
            assert(plugins.filter(builds) =~= fewer.push(plugins.last()));
            assert(fewer.push(plugins.last()).map_values(name) =~= fewer.map_values(name).push(
                plugins.last().0,
            ));
        } else {
            assert(plugins.filter(builds) =~= fewer);
        }
    }
}

/// A plugin of a project: its name, and the text of its description.
#[derive(Debug)]
pub struct Plugin {
    pub name: String,
    pub pubspec: String,
}

/// Why a plugin could not be processed.
#[derive(Debug)]
pub enum PluginFailure {
    /// The description holds no document.
    NoDocument,
    /// The description cannot be read.
    Unreadable(DocumentError),
}

/// The plugins of a project after they were processed, up to the first failure.
pub struct ProcessedPlugins {
    pub list: PluginList,
    /// The places of the plugins that are built.
    pub built: Vec<usize>,
    /// The place of the plugin that failed, and why.
    pub failure: Option<(usize, PluginFailure)>,
}

/// What is done with a plugin. `Some(None)` where its description holds no document, and `None`
/// where it cannot be read.
pub open spec fn described_target(pubspec: Seq<char>) -> Option<Option<PluginTargetView>> {
    match described_facts(pubspec) {
        Some(Some(facts)) => Some(Some(facts.target())),
        Some(None) => Some(None),
        None => None,
    }
}

/// Whether the description of a plugin says what is done with it.
pub open spec fn is_described(plugin: Plugin) -> bool {
    described_target(plugin.pubspec@) matches Some(Some(_))
}

/// How many plugins there are before the first whose description fails.
pub open spec fn described_plugins(plugins: Seq<Plugin>) -> nat
    decreases plugins.len(),
{
    if plugins.len() == 0 || !is_described(plugins[0]) {
        0
    } else {
        1 + described_plugins(plugins.skip(1))
    }
}

/// The names of some plugins, each with what is done with it.
pub open spec fn targets(plugins: Seq<Plugin>) -> Seq<(Seq<char>, PluginTargetView)> {
    plugins.map_values(|plugin: Plugin| (plugin.name@, described_target(plugin.pubspec@)->0->0))
}

/// The places of the plugins that are built.
pub open spec fn built_places(targets: Seq<(Seq<char>, PluginTargetView)>) -> Seq<usize>
    decreases targets.len(),
{
    if targets.len() == 0 {
        Seq::empty()
    } else if targets.last().1 is Build {
        built_places(targets.drop_last()).push((targets.len() - 1) as usize)
    } else {
        built_places(targets.drop_last())
    }
}

/// The described plugins are those before the first that is not.
proof fn lemma_described_plugins(plugins: Seq<Plugin>)
    ensures
        described_plugins(plugins) <= plugins.len(),
        forall|i: int| 0 <= i < described_plugins(plugins) ==> is_described(#[trigger] plugins[i]),
        described_plugins(plugins) < plugins.len() ==> !is_described(
            plugins[described_plugins(plugins) as int],
        ),
    decreases plugins.len(),
{
    if plugins.len() > 0 && is_described(plugins[0]) {
        let rest = plugins.skip(1);
        lemma_described_plugins(rest);
        assert forall|i: int| 0 <= i < described_plugins(plugins) implies is_described(
            #[trigger] plugins[i],
        ) by {
            if i > 0 {
                assert(rest[i - 1] == plugins[i]);
            }
        }
        if described_plugins(plugins) < plugins.len() {
            assert(rest[described_plugins(rest) as int] == plugins[described_plugins(
                plugins,
            ) as int]);
        }
    }
}

/// Processes a plugin: it is taken into the list if it is to be built, and the result says
/// whether it is. Where its description fails, the list stays as it is.
pub fn process_plugin(list: &mut PluginList, plugin: &Plugin) -> (res: Result<bool, PluginFailure>)
    ensures
        match (described_target(plugin.pubspec@), res) {
            (Some(Some(target)), Ok(built)) => {
                &&& final(list)@ == old(list)@.added(plugin.name@, target)
                &&& built == (target is Build)
            },
            (Some(None), Err(PluginFailure::NoDocument)) => final(list)@ == old(list)@,
            (None, Err(PluginFailure::Unreadable(e))) => final(list)@ == old(list)@ && e is Yaml,
            _ => false,
        },
{
    let target = match read_facts(plugin.pubspec.as_str()) {
        Ok(Some(facts)) => facts.target(),
        Ok(None) => return Err(PluginFailure::NoDocument),
        Err(e) => return Err(PluginFailure::Unreadable(e)),
    };
    list.push(plugin.name.as_str(), &target);
    match target {
        PluginTarget::Build { .. } => Ok(true),
        PluginTarget::Ignore => Ok(false),
    }
}

/// Processes the plugins of a project, one after the other, up to the first whose description
/// fails.
pub fn process_plugins(plugins: &Vec<Plugin>) -> (res: ProcessedPlugins)
    ensures
        ({
            let n = described_plugins(plugins@);
            let done = targets(plugins@.take(n as int));
            &&& n <= plugins@.len()
            &&& res.list@ == list_of(done)
            &&& res.built@ == built_places(done)
            &&& match res.failure {
                None => n == plugins@.len(),
                Some((i, PluginFailure::NoDocument)) => {
                    &&& i == n < plugins@.len()
                    &&& described_target(plugins@[i as int].pubspec@) == Some(
                        None::<PluginTargetView>,
                    )
                },
                Some((i, PluginFailure::Unreadable(e))) => {
                    &&& i == n < plugins@.len()
                    &&& described_target(plugins@[i as int].pubspec@) is None
                    &&& e is Yaml
                },
            }
        }),
{
    let mut list = PluginList::new();
    let mut built: Vec<usize> = Vec::new();
    let mut i: usize = 0;
    proof {
        lemma_described_plugins(plugins@);
        assert(targets(plugins@.take(0)) =~= Seq::empty());
    }
    while i < plugins.len()
        invariant
            i <= plugins@.len(),
            i <= described_plugins(plugins@) <= plugins@.len(),
            forall|j: int|
                0 <= j < described_plugins(plugins@) ==> is_described(#[trigger] plugins@[j]),
            described_plugins(plugins@) < plugins@.len() ==> !is_described(
                plugins@[described_plugins(plugins@) as int],
            ),
            list@ == list_of(targets(plugins@.take(i as int))),
            built@ == built_places(targets(plugins@.take(i as int))),
        decreases plugins@.len() - i,
    {
        let plugin = &plugins[i];
        assert(*plugin == plugins@[i as int]);
        let ghost before = targets(plugins@.take(i as int));
        let ghost after = targets(plugins@.take(i + 1));
        match process_plugin(&mut list, plugin) {
            Ok(is_built) => {
                assert(is_described(*plugin));
                assert(after.drop_last() =~= before);
                assert(after.last() == (
                    plugin.name@,
                    described_target(plugin.pubspec@)->0->0,
                ));
                if is_built {
                    built.push(i);
                }
            },
            Err(failure) => {
                assert(!is_described(*plugin));
                return ProcessedPlugins { list, built, failure: Some((i, failure)) };
            },
        }
        i += 1;
    }
    ProcessedPlugins { list, built, failure: None }
}

/// A plugin is built exactly if it is for Windows, is not for this embedder by itself, and has a
/// class or says that it is called from Dart. It is built with its own class.
pub proof fn plugins_for_windows_are_built(facts: PlatformFacts, target: PluginTarget)
    requires
        call_ensures(PlatformFacts::target, (facts,), target),
    ensures
        target is Build <==> facts.windows && !facts.flion && (facts.class is Some || facts.ffi
            == Some(true)),
        target is Build ==> opt_text(target->class) == opt_text(facts.class),
{
    assert(target@ == facts@.target());
}

/// What is read of a plugin stands in its description below `flutter`, `plugin` and `platforms`:
/// whether there are settings for `windows` and for `flion`, and among those for `windows` the text
/// of `pluginClass` and the truth of `ffiPlugin`.
pub proof fn facts_stand_in_the_description(
    pubspec: &str,
    res: Result<Option<PlatformFacts>, DocumentError>,
)
    requires
        call_ensures(read_facts, (pubspec,), res),
        res is Ok,
        res->Ok_0 is Some,
    ensures
        ({
            let facts = res->Ok_0->0;
            let platforms = seq!["flutter"@, "plugin"@, "platforms"@];
            let class = yaml_value_at(
                pubspec@,
                seq!["flutter"@, "plugin"@, "platforms"@, "windows"@, "pluginClass"@],
            );
            let ffi = yaml_value_at(
                pubspec@,
                seq!["flutter"@, "plugin"@, "platforms"@, "windows"@, "ffiPlugin"@],
            );
            &&& yaml_key_at(pubspec@, platforms, "windows"@) == Some(Some(facts.windows))
            &&& yaml_key_at(pubspec@, platforms, "flion"@) == Some(Some(facts.flion))
            &&& class is Some && class->0 is Some
            &&& facts.class is Some <==> class->0->0 is Text
            &&& facts.class is Some ==> facts.class->0@ == class->0->0->Text_0
            &&& ffi is Some && ffi->0 is Some
            &&& facts.ffi is Some <==> ffi->0->0 is Flag
            &&& facts.ffi is Some ==> facts.ffi->0 == ffi->0->0->Flag_0
        }),
{
    let facts = res->Ok_0->0;
    assert(described_facts(pubspec@) == Some(Some(facts@)));
    assert(platforms_path() =~= seq!["flutter"@, "plugin"@, "platforms"@]);
    assert(windows_path("pluginClass"@) =~= seq![
        "flutter"@,
        "plugin"@,
        "platforms"@,
        "windows"@,
        "pluginClass"@,
    ]);
    assert(windows_path("ffiPlugin"@) =~= seq![
        "flutter"@,
        "plugin"@,
        "platforms"@,
        "windows"@,
        "ffiPlugin"@,
    ]);
    assert(facts@.class == opt_text(facts.class));
    assert(facts@.ffi == facts.ffi);
}

/// The plugins that are read are the items of the list `windows` in `plugins`, each with its own
/// `name` and `path`, in order. Where there is no such list, there are none.
pub proof fn plugins_stand_in_the_list(
    document: &str,
    res: Result<Vec<PluginEntry>, DocumentError>,
)
    requires
        call_ensures(read_plugins, (document,), res),
    ensures
        res is Err ==> json_list_at(document@, "/plugins/windows"@) is None || (json_list_at(
            document@,
            "/plugins/windows"@,
        )->0 is Some && exists|i: int|
            0 <= i < json_list_at(document@, "/plugins/windows"@)->0->0.len() && {
                let item = #[trigger] json_list_at(document@, "/plugins/windows"@)->0->0[i];
                json_string_at(item, "/name"@) is None || json_string_at(item, "/path"@) is None
            }),
        res is Ok ==> {
            let listed = json_list_at(document@, "/plugins/windows"@);
            let entries = res->Ok_0@;
            &&& listed is Some
            &&& listed->0 is None ==> entries.len() == 0
            &&& listed->0 is Some ==> {
                &&& entries.len() == listed->0->0.len()
                &&& forall|i: int|
                    0 <= i < entries.len() ==> {
                        let item = listed->0->0[i];
                        &&& json_string_at(item, "/name"@) == Some(
                            opt_text((#[trigger] entries[i]).name),
                        )
                        &&& json_string_at(item, "/path"@) == Some(opt_text(entries[i].path))
                    }
            }
        },
{
    let listed = json_list_at(document@, "/plugins/windows"@);
    if let Ok(entries) = res {
        let views = entries@.map_values(|entry: PluginEntry| entry@);
        assert(listed_plugins(document@) == Some(views));
        assert(views.len() == entries@.len());
        if let Some(Some(items)) = listed {
            assert(views == items.map_values(|item: Seq<char>| entry_of(item)));
            assert forall|i: int| 0 <= i < entries@.len() implies {
                &&& json_string_at(items[i], "/name"@) == Some(
                    opt_text((#[trigger] entries@[i]).name),
                )
                &&& json_string_at(items[i], "/path"@) == Some(opt_text(entries@[i].path))
            } by {
                assert(is_readable(items[i]));
                assert(views[i] == entries@[i]@);
                assert(views[i] == entry_of(items[i]));
            }
        }
    } else if let Some(Some(items)) = listed {
        let i = choose|i: int| 0 <= i < items.len() && !is_readable(#[trigger] items[i]);
        assert(!is_readable(items[i]));
    }
}

/// A plugin that is built is added behind the others by its name, and, if it has a class, by a line
/// with its name, a comma and its class at the end of the list. Any other plugin changes nothing.
pub proof fn built_plugins_are_listed(list: &mut PluginList, name: &str, target: PluginTarget)
    requires
        call_ensures(PluginList::push, (list, name, &target), ()),
    ensures
        target is Build ==> final(list)@.names == old(list)@.names + seq![name@],
        target is Build && target->class is Some ==> final(list)@.list == old(list)@.list + name@
            + ","@ + target->class->0@ + "\n"@,
        !(target is Build) || target->class is None ==> final(list)@.list == old(list)@.list,
        !(target is Build) ==> final(list)@.names == old(list)@.names,
{
    assert(final(list)@ == old(list)@.added(name@, target@));
    if target is Build {
        assert(old(list)@.names.push(name@) =~= old(list)@.names + seq![name@]);
        if target->class is Some {
            let class = target->class->0@;
            assert(old(list)@.list + plugin_line(name@, class) =~= old(list)@.list + name@ + ","@
                + class + "\n"@);
        }
    }
}

/// A plugin is processed by what its description says: a description that is not YAML and one that
/// holds no document fail and change nothing, and with any other the plugin is taken in and reported
/// as built exactly if the description says that it is built.
pub proof fn plugins_are_processed_by_their_descriptions(
    list: &mut PluginList,
    plugin: Plugin,
    pubspec: &str,
    res: Result<bool, PluginFailure>,
    read: Result<Option<PlatformFacts>, DocumentError>,
)
    requires
        call_ensures(process_plugin, (list, &plugin), res),
        call_ensures(read_facts, (pubspec,), read),
        pubspec@ == plugin.pubspec@,
    ensures
        read is Err <==> res is Err && res->Err_0 is Unreadable,
        read is Ok && read->Ok_0 is None <==> res is Err && res->Err_0 is NoDocument,
        res is Err ==> final(list)@ == old(list)@,
        read is Ok && read->Ok_0 is Some ==> {
            let facts = read->Ok_0->0;
            let is_built = facts.windows && !facts.flion && (facts.class is Some || facts.ffi
                == Some(true));
            &&& res == Ok::<bool, PluginFailure>(is_built)
            &&& !is_built ==> final(list)@ == old(list)@
            &&& is_built ==> {
                &&& final(list)@.names == old(list)@.names + seq![plugin.name@]
                &&& facts.class is None ==> final(list)@.list == old(list)@.list
                &&& facts.class is Some ==> final(list)@.list == old(list)@.list + plugin.name@
                    + ","@ + facts.class->0@ + "\n"@
            }
        },
{
    if let Ok(Some(facts)) = read {
        assert(described_facts(plugin.pubspec@) == Some(Some(facts@)));
        assert(facts@.class == opt_text(facts.class));
        let name = plugin.name@;
        assert(old(list)@.names.push(name) =~= old(list)@.names + seq![name]);
        if facts.class is Some {
            let class = facts.class->0@;
            assert(old(list)@.list + plugin_line(name, class) =~= old(list)@.list + name + ","@
                + class + "\n"@);
        }
    }
}

/// Of the plugins before the first that fails, those that are built are told by their places, in
/// order, and no others. Nothing behind the first that fails is looked at.
pub proof fn built_plugins_are_told_by_their_places(
    plugins: Vec<Plugin>,
    res: ProcessedPlugins,
    place: usize,
)
    requires
        call_ensures(process_plugins, (&plugins,), res),
    ensures
        ({
            let end = if res.failure is Some {
                (res.failure->0).0 as int
            } else {
                plugins@.len() as int
            };
            &&& end <= plugins@.len()
            &&& res.failure is Some ==> end < plugins@.len() && !is_described(plugins@[end])
            &&& place < end ==> is_described(plugins@[place as int])
            &&& res.built@.contains(place) <==> place < end && described_target(
                plugins@[place as int].pubspec@,
            )->0->0 is Build
            &&& forall|i: int, j: int| 0 <= i < j < res.built@.len() ==> res.built@[i] < res.built@[j]
        }),
{
    let n = described_plugins(plugins@) as int;
    lemma_described_plugins(plugins@);
    assert(plugins.len() == plugins@.len());
    let done = targets(plugins@.take(n));
    lemma_built_places(done);
    if place < n {
        assert(done[place as int] == (
            plugins@[place as int].name@,
            described_target(plugins@[place as int].pubspec@)->0->0,
        ));
    }
}

proof fn lemma_built_places(targets: Seq<(Seq<char>, PluginTargetView)>)
    requires
        targets.len() <= usize::MAX,
    ensures
        forall|place: usize| #[trigger]
            built_places(targets).contains(place) <==> place < targets.len()
                && targets[place as int].1 is Build,
        forall|i: int, j: int|
            0 <= i < j < built_places(targets).len() ==> built_places(targets)[i] < built_places(
                targets,
            )[j],
    decreases targets.len(),
{
    if targets.len() > 0 {
        let fewer = targets.drop_last();
        let before = built_places(fewer);
        let all = built_places(targets);
        let n = (targets.len() - 1) as usize;
        lemma_built_places(fewer);
        assert forall|i: int| 0 <= i < before.len() implies #[trigger] before[i] < n by {
            assert(before.contains(before[i]));
        }
        assert forall|place: usize| #[trigger] all.contains(place) <==> place < targets.len()
            && targets[place as int].1 is Build by {
            if targets.last().1 is Build {
                assert(all[before.len() as int] == n);
                if before.contains(place) {
                    let i = choose|i: int| 0 <= i < before.len() && before[i] == place;
                    assert(all[i] == place);
                }
            }
            if place < n {
                assert(fewer[place as int] == targets[place as int]);
            }
        }
    }
}

/// The list is written anew exactly if it differs from the one that was written, an empty one not
/// needing to have been written. CMake is told the names of all plugins that are built, with
/// semicolons between them.
pub proof fn changed_lists_are_written(
    list: PluginList,
    written: Option<&str>,
    has_changed: bool,
    argument: String,
    text: &str,
)
    requires
        call_ensures(PluginList::has_changed, (&list, written), has_changed),
        call_ensures(PluginList::cmake_argument, (&list,), argument),
        call_ensures(PluginList::list, (&list,), text),
    ensures
        text@ == list@.list,
        written is Some ==> (has_changed <==> written->0@ != text@),
        written is None ==> (has_changed <==> text@.len() > 0),
        argument@ == "-DFLUTTER_PLUGINS="@ + joined(list@.names, ";"@),
{
}

} // verus!
