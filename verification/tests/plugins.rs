use flion::documents::DocumentError;
use flion::plugin_registrant::{
    generate_plugins_registrant, read_lines, read_text, split_at_comma, split_lines,
};
use flion::plugins::{
    process_plugin, process_plugins, read_facts, read_plugins, PlatformFacts, Plugin,
    PluginFailure, PluginList, PluginTarget,
};

fn facts(windows: bool, flion: bool, class: Option<&str>, ffi: Option<bool>) -> PlatformFacts {
    PlatformFacts {
        windows,
        flion,
        class: class.map(str::to_owned),
        ffi,
    }
}

fn is_built(target: PluginTarget, expected: Option<&str>) -> bool {
    match target {
        PluginTarget::Build { class } => class.as_deref() == expected,
        PluginTarget::Ignore => false,
    }
}

fn build(class: Option<&str>) -> PluginTarget {
    PluginTarget::Build { class: class.map(str::to_owned) }
}

#[test]
fn plugins_of_a_project() {
    let document = r#"{"plugins":{"ios":[{"name":"x"}],"windows":[
        {"name":"url_launcher_windows","path":"C:\\pub\\url","dependencies":[]},
        {"name":3,"path":"p"},
        {"path":"q"}]}}"#;
    let entries = read_plugins(document).unwrap();
    assert_eq!(entries.len(), 3);
    assert_eq!(entries[0].name.as_deref(), Some("url_launcher_windows"));
    assert_eq!(entries[0].path.as_deref(), Some("C:\\pub\\url"));
    assert_eq!(entries[1].name, None);
    assert_eq!(entries[1].path.as_deref(), Some("p"));
    assert_eq!(entries[2].name, None);
    assert_eq!(entries[2].path.as_deref(), Some("q"));
}

#[test]
fn projects_without_plugins() {
    assert!(read_plugins("{}").unwrap().is_empty());
    assert!(read_plugins(r#"{"plugins":{"windows":{}}}"#).unwrap().is_empty());
    assert!(read_plugins(r#"{"plugins":[]}"#).unwrap().is_empty());
    assert!(read_plugins("[1]").unwrap().is_empty());
}

#[test]
fn list_that_is_no_document() {
    assert!(matches!(read_plugins("{"), Err(DocumentError::Json(_))));
    assert!(matches!(read_plugins(""), Err(DocumentError::Json(_))));
}

#[test]
fn description_of_a_plugin() {
    let pubspec = "name: p\nflutter:\n  plugin:\n    platforms:\n      windows:\n        pluginClass: PPlugin\n        ffiPlugin: true\n";
    let facts = read_facts(pubspec).unwrap().unwrap();
    assert!(facts.windows);
    assert!(!facts.flion);
    assert_eq!(facts.class.as_deref(), Some("PPlugin"));
    assert_eq!(facts.ffi, Some(true));
    assert!(is_built(facts.target(), Some("PPlugin")));
}

#[test]
fn description_for_this_embedder() {
    let pubspec = "flutter:\n  plugin:\n    platforms:\n      flion: !!int abc\n      windows:\n        pluginClass: PPlugin\n";
    let facts = read_facts(pubspec).unwrap().unwrap();
    assert!(facts.windows && facts.flion);
    assert!(matches!(facts.target(), PluginTarget::Ignore));
}

#[test]
fn descriptions_without_windows() {
    for pubspec in [
        "flutter:\n  plugin:\n    platforms:\n      linux:\n        pluginClass: P\n",
        "flutter:\n  plugin:\n    platforms: [windows]\n",
        "name: p\n",
        "just a text",
    ] {
        let facts = read_facts(pubspec).unwrap().unwrap();
        assert!(!facts.windows);
        assert!(matches!(facts.target(), PluginTarget::Ignore));
    }
}

#[test]
fn settings_of_other_types() {
    let pubspec = "flutter:\n  plugin:\n    platforms:\n      windows:\n        pluginClass: 3\n        ffiPlugin: \"true\"\n";
    let facts = read_facts(pubspec).unwrap().unwrap();
    assert!(facts.windows);
    assert_eq!(facts.class, None);
    assert_eq!(facts.ffi, None);
    assert!(matches!(facts.target(), PluginTarget::Ignore));
}

#[test]
fn descriptions_that_cannot_be_read() {
    assert!(matches!(read_facts("a: [1"), Err(DocumentError::Yaml(_))));
    assert!(read_facts("").unwrap().is_none());
}

#[test]
fn targets() {
    assert!(is_built(facts(true, false, Some("A"), None).target(), Some("A")));
    assert!(is_built(facts(true, false, None, Some(true)).target(), None));
    for facts in [
        facts(false, false, Some("A"), Some(true)),
        facts(true, true, Some("A"), Some(true)),
        facts(true, false, None, Some(false)),
        facts(true, false, None, None),
    ] {
        assert!(matches!(facts.target(), PluginTarget::Ignore));
    }
}

#[test]
fn list_of_plugins() {
    let mut list = PluginList::new();
    assert!(!list.has_changed(None));
    assert!(!list.has_changed(Some("")));
    assert_eq!(list.cmake_argument(), "-DFLUTTER_PLUGINS=");
    list.push("a", &build(Some("APlugin")));
    list.push("b", &build(None));
    list.push("c", &PluginTarget::Ignore);
    list.push("d", &build(Some("DPlugin")));
    assert_eq!(list.list(), "a,APlugin\nd,DPlugin\n");
    assert_eq!(list.cmake_argument(), "-DFLUTTER_PLUGINS=a;b;d");
    assert!(list.has_changed(None));
    assert!(list.has_changed(Some("a,APlugin\n")));
    assert!(!list.has_changed(Some("a,APlugin\nd,DPlugin\n")));
}

#[test]
fn lines_of_a_text() {
    assert!(split_lines("").is_empty());
    assert_eq!(split_lines("a\r\nb\n\nc\r"), vec!["a", "b", "", "c\r"]);
    assert_eq!(split_lines("é\n"), vec!["é"]);
}

#[test]
fn parts_of_a_line() {
    assert_eq!(split_at_comma("a,b,c"), Some(("a".to_owned(), "b,c".to_owned())));
    assert_eq!(split_at_comma(",é"), Some((String::new(), "é".to_owned())));
    assert_eq!(split_at_comma("ab"), None);
}

#[test]
fn source_of_the_registrant() {
    let lines = split_lines("one,OnePlugin\nnothing\ntwo,TwoPlugin\n");
    let expected = "#[link(name = \"one_plugin\")]\nunsafe extern \"C\" {\n    fn OnePluginRegisterWithRegistrar(registrar: *mut std::ffi::c_void);\n}\n#[link(name = \"two_plugin\")]\nunsafe extern \"C\" {\n    fn TwoPluginRegisterWithRegistrar(registrar: *mut std::ffi::c_void);\n}\n\nstatic PLUGINS: &[unsafe extern \"C\" fn(*mut std::ffi::c_void)] = &[\nOnePluginRegisterWithRegistrar,\nTwoPluginRegisterWithRegistrar,\n\n];\n";
    assert_eq!(generate_plugins_registrant(&lines), expected);
    assert_eq!(
        generate_plugins_registrant(&vec![]),
        "\nstatic PLUGINS: &[unsafe extern \"C\" fn(*mut std::ffi::c_void)] = &[\n\n];\n"
    );
}

#[test]
fn written_list_is_read_back() {
    let mut list = PluginList::new();
    list.push("a", &build(Some("A,B")));
    list.push("b", &build(None));
    list.push("c", &build(Some("")));
    let read: Vec<_> = split_lines(list.list())
        .iter()
        .map(|line| split_at_comma(line).unwrap())
        .collect();
    assert_eq!(
        read,
        vec![
            ("a".to_owned(), "A,B".to_owned()),
            ("c".to_owned(), String::new()),
        ]
    );
}

fn plugin(name: &str, windows: &str) -> Plugin {
    let pubspec = format!("flutter:\n  plugin:\n    platforms:\n      windows:\n        {windows}\n");
    Plugin { name: name.to_owned(), pubspec }
}

#[test]
fn processed_plugins() {
    let plugins = vec![
        plugin("a", "pluginClass: A"),
        plugin("b", "other: 1"),
        plugin("c", "ffiPlugin: true"),
        plugin("d", "pluginClass: D"),
    ];
    let processed = process_plugins(&plugins);
    assert!(processed.failure.is_none());
    assert_eq!(processed.built, vec![0, 2, 3]);
    assert_eq!(processed.list.list(), "a,A\nd,D\n");
    assert_eq!(processed.list.cmake_argument(), "-DFLUTTER_PLUGINS=a;c;d");
}

#[test]
fn failure_ends_the_processing() {
    let mut plugins = vec![
        plugin("a", "pluginClass: A"),
        Plugin { name: "b".to_owned(), pubspec: "a: [1".to_owned() },
        plugin("c", "pluginClass: C"),
    ];
    let processed = process_plugins(&plugins);
    assert!(matches!(
        processed.failure,
        Some((1, PluginFailure::Unreadable(DocumentError::Yaml(_))))
    ));
    assert_eq!(processed.built, vec![0]);
    assert_eq!(processed.list.list(), "a,A\n");

    plugins[1].pubspec = String::new();
    let processed = process_plugins(&plugins);
    assert!(matches!(processed.failure, Some((1, PluginFailure::NoDocument))));
    assert_eq!(processed.list.list(), "a,A\n");
}

#[test]
fn plugins_one_by_one() {
    let mut list = PluginList::new();
    assert!(matches!(process_plugin(&mut list, &plugin("a", "pluginClass: A")), Ok(true)));
    assert!(matches!(process_plugin(&mut list, &plugin("b", "other: 1")), Ok(false)));
    let broken = Plugin { name: "c".to_owned(), pubspec: "a: [1".to_owned() };
    assert!(matches!(
        process_plugin(&mut list, &broken),
        Err(PluginFailure::Unreadable(DocumentError::Yaml(_)))
    ));
    let empty = Plugin { name: "d".to_owned(), pubspec: String::new() };
    assert!(matches!(process_plugin(&mut list, &empty), Err(PluginFailure::NoDocument)));
    assert!(matches!(process_plugin(&mut list, &plugin("e", "ffiPlugin: true")), Ok(true)));
    assert_eq!(list.list(), "a,A\n");
    assert_eq!(list.cmake_argument(), "-DFLUTTER_PLUGINS=a;e");
}

#[test]
fn lines_of_a_file() {
    assert!(read_lines(&Vec::new()).is_empty());
    assert_eq!(read_lines(&b"a,A\r\nb,B\n\nc".to_vec()), vec!["a,A", "b,B", "", "c"]);
    assert_eq!(read_lines(&"\u{e9},\u{20ac}\n".as_bytes().to_vec()), vec!["\u{e9},\u{20ac}"]);
}

#[test]
fn file_is_read_up_to_the_first_line_that_is_not_text() {
    assert_eq!(read_text(&b"a,A\nb\xff,B\nc,C\n".to_vec()), "a,A\n");
    assert_eq!(read_lines(&b"a,A\nb,B\n\xc3".to_vec()), vec!["a,A", "b,B"]);
    assert_eq!(read_lines(&b"\xe2\x82\n\xac,A\n".to_vec()), Vec::<String>::new());
    assert_eq!(read_text(&b"a,A\n\xed\xa0\x80\n".to_vec()), "a,A\n");
    assert_eq!(read_text(&b"a,A\n\xc0\x8a".to_vec()), "a,A\n");
}

#[test]
fn written_file_lists_the_plugins() {
    let mut list = PluginList::new();
    let build = |class: &str| PluginTarget::Build { class: Some(class.to_owned()) };
    list.push("caf\u{e9}", &build("Caf\u{e9}Plugin"));
    list.push("b", &build("BPlugin"));
    let lines = read_lines(&list.list().as_bytes().to_vec());
    assert_eq!(lines, vec!["caf\u{e9},Caf\u{e9}Plugin", "b,BPlugin"]);
    assert!(generate_plugins_registrant(&lines).contains("BPluginRegisterWithRegistrar,\n"));
}
