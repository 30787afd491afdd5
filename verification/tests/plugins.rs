use std::cell::RefCell;
use std::path::PathBuf;
use zellij_utils::data::PluginTag;
use zellij_utils::input::layout::{RunPlugin, RunPluginLocation};
use zellij_utils::input::plugin::{read_first, with_wasm};
use zellij_utils::input::plugins::{PluginConfig, PluginType, PluginsConfig, PluginsConfigError};

fn tag(name: &str) -> PluginTag {
    PluginTag::new(name.to_string())
}

fn config(path: &str, allow: bool) -> PluginConfig {
    PluginConfig {
        path: PathBuf::from(path),
        run: PluginType::Headless,
        _allow_exec_host_cmd: allow,
        location: RunPluginLocation::Zellij(tag(path)),
    }
}

fn by_name(name: &str, allow: bool) -> RunPlugin {
    RunPlugin {
        _allow_exec_host_cmd: allow,
        location: RunPluginLocation::Zellij(tag(name)),
    }
}

#[test]
fn new_config_has_no_plugins() {
    assert!(PluginsConfig::new().iter().is_empty());
    assert!(PluginsConfig::default().iter().is_empty());
    assert!(PluginsConfig::new().get(&by_name("tab-bar", true)).is_none());
}

#[test]
fn plugin_is_found_by_its_tag() {
    let configs = PluginsConfig::from_data(vec![
        (tag("tab-bar"), config("a", false)),
        (tag("status-bar"), config("b", true)),
    ]);
    let found = configs.get(&by_name("tab-bar", true)).unwrap();
    assert_eq!(found.path, PathBuf::from("a"));
    assert_eq!(found.run, PluginType::Headless);
    assert!(found._allow_exec_host_cmd);
    assert!(found.location == RunPluginLocation::Zellij(tag("a")));
    let found = configs.get(&by_name("status-bar", false)).unwrap();
    assert_eq!(found.path, PathBuf::from("b"));
    assert!(!found._allow_exec_host_cmd);
    assert!(configs.get(&by_name("strider", false)).is_none());
}

#[test]
fn plugin_of_a_file_needs_no_entry() {
    let run = RunPlugin {
        _allow_exec_host_cmd: true,
        location: RunPluginLocation::File(PathBuf::from("/opt/x.wasm")),
    };
    let found = PluginsConfig::new().get(&run).unwrap();
    assert_eq!(found.path, PathBuf::from("/opt/x.wasm"));
    assert_eq!(found.run, PluginType::Pane(None));
    assert!(found._allow_exec_host_cmd);
    assert!(found.location == run.location);
}

#[test]
fn later_entries_override_earlier_ones() {
    let configs = PluginsConfig::from_data(vec![
        (tag("x"), config("a", false)),
        (tag("y"), config("c", false)),
        (tag("x"), config("b", false)),
    ]);
    assert_eq!(configs.iter().len(), 2);
    assert_eq!(
        configs.get(&by_name("x", false)).unwrap().path,
        PathBuf::from("b")
    );
}

#[test]
fn merged_config_prefers_the_other() {
    let base = PluginsConfig::from_data(vec![
        (tag("x"), config("a", false)),
        (tag("y"), config("b", false)),
    ]);
    let other = PluginsConfig::from_data(vec![
        (tag("y"), config("c", false)),
        (tag("z"), config("d", false)),
    ]);
    let merged = base.merge(other);
    let path = |name: &str| merged.get(&by_name(name, false)).unwrap().path;
    assert_eq!(path("x"), PathBuf::from("a"));
    assert_eq!(path("y"), PathBuf::from("c"));
    assert_eq!(path("z"), PathBuf::from("d"));
    assert_eq!(merged.iter().len(), 3);
    assert_eq!(
        base.get(&by_name("y", false)).unwrap().path,
        PathBuf::from("b")
    );
}

#[test]
fn merging_with_nothing_changes_nothing() {
    let base = PluginsConfig::from_data(vec![(tag("x"), config("a", false))]);
    assert!(base.merge(PluginsConfig::new()) == base);
    assert!(PluginsConfig::new().merge(base.clone()) == base);
}

#[test]
fn merging_is_associative() {
    let a = PluginsConfig::from_data(vec![(tag("x"), config("a", false))]);
    let b = PluginsConfig::from_data(vec![(tag("x"), config("b", false))]);
    let c = PluginsConfig::from_data(vec![(tag("y"), config("c", false))]);
    assert!(a.merge(b.clone()).merge(c.clone()) == a.merge(b.merge(c)));
}

#[test]
fn iter_gives_every_config_once() {
    let configs = PluginsConfig::from_data(vec![
        (tag("x"), config("a", false)),
        (tag("y"), config("b", false)),
    ]);
    let mut paths: Vec<PathBuf> = configs.iter().iter().map(|c| c.path.clone()).collect();
    paths.sort();
    assert_eq!(paths, vec![PathBuf::from("a"), PathBuf::from("b")]);
}

#[test]
fn sorted_form_is_by_tag() {
    let one = PluginsConfig::from_data(vec![
        (tag("tab-bar"), config("a", false)),
        (tag("status-bar"), config("b", false)),
        (tag("Strider"), config("c", false)),
    ]);
    let other = PluginsConfig::from_data(vec![
        (tag("Strider"), config("c", false)),
        (tag("tab-bar"), config("a", false)),
        (tag("status-bar"), config("b", false)),
    ]);
    let names = |configs: &PluginsConfig| -> Vec<String> {
        configs
            .stable_sorted()
            .iter()
            .map(|entry| entry.0 .0.clone())
            .collect()
    };
    assert_eq!(names(&one), vec!["Strider", "status-bar", "tab-bar"]);
    assert_eq!(names(&one), names(&other));
    assert_eq!(one.stable_sorted()[0].1.path, PathBuf::from("c"));
}

#[test]
fn equality_does_not_depend_on_the_order() {
    let one = PluginsConfig::from_data(vec![
        (tag("x"), config("a", false)),
        (tag("y"), config("b", false)),
    ]);
    let same = PluginsConfig::from_data(vec![
        (tag("y"), config("b", false)),
        (tag("x"), config("a", false)),
    ]);
    let fewer = PluginsConfig::from_data(vec![(tag("x"), config("a", false))]);
    let different = PluginsConfig::from_data(vec![
        (tag("x"), config("a", true)),
        (tag("y"), config("b", false)),
    ]);
    assert!(one == same);
    assert!(one != fewer);
    assert!(fewer != one);
    assert!(one != different);
}

#[test]
fn configs_with_equal_paths_are_equal() {
    let mut one = config("a", false);
    let mut other = config("a", false);
    one.path = PathBuf::from("plugins/x");
    other.path = PathBuf::from("plugins//x");
    assert_eq!(one, other);
    other.path = PathBuf::from("plugins/y");
    assert_ne!(one, other);
    other = one.clone();
    assert_eq!(one, other);
    other.location = RunPluginLocation::File(PathBuf::from("a"));
    assert_ne!(one, other);
}

#[test]
fn configs_equal_their_clones() {
    let configs = PluginsConfig::from_data(vec![
        (tag("x"), config("a", false)),
        (tag("y"), config("b//c/./d", true)),
    ]);
    assert!(configs == configs.clone());
    let plugin = config("b//c/./d", true);
    assert_eq!(plugin, plugin.clone());
}

#[test]
fn lookup_chain_of_a_bare_name() {
    let plugin = config("tab-bar", false);
    assert_eq!(
        plugin.lookup_chain(&PathBuf::from("/home/bob/.zellij/plugins")),
        vec![
            PathBuf::from("/tab-bar"),
            PathBuf::from("/tab-bar.wasm"),
            PathBuf::from("/home/bob/.zellij/plugins/tab-bar.wasm"),
        ]
    );
}

#[test]
fn lookup_chain_of_other_paths() {
    let absolute = config("/opt/x.dat", false);
    assert_eq!(
        absolute.lookup_chain(&PathBuf::from("/plugins")),
        vec![
            PathBuf::from("/opt/x.dat"),
            PathBuf::from("/opt/x.dat.wasm"),
            PathBuf::from("/opt/x.dat.wasm"),
        ]
    );
    let relative = config("sub/x.v2", false);
    assert_eq!(
        relative.lookup_chain(&PathBuf::from("/plugins")),
        vec![
            PathBuf::from("/sub/x.v2"),
            PathBuf::from("/sub/x.v2.wasm"),
            PathBuf::from("/plugins/sub/x.v2.wasm"),
        ]
    );
}

#[test]
fn extension_is_added_to_one_that_is_there() {
    let plugin = config("/p/tab.v2", false);
    let bytes = plugin.resolve_wasm_bytes(&PathBuf::from("/q"), |place: &PathBuf| {
        if *place == PathBuf::from("/p/tab.v2.wasm") {
            Some(vec![1])
        } else {
            None
        }
    });
    assert_eq!(bytes, Some(vec![1]));
}

#[test]
fn extension_is_added_to_the_file_name() {
    let added = |path: &str| with_wasm(&PathBuf::from(path));
    assert_eq!(added("tab-bar"), PathBuf::from("tab-bar.wasm"));
    assert_eq!(added("/p/tab.v2"), PathBuf::from("/p/tab.v2.wasm"));
    assert_eq!(added("sub/tab-bar/"), PathBuf::from("sub/tab-bar.wasm"));
    assert_eq!(added(".hidden"), PathBuf::from(".hidden.wasm"));
    assert_eq!(added("sub/.."), PathBuf::from("sub/.."));
    assert_eq!(added("/"), PathBuf::from("/"));
    assert_eq!(added(""), PathBuf::from(""));
    let plugin = config("tab-bar/", false);
    assert_eq!(
        plugin.lookup_chain(&PathBuf::from("/plugins")),
        vec![
            PathBuf::from("/tab-bar/"),
            PathBuf::from("/tab-bar.wasm"),
            PathBuf::from("/plugins/tab-bar.wasm"),
        ]
    );
}

#[test]
fn plugin_directory_comes_last() {
    let plugin = config("tab-bar", false);
    let bytes = plugin.resolve_wasm_bytes(
        &PathBuf::from("/home/bob/.zellij/plugins"),
        |place: &PathBuf| {
            if place.starts_with("/home/bob") {
                Some(vec![9])
            } else {
                None
            }
        },
    );
    assert_eq!(bytes, Some(vec![9]));
}

#[test]
fn first_readable_place_is_taken() {
    let plugin = config("tab-bar", false);
    let tried = RefCell::new(Vec::new());
    let bytes = plugin.resolve_wasm_bytes(
        &PathBuf::from("/home/bob/.zellij/plugins"),
        |place: &PathBuf| {
            tried.borrow_mut().push(place.clone());
            if *place == PathBuf::from("/tab-bar.wasm") {
                Some(vec![1])
            } else {
                None
            }
        },
    );
    assert_eq!(bytes, Some(vec![1]));
    assert_eq!(
        tried.into_inner(),
        vec![PathBuf::from("/tab-bar"), PathBuf::from("/tab-bar.wasm")]
    );
}

#[test]
fn nothing_is_resolved_where_no_place_can_be_read() {
    let plugin = config("tab-bar", false);
    let tried = RefCell::new(0);
    let bytes = plugin.resolve_wasm_bytes(&PathBuf::from("/plugins"), |_: &PathBuf| {
        *tried.borrow_mut() += 1;
        None
    });
    assert_eq!(bytes, None);
    assert_eq!(tried.into_inner(), 3);
}

#[test]
fn tab_index_is_set_on_panes_only() {
    let mut plugin = config("a", false);
    plugin.set_tab_index(3);
    assert_eq!(plugin.run, PluginType::Headless);
    plugin.run = PluginType::default();
    assert_eq!(plugin.run, PluginType::Pane(None));
    plugin.set_tab_index(3);
    assert_eq!(plugin.run, PluginType::Pane(Some(3)));
    plugin.set_tab_index(4);
    assert_eq!(plugin.run, PluginType::Pane(Some(4)));
    assert_eq!(plugin.path, PathBuf::from("a"));
}

#[test]
fn config_errors_say_what_is_wrong() {
    assert_eq!(
        PluginsConfigError::DuplicatePlugins(tag("tab-bar")).to_string(),
        "Duplication in plugin tag names is not allowed: 'tab-bar'"
    );
    let url = url::Url::parse("HTTP://example.com").unwrap();
    assert_eq!(
        PluginsConfigError::InvalidUrl(url).to_string(),
        "Only 'file:' and 'zellij:' url schemes are supported for plugin lookup. 'http://example.com/' does not match either."
    );
    assert_eq!(
        PluginsConfigError::InvalidPluginLocation(PathBuf::from("a\"b")).to_string(),
        "Could not find plugin at the path: '\"a\\\"b\"'"
    );
}

#[test]
fn tag_gives_its_name() {
    assert_eq!(String::from(tag("tab-bar")), "tab-bar");
    assert!(tag("a") == tag("a"));
    assert!(tag("a") != tag("b"));
}

#[test]
fn reading_stops_at_the_first_success() {
    let places = vec![PathBuf::from("a"), PathBuf::from("b"), PathBuf::from("c")];
    let tried = RefCell::new(0);
    let bytes = read_first(&places, |place: &PathBuf| {
        *tried.borrow_mut() += 1;
        if *place == PathBuf::from("a") {
            None
        } else {
            Some(vec![7])
        }
    });
    assert_eq!(bytes, Some(vec![7]));
    assert_eq!(tried.into_inner(), 2);
    assert_eq!(read_first(&Vec::new(), |_: &PathBuf| Some(vec![1])), None);
}
