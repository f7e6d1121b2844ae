use ini::Ini;
use runrust::config::{
    build_commands, build_config, collect_pairs, commands_from, load_commands, load_config,
    load_section, section_map, Config, ConfigError, ConfigMap,
};

const DOCUMENT: &str = "\
[webconf]
port = :8080

[paths]
root = /srv
logs = /var/log

[commands]
ListName = List data
ListValue = list
ListCommand = ls {{.root}}/data
ListDescription = Lists the data directory
TailName = Tail log
TailValue = tail
TailCommand = tail -n 20 {{.logs}}/app.log {{.unknown}}
TailDescription = Shows the end of the log
";

fn document() -> Ini {
    Ini::load_from_str(DOCUMENT).unwrap()
}

fn pairs(items: &[(&str, &str)]) -> Vec<(String, String)> {
    items.iter().map(|(k, v)| (k.to_string(), v.to_string())).collect()
}

fn keys_of(config: &Config) -> Vec<String> {
    config.commands.entries().iter().map(|(k, _)| k.clone()).collect()
}

#[test]
fn loads_the_three_sections() {
    let config = load_config(&document()).unwrap();
    assert_eq!(config.webconf.get("port").map(String::as_str), Some(":8080"));
    assert_eq!(config.paths.get("root").map(String::as_str), Some("/srv"));
    assert_eq!(config.paths.get("logs").map(String::as_str), Some("/var/log"));
    assert_eq!(config.paths.len(), 2);
    assert_eq!(config.commands.len(), 2);
    assert_eq!(keys_of(&config), vec!["List".to_string(), "Tail".to_string()]);
}

#[test]
fn registry_holds_substituted_commands() {
    let config = load_config(&document()).unwrap();
    let list = config.commands.get("List").unwrap();
    assert_eq!(list.name, "List data");
    assert_eq!(list.value, "list");
    assert_eq!(list.command, "ls /srv/data");
    assert_eq!(list.description, "Lists the data directory");
    let tail = config.commands.get("Tail").unwrap();
    assert_eq!(tail.command, "tail -n 20 /var/log/app.log {{.unknown}}");
}

#[test]
fn section_is_read_in_document_order() {
    let conf = Ini::load_from_str("[paths]\nb = 2\na = 1\nc = 3\n").unwrap();
    let table = load_section(&conf, "paths").unwrap();
    let keys: Vec<&str> = table.entries().iter().map(|(k, _)| k.as_str()).collect();
    assert_eq!(keys, vec!["b", "a", "c"]);
    let values: Vec<&str> = table.entries().iter().map(|(_, v)| v.as_str()).collect();
    assert_eq!(values, vec!["2", "1", "3"]);
}

#[test]
fn missing_section_is_an_error() {
    let conf = Ini::load_from_str("[paths]\nroot = /srv\n").unwrap();
    match load_section(&conf, "webconf") {
        Err(ConfigError::SectionNotFound(name)) => assert_eq!(name, "webconf"),
        other => panic!("unexpected: {:?}", other.map(|t| t.len())),
    }
    let error = load_config(&conf).err().unwrap();
    assert_eq!(error.message(), "Section 'webconf' not found");
}

#[test]
fn sections_are_asked_for_in_order() {
    let conf = Ini::load_from_str("[webconf]\nport = :1\n").unwrap();
    assert_eq!(load_config(&conf).err().unwrap().message(), "Section 'paths' not found");
    let conf = Ini::load_from_str("[webconf]\nport = :1\n[paths]\n").unwrap();
    assert_eq!(load_config(&conf).err().unwrap().message(), "Section 'commands' not found");
    let paths = ConfigMap::new();
    assert_eq!(
        load_commands(&conf, &paths).err().unwrap().message(),
        "Section 'commands' not found"
    );
}

#[test]
fn missing_companion_key_aborts_loading() {
    let conf = Ini::load_from_str(
        "[webconf]\n[paths]\n[commands]\nFooName = Foo\nFooCommand = ls\nFooDescription = d\n",
    )
    .unwrap();
    match load_config(&conf) {
        Err(ConfigError::KeyNotFound(key)) => assert_eq!(key, "FooValue"),
        Err(other) => panic!("unexpected error: {:?}", other),
        Ok(_) => panic!("a configuration came back"),
    }
    assert_eq!(load_config(&conf).err().unwrap().message(), "FooValue not found");
}

#[test]
fn first_missing_key_is_reported() {
    let paths = ConfigMap::new();
    let section = pairs(&[("FooName", "Foo")]);
    assert_eq!(build_commands(&section, &paths).err().unwrap().message(), "FooValue not found");
    let section = pairs(&[("FooName", "Foo"), ("FooValue", "foo")]);
    assert_eq!(build_commands(&section, &paths).err().unwrap().message(), "FooCommand not found");
    let section = pairs(&[("FooName", "Foo"), ("FooValue", "foo"), ("FooCommand", "ls")]);
    assert_eq!(
        build_commands(&section, &paths).err().unwrap().message(),
        "FooDescription not found"
    );
}

#[test]
fn one_incomplete_group_refuses_the_whole_registry() {
    let paths = ConfigMap::new();
    let section = pairs(&[
        ("AName", "A"),
        ("AValue", "a"),
        ("ACommand", "true"),
        ("ADescription", "d"),
        ("BName", "B"),
        ("BValue", "b"),
        ("BDescription", "d"),
    ]);
    match build_commands(&section, &paths) {
        Err(ConfigError::KeyNotFound(key)) => assert_eq!(key, "BCommand"),
        _ => panic!("the registry was built"),
    }
}

#[test]
fn entries_that_declare_no_group_are_passed_over() {
    let paths = ConfigMap::new();
    let section = pairs(&[("Other", "x"), ("name", "lower case"), ("Named", "y"), ("", "z")]);
    let registry = build_commands(&section, &paths).unwrap();
    assert_eq!(registry.len(), 0);
}

#[test]
fn lone_command_key_is_refused() {
    let conf = Ini::load_from_str("[webconf]\n[paths]\n[commands]\nFooCommand = ls\n").unwrap();
    match load_commands(&conf, &ConfigMap::new()) {
        Err(ConfigError::KeyNotFound(key)) => assert_eq!(key, "FooName"),
        Err(other) => panic!("unexpected error: {:?}", other),
        Ok(_) => panic!("a registry came back"),
    }
    assert_eq!(load_config(&conf).err().unwrap().message(), "FooName not found");
}

#[test]
fn command_key_without_its_value_key_is_refused() {
    let paths = ConfigMap::new();
    let section = pairs(&[("FooCommand", "ls"), ("FooName", "Foo"), ("FooDescription", "d")]);
    assert_eq!(build_commands(&section, &paths).err().unwrap().message(), "FooValue not found");
}

#[test]
fn every_companion_key_declares_its_group() {
    let paths = ConfigMap::new();
    for lone in ["FooValue", "FooCommand", "FooDescription"] {
        let section = pairs(&[(lone, "x")]);
        assert_eq!(
            build_commands(&section, &paths).err().unwrap().message(),
            "FooName not found"
        );
    }
    let section = pairs(&[("FooValue", "foo"), ("FooName", "Foo"), ("FooCommand", "ls")]);
    assert_eq!(
        build_commands(&section, &paths).err().unwrap().message(),
        "FooDescription not found"
    );
    let section = pairs(&[
        ("AName", "A"),
        ("AValue", "a"),
        ("ACommand", "true"),
        ("ADescription", "d"),
        ("BDescription", "late"),
    ]);
    assert_eq!(build_commands(&section, &paths).err().unwrap().message(), "BName not found");
}

#[test]
fn group_with_its_four_keys_in_any_order_is_built() {
    let paths = ConfigMap::new();
    let section = pairs(&[
        ("FooDescription", "d"),
        ("FooCommand", "true"),
        ("FooValue", "foo"),
        ("FooName", "Foo"),
    ]);
    let registry = build_commands(&section, &paths).unwrap();
    assert_eq!(registry.len(), 1);
    assert_eq!(registry.entries()[0].0, "Foo");
    assert_eq!(registry.entries()[0].1.name, "Foo");
    assert_eq!(registry.entries()[0].1.description, "d");
}

#[test]
fn trailing_names_are_all_taken_off_the_group_key() {
    let paths = ConfigMap::new();
    let section = pairs(&[
        ("FooName", "Foo"),
        ("FooValue", "foo"),
        ("FooCommand", "true"),
        ("FooDescription", "d"),
        ("FooNameName", "Again"),
    ]);
    let registry = build_commands(&section, &paths).unwrap();
    assert_eq!(registry.len(), 1);
    assert_eq!(registry.entries()[0].0, "Foo");
    assert_eq!(registry.entries()[0].1.name, "Again");
}

#[test]
fn bare_name_key_declares_the_group_with_the_empty_key() {
    let paths = ConfigMap::new();
    let section =
        pairs(&[("Name", "N"), ("Value", "v"), ("Command", "true"), ("Description", "d")]);
    let registry = build_commands(&section, &paths).unwrap();
    assert_eq!(registry.len(), 1);
    assert_eq!(registry.entries()[0].0, "");
    assert_eq!(registry.entries()[0].1.value, "v");
}

#[test]
fn later_declaration_of_a_group_replaces_the_earlier() {
    let paths = ConfigMap::new();
    let section = pairs(&[
        ("FooName", "first"),
        ("FooValue", "foo"),
        ("FooCommand", "true"),
        ("FooDescription", "d"),
        ("BarName", "bar"),
        ("BarValue", "bar"),
        ("BarCommand", "true"),
        ("BarDescription", "d"),
        ("FooNameName", "second"),
    ]);
    let registry = build_commands(&section, &paths).unwrap();
    assert_eq!(registry.len(), 2);
    assert_eq!(registry.entries()[0].0, "Foo");
    assert_eq!(registry.entries()[0].1.name, "second");
    assert_eq!(registry.entries()[1].0, "Bar");
}

#[test]
fn companion_that_comes_twice_counts_with_its_first_value() {
    let conf = Ini::load_from_str(
        "[commands]\nFooName = Foo\nFooValue = one\nFooValue = two\nFooCommand = ls\nFooDescription = d\n",
    )
    .unwrap();
    let registry = load_commands(&conf, &ConfigMap::new()).unwrap();
    assert_eq!(registry.get("Foo").unwrap().value, "one");
}

#[test]
fn setting_that_comes_twice_keeps_its_last_value() {
    let conf = Ini::load_from_str("[paths]\nroot = /a\nlogs = /l\nroot = /b\n").unwrap();
    let table = load_section(&conf, "paths").unwrap();
    assert_eq!(table.len(), 2);
    assert_eq!(table.get("root").map(String::as_str), Some("/b"));
    assert_eq!(table.entries()[0].0, "root");
    assert_eq!(table.entries()[1].0, "logs");
    let table = collect_pairs(&pairs(&[("k", "1"), ("k", "2"), ("k", "3")]));
    assert_eq!(table.len(), 1);
    assert_eq!(table.get("k").map(String::as_str), Some("3"));
}

#[test]
fn section_map_of_plain_pairs() {
    let table = section_map("paths", Some(pairs(&[("root", "/srv")]))).unwrap();
    assert_eq!(table.get("root").map(String::as_str), Some("/srv"));
    assert_eq!(table.get("other"), None);
    match section_map("paths", None) {
        Err(ConfigError::SectionNotFound(name)) => assert_eq!(name, "paths"),
        _ => panic!("a table came back"),
    }
    match commands_from(None, &ConfigMap::new()) {
        Err(ConfigError::SectionNotFound(name)) => assert_eq!(name, "commands"),
        _ => panic!("a registry came back"),
    }
}

#[test]
fn build_config_of_plain_pairs() {
    let config = build_config(
        Some(pairs(&[("port", ":8080")])),
        Some(pairs(&[("root", "/srv")])),
        Some(pairs(&[
            ("FooName", "Foo"),
            ("FooValue", "foo"),
            ("FooCommand", "ls {{.root}}/data"),
            ("FooDescription", "d"),
        ])),
    )
    .unwrap();
    assert_eq!(config.commands.get("Foo").unwrap().command, "ls /srv/data");
    assert!(build_config(None, Some(Vec::new()), Some(Vec::new())).is_err());
    assert!(build_config(Some(Vec::new()), None, Some(Vec::new())).is_err());
    assert!(build_config(Some(Vec::new()), Some(Vec::new()), None).is_err());
    assert!(build_config(Some(Vec::new()), Some(Vec::new()), Some(Vec::new())).is_ok());
}

#[test]
fn building_twice_gives_identical_tables() {
    let first = load_config(&document()).unwrap();
    let second = load_config(&document()).unwrap();
    assert_eq!(first.webconf.entries(), second.webconf.entries());
    assert_eq!(first.paths.entries(), second.paths.entries());
    assert_eq!(first.commands.len(), second.commands.len());
    for (a, b) in first.commands.entries().iter().zip(second.commands.entries().iter()) {
        assert_eq!(a.0, b.0);
        assert_eq!(a.1.name, b.1.name);
        assert_eq!(a.1.value, b.1.value);
        assert_eq!(a.1.command, b.1.command);
        assert_eq!(a.1.description, b.1.description);
    }
}

#[test]
fn command_is_found_by_its_public_value() {
    let config = load_config(&document()).unwrap();
    for (_, command) in config.commands.entries() {
        let found = config.get_command_by_value(&command.value).unwrap();
        assert_eq!(found.command, command.command);
        assert_eq!(found.name, command.name);
    }
    assert!(config.get_command_by_value("missing").is_none());
    assert!(config.get_command_by_value("List").is_none());
    assert!(config.get_command_by_value("").is_none());
}

#[test]
fn first_of_two_commands_with_one_value_is_found() {
    let section = pairs(&[
        ("AName", "A"),
        ("AValue", "same"),
        ("ACommand", "echo a"),
        ("ADescription", "d"),
        ("BName", "B"),
        ("BValue", "same"),
        ("BCommand", "echo b"),
        ("BDescription", "d"),
    ]);
    let config =
        build_config(Some(Vec::new()), Some(Vec::new()), Some(section)).unwrap();
    assert_eq!(config.get_command_by_value("same").unwrap().command, "echo a");
}

#[test]
fn listing_has_every_command_in_order() {
    let config = load_config(&document()).unwrap();
    let list = config.list_commands();
    assert_eq!(list.len(), 2);
    assert_eq!(list[0].name, "List data");
    assert_eq!(list[0].value, "list");
    assert_eq!(list[0].command, "ls /srv/data");
    assert_eq!(list[0].description, "Lists the data directory");
    assert_eq!(list[1].value, "tail");
}

#[test]
fn error_messages() {
    assert_eq!(
        ConfigError::SectionNotFound("paths".to_string()).message(),
        "Section 'paths' not found"
    );
    assert_eq!(ConfigError::KeyNotFound("FooValue".to_string()).message(), "FooValue not found");
}
