use runrust::config::ConfigMap;
use runrust::placeholder::{placeholder_chars, replace_placeholders};
use runrust::text::string_of;

fn paths(pairs: &[(&str, &str)]) -> ConfigMap {
    let mut table = ConfigMap::new();
    for (key, value) in pairs {
        table.insert(key.to_string(), value.to_string());
    }
    table
}

#[test]
fn substitutes_a_path_variable() {
    let table = paths(&[("root", "/srv")]);
    assert_eq!(replace_placeholders("ls {{.root}}/data", &table), "ls /srv/data");
}

#[test]
fn template_without_a_matching_placeholder_is_unchanged() {
    let table = paths(&[("root", "/srv")]);
    assert_eq!(replace_placeholders("ls /tmp", &table), "ls /tmp");
    assert_eq!(replace_placeholders("ls {{.other}}", &table), "ls {{.other}}");
    assert_eq!(replace_placeholders("ls {{root}}", &table), "ls {{root}}");
}

#[test]
fn every_occurrence_of_every_variable_is_replaced() {
    let table = paths(&[("a", "1"), ("b", "2")]);
    assert_eq!(replace_placeholders("{{.a}}{{.b}}{{.a}} {{.c}}", &table), "121 {{.c}}");
}

#[test]
fn variables_are_substituted_in_table_order() {
    let table = paths(&[("a", "{{.b}}"), ("b", "x")]);
    assert_eq!(replace_placeholders("{{.a}}", &table), "x");
    let table = paths(&[("b", "x"), ("a", "{{.b}}")]);
    assert_eq!(replace_placeholders("{{.a}}", &table), "{{.b}}");
}

#[test]
fn no_variables_leave_the_template_alone() {
    assert_eq!(replace_placeholders("echo {{.x}}", &ConfigMap::new()), "echo {{.x}}");
}

#[test]
fn placeholder_token_has_braces_and_dot() {
    assert_eq!(string_of(&placeholder_chars("root")), "{{.root}}");
    assert_eq!(string_of(&placeholder_chars("")), "{{.}}");
}
