use oxide_mc::functions::{archive_target, base_path, choose_base_path, is_preserved_entry};
use oxide_mc::path::{has_marker, join_path, named_components_of, strip_first_component};
use oxide_mc::text::{chars_of, contains_string, join_strings, replace_char, split_char, string_of};

fn strings(v: &[&str]) -> Vec<String> {
    v.iter().map(|s| s.to_string()).collect()
}

#[test]
fn split_keeps_empty_pieces() {
    assert_eq!(split_char("a:b::c", ':'), strings(&["a", "b", "", "c"]));
    assert_eq!(split_char("", ':'), strings(&[""]));
    assert_eq!(split_char(":", ':'), strings(&["", ""]));
    assert_eq!(split_char("no-separator", ':'), strings(&["no-separator"]));
}

#[test]
fn join_puts_separator_between_parts() {
    assert_eq!(join_strings(&strings(&["a", "b", "c"]), ":"), "a:b:c");
    assert_eq!(join_strings(&strings(&["only"]), ";"), "only");
    assert_eq!(join_strings(&Vec::new(), ":"), "");
}

#[test]
fn split_join_roundtrip_example() {
    let parts = strings(&["/x/a.jar", "/x/b.jar", "/x/c.jar"]);
    let joined = join_strings(&parts, ":");
    assert_eq!(split_char(&joined, ':'), parts);
}

#[test]
fn replace_rewrites_every_occurrence() {
    assert_eq!(replace_char("net.fabricmc.loader", '.', '/'), "net/fabricmc/loader");
    assert_eq!(replace_char("a:b:c", ':', '_'), "a_b_c");
    assert_eq!(replace_char("", ':', '_'), "");
}

#[test]
fn chars_and_strings_roundtrip() {
    let cs = chars_of("héllo");
    assert_eq!(cs, vec!['h', 'é', 'l', 'l', 'o']);
    assert_eq!(string_of(&cs), "héllo");
}

#[test]
fn contains_compares_text() {
    let v = strings(&["a", "b"]);
    assert!(contains_string(&v, &"b".to_string()));
    assert!(!contains_string(&v, &"c".to_string()));
}

#[test]
fn join_path_follows_std_rules() {
    assert_eq!(join_path("/home/u/.mc", "libraries"), "/home/u/.mc/libraries");
    assert_eq!(join_path("/home/u/.mc/", "libraries"), "/home/u/.mc/libraries");
    assert_eq!(join_path("", "libraries"), "libraries");
    assert_eq!(join_path("/base", "/abs/path"), "/abs/path");
    assert_eq!(join_path("base", ""), "base/");
}

#[test]
fn components_skip_empty_and_dot() {
    assert_eq!(named_components_of("a//b/./c/"), strings(&["a", "b", "c"]));
    assert!(has_marker("/a"));
    assert!(has_marker("./a"));
    assert!(has_marker("."));
    assert!(!has_marker(".a/b"));
    assert!(!has_marker("a/b"));
}

#[test]
fn strip_first_component_drops_top_folder() {
    assert_eq!(strip_first_component("jdk-17.0.5+8/bin/java"), "bin/java");
    assert_eq!(strip_first_component("/abs/bin/java"), "abs/bin/java");
    assert_eq!(strip_first_component("./jdk/bin"), "jdk/bin");
    assert_eq!(strip_first_component("jdk-17.0.5+8/"), "");
    assert_eq!(strip_first_component("a//b/./c"), "b/c");
}

#[test]
fn archive_targets() {
    assert_eq!(archive_target("/rt", "jdk/bin/java", true), Some("/rt/bin/java".to_string()));
    assert_eq!(archive_target("/rt", "jdk/", true), None);
    assert_eq!(archive_target("/game", "mods/a.jar", false), Some("/game/mods/a.jar".to_string()));
    assert_eq!(archive_target("/game", "", false), None);
}

#[test]
fn cleaning_keeps_profile_and_runtime() {
    assert!(is_preserved_entry("install_profile.json"));
    assert!(is_preserved_entry("runtime"));
    assert!(!is_preserved_entry("libraries"));
    assert!(!is_preserved_entry("runtime2"));
}

#[test]
fn base_path_falls_back_to_dot_minecraft() {
    assert_eq!(choose_base_path(None), ".minecraft");
    assert_eq!(choose_base_path(Some("/data/oxidemc".to_string())), "/data/oxidemc");
}

#[test]
fn base_path_names_the_project() {
    let p = base_path();
    assert!(p == ".minecraft" || p.contains("oxidemc"), "unexpected data folder {:?}", p);
}
