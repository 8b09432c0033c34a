use build_executor::paths::{is_escaping, join, lies_within, names_parent, resolve};
use build_executor::text::{chars_of, ends_with};

fn chars(s: &str) -> Vec<char> {
    s.chars().collect()
}

#[test]
fn parent_segments_are_found_wherever_they_stand() {
    for path in ["..", "../x", "x/..", "a/../b", "../../etc/passwd", "a/b/../../c", "/.."] {
        assert!(names_parent(&chars(path)), "{}", path);
    }
}

#[test]
fn dots_inside_a_name_are_no_parent_segment() {
    for path in ["", ".", "a", "a..b", "..a", "a..", "a/..b/c", "a/b../c", "...", "a/.../b", "index.js", "./x"] {
        assert!(!names_parent(&chars(path)), "{}", path);
    }
}

#[test]
fn joining_puts_one_separator_between_root_and_path() {
    assert_eq!(join("/sandbox", "index.js"), "/sandbox/index.js");
    assert_eq!(join("/sandbox/", "index.js"), "/sandbox/index.js");
    assert_eq!(join("", "index.js"), "index.js");
    assert_eq!(join("/sandbox", ""), "/sandbox/");
    assert_eq!(join("/tmp/build", "src"), "/tmp/build/src");
}

#[test]
fn an_absolute_path_replaces_the_root() {
    assert_eq!(join("/sandbox", "/etc/passwd"), "/etc/passwd");
}

#[test]
fn resolving_cleans_the_joined_path() {
    assert_eq!(resolve("/sandbox", "./a//b/./c.js"), "/sandbox/a/b/c.js");
    assert_eq!(resolve("/sandbox", "a/../b.js"), "/sandbox/b.js");
    assert_eq!(resolve("/sandbox", "../../etc/passwd"), "/etc/passwd");
    assert_eq!(resolve("/sandbox", "index.js"), "/sandbox/index.js");
}

#[test]
fn a_destination_lies_within_its_root_only_at_a_segment_boundary() {
    assert!(lies_within(&chars("/sandbox"), &chars("/sandbox")));
    assert!(lies_within(&chars("/sandbox"), &chars("/sandbox/a.js")));
    assert!(lies_within(&chars("/sandbox/"), &chars("/sandbox/a.js")));
    assert!(lies_within(&chars("/"), &chars("/a")));
    assert!(!lies_within(&chars("/sandbox"), &chars("/sandboxes/a.js")));
    assert!(!lies_within(&chars("/sandbox"), &chars("/sand")));
    assert!(!lies_within(&chars("/sandbox"), &chars("/etc/passwd")));
    assert!(!lies_within(&chars("/sandbox"), &chars("")));
}

#[test]
fn escaping_paths_are_recognised() {
    assert!(is_escaping("/sandbox", "../../etc/passwd"));
    assert!(is_escaping("/sandbox", "/etc/passwd"));
    assert!(is_escaping("/sandbox", "a/../b.js"));
    assert!(is_escaping("/sandbox", ".."));
    assert!(is_escaping("/sandbox", "/sandboxes/a"));
    assert!(is_escaping("/sandbox", "/"));
    assert!(is_escaping("/sandbox", "/sandbox/../etc"));
    assert!(!is_escaping("/sandbox", "index.js"));
    assert!(!is_escaping("/sandbox", "lib/util.js"));
    assert!(!is_escaping("/sandbox", "./a/./b.js"));
    assert!(!is_escaping("/sandbox", "a..b/c"));
}

#[test]
fn an_absolute_path_is_unsafe_only_if_it_points_outside() {
    assert!(!is_escaping("/sandbox", "/sandbox/a"));
    assert!(!is_escaping("/sandbox", "/sandbox"));
    assert!(!is_escaping("/sandbox", "/sandbox//lib/./a.js"));
    assert!(!is_escaping("/", "/a"));
    assert!(!is_escaping("/w/src", "/w/src/a.js"));
    assert!(is_escaping("/w/src", "/w/a.js"));
    assert!(is_escaping("/w/src", "/etc/passwd"));
}

#[test]
fn the_root_counts_in_its_cleaned_form() {
    assert!(!is_escaping("/tmp//w/src", "a"));
    assert!(!is_escaping("/tmp/w/src/", "a/b.js"));
    assert!(!is_escaping("/tmp/./w/src", "index.js"));
    assert!(!is_escaping("/", "a"));
    assert!(is_escaping("/tmp//w/src", "../a"));
    assert!(!is_escaping("/tmp//w/src", "/tmp/w/src/a"));
    assert!(is_escaping("/tmp//w/src", "/tmp/w/a"));
}

#[test]
fn characters_and_suffixes() {
    assert_eq!(chars_of("añb"), vec!['a', 'ñ', 'b']);
    assert_eq!(chars_of(""), Vec::<char>::new());
    assert!(ends_with(&chars("index.js"), &chars("js")));
    assert!(ends_with(&chars("js"), &chars("js")));
    assert!(ends_with(&chars("x"), &chars("")));
    assert!(!ends_with(&chars("index.jsx"), &chars("js")));
    assert!(!ends_with(&chars("s"), &chars("js")));
}
