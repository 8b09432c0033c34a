use build_executor::build_context::{BuildContext, ExtractionError};
use build_executor::encoding::Base64Encoded;

const FILES: &[(&str, &str)] = &[
    ("index.js", "console.log(\"Hello world!\");\n"),
    ("index.scss", "body { content: \"Hello world!\"; }\n"),
];

fn read_build_context() -> BuildContext {
    let mut context = BuildContext::new();
    for (path, content) in FILES {
        context.insert(path.to_string(), Base64Encoded::create(content.as_bytes()));
    }
    context
}

fn context_of(paths: &[&str]) -> BuildContext {
    let mut context = BuildContext::new();
    for path in paths {
        context.insert(path.to_string(), Base64Encoded::create(b"x"));
    }
    context
}

#[test]
fn extract() {
    let ctx: BuildContext = read_build_context();

    let plan = ctx.extraction_plan("/tmp/build-env-test-").unwrap();
    assert_eq!(plan.len(), FILES.len());

    for ((file, expected_content), planned) in FILES.iter().zip(plan.iter()) {
        assert_eq!(planned.destination, format!("/tmp/build-env-test-/{}", file));
        assert_eq!(String::from_utf8(planned.bytes.clone()).unwrap(), *expected_content);
    }
}

#[test]
fn a_context_keeps_its_files_in_order() {
    let ctx = read_build_context();
    assert_eq!(ctx.len(), 2);
    assert_eq!(ctx.path(0), "index.js");
    assert_eq!(ctx.path(1), "index.scss");
    assert_eq!(ctx.content(0).0, Base64Encoded::create(FILES[0].1.as_bytes()).0);
}

#[test]
fn setting_a_path_again_replaces_its_content() {
    let mut ctx = read_build_context();
    ctx.insert("index.js".to_string(), Base64Encoded::create(b"new"));
    assert_eq!(ctx.len(), 2);
    assert_eq!(ctx.path(0), "index.js");
    assert_eq!(ctx.content(0).read_to_buffer().unwrap(), b"new");
    assert_eq!(ctx.path(1), "index.scss");
    ctx.insert("other.js".to_string(), Base64Encoded::create(b"more"));
    assert_eq!(ctx.len(), 3);
    assert_eq!(ctx.path(2), "other.js");
}

#[test]
fn clean_paths_are_not_flagged() {
    let ctx = context_of(&["index.js", "lib/util.js", "./style.css", "a..b.txt"]);
    assert_eq!(ctx.sanitize("/sandbox"), Vec::<String>::new());
}

#[test]
fn a_traversal_path_is_flagged() {
    let ctx = context_of(&["../../etc/passwd"]);
    assert_eq!(ctx.sanitize("/sandbox"), vec!["../../etc/passwd".to_string()]);
}

#[test]
fn every_offender_is_reported_not_just_the_first() {
    let ctx = context_of(&[
        "index.js",
        "../../etc/passwd",
        "lib/util.js",
        "/etc/shadow",
        "a/../b.js",
        "deep/../../../x",
        "ok.css",
    ]);
    assert_eq!(
        ctx.sanitize("/sandbox"),
        vec![
            "../../etc/passwd".to_string(),
            "/etc/shadow".to_string(),
            "a/../b.js".to_string(),
            "deep/../../../x".to_string(),
        ]
    );
}

#[test]
fn an_absolute_path_offends_only_where_it_points_outside_the_root() {
    let ctx = context_of(&["/sandbox/a", "ok.js", "/sandbox/b", "/tmp/w/src/c"]);
    assert_eq!(ctx.sanitize("/sandbox"), vec!["/tmp/w/src/c"]);
    assert_eq!(ctx.sanitize("/tmp/w/src"), vec!["/sandbox/a", "/sandbox/b"]);
    match ctx.extraction_plan("/sandbox") {
        Err(ExtractionError::UnsafePath(path)) => assert_eq!(path, "/tmp/w/src/c"),
        other => panic!("unexpected: {:?}", other),
    }
}

#[test]
fn a_context_of_clean_keys_is_planned_one_file_per_entry() {
    let ctx = context_of(&["/w/src/a.js", "b.js", "lib/c.js"]);
    assert!(ctx.sanitize("/w/src").is_empty());
    let plan = ctx.extraction_plan("/w/src").unwrap();
    assert_eq!(plan.len(), 3);
    assert_eq!(plan[0].destination, "/w/src/a.js");
    assert_eq!(plan[1].destination, "/w/src/b.js");
    assert_eq!(plan[2].destination, "/w/src/lib/c.js");
    for planned in &plan {
        assert_eq!(planned.bytes, b"x");
    }
}

#[test]
fn a_root_written_with_a_doubled_separator_confines_the_same_paths() {
    let ctx = context_of(&["a", "b/c.js", "../d"]);
    assert_eq!(ctx.sanitize("/tmp//w/src"), vec!["../d"]);
    assert_eq!(ctx.sanitize("/tmp/w/src/"), vec!["../d"]);
    let clean = context_of(&["a"]);
    assert_eq!(clean.extraction_plan("/tmp//w/src").unwrap()[0].destination, "/tmp/w/src/a");
}

#[test]
fn an_empty_context_has_no_offenders_and_nothing_to_extract() {
    let ctx = BuildContext::new();
    assert_eq!(ctx.len(), 0);
    assert!(ctx.sanitize("/sandbox").is_empty());
    assert!(ctx.extraction_plan("/tmp/x").unwrap().is_empty());
}

#[test]
fn destinations_are_cleaned() {
    let ctx = context_of(&["./a//b/./c.js"]);
    let plan = ctx.extraction_plan("/work/src").unwrap();
    assert_eq!(plan[0].destination, "/work/src/a/b/c.js");
    assert_eq!(plan[0].bytes, b"x");
}

#[test]
fn extraction_stops_at_the_first_unsafe_path() {
    let ctx = context_of(&["index.js", "../up.js", "/abs.js"]);
    match ctx.extraction_plan("/work/src") {
        Err(ExtractionError::UnsafePath(path)) => assert_eq!(path, "../up.js"),
        other => panic!("unexpected: {:?}", other),
    }
}

#[test]
fn extraction_rejects_content_that_is_not_base64() {
    let mut ctx = context_of(&["index.js"]);
    ctx.insert("broken.js".to_string(), Base64Encoded("%%%".to_string()));
    match ctx.extraction_plan("/work/src") {
        Err(ExtractionError::InvalidContent(path)) => assert_eq!(path, "broken.js"),
        other => panic!("unexpected: {:?}", other),
    }
}
