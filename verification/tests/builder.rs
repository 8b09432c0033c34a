use build_executor::build_context::BuildContext;
use build_executor::builder::{build_command, lint_command, OUTPUT_DIR, SOURCE_DIR};
use build_executor::encoding::Base64Encoded;

fn context_of(paths: &[&str]) -> BuildContext {
    let mut context = BuildContext::new();
    for path in paths {
        context.insert(path.to_string(), Base64Encoded::create(b"x"));
    }
    context
}

#[test]
fn the_lint_tool_is_pointed_at_the_source_files() {
    let ctx = context_of(&[
        "index.js",
        "style.css",
        "view.jsx",
        "README.md",
        "notjs",
        "lib/util.js",
        "makejsx",
        "data.json",
        "js",
    ]);
    assert_eq!(
        lint_command(&ctx),
        vec![
            "node",
            "node_modules/eslint/bin/eslint.js",
            "--rulesdir",
            "lib/rules",
            "--",
            "src/index.js",
            "src/view.jsx",
            "src/lib/util.js",
        ]
    );
}

#[test]
fn file_names_stand_behind_the_separator() {
    let ctx = context_of(&["--help.js"]);
    let argv = lint_command(&ctx);
    let separator = argv.iter().position(|a| a == "--").unwrap();
    assert_eq!(separator, 4);
    assert_eq!(argv[5], "src/--help.js");
    assert_eq!(argv.len(), 6);
}

#[test]
fn a_context_without_sources_gives_the_bare_lint_command() {
    let ctx = context_of(&["style.css", "data.json"]);
    assert_eq!(
        lint_command(&ctx),
        vec!["node", "node_modules/eslint/bin/eslint.js", "--rulesdir", "lib/rules", "--"]
    );
}

#[test]
fn a_name_that_only_ends_in_the_letters_is_no_source_file() {
    let ctx = context_of(&["notjs", "jsx", "a.js.map", "a.JS"]);
    assert_eq!(lint_command(&ctx).len(), 5);
    let ctx = context_of(&[".js", "a.b.jsx"]);
    assert_eq!(lint_command(&ctx)[5..], ["src/.js", "src/a.b.jsx"]);
}

#[test]
fn the_bundler_runs_in_production_mode() {
    assert_eq!(
        build_command(),
        vec!["node", "node_modules/webpack-cli/bin/cli.js", "--mode=production"]
    );
    assert_eq!(SOURCE_DIR, "src");
    assert_eq!(OUTPUT_DIR, "dist");
}
