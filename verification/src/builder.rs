//! The command lines of the external toolchain: the lint tool and the
//! bundler. Both run through the sandbox executor.

use vstd::prelude::*;
use vstd::string::*;
use crate::build_context::{BuildContext, Files};
use crate::text::{chars_of, ends_with, is_suffix};

verus! {

/// The runtime that runs both tools.
pub const RUNTIME: &'static str = "node";

/// The lint tool's entry point, relative to the working directory.
pub const LINT_ENTRY: &'static str = "node_modules/eslint/bin/eslint.js";

/// The directory of the lint rules, relative to the working directory.
pub const RULES_DIR: &'static str = "lib/rules";

/// The bundler's entry point, relative to the working directory.
pub const BUNDLER_ENTRY: &'static str = "node_modules/webpack-cli/bin/cli.js";

/// The directory below the working directory that receives the context's
/// files.
pub const SOURCE_DIR: &'static str = "src";

/// The directory below the working directory where the bundler leaves its
/// output.
pub const OUTPUT_DIR: &'static str = "dist";

/// The path names a source file that the lint tool checks: its extension is
/// `.js` or `.jsx`.
pub open spec fn is_source(path: Seq<char>) -> bool {
    is_suffix(path, ".js"@) || is_suffix(path, ".jsx"@)
}

/// The files the lint tool is pointed at: the context's source files, each
/// below the source directory, in the order of the context.
pub open spec fn lint_targets(files: Files) -> Seq<Seq<char>>
    decreases files.len(),
{
    if files.len() == 0 {
        Seq::empty()
    } else if is_source(files.last().0) {
        lint_targets(files.drop_last()).push("src/"@ + files.last().0)
    } else {
        lint_targets(files.drop_last())
    }
}

/// The lint tool's command line. The `--` before the file names keeps a
/// crafted file name from being read as an option.
pub open spec fn lint_command_line(files: Files) -> Seq<Seq<char>> {
    seq![RUNTIME@, LINT_ENTRY@, "--rulesdir"@, RULES_DIR@, "--"@] + lint_targets(files)
}

/// The bundler's command line: production mode.
pub open spec fn build_command_line() -> Seq<Seq<char>> {
    seq![RUNTIME@, BUNDLER_ENTRY@, "--mode=production"@]
}

/// Builds the lint tool's command line for the files of `context`.
pub fn lint_command(context: &BuildContext) -> (argv: Vec<String>)
    ensures
        argv.deep_view() == lint_command_line(context@),
{
    let mut argv: Vec<String> = Vec::new();
    argv.push(RUNTIME.to_owned());
    argv.push(LINT_ENTRY.to_owned());
    argv.push("--rulesdir".to_owned());
    argv.push(RULES_DIR.to_owned());
    argv.push("--".to_owned());
    let js = chars_of(".js");
    let jsx = chars_of(".jsx");
    let n = context.len();
    let mut i: usize = 0;
    while i < n
        invariant
            n == context@.len(),
            i <= n,
            js@ == ".js"@,
            jsx@ == ".jsx"@,
            argv.deep_view() == lint_command_line(context@.take(i as int)),
        decreases n - i,
    {
        let path = context.path(i);
        let chars = chars_of(path.as_str());
        assert(context@.take(i + 1).drop_last() == context@.take(i as int));
        if ends_with(chars.as_slice(), js.as_slice()) || ends_with(chars.as_slice(), jsx.as_slice()) {
            let ghost before = argv.deep_view();
            let target = "src/".to_owned().concat(path.as_str());
            argv.push(target);
            assert(argv.deep_view() =~= before.push("src/"@ + path@));
        }
        i = i + 1;
    }
    assert(context@.take(n as int) == context@);
    argv
}

/// Builds the bundler's command line.
pub fn build_command() -> (argv: Vec<String>)
    ensures
        argv.deep_view() == build_command_line(),
{
    let mut argv: Vec<String> = Vec::new();
    argv.push(RUNTIME.to_owned());
    argv.push(BUNDLER_ENTRY.to_owned());
    argv.push("--mode=production".to_owned());
    argv
}

} // verus!
