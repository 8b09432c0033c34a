//! The sandbox executor's rules: how an external command is started, and what
//! of its result is handed on.
//!
//! The command runs under a named, less privileged identity, in the build's
//! working directory, with an environment that holds the search path and
//! nothing else. Its output is captured, and the working directory's own path
//! is taken out of it before a client sees it.

use vstd::prelude::*;
use vstd::string::*;

verus! {

/// The program that switches to the less privileged identity.
pub const LAUNCHER: &'static str = "sudo";

/// The only variable the child's environment holds.
pub const SEARCH_PATH_VARIABLE: &'static str = "PATH";

/// The identity that runs the toolchain. It is never the server's own.
pub const BUILD_IDENTITY: &'static str = "bob";

/// The owner, as user and group, of the directory that receives the
/// bundler's output.
pub const OUTPUT_OWNER: &'static str = "bob:builder";

/// The exit code reported for a process that ended without one.
pub const EXIT_CODE_WHEN_KILLED: i32 = 1;

/// Everything needed to start one sandboxed process.
#[derive(Debug)]
pub struct SandboxCommand {
    /// The program to start.
    pub program: String,
    /// Its arguments.
    pub arguments: Vec<String>,
    /// The child's whole environment, as (name, value) pairs. Nothing is
    /// inherited from the parent.
    pub environment: Vec<(String, String)>,
    /// The directory the child starts in.
    pub working_dir: String,
}

/// The result of one sandboxed process.
#[derive(Debug)]
pub struct ExecutionResult {
    /// Zero means success; any other value is a failure that the tool
    /// reported, not a fault of the system.
    pub exit_code: i32,
    /// Captured standard output, without the working directory's path.
    pub stdout: Vec<u8>,
    /// Captured standard error, without the working directory's path.
    pub stderr: Vec<u8>,
}

/// The launcher's arguments: keep the environment it is given, switch to
/// `identity`, then the command itself.
pub open spec fn launcher_arguments(identity: Seq<char>, argv: Seq<Seq<char>>) -> Seq<Seq<char>> {
    seq!["--preserve-env"@, "-u"@, identity] + argv
}

/// `text` begins with `fragment`.
pub open spec fn begins_with(text: Seq<u8>, fragment: Seq<u8>) -> bool {
    fragment.len() <= text.len() && text.take(fragment.len() as int) == fragment
}

/// `text` without the occurrences of `fragment`, found from left to right
/// without overlap. An empty fragment occurs nowhere.
pub open spec fn stripped(text: Seq<u8>, fragment: Seq<u8>) -> Seq<u8>
    decreases text.len(),
{
    if fragment.len() == 0 || text.len() == 0 {
        text
    } else if begins_with(text, fragment) {
        stripped(text.skip(fragment.len() as int), fragment)
    } else {
        seq![text[0]] + stripped(text.skip(1), fragment)
    }
}

/// `fragment` stands in `text` at position `at`.
pub open spec fn occurs_at(text: Seq<u8>, fragment: Seq<u8>, at: int) -> bool {
    &&& 0 <= at
    &&& at + fragment.len() <= text.len()
    &&& text.subrange(at, at + fragment.len()) == fragment
}

/// `fragment` stands somewhere in `text`.
pub open spec fn occurs_in(text: Seq<u8>, fragment: Seq<u8>) -> bool {
    exists|at: int| occurs_at(text, fragment, at)
}

/// `text` with `fragment` taken out until none is left: taking the
/// occurrences out once can bring the parts of a new one together, so the
/// text is stripped again for as long as that shortens it.
pub open spec fn scrubbed(text: Seq<u8>, fragment: Seq<u8>) -> Seq<u8>
    decreases text.len(),
{
    if stripped(text, fragment).len() < text.len() {
        scrubbed(stripped(text, fragment), fragment)
    } else {
        text
    }
}

/// Stripping never lengthens a text.
pub proof fn lemma_stripping_shortens(text: Seq<u8>, fragment: Seq<u8>)
    ensures
        stripped(text, fragment).len() <= text.len(),
    decreases text.len(),
{
    if fragment.len() > 0 && text.len() > 0 {
        if begins_with(text, fragment) {
            lemma_stripping_shortens(text.skip(fragment.len() as int), fragment);
        } else {
            lemma_stripping_shortens(text.skip(1), fragment);
        }
    }
}

/// A text that stripping does not shorten holds no occurrence of the
/// fragment.
pub proof fn lemma_unshortened_text_is_clean(text: Seq<u8>, fragment: Seq<u8>)
    requires
        fragment.len() > 0,
        stripped(text, fragment).len() >= text.len(),
    ensures
        !occurs_in(text, fragment),
    decreases text.len(),
{
    if text.len() > 0 {
        if begins_with(text, fragment) {
            lemma_stripping_shortens(text.skip(fragment.len() as int), fragment);
        } else {
            let rest = text.skip(1);
            lemma_unshortened_text_is_clean(rest, fragment);
            assert forall|at: int| !occurs_at(text, fragment, at) by {
                if occurs_at(text, fragment, at) {
                    if at == 0 {
                        assert(text.subrange(0, fragment.len() as int) =~= text.take(
                            fragment.len() as int,
                        ));
                    } else {
                        assert(rest.subrange(at - 1, at - 1 + fragment.len()) =~= text.subrange(
                            at,
                            at + fragment.len(),
                        ));
                        assert(occurs_at(rest, fragment, at - 1));
                    }
                }
            }
        }
    }
}

/// Scrubbing a text and scrubbing what one pass left of it give the same.
proof fn lemma_stripped_is_scrubbed_alike(text: Seq<u8>, fragment: Seq<u8>)
    ensures
        scrubbed(stripped(text, fragment), fragment) == scrubbed(text, fragment),
{
    lemma_stripping_shortens(text, fragment);
    if stripped(text, fragment).len() == text.len() {
        lemma_unshortened_strip_is_identity(text, fragment);
    }
}

/// A pass that does not shorten the text leaves it as it is.
proof fn lemma_unshortened_strip_is_identity(text: Seq<u8>, fragment: Seq<u8>)
    requires
        stripped(text, fragment).len() >= text.len(),
    ensures
        stripped(text, fragment) == text,
    decreases text.len(),
{
    if fragment.len() > 0 && text.len() > 0 {
        if begins_with(text, fragment) {
            lemma_stripping_shortens(text.skip(fragment.len() as int), fragment);
        } else {
            lemma_unshortened_strip_is_identity(text.skip(1), fragment);
            assert(seq![text[0]] + text.skip(1) =~= text);
        }
    }
}

/// What is handed on holds no occurrence of the fragment.
pub proof fn lemma_scrubbed_text_is_clean(text: Seq<u8>, fragment: Seq<u8>)
    requires
        fragment.len() > 0,
    ensures
        !occurs_in(scrubbed(text, fragment), fragment),
    decreases text.len(),
{
    if stripped(text, fragment).len() < text.len() {
        lemma_scrubbed_text_is_clean(stripped(text, fragment), fragment);
    } else {
        lemma_unshortened_text_is_clean(text, fragment);
    }
}

/// The exit code that is reported for a process status.
pub open spec fn reported_code(status: Option<i32>) -> i32 {
    match status {
        Some(code) => code,
        None => EXIT_CODE_WHEN_KILLED,
    }
}

/// Plans the start of `argv` in `working_dir` under `identity`. The child's
/// environment is cleared but for the search path, whose value the caller
/// read from its own environment beforehand: whatever else the parent holds,
/// credentials included, never reaches the child.
pub fn plan(working_dir: &str, identity: &str, argv: &Vec<String>, search_path: &str) -> (command:
    SandboxCommand)
    ensures
        command.program@ == LAUNCHER@,
        command.arguments.deep_view() == launcher_arguments(identity@, argv.deep_view()),
        command.environment.deep_view() == seq![(SEARCH_PATH_VARIABLE@, search_path@)],
        command.working_dir@ == working_dir@,
{
    let mut arguments: Vec<String> = Vec::new();
    arguments.push("--preserve-env".to_owned());
    arguments.push("-u".to_owned());
    arguments.push(identity.to_owned());
    let n = argv.len();
    let mut i: usize = 0;
    while i < n
        invariant
            n == argv@.len(),
            i <= n,
            arguments.deep_view() == launcher_arguments(identity@, argv.deep_view().take(i as int)),
        decreases n - i,
    {
        let ghost before = arguments.deep_view();
        arguments.push(argv[i].clone());
        assert(arguments.deep_view() =~= before.push(argv@[i as int]@));
        assert(argv.deep_view().take(i + 1) =~= argv.deep_view().take(i as int).push(
            argv@[i as int]@,
        ));
        i = i + 1;
    }
    let mut environment: Vec<(String, String)> = Vec::new();
    environment.push((SEARCH_PATH_VARIABLE.to_owned(), search_path.to_owned()));
    SandboxCommand {
        program: LAUNCHER.to_owned(),
        arguments,
        environment,
        working_dir: working_dir.to_owned(),
    }
}

/// Whether `text` continues with `fragment` at position `at`.
fn continues_with(text: &[u8], at: usize, fragment: &[u8]) -> (found: bool)
    requires
        at <= text@.len(),
    ensures
        found == begins_with(text@.skip(at as int), fragment@),
{
    let m = fragment.len();
    if text.len() - at < m {
        return false;
    }
    let mut i: usize = 0;
    while i < m
        invariant
            m == fragment@.len(),
            at + m <= text@.len(),
            text@.len() <= usize::MAX,
            i <= m,
            forall|k: int| 0 <= k < i ==> text@[at + k] == fragment@[k],
        decreases m - i,
    {
        if text[at + i] != fragment[i] {
            return false;
        }
        i = i + 1;
    }
    assert(text@.skip(at as int).take(m as int) =~= fragment@);
    true
}

/// Removes the occurrences of `fragment` from `text`, in one pass from left
/// to right.
pub fn strip(text: &[u8], fragment: &[u8]) -> (out: Vec<u8>)
    ensures
        out@ == stripped(text@, fragment@),
{
    let n = text.len();
    let m = fragment.len();
    let mut out: Vec<u8> = Vec::new();
    let mut i: usize = 0;
    assert(text@.skip(0) == text@);
    while i < n
        invariant
            n == text@.len(),
            m == fragment@.len(),
            i <= n,
            out@ + stripped(text@.skip(i as int), fragment@) == stripped(text@, fragment@),
        decreases n - i,
    {
        let ghost rest = text@.skip(i as int);
        if m > 0 && continues_with(text, i, fragment) {
            assert(rest.skip(m as int) =~= text@.skip(i + m));
            i = i + m;
        } else {
            let ghost before = out@;
            out.push(text[i]);
            assert(rest.skip(1) =~= text@.skip(i + 1));
            assert(out@ + stripped(text@.skip(i + 1), fragment@) =~= before + (seq![rest[0]]
                + stripped(rest.skip(1), fragment@)));
            i = i + 1;
        }
    }
    out
}

/// Removes `fragment` from `text` until no occurrence is left.
pub fn scrub(text: &[u8], fragment: &[u8]) -> (out: Vec<u8>)
    ensures
        out@ == scrubbed(text@, fragment@),
        fragment@.len() > 0 ==> !occurs_in(out@, fragment@),
{
    let mut current = strip(text, fragment);
    proof {
        lemma_stripping_shortens(text@, fragment@);
        lemma_stripped_is_scrubbed_alike(text@, fragment@);
    }
    loop
        invariant
            scrubbed(current@, fragment@) == scrubbed(text@, fragment@),
        ensures
            current@ == scrubbed(text@, fragment@),
        decreases current@.len(),
    {
        let next = strip(current.as_slice(), fragment);
        if next.len() < current.len() {
            current = next;
        } else {
            break;
        }
    }
    proof {
        if fragment@.len() > 0 {
            lemma_scrubbed_text_is_clean(text@, fragment@);
        }
    }
    current
}

/// Turns what a finished process left behind into the result that is handed
/// on: a missing exit status counts as failure, and the path of
/// `working_dir` is taken out of both streams until none of it is left, so
/// that clients are not shown where the server keeps its files.
pub fn capture(working_dir: &str, status: Option<i32>, stdout: &[u8], stderr: &[u8]) -> (result:
    ExecutionResult)
    ensures
        result.exit_code == reported_code(status),
        result.stdout@ == scrubbed(stdout@, working_dir.spec_bytes()),
        result.stderr@ == scrubbed(stderr@, working_dir.spec_bytes()),
        working_dir.spec_bytes().len() > 0 ==> !occurs_in(result.stdout@, working_dir.spec_bytes())
            && !occurs_in(result.stderr@, working_dir.spec_bytes()),
{
    let fragment = working_dir.as_bytes();
    let exit_code = match status {
        Some(code) => code,
        None => EXIT_CODE_WHEN_KILLED,
    };
    ExecutionResult { exit_code, stdout: scrub(stdout, fragment), stderr: scrub(stderr, fragment) }
}

} // verus!
