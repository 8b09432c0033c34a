use build_executor::sandbox::{
    capture, plan, scrub, strip, BUILD_IDENTITY, EXIT_CODE_WHEN_KILLED, OUTPUT_OWNER,
};

#[test]
fn the_command_runs_under_the_named_identity_with_only_the_search_path() {
    let argv = vec!["node".to_string(), "tool.js".to_string(), "--".to_string(), "src/a.js".to_string()];
    let command = plan("/tmp/build-env.1", "bob", &argv, "/usr/bin:/bin");
    assert_eq!(command.program, "sudo");
    assert_eq!(
        command.arguments,
        vec!["--preserve-env", "-u", "bob", "node", "tool.js", "--", "src/a.js"]
    );
    assert_eq!(command.environment, vec![("PATH".to_string(), "/usr/bin:/bin".to_string())]);
    assert_eq!(command.working_dir, "/tmp/build-env.1");
}

#[test]
fn an_empty_command_still_switches_identity() {
    let command = plan("/w", "builder", &vec![], "");
    assert_eq!(command.arguments, vec!["--preserve-env", "-u", "builder"]);
    assert_eq!(command.environment, vec![("PATH".to_string(), String::new())]);
}

#[test]
fn the_working_directory_is_taken_out_of_the_output() {
    let out = strip(b"error in /tmp/build-env.1/src/a.js and /tmp/build-env.1/src/b.js", b"/tmp/build-env.1");
    assert_eq!(String::from_utf8(out).unwrap(), "error in /src/a.js and /src/b.js");
}

#[test]
fn stripping_goes_from_left_to_right_without_overlap() {
    assert_eq!(strip(b"aaa", b"aa"), b"a");
    assert_eq!(strip(b"aabb", b"ab"), b"ab");
    assert_eq!(strip(b"abab", b"ab"), b"");
    assert_eq!(strip(b"xabyabz", b"ab"), b"xyz");
    assert_eq!(strip(b"ab", b"abc"), b"ab");
    assert_eq!(strip(b"", b"ab"), b"");
}

#[test]
fn an_empty_fragment_strips_nothing() {
    assert_eq!(strip(b"text", b""), b"text");
    assert_eq!(scrub(b"text", b""), b"text");
}

#[test]
fn scrubbing_leaves_no_occurrence_behind() {
    assert_eq!(strip(b"//aa", b"/a"), b"/a");
    assert_eq!(scrub(b"//aa", b"/a"), b"");
    assert_eq!(scrub(b"aabb", b"ab"), b"");
    assert_eq!(scrub(b"xaaabbby", b"ab"), b"xy");
    assert_eq!(scrub(b"aaa", b"aa"), b"a");
    assert_eq!(scrub(b"see /tmp/w/src/a.js", b"/tmp/w"), b"see /src/a.js");
    let joined = capture("/tmp/w", Some(0), b"/tmp/tmp/w/w/x", b"/tm/tmp/wp/w");
    assert_eq!(joined.stdout, b"/x");
    assert_eq!(joined.stderr, b"");
}

#[test]
fn the_toolchain_runs_under_its_own_identity() {
    assert_eq!(BUILD_IDENTITY, "bob");
    assert_eq!(OUTPUT_OWNER, "bob:builder");
    let command = plan("/w", BUILD_IDENTITY, &vec!["node".to_string()], "/bin");
    assert_eq!(command.arguments, vec!["--preserve-env", "-u", "bob", "node"]);
}

#[test]
fn a_process_without_exit_status_counts_as_failed() {
    let result = capture("/w", None, b"out", b"err");
    assert_eq!(result.exit_code, 1);
    assert_eq!(EXIT_CODE_WHEN_KILLED, 1);
    assert_eq!(result.stdout, b"out");
    assert_eq!(result.stderr, b"err");
}

#[test]
fn the_result_keeps_the_exit_code_and_scrubs_both_streams() {
    let result = capture("/tmp/w", Some(2), b"/tmp/w/a\n", b"at /tmp/w/b:1 (/tmp/w)");
    assert_eq!(result.exit_code, 2);
    assert_eq!(result.stdout, b"/a\n");
    assert_eq!(result.stderr, b"at /b:1 ()");
    let ok = capture("/tmp/w", Some(0), b"", b"");
    assert_eq!(ok.exit_code, 0);
    let negative = capture("/tmp/w", Some(-9), b"", b"");
    assert_eq!(negative.exit_code, -9);
}
