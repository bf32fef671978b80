use which::resolver::{resolve, resolve_in, Resolution};
use which::search_path::{join_candidate, split_search_path};
use which::shell::{report, run, run_in, Command, Dispatch, OutputLine};

fn strings(v: &[&str]) -> Vec<String> {
    v.iter().map(|s| s.to_string()).collect()
}

#[test]
fn split_two_directories() {
    assert_eq!(split_search_path("/a:/b"), strings(&["/a", "/b"]));
}

#[test]
fn split_empty_string_is_one_empty_piece() {
    assert_eq!(split_search_path(""), strings(&[""]));
}

#[test]
fn split_keeps_empty_pieces() {
    assert_eq!(split_search_path("a::b"), strings(&["a", "", "b"]));
    assert_eq!(split_search_path("a:"), strings(&["a", ""]));
    assert_eq!(split_search_path(":a"), strings(&["", "a"]));
}

#[test]
fn join_inserts_slash() {
    assert_eq!(join_candidate("/usr/bin", "ls"), "/usr/bin/ls".to_string());
}

#[test]
fn join_empty_directory_is_bare_name() {
    assert_eq!(join_candidate("", "ls"), "ls".to_string());
}

#[test]
fn join_keeps_trailing_slash() {
    assert_eq!(join_candidate("/usr/bin/", "ls"), "/usr/bin/ls".to_string());
}

#[test]
fn first_matching_directory_wins() {
    let dirs = strings(&["/usr/bin", "/bin"]);
    let existing = strings(&["/usr/bin/ls", "/bin/ls"]);
    let r = resolve_in(&dirs, "ls", &existing);
    assert_eq!(r, Resolution::Found("/usr/bin/ls".to_string()));
}

#[test]
fn later_directory_found_when_earlier_misses() {
    let dirs = strings(&["/usr/bin", "/bin"]);
    let existing = strings(&["/bin/sh"]);
    let r = resolve_in(&dirs, "sh", &existing);
    assert_eq!(r, Resolution::Found("/bin/sh".to_string()));
}

#[test]
fn absent_name_is_not_found() {
    let dirs = strings(&["/usr/bin", "/bin"]);
    let existing = strings(&["/usr/bin/ls", "/bin/ls"]);
    assert_eq!(resolve_in(&dirs, "nosuch", &existing), Resolution::NotFound);
}

#[test]
fn empty_search_path_is_always_not_found() {
    let dirs: Vec<String> = Vec::new();
    let existing = strings(&["/usr/bin/ls"]);
    assert_eq!(resolve_in(&dirs, "ls", &existing), Resolution::NotFound);
    assert_eq!(resolve(&dirs, "ls"), Resolution::NotFound);
}

#[test]
fn repeated_queries_agree() {
    let dirs = strings(&["/a", "/b"]);
    let existing = strings(&["/b/tool"]);
    let first = resolve_in(&dirs, "tool", &existing);
    let second = resolve_in(&dirs, "tool", &existing);
    assert_eq!(first, second);
    assert_eq!(first, Resolution::Found("/b/tool".to_string()));
}

#[test]
fn resolve_probes_the_real_filesystem() {
    // The root directory exists on every machine this runs on; a directory
    // of an unlikely name does not.
    let dirs = strings(&[""]);
    assert_eq!(resolve(&dirs, "/"), Resolution::Found("/".to_string()));
    assert_eq!(
        resolve(&dirs, "no_such_program_on_any_machine_0193"),
        Resolution::NotFound
    );
}

#[test]
fn no_argument_is_a_usage_error() {
    let c = Command::new(strings(&["which"]));
    assert_eq!(c.execute(), Dispatch::Usage);
}

#[test]
fn help_flags_short_circuit_resolution() {
    for flag in ["-h", "--help", "help"] {
        let c = Command::new(strings(&["which", flag]));
        assert_eq!(c.execute(), Dispatch::Help);
    }
}

#[test]
fn help_flag_not_first_is_a_query() {
    let c = Command::new(strings(&["which", "ls", "-h"]));
    assert_eq!(c.execute(), Dispatch::Run(strings(&["ls", "-h"])));
}

#[test]
fn queries_keep_argument_order() {
    let c = Command::new(strings(&["which", "foo", "bar", "baz"]));
    assert_eq!(c.execute(), Dispatch::Run(strings(&["foo", "bar", "baz"])));
}

#[test]
fn manual_page_is_reproduced_verbatim() {
    let c = Command::new(strings(&["which", "-h"]));
    let expected = "\nNAME\n    which - locate a command\nSYNOPSIS\n    which [ -h | --help | help ]\nDESCRIPTION\n    prints the full path of commands\nOPTIONS\n    -h Print this manual page.\n";
    assert_eq!(c.help(), expected.to_string());
}

#[test]
fn found_report_goes_to_stdout_with_newline() {
    let r = Resolution::Found("/bin/ls".to_string());
    assert_eq!(
        report(&r, "ls"),
        OutputLine::Stdout("/bin/ls\n".to_string())
    );
}

#[test]
fn miss_report_goes_to_stderr() {
    assert_eq!(
        report(&Resolution::NotFound, "ls"),
        OutputLine::Stderr("ls not found\n".to_string())
    );
}

#[test]
fn three_names_report_in_input_order() {
    // Search path `/a:/b`, where `/a/foo` and `/b/bar` exist and nothing
    // else does: `foo` and `bar` resolve, `baz` is a miss.
    let dirs = split_search_path("/a:/b");
    let existing = strings(&["/a/foo", "/b/bar"]);
    let names = strings(&["foo", "bar", "baz"]);
    let lines = run_in(&names, &dirs, &existing);
    assert_eq!(
        lines,
        vec![
            OutputLine::Stdout("/a/foo\n".to_string()),
            OutputLine::Stdout("/b/bar\n".to_string()),
            OutputLine::Stderr("baz not found\n".to_string()),
        ]
    );
}

#[test]
fn run_with_empty_search_path_reports_every_miss() {
    let dirs: Vec<String> = Vec::new();
    let names = strings(&["foo", "bar"]);
    let lines = run(&names, &dirs);
    assert_eq!(
        lines,
        vec![
            OutputLine::Stderr("foo not found\n".to_string()),
            OutputLine::Stderr("bar not found\n".to_string()),
        ]
    );
}
