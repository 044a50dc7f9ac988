use prompt_status::command::Query;
use prompt_status::query::{is_silent, is_white_space_char, parse_output, remove_white_space, succeeded, QueryOutcome};

fn ran(success: bool, out: &str) -> QueryOutcome {
    QueryOutcome::Exited { success, stdout: out.as_bytes().to_vec() }
}

#[test]
fn trailing_newline_is_removed() {
    assert_eq!(parse_output(&ran(true, "main\n")), Some("main".to_string()));
}

#[test]
fn inner_white_space_is_removed() {
    assert_eq!(parse_output(&ran(true, "a b")), Some("ab".to_string()));
    assert_eq!(parse_output(&ran(true, " \tx\r\ny z \n")), Some("xyz".to_string()));
}

#[test]
fn unicode_white_space_is_removed() {
    assert_eq!(parse_output(&ran(true, "a\u{3000}b\u{a0}c\u{2028}")), Some("abc".to_string()));
    assert_eq!(remove_white_space("é x\u{85}ü"), "éxü".to_string());
}

#[test]
fn non_zero_exit_is_absent_whatever_the_output() {
    assert_eq!(parse_output(&ran(false, "main\n")), None);
    assert_eq!(parse_output(&ran(false, "")), None);
}

#[test]
fn process_that_did_not_run_is_absent() {
    assert_eq!(parse_output(&QueryOutcome::NotRun), None);
}

#[test]
fn only_white_space_is_absent() {
    assert_eq!(parse_output(&ran(true, "")), None);
    assert_eq!(parse_output(&ran(true, " \n\t ")), None);
}

#[test]
fn invalid_utf8_is_absent() {
    let o = QueryOutcome::Exited { success: true, stdout: vec![0x66, 0xff, 0x6f] };
    assert_eq!(parse_output(&o), None);
}

#[test]
fn multi_byte_text_is_decoded() {
    let o = QueryOutcome::Exited { success: true, stdout: vec![0xc3, 0xa9, 0x0a] };
    assert_eq!(parse_output(&o), Some("é".to_string()));
}

#[test]
fn white_space_matches_std() {
    for v in 0u32..0x3100 {
        if let Some(c) = char::from_u32(v) {
            assert_eq!(is_white_space_char(c), c.is_whitespace(), "{:x}", v);
        }
    }
    assert!(!is_white_space_char('\u{feff}'));
    assert!(!is_white_space_char('\u{200b}'));
}

#[test]
fn silence_and_success() {
    assert!(is_silent(&ran(false, "")));
    assert!(!is_silent(&ran(true, "x")));
    assert!(!is_silent(&QueryOutcome::NotRun));
    assert!(succeeded(&ran(true, "x")));
    assert!(!succeeded(&ran(false, "")));
    assert!(!succeeded(&QueryOutcome::NotRun));
}

#[test]
fn commands_are_fixed() {
    assert_eq!(Query::InsideWorkTree.program(), "git");
    assert_eq!(Query::InsideWorkTree.arguments(), vec!["rev-parse", "--is-inside-work-tree"]);
    assert_eq!(Query::UntrackedFiles.arguments(), vec!["ls-files", "--other", "--directory", "--exclude-standard"]);
    assert_eq!(Query::UpstreamLog.arguments(), vec!["log", "@{u}.."]);
    assert_eq!(Query::UpstreamHash.arguments(), vec!["rev-parse", "@{u}"]);
    assert_eq!(Query::ClusterContext.program(), "kubectl");
    assert_eq!(Query::ClusterNamespace.arguments(), vec!["config", "view", "--minify", "--output", "jsonpath={..namespace}"]);
}

#[test]
fn only_the_work_tree_diff_has_a_deadline() {
    assert_eq!(Query::WorktreeDiff.deadline_millis(), Some(500));
    assert_eq!(Query::IndexDiff.deadline_millis(), None);
    assert_eq!(Query::UpstreamLog.deadline_millis(), None);
    assert_eq!(Query::ClusterContext.deadline_millis(), None);
}
