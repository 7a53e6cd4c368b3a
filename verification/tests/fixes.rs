use fleetsim::layout::{calculate_args_height, calculate_args_height_correct};
use fleetsim::logs::is_log_file;
use fleetsim::patterns::matches_pattern;
use fleetsim::quality::QualityChecker;
use fleetsim::downloads::{classify_download, merge_output, DownloadError};
use fleetsim::security::SecurityChecker;
use fleetsim::sessions::{SessionData, SessionStorage};
use fleetsim::templates::{generate_claim_template, generate_submission_template};

#[test]
fn test_height_calculation() {
    // Empty args should return 2 (capped)
    assert_eq!(calculate_args_height(&[]), 2);

    // 1 arg should return 3, capped to 2
    assert_eq!(calculate_args_height(&["arg1".to_string()]), 2);

    // 2 args should return 4, capped to 2
    assert_eq!(calculate_args_height(&["arg1".to_string(), "arg2".to_string()]), 2);
}

#[test]
fn test_correct_height() {
    // With corrected caller, we can return actual value
    assert_eq!(calculate_args_height_correct(&[]), 3);
    assert_eq!(calculate_args_height_correct(&["arg1".to_string()]), 4);
}

#[test]
fn test_valid() {
    assert!(is_log_file("app.log"));
}

#[test]
fn test_invalid() {
    assert!(!is_log_file("readme.txt"));
}

#[test]
fn test_single_asterisk() {
    assert!(matches_pattern("*", "anything"));
}

#[test]
fn test_empty_pattern() {
    assert!(matches_pattern("", ""));
}

#[test]
fn test_prefix_suffix() {
    assert!(matches_pattern("test*", "test123"));
}

#[test]
fn test_indexed_lookup() {
    let mut storage = SessionStorage::new();

    storage.add_session(SessionData {
        id: "s1".to_string(),
        snapshot_id: "snap1".to_string(),
        data: vec![1, 2, 3],
    });

    storage.add_session(SessionData {
        id: "s2".to_string(),
        snapshot_id: "snap1".to_string(),
        data: vec![4, 5, 6],
    });

    storage.add_session(SessionData {
        id: "s3".to_string(),
        snapshot_id: "snap2".to_string(),
        data: vec![7, 8, 9],
    });

    // Should find 2 sessions for snap1
    let snap1_sessions = storage.list_session_snapshots("snap1");
    assert_eq!(snap1_sessions.len(), 2);

    // Should find 1 session for snap2
    let snap2_sessions = storage.list_session_snapshots("snap2");
    assert_eq!(snap2_sessions.len(), 1);

    // Should find 0 sessions for non-existent
    let empty = storage.list_session_snapshots("nonexistent");
    assert!(empty.is_empty());
}

#[test]
fn test_indexed_lookup_order_and_contents() {
    let mut storage = SessionStorage::new();
    storage.add_session(SessionData {
        id: "a".to_string(),
        snapshot_id: "snap".to_string(),
        data: vec![1],
    });
    storage.add_session(SessionData {
        id: "b".to_string(),
        snapshot_id: "other".to_string(),
        data: vec![2],
    });
    storage.add_session(SessionData {
        id: "c".to_string(),
        snapshot_id: "snap".to_string(),
        data: vec![3],
    });
    let listed = storage.list_session_snapshots("snap");
    assert_eq!(listed.len(), 2);
    assert_eq!(listed[0].id, "a");
    assert_eq!(listed[0].data, vec![1]);
    assert_eq!(listed[1].id, "c");
    assert_eq!(listed[1].data, vec![3]);
}

#[test]
fn test_pattern_corner_cases() {
    assert!(matches_pattern("abc", "abc"));
    assert!(!matches_pattern("abc", "abd"));
    assert!(!matches_pattern("", "x"));
    assert!(matches_pattern("a*c", "abbbc"));
    assert!(!matches_pattern("a*c", "bbbc"));
    assert!(matches_pattern("a*c", "axcyc"));
    assert!(matches_pattern("*xyz", "abcxyz"));
    assert!(matches_pattern("a*c", "abcde"));
}

#[test]
fn test_log_file_variants() {
    assert!(is_log_file("error_log"));
    assert!(is_log_file("server-log.txt"));
    assert!(is_log_file("/var/log/syslog"));
    assert!(!is_log_file("notes.md"));
}

#[test]
fn test_command_allowed_ok() {
    let checker = SecurityChecker::new();
    let (allowed, msg) = checker.is_command_allowed("ls -la", "/home/user");
    assert!(allowed);
    assert_eq!(msg, "OK");
}

#[test]
fn test_command_denied_program() {
    let checker = SecurityChecker::new();
    let (allowed, msg) = checker.is_command_allowed("rm -rf target", "/home/user");
    assert!(!allowed);
    assert_eq!(msg, "Denied program: rm");
}

#[test]
fn test_command_too_long() {
    let checker = SecurityChecker::new();
    let long = "x".repeat(1001);
    let (allowed, msg) = checker.is_command_allowed(&long, "/home/user");
    assert!(!allowed);
    assert_eq!(msg, "Command too long");
}

#[test]
fn test_command_bad_directory() {
    let checker = SecurityChecker::new();
    let (allowed, msg) = checker.is_command_allowed("ls", "/etc");
    assert!(!allowed);
    assert_eq!(msg, "Working directory not allowed");
}

#[test]
fn test_validate_tests_thresholds() {
    assert_eq!(QualityChecker::validate_tests(2, 10), "Test coverage: 20.0% - Good");
    assert_eq!(QualityChecker::validate_tests(1, 10), "Test coverage: 10.0% - Acceptable");
    assert_eq!(
        QualityChecker::validate_tests(0, 10),
        "Test coverage: 0.0% - Needs improvement"
    );
    assert_eq!(
        QualityChecker::validate_tests(5, 0),
        "Test coverage: 0.0% - Needs improvement"
    );
}

#[test]
fn test_validate_docs_rounding() {
    assert_eq!(QualityChecker::validate_docs(1, 3), "Documentation coverage: 33.3%");
    assert_eq!(QualityChecker::validate_docs(2, 3), "Documentation coverage: 66.7%");
    assert_eq!(QualityChecker::validate_docs(3, 3), "Documentation coverage: 100.0%");
}

#[test]
fn test_claim_template_contents() {
    let t = generate_claim_template(42, "WALLET123");
    assert!(t.starts_with("## Bounty Claim\n\n**Issue**: #42\n**Wallet**: WALLET123\n"));
    assert!(t.ends_with("_\"I claim this bounty on my honor as a RustChain contributor.\"_\n"));
}

#[test]
fn test_submission_template_contents() {
    let t = generate_submission_template(7, "W", "Did the work");
    assert!(t.starts_with("## Bounty Submission\n\n**PR**: #7\n**Wallet**: W\n"));
    assert!(t.contains("### Summary\nDid the work\n"));
    assert!(t.contains("https://github.com/Scottcjn/rustchain-bounties/pull/7]"));
}

#[test]
fn test_validate_code_flags() {
    let (markers, clean) = QualityChecker::validate_code("let x = foo();");
    assert!(!markers);
    assert!(clean);
    let (markers, clean) = QualityChecker::validate_code("// TODO mend this\nfoo().unwrap()");
    assert!(markers);
    assert!(!clean);
}

#[test]
fn test_classify_download() {
    assert!(classify_download(true, Some(0), String::new(), String::new()).is_ok());
    match classify_download(false, Some(2), "bad".to_string(), "out".to_string()) {
        Err(DownloadError::DownloadFailed { exit_code, stderr, stdout }) => {
            assert_eq!(exit_code, Some(2));
            assert_eq!(stderr, "bad");
            assert_eq!(stdout, "out");
        }
        _ => panic!("expected a download failure"),
    }
}

#[test]
fn test_merge_output() {
    assert_eq!(merge_output("a".to_string(), ""), "a");
    assert_eq!(merge_output(String::new(), "e"), "e");
    assert_eq!(merge_output("a".to_string(), "e"), "a\ne");
}
