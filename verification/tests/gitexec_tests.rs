use rustmergency::errors::MergerError;
use rustmergency::gitexec::{evaluate_git_outcome, join_args, GitOutcome};
use rustmergency::reconcile::rev_parse_args;

#[test]
fn success_yields_trimmed_stdout() {
    let args = rev_parse_args();
    let outcome = GitOutcome::Finished {
        success: true,
        stdout: b"/home/user/checkout\n".to_vec(),
        stderr: Vec::new(),
    };
    let out = evaluate_git_outcome(&args, outcome).unwrap();
    assert_eq!(out, "/home/user/checkout");
}

#[test]
fn nonzero_exit_carries_command_line_and_stderr() {
    let args = rev_parse_args();
    let outcome = GitOutcome::Finished {
        success: false,
        stdout: Vec::new(),
        stderr: b"fatal: not a git repository\n".to_vec(),
    };
    match evaluate_git_outcome(&args, outcome) {
        Err(MergerError::Git(cmd, err)) => {
            assert_eq!(cmd, "rev-parse --show-toplevel");
            assert!(!err.is_empty());
            assert_eq!(err, "fatal: not a git repository\n");
        }
        _ => panic!("a non-zero exit must be a git-command error"),
    }
}

#[test]
fn launch_failure_is_an_io_error() {
    let args = rev_parse_args();
    let outcome = GitOutcome::LaunchFailed("No such file or directory (os error 2)".to_string());
    match evaluate_git_outcome(&args, outcome) {
        Err(MergerError::Io(m)) => assert_eq!(m, "No such file or directory (os error 2)"),
        _ => panic!("a launch failure must be an I/O error"),
    }
}

#[test]
fn non_utf8_stdout_is_a_decoding_error() {
    let args = rev_parse_args();
    let outcome = GitOutcome::Finished {
        success: true,
        stdout: vec![0xff, 0xfe, 0x20],
        stderr: Vec::new(),
    };
    assert!(matches!(
        evaluate_git_outcome(&args, outcome),
        Err(MergerError::Utf(_))
    ));
}

#[test]
fn non_utf8_stderr_is_a_decoding_error() {
    let args = rev_parse_args();
    let outcome = GitOutcome::Finished {
        success: false,
        stdout: Vec::new(),
        stderr: vec![0xc0, 0x00],
    };
    assert!(matches!(
        evaluate_git_outcome(&args, outcome),
        Err(MergerError::Utf(_))
    ));
}

#[test]
fn join_reconstructs_the_command_line() {
    let args = vec!["remote".to_string(), "add".to_string(), "origin".to_string()];
    assert_eq!(join_args(&args), "remote add origin");
    let empty: Vec<String> = Vec::new();
    assert_eq!(join_args(&empty), "");
    let one = vec!["status".to_string()];
    assert_eq!(join_args(&one), "status");
}

#[test]
fn git_error_renders_with_command_and_trimmed_stderr() {
    let e = MergerError::Git(
        "rev-parse --show-toplevel".to_string(),
        "fatal: not a git repository\n\n".to_string(),
    );
    assert_eq!(
        e.to_message(),
        "problem encountered running git:\ncommand: git rev-parse --show-toplevel\nfatal: not a git repository"
    );
}
