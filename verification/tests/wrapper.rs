//! Tests of the wrapper library: exit-code propagation, invocation
//! parsing, diagnostics, stream relaying and decoration, and the
//! supervision barrier.

use launchred::command::parse_invocation;
use launchred::decor::{decorate_chunk, decoration_for_term, strip_chunk, DecorationMode};
use launchred::errors::{error_message, final_exit_code, LaunchError};
use launchred::relay::{relay_stderr_chunks, relay_stdout_chunks};
use launchred::supervise::{
    exit_code_for_status, exit_code_for_wait, ChildStatus, Supervision, WaitOutcome,
};
use launchred::wiring::{apply_blocking_mask, choose_wiring, WiringMode};

const RED_PREFIX: &[u8] = b"\x1b[31m";
const RED_SUFFIX: &[u8] = b"\x1b[0m";

#[test]
fn exit_code_propagates() {
    for n in [0, 1, 7, 42, 127, 255] {
        assert_eq!(exit_code_for_status(&ChildStatus::Exited(n)), n);
        assert_eq!(
            exit_code_for_wait(&WaitOutcome::Ready(ChildStatus::Exited(n))),
            n
        );
    }
}

#[test]
fn signal_termination_falls_back_to_one() {
    assert_eq!(exit_code_for_status(&ChildStatus::Signaled), 1);
    assert_eq!(
        exit_code_for_wait(&WaitOutcome::Ready(ChildStatus::Signaled)),
        1
    );
}

#[test]
fn wait_failure_falls_back_to_one() {
    assert_eq!(exit_code_for_wait(&WaitOutcome::Failed), 1);
}

#[test]
fn usage_on_no_arguments() {
    let r = parse_invocation(vec![]);
    assert_eq!(r, Err(LaunchError::Usage));
    assert_eq!(final_exit_code(&Err(LaunchError::Usage)), 1);
    assert_eq!(
        error_message(&LaunchError::Usage, "", "").as_str(),
        "usage: launchred [-h|--help] COMMAND [ARGS...]"
    );
}

#[test]
fn usage_on_leading_help_flag() {
    assert_eq!(
        parse_invocation(vec!["-h".to_string()]),
        Err(LaunchError::Usage)
    );
    assert_eq!(
        parse_invocation(vec!["--help".to_string()]),
        Err(LaunchError::Usage)
    );
    assert_eq!(
        parse_invocation(vec!["--help".to_string(), "ls".to_string()]),
        Err(LaunchError::Usage)
    );
}

#[test]
fn help_flag_after_program_is_an_argument() {
    let cmd = parse_invocation(vec!["cargo".to_string(), "--help".to_string()]).unwrap();
    assert_eq!(cmd.program, "cargo");
    assert_eq!(cmd.args, vec!["--help".to_string()]);
}

#[test]
fn parse_splits_program_and_arguments() {
    let cmd = parse_invocation(vec![
        "echo".to_string(),
        "a".to_string(),
        "b c".to_string(),
    ])
    .unwrap();
    assert_eq!(cmd.program, "echo");
    assert_eq!(cmd.args, vec!["a".to_string(), "b c".to_string()]);
}

#[test]
fn not_found_diagnostic_names_the_program() {
    let msg = error_message(&LaunchError::SpawnNotFound, "nosuchprog", "");
    assert_eq!(msg.as_str(), "launchred: nosuchprog: command not found");
    assert!(msg.contains("nosuchprog"));
    assert!(msg.contains("command not found"));
    assert_eq!(final_exit_code(&Err(LaunchError::SpawnNotFound)), 1);
}

#[test]
fn other_failure_diagnostics() {
    assert_eq!(
        error_message(&LaunchError::SpawnOther, "", "Os { code: 13 }").as_str(),
        "launchred: unknown error Os { code: 13 }"
    );
    assert_eq!(
        error_message(&LaunchError::Wait, "", "").as_str(),
        "launchred: error while waiting for child process"
    );
    assert_eq!(
        error_message(&LaunchError::PtyAlloc, "", "").as_str(),
        "launchred: could not allocate a pseudo-terminal"
    );
    assert_eq!(final_exit_code(&Err(LaunchError::PtyAlloc)), 1);
    assert_eq!(final_exit_code(&Err(LaunchError::Wait)), 1);
}

#[test]
fn child_exit_code_survives_launch_success() {
    assert_eq!(final_exit_code(&Ok(0)), 0);
    assert_eq!(final_exit_code(&Ok(7)), 7);
    assert_eq!(final_exit_code(&Ok(255)), 255);
}

#[test]
fn stdout_relay_is_verbatim_for_every_chunking() {
    let whole: Vec<Vec<u8>> = vec![b"hello world".to_vec()];
    let thirds: Vec<Vec<u8>> = vec![b"hel".to_vec(), b"lo w".to_vec(), b"orld".to_vec()];
    let singles: Vec<Vec<u8>> = b"hello world".iter().map(|b| vec![*b]).collect();

    assert_eq!(relay_stdout_chunks(&whole), b"hello world".to_vec());
    assert_eq!(relay_stdout_chunks(&thirds), b"hello world".to_vec());
    assert_eq!(relay_stdout_chunks(&singles), b"hello world".to_vec());
    assert_eq!(relay_stdout_chunks(&vec![]), Vec::<u8>::new());
}

#[test]
fn color_decoration_wraps_the_chunk() {
    let decorated = decorate_chunk(&b"boom".to_vec(), DecorationMode::Color);
    let mut expected = RED_PREFIX.to_vec();
    expected.extend_from_slice(b"boom");
    expected.extend_from_slice(RED_SUFFIX);
    assert_eq!(decorated, expected);
}

#[test]
fn color_decoration_strips_back_to_the_original() {
    let original = b"warning: \x1b strange bytes \xff".to_vec();
    let decorated = decorate_chunk(&original, DecorationMode::Color);
    assert_ne!(decorated, original);
    assert_eq!(strip_chunk(&decorated, DecorationMode::Color), original);
}

#[test]
fn plain_decoration_marks_the_line() {
    let decorated = decorate_chunk(&b"oops".to_vec(), DecorationMode::Plain);
    assert_eq!(decorated, b"[stderr] oops".to_vec());
    assert_eq!(
        strip_chunk(&decorated, DecorationMode::Plain),
        b"oops".to_vec()
    );
}

#[test]
fn empty_chunk_decoration_roundtrip() {
    let decorated = decorate_chunk(&Vec::new(), DecorationMode::Color);
    let mut expected = RED_PREFIX.to_vec();
    expected.extend_from_slice(RED_SUFFIX);
    assert_eq!(decorated, expected);
    assert_eq!(strip_chunk(&decorated, DecorationMode::Color), Vec::<u8>::new());

    let marked = decorate_chunk(&Vec::new(), DecorationMode::Plain);
    assert_eq!(marked, b"[stderr] ".to_vec());
    assert_eq!(strip_chunk(&marked, DecorationMode::Plain), Vec::<u8>::new());
}

#[test]
fn strip_leaves_undecorated_input_unchanged() {
    let plain = b"no markers here".to_vec();
    assert_eq!(strip_chunk(&plain, DecorationMode::Color), plain);
    assert_eq!(strip_chunk(&plain, DecorationMode::Plain), plain);
    let partial = b"\x1b[31monly a prefix".to_vec();
    assert_eq!(strip_chunk(&partial, DecorationMode::Color), partial);
}

#[test]
fn stderr_stream_roundtrip_over_chunks() {
    let chunks: Vec<Vec<u8>> = vec![b"first ".to_vec(), b"second\n".to_vec(), b"third".to_vec()];
    let relayed = relay_stderr_chunks(&chunks, DecorationMode::Color);

    let mut expected = Vec::new();
    let mut recovered = Vec::new();
    for c in &chunks {
        let d = decorate_chunk(c, DecorationMode::Color);
        expected.extend_from_slice(&d);
        recovered.extend_from_slice(&strip_chunk(&d, DecorationMode::Color));
    }
    assert_eq!(relayed, expected);
    assert_eq!(recovered, b"first second\nthird".to_vec());
}

#[test]
fn plain_stream_marks_every_line() {
    let lines: Vec<Vec<u8>> = vec![b"one".to_vec(), b"two".to_vec()];
    let relayed = relay_stderr_chunks(&lines, DecorationMode::Plain);
    assert_eq!(relayed, b"[stderr] one[stderr] two".to_vec());
}

#[test]
fn decoration_mode_from_terminal_variable() {
    assert_eq!(decoration_for_term(&None), DecorationMode::Color);
    assert_eq!(
        decoration_for_term(&Some("dumb".to_string())),
        DecorationMode::Plain
    );
    assert_eq!(
        decoration_for_term(&Some("xterm-256color".to_string())),
        DecorationMode::Color
    );
}

#[test]
fn wiring_follows_terminal_attachment() {
    assert_eq!(choose_wiring(true), WiringMode::Interactive);
    assert_eq!(choose_wiring(false), WiringMode::Piped);
}

#[test]
fn blocking_mask_sets_and_clears_the_bit() {
    assert_eq!(apply_blocking_mask(0b1010, 0b0010, true), 0b1000);
    assert_eq!(apply_blocking_mask(0b1000, 0b0010, false), 0b1010);
    assert_eq!(apply_blocking_mask(0b1010, 0b0010, false), 0b1010);
}

#[test]
fn supervision_barrier_orders_status_after_relays() {
    let mut ledger = Supervision::new();
    assert!(!ledger.may_take_status());
    ledger.note_stdout_drained();
    assert!(!ledger.may_take_status());
    ledger.note_stderr_drained();
    assert!(ledger.may_take_status());
    ledger.record_status_taken();
    assert!(ledger.status_taken && ledger.stdout_drained && ledger.stderr_drained);
}

#[test]
fn interleaved_output_fully_relayed_before_exit_seven() {
    // A child writes interleaved stdout/stderr output and exits with code
    // 7: both streams are fully relayed before the status is retrieved,
    // and the wrapper exits with 7.
    let out_chunks: Vec<Vec<u8>> = vec![b"out-a ".to_vec(), b"out-b".to_vec()];
    let err_chunks: Vec<Vec<u8>> = vec![b"err-a ".to_vec(), b"err-b".to_vec()];

    let mut ledger = Supervision::new();
    let relayed_out = relay_stdout_chunks(&out_chunks);
    ledger.note_stdout_drained();
    let relayed_err = relay_stderr_chunks(&err_chunks, DecorationMode::Color);
    ledger.note_stderr_drained();

    assert!(ledger.may_take_status());
    ledger.record_status_taken();

    assert_eq!(relayed_out, b"out-a out-b".to_vec());
    let mut recovered = Vec::new();
    let piece_len = RED_PREFIX.len() + b"err-a ".len() + RED_SUFFIX.len();
    let (first, second) = relayed_err.split_at(piece_len);
    recovered.extend_from_slice(&strip_chunk(&first.to_vec(), DecorationMode::Color));
    recovered.extend_from_slice(&strip_chunk(&second.to_vec(), DecorationMode::Color));
    assert_eq!(recovered, b"err-a err-b".to_vec());

    let status = WaitOutcome::Ready(ChildStatus::Exited(7));
    assert_eq!(exit_code_for_wait(&status), 7);
}
