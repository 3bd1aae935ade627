use tmux_terminal::process::{Invocation, ProcessOutcome};
use tmux_terminal::send::{reply_to, send_to_tmux, ApiResponse, SendAction, SendCommand, SendState};
use tmux_terminal::status::Status;

fn request(command: &str, session: &str) -> SendCommand {
    SendCommand { command: command.to_string(), session: session.to_string() }
}

fn exited(success: bool, stderr: &[u8]) -> ProcessOutcome {
    ProcessOutcome::Exited { success, stdout: Vec::new(), stderr: stderr.to_vec() }
}

fn spawn_failed(reason: &str) -> ProcessOutcome {
    ProcessOutcome::SpawnFailed { reason: reason.to_string() }
}

/// Runs a whole exchange against a runner that answers from the given
/// outcomes, and gives back what was run and what was answered.
fn exchange(
    payload: SendCommand,
    outcomes: Vec<ProcessOutcome>,
) -> (Vec<Invocation>, Status, ApiResponse) {
    let mut ran = Vec::new();
    let mut outcomes = outcomes.into_iter();
    let mut action = send_to_tmux(payload);
    loop {
        match action {
            SendAction::Run { invocation, next } => {
                ran.push(invocation);
                let outcome = outcomes.next().expect("one outcome for each run");
                action = next.advance(&outcome);
            }
            SendAction::Reply { status, body } => {
                assert!(outcomes.next().is_none());
                return (ran, status, body);
            }
        }
    }
}

#[test]
fn send_with_empty_session_targets_zero() {
    let (ran, status, body) =
        exchange(request("echo hi", ""), vec![exited(true, b""), exited(true, b"")]);
    assert_eq!(ran.len(), 2);
    assert_eq!(ran[0].program, "tmux");
    assert_eq!(ran[0].args, vec!["send-keys", "-t", "0", "-l", "echo hi"]);
    assert_eq!(ran[1].program, "tmux");
    assert_eq!(ran[1].args, vec!["send-keys", "-t", "0", "Enter"]);
    assert_eq!(status, Status::Success);
    assert_eq!(body, ApiResponse { success: true, error: None });
}

#[test]
fn send_with_named_session_targets_it() {
    let (ran, status, body) =
        exchange(request("echo hi", "mysession"), vec![exited(true, b""), exited(true, b"")]);
    assert_eq!(ran.len(), 2);
    assert_eq!(ran[0].args, vec!["send-keys", "-t", "mysession", "-l", "echo hi"]);
    assert_eq!(ran[1].args, vec!["send-keys", "-t", "mysession", "Enter"]);
    assert_eq!(status.code(), 200);
    assert_eq!(body, ApiResponse { success: true, error: None });
}

#[test]
fn send_first_step_awaits_the_typing() {
    match send_to_tmux(request("ls -la", "")) {
        SendAction::Run { invocation, next } => {
            assert_eq!(invocation.args, vec!["send-keys", "-t", "0", "-l", "ls -la"]);
            assert_eq!(next, SendState::TypingText { session: "0".to_string() });
        }
        SendAction::Reply { .. } => panic!("nothing has run yet"),
    }
}

#[test]
fn send_passes_the_command_text_through_unchanged() {
    let text = "Enter C-c 'quoted' \"double\" $HOME; ls | wc -l \t\u{1b}[A é";
    match send_to_tmux(request(text, "s")) {
        SendAction::Run { invocation, .. } => {
            assert_eq!(invocation.args, vec!["send-keys", "-t", "s", "-l", text]);
        }
        SendAction::Reply { .. } => panic!("nothing has run yet"),
    }
    match send_to_tmux(request("", "s")) {
        SendAction::Run { invocation, .. } => {
            assert_eq!(invocation.args, vec!["send-keys", "-t", "s", "-l", ""]);
        }
        SendAction::Reply { .. } => panic!("nothing has run yet"),
    }
}

#[test]
fn send_presses_enter_whatever_became_of_the_text() {
    for first in [exited(true, b""), exited(false, b"boom"), spawn_failed("gone")] {
        let (ran, status, body) = exchange(request("echo hi", "a"), vec![first, exited(true, b"")]);
        assert_eq!(ran.len(), 2);
        assert_eq!(ran[1].args, vec!["send-keys", "-t", "a", "Enter"]);
        assert_eq!(status.code(), 200);
        assert_eq!(body, ApiResponse { success: true, error: None });
    }
}

#[test]
fn send_reports_a_missing_tool_as_500() {
    let (ran, status, body) = exchange(
        request("echo hi", ""),
        vec![
            spawn_failed("No such file or directory (os error 2)"),
            spawn_failed("No such file or directory (os error 2)"),
        ],
    );
    assert_eq!(ran.len(), 2);
    assert_eq!(status, Status::InternalServerError);
    assert_eq!(status.code(), 500);
    assert!(!body.success);
    let error = body.error.expect("an error message");
    assert!(!error.is_empty());
    assert!(error.contains("Failed"));
    assert_eq!(error, "Failed to execute tmux: No such file or directory (os error 2)");
}

#[test]
fn send_reports_a_nonzero_exit_as_400_with_the_error_output() {
    let (ran, status, body) = exchange(
        request("echo hi", "nosuch"),
        vec![exited(true, b""), exited(false, b"can't find session: nosuch\n")],
    );
    assert_eq!(ran.len(), 2);
    assert_eq!(status, Status::BadRequest);
    assert_eq!(status.code(), 400);
    assert_eq!(
        body,
        ApiResponse { success: false, error: Some("can't find session: nosuch\n".to_string()) }
    );
}

#[test]
fn reply_for_success_carries_no_error() {
    let (status, body) = reply_to(&ProcessOutcome::Exited {
        success: true,
        stdout: b"out".to_vec(),
        stderr: b"warning".to_vec(),
    });
    assert_eq!(status.code(), 200);
    assert_eq!(body, ApiResponse { success: true, error: None });
}

#[test]
fn reply_for_nonzero_exit_with_empty_error_output() {
    let (status, body) = reply_to(&exited(false, b""));
    assert_eq!(status.code(), 400);
    assert_eq!(body, ApiResponse { success: false, error: Some(String::new()) });
}

#[test]
fn reply_for_nonzero_exit_replaces_invalid_utf8() {
    let (status, body) = reply_to(&exited(false, b"bad \xf0\x28 bytes"));
    assert_eq!(status.code(), 400);
    assert_eq!(body.error, Some("bad \u{fffd}( bytes".to_string()));
}

#[test]
fn reply_for_spawn_failure_with_empty_reason() {
    let (status, body) = reply_to(&spawn_failed(""));
    assert_eq!(status.code(), 500);
    assert_eq!(body, ApiResponse { success: false, error: Some("Failed to execute tmux: ".to_string()) });
}

#[test]
fn advance_from_typing_resolves_an_empty_session() {
    let state = SendState::TypingText { session: String::new() };
    match state.advance(&exited(true, b"")) {
        SendAction::Run { invocation, next } => {
            assert_eq!(invocation.args, vec!["send-keys", "-t", "0", "Enter"]);
            assert_eq!(next, SendState::PressingEnter);
        }
        SendAction::Reply { .. } => panic!("Enter has not been pressed"),
    }
}

#[test]
fn api_response_constructors() {
    assert_eq!(ApiResponse::succeeded(), ApiResponse { success: true, error: None });
    assert_eq!(
        ApiResponse::failed("why".to_string()),
        ApiResponse { success: false, error: Some("why".to_string()) }
    );
}
