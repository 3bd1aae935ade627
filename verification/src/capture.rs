//! Capturing the text of a pane.

use vstd::prelude::*;
use vstd::utf8::{decode_utf8, valid_utf8};
use crate::process::{decode_lossy, invoke, utf8_lossy, Invocation, OutcomeModel, ProcessOutcome};
use crate::status::Status;
use crate::target::{resolve_target, target_or_default};

verus! {

/// The body of a capture request.
#[derive(Debug, PartialEq, Eq)]
pub struct CaptureRequest {
    /// The pane to capture; empty for the default target.
    pub target: String,
}

/// The body of the answer to a capture request.
#[derive(Debug, PartialEq, Eq)]
pub struct CaptureResponse {
    /// The pane's text as the multiplexer printed it.
    pub content: String,
}

impl CaptureResponse {
    /// The answer that carries the given text.
    pub fn new(content: String) -> (response: CaptureResponse)
        ensures
            response.content@ == content@,
    {
        CaptureResponse { content }
    }
}

/// Arguments that make the multiplexer print a pane: what is visible of it
/// and the hundred lines of history before that.
pub open spec fn capture_args(target: Seq<char>) -> Seq<Seq<char>> {
    seq!["capture-pane"@, "-p"@, "-t"@, target_or_default(target), "-S"@, "-100"@]
}

/// The text that is answered for the outcome of a capture: the output of a
/// run that succeeded, decoded; nothing after any failure.
pub open spec fn captured_text(outcome: OutcomeModel) -> Seq<char> {
    match outcome {
        OutcomeModel::Exited { success: true, stdout, .. } => utf8_lossy(stdout),
        _ => Seq::empty(),
    }
}

/// The command to run for a capture request.
pub fn capture_command(payload: CaptureRequest) -> (invocation: Invocation)
    ensures
        invocation@.program == crate::process::program_name(),
        invocation@.args == capture_args(payload.target@),
{
    let target = resolve_target(payload.target);
    let mut args: Vec<String> = Vec::new();
    args.push(String::from_str("capture-pane"));
    args.push(String::from_str("-p"));
    args.push(String::from_str("-t"));
    args.push(target);
    args.push(String::from_str("-S"));
    args.push(String::from_str("-100"));
    proof {
        assert(args.deep_view() =~= capture_args(payload.target@));
    }
    invoke(args)
}

/// The answer to a capture request, given how the command ended. The status
/// is always 200: a failure of any kind gives an empty text. Output that is
/// valid UTF-8 is answered as the very characters it encodes.
pub fn capture_pane(outcome: &ProcessOutcome) -> (reply: (Status, CaptureResponse))
    ensures
        reply.0 == Status::Success,
        reply.1.content@ == captured_text(outcome@),
        outcome@ matches OutcomeModel::Exited { success: true, stdout, .. } ==> valid_utf8(stdout)
            ==> reply.1.content@ == decode_utf8(stdout),
{
    match outcome {
        ProcessOutcome::Exited { success, stdout, .. } => {
            if *success {
                let content = decode_lossy(stdout.as_slice());
                (Status::Success, CaptureResponse::new(content))
            } else {
                (Status::Success, CaptureResponse::new(String::new()))
            }
        },
        ProcessOutcome::SpawnFailed { .. } => (
            Status::Success,
            CaptureResponse::new(String::new()),
        ),
    }
}

} // verus!
