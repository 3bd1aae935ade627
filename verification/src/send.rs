//! Sending a command line into a session: the text first, typed literally,
//! then the Enter key, as two runs of the multiplexer.
//!
//! The exchange is a small state machine. [`send_to_tmux`] starts it and
//! says what to run first; [`SendState::advance`] takes the outcome of a run
//! and says what to run next, or what to answer.

use vstd::prelude::*;
use vstd::utf8::{decode_utf8, valid_utf8};
use crate::process::{
    decode_lossy, invoke, program_name, utf8_lossy, Invocation, InvocationModel, OutcomeModel,
    ProcessOutcome,
};
use crate::status::Status;
use crate::target::{resolve_target, target_or_default};

verus! {

/// The body of a request to send a command.
#[derive(Debug, PartialEq, Eq)]
pub struct SendCommand {
    /// The text to type into the session.
    pub command: String,
    /// The session to type it into; empty for the default target.
    pub session: String,
}

/// The body of the answer to a request to send a command.
#[derive(Debug, PartialEq, Eq)]
pub struct ApiResponse {
    /// Whether the command was sent.
    pub success: bool,
    /// What went wrong; present exactly when `success` is false.
    pub error: Option<String>,
}

/// Mathematical model of an [`ApiResponse`].
pub struct ApiResponseModel {
    pub success: bool,
    pub error: Option<Seq<char>>,
}

impl View for ApiResponse {
    type V = ApiResponseModel;

    open spec fn view(&self) -> ApiResponseModel {
        ApiResponseModel {
            success: self.success,
            error: match self.error {
                Some(message) => Some(message@),
                None => None,
            },
        }
    }
}

impl ApiResponse {
    /// The answer that reports success.
    pub fn succeeded() -> (response: ApiResponse)
        ensures
            response@ == (ApiResponseModel { success: true, error: None }),
    {
        ApiResponse { success: true, error: None }
    }

    /// The answer that reports a failure with the given message.
    pub fn failed(message: String) -> (response: ApiResponse)
        ensures
            response@ == (ApiResponseModel { success: false, error: Some(message@) }),
    {
        ApiResponse { success: false, error: Some(message) }
    }
}

/// Arguments that type `command` into `session` literally, so that no part
/// of it is read as the name of a key.
pub open spec fn send_text_args(session: Seq<char>, command: Seq<char>) -> Seq<Seq<char>> {
    seq!["send-keys"@, "-t"@, target_or_default(session), "-l"@, command]
}

/// Arguments that press the Enter key in `session`.
pub open spec fn send_enter_args(session: Seq<char>) -> Seq<Seq<char>> {
    seq!["send-keys"@, "-t"@, target_or_default(session), "Enter"@]
}

/// What introduces the message of a run that could not be started.
pub open spec fn spawn_failure_prefix() -> Seq<char> {
    "Failed to execute tmux: "@
}

/// The answer for the outcome of pressing Enter: 200 after a run that
/// succeeded; 400 with the decoded error output after one that exited with
/// another code; 500 with the reason after one that could not be started.
pub open spec fn send_reply(outcome: OutcomeModel) -> (Status, ApiResponseModel) {
    match outcome {
        OutcomeModel::Exited { success, stderr, .. } => if success {
            (Status::Success, ApiResponseModel { success: true, error: None })
        } else {
            (
                Status::BadRequest,
                ApiResponseModel { success: false, error: Some(utf8_lossy(stderr)) },
            )
        },
        OutcomeModel::SpawnFailed { reason } => (
            Status::InternalServerError,
            ApiResponseModel { success: false, error: Some(spawn_failure_prefix() + reason) },
        ),
    }
}

/// Where an exchange stands: which run is under way.
#[derive(Debug, PartialEq, Eq)]
pub enum SendState {
    /// The text is being typed into `session`.
    TypingText { session: String },
    /// The Enter key is being pressed.
    PressingEnter,
}

/// Mathematical model of a [`SendState`].
pub enum SendStateModel {
    TypingText { session: Seq<char> },
    PressingEnter,
}

impl View for SendState {
    type V = SendStateModel;

    open spec fn view(&self) -> SendStateModel {
        match self {
            SendState::TypingText { session } => SendStateModel::TypingText { session: session@ },
            SendState::PressingEnter => SendStateModel::PressingEnter,
        }
    }
}

/// What to do next in an exchange.
#[derive(Debug)]
pub enum SendAction {
    /// Run the command, then hand its outcome to `next`.
    Run { invocation: Invocation, next: SendState },
    /// Answer the request.
    Reply { status: Status, body: ApiResponse },
}

/// Mathematical model of a [`SendAction`].
pub enum SendActionModel {
    Run { invocation: InvocationModel, next: SendStateModel },
    Reply { status: Status, body: ApiResponseModel },
}

impl View for SendAction {
    type V = SendActionModel;

    open spec fn view(&self) -> SendActionModel {
        match self {
            SendAction::Run { invocation, next } => SendActionModel::Run {
                invocation: invocation@,
                next: next@,
            },
            SendAction::Reply { status, body } => SendActionModel::Reply {
                status: *status,
                body: body@,
            },
        }
    }
}

/// The first step of an exchange: type the text into the session that the
/// request addresses.
pub open spec fn first_step(command: Seq<char>, session: Seq<char>) -> SendActionModel {
    SendActionModel::Run {
        invocation: InvocationModel {
            program: program_name(),
            args: send_text_args(session, command),
        },
        next: SendStateModel::TypingText { session: target_or_default(session) },
    }
}

/// The step that follows the outcome of a run. However typing the text
/// ended, Enter is pressed next; how that ended decides the answer.
pub open spec fn next_step(state: SendStateModel, outcome: OutcomeModel) -> SendActionModel {
    match state {
        SendStateModel::TypingText { session } => SendActionModel::Run {
            invocation: InvocationModel { program: program_name(), args: send_enter_args(session) },
            next: SendStateModel::PressingEnter,
        },
        SendStateModel::PressingEnter => SendActionModel::Reply {
            status: send_reply(outcome).0,
            body: send_reply(outcome).1,
        },
    }
}

/// Starts the exchange for a request: says what to run first and in which
/// state its outcome is awaited.
pub fn send_to_tmux(payload: SendCommand) -> (action: SendAction)
    ensures
        action@ == first_step(payload.command@, payload.session@),
{
    let session = resolve_target(payload.session);
    let mut args: Vec<String> = Vec::new();
    args.push(String::from_str("send-keys"));
    args.push(String::from_str("-t"));
    args.push(session.clone());
    args.push(String::from_str("-l"));
    args.push(payload.command);
    proof {
        assert(args.deep_view() =~= send_text_args(payload.session@, payload.command@));
    }
    SendAction::Run { invocation: invoke(args), next: SendState::TypingText { session } }
}

/// The answer for the outcome of pressing Enter. Error output that is valid
/// UTF-8 is reported as the very characters it encodes.
pub fn reply_to(outcome: &ProcessOutcome) -> (reply: (Status, ApiResponse))
    ensures
        reply.0 == send_reply(outcome@).0,
        reply.1@ == send_reply(outcome@).1,
        outcome@ matches OutcomeModel::Exited { success: false, stderr, .. } ==> valid_utf8(stderr)
            ==> reply.1@.error == Some(decode_utf8(stderr)),
{
    match outcome {
        ProcessOutcome::Exited { success, stderr, .. } => {
            if *success {
                (Status::Success, ApiResponse::succeeded())
            } else {
                let message = decode_lossy(stderr.as_slice());
                (Status::BadRequest, ApiResponse::failed(message))
            }
        },
        ProcessOutcome::SpawnFailed { reason } => {
            let mut message = String::from_str("Failed to execute tmux: ");
            message.append(reason.as_str());
            (Status::InternalServerError, ApiResponse::failed(message))
        },
    }
}

impl SendState {
    /// Takes the outcome of the run that was under way and says what to do
    /// next.
    pub fn advance(self, outcome: &ProcessOutcome) -> (action: SendAction)
        ensures
            action@ == next_step(self@, outcome@),
    {
        match self {
            SendState::TypingText { session } => {
                let mut args: Vec<String> = Vec::new();
                args.push(String::from_str("send-keys"));
                args.push(String::from_str("-t"));
                args.push(resolve_target(session));
                args.push(String::from_str("Enter"));
                proof {
                    assert(args.deep_view() =~= send_enter_args(session@));
                }
                SendAction::Run { invocation: invoke(args), next: SendState::PressingEnter }
            },
            SendState::PressingEnter => {
                let reply = reply_to(outcome);
                SendAction::Reply { status: reply.0, body: reply.1 }
            },
        }
    }
}

/// The whole exchange, for every request and every pair of outcomes: the
/// text is typed first, then Enter is pressed, both in the session that the
/// request addresses (the default one where it names none); and the answer
/// is decided by the outcome of pressing Enter alone, whatever the outcome
/// of typing the text was.
pub proof fn lemma_exchange(
    command: Seq<char>,
    session: Seq<char>,
    typed: OutcomeModel,
    pressed: OutcomeModel,
)
    ensures
        ({
            let start = first_step(command, session);
            let middle = next_step(start->next, typed);
            let end = next_step(middle->next, pressed);
            &&& start is Run
            &&& start->invocation == (InvocationModel {
                program: program_name(),
                args: send_text_args(session, command),
            })
            &&& middle is Run
            &&& middle->invocation == (InvocationModel {
                program: program_name(),
                args: send_enter_args(session),
            })
            &&& end == (SendActionModel::Reply {
                status: send_reply(pressed).0,
                body: send_reply(pressed).1,
            })
        }),
{
    crate::target::lemma_default_target();
}

/// The answer to a run that could not be started is never empty and begins
/// with the word `Failed`; the answer says so with status 500.
pub proof fn lemma_spawn_failure_reply(reason: Seq<char>)
    ensures
        send_reply(OutcomeModel::SpawnFailed { reason }).0 == Status::InternalServerError,
        send_reply(OutcomeModel::SpawnFailed { reason }).1.success == false,
        send_reply(OutcomeModel::SpawnFailed { reason }).1.error matches Some(message)
            && message.len() == 24 + reason.len()
            && message.take(6) == "Failed"@
            && message.skip(24) == reason,
{
    reveal_strlit("Failed to execute tmux: ");
    reveal_strlit("Failed");
    let message = spawn_failure_prefix() + reason;
    assert(message.take(6) =~= "Failed"@);
    assert(message.skip(24) =~= reason);
}

/// An answer reports success exactly when it carries no error, and exactly
/// then its status is 200.
pub proof fn lemma_reply_consistent(outcome: OutcomeModel)
    ensures
        send_reply(outcome).1.success <==> send_reply(outcome).1.error is None,
        send_reply(outcome).1.success <==> send_reply(outcome).0 == Status::Success,
        send_reply(outcome).1.success <==> outcome.succeeded(),
{
}

} // verus!
