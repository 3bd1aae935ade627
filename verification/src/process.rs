//! What is handed to the process runner and what comes back from it.
//!
//! The library never starts a process itself. It says which command line to
//! run as an [`Invocation`], and is told how the run ended as a
//! [`ProcessOutcome`].

use vstd::prelude::*;
use vstd::utf8::{decode_utf8, valid_utf8};

verus! {

/// The text that `String::from_utf8_lossy` gives for a sequence of bytes.
pub uninterp spec fn utf8_lossy(bytes: Seq<u8>) -> Seq<char>;

/// Decodes captured output as UTF-8, replacing what is not valid.
///
/// Calls `String::from_utf8_lossy`. Not proved: that the text is the one
/// named by [`utf8_lossy`], which depends on the bytes alone, and that bytes
/// which are valid UTF-8 decode to the characters they encode.
#[verifier::external_body]
pub(crate) fn decode_lossy(bytes: &[u8]) -> (text: String)
    ensures
        text@ == utf8_lossy(bytes@),
        valid_utf8(bytes@) ==> text@ == decode_utf8(bytes@),
{
    String::from_utf8_lossy(bytes).into_owned()
}

/// Name of the multiplexer binary, looked up on the search path.
pub open spec fn program_name() -> Seq<char> {
    "tmux"@
}

/// A command line to run: the program and its arguments.
#[derive(Debug)]
pub struct Invocation {
    pub program: String,
    pub args: Vec<String>,
}

/// Mathematical model of an [`Invocation`].
pub struct InvocationModel {
    pub program: Seq<char>,
    pub args: Seq<Seq<char>>,
}

impl View for Invocation {
    type V = InvocationModel;

    open spec fn view(&self) -> InvocationModel {
        InvocationModel { program: self.program@, args: self.args.deep_view() }
    }
}

/// How one run of the multiplexer ended.
#[derive(Debug)]
pub enum ProcessOutcome {
    /// The process ran to completion.
    Exited {
        /// Whether it exited with code zero.
        success: bool,
        /// What it wrote to standard output.
        stdout: Vec<u8>,
        /// What it wrote to standard error.
        stderr: Vec<u8>,
    },
    /// The process could not be started.
    SpawnFailed {
        /// The operating system's message.
        reason: String,
    },
}

/// Mathematical model of a [`ProcessOutcome`].
pub enum OutcomeModel {
    Exited { success: bool, stdout: Seq<u8>, stderr: Seq<u8> },
    SpawnFailed { reason: Seq<char> },
}

impl View for ProcessOutcome {
    type V = OutcomeModel;

    open spec fn view(&self) -> OutcomeModel {
        match self {
            ProcessOutcome::Exited { success, stdout, stderr } => OutcomeModel::Exited {
                success: *success,
                stdout: stdout@,
                stderr: stderr@,
            },
            ProcessOutcome::SpawnFailed { reason } => OutcomeModel::SpawnFailed {
                reason: reason@,
            },
        }
    }
}

impl OutcomeModel {
    /// Whether the process ran and exited with code zero.
    pub open spec fn succeeded(self) -> bool {
        match self {
            OutcomeModel::Exited { success, .. } => success,
            OutcomeModel::SpawnFailed { .. } => false,
        }
    }
}

/// Builds the invocation of the multiplexer with the given arguments.
pub fn invoke(args: Vec<String>) -> (invocation: Invocation)
    ensures
        invocation@.program == program_name(),
        invocation@.args == args.deep_view(),
{
    Invocation { program: String::from_str("tmux"), args }
}

} // verus!
