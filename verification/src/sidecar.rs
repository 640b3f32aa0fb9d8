//! Messages exchanged with the companion process, and the decisions made
//! round its transport.
//!
//! The transport itself, and the encoding of messages as lines of JSON, are
//! the host's. JSON values are carried here as their text.

use vstd::prelude::*;
use vstd::string::StringExecFns;

verus! {

/// A message to the companion process.
#[derive(Debug, PartialEq, Eq)]
pub enum ToSidecar {
    /// A prompt, with the directory it is to run in.
    Send {
        /// The prompt.
        text: String,
        /// The working directory, if one is set.
        cwd: Option<String>,
    },
    /// The user's answer to a permission request.
    RespondPermission {
        /// The request that is answered.
        request_id: String,
        /// The answer.
        decision: String,
    },
    /// A change of the permission mode.
    SetPermissionMode {
        /// The new mode.
        mode: String,
    },
    /// A request to stop the running turn.
    Interrupt,
}

impl ToSidecar {
    /// The tag under which the message travels.
    pub open spec fn tag(self) -> Seq<char> {
        match self {
            ToSidecar::Send { .. } => "send"@,
            ToSidecar::RespondPermission { .. } => "respond_permission"@,
            ToSidecar::SetPermissionMode { .. } => "set_permission_mode"@,
            ToSidecar::Interrupt => "interrupt"@,
        }
    }

    /// The tag under which the message travels.
    pub fn type_tag(&self) -> (tag: &'static str)
        ensures
            tag@ == self.tag(),
    {
        match self {
            ToSidecar::Send { .. } => "send",
            ToSidecar::RespondPermission { .. } => "respond_permission",
            ToSidecar::SetPermissionMode { .. } => "set_permission_mode",
            ToSidecar::Interrupt => "interrupt",
        }
    }
}

/// A message from the companion process.
#[derive(Debug, PartialEq, Eq)]
pub enum FromSidecar {
    /// A message of the agent, as JSON text.
    SdkMessage {
        /// The message.
        message: String,
    },
    /// The agent asks whether it may use a tool.
    PermissionRequest {
        /// The request, to be named in the answer.
        request_id: String,
        /// The tool.
        tool_name: String,
        /// The tool's input, as JSON text.
        input: String,
    },
    /// A session is ready.
    SessionReady {
        /// The session.
        session_id: String,
    },
    /// A piece of the answer as it is written.
    StreamingText {
        /// The piece.
        text: String,
    },
    /// The turn is over.
    TurnComplete {
        /// The messages of the turn, each as JSON text.
        messages: Vec<String>,
    },
    /// The companion process reports a failure.
    Error {
        /// What failed.
        message: String,
    },
}

impl FromSidecar {
    /// The name of the event under which the message is passed on.
    pub open spec fn event(self) -> Seq<char> {
        match self {
            FromSidecar::SdkMessage { .. } => "sdk-message"@,
            FromSidecar::PermissionRequest { .. } => "permission-request"@,
            FromSidecar::SessionReady { .. } => "session-ready"@,
            FromSidecar::StreamingText { .. } => "streaming-text"@,
            FromSidecar::TurnComplete { .. } => "turn-complete"@,
            FromSidecar::Error { .. } => "sidecar-error"@,
        }
    }

    /// The name of the event under which the message is passed on to the
    /// user interface.
    pub fn event_name(&self) -> (name: &'static str)
        ensures
            name@ == self.event(),
    {
        match self {
            FromSidecar::SdkMessage { .. } => "sdk-message",
            FromSidecar::PermissionRequest { .. } => "permission-request",
            FromSidecar::SessionReady { .. } => "session-ready",
            FromSidecar::StreamingText { .. } => "streaming-text",
            FromSidecar::TurnComplete { .. } => "turn-complete",
            FromSidecar::Error { .. } => "sidecar-error",
        }
    }
}

/// Name of the event that says the companion process has closed its output.
pub const EVENT_SIDECAR_EXITED: &'static str = "sidecar-exited";

/// The program to start as the companion process: the build in the project
/// directory where it exists, else the one bundled with the application
/// where it exists, else `node`.
pub fn choose_sidecar_path(development: Option<String>, bundled: Option<String>) -> (path: String)
    ensures
        path@ == match (development, bundled) {
            (Some(found), _) => found@,
            (None, Some(found)) => found@,
            (None, None) => "node"@,
        },
{
    match development {
        Some(found) => found,
        None => match bundled {
            Some(found) => found,
            None => String::from_str("node"),
        },
    }
}

} // verus!
