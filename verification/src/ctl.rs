//! The control tool's decisions: which uid a command addresses and what each reply means.

use vstd::prelude::*;

use crate::ipc::{Request, Response};

verus! {

/// The uid given on the command line, else the caller's own uid.
pub fn uid_or_current(uid: Option<u32>, current_uid: u32) -> (r: u32)
    ensures
        uid matches Some(u) ==> r == u,
        uid is None ==> r == current_uid,
{
    match uid {
        Some(u) => u,
        None => current_uid,
    }
}

/// A control-tool subcommand that talks to the daemon, with its resolved uid.
#[derive(Debug, Clone, Copy, PartialEq, Eq, Structural)]
pub enum CtlCommand {
    Ping,
    Verify { uid: u32 },
    Enroll { uid: u32 },
    AddTemplate { uid: u32 },
}

impl CtlCommand {
    /// The request the command sends.
    pub fn request(&self) -> (r: Request)
        ensures
            *self == CtlCommand::Ping ==> r == Request::Ping,
            *self matches CtlCommand::Verify { uid } ==> r == (Request::Verify { uid }),
            *self matches CtlCommand::Enroll { uid } ==> r == (Request::Enroll { uid }),
            *self matches CtlCommand::AddTemplate { uid } ==> r == (Request::AddTemplate { uid }),
    {
        match self {
            CtlCommand::Ping => Request::Ping,
            CtlCommand::Verify { uid } => Request::Verify { uid: *uid },
            CtlCommand::Enroll { uid } => Request::Enroll { uid: *uid },
            CtlCommand::AddTemplate { uid } => Request::AddTemplate { uid: *uid },
        }
    }
}

/// What the tool reports for a reply.
#[derive(Debug, Clone, PartialEq, Eq)]
pub enum CtlReport {
    DaemonOk { ipc_version: u32 },
    VerifyAccepted { uid: u32 },
    VerifyRejected { uid: u32 },
    Enrolled { uid: u32 },
    AddedTemplate { uid: u32 },
    DaemonError { message: String },
    Unexpected { op: &'static str },
}

impl CtlReport {
    /// The tool fails on a rejected verification, a daemon error and an unexpected reply.
    pub fn exit_code(&self) -> (r: i32)
        ensures
            (*self is VerifyRejected || *self is DaemonError || *self is Unexpected) ==> r == 1,
            !(*self is VerifyRejected || *self is DaemonError || *self is Unexpected) ==> r == 0,
    {
        match self {
            CtlReport::VerifyRejected { .. } => 1,
            CtlReport::DaemonError { .. } => 1,
            CtlReport::Unexpected { .. } => 1,
            _ => 0,
        }
    }
}

/// How a reply to `command` is reported: the expected reply, a daemon error, or anything else
/// as unexpected for the command.
pub fn report_for(command: CtlCommand, reply: Response) -> (r: CtlReport)
    ensures
        reply matches Response::Error { message } ==> r == (CtlReport::DaemonError { message }),
        command == CtlCommand::Ping ==> (reply matches Response::Pong { ipc_version } ==> r == (
        CtlReport::DaemonOk { ipc_version })),
        command matches CtlCommand::Verify { uid } ==> (reply == (Response::VerifyResult {
            accepted: true,
        }) ==> r == (CtlReport::VerifyAccepted { uid })),
        command matches CtlCommand::Verify { uid } ==> (reply == (Response::VerifyResult {
            accepted: false,
        }) ==> r == (CtlReport::VerifyRejected { uid })),
        command matches CtlCommand::Enroll { uid } ==> (reply == Response::EnrollOk ==> r == (
        CtlReport::Enrolled { uid })),
        command matches CtlCommand::AddTemplate { uid } ==> (reply == Response::AddTemplateOk
            ==> r == (CtlReport::AddedTemplate { uid })),
        command == CtlCommand::Ping && !(reply is Pong) && !(reply is Error) ==> (r matches CtlReport::Unexpected { op } && op@ == "ping"@),
        command is Verify && !(reply is VerifyResult) && !(reply is Error) ==> (r matches CtlReport::Unexpected { op } && op@ == "verify"@),
        command is Enroll && !(reply is EnrollOk) && !(reply is Error) ==> (r matches CtlReport::Unexpected { op } && op@ == "enroll"@),
        command is AddTemplate && !(reply is AddTemplateOk) && !(reply is Error) ==> (r matches CtlReport::Unexpected { op } && op@ == "add-template"@),
{
    match reply {
        Response::Error { message } => CtlReport::DaemonError { message },
        Response::Pong { ipc_version } => match command {
            CtlCommand::Ping => CtlReport::DaemonOk { ipc_version },
            _ => unexpected(command),
        },
        Response::VerifyResult { accepted } => match command {
            CtlCommand::Verify { uid } => if accepted {
                CtlReport::VerifyAccepted { uid }
            } else {
                CtlReport::VerifyRejected { uid }
            },
            _ => unexpected(command),
        },
        Response::EnrollOk => match command {
            CtlCommand::Enroll { uid } => CtlReport::Enrolled { uid },
            _ => unexpected(command),
        },
        Response::AddTemplateOk => match command {
            CtlCommand::AddTemplate { uid } => CtlReport::AddedTemplate { uid },
            _ => unexpected(command),
        },
    }
}

fn unexpected(command: CtlCommand) -> (r: CtlReport)
    ensures
        command == CtlCommand::Ping ==> (r matches CtlReport::Unexpected { op } && op@ == "ping"@),
        command is Verify ==> (r matches CtlReport::Unexpected { op } && op@ == "verify"@),
        command is Enroll ==> (r matches CtlReport::Unexpected { op } && op@ == "enroll"@),
        command is AddTemplate ==> (r matches CtlReport::Unexpected { op } && op@ == "add-template"@),
{
    match command {
        CtlCommand::Ping => CtlReport::Unexpected { op: "ping" },
        CtlCommand::Verify { .. } => CtlReport::Unexpected { op: "verify" },
        CtlCommand::Enroll { .. } => CtlReport::Unexpected { op: "enroll" },
        CtlCommand::AddTemplate { .. } => CtlReport::Unexpected { op: "add-template" },
    }
}

} // verus!
