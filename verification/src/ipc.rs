//! The daemon's request/response protocol, and how service results become responses.

use vstd::prelude::*;

use crate::application::error::AppError;

verus! {

/// Version reported by `ping`.
pub const IPC_PROTOCOL_VERSION: u32 = 1;

/// Where the daemon listens.
pub const SOCKET_PATH: &'static str = "/tmp/trueid.sock";

/// How long a client waits for the daemon's reply, in seconds: enrollment and verification
/// take tens of seconds (camera warmup, several frames, two models).
pub const IPC_READ_TIMEOUT_SECS: u64 = 120;

/// A client request (JSON-tagged by `op`).
#[derive(Debug, Clone, Copy, PartialEq, Eq, Structural)]
pub enum Request {
    Ping,
    Verify { uid: u32 },
    Enroll { uid: u32 },
    AddTemplate { uid: u32 },
}

impl Request {
    pub open spec fn spec_op_name(&self) -> Seq<char> {
        match self {
            Request::Ping => "ping"@,
            Request::Verify { .. } => "verify"@,
            Request::Enroll { .. } => "enroll"@,
            Request::AddTemplate { .. } => "add_template"@,
        }
    }

    /// The request's `op` tag.
    pub fn op_name(&self) -> (r: &'static str)
        ensures
            r@ == self.spec_op_name(),
    {
        match self {
            Request::Ping => "ping",
            Request::Verify { .. } => "verify",
            Request::Enroll { .. } => "enroll",
            Request::AddTemplate { .. } => "add_template",
        }
    }
}

/// The daemon's answer (JSON-tagged by `op`).
#[derive(Debug, Clone, PartialEq, Eq)]
pub enum Response {
    Pong { ipc_version: u32 },
    VerifyResult { accepted: bool },
    EnrollOk,
    AddTemplateOk,
    Error { message: String },
}

impl Response {
    pub fn is_error(&self) -> (r: bool)
        ensures
            r == (*self is Error),
    {
        match self {
            Response::Error { .. } => true,
            _ => false,
        }
    }
}

/// A service result as a response: the success mapped by `ok`, or the error's message.
pub fn map_result<T, F: FnOnce(T) -> Response>(result: Result<T, AppError>, ok: F) -> (r: Response)
    requires
        result matches Ok(v) ==> ok.requires((v,)),
    ensures
        result matches Ok(v) ==> ok.ensures((v,), r),
        result matches Err(e) ==> (r matches Response::Error { message } && message@
            == e.spec_message()),
{
    match result {
        Ok(value) => ok(value),
        Err(e) => Response::Error { message: e.message() },
    }
}

fn pong(u: ()) -> (r: Response)
    ensures
        r == (Response::Pong { ipc_version: IPC_PROTOCOL_VERSION }),
{
    Response::Pong { ipc_version: IPC_PROTOCOL_VERSION }
}

fn verify_result(accepted: bool) -> (r: Response)
    ensures
        r == (Response::VerifyResult { accepted }),
{
    Response::VerifyResult { accepted }
}

fn enroll_ok(u: ()) -> (r: Response)
    ensures
        r == Response::EnrollOk,
{
    Response::EnrollOk
}

fn add_template_ok(u: ()) -> (r: Response)
    ensures
        r == Response::AddTemplateOk,
{
    Response::AddTemplateOk
}

/// Response to `ping`.
pub fn ping_response(result: Result<(), AppError>) -> (r: Response)
    ensures
        result is Ok ==> r == (Response::Pong { ipc_version: IPC_PROTOCOL_VERSION }),
        result matches Err(e) ==> (r matches Response::Error { message } && message@
            == e.spec_message()),
{
    map_result(result, pong)
}

/// Response to `verify`.
pub fn verify_response(result: Result<bool, AppError>) -> (r: Response)
    ensures
        result matches Ok(accepted) ==> r == (Response::VerifyResult { accepted }),
        result matches Err(e) ==> (r matches Response::Error { message } && message@
            == e.spec_message()),
{
    map_result(result, verify_result)
}

/// Response to `enroll`.
pub fn enroll_response(result: Result<(), AppError>) -> (r: Response)
    ensures
        result is Ok ==> r == Response::EnrollOk,
        result matches Err(e) ==> (r matches Response::Error { message } && message@
            == e.spec_message()),
{
    map_result(result, enroll_ok)
}

/// Response to `add_template`.
pub fn add_template_response(result: Result<(), AppError>) -> (r: Response)
    ensures
        result is Ok ==> r == Response::AddTemplateOk,
        result matches Err(e) ==> (r matches Response::Error { message } && message@
            == e.spec_message()),
{
    map_result(result, add_template_ok)
}

} // verus!
