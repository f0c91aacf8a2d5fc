//! The PAM module's decisions: which PAM status each outcome of authentication gives.

use vstd::prelude::*;

use crate::ipc::Response;

verus! {

pub const PAM_SUCCESS: i32 = 0;

pub const PAM_SERVICE_ERR: i32 = 3;

pub const PAM_AUTH_ERR: i32 = 7;

pub const PAM_USER_UNKNOWN: i32 = 10;

/// Before a uid is looked up: PAM's own failure to name the user is passed on, and a missing
/// or empty user name is an unknown user.
pub fn check_pam_user(get_user_status: i32, user: Option<&[u8]>) -> (r: Result<(), i32>)
    ensures
        get_user_status != PAM_SUCCESS ==> r == Err::<(), i32>(get_user_status),
        get_user_status == PAM_SUCCESS && user is None ==> r == Err::<(), i32>(PAM_USER_UNKNOWN),
        user matches Some(u) ==> (get_user_status == PAM_SUCCESS && u@.len() == 0 ==> r == Err::<
            (),
            i32,
        >(PAM_USER_UNKNOWN)),
        user matches Some(u) ==> (get_user_status == PAM_SUCCESS && u@.len() > 0 ==> r is Ok),
{
    if get_user_status != PAM_SUCCESS {
        return Err(get_user_status);
    }
    match user {
        None => Err(PAM_USER_UNKNOWN),
        Some(u) => {
            if u.len() == 0 {
                Err(PAM_USER_UNKNOWN)
            } else {
                Ok(())
            }
        },
    }
}

/// The uid from a passwd lookup (`getpwnam_r` status, and the entry's uid when one was
/// found): a failed lookup is a service error, a missing entry an unknown user.
pub fn lookup_outcome(status: i32, found_uid: Option<u32>) -> (r: Result<u32, i32>)
    ensures
        status != 0 ==> r == Err::<u32, i32>(PAM_SERVICE_ERR),
        status == 0 && found_uid is None ==> r == Err::<u32, i32>(PAM_USER_UNKNOWN),
        found_uid matches Some(uid) ==> (status == 0 ==> r == Ok::<u32, i32>(uid)),
{
    if status != 0 {
        return Err(PAM_SERVICE_ERR);
    }
    match found_uid {
        None => Err(PAM_USER_UNKNOWN),
        Some(uid) => Ok(uid),
    }
}

/// PAM status for the daemon's reply to a verification request (`None` when the daemon
/// could not be reached): only an accepted verification authenticates.
pub fn status_for_reply(reply: &Option<Response>) -> (r: i32)
    ensures
        *reply == Some(Response::VerifyResult { accepted: true }) ==> r == PAM_SUCCESS,
        *reply == Some(Response::VerifyResult { accepted: false }) ==> r == PAM_AUTH_ERR,
        *reply matches Some(Response::Error { .. }) ==> r == PAM_AUTH_ERR,
        *reply is None ==> r == PAM_SERVICE_ERR,
        *reply matches Some(resp) ==> (!(resp is VerifyResult) && !(resp is Error) ==> r
            == PAM_SERVICE_ERR),
{
    match reply {
        Some(Response::VerifyResult { accepted: true }) => PAM_SUCCESS,
        Some(Response::VerifyResult { accepted: false }) => PAM_AUTH_ERR,
        Some(Response::Error { .. }) => PAM_AUTH_ERR,
        Some(_) => PAM_SERVICE_ERR,
        None => PAM_SERVICE_ERR,
    }
}

} // verus!
