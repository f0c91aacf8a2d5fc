use trueid::adapters::face_detector::pad_dims;
use trueid::adapters::face_embedder::{interpret_input_shape, InputLayout};
use trueid::adapters::model_path::{path_join, resolve_model_path};
use trueid::adapters::template_store::template_file_name;
use trueid::ctl::{report_for, uid_or_current, CtlCommand, CtlReport};
use trueid::ipc::{add_template_response, enroll_response, ping_response, verify_response};
use trueid::pam::{
    check_pam_user, lookup_outcome, status_for_reply, PAM_AUTH_ERR, PAM_SERVICE_ERR, PAM_SUCCESS,
    PAM_USER_UNKNOWN,
};
use trueid::text::{debug_list, decimal_string};
use trueid::{
    AppError, DomainError, FaceEmbedError, HealthStatus, Request, Response, UserId,
    IPC_PROTOCOL_VERSION, SOCKET_PATH,
};

#[test]
fn decimal_rendering() {
    assert_eq!(decimal_string(0), "0");
    assert_eq!(decimal_string(7), "7");
    assert_eq!(decimal_string(1000), "1000");
    assert_eq!(decimal_string(u64::MAX), u64::MAX.to_string());
    assert_eq!(debug_list(&[1, 3, 112, 112]), "[1, 3, 112, 112]");
    assert_eq!(debug_list(&[]), "[]");
    assert_eq!(template_file_name(&UserId(1000)), "1000.json");
}

#[test]
fn request_op_names() {
    assert_eq!(Request::Ping.op_name(), "ping");
    assert_eq!(Request::Verify { uid: 1 }.op_name(), "verify");
    assert_eq!(Request::Enroll { uid: 1 }.op_name(), "enroll");
    assert_eq!(Request::AddTemplate { uid: 1 }.op_name(), "add_template");
    assert_eq!(SOCKET_PATH, "/tmp/trueid.sock");
    assert_eq!(IPC_PROTOCOL_VERSION, 1);
}

#[test]
fn service_results_become_responses() {
    assert_eq!(ping_response(Ok(())), Response::Pong { ipc_version: 1 });
    assert_eq!(
        ping_response(Err(AppError::Unhealthy("camera offline"))),
        Response::Error { message: "daemon is not healthy: camera offline".into() }
    );
    assert_eq!(verify_response(Ok(false)), Response::VerifyResult { accepted: false });
    assert_eq!(
        verify_response(Err(AppError::Domain(DomainError::NoEnrolledTemplate))),
        Response::Error { message: "no enrolled template for this user".into() }
    );
    assert_eq!(enroll_response(Ok(())), Response::EnrollOk);
    assert_eq!(add_template_response(Ok(())), Response::AddTemplateOk);
    assert!(enroll_response(Err(AppError::Domain(DomainError::AlreadyEnrolled))).is_error());
    let _ = HealthStatus::Healthy;
}

#[test]
fn ctl_reports() {
    assert_eq!(uid_or_current(Some(42), 1000), 42);
    assert_eq!(uid_or_current(None, 1000), 1000);
    let r = report_for(CtlCommand::Verify { uid: 5 }, Response::VerifyResult { accepted: false });
    assert_eq!(r, CtlReport::VerifyRejected { uid: 5 });
    assert_eq!(r.exit_code(), 1);
    let r = report_for(CtlCommand::Verify { uid: 5 }, Response::VerifyResult { accepted: true });
    assert_eq!(r.exit_code(), 0);
    assert_eq!(
        report_for(CtlCommand::Ping, Response::Pong { ipc_version: 1 }),
        CtlReport::DaemonOk { ipc_version: 1 }
    );
    assert_eq!(
        report_for(CtlCommand::Enroll { uid: 3 }, Response::EnrollOk),
        CtlReport::Enrolled { uid: 3 }
    );
    assert_eq!(
        report_for(CtlCommand::AddTemplate { uid: 3 }, Response::EnrollOk),
        CtlReport::Unexpected { op: "add-template" }
    );
    assert_eq!(
        report_for(CtlCommand::Ping, Response::Error { message: "x".into() }),
        CtlReport::DaemonError { message: "x".into() }
    );
    assert_eq!(CtlCommand::Verify { uid: 9 }.request(), Request::Verify { uid: 9 });
}

#[test]
fn pam_statuses() {
    assert_eq!(check_pam_user(4, Some(b"bob")), Err(4));
    assert_eq!(check_pam_user(PAM_SUCCESS, None), Err(PAM_USER_UNKNOWN));
    assert_eq!(check_pam_user(PAM_SUCCESS, Some(b"")), Err(PAM_USER_UNKNOWN));
    assert_eq!(check_pam_user(PAM_SUCCESS, Some(b"bob")), Ok(()));
    assert_eq!(lookup_outcome(1, Some(5)), Err(PAM_SERVICE_ERR));
    assert_eq!(lookup_outcome(0, None), Err(PAM_USER_UNKNOWN));
    assert_eq!(lookup_outcome(0, Some(1000)), Ok(1000));
    assert_eq!(status_for_reply(&Some(Response::VerifyResult { accepted: true })), PAM_SUCCESS);
    assert_eq!(status_for_reply(&Some(Response::VerifyResult { accepted: false })), PAM_AUTH_ERR);
    assert_eq!(status_for_reply(&Some(Response::Error { message: String::new() })), PAM_AUTH_ERR);
    assert_eq!(status_for_reply(&Some(Response::EnrollOk)), PAM_SERVICE_ERR);
    assert_eq!(status_for_reply(&None), PAM_SERVICE_ERR);
}

#[test]
fn model_input_geometry() {
    assert_eq!(pad_dims(640, 640), (640, 640));
    assert_eq!(pad_dims(641, 1), (672, 32));
    assert_eq!(pad_dims(0, 33), (32, 64));
    assert_eq!(interpret_input_shape(&[1, 3, 112, 112]), Ok((InputLayout::Nchw, 112, 112)));
    assert_eq!(interpret_input_shape(&[1, 112, 96, 3]), Ok((InputLayout::Nhwc, 112, 96)));
    assert_eq!(
        interpret_input_shape(&[1, 4, 5, 6]),
        Err(FaceEmbedError::Failed(
            "unrecognized 4D input shape [1, 4, 5, 6]: expected [1,3,H,W] or [1,H,W,3]".into()
        ))
    );
    assert_eq!(
        interpret_input_shape(&[1, 512]),
        Err(FaceEmbedError::Failed("expected rank-4 ONNX input, got rank 2 shape [1, 512]".into()))
    );
}

#[test]
fn model_path_fallbacks() {
    let rel = "trueid/models/face_embedding.onnx";
    let sys = "/var/lib/trueid/models/face_embedding.onnx";
    assert_eq!(
        resolve_model_path(Some("/m.onnx".into()), sys, true, None, None, rel),
        Some("/m.onnx".into())
    );
    assert_eq!(resolve_model_path(None, sys, true, None, None, rel), Some(sys.into()));
    assert_eq!(
        resolve_model_path(None, sys, false, Some("/xdg".into()), Some("/home/a".into()), rel),
        Some("/xdg/trueid/models/face_embedding.onnx".into())
    );
    assert_eq!(
        resolve_model_path(None, sys, false, None, Some("/home/a/".into()), rel),
        Some("/home/a/.local/share/trueid/models/face_embedding.onnx".into())
    );
    assert_eq!(resolve_model_path(None, sys, false, None, None, rel), None);
    assert_eq!(path_join("", "x"), "x");
    assert_eq!(path_join("a", "x"), "a/x");
}
