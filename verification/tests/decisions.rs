use trueid::application::app::{
    ensure_not_enrolled, load_enrolled, open_capture, require_healthy, template_from_capture,
};
use trueid::application::verification_decision::count_row_matches;
use trueid::domain::templates::common_dim;
use trueid::{
    verify_burst, AppError, CaptureError, DomainError, HealthStatus, MockVideoSource, StoreError,
    StreamLimits, StreamModality, TemplateBundle, VerifyStep, VerifyStream,
};

/// Rows an exact matcher gives: a probe matches a template when they are equal.
fn rows(templates: &[&[u32]], probes: &[Option<&[u32]>]) -> Vec<Option<Vec<bool>>> {
    probes
        .iter()
        .map(|p| p.map(|p| templates.iter().map(|t| *t == p).collect()))
        .collect()
}

#[test]
fn verify_burst_accept_on_quorum() {
    let t: [&[u32]; 2] = [&[1, 0], &[0, 1]];
    let probes = rows(&t, &[Some(&[0, 1]), None]);
    let out = verify_burst(2, &probes);
    assert!(out.accepted);
    assert!(out.quorum);
    assert!(out.has_probe);
}

#[test]
fn verify_burst_reject_when_quorum_not_met() {
    let t: [&[u32]; 3] = [&[1, 0], &[0, 1], &[0, 0, 1]];
    let probes = rows(&t, &[Some(&[0, 0, 1])]);
    let out = verify_burst(3, &probes);
    assert!(!out.accepted);
    assert!(out.has_probe);
}

#[test]
fn verify_burst_without_templates_or_probes() {
    let out = verify_burst(0, &[Some(vec![])]);
    assert!(!out.accepted && !out.has_probe);
    let out = verify_burst(2, &[]);
    assert!(!out.accepted && !out.has_probe);
    let out = verify_burst(2, &[None, None]);
    assert!(!out.accepted && !out.has_probe);
}

#[test]
fn quorum_needs_half_rounded_up() {
    assert!(verify_burst(4, &[Some(vec![true, true, false, false])]).accepted);
    assert!(!verify_burst(5, &[Some(vec![true, true, false, false, false])]).accepted);
    assert!(verify_burst(5, &[Some(vec![true, false, true, false, true])]).accepted);
    assert_eq!(count_row_matches(&[true, false, true, true]), 3);
}

#[test]
fn verify_stream_accepts_at_first_quorum() {
    let mut s = VerifyStream::start(2, StreamLimits::new(2, 3)).unwrap();
    assert_eq!(s.push(None), VerifyStep::NextFrame);
    assert_eq!(s.push(Some(vec![false, true])), VerifyStep::Accept);
    assert_eq!(s.frames_seen(), 2);
    assert!(s.decision().accepted);
}

#[test]
fn verify_stream_rejects_after_max_frames() {
    let mut s = VerifyStream::start(3, StreamLimits::new(0, 2)).unwrap();
    assert_eq!(s.push(Some(vec![false, false, true])), VerifyStep::NextFrame);
    assert_eq!(s.push(Some(vec![true, false, false])), VerifyStep::Reject);
    assert!(!s.decision().accepted);
    assert!(s.decision().has_probe);
}

#[test]
fn verify_stream_match_and_mismatch() {
    // one template, probe equal to it
    let mut s = VerifyStream::start(1, StreamLimits::new(2, 3)).unwrap();
    assert_eq!(s.push(Some(vec![true])), VerifyStep::Accept);
    // one template, probe different on every frame
    let mut s = VerifyStream::start(1, StreamLimits::new(2, 3)).unwrap();
    assert_eq!(s.push(Some(vec![false])), VerifyStep::NextFrame);
    assert_eq!(s.push(Some(vec![false])), VerifyStep::NextFrame);
    assert_eq!(s.push(Some(vec![false])), VerifyStep::Reject);
}

#[test]
fn zero_max_frames_is_refused() {
    let err = VerifyStream::start(1, StreamLimits::new(2, 0)).err().unwrap();
    assert_eq!(err, CaptureError::Failed("StreamLimits.max_frames must be >= 1".to_string()));
    assert!(StreamLimits::new(0, 0).validate().is_err());
    assert_eq!(StreamLimits::new(3, 1).validate(), Ok(StreamLimits::new(3, 1)));
}

#[test]
fn unhealthy_daemon_refuses_service() {
    let err = require_healthy(HealthStatus::Degraded { reason: "camera offline" }).unwrap_err();
    assert_eq!(err, AppError::Unhealthy("camera offline"));
    assert!(err.message().contains("camera offline"));
    assert_eq!(err.message(), "daemon is not healthy: camera offline");
    assert!(require_healthy(HealthStatus::Healthy).is_ok());
}

#[test]
fn verify_no_template() {
    let r = load_enrolled::<u32>(Ok(None));
    assert_eq!(r, Err(AppError::Domain(DomainError::NoEnrolledTemplate)));
    let r = load_enrolled::<u32>(Ok(Some(TemplateBundle::empty())));
    assert_eq!(r, Err(AppError::Domain(DomainError::NoEnrolledTemplate)));
    let r = load_enrolled::<u32>(Err(StoreError::Failed("disk".to_string())));
    assert_eq!(r, Err(AppError::Store(StoreError::Failed("disk".to_string()))));
    let b = TemplateBundle { templates: vec![7u32] };
    assert_eq!(load_enrolled(Ok(Some(b.clone()))), Ok(b));
}

#[test]
fn enroll_rejects_when_already_enrolled() {
    let b = TemplateBundle { templates: vec![1u32] };
    assert_eq!(
        ensure_not_enrolled(Ok(Some(b))),
        Err(AppError::Domain(DomainError::AlreadyEnrolled))
    );
    assert_eq!(ensure_not_enrolled::<u32>(Ok(None)), Ok(()));
    assert_eq!(ensure_not_enrolled::<u32>(Ok(Some(TemplateBundle::empty()))), Ok(()));
}

#[test]
fn enroll_fails_when_no_face_detected() {
    assert_eq!(
        template_from_capture::<u32>(0, None),
        Err(AppError::Domain(DomainError::NoUsableFaceInCapture))
    );
    assert_eq!(
        template_from_capture::<u32>(2, None),
        Err(AppError::Domain(DomainError::EmbeddingAggregationFailed))
    );
    assert_eq!(template_from_capture(2, Some(5u32)), Ok(5));
}

#[test]
fn add_template_appends_without_removing_first() {
    let mut b = TemplateBundle { templates: vec![vec![1u32, 0, 0]] };
    b.push_template(vec![0, 1, 0]);
    assert_eq!(b.templates.len(), 2);
    assert_eq!(b.templates[0], vec![1, 0, 0]);
    assert_eq!(b.templates[1], vec![0, 1, 0]);
    assert!(b.has_any_enrollment());
    assert!(TemplateBundle::<u8>::default().is_empty());
}

#[test]
fn multi_template_roundtrip() {
    let b = TemplateBundle { templates: vec![10u32, 20] };
    let (rgb, ir) = b.clone().into_streams();
    assert!(ir.is_empty());
    assert_eq!(TemplateBundle::from_streams(rgb, ir), Some(b));
    assert_eq!(TemplateBundle::<u32>::from_streams(vec![], vec![]), None);
    assert_eq!(
        TemplateBundle::from_streams(vec![1u32], vec![2]).unwrap().templates,
        vec![1, 2]
    );
}

#[test]
fn averaging_needs_equal_nonzero_dims() {
    assert_eq!(common_dim(&[]), None);
    assert_eq!(common_dim(&[0, 0]), None);
    assert_eq!(common_dim(&[3, 3, 2]), None);
    assert_eq!(common_dim(&[2, 2]), Some(2));
}

#[test]
fn open_capture_discards_warmup_frames() {
    let video = MockVideoSource::with_modality(StreamModality::Ir);
    let (mut session, limits) = open_capture(&video, StreamLimits::new(2, 3)).ok().unwrap();
    assert_eq!(limits, StreamLimits::new(2, 3));
    let f = session.next_frame().unwrap();
    assert_eq!(f.modality(), StreamModality::Ir);
    assert!(open_capture(&video, StreamLimits::new(1, 0)).is_err());
}

#[test]
fn error_messages() {
    assert_eq!(
        AppError::Domain(DomainError::NoEnrolledTemplate).message(),
        "no enrolled template for this user"
    );
    assert_eq!(
        AppError::PipelineNotImplemented("streaming").message(),
        "pipeline not implemented: streaming"
    );
    assert_eq!(
        AppError::Pose(trueid::PoseError::NotFrontal).message(),
        "pose: face not sufficiently frontal"
    );
    assert_eq!(
        AppError::Liveness(trueid::LivenessError::NotLive).message(),
        "liveness: not a live face"
    );
    assert_eq!(AppError::from(CaptureError::Failed("x".into())).message(), "x");
}
