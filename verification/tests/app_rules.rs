//! The service scenarios, run through the library's rules with the mock camera: embeddings
//! are stood for by integer vectors and an exact matcher (a probe matches a template when
//! they are equal).

use trueid::application::app::{
    ensure_not_enrolled, load_enrolled, open_capture, require_healthy, template_from_capture,
};
use trueid::{
    AppError, DomainError, HealthStatus, MockVideoSource, StoreError, StreamLimits,
    StreamModality, StreamingPolicy, TemplateBundle, VerifyStep, VerifyStream, VideoSession,
};

type Emb = Vec<u32>;

/// A store holding at most one user's stored lists.
struct Stored(Option<(Vec<Emb>, Vec<Emb>)>);

impl Stored {
    fn load(&self) -> Result<Option<TemplateBundle<Emb>>, StoreError> {
        Ok(self.0.clone().and_then(|(rgb, ir)| TemplateBundle::from_streams(rgb, ir)))
    }

    fn save(&mut self, bundle: &TemplateBundle<Emb>) {
        self.0 = Some(bundle.clone().into_streams());
    }
}

/// Verification: every frame of the mock camera embeds to `probe`.
fn run_verify(health: HealthStatus, store: &Stored, probe: &Emb) -> Result<bool, AppError> {
    require_healthy(health)?;
    let bundle = load_enrolled(store.load())?;
    let source = MockVideoSource::with_modality(StreamModality::Rgb);
    let (mut session, limits) = open_capture(&source, StreamingPolicy::default().verify)?;
    let mut stream = VerifyStream::start(bundle.templates.len(), limits).map_err(AppError::Capture)?;
    loop {
        session.next_frame().map_err(AppError::Capture)?;
        let row: Vec<bool> = bundle.templates.iter().map(|t| t == probe).collect();
        match stream.push(Some(row)) {
            VerifyStep::Accept => return Ok(true),
            VerifyStep::Reject => return Ok(false),
            VerifyStep::NextFrame => {}
        }
    }
}

/// A capture of `limits.max_frames` frames, each embedding to `emb` (or to nothing).
fn run_capture(limits: StreamLimits, emb: Option<&Emb>) -> Result<Emb, AppError> {
    let source = MockVideoSource::with_modality(StreamModality::Rgb);
    let (mut session, limits) = open_capture(&source, limits)?;
    let mut collected: Vec<Emb> = Vec::new();
    for _ in 0..limits.max_frames {
        session.next_frame().map_err(AppError::Capture)?;
        if let Some(e) = emb {
            collected.push(e.clone());
        }
    }
    let averaged = collected.first().cloned();
    template_from_capture(collected.len(), averaged)
}

fn run_enroll(health: HealthStatus, store: &mut Stored, emb: Option<&Emb>) -> Result<(), AppError> {
    require_healthy(health)?;
    ensure_not_enrolled(store.load())?;
    let template = run_capture(StreamingPolicy::default().enroll, emb)?;
    let mut bundle = TemplateBundle::empty();
    bundle.push_template(template);
    store.save(&bundle);
    Ok(())
}

fn run_add_template(store: &mut Stored, emb: &Emb) -> Result<(), AppError> {
    require_healthy(HealthStatus::Healthy)?;
    let mut bundle = load_enrolled(store.load())?;
    let template = run_capture(StreamingPolicy::default().enroll, Some(emb))?;
    bundle.push_template(template);
    store.save(&bundle);
    Ok(())
}

const DEGRADED: HealthStatus = HealthStatus::Degraded { reason: "camera offline" };

#[test]
fn ping_ok_when_healthy() {
    assert_eq!(require_healthy(HealthStatus::Healthy), Ok(()));
}

#[test]
fn ping_err_when_degraded() {
    let err = require_healthy(DEGRADED).unwrap_err();
    assert_eq!(err, AppError::Unhealthy("camera offline"));
    assert!(err.message().contains("camera offline"));
    assert_eq!(err.message(), "daemon is not healthy: camera offline");
}

#[test]
fn verify_match() {
    let emb: Emb = vec![5, 5, 0];
    let store = Stored(Some((vec![emb.clone()], vec![])));
    assert_eq!(run_verify(HealthStatus::Healthy, &store, &emb), Ok(true));
}

#[test]
fn verify_mismatch() {
    let store = Stored(Some((vec![vec![1, 0, 0]], vec![])));
    assert_eq!(run_verify(HealthStatus::Healthy, &store, &vec![0, 1, 0]), Ok(false));
}

#[test]
fn enroll_stores_template() {
    let emb: Emb = vec![25, 75, 0];
    let mut store = Stored(None);
    run_enroll(HealthStatus::Healthy, &mut store, Some(&emb)).unwrap();
    let loaded = store.load().unwrap().unwrap();
    assert_eq!(loaded.templates, vec![emb]);
}

#[test]
fn enroll_then_verify_succeeds() {
    let emb: Emb = vec![9, 1, 0];
    let mut store = Stored(None);
    run_enroll(HealthStatus::Healthy, &mut store, Some(&emb)).unwrap();
    assert_eq!(run_verify(HealthStatus::Healthy, &store, &emb), Ok(true));
}

#[test]
fn verify_accepts_when_quorum_met_two_templates_one_match() {
    let t0: Emb = vec![1, 0, 0];
    let t1: Emb = vec![0, 1, 0];
    let store = Stored(Some((vec![t0, t1.clone()], vec![])));
    assert_eq!(run_verify(HealthStatus::Healthy, &store, &t1), Ok(true));
}

#[test]
fn verify_rejects_when_quorum_not_met_three_templates_one_match() {
    let t0: Emb = vec![1, 0, 0];
    let t1: Emb = vec![0, 1, 0];
    let t2: Emb = vec![0, 0, 1];
    let store = Stored(Some((vec![t0, t1, t2.clone()], vec![])));
    assert_eq!(run_verify(HealthStatus::Healthy, &store, &t2), Ok(false));
}

#[test]
fn add_template_requires_prior_enrollment() {
    let mut store = Stored(None);
    assert_eq!(
        run_add_template(&mut store, &vec![1, 0]),
        Err(AppError::Domain(DomainError::NoEnrolledTemplate))
    );
}

#[test]
fn add_template_keeps_first_through_store() {
    let first: Emb = vec![1, 0, 0];
    let second: Emb = vec![0, 1, 0];
    let mut store = Stored(Some((vec![first.clone()], vec![])));
    run_add_template(&mut store, &second).unwrap();
    let all = store.load().unwrap().unwrap();
    assert_eq!(all.templates, vec![first, second]);
}

#[test]
fn enroll_fails_when_unhealthy() {
    let mut store = Stored(None);
    let err = run_enroll(DEGRADED, &mut store, Some(&vec![1, 0])).unwrap_err();
    assert!(err.message().contains("camera offline"));
    assert!(store.0.is_none());
}

#[test]
fn enroll_without_face_stores_nothing() {
    let mut store = Stored(None);
    assert_eq!(
        run_enroll(HealthStatus::Healthy, &mut store, None),
        Err(AppError::Domain(DomainError::NoUsableFaceInCapture))
    );
    assert!(store.0.is_none());
}

#[test]
fn second_enroll_is_refused() {
    let mut store = Stored(None);
    run_enroll(HealthStatus::Healthy, &mut store, Some(&vec![1, 2])).unwrap();
    assert_eq!(
        run_enroll(HealthStatus::Healthy, &mut store, Some(&vec![3, 4])),
        Err(AppError::Domain(DomainError::AlreadyEnrolled))
    );
    assert_eq!(store.load().unwrap().unwrap().templates, vec![vec![1, 2]]);
}
