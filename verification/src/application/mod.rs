//! Application decisions: quorum verification, stream limits, and the rules of
//! `ping`, `enroll`, `verify` and `add_template`.

pub mod error;
pub mod pipeline;
pub mod verification_decision;
pub mod app;
