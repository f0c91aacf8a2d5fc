use vstd::prelude::*;

verus! {

/// A biometric verifier that can name itself.
pub trait BiometricVerifier: Send + Sync {
    fn label(&self) -> &str;
}

} // verus!
