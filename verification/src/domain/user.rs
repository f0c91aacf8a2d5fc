use vstd::prelude::*;

verus! {

/// A Linux user, identified by uid.
#[derive(Debug, Clone, Copy, PartialEq, Eq, Hash, Structural)]
pub struct UserId(pub u32);

} // verus!
