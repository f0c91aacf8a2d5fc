//! Naming of the per-user template files.

use vstd::prelude::*;

use crate::domain::user::UserId;
use crate::text::{decimal_string, spec_decimal};

verus! {

/// File name of a user's templates: the uid in decimal, then `.json`.
pub fn template_file_name(user: &UserId) -> (r: String)
    ensures
        r@ == spec_decimal(user.0 as nat) + ".json"@,
{
    decimal_string(user.0 as u64).concat(".json")
}

} // verus!
