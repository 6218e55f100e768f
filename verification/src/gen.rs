//! Fresh identifiers and room codes, drawn from the process-wide random
//! source. Nothing here is deterministic, so the contracts state only what
//! holds of every outcome.

use vstd::prelude::*;
use crate::room::is_code_char;
use rand::distr::SampleString;

verus! {

/// Relies on uuid's `Uuid::new_v4` for fresh identifiers; the id is handed
/// on as its 128-bit value. Nothing is promised of a random value.
#[verifier::external_body]
pub(crate) fn fresh_id() -> (r: u128) {
    uuid::Uuid::new_v4().as_u128()
}

/// Relies on rand's `Alphanumeric` distribution: `sample_string` returns
/// exactly the requested number of characters, each drawn from a-z, A-Z
/// and 0-9.
#[verifier::external_body]
pub(crate) fn random_room_code() -> (r: String)
    ensures
        r@.len() == 7,
        forall|i: int| 0 <= i < r@.len() ==> is_code_char(#[trigger] r@[i]),
{
    rand::distr::Alphanumeric.sample_string(&mut rand::rng(), 7)
}

} // verus!
