//! Health check.

use vstd::prelude::*;
use crate::model::common::EnStatus;
use crate::text::copy_text;

verus! {

/// The health of the service: always `pass`.
pub fn get_health() -> (res: EnStatus)
    ensures
        res.status@ == "pass"@,
{
    EnStatus { status: copy_text("pass") }
}

} // verus!
