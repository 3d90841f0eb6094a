//! Protobom documents.

use vstd::prelude::*;
use crate::util::validation_util::Message;

verus! {

/// A protobom document.
pub struct Document {}

impl Document {
    /// Converts the document to protobom; there is nothing to convert yet, so it
    /// always succeeds.
    pub fn to_protobom(&self) -> (res: Result<(), Message>)
        ensures
            res is Ok,
    {
        Ok(())
    }
}

} // verus!
