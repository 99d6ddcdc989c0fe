//! How the answer of the index to one publish is judged.

use vstd::prelude::*;

verus! {

/// A publish that did not succeed.
#[derive(Debug, Clone, Copy, PartialEq, Eq, Structural)]
pub enum PublishError {
    /// The index answered with a status outside the success range.
    Status(u16),
    /// No answer came: the connection failed or timed out.
    Transport,
}

/// A status counts as success exactly when it is in the 2xx range.
pub open spec fn is_success(status: u16) -> bool {
    200 <= status <= 299
}

/// Judges the status that the index answered with.
pub fn check_status(status: u16) -> (r: Result<(), PublishError>)
    ensures
        is_success(status) ==> r is Ok,
        !is_success(status) ==> r == Err::<(), PublishError>(PublishError::Status(status)),
{
    if 200 <= status && status <= 299 {
        Ok(())
    } else {
        Err(PublishError::Status(status))
    }
}

} // verus!
