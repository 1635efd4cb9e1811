//! The response logic of the simulated fetch capability. The capability's
//! only implementation ignores the URL, waits a fixed delay, and resolves
//! with a fixed success payload; the delay and the suspension live outside
//! this library, which states what the call resolves with.

use vstd::prelude::*;
use vstd::string::StringExecFns;

verus! {

/// The error a failed fetch would carry. The simulated client never produces
/// one, but the capability's contract allows it, so callers must handle it.
#[derive(Debug, Clone)]
pub struct FetchError {
    pub message: String,
}

/// The fixed text every successful simulated fetch resolves with.
pub open spec fn success_payload() -> Seq<char> {
    "{\"status\": \"success\", \"data\": [1,2,3,4,5]}"@
}

/// The simulated remote client. It keeps no state, so repeated calls cannot
/// differ.
pub struct ApiClient;

impl ApiClient {
    /// The value the simulated fetch resolves with: for every URL text, success
    /// carrying exactly the fixed payload.
    pub fn response_for(&self, url: &str) -> (r: Result<String, FetchError>)
        ensures
            r matches Ok(data) && data@ == success_payload(),
    {
        Ok(String::from_str("{\"status\": \"success\", \"data\": [1,2,3,4,5]}"))
    }
}

} // verus!
