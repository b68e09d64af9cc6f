use vstd::prelude::*;

verus! {

/// What the transport hands back for one fetch: the HTTP status code and the
/// raw body.
#[derive(Debug, PartialEq, Eq)]
pub struct FetchResponse {
    pub status: u16,
    pub bytes: Vec<u8>,
}

/// A status code in the 2xx range.
pub open spec fn status_succeeded(status: u16) -> bool {
    200 <= status <= 299
}

impl FetchResponse {
    /// Whether the fetch was fulfilled: its status is in the 2xx range.
    pub fn is_ok(&self) -> (r: bool)
        ensures
            r == status_succeeded(self.status),
    {
        self.status >= 200 && self.status <= 299
    }
}

} // verus!
