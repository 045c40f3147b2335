//! The payloads of the status and verification requests.

use vstd::prelude::*;
use crate::challenge::{status_label, DomainStatus};

verus! {

/// A status request: which pair to report on.
pub struct DomainStatusQuery {
    /// The user asking.
    pub user_id: String,
    /// The domain asked about.
    pub domain: String,
}

/// A status report.
pub struct DomainStatusResponse {
    /// `verified`, `pending` or `not found`.
    pub status: String,
}

/// A verification request.
pub struct VerificationRequest {
    /// The user asking.
    pub user_id: String,
    /// The domain to check.
    pub domain: String,
}

impl DomainStatusResponse {
    /// The report of a status.
    pub fn for_status(status: DomainStatus) -> (r: DomainStatusResponse)
        ensures
            r.status@ == status_label(status),
    {
        DomainStatusResponse { status: status.label() }
    }
}

} // verus!
