//! The liveness payload served on the root and health routes.

use vstd::prelude::*;
use vstd::string::*;

verus! {

/// Status word reported while the service is up.
pub const HEALTHY: &'static str = "healthy";

/// Human-readable line that accompanies the status.
pub const RUNNING_MESSAGE: &'static str = "Word Query Backend is running";

/// Body of a health reply.
#[derive(Debug, PartialEq, Eq)]
pub struct HealthResponse {
    pub status: String,
    pub message: String,
}

/// Mathematical value of a [`HealthResponse`].
pub struct HealthResponseView {
    pub status: Seq<char>,
    pub message: Seq<char>,
}

impl View for HealthResponse {
    type V = HealthResponseView;

    open spec fn view(&self) -> HealthResponseView {
        HealthResponseView { status: self.status@, message: self.message@ }
    }
}

/// The one health reply there is.
pub open spec fn health_report() -> HealthResponseView {
    HealthResponseView { status: HEALTHY@, message: RUNNING_MESSAGE@ }
}

/// Builds the health reply. It takes no input and reads no state, so every
/// call yields the same payload with status `healthy`.
pub fn health() -> (report: HealthResponse)
    ensures
        report@ == health_report(),
        report.status@ == HEALTHY@,
{
    HealthResponse {
        status: String::from_str(HEALTHY),
        message: String::from_str(RUNNING_MESSAGE),
    }
}

} // verus!
