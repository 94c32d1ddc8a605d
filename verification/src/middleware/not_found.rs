//! What is answered to a request for a route that does not exist.

use vstd::prelude::*;

verus! {

/// The body of the answer to a request for a route that does not exist. It
/// is the same for every such request.
#[derive(Debug, PartialEq, Eq)]
pub struct NotFoundBody {
    pub success: bool,
    pub message: String,
    pub http_status_code: u16,
    pub error: String,
    /// The name under which the service runs, or `Unknown`.
    pub service: String,
}

/// The answer to a request for a route that does not exist, for a service
/// that runs under the given name, if it has one.
pub fn not_found(service_name: Option<String>) -> (body: NotFoundBody)
    ensures
        !body.success,
        body.message@ == "Route does not exist"@,
        body.http_status_code == 404,
        body.error@ == "NOT_FOUND_ERROR"@,
        body.service@ == match service_name {
            Some(name) => name@,
            None => "Unknown"@,
        },
{
    NotFoundBody {
        success: false,
        message: "Route does not exist".to_owned(),
        http_status_code: 404,
        error: "NOT_FOUND_ERROR".to_owned(),
        service: match service_name {
            Some(name) => name,
            None => "Unknown".to_owned(),
        },
    }
}

} // verus!
