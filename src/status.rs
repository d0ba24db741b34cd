use vstd::prelude::*;

verus! {

/// The liveness report of the service.
pub struct StatusReport {
    pub status: String,
    pub message: String,
}

/// The report that the service is up.
pub fn status_report() -> (r: StatusReport)
    ensures
        r.status@ == "ok"@,
        r.message@ == "Secure OS Layer is running"@,
{
    StatusReport {
        status: String::from_str("ok"),
        message: String::from_str("Secure OS Layer is running"),
    }
}

} // verus!
