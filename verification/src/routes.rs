use vstd::prelude::*;

verus! {

/// An error payload the HTTP layer sends back for a rejected request.
pub struct Error<'s> {
    pub name: &'s str,
    pub description: &'s str,
}

/// The body of a visit registration request, as plain values. The HTTP
/// layer decodes the wire format and hands this to the core.
pub struct VisitInfo {
    pub path: String,
    pub domain: String,
    pub consent: bool,
    pub session_id: Option<String>,
}

/// The body of a download registration request, as plain values.
pub struct DownloadInfo {
    pub mod_id: String,
    pub version_id: String,
    pub file_name: String,
    pub ip: String,
    pub user_agent: String,
}

} // verus!
