//! Opening a resumable upload session for one destination file, with the
//! single-retry policy on an unauthorized response.

use vstd::prelude::*;
use vstd::string::StringExecFns;
use crate::json::{json_str_field, json_string_field};
use crate::request::B;

verus! {

/// Session creation failed: the provider rejected the request with the
/// given status (after the one allowed retry when it was unauthorized), or
/// answered success without an `uploadUrl` field, or the transport itself
/// failed. The file is abandoned; the run continues with the next file.
#[derive(Clone, Copy, PartialEq, Eq, Structural, Debug)]
pub enum SessionError {
    Rejected(u16),
    MissingUploadUrl,
    Transport,
}

/// Root of the provider's API.
pub open spec fn api_root_spec() -> Seq<char> {
    "https://graph.microsoft.com/v1.0/"@
}

/// The target URL of a session-creation request: API root, drive
/// identifier, folder path and destination file name, followed by the
/// provider's action suffix.
pub open spec fn session_url_spec(drive: Seq<char>, folder: Seq<char>, name: Seq<char>) -> Seq<char> {
    api_root_spec() + drive + folder + name + ":/createUploadSession"@
}

/// The JSON body of a session-creation request: it asks for the
/// rename-on-conflict policy.
pub open spec fn session_body_spec() -> Seq<char> {
    "{\"@microsoft.graph.conflictBehavior\":\"rename\"}"@
}

/// One session-creation request: target URL and JSON body.
pub struct SessionRequest {
    pub url: String,
    pub body: B,
}

impl SessionRequest {
    /// The request is the one the protocol prescribes for this destination.
    pub open spec fn wf(self, drive: Seq<char>, folder: Seq<char>, name: Seq<char>) -> bool {
        &&& self.url@ == session_url_spec(drive, folder, name)
        &&& self.body matches B::String(b) && b@ == session_body_spec()
    }
}

/// Builds the session-creation request for one destination file.
pub fn build_session_request(drive: &str, folder: &str, file_name: &str) -> (r: SessionRequest)
    ensures
        r.wf(drive@, folder@, file_name@),
{
    let mut url = String::from_str("https://graph.microsoft.com/v1.0/");
    url.append(drive);
    url.append(folder);
    url.append(file_name);
    url.append(":/createUploadSession");
    let body = String::from_str("{\"@microsoft.graph.conflictBehavior\":\"rename\"}");
    proof {
        assert(url@ =~= session_url_spec(drive@, folder@, file_name@));
    }
    SessionRequest { url, body: B::String(body) }
}

/// One file's session-creation process: the request it sends (fixed for
/// the whole process) and whether the one allowed retry has been spent.
pub struct SessionAttempt {
    pub request: SessionRequest,
    pub retried: bool,
}

/// What the caller must do after a session-creation response.
#[derive(Clone, Copy, PartialEq, Eq, Structural, Debug)]
pub enum SessionStep {
    /// Success: parse the response body for the upload URL.
    Accepted,
    /// Unauthorized, retry not yet spent: refresh the token exactly once,
    /// then send the identical request once more.
    RefreshAndRetry,
    /// Give up on this file.
    Failed(SessionError),
}

/// Starts session creation for one destination file.
pub fn start_session(drive: &str, folder: &str, file_name: &str) -> (a: SessionAttempt)
    ensures
        a.request.wf(drive@, folder@, file_name@),
        !a.retried,
{
    SessionAttempt { request: build_session_request(drive, folder, file_name), retried: false }
}

/// The session machine's transition: the state and directive that follow
/// one session-creation response.
pub open spec fn session_next_spec(a: SessionAttempt, status: u16) -> (SessionAttempt, SessionStep) {
    let next = SessionAttempt { request: a.request, retried: a.retried || status == 401 };
    if status == 200 {
        (next, SessionStep::Accepted)
    } else if status == 401 && !a.retried {
        (next, SessionStep::RefreshAndRetry)
    } else if status == 401 {
        (next, SessionStep::Failed(SessionError::Rejected(401)))
    } else {
        (next, SessionStep::Failed(SessionError::Rejected(status)))
    }
}

/// Decides what follows a session-creation response: success is accepted,
/// the first unauthorized response buys exactly one token refresh and one
/// resend of the identical request, and everything else abandons the file.
/// The request is never altered, so a retry reuses the same URL and body.
pub fn session_response(a: &mut SessionAttempt, status: u16) -> (step: SessionStep)
    ensures
        *final(a) == session_next_spec(*old(a), status).0,
        step == session_next_spec(*old(a), status).1,
        final(a).request == old(a).request,
        final(a).retried == (old(a).retried || status == 401),
        status == 200 ==> step == SessionStep::Accepted,
        status == 401 && !old(a).retried ==> step == SessionStep::RefreshAndRetry,
        status == 401 && old(a).retried ==> step == SessionStep::Failed(SessionError::Rejected(401)),
        status != 200 && status != 401 ==> step == SessionStep::Failed(SessionError::Rejected(status)),
{
    if status == 200 {
        SessionStep::Accepted
    } else if status == 401 {
        let spent = a.retried;
        a.retried = true;
        if spent {
            SessionStep::Failed(SessionError::Rejected(401))
        } else {
            SessionStep::RefreshAndRetry
        }
    } else {
        SessionStep::Failed(SessionError::Rejected(status))
    }
}

/// An unauthorized response during session creation results in exactly one
/// token refresh before the next attempt: the first `401` — and nothing
/// else — yields the refresh directive, the retried request is identical
/// to the first, and the machine never asks for a second refresh, whatever
/// the retry's outcome.
pub proof fn lemma_session_refresh_once(a: SessionAttempt, s1: u16, s2: u16)
    requires
        !a.retried,
    ensures
        ({
            let (a1, d1) = session_next_spec(a, s1);
            let (a2, d2) = session_next_spec(a1, s2);
            &&& (d1 == SessionStep::RefreshAndRetry <==> s1 == 401)
            &&& a1.request == a.request
            &&& a2.request == a.request
            &&& (s1 == 401 ==> d2 != SessionStep::RefreshAndRetry)
        }),
{
}

/// Extracts the upload URL from an accepted session-creation response: the
/// `uploadUrl` string field of the JSON body, or `SessionError` when the
/// body has no such field.
pub fn upload_url_from_response(body: &str) -> (r: Result<String, SessionError>)
    ensures
        r is Ok <==> json_str_field(body@, "uploadUrl"@) is Some,
        r matches Ok(u) ==> json_str_field(body@, "uploadUrl"@) == Some(u@),
        r matches Err(e) ==> e == SessionError::MissingUploadUrl,
{
    match json_string_field(body, "uploadUrl") {
        Some(u) => Ok(u),
        None => Err(SessionError::MissingUploadUrl),
    }
}

} // verus!
