use onedrive_uploader::auth::{gen_form_data, token_from_response, AuthError};
use onedrive_uploader::paths::file_name_of;
use onedrive_uploader::request::{parse_method, ClientState, HttpMethod, B};
use onedrive_uploader::session::{
    session_response, start_session, upload_url_from_response, SessionError, SessionStep,
};

#[test]
fn form_data_carries_the_client_credentials_grant() {
    let form = gen_form_data("my-app", "my-secret", "https://graph.microsoft.com/.default");
    assert_eq!(form.len(), 4);
    assert_eq!(form[0], ("client_id".to_string(), "my-app".to_string()));
    assert_eq!(form[1], ("client_secret".to_string(), "my-secret".to_string()));
    assert_eq!(
        form[2],
        ("scope".to_string(), "https://graph.microsoft.com/.default".to_string())
    );
    assert_eq!(
        form[3],
        ("grant_type".to_string(), "client_credentials".to_string())
    );
}

#[test]
fn token_is_read_from_the_response_body() {
    let r = token_from_response("{\"access_token\":\"tok-1\",\"expires_in\":3599}");
    assert_eq!(r, Ok("tok-1".to_string()));
}

#[test]
fn response_without_access_token_is_an_auth_error() {
    let r = token_from_response("{\"token_type\":\"Bearer\"}");
    assert_eq!(r, Err(AuthError::MalformedTokenResponse));
}

#[test]
fn unparseable_token_response_is_an_auth_error() {
    let r = token_from_response("not json at all");
    assert_eq!(r, Err(AuthError::MalformedTokenResponse));
}

#[test]
fn session_request_targets_the_create_session_url() {
    let a = start_session("drives/d1/root:/", "backup/", "photo.jpg");
    assert_eq!(
        a.request.url,
        "https://graph.microsoft.com/v1.0/drives/d1/root:/backup/photo.jpg:/createUploadSession"
    );
    match &a.request.body {
        B::String(s) => {
            assert_eq!(s, "{\"@microsoft.graph.conflictBehavior\":\"rename\"}")
        }
        B::Vec(_) => panic!("session body must be text"),
    }
    assert!(!a.retried);
}

#[test]
fn unauthorized_session_is_retried_once_with_the_same_request() {
    let mut a = start_session("drives/d1/root:/", "backup/", "photo.jpg");
    let url_before = a.request.url.clone();
    let step = session_response(&mut a, 401);
    assert_eq!(step, SessionStep::RefreshAndRetry);
    assert!(a.retried);
    assert_eq!(a.request.url, url_before);
    match &a.request.body {
        B::String(s) => {
            assert_eq!(s, "{\"@microsoft.graph.conflictBehavior\":\"rename\"}")
        }
        B::Vec(_) => panic!("session body must be text"),
    }
    // The retry succeeds: the file proceeds to chunk transfer.
    let step = session_response(&mut a, 200);
    assert_eq!(step, SessionStep::Accepted);
}

#[test]
fn second_unauthorized_session_response_fails_the_file() {
    let mut a = start_session("d", "f/", "n");
    assert_eq!(session_response(&mut a, 401), SessionStep::RefreshAndRetry);
    assert_eq!(
        session_response(&mut a, 401),
        SessionStep::Failed(SessionError::Rejected(401))
    );
}

#[test]
fn non_success_session_status_fails_the_file() {
    let mut a = start_session("d", "f/", "n");
    assert_eq!(
        session_response(&mut a, 507),
        SessionStep::Failed(SessionError::Rejected(507))
    );
}

#[test]
fn upload_url_is_read_from_the_session_response() {
    let r = upload_url_from_response("{\"uploadUrl\":\"https://up.example/s1\"}");
    assert_eq!(r, Ok("https://up.example/s1".to_string()));
    let r = upload_url_from_response("{\"ok\":true}");
    assert_eq!(r, Err(SessionError::MissingUploadUrl));
}

#[test]
fn client_fetches_token_lazily_and_replaces_it_wholesale() {
    let mut c = ClientState::new();
    assert!(c.needs_token());
    c.install_token("first".to_string());
    assert!(!c.needs_token());
    assert_eq!(c.token, "first");
    c.install_token("second".to_string());
    assert_eq!(c.token, "second");
}

#[test]
fn method_names_choose_the_http_verb() {
    assert_eq!(parse_method(Some("post")), HttpMethod::Post);
    assert_eq!(parse_method(Some("put")), HttpMethod::Put);
    assert_eq!(parse_method(Some("delete")), HttpMethod::Delete);
    assert_eq!(parse_method(Some("get")), HttpMethod::Get);
    assert_eq!(parse_method(Some("head")), HttpMethod::Head);
    assert_eq!(parse_method(Some("patch")), HttpMethod::Patch);
    assert_eq!(parse_method(Some("options")), HttpMethod::Get);
    assert_eq!(parse_method(None), HttpMethod::Get);
}

#[test]
fn file_name_is_the_final_component() {
    assert_eq!(file_name_of("dir/sub/report.pdf"), Some("report.pdf".to_string()));
    assert_eq!(file_name_of("report.pdf"), Some("report.pdf".to_string()));
    assert_eq!(file_name_of("./report.pdf"), Some("report.pdf".to_string()));
    assert_eq!(file_name_of(".hidden"), Some(".hidden".to_string()));
    // Trailing separators and `.` segments are ignored, as the platform's
    // path rules have it.
    assert_eq!(file_name_of("dir/"), Some("dir".to_string()));
    assert_eq!(file_name_of("dir/sub//"), Some("sub".to_string()));
    assert_eq!(file_name_of("a/."), Some("a".to_string()));
    assert_eq!(file_name_of("a/./"), Some("a".to_string()));
    assert_eq!(file_name_of("a/.//."), Some("a".to_string()));
}

#[test]
fn paths_without_a_usable_name_are_refused() {
    assert_eq!(file_name_of(""), None);
    assert_eq!(file_name_of("/"), None);
    assert_eq!(file_name_of("//"), None);
    assert_eq!(file_name_of("."), None);
    assert_eq!(file_name_of("./"), None);
    assert_eq!(file_name_of(".."), None);
    assert_eq!(file_name_of("a/.."), None);
    assert_eq!(file_name_of("a/../"), None);
}
