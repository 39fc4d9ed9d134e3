//! The client-credentials token exchange: the form the token endpoint is
//! asked with, and the reading of its response.

use vstd::prelude::*;
use vstd::string::StringExecFns;
use crate::json::{json_str_field, json_string_field};

verus! {

/// Token acquisition failed: the token endpoint's response was not a JSON
/// object with an `access_token` string field. Fatal for the whole run,
/// since no later request can be authenticated.
#[derive(Clone, Copy, PartialEq, Eq, Structural, Debug)]
pub enum AuthError {
    MalformedTokenResponse,
}

/// The form fields of the client-credentials token request, in order:
/// `client_id`, `client_secret`, `scope`, and `grant_type=client_credentials`.
pub fn gen_form_data(appid: &str, secret: &str, ms_graph_scope: &str) -> (form: Vec<(String, String)>)
    ensures
        form@.len() == 4,
        form@[0].0@ == "client_id"@ && form@[0].1@ == appid@,
        form@[1].0@ == "client_secret"@ && form@[1].1@ == secret@,
        form@[2].0@ == "scope"@ && form@[2].1@ == ms_graph_scope@,
        form@[3].0@ == "grant_type"@ && form@[3].1@ == "client_credentials"@,
{
    let mut form: Vec<(String, String)> = Vec::new();
    form.push((String::from_str("client_id"), String::from_str(appid)));
    form.push((String::from_str("client_secret"), String::from_str(secret)));
    form.push((String::from_str("scope"), String::from_str(ms_graph_scope)));
    form.push((String::from_str("grant_type"), String::from_str("client_credentials")));
    form
}

/// Extracts the bearer token from the token endpoint's response body: the
/// `access_token` string field of the JSON document, or `AuthError` when
/// the body has no such field.
pub fn token_from_response(body: &str) -> (r: Result<String, AuthError>)
    ensures
        r is Ok <==> json_str_field(body@, "access_token"@) is Some,
        r matches Ok(t) ==> json_str_field(body@, "access_token"@) == Some(t@),
        r matches Err(e) ==> e == AuthError::MalformedTokenResponse,
{
    match json_string_field(body, "access_token") {
        Some(t) => Ok(t),
        None => Err(AuthError::MalformedTokenResponse),
    }
}

} // verus!
