//! The request body union and the authenticated client's token state.

use vstd::prelude::*;
use vstd::string::StrSliceExecFns;

verus! {

/// A request body: either raw bytes (a file chunk) or text (a JSON
/// document). The HTTP-issuing layer accepts both uniformly.
#[derive(Clone)]
pub enum B {
    Vec(Vec<u8>),
    String(String),
}

/// The state of the authenticated HTTP client: the current bearer token.
/// An empty token means none has been fetched yet. The token is only ever
/// replaced wholesale; a refresh installs the newly issued token and
/// discards the stale one.
pub struct ClientState {
    pub token: String,
}

impl ClientState {
    /// True when no token has been fetched yet.
    pub open spec fn has_token(self) -> bool {
        self.token@.len() > 0
    }

    /// A client that has not authenticated yet.
    pub fn new() -> (c: ClientState)
        ensures
            !c.has_token(),
    {
        ClientState { token: String::new() }
    }

    /// The lazy-authentication decision: a token must be fetched before the
    /// first request when none is held yet.
    pub fn needs_token(&self) -> (b: bool)
        ensures
            b <==> !self.has_token(),
    {
        self.token.as_str().is_empty()
    }

    /// Installs a freshly issued token, replacing the previous one
    /// wholesale. All later requests carry exactly this token.
    pub fn install_token(&mut self, token: String)
        ensures
            final(self).token == token,
    {
        self.token = token;
    }
}

/// Character-for-character equality of two strings.
fn str_eq(a: &str, b: &str) -> (r: bool)
    ensures
        r <==> a@ == b@,
{
    let n: usize = a.unicode_len();
    if n != b.unicode_len() {
        return false;
    }
    let mut i: usize = 0;
    while i < n
        invariant
            0 <= i <= n,
            n == a@.len(),
            n == b@.len(),
            forall|j: int| 0 <= j < i ==> a@[j] == b@[j],
        decreases n - i,
    {
        if a.get_char(i) != b.get_char(i) {
            return false;
        }
        i = i + 1;
    }
    proof {
        assert(a@ =~= b@);
    }
    true
}

/// The HTTP verb of one request.
#[derive(Clone, Copy, PartialEq, Eq, Structural, Debug)]
pub enum HttpMethod {
    Get,
    Post,
    Put,
    Delete,
    Head,
    Patch,
}

/// Chooses the HTTP verb from its configured name; anything unnamed or
/// unrecognised is issued as a GET.
pub fn parse_method(method: Option<&str>) -> (r: HttpMethod)
    ensures
        method is None ==> r == HttpMethod::Get,
        method matches Some(m) ==> {
            &&& (m@ == "post"@ ==> r == HttpMethod::Post)
            &&& (m@ == "put"@ ==> r == HttpMethod::Put)
            &&& (m@ == "delete"@ ==> r == HttpMethod::Delete)
            &&& (m@ == "get"@ ==> r == HttpMethod::Get)
            &&& (m@ == "head"@ ==> r == HttpMethod::Head)
            &&& (m@ == "patch"@ ==> r == HttpMethod::Patch)
            &&& ((m@ != "post"@ && m@ != "put"@ && m@ != "delete"@ && m@ != "get"@
                && m@ != "head"@ && m@ != "patch"@) ==> r == HttpMethod::Get)
        },
{
    proof {
        reveal_strlit("post");
        reveal_strlit("put");
        reveal_strlit("delete");
        reveal_strlit("get");
        reveal_strlit("head");
        reveal_strlit("patch");
        assert("post"@.len() == 4 && "put"@.len() == 3 && "delete"@.len() == 6
            && "get"@.len() == 3 && "head"@.len() == 4 && "patch"@.len() == 5);
        assert("put"@[0] == 'p' && "get"@[0] == 'g');
        assert("post"@[1] == 'o' && "head"@[1] == 'e');
        assert("put"@ != "get"@);
        assert("post"@ != "head"@);
    }
    match method {
        None => HttpMethod::Get,
        Some(m) => {
            if str_eq(m, "post") {
                HttpMethod::Post
            } else if str_eq(m, "put") {
                HttpMethod::Put
            } else if str_eq(m, "delete") {
                HttpMethod::Delete
            } else if str_eq(m, "head") {
                HttpMethod::Head
            } else if str_eq(m, "patch") {
                HttpMethod::Patch
            } else {
                HttpMethod::Get
            }
        }
    }
}

} // verus!
