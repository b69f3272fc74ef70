//! Authentication: credentials, the login request, and the session
//! headers that a successful login yields.

use vstd::prelude::*;

use crate::json::{json_escaped, json_string_literal, law_read_back_escaped, read_json_string, to_json_string};
use crate::text::chars_of;
use crate::{is_auth_failure_status, is_success_status, status_is_auth_failure, status_is_success};
use crate::{RequestError, UnifiProtectClient};

verus! {

/// A secret text, kept in a `secrecy::SecretString` so that it is wiped
/// from memory when dropped and never shown by accident.
#[verifier::external_body]
pub struct Secret {
    inner: secrecy::SecretString,
}

/// The text that a `Secret` holds.
pub uninterp spec fn secret_text(secret: Secret) -> Seq<char>;

impl Secret {
    /// Calls `secrecy::SecretString::from(&str)`, which boxes a copy of the
    /// text.  Claims that the secret holds `text`.
    #[verifier::external_body]
    pub(crate) fn from_text(text: &str) -> (secret: Secret)
        ensures
            secret_text(secret) == text@,
    {
        Secret { inner: secrecy::SecretString::from(text) }
    }

    /// Calls `secrecy::ExposeSecret::expose_secret`, which hands out the
    /// boxed text.  Claims that the result is the text the secret holds.
    #[verifier::external_body]
    pub(crate) fn expose(&self) -> (text: &str)
        ensures
            text@ == secret_text(*self),
    {
        secrecy::ExposeSecret::expose_secret(&self.inner)
    }
}

/// Secure storage for authentication credentials.
pub struct AuthCredentials {
    /// Username for authentication (securely stored)
    pub username: Secret,
    /// Password for authentication (securely stored)
    pub password: Secret,
}

/// The body of the login request: a JSON object with the password and the
/// username, keys in sorted order, as serde_json writes a `json!` object.
pub open spec fn login_body_text(username: Seq<char>, password: Seq<char>) -> Seq<char> {
    "{\"password\":"@ + json_string_literal(password) + ",\"username\":"@
        + json_string_literal(username) + "}"@
}

/// Reads the username and the password back out of a login body: the
/// object must hold, in this order, the password field and the username
/// field, each a JSON string, and nothing after them.
pub open spec fn login_fields(body: Seq<char>) -> Option<(Seq<char>, Seq<char>)> {
    let head = "{\"password\":"@;
    let middle = ",\"username\":"@;
    if body.len() > head.len() && body.take(head.len() as int) == head && body[head.len() as int] == '"' {
        match read_json_string(body.skip((head.len() + 1) as int)) {
            Some((password, n)) => {
                let rest = body.skip((head.len() + 1 + n) as int);
                if rest.len() > middle.len() && rest.take(middle.len() as int) == middle
                    && rest[middle.len() as int] == '"' {
                    match read_json_string(rest.skip((middle.len() + 1) as int)) {
                        Some((username, m)) => if rest.skip((middle.len() + 1 + m) as int) == "}"@ {
                            Some((username, password))
                        } else {
                            None
                        },
                        None => None,
                    }
                } else {
                    None
                }
            },
            None => None,
        }
    } else {
        None
    }
}

/// The login body carries the whole username and the whole password:
/// reading its fields back gives exactly the credentials it was made from.
pub proof fn law_login_body_reads_back(username: Seq<char>, password: Seq<char>)
    ensures
        login_fields(login_body_text(username, password)) == Some((username, password)),
{
    let head = "{\"password\":"@;
    let middle = ",\"username\":"@;
    let close = "}"@;
    let lp = json_string_literal(password);
    let lu = json_string_literal(username);
    let body = login_body_text(username, password);
    let after_password = middle + lu + close;
    assert(body =~= head + (seq!['"'] + json_escaped(password) + seq!['"']) + after_password);
    assert(body.take(head.len() as int) =~= head);
    assert(body[head.len() as int] == '"');
    assert(body.skip((head.len() + 1) as int) =~= json_escaped(password) + seq!['"'] + after_password);
    law_read_back_escaped(password, after_password);
    let n = json_escaped(password).len() + 1;
    let rest = body.skip((head.len() + 1 + n) as int);
    assert(rest =~= after_password);
    assert(rest =~= middle + (seq!['"'] + json_escaped(username) + seq!['"']) + close);
    assert(rest.take(middle.len() as int) =~= middle);
    assert(rest[middle.len() as int] == '"');
    assert(rest.skip((middle.len() + 1) as int) =~= json_escaped(username) + seq!['"'] + close);
    law_read_back_escaped(username, close);
    let m = json_escaped(username).len() + 1;
    assert(rest.skip((middle.len() + 1 + m) as int) =~= close);
}

/// Different credentials give different login bodies.
pub proof fn law_login_body_injective(u1: Seq<char>, p1: Seq<char>, u2: Seq<char>, p2: Seq<char>)
    requires
        login_body_text(u1, p1) == login_body_text(u2, p2),
    ensures
        u1 == u2,
        p1 == p2,
{
    law_login_body_reads_back(u1, p1);
    law_login_body_reads_back(u2, p2);
}

/// One header of an HTTP answer: its name and its raw value.
pub struct ResponseHeader {
    pub name: String,
    pub value: Vec<u8>,
}

/// The headers that authenticate every request of a session: the CSRF token
/// and the session cookie that the login answer handed out.
pub struct SessionHeaders {
    /// Sent as `X-CSRF-Token`.
    pub csrf_token: Vec<u8>,
    /// Sent as `Cookie`.
    pub cookie: Vec<u8>,
}

/// The code of `c`, with an ASCII capital letter taken as its small letter.
pub open spec fn folded_code(c: char) -> u32 {
    let code = c as u32;
    if 65 <= code && code <= 90 {
        (code + 32) as u32
    } else {
        code
    }
}

/// Two header names are the same name: equal but for ASCII case.
pub open spec fn same_header_name(a: Seq<char>, b: Seq<char>) -> bool {
    &&& a.len() == b.len()
    &&& forall|i: int| 0 <= i < a.len() ==> #[trigger] folded_code(a[i]) == folded_code(b[i])
}

/// The value of the first header named `name` (ignoring ASCII case).
pub open spec fn header_value(headers: Seq<ResponseHeader>, name: Seq<char>) -> Option<Seq<u8>>
    decreases headers.len(),
{
    if headers.len() == 0 {
        None
    } else if same_header_name(headers[0].name@, name) {
        Some(headers[0].value@)
    } else {
        header_value(headers.drop_first(), name)
    }
}

/// Whether `a` and `b` are the same header name, ignoring ASCII case.
pub fn header_names_match(a: &str, b: &str) -> (r: bool)
    ensures
        r == same_header_name(a@, b@),
{
    let a_chars = chars_of(a);
    let b_chars = chars_of(b);
    if a_chars.len() != b_chars.len() {
        return false;
    }
    let n = a_chars.len();
    let mut i: usize = 0;
    while i < n
        invariant
            n == a_chars@.len() == b_chars@.len(),
            a_chars@ == a@,
            b_chars@ == b@,
            i <= n,
            forall|j: int| 0 <= j < i ==> #[trigger] folded_code(a@[j]) == folded_code(b@[j]),
        decreases n - i,
    {
        let x: u32 = a_chars[i] as u32;
        let y: u32 = b_chars[i] as u32;
        let fx: u32 = if 65 <= x && x <= 90 { x + 32 } else { x };
        let fy: u32 = if 65 <= y && y <= 90 { y + 32 } else { y };
        if fx != fy {
            assert(folded_code(a@[i as int]) != folded_code(b@[i as int]));
            return false;
        }
        i = i + 1;
    }
    true
}

/// The value of the first of `headers` named `name`, ignoring ASCII case.
pub fn find_header(headers: &Vec<ResponseHeader>, name: &str) -> (r: Option<Vec<u8>>)
    ensures
        r matches Some(v) ==> header_value(headers@, name@) == Some(v@),
        r is None ==> header_value(headers@, name@) is None,
{
    let mut i: usize = 0;
    assert(headers@.subrange(0, headers@.len() as int) =~= headers@);
    while i < headers.len()
        invariant
            i <= headers@.len(),
            header_value(headers@, name@) == header_value(headers@.subrange(i as int, headers@.len() as int), name@),
        decreases headers@.len() - i,
    {
        let ghost rest = headers@.subrange(i as int, headers@.len() as int);
        assert(rest.drop_first() =~= headers@.subrange(i + 1, headers@.len() as int));
        assert(rest[0] == headers@[i as int]);
        if header_names_match(headers[i].name.as_str(), name) {
            return Some(headers[i].value.clone());
        }
        i = i + 1;
    }
    assert(headers@.subrange(i as int, headers@.len() as int).len() == 0);
    None
}

/// What a login answer with `status` and `headers` yields: the session
/// headers of a successful login that handed out both a CSRF token and a
/// session cookie; `Unauthorized` for 401 or 403; `Unknown` otherwise.
pub fn session_from_login(status: u16, headers: &Vec<ResponseHeader>) -> (r: Result<SessionHeaders, RequestError>)
    ensures
        !is_success_status(status) && is_auth_failure_status(status) ==> r matches Err(RequestError::Unauthorized),
        !is_success_status(status) && !is_auth_failure_status(status) ==> r matches Err(RequestError::Unknown),
        is_success_status(status) ==> match (
            header_value(headers@, "X-CSRF-Token"@),
            header_value(headers@, "Set-Cookie"@),
        ) {
            (Some(token), Some(cookie)) => r matches Ok(s) && s.csrf_token@ == token && s.cookie@ == cookie,
            _ => r matches Err(RequestError::Unknown),
        },
{
    if !status_is_success(status) {
        if status_is_auth_failure(status) {
            return Err(RequestError::Unauthorized);
        } else {
            return Err(RequestError::Unknown);
        }
    }
    let token = match find_header(headers, "X-CSRF-Token") {
        Some(v) => v,
        None => { return Err(RequestError::Unknown); },
    };
    let cookie = match find_header(headers, "Set-Cookie") {
        Some(v) => v,
        None => { return Err(RequestError::Unknown); },
    };
    Ok(SessionHeaders { csrf_token: token, cookie })
}

impl SessionHeaders {
    /// The headers to send with every request of the session, by name:
    /// the CSRF token as `X-CSRF-Token` and the session cookie as `Cookie`.
    pub fn request_headers(&self) -> (r: Vec<(String, Vec<u8>)>)
        ensures
            r@.len() == 2,
            r@[0].0@ == "X-CSRF-Token"@,
            r@[0].1@ == self.csrf_token@,
            r@[1].0@ == "Cookie"@,
            r@[1].1@ == self.cookie@,
    {
        let mut r: Vec<(String, Vec<u8>)> = Vec::new();
        r.push((String::from_str("X-CSRF-Token"), self.csrf_token.clone()));
        r.push((String::from_str("Cookie"), self.cookie.clone()));
        r
    }
}

impl UnifiProtectClient {
    /// The address of the login endpoint: `{host}/api/auth/login`.
    pub fn login_url(&self) -> (url: String)
        ensures
            url@ == self.host@ + "/api/auth/login"@,
    {
        let mut url = self.host.clone();
        url.append("/api/auth/login");
        url
    }

    /// The body of the login request, which carries the credentials.
    pub fn login_body(&self) -> (body: String)
        ensures
            body@ == login_body_text(
                secret_text(self.credentials.username),
                secret_text(self.credentials.password),
            ),
    {
        let password = to_json_string(self.credentials.password.expose());
        let username = to_json_string(self.credentials.username.expose());
        let mut body = String::from_str("{\"password\":");
        body.append(password.as_str());
        body.append(",\"username\":");
        body.append(username.as_str());
        body.append("}");
        body
    }
}

} // verus!
