use unifi_protect_client::auth::{find_header, header_names_match, session_from_login, ResponseHeader};
use unifi_protect_client::{RequestError, UnifiProtectClient};

fn header(name: &str, value: &str) -> ResponseHeader {
    ResponseHeader { name: name.to_string(), value: value.as_bytes().to_vec() }
}

#[test]
fn login_url_is_under_host() {
    let client = UnifiProtectClient::new("https://192.168.1.1", "admin", "password");
    assert_eq!(client.login_url(), "https://192.168.1.1/api/auth/login");
    assert_eq!(client.host(), "https://192.168.1.1");
}

#[test]
fn login_body_carries_credentials_in_key_order() {
    let client = UnifiProtectClient::new("https://h", "admin", "your-secure-password");
    assert_eq!(client.login_body(), r#"{"password":"your-secure-password","username":"admin"}"#);
}

#[test]
fn login_body_escapes_credentials() {
    let client = UnifiProtectClient::new("https://h", "a\"b", "back\\slash\nline");
    assert_eq!(client.login_body(), r#"{"password":"back\\slash\nline","username":"a\"b"}"#);
}

#[test]
fn login_body_escapes_control_characters() {
    let client = UnifiProtectClient::new("https://h", "tab\there", "x\u{1}y\u{1f}\u{8}\u{c}\r");
    assert_eq!(client.login_body(), r#"{"password":"x\u0001y\u001f\b\f\r","username":"tab\there"}"#);
}

#[test]
fn header_names_ignore_ascii_case() {
    assert!(header_names_match("x-csrf-token", "X-CSRF-Token"));
    assert!(header_names_match("SET-COOKIE", "Set-Cookie"));
    assert!(!header_names_match("set-cookie2", "Set-Cookie"));
    assert!(!header_names_match("cookie", "Set-Cookie"));
}

#[test]
fn find_header_takes_first_match() {
    let headers = vec![header("content-type", "json"), header("set-cookie", "A=1"), header("Set-Cookie", "B=2")];
    assert_eq!(find_header(&headers, "Set-Cookie"), Some(b"A=1".to_vec()));
    assert_eq!(find_header(&headers, "X-CSRF-Token"), None);
}

#[test]
fn login_success_yields_session_headers() {
    let headers = vec![header("x-csrf-token", "tok"), header("set-cookie", "TOKEN=abc; path=/")];
    let session = session_from_login(200, &headers).ok().unwrap();
    assert_eq!(session.csrf_token, b"tok".to_vec());
    assert_eq!(session.cookie, b"TOKEN=abc; path=/".to_vec());
    let sent = session.request_headers();
    assert_eq!(sent.len(), 2);
    assert_eq!(sent[0].0, "X-CSRF-Token");
    assert_eq!(sent[0].1, b"tok".to_vec());
    assert_eq!(sent[1].0, "Cookie");
    assert_eq!(sent[1].1, b"TOKEN=abc; path=/".to_vec());
}

#[test]
fn login_rejected_is_unauthorized() {
    let headers = vec![header("x-csrf-token", "tok"), header("set-cookie", "T=1")];
    assert!(matches!(session_from_login(401, &headers), Err(RequestError::Unauthorized)));
    assert!(matches!(session_from_login(403, &headers), Err(RequestError::Unauthorized)));
}

#[test]
fn login_other_failure_is_unknown() {
    let headers = vec![header("x-csrf-token", "tok"), header("set-cookie", "T=1")];
    assert!(matches!(session_from_login(500, &headers), Err(RequestError::Unknown)));
    assert!(matches!(session_from_login(302, &headers), Err(RequestError::Unknown)));
}

#[test]
fn login_without_token_or_cookie_is_unknown() {
    let no_token = vec![header("set-cookie", "T=1")];
    assert!(matches!(session_from_login(200, &no_token), Err(RequestError::Unknown)));
    let no_cookie = vec![header("x-csrf-token", "tok")];
    assert!(matches!(session_from_login(200, &no_cookie), Err(RequestError::Unknown)));
}

#[test]
fn error_messages() {
    assert_eq!(RequestError::Unauthorized.message(), "Unauthorized access - check your credentials");
    assert_eq!(RequestError::Unknown.message(), "An unknown error occurred");
    assert_eq!(
        RequestError::DeserializationError("missing field 'id'".to_string()).message(),
        "Failed to parse API response: missing field 'id'"
    );
    let e = reqwest::Client::new().get("not a url").build().unwrap_err();
    let detail = e.to_string();
    assert_eq!(RequestError::NetworkError(e).message(), format!("Network error: {}", detail));
}
