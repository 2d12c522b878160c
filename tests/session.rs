use unifi_proxy::client::{HttpMethod, UnifiApiClient};
use unifi_proxy::errors::Errors;
use unifi_proxy::settings::{client_for, UnifiSettings};

fn header<'a>(hs: &'a [unifi_proxy::client::Header], name: &str) -> Vec<&'a str> {
    hs.iter().filter(|h| h.name == name).map(|h| h.value.as_str()).collect()
}

fn client() -> UnifiApiClient {
    UnifiApiClient::new("https://ctl".to_string(), "admin".to_string(), "SECRET-REDACTED".to_string())
}

#[test]
fn new_client_sends_json_by_default() {
    let c = client();
    assert_eq!(header(c.get_headers(), "Content-Type"), vec!["application/json"]);
    assert_eq!(c.get_headers().len(), 1);
    assert_eq!(c.get_base_url(), "https://ctl");
    assert_eq!(c.get_username(), "admin");
}

#[test]
fn request_starts_with_a_login() {
    let mut c = client();
    let login = c.request(HttpMethod::Get, "/x", None);
    assert_eq!(login.url, "https://ctl/api/auth/login");
    assert_eq!(login.body.username, "admin");
    assert_eq!(login.body.password, "SECRET-REDACTED");
    assert!(!login.body.remember_me);
}

#[test]
fn token_is_attached_to_outbound_request() {
    let mut c = client();
    c.request(HttpMethod::Post, "/api/thing", Some("{}".to_string()));
    let req = c.authenticate(Some("tok-1".to_string())).ok().unwrap();
    assert_eq!(req.method, HttpMethod::Post);
    assert_eq!(req.url, "https://ctl/api/thing");
    assert_eq!(req.body.as_deref(), Some("{}"));
    assert_eq!(header(&req.headers, "X-CSRF-Token"), vec!["tok-1"]);
    assert_eq!(header(&req.headers, "Content-Type"), vec!["application/json"]);
}

#[test]
fn reauthentication_replaces_the_token() {
    let mut c = client();
    c.list_clients();
    c.authenticate(Some("first".to_string())).ok().unwrap();
    let login = c.list_clients();
    assert_eq!(login.url, "https://ctl/api/auth/login");
    let req = c.authenticate(Some("second".to_string())).ok().unwrap();
    assert_eq!(req.url, "https://ctl/proxy/network/api/s/default/stat/sta");
    assert_eq!(req.method, HttpMethod::Get);
    assert!(req.body.is_none());
    assert_eq!(header(&req.headers, "X-CSRF-Token"), vec!["second"]);
    assert_eq!(req.headers.len(), 2);
}

#[test]
fn missing_token_is_an_internal_error() {
    let mut c = client();
    c.list_clients();
    assert!(matches!(c.authenticate(None), Err(Errors::InternalServerError)));
    assert_eq!(c.get_headers().len(), 1);
}

#[test]
fn authenticate_without_a_call_is_an_internal_error() {
    let mut c = client();
    assert!(matches!(c.authenticate(Some("t".to_string())), Err(Errors::InternalServerError)));
}

#[test]
fn client_for_settings_uses_their_credentials() {
    let s = UnifiSettings::new("https://u".to_string(), "me".to_string(), "pw".to_string());
    let mut c = client_for(&s);
    let login = c.list_clients();
    assert_eq!(login.url, "https://u/api/auth/login");
    assert_eq!(login.body.username, "me");
    assert_eq!(login.body.password, "pw");
}
