use std::sync::Arc;

use resend_rs::client::Client;
use resend_rs::config::{Config, Response};
use resend_rs::request::Method;
use resend_rs::{ConfigError, Error};

fn transport() -> reqwest::Client {
    reqwest::Client::builder().build().unwrap()
}

fn config() -> Config {
    Config::new("re_test_key", "https://api.resend.com", 9, transport()).unwrap()
}

#[test]
fn construction_resolves_and_normalizes_the_base_url() {
    let c = config();
    assert_eq!(c.user_agent, "resend_rs/0.1.0");
    assert_eq!(c.api_key, "re_test_key");
    assert_eq!(c.base_url, "https://api.resend.com/");
    assert_eq!(c.quota.burst, 9);
}

#[test]
fn malformed_base_url_is_fatal() {
    let r = Config::new("re_test_key", "not a url", 9, transport());
    assert!(matches!(r, Err(ConfigError::InvalidBaseUrl)));
}

#[test]
fn malformed_rate_is_fatal() {
    let r = Config::new("re_test_key", "https://api.resend.com", 0, transport());
    assert!(matches!(r, Err(ConfigError::InvalidRateLimit)));
}

#[test]
fn build_attaches_routing_and_authentication() {
    let c = config();
    let req = c.try_build(Method::Get, "/emails").unwrap();
    assert_eq!(req.method, Method::Get);
    assert_eq!(req.url, "https://api.resend.com/emails");
    assert_eq!(req.headers.len(), 2);
    assert_eq!(req.headers[0].0, "Authorization");
    assert_eq!(req.headers[0].1, "Bearer re_test_key");
    assert_eq!(req.headers[1].0, "User-Agent");
    assert_eq!(req.headers[1].1, "resend_rs/0.1.0");
    assert!(req.body.is_none());
}

#[test]
fn build_is_pure() {
    let c1 = config();
    let c2 = config();
    let r1 = c1.try_build(Method::Post, "/emails").unwrap();
    let r2 = c2.try_build(Method::Post, "/emails").unwrap();
    assert_eq!(r1.method, r2.method);
    assert_eq!(r1.url, r2.url);
    let h1: Vec<(String, String)> = r1.headers;
    let h2: Vec<(String, String)> = r2.headers;
    assert_eq!(h1, h2);
}

#[test]
fn error_status_with_structured_body_is_a_remote_error() {
    let body = "{\"name\":\"validation_error\",\"message\":\"invalid `from` field\"}"
        .as_bytes()
        .to_vec();
    match Config::classify_response(422, body) {
        Err(Error::Resend(e)) => {
            assert_eq!(e.name, "validation_error");
            assert_eq!(e.message, "invalid `from` field");
        },
        _ => panic!("a decodable error body must classify as a remote error"),
    }
}

#[test]
fn error_status_with_undecodable_body_is_a_transport_error() {
    let body = b"not json at all".to_vec();
    match Config::classify_response(500, body) {
        Err(Error::Http(m)) => {
            assert_eq!(m, "error response body could not be decoded");
        },
        _ => panic!("an undecodable error body must classify as a transport error"),
    }
}

#[test]
fn error_body_missing_fields_is_a_transport_error() {
    let body = b"{\"name\":\"oops\"}".to_vec();
    assert!(matches!(Config::classify_response(404, body), Err(Error::Http(_))));
    let body = b"{\"message\":\"oops\"}".to_vec();
    assert!(matches!(Config::classify_response(404, body), Err(Error::Http(_))));
    let body = b"{\"name\":1,\"message\":\"oops\"}".to_vec();
    assert!(matches!(Config::classify_response(404, body), Err(Error::Http(_))));
}

#[test]
fn success_status_passes_through_unmodified() {
    let body = "{\"id\":\"49a3999c-0ce1-4ea6-ab68-afcd6dc2e794\"}".as_bytes().to_vec();
    match Config::classify_response(200, body.clone()) {
        Ok(Response { status, body: b }) => {
            assert_eq!(status, 200);
            assert_eq!(b, body);
        },
        Err(_) => panic!("a success status must pass through"),
    }
}

#[test]
fn classification_boundaries_are_exact() {
    assert!(Config::classify_response(399, b"x".to_vec()).is_ok());
    assert!(Config::classify_response(400, b"x".to_vec()).is_err());
    assert!(Config::classify_response(599, b"x".to_vec()).is_err());
    assert!(Config::classify_response(600, b"x".to_vec()).is_ok());
    assert!(Config::classify_response(302, b"x".to_vec()).is_ok());
}

#[test]
fn describe_redacts_the_credential() {
    let c = config();
    let d = c.describe();
    assert_eq!(
        d,
        "Client { api_key: \"re_*********\", user_agent: \"resend_rs/0.1.0\", \
         base_url: \"https://api.resend.com/\", .. }"
    );
    assert!(!d.contains("re_test_key"));
}

#[test]
fn handle_getters_expose_the_shared_configuration() {
    let client = Client::with_client("re_test_key", transport()).unwrap();
    assert_eq!(client.user_agent(), "resend_rs/0.1.0");
    assert_eq!(client.api_key(), "re_test_key");
}

#[test]
fn facades_share_one_dispatcher_allocation() {
    let client = Client::with_client("re_test_key", transport()).unwrap();
    assert!(Arc::ptr_eq(&client.emails.0, &client.contacts.0));
}

#[test]
fn clones_share_the_same_dispatcher_and_budget() {
    let client = Client::with_client("re_test_key", transport()).unwrap();
    let clone = client.clone();
    assert!(Arc::ptr_eq(&client.emails.0, &clone.emails.0));
    assert!(Arc::ptr_eq(&client.contacts.0, &clone.contacts.0));
    assert_eq!(Arc::strong_count(&client.emails.0), 4);
}

#[test]
fn default_client_construction_succeeds() {
    let client = Client::new("re_test_key").unwrap();
    assert_eq!(client.api_key(), "re_test_key");
}
