use sota::error::Error;
use sota::http::{AccessToken, ClientCredentials, ClientId, ClientSecret, HttpRequest, Method, TestClient, TestHttpClient};

fn req(url: &str) -> HttpRequest {
    HttpRequest { method: Method::Get, url: url.to_string(), body: None }
}

#[test]
fn method_names() {
    assert_eq!(Method::Get.to_string(), "GET");
    assert_eq!(Method::Post.to_string(), "POST");
    assert_eq!(Method::Put.to_string(), "PUT");
    assert_eq!(req("http://x/y").describe(), "GET http://x/y");
}

#[test]
fn test_http_client_replies_last_first() {
    let mut c = TestHttpClient::from(vec![b"one".to_vec(), b"two".to_vec()]);
    assert_eq!(c.send_request(&req("u")).unwrap(), b"two".to_vec());
    assert_eq!(c.send_request(&req("u")).unwrap(), b"one".to_vec());
    assert_eq!(c.send_request(&req("http://h/p")).unwrap_err(), Error::Client("GET http://h/p".to_string()));
    assert!(TestHttpClient::new().send_request(&req("u")).is_err());
}

#[test]
fn test_client_replies_with_text() {
    let mut c = TestClient::from(vec!["[]".to_string(), "é".to_string()]);
    assert_eq!(c.send_request(&req("u")).unwrap(), "é".as_bytes().to_vec());
    assert_eq!(c.send_request(&req("u")).unwrap(), b"[]".to_vec());
    assert_eq!(c.send_request(&req("http://h")).unwrap_err(), Error::Client("http://h".to_string()));
    assert!(TestClient::new().responses.is_empty());
}

#[test]
fn credentials_and_tokens() {
    let c = ClientCredentials { id: ClientId { get: "id".to_string() }, secret: ClientSecret { get: "s".to_string() } };
    assert_eq!(c.id.get, "id");
    let t = AccessToken::empty();
    assert_eq!((t.access_token.as_str(), t.token_type.as_str(), t.expires_in), ("", "", 0));
    assert!(t.scope.is_empty());
}
