use ezcurl::client::prepare_request;
use ezcurl::error::{EzcurlError, HttpError};
use ezcurl::request::{HttpMethod, HttpRequest};

#[test]
fn a_url_that_does_not_parse_is_refused_with_its_text() {
    let request = HttpRequest::new(HttpMethod::Get, "not a url".to_string());
    match prepare_request(&request) {
        Err(EzcurlError::InvalidUrl(url)) => assert_eq!(url, "not a url"),
        Err(other) => panic!("unexpected error {:?}", other),
        Ok(_) => panic!("accepted"),
    }
}

#[test]
fn a_header_without_name_is_refused_after_the_url_is_checked() {
    let mut request = HttpRequest::new(HttpMethod::Get, "https://example.com".to_string());
    request.add_header("", "v");
    match prepare_request(&request) {
        Err(EzcurlError::InvalidHeader(message)) => {
            assert_eq!(message, "header name cannot be empty")
        }
        Err(other) => panic!("unexpected error {:?}", other),
        Ok(_) => panic!("accepted"),
    }
    let mut bad_both = HttpRequest::new(HttpMethod::Get, "::".to_string());
    bad_both.add_header("", "v");
    assert!(matches!(prepare_request(&bad_both), Err(EzcurlError::InvalidUrl(_))));
}

#[test]
fn a_valid_request_is_prepared_for_the_transport() {
    let mut request = HttpRequest::new(HttpMethod::Post, "https://example.com/a?b=1".to_string());
    request.add_header(" Accept ", " text/html ");
    request.set_body(b"{}".to_vec());
    let prepared = prepare_request(&request).unwrap();
    assert_eq!(prepared.method, reqwest::Method::POST);
    assert_eq!(prepared.url.as_str(), "https://example.com/a?b=1");
    assert_eq!(prepared.headers, vec![("Accept".to_string(), "text/html".to_string())]);
    assert_eq!(prepared.body, Some(b"{}".to_vec()));
    let plain = HttpRequest::new(HttpMethod::Head, "http://h.test".to_string());
    let prepared = prepare_request(&plain).unwrap();
    assert_eq!(prepared.method, reqwest::Method::HEAD);
    assert_eq!(prepared.body, None);
}

#[test]
fn every_method_has_its_transport_value() {
    for method in HttpMethod::all() {
        assert_eq!(method.as_reqwest_method().as_str(), method.as_str());
    }
}

#[test]
fn error_messages() {
    assert_eq!(
        EzcurlError::InvalidHeader("x".to_string()).message(),
        "invalid header line: x"
    );
    assert_eq!(EzcurlError::InvalidUrl("u".to_string()).message(), "u");
    assert_eq!(
        EzcurlError::Network(HttpError::Protocol("timeout".to_string())).message(),
        "timeout"
    );
    assert_eq!(EzcurlError::History("h".to_string()).message(), "h");
    assert_eq!(EzcurlError::Terminal("t".to_string()).message(), "t");
}
