use tiny_url::code::short_code;
use tiny_url::handlers::{
    create_entry, create_url, created_response, redirect_tiny_url, CreateUrlParams, Params,
};
use tiny_url::status::{Error, StatusCode};
use tiny_url::store::TinyUrlServer;

const EXAMPLE_URL: &str = "https://www.euclideanspace.com/maths/geometry/trig/functions/index.htm";

#[test]
fn tiny_url() {
    let mut server = TinyUrlServer::default();

    let params = Params::parse(EXAMPLE_URL).unwrap();
    let response = create_entry(&mut server, params).unwrap();
    let status = response.status;
    let tiny_url = response.body;
    assert_eq!(status, StatusCode::Created);
    assert_eq!(status.as_u16(), 201);
    let prefix = "http://127.0.0.1:8080/";
    assert!(tiny_url.starts_with(prefix));
    let code = &tiny_url[prefix.len()..];
    assert!(short_code(code));

    let redirect = redirect_tiny_url(&server, code).unwrap();
    assert_eq!(redirect.status, StatusCode::MovedPermanently);
    assert_eq!(redirect.status.as_u16(), 301);
    assert_eq!(redirect.location, EXAMPLE_URL);
}

#[test]
fn example_scenario() {
    let mut server = TinyUrlServer::new("localhost:8080");
    let created = server.create_short_link_with("https://example.com/a", "Ab3dE");
    let response = created_response(created).unwrap();
    assert_eq!(response.status.as_u16(), 201);
    assert_eq!(response.body, "http://localhost:8080/Ab3dE");

    let redirect = redirect_tiny_url(&server, "Ab3dE").unwrap();
    assert_eq!(redirect.status.as_u16(), 301);
    assert_eq!(redirect.location, "https://example.com/a");

    let missing = redirect_tiny_url(&server, "zzzzz").unwrap_err();
    assert_eq!(missing, StatusCode::NotFound);
    assert_eq!(missing.as_u16(), 404);
}

#[test]
fn status_codes_have_their_numbers() {
    assert_eq!(StatusCode::Created.as_u16(), 201);
    assert_eq!(StatusCode::MovedPermanently.as_u16(), 301);
    assert_eq!(StatusCode::BadRequest.as_u16(), 400);
    assert_eq!(StatusCode::NotFound.as_u16(), 404);
    assert_eq!(StatusCode::InternalServerError.as_u16(), 500);
}

#[test]
fn errors_have_their_status() {
    assert_eq!(Error::InvalidUrl.status(), StatusCode::BadRequest);
    assert_eq!(Error::NotFound.status(), StatusCode::NotFound);
    assert_eq!(Error::LockFailure.status(), StatusCode::InternalServerError);
    assert_eq!(Error::ComposeFailure.status(), StatusCode::InternalServerError);
    assert_eq!(Error::CodeUnavailable.status(), StatusCode::InternalServerError);
}

#[test]
fn created_response_carries_short_url() {
    let response = created_response(Ok("http://localhost:8080/Ab3dE".to_string())).unwrap();
    assert_eq!(response.status, StatusCode::Created);
    assert_eq!(response.body, "http://localhost:8080/Ab3dE");
}

#[test]
fn created_response_reports_errors_by_status() {
    assert_eq!(created_response(Err(Error::InvalidUrl)).unwrap_err().as_u16(), 400);
    assert_eq!(created_response(Err(Error::LockFailure)).unwrap_err().as_u16(), 500);
    assert_eq!(created_response(Err(Error::ComposeFailure)).unwrap_err().as_u16(), 500);
    assert_eq!(created_response(Err(Error::CodeUnavailable)).unwrap_err().as_u16(), 500);
    assert_eq!(created_response(Err(Error::NotFound)).unwrap_err().as_u16(), 404);
}

#[test]
fn malformed_query_parameter_is_bad_request() {
    assert_eq!(Params::parse("not a url").unwrap_err(), StatusCode::BadRequest);
    assert_eq!(Params::parse("mailto:someone@example.com").unwrap_err(), StatusCode::BadRequest);
    assert_eq!(Params::parse("").unwrap_err().as_u16(), 400);
}

#[test]
fn malformed_body_is_bad_request() {
    assert_eq!(CreateUrlParams::parse("not a url").unwrap_err(), StatusCode::BadRequest);
    assert_eq!(CreateUrlParams::parse("").unwrap_err().as_u16(), 400);
}

#[test]
fn params_hold_canonical_long_url() {
    assert_eq!(Params::parse("HTTPS://Example.com").unwrap().long_url.as_str(), "https://example.com/");
    assert_eq!(CreateUrlParams::parse("HTTPS://Example.com").unwrap().0.as_str(), "https://example.com/");
}

#[test]
fn both_adapters_feed_one_store() {
    let mut server = TinyUrlServer::new("localhost:8080");
    let by_query = create_entry(&mut server, Params::parse("https://example.com/a").unwrap()).unwrap();
    let by_body = create_url(&mut server, CreateUrlParams::parse("https://example.com/a").unwrap()).unwrap();
    assert_eq!(by_query.status, StatusCode::Created);
    assert_eq!(by_body.status, StatusCode::Created);
    assert_eq!(by_query.body, by_body.body);
    assert_eq!(server.len(), 1);
}

#[test]
fn create_entry_under_malformed_host_address_is_internal_error() {
    let mut server = TinyUrlServer::new("localhost:not-a-port");
    let params = Params::parse("https://example.com/a").unwrap();
    assert_eq!(create_entry(&mut server, params).unwrap_err(), StatusCode::InternalServerError);
    assert_eq!(server.len(), 0);
}

#[test]
fn redirect_of_unknown_code_is_not_found() {
    let server = TinyUrlServer::new("localhost:8080");
    assert_eq!(redirect_tiny_url(&server, "doesNotExist12345").unwrap_err(), StatusCode::NotFound);
    assert_eq!(redirect_tiny_url(&server, "").unwrap_err(), StatusCode::NotFound);
}
