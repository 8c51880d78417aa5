use rango::adapter::{extract_body, http_get, Config, FetchError};
use rango::http::{HttpOutcome, HttpRequest, HttpResponse, ResponseType, ScriptedCapability};
use rango::params::QueryParams;

fn config() -> Config {
    Config {
        api_base_url: String::from("https://api.example.com/v1"),
        api_key: String::from("SECRET-REDACTED"),
    }
}

fn body_outcome(body: &str) -> HttpOutcome {
    HttpOutcome::Response(HttpResponse {
        body: Some(String::from(body)),
    })
}

fn sent_request(capability: &ScriptedCapability) -> &HttpRequest {
    capability
        .last_request()
        .as_ref()
        .expect("a request should have been sent")
}

#[test]
fn fetch_coins_list_returns_body_verbatim() {
    let mut capability = ScriptedCapability::new(body_outcome("[{\"id\":\"bitcoin\"}]"));
    let r = http_get(&mut capability, &config(), "/coins/list", None);
    assert_eq!(r, Ok(String::from("[{\"id\":\"bitcoin\"}]")));
}

#[test]
fn ping_params_forwarded_with_api_key() {
    let mut capability = ScriptedCapability::new(body_outcome("pong"));
    let mut params = QueryParams::new();
    params.insert(String::from("foo"), String::from("bar"));
    let r = http_get(&mut capability, &config(), "/ping", Some(params));
    assert_eq!(r, Ok(String::from("pong")));

    let request = sent_request(&capability);
    let sent = request.url_params.as_ref().expect("parameters should be present");
    assert_eq!(sent.len(), 2);
    assert_eq!(sent.get("foo"), Some(&String::from("bar")));
    assert_eq!(sent.get("apiKey"), Some(&String::from("SECRET-REDACTED")));
}

#[test]
fn request_descriptor_is_built_as_specified() {
    let mut capability = ScriptedCapability::new(body_outcome("pong"));
    let _ = http_get(&mut capability, &config(), "/ping", None);

    let request = sent_request(&capability);
    assert_eq!(request.url, String::from("https://api.example.com/v1/ping"));
    assert!(request.headers.is_none());
    assert_eq!(request.response_type, ResponseType::Text);
    assert!(request.body.is_none());
}

#[test]
fn url_is_concatenated_without_normalization() {
    let mut capability = ScriptedCapability::new(body_outcome("ok"));
    let slashed = Config {
        api_base_url: String::from("https://api.example.com/v1/"),
        api_key: String::from("SECRET-REDACTED"),
    };
    let _ = http_get(&mut capability, &slashed, "/ping", None);
    assert_eq!(
        sent_request(&capability).url,
        String::from("https://api.example.com/v1//ping")
    );
}

#[test]
fn api_key_overwrites_caller_entry() {
    let mut capability = ScriptedCapability::new(body_outcome("ok"));
    let mut params = QueryParams::new();
    params.insert(String::from("apiKey"), String::from("caller-supplied"));
    let _ = http_get(&mut capability, &config(), "/ping", Some(params));

    let request = sent_request(&capability);
    let sent = request.url_params.as_ref().expect("parameters should be present");
    assert_eq!(sent.len(), 1);
    assert_eq!(sent.get("apiKey"), Some(&String::from("SECRET-REDACTED")));
}

#[test]
fn absent_params_send_exactly_one_entry() {
    let mut capability = ScriptedCapability::new(body_outcome("ok"));
    let _ = http_get(&mut capability, &config(), "/ping", None);

    let request = sent_request(&capability);
    let sent = request.url_params.as_ref().expect("parameters should be present");
    assert_eq!(sent.len(), 1);
    assert_eq!(sent.get("apiKey"), Some(&String::from("SECRET-REDACTED")));
}

#[test]
fn transport_failure_aborts_with_transport_error() {
    let mut capability =
        ScriptedCapability::new(HttpOutcome::Failure(String::from("connection refused")));
    let r = http_get(&mut capability, &config(), "/coins/list", None);
    assert_eq!(r, Err(FetchError::TransportError));
}

#[test]
fn missing_response_aborts_with_empty_response() {
    let mut capability = ScriptedCapability::new(HttpOutcome::NoResponse);
    let r = http_get(&mut capability, &config(), "/coins/list", None);
    assert_eq!(r, Err(FetchError::EmptyResponse));
}

#[test]
fn missing_body_aborts_with_empty_body() {
    let mut capability =
        ScriptedCapability::new(HttpOutcome::Response(HttpResponse { body: None }));
    let r = http_get(&mut capability, &config(), "/coins/list", None);
    assert_eq!(r, Err(FetchError::EmptyBody));
}

#[test]
fn empty_body_is_returned_unchanged() {
    let mut capability = ScriptedCapability::new(body_outcome(""));
    let r = http_get(&mut capability, &config(), "/ping", None);
    assert_eq!(r, Ok(String::new()));
}

#[test]
fn body_is_returned_untrimmed_and_unparsed() {
    let mut capability = ScriptedCapability::new(body_outcome("  {\"a\": 1}\n"));
    let r = http_get(&mut capability, &config(), "/ping", None);
    assert_eq!(r, Ok(String::from("  {\"a\": 1}\n")));
}

#[test]
fn extract_body_maps_each_outcome() {
    assert_eq!(
        extract_body(HttpOutcome::Failure(String::from("boom"))),
        Err(FetchError::TransportError)
    );
    assert_eq!(
        extract_body(HttpOutcome::NoResponse),
        Err(FetchError::EmptyResponse)
    );
    assert_eq!(
        extract_body(HttpOutcome::Response(HttpResponse { body: None })),
        Err(FetchError::EmptyBody)
    );
    assert_eq!(
        extract_body(body_outcome("payload")),
        Ok(String::from("payload"))
    );
}

#[test]
fn error_messages_name_the_failed_condition() {
    assert_eq!(
        FetchError::TransportError.message(),
        String::from("Received an error as HTTP Response")
    );
    assert_eq!(
        FetchError::EmptyResponse.message(),
        String::from("Received an empty HTTP Response")
    );
    assert_eq!(
        FetchError::EmptyBody.message(),
        String::from("Received an empty body as HTTP Response")
    );
}

#[test]
fn query_params_insert_overwrites_by_key() {
    let mut params = QueryParams::new();
    params.insert(String::from("a"), String::from("1"));
    params.insert(String::from("b"), String::from("2"));
    params.insert(String::from("a"), String::from("3"));
    assert_eq!(params.len(), 2);
    assert_eq!(params.get("a"), Some(&String::from("3")));
    assert_eq!(params.get("b"), Some(&String::from("2")));
}

#[test]
fn query_params_get_missing_key_is_none() {
    let mut params = QueryParams::new();
    assert_eq!(params.len(), 0);
    assert_eq!(params.get("a"), None);
    params.insert(String::from("a"), String::from("1"));
    assert_eq!(params.get("aa"), None);
}
