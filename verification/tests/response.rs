use request_tracing::carrier::Header;
use request_tracing::carrier::HeaderCarrier;
use request_tracing::error::AppError;
use request_tracing::error::STATUS_BAD_REQUEST;
use request_tracing::error::STATUS_OK;
use request_tracing::request::describe_request;
use request_tracing::request::render_headers;
use request_tracing::request::validate_message;
use request_tracing::request::HelloParams;
use request_tracing::response::greeting;
use request_tracing::response::success_response;
use request_tracing::response::HttpResponse;
use request_tracing::span::AttributeValue;

fn params(message: &str) -> HelloParams {
    HelloParams { message: message.to_string() }
}

#[test]
fn an_invalid_input_says_its_kind_and_its_message() {
    let error = AppError::invalid_input("Message cannot be empty");
    assert_eq!(error.message(), "Invalid input: Message cannot be empty");
    assert_eq!(error.description(), "Message cannot be empty");
    assert_eq!(error.status_code(), 400);
    assert_eq!(STATUS_BAD_REQUEST, 400);
    assert_eq!(STATUS_OK, 200);
    assert!(matches!(error.duplicate(), AppError::InvalidInput(detail) if detail == "Message cannot be empty"));
}

#[test]
fn an_error_is_answered_with_its_status_and_a_json_body() {
    let response = AppError::invalid_input("Message cannot be empty").into_response();
    assert_eq!(response.status, 400);
    assert_eq!(response.body, "{\"error\":\"Invalid input: Message cannot be empty\"}");
}

#[test]
fn the_body_of_an_error_is_escaped_as_json() {
    let response = AppError::invalid_input("bad \"quote\"\n").into_response();
    assert_eq!(response.body, "{\"error\":\"Invalid input: bad \\\"quote\\\"\\n\"}");
    let parsed: serde_json::Value = serde_json::from_str(&response.body).unwrap();
    assert_eq!(parsed["error"], "Invalid input: bad \"quote\"\n");
}

#[test]
fn a_greeting_names_the_service_and_echoes_the_message() {
    assert_eq!(greeting("Rust", "World"), "Hello from Rust! You sent: World");
    assert_eq!(greeting("", ""), "Hello from ! You sent: ");
}

#[test]
fn a_success_is_answered_with_200_and_the_greeting() {
    let response = success_response("Rust", "World");
    assert_eq!(response.status, 200);
    assert_eq!(response.body, "{\"message\":\"Hello from Rust! You sent: World\"}");
}

#[test]
fn the_body_of_a_success_echoes_the_message_exactly() {
    let message = "a \"b\" \\ c\t\u{e9}\u{1f600}";
    let response = success_response("svc", message);
    let parsed: serde_json::Value = serde_json::from_str(&response.body).unwrap();
    assert_eq!(parsed["message"], format!("Hello from svc! You sent: {}", message));
    assert_eq!(parsed.as_object().unwrap().len(), 1);
}

#[test]
fn a_response_can_be_made_and_copied() {
    let response = HttpResponse::with_body(204, "{}".to_string());
    let copy = response.duplicate();
    assert_eq!(copy.status, 204);
    assert_eq!(copy.body, "{}");
}

#[test]
fn a_message_that_is_not_empty_is_valid() {
    assert!(validate_message(&params("World")).is_ok());
    assert!(validate_message(&params(" ")).is_ok());
    assert!(validate_message(&params("\u{e9}")).is_ok());
}

#[test]
fn an_empty_message_is_invalid() {
    let error = validate_message(&params("")).unwrap_err();
    assert!(matches!(&error, AppError::InvalidInput(detail) if detail == "Message cannot be empty"));
    assert_eq!(error.message(), "Invalid input: Message cannot be empty");
}

#[test]
fn an_absent_message_counts_as_the_empty_one() {
    let absent = HelloParams::from_query(None);
    assert_eq!(absent.message, "");
    assert!(validate_message(&absent).is_err());
    let present = HelloParams::from_query(Some("hi".to_string()));
    assert_eq!(present.message, "hi");
    assert!(validate_message(&present).is_ok());
}

#[test]
fn only_headers_on_the_list_are_rendered() {
    let carrier = HeaderCarrier::new(vec![
        Header::new("Authorization", "Bearer hidden"),
        Header::new("User-Agent", "curl/8"),
        Header::new("Accept", "*/*"),
        Header::new("accept", "text/html"),
    ]);
    let recorded = vec!["accept".to_string(), "x-missing".to_string(), "user-agent".to_string()];
    assert_eq!(render_headers(&carrier, &recorded), "accept=*/*;user-agent=curl/8;");
    assert_eq!(render_headers(&carrier, &Vec::new()), "");
    assert_eq!(render_headers(&HeaderCarrier::new(Vec::new()), &recorded), "");
}

#[test]
fn the_server_span_is_told_params_and_recorded_headers() {
    let carrier = HeaderCarrier::new(vec![
        Header::new("cookie", "session=secret"),
        Header::new("accept", "*/*"),
    ]);
    let attributes = describe_request(&params("World"), &carrier, &vec!["accept".to_string()]);
    assert_eq!(attributes.len(), 2);
    assert_eq!(attributes[0].key, "params");
    assert!(matches!(&attributes[0].value, AttributeValue::Text(text) if text == "message=World"));
    assert_eq!(attributes[1].key, "headers");
    assert!(matches!(&attributes[1].value, AttributeValue::Text(text) if text == "accept=*/*;"));
}
