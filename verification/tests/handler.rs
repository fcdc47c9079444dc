use request_tracing::carrier::Header;
use request_tracing::carrier::HeaderCarrier;
use request_tracing::error::AppError;
use request_tracing::handler::report;
use request_tracing::handler::Action;
use request_tracing::handler::Feedback;
use request_tracing::handler::HandlerConfig;
use request_tracing::handler::Phase;
use request_tracing::handler::RequestHandler;
use request_tracing::handler::HANDLING_MILLIS;
use request_tracing::handler::VALIDATION_MILLIS;
use request_tracing::handler::WORK_MILLIS;
use request_tracing::hierarchy::SpanHierarchy;
use request_tracing::propagation::TraceContext;
use request_tracing::request::HelloParams;
use request_tracing::response::HttpResponse;
use request_tracing::span::AttributeValue;
use request_tracing::span::Span;
use request_tracing::span::SpanKind;
use request_tracing::span::SpanStatus;

fn config() -> HandlerConfig {
    HandlerConfig {
        service: "Rust".to_string(),
        default_sampled: true,
        recorded_headers: vec!["user-agent".to_string()],
    }
}

fn headers() -> HeaderCarrier {
    HeaderCarrier::new(vec![
        Header::new("User-Agent", "curl/8"),
        Header::new("Authorization", "Bearer hidden"),
        Header::new("sentry-trace", "09e04486820349518ac7b5d2adbf6ba5-9cf635fa5b870b3a-1"),
    ])
}

fn handler_for(message: Option<&str>) -> RequestHandler {
    let params = HelloParams::from_query(message.map(|text| text.to_string()));
    RequestHandler::new(config(), headers(), params)
}

fn at(now: u64) -> Feedback {
    Feedback { now, delivered: true }
}

fn error_of(span: &Span) -> Option<String> {
    match span.status() {
        SpanStatus::Error { description } => Some(description.clone()),
        _ => None,
    }
}

/// Drives a handler as a server would, with a clock that the waits move on.
fn drive(handler: &mut RequestHandler, delivered: bool) -> (HttpResponse, Vec<AppError>, u64) {
    let mut now: u64 = 1_000;
    let mut captured = Vec::new();
    for _ in 0..20 {
        match handler.step(Feedback { now, delivered }) {
            Action::Proceed => {}
            Action::Wait { millis } => now += millis,
            Action::Capture { error } => captured.push(error),
            Action::Respond { response } => return (response, captured, now),
            Action::Finished => break,
        }
    }
    panic!("the handler did not answer");
}

#[test]
fn hello_with_a_message_is_greeted() {
    let mut handler = handler_for(Some("World"));
    let (response, captured, _) = drive(&mut handler, true);
    assert_eq!(response.status, 200);
    assert_eq!(response.body, "{\"message\":\"Hello from Rust! You sent: World\"}");
    assert!(captured.is_empty());
    assert_eq!(handler.phase(), Phase::ResponseReady);
    assert!(handler.is_finished());
}

#[test]
fn hello_without_a_query_string_is_rejected() {
    let mut handler = handler_for(None);
    let (response, captured, _) = drive(&mut handler, true);
    assert_eq!(response.status, 400);
    assert_eq!(response.body, "{\"error\":\"Invalid input: Message cannot be empty\"}");
    assert_eq!(captured.len(), 1);
    assert_eq!(captured[0].message(), "Invalid input: Message cannot be empty");
    assert_eq!(handler.phase(), Phase::Failed);
}

#[test]
fn hello_with_an_empty_message_is_rejected() {
    let mut handler = handler_for(Some(""));
    let (response, _, _) = drive(&mut handler, true);
    assert_eq!(response.status, 400);
    assert!(response.body.contains("cannot be empty"));
    let hierarchy = handler.hierarchy().unwrap();
    assert_eq!(error_of(hierarchy.span(0)), Some("Message cannot be empty".to_string()));
}

#[test]
fn any_message_that_is_not_empty_is_echoed_exactly() {
    for message in ["a", " ", "two words", "q\"uo\\te", "\u{e9}\u{1f600}", "<script>"] {
        let mut handler = handler_for(Some(message));
        let (response, _, _) = drive(&mut handler, true);
        assert_eq!(response.status, 200);
        let parsed: serde_json::Value = serde_json::from_str(&response.body).unwrap();
        assert_eq!(parsed["message"], format!("Hello from Rust! You sent: {}", message));
        let hierarchy = handler.hierarchy().unwrap();
        assert!(matches!(hierarchy.span(0).status(), SpanStatus::Okay));
    }
}

#[test]
fn a_successful_request_goes_through_the_phases_in_order() {
    let mut handler = handler_for(Some("World"));
    assert_eq!(handler.phase(), Phase::Received);
    assert!(handler.hierarchy().is_none());
    assert!(handler.response().is_none());
    assert!(matches!(handler.step(at(10)), Action::Proceed));
    assert_eq!(handler.phase(), Phase::ContextExtracted);
    assert!(matches!(handler.step(at(20)), Action::Wait { millis } if millis == HANDLING_MILLIS));
    assert_eq!(handler.phase(), Phase::ServerSpanOpen);
    assert!(matches!(handler.step(at(220)), Action::Wait { millis } if millis == VALIDATION_MILLIS));
    assert_eq!(handler.phase(), Phase::Validating);
    assert!(matches!(handler.step(at(270)), Action::Proceed));
    assert_eq!(handler.phase(), Phase::ValidationOk);
    assert!(matches!(handler.step(at(271)), Action::Wait { millis } if millis == WORK_MILLIS));
    assert_eq!(handler.phase(), Phase::WorkSimulating);
    assert!(matches!(handler.step(at(471)), Action::Proceed));
    assert_eq!(handler.phase(), Phase::WorkDone);
    assert!(!handler.is_finished());
    assert!(matches!(handler.step(at(472)), Action::Respond { response } if response.status == 200));
    assert_eq!(handler.phase(), Phase::ResponseReady);
    assert!(matches!(handler.step(at(473)), Action::Finished));
    assert_eq!(handler.phase(), Phase::ResponseReady);
    assert_eq!(handler.response().unwrap().status, 200);
    assert_eq!((HANDLING_MILLIS, VALIDATION_MILLIS, WORK_MILLIS), (200, 50, 200));
}

#[test]
fn a_failing_request_goes_through_the_phases_in_order() {
    let mut handler = handler_for(Some(""));
    assert!(matches!(handler.step(at(10)), Action::Proceed));
    assert!(matches!(handler.step(at(20)), Action::Wait { millis: 200 }));
    assert!(matches!(handler.step(at(220)), Action::Wait { millis: 50 }));
    let capture = handler.step(at(270));
    assert!(matches!(&capture, Action::Capture { error } if error.message() == "Invalid input: Message cannot be empty"));
    assert_eq!(handler.phase(), Phase::ValidationFailed);
    {
        let hierarchy = handler.hierarchy().unwrap();
        assert_eq!(hierarchy.depth(), 2);
        assert_eq!(error_of(hierarchy.span(1)), Some("Message cannot be empty".to_string()));
        assert!(hierarchy.span(1).is_open());
        assert!(matches!(hierarchy.span(0).status(), SpanStatus::Unset));
    }
    assert!(matches!(handler.step(at(280)), Action::Respond { response } if response.status == 400));
    assert_eq!(handler.phase(), Phase::Failed);
    assert!(matches!(handler.step(at(290)), Action::Finished));
    assert_eq!(handler.phase(), Phase::Failed);
}

#[test]
fn the_spans_of_a_successful_request() {
    let mut handler = handler_for(Some("World"));
    let (_, _, end) = drive(&mut handler, true);
    assert_eq!(end, 1_450);
    let hierarchy = handler.hierarchy().unwrap();
    assert!(hierarchy.is_complete());
    assert_eq!(hierarchy.len(), 3);
    let server = hierarchy.span(0);
    let validation = hierarchy.span(1);
    let work = hierarchy.span(2);
    assert_eq!(server.name(), "handle_hello");
    assert_eq!(server.kind(), SpanKind::Server);
    assert_eq!(server.trace_id(), 0x09e04486820349518ac7b5d2adbf6ba5);
    assert_eq!(server.parent_span_id(), Some(0x9cf635fa5b870b3a));
    assert_eq!((server.start_time(), server.end_time()), (1_000, Some(1_450)));
    assert_eq!(validation.name(), "validate_params");
    assert_eq!(validation.kind(), SpanKind::Internal);
    assert_eq!((validation.start_time(), validation.end_time()), (1_200, Some(1_250)));
    assert!(matches!(validation.status(), SpanStatus::Okay));
    assert_eq!(work.name(), "simulate_work");
    assert_eq!(work.kind(), SpanKind::Internal);
    assert_eq!((work.start_time(), work.end_time()), (1_250, Some(1_450)));
    assert!(matches!(work.status(), SpanStatus::Okay));
    for child in [validation, work] {
        assert_eq!(child.trace_id(), server.trace_id());
        assert_eq!(child.parent_span_id(), Some(server.span_id()));
        assert!(server.start_time() <= child.start_time());
        assert!(child.end_time().unwrap() <= server.end_time().unwrap());
    }
    assert_eq!(hierarchy.parent(0), None);
    assert_eq!(hierarchy.parent(1), Some(0));
    assert_eq!(hierarchy.parent(2), Some(0));
}

#[test]
fn the_spans_of_a_failing_request() {
    let mut handler = handler_for(None);
    let (_, _, end) = drive(&mut handler, true);
    assert_eq!(end, 1_250);
    let hierarchy = handler.hierarchy().unwrap();
    assert!(hierarchy.is_complete());
    assert_eq!(hierarchy.len(), 2);
    assert_eq!(error_of(hierarchy.span(0)), Some("Message cannot be empty".to_string()));
    assert_eq!(error_of(hierarchy.span(1)), Some("Message cannot be empty".to_string()));
    assert_eq!(hierarchy.span(0).end_time(), Some(1_250));
    assert_eq!(hierarchy.span(1).end_time(), Some(1_250));
    assert_eq!(hierarchy.span(1).trace_id(), hierarchy.span(0).trace_id());
}

#[test]
fn the_server_span_records_params_and_allowed_headers_only() {
    let mut handler = handler_for(Some("World"));
    drive(&mut handler, true);
    let server = handler.hierarchy().unwrap().span(0);
    assert!(matches!(server.attribute("params"), Some(AttributeValue::Text(text)) if text == "message=World"));
    assert!(matches!(server.attribute("headers"), Some(AttributeValue::Text(text)) if text == "user-agent=curl/8;"));
}

#[test]
fn a_request_without_trace_header_starts_its_own_trace() {
    let params = HelloParams::from_query(Some("hi".to_string()));
    let mut handler = RequestHandler::new(config(), HeaderCarrier::new(Vec::new()), params);
    drive(&mut handler, true);
    let hierarchy = handler.hierarchy().unwrap();
    assert_eq!(hierarchy.root().parent_span_id, None);
    assert!(hierarchy.root().sampled);
    assert_eq!(hierarchy.span(0).parent_span_id(), None);
    assert_eq!(hierarchy.span(1).trace_id(), hierarchy.span(0).trace_id());
    assert_eq!(hierarchy.span(2).trace_id(), hierarchy.span(0).trace_id());
}

#[test]
fn a_capture_channel_that_is_down_does_not_change_the_answer() {
    let mut up = handler_for(None);
    let mut down = handler_for(None);
    let (with_channel, _, _) = drive(&mut up, true);
    let (without_channel, captured, _) = drive(&mut down, false);
    assert_eq!(without_channel.status, 400);
    assert_eq!(without_channel.body, with_channel.body);
    assert_eq!(captured.len(), 1);
    assert_eq!(down.phase(), Phase::Failed);
    assert!(down.hierarchy().unwrap().is_complete());
}

#[test]
fn fifty_interleaved_requests_do_not_touch_each_other() {
    let count = 64;
    let mut handlers = Vec::new();
    for i in 0..count {
        let trace = format!("{:032x}-{:016x}-1", 1_000 + i, 7);
        let carrier = HeaderCarrier::new(vec![Header::new("sentry-trace", &trace)]);
        let params = HelloParams::from_query(Some(format!("message {}", i)));
        handlers.push(RequestHandler::new(config(), carrier, params));
    }
    let mut answered = vec![None; count];
    for round in 0..10u64 {
        for (i, handler) in handlers.iter_mut().enumerate() {
            if let Action::Respond { response } = handler.step(at(round * 100 + i as u64)) {
                answered[i] = Some(response.body);
            }
        }
    }
    for (i, handler) in handlers.iter().enumerate() {
        let expected = format!("{{\"message\":\"Hello from Rust! You sent: message {}\"}}", i);
        assert_eq!(answered[i].as_deref(), Some(expected.as_str()));
        let hierarchy = handler.hierarchy().unwrap();
        assert!(hierarchy.is_complete());
        assert_eq!(hierarchy.depth(), 0);
        assert_eq!(hierarchy.len(), 3);
        for k in 0..3 {
            assert_eq!(hierarchy.span(k).trace_id(), 1_000 + i as u128);
        }
        let expected_params = format!("message=message {}", i);
        assert!(matches!(hierarchy.span(0).attribute("params"), Some(AttributeValue::Text(text)) if *text == expected_params));
    }
}

#[test]
fn complete_answers_in_one_go() {
    let mut greeted = handler_for(Some("World"));
    let response = greeted.complete(5);
    assert_eq!(response.body, "{\"message\":\"Hello from Rust! You sent: World\"}");
    assert_eq!(greeted.phase(), Phase::ResponseReady);
    assert_eq!(greeted.complete(6).status, 200);
    let mut rejected = handler_for(None);
    assert_eq!(rejected.complete(5).status, 400);
    assert_eq!(rejected.phase(), Phase::Failed);
    let mut halfway = handler_for(Some("x"));
    halfway.step(at(1));
    halfway.step(at(2));
    assert_eq!(halfway.complete(3).status, 200);
    assert!(halfway.hierarchy().unwrap().is_complete());
}

#[test]
fn cancelling_a_request_ends_its_open_spans_as_cancelled() {
    let mut handler = handler_for(Some("World"));
    handler.step(at(10));
    handler.step(at(20));
    handler.step(at(30));
    let spans = handler.cancel(99);
    assert_eq!(spans.len(), 2);
    for span in &spans {
        assert_eq!(error_of(span), Some("cancelled".to_string()));
        assert_eq!(span.end_time(), Some(99));
    }
    assert!(handler_for(Some("World")).cancel(1).is_empty());
}

#[test]
fn spans_that_were_never_ended_are_handed_over_as_unterminated() {
    let mut handler = handler_for(Some("World"));
    handler.step(at(10));
    handler.step(at(20));
    let spans = handler.into_spans(50);
    assert_eq!(spans.len(), 1);
    assert_eq!(error_of(&spans[0]), Some("unterminated".to_string()));
    assert_eq!(spans[0].end_time(), Some(50));
    let mut done = handler_for(Some("World"));
    done.complete(7);
    let spans = done.into_spans(900);
    assert_eq!(spans.len(), 3);
    assert!(spans.iter().all(|span| matches!(span.status(), SpanStatus::Okay)));
    assert!(spans.iter().all(|span| span.end_time() == Some(7)));
}

#[test]
fn the_sink_marks_the_current_span_and_asks_for_capture() {
    let root = TraceContext { trace_id: 1, parent_span_id: None, sampled: true };
    let error = AppError::invalid_input("Message cannot be empty");
    let mut empty = SpanHierarchy::new(root, 0);
    assert!(matches!(report(&mut empty, &error), Action::Capture { .. }));
    assert_eq!(empty.len(), 0);
    let mut hierarchy = SpanHierarchy::new(root, 0);
    hierarchy.enter("server", SpanKind::Server, Vec::new(), 1);
    let action = report(&mut hierarchy, &error);
    assert!(matches!(action, Action::Capture { error } if error.description() == "Message cannot be empty"));
    assert_eq!(error_of(hierarchy.span(0)), Some("Message cannot be empty".to_string()));
}
