use request_tracing::propagation::TraceContext;
use request_tracing::span::end_span;
use request_tracing::span::open_span;
use request_tracing::span::start_span;
use request_tracing::span::Attribute;
use request_tracing::span::AttributeValue;
use request_tracing::span::Span;
use request_tracing::span::SpanKind;
use request_tracing::span::SpanStatus;

fn parent() -> TraceContext {
    TraceContext { trace_id: 77, parent_span_id: Some(5), sampled: true }
}

fn text_of(value: Option<&AttributeValue>) -> Option<String> {
    match value {
        Some(AttributeValue::Text(text)) => Some(text.clone()),
        _ => None,
    }
}

fn error_of(span: &Span) -> Option<String> {
    match span.status() {
        SpanStatus::Error { description } => Some(description.clone()),
        _ => None,
    }
}

#[test]
fn an_opened_span_takes_trace_and_parent_from_its_context() {
    let attributes = vec![Attribute::text("params", "message=hi")];
    let (span, context) = open_span(&parent(), 9, "handle_hello", SpanKind::Server, attributes, 1000);
    assert_eq!(span.span_id(), 9);
    assert_eq!(span.trace_id(), 77);
    assert_eq!(span.parent_span_id(), Some(5));
    assert_eq!(span.name(), "handle_hello");
    assert_eq!(span.kind(), SpanKind::Server);
    assert_eq!(span.start_time(), 1000);
    assert_eq!(span.end_time(), None);
    assert!(span.is_open());
    assert!(matches!(span.status(), SpanStatus::Unset));
    assert_eq!(text_of(span.attribute("params")), Some("message=hi".to_string()));
    assert_eq!(context, TraceContext { trace_id: 77, parent_span_id: Some(9), sampled: true });
    assert_eq!(span.context(false), TraceContext { trace_id: 77, parent_span_id: Some(9), sampled: false });
}

#[test]
fn a_span_at_the_root_of_a_trace_has_no_parent() {
    let root = TraceContext { trace_id: 3, parent_span_id: None, sampled: false };
    let (span, context) = open_span(&root, 4, "root", SpanKind::Client, Vec::new(), 0);
    assert_eq!(span.parent_span_id(), None);
    assert_eq!(span.kind(), SpanKind::Client);
    assert_eq!(context, TraceContext { trace_id: 3, parent_span_id: Some(4), sampled: false });
}

#[test]
fn a_started_span_differs_from_an_opened_one_in_its_id_only() {
    let (span, context) = start_span(&parent(), "validate_params", SpanKind::Internal, Vec::new(), 12);
    assert_eq!(span.trace_id(), 77);
    assert_eq!(span.parent_span_id(), Some(5));
    assert_eq!(span.name(), "validate_params");
    assert_eq!(span.kind(), SpanKind::Internal);
    assert_eq!(span.start_time(), 12);
    assert!(span.is_open());
    assert!(matches!(span.status(), SpanStatus::Unset));
    assert_eq!(context.trace_id, 77);
    assert_eq!(context.parent_span_id, Some(span.span_id()));
    assert!(context.sampled);
}

#[test]
fn ending_a_span_records_time_and_status() {
    let (mut span, _) = open_span(&parent(), 9, "work", SpanKind::Internal, Vec::new(), 1000);
    end_span(&mut span, SpanStatus::Okay, 1250);
    assert_eq!(span.end_time(), Some(1250));
    assert!(!span.is_open());
    assert!(matches!(span.status(), SpanStatus::Okay));
}

#[test]
fn a_span_never_ends_before_it_started() {
    let (mut span, _) = open_span(&parent(), 9, "work", SpanKind::Internal, Vec::new(), 1000);
    end_span(&mut span, SpanStatus::error("late clock"), 400);
    assert_eq!(span.end_time(), Some(1000));
    assert_eq!(error_of(&span), Some("late clock".to_string()));
}

#[test]
fn an_ended_span_does_not_change_any_more() {
    let (mut span, _) = open_span(&parent(), 9, "work", SpanKind::Internal, Vec::new(), 1000);
    end_span(&mut span, SpanStatus::Okay, 1100);
    end_span(&mut span, SpanStatus::error("again"), 1200);
    span.set_status(SpanStatus::error("after the end"));
    span.set_attribute("key", AttributeValue::Flag(true));
    assert_eq!(span.end_time(), Some(1100));
    assert!(matches!(span.status(), SpanStatus::Okay));
    assert!(span.attribute("key").is_none());
}

#[test]
fn the_last_value_set_for_an_attribute_counts() {
    let (mut span, _) = open_span(&parent(), 9, "work", SpanKind::Internal, Vec::new(), 0);
    assert!(span.attribute("retries").is_none());
    span.set_attribute("retries", AttributeValue::Number(1));
    span.set_attribute("cached", AttributeValue::Flag(false));
    span.set_attribute("retries", AttributeValue::Number(2));
    assert!(matches!(span.attribute("retries"), Some(AttributeValue::Number(2))));
    assert!(matches!(span.attribute("cached"), Some(AttributeValue::Flag(false))));
    assert!(span.attribute("Retries").is_none());
}

#[test]
fn the_status_of_an_open_span_can_be_set() {
    let (mut span, _) = open_span(&parent(), 9, "work", SpanKind::Internal, Vec::new(), 0);
    span.set_status(SpanStatus::error("Message cannot be empty"));
    assert_eq!(error_of(&span), Some("Message cannot be empty".to_string()));
    assert!(span.is_open());
    span.set_status(SpanStatus::Okay);
    assert!(matches!(span.status(), SpanStatus::Okay));
}
