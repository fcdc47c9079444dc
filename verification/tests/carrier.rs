use request_tracing::carrier::names_match;
use request_tracing::carrier::to_lower;
use request_tracing::carrier::Header;
use request_tracing::carrier::HeaderCarrier;
use request_tracing::text::characters;
use request_tracing::text::same_text;

fn sample() -> HeaderCarrier {
    HeaderCarrier::new(vec![
        Header::new("Host", "localhost:3001"),
        Header::new("Accept", "text/plain"),
        Header::new("accept", "application/json"),
        Header::new("X-Request-Id", "42"),
        Header::new("HOST", "ignored"),
    ])
}

#[test]
fn lookup_ignores_ascii_case() {
    let carrier = sample();
    assert_eq!(carrier.get("host"), Some("localhost:3001"));
    assert_eq!(carrier.get("HOST"), Some("localhost:3001"));
    assert_eq!(carrier.get("x-request-id"), Some("42"));
}

#[test]
fn lookup_gives_the_first_value_of_a_repeated_name() {
    let carrier = sample();
    assert_eq!(carrier.get("ACCEPT"), Some("text/plain"));
}

#[test]
fn lookup_of_an_absent_name_gives_none() {
    let carrier = sample();
    assert_eq!(carrier.get("sentry-trace"), None);
    assert_eq!(carrier.get(""), None);
    assert_eq!(carrier.get("hos"), None);
    assert_eq!(HeaderCarrier::new(Vec::new()).get("host"), None);
}

#[test]
fn keys_list_each_name_once_in_order_of_first_appearance() {
    let carrier = sample();
    assert_eq!(carrier.keys(), vec!["Host", "Accept", "X-Request-Id"]);
    assert_eq!(carrier.len(), 5);
    assert!(HeaderCarrier::new(Vec::new()).keys().is_empty());
}

#[test]
fn every_key_can_be_looked_up() {
    let carrier = sample();
    for key in carrier.keys() {
        assert!(carrier.get(key).is_some());
    }
}

#[test]
fn set_replaces_every_header_of_the_name() {
    let mut carrier = sample();
    carrier.set("Accept", "image/png");
    assert_eq!(carrier.get("accept"), Some("image/png"));
    assert_eq!(carrier.keys(), vec!["Host", "X-Request-Id", "Accept"]);
    assert_eq!(carrier.len(), 4);
    assert_eq!(carrier.get("host"), Some("localhost:3001"));
}

#[test]
fn set_on_an_empty_carrier_adds_the_header() {
    let mut carrier = HeaderCarrier::new(Vec::new());
    carrier.set("sentry-trace", "abc");
    assert_eq!(carrier.len(), 1);
    assert_eq!(carrier.get("Sentry-Trace"), Some("abc"));
}

#[test]
fn names_match_only_up_to_ascii_case() {
    assert!(names_match("Content-Type", "content-type"));
    assert!(names_match("", ""));
    assert!(!names_match("content-type", "content_type"));
    assert!(!names_match("a", "ab"));
    // Case folding stops at ASCII: these differ as header names.
    assert!(!names_match("\u{c9}", "\u{e9}"));
    assert!(!names_match("@", "`"));
    assert!(!names_match("[", "{"));
}

#[test]
fn to_lower_changes_capital_letters_only() {
    assert_eq!(to_lower('A'), 'a');
    assert_eq!(to_lower('Z'), 'z');
    assert_eq!(to_lower('m'), 'm');
    assert_eq!(to_lower('@'), '@');
    assert_eq!(to_lower('['), '[');
    assert_eq!(to_lower('-'), '-');
    assert_eq!(to_lower('\u{c9}'), '\u{c9}');
}

#[test]
fn characters_and_same_text() {
    assert_eq!(characters("a\u{e9}z"), vec!['a', '\u{e9}', 'z']);
    assert!(characters("").is_empty());
    assert!(same_text("params", "params"));
    assert!(!same_text("params", "Params"));
    assert!(!same_text("params", "param"));
    assert!(same_text("", ""));
}
