//! Carries a trace context across the network boundary: decodes it from the
//! headers of an inbound request and encodes it into those of an outbound one.
//!
//! The wire format is Sentry's `sentry-trace` header,
//! `<trace id>-<span id>[-<sampled>]`. Reading and writing that header is left
//! to the `sentry` crate; this module decides which header is read and what
//! context comes of it.

use vstd::prelude::*;

use crate::carrier::lookup;
use crate::carrier::with_header;
use crate::carrier::HeaderCarrier;
use crate::carrier::lemma_set_then_get;
use crate::hex::all_hex;
use crate::hex::hex_text;
use crate::hex::hex_value;
use crate::hex::lemma_hex_text_value;
use crate::hex::lemma_hex_value_bound;
use crate::hex::lemma_pow16_widths;
use crate::hex::parse_hex;
use crate::text::characters;

verus! {

/// The trace that a request belongs to, as it is handed from span to span.
#[derive(Debug, Clone, Copy, PartialEq, Eq, Structural)]
pub struct TraceContext {
    /// Shared by every span of one logical request chain.
    pub trace_id: u128,
    /// The span under which new spans are opened; `None` at the root of a trace.
    pub parent_span_id: Option<u64>,
    /// Whether spans under this context are exported.
    pub sampled: bool,
}

/// What a `sentry-trace` header holds: trace id, span id, sampling decision.
pub type TraceFields = (u128, u64, Option<bool>);

/// The text of the sampling decision at the end of a header.
pub open spec fn flag_text(sampled: Option<bool>) -> Seq<char> {
    match sampled {
        Some(true) => seq!['-', '1'],
        Some(false) => seq!['-', '0'],
        None => Seq::empty(),
    }
}

/// The header in its canonical spelling: 32 and 16 lowercase hexadecimal
/// digits, and the decision as `-1` or `-0` where there is one.
pub open spec fn sentry_trace_text(trace_id: u128, span_id: u64, sampled: Option<bool>) -> Seq<
    char,
> {
    hex_text(trace_id as nat, 32) + seq!['-'] + hex_text(span_id as nat, 16) + flag_text(sampled)
}

/// Whether `text` is a header in canonical spelling.
pub open spec fn is_canonical(text: Seq<char>) -> bool {
    &&& text.len() == 49 || text.len() == 51
    &&& all_hex(text.subrange(0, 32))
    &&& text[32] == '-'
    &&& all_hex(text.subrange(33, 49))
    &&& text.len() == 51 ==> text[49] == '-' && (text[50] == '0' || text[50] == '1')
}

/// What a canonical header holds.
pub open spec fn canonical_fields(text: Seq<char>) -> TraceFields {
    (
        hex_value(text.subrange(0, 32)) as u128,
        hex_value(text.subrange(33, 49)) as u64,
        if text.len() == 51 {
            Some(text[50] == '1')
        } else {
            None
        },
    )
}

/// The canonical spelling of what Sentry reads from the one header `name:
/// value`, or `None` where it finds no trace in it.
pub uninterp spec fn sentry_trace_canonical(name: Seq<char>, value: Seq<char>) -> Option<Seq<char>>;

/// Has Sentry read one header and say what it found, in canonical spelling.
///
/// Trusted: the call is `sentry::TracePropagationContext::try_from_headers`
/// on the single pair. What it returns keeps its fields to itself, so it is
/// turned into text by its own `sentry_trace_header`. The result depends on
/// the two strings alone and is given its name. One fact is claimed besides:
/// a `sentry-trace` header that is already canonical is read and written back
/// letter for letter (the ids are parsed from hexadecimal and printed as
/// lowercase hexadecimal of the same width, the decision as `1` or `0`).
#[verifier::external_body]
fn read_sentry_trace(name: &str, value: &str) -> (canonical: Option<String>)
    ensures
        canonical is Some <==> sentry_trace_canonical(name@, value@) is Some,
        canonical matches Some(text) ==> sentry_trace_canonical(name@, value@) == Some(text@),
        canonical matches Some(text) ==> (name@ == "sentry-trace"@ && is_canonical(value@) ==> text@
            == value@),
        canonical is None ==> !(name@ == "sentry-trace"@ && is_canonical(value@)),
{
    match sentry::TracePropagationContext::try_from_headers([(name, value)]) {
        Ok(context) => Some(context.sentry_trace_header()),
        Err(_) => None,
    }
}

/// Has Sentry write the header for a trace id, a span id and a decision.
///
/// Trusted: the call is `sentry_trace_header` of
/// `sentry::TracePropagationContext`, on a value made by `new` from the two
/// ids as big-endian bytes and by `with_sampled`. It prints each id as
/// lowercase hexadecimal, two digits a byte, and the decision as `-1` or
/// `-0`.
#[verifier::external_body]
fn write_sentry_trace(trace_id: u128, span_id: u64, sampled: bool) -> (text: String)
    ensures
        text@ == sentry_trace_text(trace_id, span_id, Some(sampled)),
{
    sentry::TracePropagationContext::new(
        trace_id.to_be_bytes().into(),
        span_id.to_be_bytes().into(),
    ).with_sampled(sampled).sentry_trace_header()
}

/// Draws a trace id for a trace that starts here.
///
/// Trusted: `new_trace_id` of `opentelemetry_sdk`'s `RandomIdGenerator`. The
/// id is random, so nothing is promised of it.
#[verifier::external_body]
fn fresh_trace_id() -> u128 {
    let generator = opentelemetry_sdk::trace::RandomIdGenerator::default();
    let id = opentelemetry_sdk::trace::IdGenerator::new_trace_id(&generator);
    u128::from_be_bytes(id.to_bytes())
}

/// The canonical spelling is canonical, and holds what was written.
pub proof fn lemma_text_is_canonical(trace_id: u128, span_id: u64, sampled: Option<bool>)
    ensures
        is_canonical(sentry_trace_text(trace_id, span_id, sampled)),
        canonical_fields(sentry_trace_text(trace_id, span_id, sampled)) == (
            trace_id,
            span_id,
            sampled,
        ),
{
    lemma_pow16_widths();
    lemma_hex_text_value(trace_id as nat, 32);
    lemma_hex_text_value(span_id as nat, 16);
    let text = sentry_trace_text(trace_id, span_id, sampled);
    assert(text.subrange(0, 32) == hex_text(trace_id as nat, 32));
    assert(text.subrange(33, 49) == hex_text(span_id as nat, 16));
}

/// Reads a header in canonical spelling. Any other text gives `None`.
pub fn read_canonical(text: &str) -> (fields: Option<TraceFields>)
    ensures
        fields == if is_canonical(text@) {
            Some(canonical_fields(text@))
        } else {
            None
        },
{
    let chars = characters(text);
    if chars.len() != 49 && chars.len() != 51 {
        return None;
    }
    if chars[32] != '-' {
        return None;
    }
    let sampled = if chars.len() == 51 {
        if chars[49] != '-' {
            return None;
        }
        if chars[50] == '1' {
            Some(true)
        } else if chars[50] == '0' {
            Some(false)
        } else {
            return None;
        }
    } else {
        None
    };
    let trace_id = match parse_hex(&chars, 0, 32) {
        Some(id) => id,
        None => {
            return None;
        },
    };
    let span_id = match parse_hex(&chars, 33, 16) {
        Some(id) => id,
        None => {
            return None;
        },
    };
    proof {
        lemma_pow16_widths();
        lemma_hex_value_bound(chars@.subrange(33, 49));
    }
    Some((trace_id, span_id as u64, sampled))
}

/// What the headers of a request say of its trace, if anything.
pub open spec fn decoded(headers: Seq<(Seq<char>, Seq<char>)>) -> Option<TraceFields> {
    match lookup(headers, "sentry-trace"@) {
        Some(value) => match sentry_trace_canonical("sentry-trace"@, value) {
            Some(text) => if is_canonical(text) {
                Some(canonical_fields(text))
            } else {
                None
            },
            None => None,
        },
        None => None,
    }
}

/// The context of a request: the one its headers hold, with `default_sampled`
/// where they leave the decision open; without one, the root of a new trace
/// with the id `fresh_trace_id`.
pub open spec fn context_of(
    fields: Option<TraceFields>,
    fresh_trace_id: u128,
    default_sampled: bool,
) -> TraceContext {
    match fields {
        Some((trace_id, span_id, sampled)) => TraceContext {
            trace_id,
            parent_span_id: Some(span_id),
            sampled: match sampled {
                Some(decision) => decision,
                None => default_sampled,
            },
        },
        None => TraceContext { trace_id: fresh_trace_id, parent_span_id: None, sampled: default_sampled },
    }
}

/// Whether `context` is what `extract` may return for `headers`: the context
/// that the headers hold or, without one, the root of a trace of any id. A
/// `sentry-trace` header in canonical spelling is always taken as it stands.
pub open spec fn extracts(
    headers: Seq<(Seq<char>, Seq<char>)>,
    default_sampled: bool,
    context: TraceContext,
) -> bool {
    &&& context == context_of(decoded(headers), context.trace_id, default_sampled)
    &&& lookup(headers, "sentry-trace"@) matches Some(value) ==> (is_canonical(value) ==> decoded(
        headers,
    ) == Some(canonical_fields(value)))
}

/// Builds the context of a request from what its headers gave and a trace id
/// to use where they gave nothing.
pub fn context_from(fields: Option<TraceFields>, fresh_trace_id: u128, default_sampled: bool) -> (context:
    TraceContext)
    ensures
        context == context_of(fields, fresh_trace_id, default_sampled),
{
    match fields {
        Some((trace_id, span_id, sampled)) => TraceContext {
            trace_id,
            parent_span_id: Some(span_id),
            sampled: match sampled {
                Some(decision) => decision,
                None => default_sampled,
            },
        },
        None => TraceContext { trace_id: fresh_trace_id, parent_span_id: None, sampled: default_sampled },
    }
}

/// Decodes the trace context of an inbound request. Where the headers hold
/// none, or one that cannot be read, the request starts a trace of its own:
/// the context has a newly drawn trace id, no parent span, and the default
/// sampling decision. This never fails the request.
pub fn extract(carrier: &HeaderCarrier, default_sampled: bool) -> (context: TraceContext)
    ensures
        extracts(carrier@, default_sampled, context),
{
    let fields = match carrier.get("sentry-trace") {
        Some(value) => match read_sentry_trace("sentry-trace", value) {
            Some(text) => read_canonical(text.as_str()),
            None => None,
        },
        None => None,
    };
    let trace_id = match fields {
        Some((trace_id, _, _)) => trace_id,
        None => fresh_trace_id(),
    };
    context_from(fields, trace_id, default_sampled)
}

/// Whether a context can be sent on: it names a trace and a span.
pub open spec fn injectable(context: TraceContext) -> bool {
    &&& context.trace_id != 0
    &&& context.parent_span_id matches Some(span_id) && span_id != 0
}

/// The headers of an outbound request after `context` was written to them.
pub open spec fn injected(headers: Seq<(Seq<char>, Seq<char>)>, context: TraceContext) -> Seq<
    (Seq<char>, Seq<char>),
> {
    if injectable(context) {
        with_header(
            headers,
            "sentry-trace"@,
            sentry_trace_text(context.trace_id, context.parent_span_id->0, Some(context.sampled)),
        )
    } else {
        headers
    }
}

/// Encodes `context` into the headers of an outbound request, in place of any
/// trace header they hold. A context that names no trace or no span has
/// nothing to send, and leaves the headers as they are.
pub fn inject(context: &TraceContext, carrier: &mut HeaderCarrier)
    ensures
        final(carrier)@ == injected(old(carrier)@, *context),
{
    if context.trace_id != 0 {
        if let Some(span_id) = context.parent_span_id {
            if span_id != 0 {
                let text = write_sentry_trace(context.trace_id, span_id, context.sampled);
                carrier.set("sentry-trace", text.as_str());
            }
        }
    }
}

/// Round trip: a context that was injected into a carrier is what every
/// extraction from that carrier returns, trace id, span and decision alike,
/// whatever the carrier held before.
pub proof fn lemma_inject_then_extract(
    headers: Seq<(Seq<char>, Seq<char>)>,
    context: TraceContext,
    default_sampled: bool,
    extracted: TraceContext,
)
    requires
        injectable(context),
        extracts(injected(headers, context), default_sampled, extracted),
    ensures
        extracted == context,
{
    let span_id = context.parent_span_id->0;
    let text = sentry_trace_text(context.trace_id, span_id, Some(context.sampled));
    lemma_text_is_canonical(context.trace_id, span_id, Some(context.sampled));
    lemma_set_then_get(headers, "sentry-trace"@, text);
}

/// Round trip from the wire: where the headers of a request hold a trace, and
/// the context extracted from them is injected into other headers, extracting
/// again gives the same trace id.
pub proof fn lemma_extract_inject_extract(
    inbound: Seq<(Seq<char>, Seq<char>)>,
    outbound: Seq<(Seq<char>, Seq<char>)>,
    default_sampled: bool,
    first: TraceContext,
    second: TraceContext,
)
    requires
        decoded(inbound) is Some,
        extracts(inbound, default_sampled, first),
        injectable(first),
        extracts(injected(outbound, first), default_sampled, second),
    ensures
        second.trace_id == first.trace_id,
        second == first,
{
    lemma_inject_then_extract(outbound, first, default_sampled, second);
}

} // verus!
