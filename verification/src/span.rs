//! One unit of work of a request: a span with its timing, attributes and
//! terminal status.
//!
//! A span is created open and with status `Unset`. Its owner may set
//! attributes and the status while it is open. Ending it records the end time
//! and the final status; from then on nothing changes it.

use vstd::prelude::*;

use crate::propagation::TraceContext;
use crate::text::same_text;

verus! {

/// The role of a span in a request.
#[derive(Debug, Clone, Copy, PartialEq, Eq, Structural)]
pub enum SpanKind {
    Server,
    Internal,
    Client,
}

/// The value of a span attribute, as written by the owner of the span.
#[derive(Debug, Clone)]
pub enum AttributeValue {
    Text(String),
    Number(i64),
    Flag(bool),
}

/// The value of a span attribute, as mathematics sees it.
pub enum AttributeModel {
    Text(Seq<char>),
    Number(i64),
    Flag(bool),
}

impl AttributeValue {
    pub open spec fn view(self) -> AttributeModel {
        match self {
            AttributeValue::Text(text) => AttributeModel::Text(text@),
            AttributeValue::Number(number) => AttributeModel::Number(number),
            AttributeValue::Flag(flag) => AttributeModel::Flag(flag),
        }
    }
}

/// One attribute of a span: a key and its value.
#[derive(Debug, Clone)]
pub struct Attribute {
    pub key: String,
    pub value: AttributeValue,
}

impl Attribute {
    pub open spec fn view(self) -> (Seq<char>, AttributeModel) {
        (self.key@, self.value@)
    }

    /// An attribute with a text value.
    pub fn text(key: &str, value: &str) -> (attribute: Attribute)
        ensures
            attribute@ == (key@, AttributeModel::Text(value@)),
    {
        Attribute { key: key.to_owned(), value: AttributeValue::Text(value.to_owned()) }
    }
}

/// The mapping that a list of attributes stands for: where a key occurs more
/// than once, its last value counts.
pub open spec fn attribute_map(entries: Seq<(Seq<char>, AttributeModel)>) -> Map<
    Seq<char>,
    AttributeModel,
>
    decreases entries.len(),
{
    if entries.len() == 0 {
        Map::empty()
    } else {
        attribute_map(entries.drop_last()).insert(entries.last().0, entries.last().1)
    }
}

/// The plain values of a list of attributes.
pub open spec fn attribute_entries(attributes: Seq<Attribute>) -> Seq<(Seq<char>, AttributeModel)> {
    attributes.map_values(|a: Attribute| a@)
}

/// How a span ended, or that it has not been said yet.
#[derive(Debug, Clone)]
pub enum SpanStatus {
    Unset,
    Okay,
    Error { description: String },
}

/// The status of a span, as mathematics sees it.
pub enum StatusModel {
    Unset,
    Okay,
    Error(Seq<char>),
}

impl SpanStatus {
    pub open spec fn view(self) -> StatusModel {
        match self {
            SpanStatus::Unset => StatusModel::Unset,
            SpanStatus::Okay => StatusModel::Okay,
            SpanStatus::Error { description } => StatusModel::Error(description@),
        }
    }

    /// The error status with the given description.
    pub fn error(description: &str) -> (status: SpanStatus)
        ensures
            status@ == StatusModel::Error(description@),
    {
        SpanStatus::Error { description: description.to_owned() }
    }
}

/// A span, as mathematics sees it.
pub struct SpanModel {
    pub span_id: u64,
    pub trace_id: u128,
    pub parent_span_id: Option<u64>,
    pub name: Seq<char>,
    pub kind: SpanKind,
    pub start_time: u64,
    pub end_time: Option<u64>,
    pub attributes: Map<Seq<char>, AttributeModel>,
    pub status: StatusModel,
}

impl SpanModel {
    /// Whether the span has not been ended.
    pub open spec fn is_open(self) -> bool {
        self.end_time is None
    }

    /// Well-formedness: a span does not end before it starts.
    pub open spec fn wf(self) -> bool {
        self.end_time matches Some(end) ==> self.start_time <= end
    }

    /// The context under which children of this span are opened.
    pub open spec fn context(self, sampled: bool) -> TraceContext {
        TraceContext { trace_id: self.trace_id, parent_span_id: Some(self.span_id), sampled }
    }
}

/// The span that is opened under `parent` at the time `now`.
pub open spec fn opened(
    parent: TraceContext,
    span_id: u64,
    name: Seq<char>,
    kind: SpanKind,
    attributes: Seq<(Seq<char>, AttributeModel)>,
    now: u64,
) -> SpanModel {
    SpanModel {
        span_id,
        trace_id: parent.trace_id,
        parent_span_id: parent.parent_span_id,
        name,
        kind,
        start_time: now,
        end_time: None,
        attributes: attribute_map(attributes),
        status: StatusModel::Unset,
    }
}

/// The later of two times.
pub open spec fn later(a: u64, b: u64) -> u64 {
    if a >= b {
        a
    } else {
        b
    }
}

/// `span` after it was ended at `now` with `status`. The end is never put
/// before the start, and a span that has ended stays as it is.
pub open spec fn ended(span: SpanModel, status: StatusModel, now: u64) -> SpanModel {
    if span.is_open() {
        SpanModel { end_time: Some(later(now, span.start_time)), status, ..span }
    } else {
        span
    }
}

/// `span` after `status` was set on it.
pub open spec fn with_status(span: SpanModel, status: StatusModel) -> SpanModel {
    if span.is_open() {
        SpanModel { status, ..span }
    } else {
        span
    }
}

/// `span` after the attribute `key` was set to `value`.
pub open spec fn with_attribute(span: SpanModel, key: Seq<char>, value: AttributeModel) -> SpanModel {
    if span.is_open() {
        SpanModel { attributes: span.attributes.insert(key, value), ..span }
    } else {
        span
    }
}

/// A span of a trace.
#[derive(Debug, Clone)]
pub struct Span {
    span_id: u64,
    trace_id: u128,
    parent_span_id: Option<u64>,
    name: String,
    kind: SpanKind,
    start_time: u64,
    end_time: Option<u64>,
    attributes: Vec<Attribute>,
    status: SpanStatus,
}

impl Span {
    pub closed spec fn view(self) -> SpanModel {
        SpanModel {
            span_id: self.span_id,
            trace_id: self.trace_id,
            parent_span_id: self.parent_span_id,
            name: self.name@,
            kind: self.kind,
            start_time: self.start_time,
            end_time: self.end_time,
            attributes: attribute_map(attribute_entries(self.attributes@)),
            status: self.status@,
        }
    }

    pub fn span_id(&self) -> (id: u64)
        ensures
            id == self@.span_id,
    {
        self.span_id
    }

    pub fn trace_id(&self) -> (id: u128)
        ensures
            id == self@.trace_id,
    {
        self.trace_id
    }

    pub fn parent_span_id(&self) -> (id: Option<u64>)
        ensures
            id == self@.parent_span_id,
    {
        self.parent_span_id
    }

    pub fn name(&self) -> (name: &str)
        ensures
            name@ == self@.name,
    {
        self.name.as_str()
    }

    pub fn kind(&self) -> (kind: SpanKind)
        ensures
            kind == self@.kind,
    {
        self.kind
    }

    pub fn start_time(&self) -> (time: u64)
        ensures
            time == self@.start_time,
    {
        self.start_time
    }

    pub fn end_time(&self) -> (time: Option<u64>)
        ensures
            time == self@.end_time,
    {
        self.end_time
    }

    pub fn status(&self) -> (status: &SpanStatus)
        ensures
            status@ == self@.status,
    {
        &self.status
    }

    /// Whether the span has not been ended.
    pub fn is_open(&self) -> (open: bool)
        ensures
            open == self@.is_open(),
    {
        self.end_time.is_none()
    }

    /// The value of the attribute `key`, if the span has one.
    pub fn attribute(&self, key: &str) -> (value: Option<&AttributeValue>)
        ensures
            value is Some <==> self@.attributes.contains_key(key@),
            value matches Some(found) ==> found@ == self@.attributes[key@],
    {
        let ghost entries = attribute_entries(self.attributes@);
        let mut i: usize = self.attributes.len();
        assert(entries.take(i as int) == entries);
        while i > 0
            invariant
                i <= self.attributes.len(),
                entries == attribute_entries(self.attributes@),
                attribute_map(entries).contains_key(key@) <==> attribute_map(
                    entries.take(i as int),
                ).contains_key(key@),
                attribute_map(entries).contains_key(key@) ==> attribute_map(entries)[key@]
                    == attribute_map(entries.take(i as int))[key@],
            decreases i,
        {
            let ghost upto = entries.take(i as int);
            assert(upto.drop_last() == entries.take(i - 1));
            assert(upto.last() == self.attributes@[i - 1]@);
            i -= 1;
            if same_text(self.attributes[i].key.as_str(), key) {
                return Some(&self.attributes[i].value);
            }
        }
        None
    }

    /// The context under which children of this span are opened.
    pub fn context(&self, sampled: bool) -> (context: TraceContext)
        ensures
            context == self@.context(sampled),
    {
        TraceContext { trace_id: self.trace_id, parent_span_id: Some(self.span_id), sampled }
    }

    /// Sets an attribute. On a span that has ended this does nothing.
    pub fn set_attribute(&mut self, key: &str, value: AttributeValue)
        ensures
            final(self)@ == with_attribute(old(self)@, key@, value@),
            old(self)@.wf() ==> final(self)@.wf(),
    {
        if self.end_time.is_none() {
            let ghost before = attribute_entries(self.attributes@);
            self.attributes.push(Attribute { key: key.to_owned(), value });
            assert(attribute_entries(self.attributes@).drop_last() == before);
        }
    }

    /// Sets the status. On a span that has ended this does nothing.
    pub fn set_status(&mut self, status: SpanStatus)
        ensures
            final(self)@ == with_status(old(self)@, status@),
            old(self)@.wf() ==> final(self)@.wf(),
    {
        if self.end_time.is_none() {
            self.status = status;
        }
    }
}

/// The context that spans opened under the span `span_id` are given.
pub open spec fn child_context(parent: TraceContext, span_id: u64) -> TraceContext {
    TraceContext { trace_id: parent.trace_id, parent_span_id: Some(span_id), sampled: parent.sampled }
}

/// Opens a span with a given id under `parent`, and derives the context whose
/// current span it is.
pub fn open_span(
    parent: &TraceContext,
    span_id: u64,
    name: &str,
    kind: SpanKind,
    attributes: Vec<Attribute>,
    now: u64,
) -> (opening: (Span, TraceContext))
    ensures
        opening.0@ == opened(*parent, span_id, name@, kind, attribute_entries(attributes@), now),
        opening.0@.wf(),
        opening.1 == child_context(*parent, span_id),
{
    let span = Span {
        span_id,
        trace_id: parent.trace_id,
        parent_span_id: parent.parent_span_id,
        name: name.to_owned(),
        kind,
        start_time: now,
        end_time: None,
        attributes,
        status: SpanStatus::Unset,
    };
    let context = TraceContext {
        trace_id: parent.trace_id,
        parent_span_id: Some(span_id),
        sampled: parent.sampled,
    };
    (span, context)
}

/// Draws the id of a new span.
///
/// Trusted: `new_span_id` of `opentelemetry_sdk`'s `RandomIdGenerator`. The
/// id is random, so nothing is promised of it.
#[verifier::external_body]
fn fresh_span_id() -> u64 {
    let generator = opentelemetry_sdk::trace::RandomIdGenerator::default();
    let id = opentelemetry_sdk::trace::IdGenerator::new_span_id(&generator);
    u64::from_be_bytes(id.to_bytes())
}

/// Starts a span under `parent`: draws its id, takes the trace id and the
/// parent span from `parent`, records `now` as its start, and returns it with
/// the context whose current span it is. Whatever id is drawn, the rest of the
/// span is fixed by the arguments.
pub fn start_span(
    parent: &TraceContext,
    name: &str,
    kind: SpanKind,
    attributes: Vec<Attribute>,
    now: u64,
) -> (opening: (Span, TraceContext))
    ensures
        opening.0@ == opened(
            *parent,
            opening.0@.span_id,
            name@,
            kind,
            attribute_entries(attributes@),
            now,
        ),
        opening.0@.wf(),
        opening.1 == child_context(*parent, opening.0@.span_id),
{
    open_span(parent, fresh_span_id(), name, kind, attributes, now)
}

/// Ends a span: records its end time, not before its start, and its final
/// status. A span that has ended already is left as it is.
pub fn end_span(span: &mut Span, status: SpanStatus, now: u64)
    ensures
        final(span)@ == ended(old(span)@, status@, now),
        old(span)@.wf() ==> final(span)@.wf(),
{
    if span.end_time.is_none() {
        let end = if now >= span.start_time {
            now
        } else {
            span.start_time
        };
        span.end_time = Some(end);
        span.status = status;
    }
}

} // verus!
