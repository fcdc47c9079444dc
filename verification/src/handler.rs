//! The handler of the greeting endpoint, as a state machine.
//!
//! One request goes through the phases of [`Phase`] in order. Each call of
//! [`RequestHandler::step`] makes one transition and says what the caller is
//! to do before the next: nothing, wait, forward an error to the capture
//! channel, or send the response. The handler never waits or sends itself.

use vstd::prelude::*;

use crate::carrier::HeaderCarrier;
use crate::error::AppError;
use crate::error::ErrorModel;
use crate::hierarchy::lemma_child_within_parent;
use crate::hierarchy::lemma_complete_all_ended;
use crate::hierarchy::lemma_entered_wf;
use crate::hierarchy::lemma_unwound_wf;
use crate::hierarchy::lemma_exit_innermost;
use crate::hierarchy::lemma_exited_wf;
use crate::hierarchy::lemma_marked_wf;
use crate::hierarchy::HierarchyModel;
use crate::hierarchy::ScopeGuard;
use crate::hierarchy::SpanHierarchy;
use crate::propagation::extract;
use crate::propagation::extracts;
use crate::propagation::TraceContext;
use crate::request::describe_request;
use crate::request::names_of;
use crate::request::server_attributes;
use crate::request::validate_message;
use crate::request::verdict;
use crate::request::HelloParams;
use crate::response::failure_view;
use crate::response::success_response;
use crate::response::success_view;
use crate::response::HttpResponse;
use crate::span::attribute_entries;
use crate::span::attribute_map;
use crate::span::Attribute;
use crate::span::Span;
use crate::span::SpanKind;
use crate::span::SpanModel;
use crate::span::SpanStatus;
use crate::span::StatusModel;

verus! {

/// How long the handling of a request is made to take before validation, in
/// milliseconds.
pub const HANDLING_MILLIS: u64 = 200;

/// How long validation is made to take, in milliseconds.
pub const VALIDATION_MILLIS: u64 = 50;

/// How long the unit of work is made to take, in milliseconds.
pub const WORK_MILLIS: u64 = 200;

/// Where the handling of a request stands.
#[derive(Debug, Clone, Copy, PartialEq, Eq, Structural)]
pub enum Phase {
    Received,
    ContextExtracted,
    ServerSpanOpen,
    Validating,
    ValidationFailed,
    ValidationOk,
    WorkSimulating,
    WorkDone,
    ResponseReady,
    Failed,
}

impl Phase {
    /// Whether the request has been answered.
    pub open spec fn is_terminal(self) -> bool {
        self == Phase::ResponseReady || self == Phase::Failed
    }

    /// How many transitions are left at most before the request is answered.
    pub open spec fn remaining(self) -> nat {
        match self {
            Phase::Received => 8,
            Phase::ContextExtracted => 7,
            Phase::ServerSpanOpen => 6,
            Phase::Validating => 5,
            Phase::ValidationOk => 4,
            Phase::WorkSimulating => 3,
            Phase::WorkDone => 2,
            Phase::ValidationFailed => 1,
            Phase::ResponseReady => 0,
            Phase::Failed => 0,
        }
    }
}

/// What the caller of the handler is to do before the next step.
#[derive(Debug, Clone)]
pub enum Action {
    /// Nothing: go on with the next step.
    Proceed,
    /// Let this many milliseconds pass, without blocking other requests.
    Wait { millis: u64 },
    /// Forward the error to the external capture channel, as well as can be.
    Capture { error: AppError },
    /// Send the response: the request is answered.
    Respond { response: HttpResponse },
    /// Nothing is left to do.
    Finished,
}

/// An action, as mathematics sees it.
pub enum ActionModel {
    Proceed,
    Wait(u64),
    Capture(ErrorModel),
    Respond((u16, Seq<char>)),
    Finished,
}

impl Action {
    pub open spec fn view(self) -> ActionModel {
        match self {
            Action::Proceed => ActionModel::Proceed,
            Action::Wait { millis } => ActionModel::Wait(millis),
            Action::Capture { error } => ActionModel::Capture(error@),
            Action::Respond { response } => ActionModel::Respond(response@),
            Action::Finished => ActionModel::Finished,
        }
    }
}

/// What the caller reports back with each step: the time on its clock, and
/// whether the error it was last asked to forward reached the capture
/// channel.
#[derive(Debug, Clone, Copy)]
pub struct Feedback {
    pub now: u64,
    pub delivered: bool,
}

/// What a deployment settles once for all requests.
#[derive(Debug, Clone)]
pub struct HandlerConfig {
    /// The name under which the service greets.
    pub service: String,
    /// The sampling decision for requests that bring none.
    pub default_sampled: bool,
    /// The names of the headers that may be recorded on a span.
    pub recorded_headers: Vec<String>,
}

/// The handling of one request, as mathematics sees it.
pub struct HandlerModel {
    pub service: Seq<char>,
    pub default_sampled: bool,
    pub recorded: Seq<Seq<char>>,
    pub headers: Seq<(Seq<char>, Seq<char>)>,
    pub message: Seq<char>,
    pub phase: Phase,
    pub hierarchy: Option<HierarchyModel>,
    pub server_scope: Option<nat>,
    pub inner_scope: Option<nat>,
    pub failure: Option<ErrorModel>,
    pub response: Option<(u16, Seq<char>)>,
}

/// The hierarchy of a request that has no span yet.
pub open spec fn no_spans(root: TraceContext, now: u64) -> HierarchyModel {
    HierarchyModel {
        root,
        spans: Seq::empty(),
        parents: Seq::empty(),
        open: Seq::empty(),
        clock: now,
    }
}

impl HandlerModel {
    /// The state after one step at the time `now`, and the action that the
    /// step asks for. `root` is the context that extraction gives, and
    /// `span_id` the id of the span that the step opens, where it does
    /// either. Whether an error reached the capture channel has no part in
    /// it.
    pub open spec fn stepped(self, now: u64, root: TraceContext, span_id: u64) -> (
        HandlerModel,
        ActionModel,
    ) {
        let h = self.hierarchy->0;
        match self.phase {
            Phase::Received => (
                HandlerModel {
                    phase: Phase::ContextExtracted,
                    hierarchy: Some(no_spans(root, now)),
                    ..self
                },
                ActionModel::Proceed,
            ),
            Phase::ContextExtracted => (
                HandlerModel {
                    phase: Phase::ServerSpanOpen,
                    hierarchy: Some(
                        h.entered(
                            span_id,
                            "handle_hello"@,
                            SpanKind::Server,
                            server_attributes(self.message, self.headers, self.recorded),
                            now,
                        ),
                    ),
                    server_scope: Some(h.open.len()),
                    ..self
                },
                ActionModel::Wait(HANDLING_MILLIS),
            ),
            Phase::ServerSpanOpen => (
                HandlerModel {
                    phase: Phase::Validating,
                    hierarchy: Some(
                        h.entered(span_id, "validate_params"@, SpanKind::Internal, Seq::empty(), now),
                    ),
                    inner_scope: Some(h.open.len()),
                    ..self
                },
                ActionModel::Wait(VALIDATION_MILLIS),
            ),
            Phase::Validating => match verdict(self.message) {
                Some(error) => (
                    HandlerModel {
                        phase: Phase::ValidationFailed,
                        hierarchy: Some(h.marked(StatusModel::Error(error.detail()))),
                        failure: Some(error),
                        ..self
                    },
                    ActionModel::Capture(error),
                ),
                None => (HandlerModel { phase: Phase::ValidationOk, ..self }, ActionModel::Proceed),
            },
            Phase::ValidationFailed => {
                let error = self.failure->0;
                let status = StatusModel::Error(error.detail());
                (
                    HandlerModel {
                        phase: Phase::Failed,
                        hierarchy: Some(
                            h.exited(self.inner_scope->0, status, now).exited(
                                self.server_scope->0,
                                status,
                                now,
                            ),
                        ),
                        response: Some(failure_view(error)),
                        ..self
                    },
                    ActionModel::Respond(failure_view(error)),
                )
            },
            Phase::ValidationOk => {
                let left = h.exited(self.inner_scope->0, StatusModel::Okay, now);
                (
                    HandlerModel {
                        phase: Phase::WorkSimulating,
                        hierarchy: Some(
                            left.entered(
                                span_id,
                                "simulate_work"@,
                                SpanKind::Internal,
                                Seq::empty(),
                                now,
                            ),
                        ),
                        inner_scope: Some(left.open.len()),
                        ..self
                    },
                    ActionModel::Wait(WORK_MILLIS),
                )
            },
            Phase::WorkSimulating => (
                HandlerModel {
                    phase: Phase::WorkDone,
                    hierarchy: Some(
                        h.marked(StatusModel::Okay).exited(
                            self.inner_scope->0,
                            StatusModel::Okay,
                            now,
                        ),
                    ),
                    ..self
                },
                ActionModel::Proceed,
            ),
            Phase::WorkDone => (
                HandlerModel {
                    phase: Phase::ResponseReady,
                    hierarchy: Some(h.exited(self.server_scope->0, StatusModel::Okay, now)),
                    response: Some(success_view(self.service, self.message)),
                    ..self
                },
                ActionModel::Respond(success_view(self.service, self.message)),
            ),
            Phase::ResponseReady => (self, ActionModel::Finished),
            Phase::Failed => (self, ActionModel::Finished),
        }
    }

    /// Whether one step with the feedback `feedback` may lead from `self` to
    /// `next` with the action `action`: it does, for the context and the
    /// span id that `next` shows to have been drawn.
    pub open spec fn steps_to(self, feedback: Feedback, next: HandlerModel, action: ActionModel) -> bool {
        let root = next.hierarchy->0.root;
        let span_id = next.hierarchy->0.spans.last().span_id;
        &&& (next, action) == self.stepped(feedback.now, root, span_id)
        &&& self.phase == Phase::Received ==> extracts(self.headers, self.default_sampled, root)
    }

    /// The server span is the first span, at the root of the hierarchy.
    pub open spec fn has_server(self) -> bool {
        let h = self.hierarchy->0;
        &&& h.spans.len() >= 1
        &&& h.parents[0] is None
        &&& h.spans[0].kind == SpanKind::Server
        &&& h.spans[0].name == "handle_hello"@
        &&& h.spans[0].attributes == attribute_map(
            server_attributes(self.message, self.headers, self.recorded),
        )
        &&& self.server_scope == Some(0nat)
    }

    /// The validation span is the second span, a child of the server span.
    pub open spec fn has_validation(self) -> bool {
        let h = self.hierarchy->0;
        &&& self.has_server()
        &&& h.spans.len() >= 2
        &&& h.parents[1] == Some(0int)
        &&& h.spans[1].kind == SpanKind::Internal
        &&& h.spans[1].name == "validate_params"@
    }

    /// The work span is the third span, a child of the server span, and the
    /// validation span before it ended well.
    pub open spec fn has_work(self) -> bool {
        let h = self.hierarchy->0;
        &&& self.has_validation()
        &&& h.spans.len() == 3
        &&& h.spans[1].status == StatusModel::Okay
        &&& h.parents[2] == Some(0int)
        &&& h.spans[2].kind == SpanKind::Internal
        &&& h.spans[2].name == "simulate_work"@
        &&& self.message.len() > 0
    }

    /// Well-formedness: what each phase means for the spans of the request,
    /// for what is current among them, and for the response.
    pub open spec fn wf(self) -> bool {
        let h = self.hierarchy->0;
        &&& self.phase == Phase::Received <==> self.hierarchy is None
        &&& self.hierarchy is Some ==> h.wf() && extracts(self.headers, self.default_sampled, h.root)
        &&& self.response is Some <==> self.phase.is_terminal()
        &&& match self.phase {
            Phase::Received => true,
            Phase::ContextExtracted => h.spans.len() == 0 && h.open.len() == 0,
            Phase::ServerSpanOpen => {
                &&& self.has_server()
                &&& h.spans.len() == 1
                &&& h.open == seq![0int]
            },
            Phase::Validating => {
                &&& self.has_validation()
                &&& h.spans.len() == 2
                &&& h.open == seq![0int, 1int]
                &&& self.inner_scope == Some(1nat)
            },
            Phase::ValidationFailed => {
                &&& self.has_validation()
                &&& h.spans.len() == 2
                &&& h.open == seq![0int, 1int]
                &&& self.inner_scope == Some(1nat)
                &&& self.message.len() == 0
                &&& self.failure == verdict(self.message)
            },
            Phase::ValidationOk => {
                &&& self.has_validation()
                &&& h.spans.len() == 2
                &&& h.open == seq![0int, 1int]
                &&& self.inner_scope == Some(1nat)
                &&& self.message.len() > 0
            },
            Phase::WorkSimulating => {
                &&& self.has_work()
                &&& h.open == seq![0int, 2int]
                &&& self.inner_scope == Some(1nat)
            },
            Phase::WorkDone => {
                &&& self.has_work()
                &&& h.open == seq![0int]
                &&& h.spans[2].status == StatusModel::Okay
            },
            Phase::ResponseReady => {
                &&& self.has_work()
                &&& h.complete()
                &&& h.spans[0].status == StatusModel::Okay
                &&& h.spans[2].status == StatusModel::Okay
                &&& self.response == Some(success_view(self.service, self.message))
            },
            Phase::Failed => {
                &&& self.has_validation()
                &&& h.spans.len() == 2
                &&& h.complete()
                &&& self.message.len() == 0
                &&& self.failure == verdict(self.message)
                &&& h.spans[0].status == StatusModel::Error(self.failure->0.detail())
                &&& h.spans[1].status == StatusModel::Error(self.failure->0.detail())
                &&& self.response == Some(failure_view(self.failure->0))
            },
        }
    }
}

/// The error sink: records `error` on the span that is current, if there is
/// one, and asks the caller to forward it to the capture channel. It cannot
/// fail, whatever becomes of the error there.
pub fn report(hierarchy: &mut SpanHierarchy, error: &AppError) -> (action: Action)
    requires
        old(hierarchy).wf(),
    ensures
        final(hierarchy).wf(),
        final(hierarchy)@ == old(hierarchy)@.marked(StatusModel::Error(error@.detail())),
        action@ == ActionModel::Capture(error@),
{
    let description = error.description();
    hierarchy.mark(SpanStatus::error(description.as_str()));
    Action::Capture { error: error.duplicate() }
}

/// The handling of one request.
#[derive(Debug)]
pub struct RequestHandler {
    config: HandlerConfig,
    headers: HeaderCarrier,
    params: HelloParams,
    phase: Phase,
    hierarchy: Option<SpanHierarchy>,
    server_scope: Option<ScopeGuard>,
    inner_scope: Option<ScopeGuard>,
    failure: Option<AppError>,
    response: Option<HttpResponse>,
}

impl RequestHandler {
    pub closed spec fn view(self) -> HandlerModel {
        HandlerModel {
            service: self.config.service@,
            default_sampled: self.config.default_sampled,
            recorded: names_of(self.config.recorded_headers@),
            headers: self.headers@,
            message: self.params.message@,
            phase: self.phase,
            hierarchy: match self.hierarchy {
                Some(hierarchy) => Some(hierarchy@),
                None => None,
            },
            server_scope: match self.server_scope {
                Some(guard) => Some(guard.depth()),
                None => None,
            },
            inner_scope: match self.inner_scope {
                Some(guard) => Some(guard.depth()),
                None => None,
            },
            failure: match self.failure {
                Some(error) => Some(error@),
                None => None,
            },
            response: match self.response {
                Some(response) => Some(response@),
                None => None,
            },
        }
    }

    /// Well-formedness: see [`HandlerModel::wf`].
    pub open spec fn wf(self) -> bool {
        self@.wf()
    }

    /// The handling of a request that has just been received.
    pub fn new(config: HandlerConfig, headers: HeaderCarrier, params: HelloParams) -> (handler:
        RequestHandler)
        ensures
            handler.wf(),
            handler@ == (HandlerModel {
                service: config.service@,
                default_sampled: config.default_sampled,
                recorded: names_of(config.recorded_headers@),
                headers: headers@,
                message: params.message@,
                phase: Phase::Received,
                hierarchy: None,
                server_scope: None,
                inner_scope: None,
                failure: None,
                response: None,
            }),
    {
        RequestHandler {
            config,
            headers,
            params,
            phase: Phase::Received,
            hierarchy: None,
            server_scope: None,
            inner_scope: None,
            failure: None,
            response: None,
        }
    }

    /// Where the handling stands.
    pub fn phase(&self) -> (phase: Phase)
        ensures
            phase == self@.phase,
    {
        self.phase
    }

    /// Whether the request has been answered.
    pub fn is_finished(&self) -> (finished: bool)
        ensures
            finished == self@.phase.is_terminal(),
    {
        match self.phase {
            Phase::ResponseReady => true,
            Phase::Failed => true,
            _ => false,
        }
    }

    /// The response, once the request has been answered.
    pub fn response(&self) -> (response: Option<&HttpResponse>)
        ensures
            match response {
                Some(found) => self@.response == Some(found@),
                None => self@.response is None,
            },
    {
        self.response.as_ref()
    }

    /// The spans of the request, once its context has been extracted.
    pub fn hierarchy(&self) -> (hierarchy: Option<&SpanHierarchy>)
        ensures
            match hierarchy {
                Some(found) => self@.hierarchy == Some(found@),
                None => self@.hierarchy is None,
            },
    {
        self.hierarchy.as_ref()
    }

    /// Makes the next transition, at the time that `feedback` gives, and says
    /// what the caller is to do before the step after it. Whether the error
    /// of a `Capture` reached the capture channel changes nothing: a request
    /// is answered the same with the channel up or down.
    pub fn step(&mut self, feedback: Feedback) -> (action: Action)
        requires
            old(self).wf(),
        ensures
            final(self).wf(),
            old(self)@.steps_to(feedback, final(self)@, action@),
            !old(self)@.phase.is_terminal() ==> final(self)@.phase.remaining()
                < old(self)@.phase.remaining(),
    {
        let now = feedback.now;
        let ghost before = self@;
        let action = match self.phase {
            Phase::Received => {
                let root = extract(&self.headers, self.config.default_sampled);
                self.hierarchy = Some(SpanHierarchy::new(root, now));
                self.phase = Phase::ContextExtracted;
                Action::Proceed
            },
            Phase::ContextExtracted => {
                let attributes = describe_request(
                    &self.params,
                    &self.headers,
                    &self.config.recorded_headers,
                );
                let mut hierarchy = self.hierarchy.take().unwrap();
                let guard = hierarchy.enter("handle_hello", SpanKind::Server, attributes, now);
                self.hierarchy = Some(hierarchy);
                self.server_scope = Some(guard);
                self.phase = Phase::ServerSpanOpen;
                Action::Wait { millis: HANDLING_MILLIS }
            },
            Phase::ServerSpanOpen => {
                let attributes: Vec<Attribute> = Vec::new();
                assert(attribute_entries(attributes@) =~= Seq::empty());
                let mut hierarchy = self.hierarchy.take().unwrap();
                let guard = hierarchy.enter("validate_params", SpanKind::Internal, attributes, now);
                self.hierarchy = Some(hierarchy);
                self.inner_scope = Some(guard);
                self.phase = Phase::Validating;
                Action::Wait { millis: VALIDATION_MILLIS }
            },
            Phase::Validating => {
                match validate_message(&self.params) {
                    Err(error) => {
                        let mut hierarchy = self.hierarchy.take().unwrap();
                        let action = report(&mut hierarchy, &error);
                        self.hierarchy = Some(hierarchy);
                        self.failure = Some(error);
                        self.phase = Phase::ValidationFailed;
                        action
                    },
                    Ok(_) => {
                        self.phase = Phase::ValidationOk;
                        Action::Proceed
                    },
                }
            },
            Phase::ValidationFailed => {
                let error = self.failure.as_ref().unwrap().duplicate();
                let description = error.description();
                let mut hierarchy = self.hierarchy.take().unwrap();
                hierarchy.exit(
                    self.inner_scope.unwrap(),
                    SpanStatus::error(description.as_str()),
                    now,
                );
                hierarchy.exit(
                    self.server_scope.unwrap(),
                    SpanStatus::error(description.as_str()),
                    now,
                );
                self.hierarchy = Some(hierarchy);
                let response = error.into_response();
                self.response = Some(response.duplicate());
                self.phase = Phase::Failed;
                Action::Respond { response }
            },
            Phase::ValidationOk => {
                let attributes: Vec<Attribute> = Vec::new();
                assert(attribute_entries(attributes@) =~= Seq::empty());
                let mut hierarchy = self.hierarchy.take().unwrap();
                hierarchy.exit(self.inner_scope.unwrap(), SpanStatus::Okay, now);
                let guard = hierarchy.enter("simulate_work", SpanKind::Internal, attributes, now);
                self.hierarchy = Some(hierarchy);
                self.inner_scope = Some(guard);
                self.phase = Phase::WorkSimulating;
                Action::Wait { millis: WORK_MILLIS }
            },
            Phase::WorkSimulating => {
                let mut hierarchy = self.hierarchy.take().unwrap();
                hierarchy.mark(SpanStatus::Okay);
                hierarchy.exit(self.inner_scope.unwrap(), SpanStatus::Okay, now);
                self.hierarchy = Some(hierarchy);
                self.phase = Phase::WorkDone;
                Action::Proceed
            },
            Phase::WorkDone => {
                let mut hierarchy = self.hierarchy.take().unwrap();
                hierarchy.exit(self.server_scope.unwrap(), SpanStatus::Okay, now);
                self.hierarchy = Some(hierarchy);
                let response = success_response(
                    self.config.service.as_str(),
                    self.params.message.as_str(),
                );
                self.response = Some(response.duplicate());
                self.phase = Phase::ResponseReady;
                Action::Respond { response }
            },
            Phase::ResponseReady => Action::Finished,
            Phase::Failed => Action::Finished,
        };
        proof {
            let root = self@.hierarchy->0.root;
            let span_id = self@.hierarchy->0.spans.last().span_id;
            lemma_step_keeps_wf(before, now, root, span_id);
            assert(self@ == before.stepped(now, root, span_id).0);
        }
        action
    }

    /// Takes every step that is left in one go, all at the time `now`, and
    /// returns the response. This is for callers that have no waiting to do;
    /// an error is recorded on the spans, but not handed out to be forwarded.
    pub fn complete(&mut self, now: u64) -> (response: HttpResponse)
        requires
            old(self).wf(),
        ensures
            final(self).wf(),
            final(self)@.phase.is_terminal(),
            final(self)@.response == Some(response@),
            response@ == answer(old(self)@.service, old(self)@.message),
            final(self)@.hierarchy->0.complete(),
            final(self)@.hierarchy->0.spans[0].status == match verdict(old(self)@.message) {
                Some(error) => StatusModel::Error(error.detail()),
                None => StatusModel::Okay,
            },
            final(self)@.service == old(self)@.service,
            final(self)@.message == old(self)@.message,
            final(self)@.headers == old(self)@.headers,
    {
        let feedback = Feedback { now, delivered: false };
        while !self.is_finished()
            invariant
                self.wf(),
                self@.service == old(self)@.service,
                self@.message == old(self)@.message,
                self@.headers == old(self)@.headers,
            decreases self@.phase.remaining(),
        {
            self.step(feedback);
        }
        proof {
            lemma_answered(self@);
        }
        self.response.as_ref().unwrap().duplicate()
    }

    /// Ends every span that is still open at `now` as an error with the given
    /// description, and hands the spans over.
    fn close_all(self, description: &str, now: u64) -> (spans: Vec<Span>)
        requires
            self.wf(),
        ensures
            match self@.hierarchy {
                Some(hierarchy) => span_models(spans@) == hierarchy.unwound(
                    0,
                    description@,
                    now,
                ).spans,
                None => spans@.len() == 0,
            },
            forall|k: int| 0 <= k < spans@.len() ==> !(#[trigger] spans@[k])@.is_open(),
    {
        match self.hierarchy {
            Some(mut hierarchy) => {
                let ghost before = hierarchy@;
                hierarchy.unwind(0, description, now);
                let ghost after = hierarchy@;
                let spans = hierarchy.into_spans();
                proof {
                    lemma_unwound_wf(before, 0, description@, now);
                    assert forall|k: int| 0 <= k < spans@.len() implies !(#[trigger] spans@[k])@.is_open() by {
                        assert(span_models(spans@)[k] == spans@[k]@);
                        lemma_complete_all_ended(after, k);
                    }
                }
                spans
            },
            None => Vec::new(),
        }
    }

    /// Gives up the request at `now`, as when the client has gone: every span
    /// that is still open is ended as an error described as cancelled, so
    /// that none is lost. The spans are handed over for export.
    pub fn cancel(self, now: u64) -> (spans: Vec<Span>)
        requires
            self.wf(),
        ensures
            match self@.hierarchy {
                Some(hierarchy) => span_models(spans@) == hierarchy.unwound(
                    0,
                    "cancelled"@,
                    now,
                ).spans,
                None => spans@.len() == 0,
            },
            forall|k: int| 0 <= k < spans@.len() ==> !(#[trigger] spans@[k])@.is_open(),
    {
        self.close_all("cancelled", now)
    }

    /// Hands the spans of the request over for export. A span that was never
    /// ended is ended at `now` as an error described as unterminated, so that
    /// it is exported all the same; after the request was answered there is
    /// none.
    pub fn into_spans(self, now: u64) -> (spans: Vec<Span>)
        requires
            self.wf(),
        ensures
            match self@.hierarchy {
                Some(hierarchy) => span_models(spans@) == hierarchy.unwound(
                    0,
                    "unterminated"@,
                    now,
                ).spans,
                None => spans@.len() == 0,
            },
            self@.phase.is_terminal() ==> span_models(spans@) == self@.hierarchy->0.spans,
            forall|k: int| 0 <= k < spans@.len() ==> !(#[trigger] spans@[k])@.is_open(),
    {
        self.close_all("unterminated", now)
    }
}

/// The plain values of a list of spans.
pub open spec fn span_models(spans: Seq<Span>) -> Seq<SpanModel> {
    spans.map_values(|span: Span| span@)
}

/// The response that a request is owed: the greeting where its message is
/// accepted, else the rejection.
pub open spec fn answer(service: Seq<char>, message: Seq<char>) -> (u16, Seq<char>) {
    match verdict(message) {
        Some(error) => failure_view(error),
        None => success_view(service, message),
    }
}

/// What holds once a request is answered. With a message that is not empty,
/// the response is the greeting with status 200 and the server span ended
/// well. With an empty or absent message, the response is the rejection with
/// status 400 and the server span ended as an error. Either way no span is
/// current any more.
pub proof fn lemma_answered(s: HandlerModel)
    requires
        s.wf(),
        s.phase.is_terminal(),
    ensures
        s.response == Some(answer(s.service, s.message)),
        s.hierarchy->0.complete(),
        s.message.len() > 0 ==> {
            &&& s.phase == Phase::ResponseReady
            &&& s.response->0 == success_view(s.service, s.message)
            &&& (s.response->0).0 == 200
            &&& s.hierarchy->0.spans[0].status == StatusModel::Okay
        },
        s.message.len() == 0 ==> {
            &&& s.phase == Phase::Failed
            &&& s.response->0 == failure_view(ErrorModel::InvalidInput("Message cannot be empty"@))
            &&& (s.response->0).0 == 400
            &&& s.hierarchy->0.spans[0].status == StatusModel::Error("Message cannot be empty"@)
        },
{
}

/// The message of the rejection holds the words "cannot be empty".
pub proof fn lemma_rejection_says_why()
    ensures
        ErrorModel::InvalidInput("Message cannot be empty"@).text().subrange(23, 38)
            == "cannot be empty"@,
{
    reveal_strlit("Invalid input: ");
    reveal_strlit("Message cannot be empty");
    reveal_strlit("cannot be empty");
    let text = ErrorModel::InvalidInput("Message cannot be empty"@).text();
    assert(text.subrange(23, 38) =~= "cannot be empty"@);
}

/// The span hierarchy of an answered request: every span but the server span
/// has the trace id of the server span, and its interval lies within that of
/// the server span.
pub proof fn lemma_spans_within_server(s: HandlerModel, k: int)
    requires
        s.wf(),
        s.phase.is_terminal(),
        0 < k < s.hierarchy->0.spans.len(),
    ensures
        ({
            let server = s.hierarchy->0.spans[0];
            let child = s.hierarchy->0.spans[k];
            &&& server.kind == SpanKind::Server
            &&& child.kind == SpanKind::Internal
            &&& child.trace_id == server.trace_id
            &&& child.parent_span_id == Some(server.span_id)
            &&& server.end_time is Some
            &&& child.end_time is Some
            &&& server.start_time <= child.start_time
            &&& child.start_time <= child.end_time->0
            &&& child.end_time->0 <= server.end_time->0
        }),
{
    let h = s.hierarchy->0;
    assert(h.parents[k] == Some(0int));
    lemma_child_within_parent(h, k, 0);
    lemma_complete_all_ended(h, 0);
    lemma_complete_all_ended(h, k);
}

/// A request keeps to itself: once it is answered no span of it is current,
/// every span has the trace id of the context that was extracted from the
/// headers of this request, and the server span records the parameters and
/// headers of this request and of no other.
pub proof fn lemma_request_keeps_to_itself(s: HandlerModel, k: int)
    requires
        s.wf(),
        s.phase.is_terminal(),
        0 <= k < s.hierarchy->0.spans.len(),
    ensures
        s.hierarchy->0.complete(),
        extracts(s.headers, s.default_sampled, s.hierarchy->0.root),
        s.hierarchy->0.spans[k].trace_id == s.hierarchy->0.root.trace_id,
        s.hierarchy->0.spans[0].attributes == attribute_map(
            server_attributes(s.message, s.headers, s.recorded),
        ),
{
    lemma_complete_all_ended(s.hierarchy->0, k);
}

/// Whether an error reached the capture channel has no part in a step: what
/// a step may lead to with one feedback, it may lead to with any other of
/// the same time.
pub proof fn lemma_capture_outcome_ignored(
    s: HandlerModel,
    one: Feedback,
    other: Feedback,
    next: HandlerModel,
    action: ActionModel,
)
    requires
        one.now == other.now,
        s.steps_to(one, next, action),
    ensures
        s.steps_to(other, next, action),
{
}

/// A step keeps the handling well-formed and brings it nearer to its end;
/// once the request is answered, a step changes nothing.
pub proof fn lemma_step_keeps_wf(s: HandlerModel, now: u64, root: TraceContext, span_id: u64)
    requires
        s.wf(),
        s.phase == Phase::Received ==> extracts(s.headers, s.default_sampled, root),
    ensures
        s.stepped(now, root, span_id).0.wf(),
        !s.phase.is_terminal() ==> s.stepped(now, root, span_id).0.phase.remaining()
            < s.phase.remaining(),
        s.phase.is_terminal() ==> s.stepped(now, root, span_id) == (s, ActionModel::Finished),
{
    let n = s.stepped(now, root, span_id).0;
    let h = s.hierarchy->0;
    let g = n.hierarchy->0;
    match s.phase {
        Phase::Received => {},
        Phase::ContextExtracted => {
            let attributes = server_attributes(s.message, s.headers, s.recorded);
            lemma_entered_wf(h, span_id, "handle_hello"@, SpanKind::Server, attributes, now);
            assert(g.open =~= seq![0int]);
        },
        Phase::ServerSpanOpen => {
            lemma_entered_wf(h, span_id, "validate_params"@, SpanKind::Internal, Seq::empty(), now);
            assert(h.open[0] == 0);
            assert(g.open =~= seq![0int, 1int]);
            assert(g.spans[0] == h.spans[0]);
        },
        Phase::Validating => {
            match verdict(s.message) {
                Some(error) => {
                    lemma_marked_wf(h, StatusModel::Error(error.detail()));
                    assert(h.open[1] == 1);
                    assert(g.spans[0] == h.spans[0]);
                },
                None => {},
            }
        },
        Phase::ValidationFailed => {
            let status = StatusModel::Error(s.failure->0.detail());
            assert(h.open[0] == 0 && h.open[1] == 1);
            assert(h.spans[h.open[0]].is_open() && h.spans[h.open[1]].is_open());
            let left = h.exited(1, status, now);
            lemma_exited_wf(h, 1, status, now);
            lemma_exit_innermost(h, status, now);
            assert(left.open =~= seq![0int]);
            lemma_exited_wf(left, 0, status, now);
            lemma_exit_innermost(left, status, now);
            assert(left.open[0] == 0);
            assert(g.open =~= Seq::<int>::empty());
        },
        Phase::ValidationOk => {
            assert(h.open[0] == 0 && h.open[1] == 1);
            assert(h.spans[h.open[0]].is_open() && h.spans[h.open[1]].is_open());
            let left = h.exited(1, StatusModel::Okay, now);
            lemma_exited_wf(h, 1, StatusModel::Okay, now);
            lemma_exit_innermost(h, StatusModel::Okay, now);
            assert(left.open =~= seq![0int]);
            assert(left.open[0] == 0);
            lemma_entered_wf(left, span_id, "simulate_work"@, SpanKind::Internal, Seq::empty(), now);
            assert(g.open =~= seq![0int, 2int]);
        },
        Phase::WorkSimulating => {
            assert(h.open[0] == 0 && h.open[1] == 2);
            assert(h.spans[h.open[0]].is_open() && h.spans[h.open[1]].is_open());
            let marked = h.marked(StatusModel::Okay);
            lemma_marked_wf(h, StatusModel::Okay);
            lemma_exited_wf(marked, 1, StatusModel::Okay, now);
            lemma_exit_innermost(marked, StatusModel::Okay, now);
            assert(g.open =~= seq![0int]);
        },
        Phase::WorkDone => {
            assert(h.open[0] == 0);
            assert(h.spans[h.open[0]].is_open());
            lemma_exited_wf(h, 0, StatusModel::Okay, now);
            lemma_exit_innermost(h, StatusModel::Okay, now);
            assert(g.open =~= Seq::<int>::empty());
        },
        Phase::ResponseReady => {},
        Phase::Failed => {},
    }
}

} // verus!
