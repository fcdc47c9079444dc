//! The spans of one request and the stack of those that are current.
//!
//! Entering a scope starts a span under the current one and makes it current;
//! leaving the scope ends that span and makes the previous one current again.
//! The hierarchy keeps its own clock, which never runs backwards, so that a
//! span never ends before it starts and never outlasts the span it was opened
//! under.

use vstd::prelude::*;

use crate::propagation::TraceContext;
use crate::span::attribute_entries;
use crate::span::end_span;
use crate::span::ended;
use crate::span::later;
use crate::span::opened;
use crate::span::start_span;
use crate::span::with_status;
use crate::span::Attribute;
use crate::span::AttributeModel;
use crate::span::Span;
use crate::span::SpanKind;
use crate::span::SpanModel;
use crate::span::SpanStatus;
use crate::span::StatusModel;

verus! {

/// The spans of one request, as mathematics sees them.
pub struct HierarchyModel {
    /// The context the request arrived with.
    pub root: TraceContext,
    /// Every span of the request, in the order in which they started.
    pub spans: Seq<SpanModel>,
    /// For each span, the index of the span it was opened under, if any.
    pub parents: Seq<Option<int>>,
    /// The indices of the spans that are current, innermost last.
    pub open: Seq<int>,
    /// The latest time that was recorded.
    pub clock: u64,
}

impl HierarchyModel {
    /// Whether the span `k` is on the stack of current spans.
    pub open spec fn on_stack(self, k: int) -> bool {
        exists|i: int| 0 <= i < self.open.len() && #[trigger] self.open[i] == k
    }

    /// What holds of every span `k` of a well-formed hierarchy.
    pub open spec fn span_wf(self, k: int) -> bool {
        let span = self.spans[k];
        &&& span.trace_id == self.root.trace_id
        &&& span.start_time <= self.clock
        &&& span.end_time matches Some(end) ==> span.start_time <= end <= self.clock
        &&& span.is_open() ==> self.on_stack(k)
        &&& match self.parents[k] {
            Some(p) => {
                &&& 0 <= p < k
                &&& span.parent_span_id == Some(self.spans[p].span_id)
                &&& self.spans[p].start_time <= span.start_time
                &&& self.spans[p].end_time matches Some(parent_end) ==> (span.end_time matches Some(
                    end,
                ) && end <= parent_end)
            },
            None => span.parent_span_id == self.root.parent_span_id,
        }
    }

    /// Well-formedness: the current spans are open and stacked in the order
    /// in which they started, every open span is current, and every span
    /// belongs to the trace of the request and lies within its parent.
    pub open spec fn wf(self) -> bool {
        &&& self.parents.len() == self.spans.len()
        &&& forall|i: int|
            0 <= i < self.open.len() ==> 0 <= #[trigger] self.open[i] < self.spans.len()
                && self.spans[self.open[i]].is_open()
        &&& forall|i: int, j: int|
            0 <= i < j < self.open.len() ==> #[trigger] self.open[i] < #[trigger] self.open[j]
        &&& forall|k: int| 0 <= k < self.spans.len() ==> #[trigger] self.span_wf(k)
    }

    /// The context under which the next span is opened.
    pub open spec fn current_context(self) -> TraceContext {
        if self.open.len() == 0 {
            self.root
        } else {
            self.spans[self.open.last()].context(self.root.sampled)
        }
    }

    /// The index of the current span, if there is one.
    pub open spec fn current(self) -> Option<int> {
        if self.open.len() == 0 {
            None
        } else {
            Some(self.open.last())
        }
    }

    /// The hierarchy after a scope was entered at `now` with a span of the
    /// given id.
    pub open spec fn entered(
        self,
        span_id: u64,
        name: Seq<char>,
        kind: SpanKind,
        attributes: Seq<(Seq<char>, AttributeModel)>,
        now: u64,
    ) -> HierarchyModel {
        let time = later(now, self.clock);
        HierarchyModel {
            root: self.root,
            spans: self.spans.push(
                opened(self.current_context(), span_id, name, kind, attributes, time),
            ),
            parents: self.parents.push(self.current()),
            open: self.open.push(self.spans.len() as int),
            clock: time,
        }
    }

    /// The hierarchy after the current span was ended at `now` with `status`.
    pub open spec fn closed_top(self, status: StatusModel, now: u64) -> HierarchyModel {
        let time = later(now, self.clock);
        let k = self.open.last();
        HierarchyModel {
            root: self.root,
            spans: self.spans.update(k, ended(self.spans[k], status, time)),
            parents: self.parents,
            open: self.open.drop_last(),
            clock: time,
        }
    }

    /// The hierarchy after every current span above `depth` was ended at
    /// `now` as an error, innermost first.
    pub open spec fn unwound(self, depth: nat, description: Seq<char>, now: u64) -> HierarchyModel
        decreases self.open.len(),
    {
        if self.open.len() > depth {
            self.closed_top(StatusModel::Error(description), now).unwound(depth, description, now)
        } else {
            self
        }
    }

    /// The hierarchy after the scope that was entered at `depth` was left at
    /// `now`: spans still open inside it are ended as unterminated, then its
    /// own span is ended with `status`. A scope that was left already changes
    /// nothing.
    pub open spec fn exited(self, depth: nat, status: StatusModel, now: u64) -> HierarchyModel {
        if self.open.len() > depth {
            self.unwound(depth + 1, "unterminated"@, now).closed_top(status, now)
        } else {
            self
        }
    }

    /// The hierarchy after `status` was set on the current span, if any.
    pub open spec fn marked(self, status: StatusModel) -> HierarchyModel {
        if self.open.len() == 0 {
            self
        } else {
            let k = self.open.last();
            HierarchyModel { spans: self.spans.update(k, with_status(self.spans[k], status)), ..self }
        }
    }

    /// Whether every span has ended.
    pub open spec fn complete(self) -> bool {
        self.open.len() == 0
    }
}

/// Entering a scope keeps the hierarchy well-formed.
pub proof fn lemma_entered_wf(
    m: HierarchyModel,
    span_id: u64,
    name: Seq<char>,
    kind: SpanKind,
    attributes: Seq<(Seq<char>, AttributeModel)>,
    now: u64,
)
    requires
        m.wf(),
    ensures
        m.entered(span_id, name, kind, attributes, now).wf(),
{
    let n = m.entered(span_id, name, kind, attributes, now);
    let fresh = m.spans.len() as int;
    assert forall|i: int| 0 <= i < n.open.len() implies 0 <= #[trigger] n.open[i] < n.spans.len()
        && n.spans[n.open[i]].is_open() by {
        if i < m.open.len() {
            assert(n.open[i] == m.open[i]);
        }
    }
    assert forall|i: int, j: int| 0 <= i < j < n.open.len() implies #[trigger] n.open[i]
        < #[trigger] n.open[j] by {
        assert(n.open[i] == m.open[i]);
        if j < m.open.len() {
            assert(n.open[j] == m.open[j]);
        }
    }
    assert forall|k: int| 0 <= k < n.spans.len() implies #[trigger] n.span_wf(k) by {
        if k < fresh {
            assert(m.span_wf(k));
            assert(n.spans[k] == m.spans[k]);
            if m.spans[k].is_open() {
                let i = choose|i: int| 0 <= i < m.open.len() && #[trigger] m.open[i] == k;
                assert(n.open[i] == k);
            }
        } else {
            assert(n.open[m.open.len() as int] == k);
            if m.open.len() > 0 {
                let p = m.open.last();
                assert(m.open[m.open.len() - 1] == p);
                assert(m.span_wf(p));
            }
        }
    }
}

/// Ending the current span keeps the hierarchy well-formed.
pub proof fn lemma_closed_top_wf(m: HierarchyModel, status: StatusModel, now: u64)
    requires
        m.wf(),
        m.open.len() > 0,
    ensures
        m.closed_top(status, now).wf(),
{
    let n = m.closed_top(status, now);
    let top = m.open.last();
    let last = m.open.len() - 1;
    assert(m.open[last] == top);
    assert(m.span_wf(top));
    assert forall|i: int| 0 <= i < n.open.len() implies 0 <= #[trigger] n.open[i] < n.spans.len()
        && n.spans[n.open[i]].is_open() by {
        assert(n.open[i] == m.open[i]);
        assert(m.open[i] < m.open[last]);
    }
    assert forall|i: int, j: int| 0 <= i < j < n.open.len() implies #[trigger] n.open[i]
        < #[trigger] n.open[j] by {
        assert(n.open[i] == m.open[i]);
        assert(n.open[j] == m.open[j]);
    }
    assert forall|k: int| 0 <= k < n.spans.len() implies #[trigger] n.span_wf(k) by {
        assert(m.span_wf(k));
        if k != top && m.spans[k].is_open() {
            let i = choose|i: int| 0 <= i < m.open.len() && #[trigger] m.open[i] == k;
            assert(i < last);
            assert(n.open[i] == k);
            if i < last {
                assert(m.open[i] < m.open[last]);
            }
        }
        match m.parents[k] {
            Some(p) => {
                assert(m.span_wf(p));
            },
            None => {},
        }
    }
}

/// The hierarchy invariant, span by span: a span has the trace id of the span
/// it was opened under and starts no earlier; its end, once recorded, is no
/// earlier than its start; and once the parent has ended, the child has ended
/// too, and no later.
pub proof fn lemma_child_within_parent(m: HierarchyModel, child: int, parent: int)
    requires
        m.wf(),
        0 <= child < m.spans.len(),
        m.parents[child] == Some(parent),
    ensures
        0 <= parent < child,
        m.spans[child].trace_id == m.spans[parent].trace_id,
        m.spans[child].parent_span_id == Some(m.spans[parent].span_id),
        m.spans[parent].start_time <= m.spans[child].start_time,
        m.spans[child].end_time matches Some(end) ==> m.spans[child].start_time <= end,
        m.spans[parent].end_time matches Some(parent_end) ==> (m.spans[child].end_time matches Some(
            end,
        ) && end <= parent_end),
{
    assert(m.span_wf(child));
    assert(m.span_wf(parent));
}

/// In a hierarchy without a current span every span has ended, with its end
/// no earlier than its start.
pub proof fn lemma_complete_all_ended(m: HierarchyModel, k: int)
    requires
        m.wf(),
        m.complete(),
        0 <= k < m.spans.len(),
    ensures
        m.spans[k].end_time matches Some(end) && m.spans[k].start_time <= end,
        m.spans[k].trace_id == m.root.trace_id,
{
    assert(m.span_wf(k));
}

/// Unwinding keeps the hierarchy well-formed and leaves at most `depth`
/// spans current; a hierarchy that has no more than that is left as it is.
pub proof fn lemma_unwound_wf(m: HierarchyModel, depth: nat, description: Seq<char>, now: u64)
    requires
        m.wf(),
    ensures
        m.unwound(depth, description, now).wf(),
        m.unwound(depth, description, now).open.len() <= depth,
        m.open.len() >= depth ==> m.unwound(depth, description, now).open.len() == depth,
        m.unwound(depth, description, now).root == m.root,
    decreases m.open.len(),
{
    if m.open.len() > depth {
        let status = StatusModel::Error(description);
        lemma_closed_top_wf(m, status, now);
        lemma_unwound_wf(m.closed_top(status, now), depth, description, now);
    }
}

/// Leaving a scope keeps the hierarchy well-formed.
pub proof fn lemma_exited_wf(m: HierarchyModel, depth: nat, status: StatusModel, now: u64)
    requires
        m.wf(),
    ensures
        m.exited(depth, status, now).wf(),
        m.exited(depth, status, now).root == m.root,
        m.open.len() > depth ==> m.exited(depth, status, now).open.len() == depth,
{
    if m.open.len() > depth {
        lemma_unwound_wf(m, depth + 1, "unterminated"@, now);
        lemma_closed_top_wf(m.unwound(depth + 1, "unterminated"@, now), status, now);
    }
}

/// Leaving the innermost scope ends the current span and nothing else.
pub proof fn lemma_exit_innermost(m: HierarchyModel, status: StatusModel, now: u64)
    requires
        m.open.len() > 0,
    ensures
        m.exited((m.open.len() - 1) as nat, status, now) == m.closed_top(status, now),
{
}

/// Leaving a scope restores what was current when it was entered: the stack
/// of current spans and the current context are those from before.
pub proof fn lemma_exit_restores(
    m: HierarchyModel,
    span_id: u64,
    name: Seq<char>,
    kind: SpanKind,
    attributes: Seq<(Seq<char>, AttributeModel)>,
    entered_at: u64,
    status: StatusModel,
    left_at: u64,
)
    requires
        m.wf(),
    ensures
        ({
            let inside = m.entered(span_id, name, kind, attributes, entered_at);
            let outside = inside.exited(m.open.len(), status, left_at);
            &&& outside.wf()
            &&& outside.open == m.open
            &&& outside.current_context() == m.current_context()
        }),
{
    let inside = m.entered(span_id, name, kind, attributes, entered_at);
    lemma_entered_wf(m, span_id, name, kind, attributes, entered_at);
    lemma_exit_innermost(inside, status, left_at);
    lemma_closed_top_wf(inside, status, left_at);
    let outside = inside.closed_top(status, left_at);
    assert(outside.open =~= m.open);
    if m.open.len() > 0 {
        let top = m.open.last();
        assert(m.open[m.open.len() - 1] == top);
        assert(outside.spans[top] == m.spans[top]);
    }
}

/// The spans of one request.
#[derive(Debug)]
pub struct SpanHierarchy {
    root: TraceContext,
    spans: Vec<Span>,
    parents: Vec<Option<usize>>,
    open: Vec<usize>,
    clock: u64,
}

/// Stands for a scope that was entered, and is handed back to leave it.
#[derive(Debug, Clone, Copy)]
pub struct ScopeGuard {
    depth: usize,
}

impl ScopeGuard {
    /// How many spans were current when the scope was entered.
    pub closed spec fn depth(self) -> nat {
        self.depth as nat
    }
}

impl SpanHierarchy {
    pub closed spec fn view(self) -> HierarchyModel {
        HierarchyModel {
            root: self.root,
            spans: self.spans@.map_values(|s: Span| s@),
            parents: self.parents@.map_values(
                |p: Option<usize>|
                    match p {
                        Some(index) => Some(index as int),
                        None => None,
                    },
            ),
            open: self.open@.map_values(|k: usize| k as int),
            clock: self.clock,
        }
    }

    /// Well-formedness: see [`HierarchyModel::wf`].
    pub open spec fn wf(self) -> bool {
        self@.wf()
    }

    /// The hierarchy of a request that arrived at `now` with the context
    /// `root`: no span yet.
    pub fn new(root: TraceContext, now: u64) -> (hierarchy: SpanHierarchy)
        ensures
            hierarchy.wf(),
            hierarchy@ == (HierarchyModel {
                root,
                spans: Seq::empty(),
                parents: Seq::empty(),
                open: Seq::empty(),
                clock: now,
            }),
    {
        let hierarchy = SpanHierarchy {
            root,
            spans: Vec::new(),
            parents: Vec::new(),
            open: Vec::new(),
            clock: now,
        };
        assert(hierarchy@.spans =~= Seq::empty());
        assert(hierarchy@.parents =~= Seq::empty());
        assert(hierarchy@.open =~= Seq::empty());
        hierarchy
    }

    /// The context the request arrived with.
    pub fn root(&self) -> (root: TraceContext)
        ensures
            root == self@.root,
    {
        self.root
    }

    /// How many spans are current.
    pub fn depth(&self) -> (depth: usize)
        ensures
            depth == self@.open.len(),
    {
        self.open.len()
    }

    /// Whether every span has ended, so that no span is current.
    pub fn is_complete(&self) -> (complete: bool)
        ensures
            complete == self@.complete(),
    {
        self.open.len() == 0
    }

    /// How many spans the request has started.
    pub fn len(&self) -> (count: usize)
        ensures
            count == self@.spans.len(),
    {
        self.spans.len()
    }

    /// The span that was started as the `index`-th, counted from zero.
    pub fn span(&self, index: usize) -> (span: &Span)
        requires
            index < self@.spans.len(),
        ensures
            span@ == self@.spans[index as int],
    {
        &self.spans[index]
    }

    /// The index of the span under which the `index`-th was opened.
    pub fn parent(&self, index: usize) -> (parent: Option<usize>)
        requires
            index < self@.parents.len(),
        ensures
            match parent {
                Some(p) => self@.parents[index as int] == Some(p as int),
                None => self@.parents[index as int] is None,
            },
    {
        self.parents[index]
    }

    /// The index of the current span, if there is one.
    pub fn current(&self) -> (current: Option<usize>)
        ensures
            match current {
                Some(k) => self@.current() == Some(k as int),
                None => self@.current() is None,
            },
    {
        if self.open.len() == 0 {
            None
        } else {
            Some(self.open[self.open.len() - 1])
        }
    }

    /// The context under which the next span is opened: that of the current
    /// span, or the one the request arrived with.
    pub fn current_context(&self) -> (context: TraceContext)
        requires
            self.wf(),
        ensures
            context == self@.current_context(),
    {
        if self.open.len() == 0 {
            self.root
        } else {
            let k = self.open[self.open.len() - 1];
            assert(self@.open[self.open.len() - 1] == k);
            self.spans[k].context(self.root.sampled)
        }
    }

    /// Enters a scope: starts a span under the current context and makes it
    /// current. The span starts at `now`, or at the latest time recorded
    /// before if that is later. The guard is handed to `exit` to leave the
    /// scope.
    pub fn enter(
        &mut self,
        name: &str,
        kind: SpanKind,
        attributes: Vec<Attribute>,
        now: u64,
    ) -> (guard: ScopeGuard)
        requires
            old(self).wf(),
        ensures
            final(self).wf(),
            guard.depth() == old(self)@.open.len(),
            final(self)@.spans.len() == old(self)@.spans.len() + 1,
            final(self)@ == old(self)@.entered(
                final(self)@.spans.last().span_id,
                name@,
                kind,
                attribute_entries(attributes@),
                now,
            ),
    {
        let time = if now >= self.clock {
            now
        } else {
            self.clock
        };
        let context = self.current_context();
        let parent = self.current();
        let guard = ScopeGuard { depth: self.open.len() };
        let ghost before = self@;
        let ghost entries = attribute_entries(attributes@);
        let (span, _) = start_span(&context, name, kind, attributes, time);
        let index = self.spans.len();
        self.spans.push(span);
        self.parents.push(parent);
        self.open.push(index);
        self.clock = time;
        proof {
            let after = before.entered(span@.span_id, name@, kind, entries, now);
            assert(self@.spans =~= after.spans);
            assert(self@.parents =~= after.parents);
            assert(self@.open =~= after.open);
            assert(self@ == after);
            lemma_entered_wf(before, span@.span_id, name@, kind, entries, now);
        }
        guard
    }

    /// Ends the current span at `now` with `status` and makes the one below
    /// it current.
    fn close_top(&mut self, status: SpanStatus, now: u64)
        requires
            old(self).wf(),
            old(self)@.open.len() > 0,
        ensures
            final(self).wf(),
            final(self)@ == old(self)@.closed_top(status@, now),
    {
        let time = if now >= self.clock {
            now
        } else {
            self.clock
        };
        let ghost before = self@;
        let k = self.open[self.open.len() - 1];
        assert(before.open[before.open.len() - 1] == k);
        self.open.pop();
        end_span(&mut self.spans[k], status, time);
        self.clock = time;
        proof {
            let after = before.closed_top(status@, now);
            assert(self@.spans =~= after.spans);
            assert(self@.parents =~= after.parents);
            assert(self@.open =~= after.open);
            assert(self@ == after);
            lemma_closed_top_wf(before, status@, now);
        }
    }

    /// Ends every current span above `depth` at `now` as an error with the
    /// given description, innermost first.
    pub fn unwind(&mut self, depth: usize, description: &str, now: u64)
        requires
            old(self).wf(),
        ensures
            final(self).wf(),
            final(self)@ == old(self)@.unwound(depth as nat, description@, now),
    {
        while self.open.len() > depth
            invariant
                self.wf(),
                self@.unwound(depth as nat, description@, now) == old(self)@.unwound(
                    depth as nat,
                    description@,
                    now,
                ),
            decreases self.open.len(),
        {
            self.close_top(SpanStatus::error(description), now);
        }
    }

    /// Leaves the scope that `guard` stands for: ends its span at `now` with
    /// `status` and makes the span that was current before it current again.
    /// Spans that were opened inside the scope and are still open are ended
    /// first, as errors described as unterminated. Leaving a scope a second
    /// time changes nothing.
    pub fn exit(&mut self, guard: ScopeGuard, status: SpanStatus, now: u64)
        requires
            old(self).wf(),
        ensures
            final(self).wf(),
            final(self)@ == old(self)@.exited(guard.depth(), status@, now),
    {
        if guard.depth < self.open.len() {
            proof {
                lemma_unwound_wf(self@, guard.depth() + 1, "unterminated"@, now);
            }
            self.unwind(guard.depth + 1, "unterminated", now);
            self.close_top(status, now);
        }
    }

    /// Sets `status` on the current span. Without a current span this does
    /// nothing.
    pub fn mark(&mut self, status: SpanStatus)
        requires
            old(self).wf(),
        ensures
            final(self).wf(),
            final(self)@ == old(self)@.marked(status@),
    {
        if self.open.len() > 0 {
            let ghost before = self@;
            let k = self.open[self.open.len() - 1];
            assert(before.open[before.open.len() - 1] == k);
            self.spans[k].set_status(status);
            proof {
                let after = before.marked(status@);
                assert(self@.spans =~= after.spans);
                assert(self@ == after);
                lemma_marked_wf(before, status@);
            }
        }
    }

    /// Ends every span that is still open at `now`, as an error described as
    /// cancelled: what is owed to a request that is aborted.
    pub fn cancel(&mut self, now: u64)
        requires
            old(self).wf(),
        ensures
            final(self).wf(),
            final(self)@ == old(self)@.unwound(0, "cancelled"@, now),
            final(self)@.complete(),
    {
        proof {
            lemma_unwound_wf(self@, 0, "cancelled"@, now);
        }
        self.unwind(0, "cancelled", now);
    }

    /// Hands the spans over, in the order in which they started.
    pub fn into_spans(self) -> (spans: Vec<Span>)
        ensures
            spans@.map_values(|s: Span| s@) == self@.spans,
    {
        self.spans
    }
}

/// Setting the status of the current span keeps the hierarchy well-formed.
pub proof fn lemma_marked_wf(m: HierarchyModel, status: StatusModel)
    requires
        m.wf(),
    ensures
        m.marked(status).wf(),
{
    let n = m.marked(status);
    if m.open.len() > 0 {
        assert forall|i: int| 0 <= i < n.open.len() implies 0 <= #[trigger] n.open[i]
            < n.spans.len() && n.spans[n.open[i]].is_open() by {
            assert(0 <= m.open[i] < m.spans.len() && m.spans[m.open[i]].is_open());
        }
        assert forall|k: int| 0 <= k < n.spans.len() implies #[trigger] n.span_wf(k) by {
            assert(m.span_wf(k));
            if m.spans[k].is_open() {
                let i = choose|i: int| 0 <= i < m.open.len() && #[trigger] m.open[i] == k;
                assert(n.open[i] == k);
            }
            match m.parents[k] {
                Some(p) => {
                    assert(m.span_wf(p));
                },
                None => {},
            }
        }
    }
}

} // verus!
