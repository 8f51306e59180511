//! The call-trace recorder: a passive observer that turns the linear stream of
//! lifecycle events reported by an execution engine (enter, exit, log, step)
//! into a tree of nested frames.
//!
//! A frame is materialised when its call or create exits. Until its parent
//! exits in turn it waits on a stack, tagged with the depth at which it ran.

use vstd::prelude::*;

verus! {

/// `serde_json::Value`. The recorder never looks inside one: it carries the
/// encoded inputs, outcomes and logs from the engine to the finished trace.
#[verifier::external_type_specification]
#[verifier::external_body]
pub struct ExJsonValue(serde_json::Value);

/// `revm::interpreter::CallOutcome`: what an observer would hand the engine to
/// have it skip a call. The recorder never makes one.
#[verifier::external_type_specification]
#[verifier::external_body]
pub struct ExCallOutcome(revm::interpreter::CallOutcome);

/// `revm::interpreter::CreateOutcome`: what an observer would hand the engine
/// to have it skip a creation. The recorder never makes one.
#[verifier::external_type_specification]
#[verifier::external_body]
pub struct ExCreateOutcome(revm::interpreter::CreateOutcome);

/// Whether a frame is a message call or a contract creation.
#[derive(Clone, Copy, Debug, PartialEq, Eq, Structural)]
pub enum FrameKind {
    Call,
    Create,
}

/// One completed call or create, with the frames and logs nested in it.
#[derive(Debug, PartialEq, Eq)]
pub struct TraceFrame {
    /// Nesting depth; the outermost call runs at depth 1.
    pub depth: u64,
    pub kind: FrameKind,
    pub inputs: serde_json::Value,
    pub outcome: serde_json::Value,
    /// The frames that ran directly inside this one, in execution order.
    pub calls: Vec<TraceFrame>,
    /// The logs that were pending when this frame exited, oldest first.
    pub logs: Vec<serde_json::Value>,
}

impl TraceFrame {
    /// Every child sits exactly one level below its parent, all the way down.
    pub open spec fn well_nested(self) -> bool
        decreases self,
    {
        forall|i: int|
            #![trigger self.calls@[i]]
            0 <= i < self.calls@.len() ==> {
                &&& self.calls@[i].depth == self.depth + 1
                &&& self.calls@[i].well_nested()
            }
    }
}

/// A completed frame waiting on the recorder's stack, with the depth it ran at.
pub type StackEntry = (u64, TraceFrame);

/// The frames of a run of stack entries, in the same order.
pub open spec fn frames_of(entries: Seq<StackEntry>) -> Seq<TraceFrame> {
    entries.map_values(|e: StackEntry| e.1)
}

/// How many entries at the top of `stack` were recorded at `depth`.
pub open spec fn top_run(stack: Seq<StackEntry>, depth: int) -> nat
    decreases stack.len(),
{
    if stack.len() > 0 && stack.last().0 == depth {
        1 + top_run(stack.drop_last(), depth)
    } else {
        0
    }
}

/// The recorder's state as plain values.
pub ghost struct RecorderView {
    pub gas_used: u64,
    pub call_count: usize,
    pub stack: Seq<StackEntry>,
    pub pending_logs: Seq<serde_json::Value>,
    pub depth: u64,
}

impl RecorderView {
    /// The entries that stay on the stack when the frame at the current depth
    /// exits: everything below the run of its children.
    pub open spec fn kept(self) -> Seq<StackEntry> {
        self.stack.take(self.stack.len() - top_run(self.stack, self.depth + 1))
    }

    /// The entries that the exiting frame adopts as its children.
    pub open spec fn adopted(self) -> Seq<StackEntry> {
        self.stack.skip(self.stack.len() - top_run(self.stack, self.depth + 1))
    }

    /// An exit is out of protocol when the entry under the children was
    /// recorded deeper than a child of the exiting frame could be.
    pub open spec fn exit_violates(self) -> bool {
        self.kept().len() > 0 && self.kept().last().0 > self.depth + 1
    }

    /// The shape that the stack has whenever the engine brackets its frames
    /// properly: depths never fall from bottom to top, none is deeper than a
    /// child of the current frame, and every entry is a well-nested frame
    /// tagged with its own depth.
    pub open spec fn orderly(self) -> bool {
        &&& forall|i: int|
            #![trigger self.stack[i]]
            0 <= i < self.stack.len() ==> {
                &&& 1 <= self.stack[i].0 <= self.depth + 1
                &&& self.stack[i].1.depth == self.stack[i].0
                &&& self.stack[i].1.well_nested()
            }
        &&& forall|i: int, j: int|
            #![trigger self.stack[i], self.stack[j]]
            0 <= i <= j < self.stack.len() ==> self.stack[i].0 <= self.stack[j].0
    }
}

/// One lifecycle event, as the engine reports it.
#[derive(Debug, PartialEq, Eq)]
pub enum TraceEvent {
    /// One instruction was executed; `gas_spent` is the gas figure reported with it.
    Step { gas_spent: u64 },
    /// A call or a create was entered.
    Enter,
    /// A log was emitted in the current frame.
    Log { log: serde_json::Value },
    /// The current call or create ended.
    Exit { kind: FrameKind, inputs: serde_json::Value, outcome: serde_json::Value },
}

/// The state of a recorder that has seen nothing.
pub open spec fn initial_view() -> RecorderView {
    RecorderView {
        gas_used: 0,
        call_count: 0,
        stack: Seq::empty(),
        pending_logs: Seq::empty(),
        depth: 0,
    }
}

/// The states in which the recorder can take `event` without running out of
/// its counters' range or leaving a frame that was never entered.
pub open spec fn admits(pre: RecorderView, event: TraceEvent) -> bool {
    match event {
        TraceEvent::Step { gas_spent } => pre.gas_used + gas_spent <= u64::MAX,
        TraceEvent::Enter => pre.depth < u64::MAX && pre.call_count < usize::MAX,
        TraceEvent::Log { .. } => true,
        TraceEvent::Exit { .. } => pre.depth >= 1,
    }
}

/// What `event`, when the protocol accepts it, makes of the state `pre`.
pub open spec fn transition(pre: RecorderView, event: TraceEvent, post: RecorderView) -> bool {
    match event {
        TraceEvent::Step { gas_spent } => post == (RecorderView {
            gas_used: (pre.gas_used + gas_spent) as u64,
            ..pre
        }),
        TraceEvent::Enter => post == (RecorderView {
            call_count: (pre.call_count + 1) as usize,
            depth: (pre.depth + 1) as u64,
            ..pre
        }),
        TraceEvent::Log { log } => post == (RecorderView {
            pending_logs: pre.pending_logs.push(log),
            ..pre
        }),
        TraceEvent::Exit { kind, inputs, outcome } => exit_recorded(
            pre,
            post,
            kind,
            inputs,
            outcome,
        ),
    }
}

/// `states` is what a fresh recorder goes through while it takes `events` one
/// after the other, each of them admitted and accepted.
pub open spec fn is_run(states: Seq<RecorderView>, events: Seq<TraceEvent>) -> bool {
    &&& states.len() == events.len() + 1
    &&& states[0] == initial_view()
    &&& forall|i: int|
        #![trigger events[i]]
        0 <= i < events.len() ==> admits(states[i], events[i]) && transition(
            states[i],
            events[i],
            states[i + 1],
        )
}

/// The run that `top_run` counts is the longest one: it fits in the stack,
/// each entry in it was recorded at `depth`, and the entry under it, if there
/// is one, was not.
pub proof fn lemma_top_run(stack: Seq<StackEntry>, depth: int)
    ensures
        top_run(stack, depth) <= stack.len(),
        forall|i: int|
            #![trigger stack[i]]
            stack.len() - top_run(stack, depth) <= i < stack.len() ==> stack[i].0 == depth,
        top_run(stack, depth) < stack.len() ==> stack[stack.len() - top_run(stack, depth) - 1].0
            != depth,
    decreases stack.len(),
{
    if stack.len() > 0 && stack.last().0 == depth {
        let rest = stack.drop_last();
        lemma_top_run(rest, depth);
        assert forall|i: int|
            #![trigger stack[i]]
            stack.len() - top_run(stack, depth) <= i < stack.len() implies stack[i].0 == depth by {
            if i < stack.len() - 1 {
                assert(rest[i] == stack[i]);
            }
        }
        if top_run(stack, depth) < stack.len() {
            assert(rest[rest.len() - top_run(rest, depth) - 1] == stack[stack.len() - top_run(
                stack,
                depth,
            ) - 1]);
        }
    }
}

/// An engine that brackets its frames properly never causes a violation: in an
/// orderly state every exit is within the protocol.
pub proof fn lemma_orderly_exit_is_accepted(pre: RecorderView)
    requires
        pre.orderly(),
    ensures
        !pre.exit_violates(),
{
    lemma_top_run(pre.stack, pre.depth + 1);
    if pre.kept().len() > 0 {
        let k = pre.stack.len() - top_run(pre.stack, pre.depth + 1);
        assert(pre.kept().last() == pre.stack[k - 1]);
    }
}

/// An exit from an orderly state leaves an orderly state, and the frame that
/// it puts on the stack is well nested.
pub proof fn lemma_exit_keeps_order(
    pre: RecorderView,
    post: RecorderView,
    kind: FrameKind,
    inputs: serde_json::Value,
    outcome: serde_json::Value,
)
    requires
        pre.orderly(),
        pre.depth >= 1,
        exit_recorded(pre, post, kind, inputs, outcome),
    ensures
        post.orderly(),
        post.stack.last().1.well_nested(),
{
    lemma_top_run(pre.stack, pre.depth + 1);
    let k = pre.stack.len() - top_run(pre.stack, pre.depth + 1);
    let kept = pre.kept();
    let adopted = pre.adopted();
    let frame = post.stack.last().1;
    assert forall|i: int| #![trigger frame.calls@[i]] 0 <= i < frame.calls@.len() implies {
        &&& frame.calls@[i].depth == frame.depth + 1
        &&& frame.calls@[i].well_nested()
    } by {
        assert(frame.calls@[i] == adopted[i].1);
        assert(adopted[i] == pre.stack[k + i]);
    }
    assert(frame.well_nested());
    assert forall|i: int| 0 <= i < kept.len() implies kept[i] == pre.stack[i] && kept[i].0
        <= pre.depth by {
        assert(kept[i] == pre.stack[i]);
        assert(pre.stack[k - 1].0 != pre.depth + 1);
        assert(pre.stack[i].0 <= pre.stack[k - 1].0);
    }
    assert forall|i: int| #![trigger post.stack[i]] 0 <= i < post.stack.len() implies {
        &&& 1 <= post.stack[i].0 <= post.depth + 1
        &&& post.stack[i].1.depth == post.stack[i].0
        &&& post.stack[i].1.well_nested()
    } by {
        if i < kept.len() {
            assert(post.stack[i] == post.stack.drop_last()[i]);
            assert(kept[i] == pre.stack[i]);
        }
    }
    assert forall|i: int, j: int|
        #![trigger post.stack[i], post.stack[j]]
        0 <= i <= j < post.stack.len() implies post.stack[i].0 <= post.stack[j].0 by {
        if i < kept.len() {
            assert(post.stack[i] == post.stack.drop_last()[i]);
            assert(kept[i] == pre.stack[i]);
        }
        if j < kept.len() {
            assert(post.stack[j] == post.stack.drop_last()[j]);
            assert(kept[j] == pre.stack[j]);
        }
    }
}

/// Every accepted event takes an orderly state to an orderly state.
pub proof fn lemma_transition_keeps_order(pre: RecorderView, event: TraceEvent, post: RecorderView)
    requires
        pre.orderly(),
        admits(pre, event),
        transition(pre, event, post),
    ensures
        post.orderly(),
{
    match event {
        TraceEvent::Exit { kind, inputs, outcome } => {
            lemma_exit_keeps_order(pre, post, kind, inputs, outcome);
        },
        _ => {
            assert(post.stack == pre.stack);
        },
    }
}

/// Every state of a run is orderly. So no exit in a run can be out of
/// protocol, at depth 0 the stack holds nothing but frames of depth 1, and
/// every frame on it is well nested.
pub proof fn lemma_runs_are_orderly(states: Seq<RecorderView>, events: Seq<TraceEvent>, at: int)
    requires
        is_run(states, events),
        0 <= at < states.len(),
    ensures
        states[at].orderly(),
        !states[at].exit_violates(),
    decreases at,
{
    if at > 0 {
        lemma_runs_are_orderly(states, events, at - 1);
        let _ = events[at - 1];
        lemma_transition_keeps_order(states[at - 1], events[at - 1], states[at]);
    }
    lemma_orderly_exit_is_accepted(states[at]);
}

/// A run in which no frame is ever entered or left keeps the stack empty.
pub proof fn lemma_run_without_frames_records_nothing(
    states: Seq<RecorderView>,
    events: Seq<TraceEvent>,
    at: int,
)
    requires
        is_run(states, events),
        forall|i: int|
            #![trigger events[i]]
            0 <= i < events.len() ==> events[i] is Step || events[i] is Log,
        0 <= at < states.len(),
    ensures
        states[at].stack == Seq::<StackEntry>::empty(),
        states[at].depth == 0,
    decreases at,
{
    if at > 0 {
        lemma_run_without_frames_records_nothing(states, events, at - 1);
        let _ = events[at - 1];
    }
}

/// When the outermost frame exits and no outermost frame completed before it,
/// that frame is alone on the stack, at depth 1, and the recorder is back
/// outside any frame.
pub proof fn lemma_first_root_is_alone(
    pre: RecorderView,
    post: RecorderView,
    kind: FrameKind,
    inputs: serde_json::Value,
    outcome: serde_json::Value,
)
    requires
        pre.orderly(),
        pre.depth == 1,
        forall|i: int| #![trigger pre.stack[i]] 0 <= i < pre.stack.len() ==> pre.stack[i].0 != 1,
        exit_recorded(pre, post, kind, inputs, outcome),
    ensures
        post.depth == 0,
        post.stack.len() == 1,
        post.stack[0].0 == 1,
        post.stack[0].1.depth == 1,
        post.stack[0].1.well_nested(),
        post.stack[0].1.calls@ == frames_of(pre.stack),
{
    lemma_top_run(pre.stack, 2);
    lemma_exit_keeps_order(pre, post, kind, inputs, outcome);
    let k = pre.stack.len() - top_run(pre.stack, 2);
    if k > 0 {
        assert(pre.stack[k - 1].0 != 2);
        assert(1 <= pre.stack[k - 1].0 <= 2);
    }
    assert(pre.adopted() =~= pre.stack);
}

/// What an exit that stays within the protocol does to the recorder: the run
/// of children on top of the stack is replaced by one new frame that holds
/// them in execution order together with the pending logs, and the recorder
/// steps back to the enclosing depth.
pub open spec fn exit_recorded(
    pre: RecorderView,
    post: RecorderView,
    kind: FrameKind,
    inputs: serde_json::Value,
    outcome: serde_json::Value,
) -> bool {
    let frame = post.stack.last().1;
    &&& post.gas_used == pre.gas_used
    &&& post.call_count == pre.call_count
    &&& post.depth == pre.depth - 1
    &&& post.pending_logs == Seq::<serde_json::Value>::empty()
    &&& post.stack.len() == pre.kept().len() + 1
    &&& post.stack.drop_last() == pre.kept()
    &&& post.stack.last().0 == pre.depth
    &&& frame.depth == pre.depth
    &&& frame.kind == kind
    &&& frame.inputs == inputs
    &&& frame.outcome == outcome
    &&& frame.calls@ == frames_of(pre.adopted())
    &&& frame.logs@ == pre.pending_logs
}

/// The engine reported a frame where the nesting rules allow none.
#[derive(Clone, Copy, Debug, PartialEq, Eq, Structural)]
pub enum TraceProtocolViolation {
    /// During an exit, the entry found under the children was recorded deeper
    /// than one level below the exiting frame.
    UnexpectedDepth { stack_top_depth: u64, current_depth: u64 },
    /// Execution ended with more than one frame left on the stack.
    MultipleRoots { remaining: usize },
    /// The single remaining frame was not recorded at depth 1.
    RootDepth { depth: u64 },
}

/// The recorder. The engine calls one method per lifecycle event; no method
/// ever asks the engine to change course. The stack is borrowed from the
/// caller, who reads the trace off it when execution has ended.
pub struct MyInspector<'a> {
    /// Sum of the gas figures reported at each step.
    pub gas_used: u64,
    /// Number of calls and creates entered so far.
    pub call_count: usize,
    /// Completed frames that have not been adopted by a parent yet.
    pub trace_stack: &'a mut Vec<StackEntry>,
    /// The logs emitted since the last exit, oldest first.
    pub logs_stack: Vec<serde_json::Value>,
    /// The depth of the frame that is executing; 0 outside any frame.
    pub current_depth: u64,
}

impl<'a> View for MyInspector<'a> {
    type V = RecorderView;

    open spec fn view(&self) -> RecorderView {
        RecorderView {
            gas_used: self.gas_used,
            call_count: self.call_count,
            stack: self.trace_stack@,
            pending_logs: self.logs_stack@,
            depth: self.current_depth,
        }
    }
}

impl<'a> MyInspector<'a> {
    /// A recorder that has seen nothing and records onto `trace_stack`: depth
    /// 0, and on the stack what the caller left there. What the recorder
    /// leaves on the stack is what the caller finds in `trace_stack`.
    pub fn new(trace_stack: &'a mut Vec<StackEntry>) -> (r: Self)
        ensures
            r@ == (RecorderView {
                gas_used: 0,
                call_count: 0,
                stack: old(trace_stack)@,
                pending_logs: Seq::empty(),
                depth: 0,
            }),
            *final(r.trace_stack) == *final(trace_stack),
    {
        MyInspector {
            gas_used: 0,
            call_count: 0,
            trace_stack,
            logs_stack: Vec::new(),
            current_depth: 0,
        }
    }

    /// The engine executed one instruction and reports the gas figure `gas_spent`.
    pub fn step(&mut self, gas_spent: u64)
        requires
            old(self)@.gas_used + gas_spent <= u64::MAX,
        ensures
            final(self)@ == (RecorderView {
                gas_used: (old(self)@.gas_used + gas_spent) as u64,
                ..old(self)@
            }),
            *final(final(self).trace_stack) == *final(old(self).trace_stack),
    {
        self.gas_used = self.gas_used + gas_spent;
    }

    /// The engine enters a message call. The answer is always `None`: the
    /// engine is to make the call itself.
    pub fn call(&mut self) -> (r: Option<revm::interpreter::CallOutcome>)
        requires
            old(self)@.depth < u64::MAX,
            old(self)@.call_count < usize::MAX,
        ensures
            r is None,
            final(self)@ == (RecorderView {
                call_count: (old(self)@.call_count + 1) as usize,
                depth: (old(self)@.depth + 1) as u64,
                ..old(self)@
            }),
            *final(final(self).trace_stack) == *final(old(self).trace_stack),
    {
        self.call_count = self.call_count + 1;
        self.current_depth = self.current_depth + 1;
        None
    }

    /// The engine enters a contract creation. The answer is always `None`:
    /// the engine is to make the creation itself.
    pub fn create(&mut self) -> (r: Option<revm::interpreter::CreateOutcome>)
        requires
            old(self)@.depth < u64::MAX,
            old(self)@.call_count < usize::MAX,
        ensures
            r is None,
            final(self)@ == (RecorderView {
                call_count: (old(self)@.call_count + 1) as usize,
                depth: (old(self)@.depth + 1) as u64,
                ..old(self)@
            }),
            *final(final(self).trace_stack) == *final(old(self).trace_stack),
    {
        self.call_count = self.call_count + 1;
        self.current_depth = self.current_depth + 1;
        None
    }

    /// The engine leaves a message call that it entered with `inputs` and that
    /// ended with `outcome`.
    pub fn call_end(&mut self, inputs: serde_json::Value, outcome: serde_json::Value) -> (r: Result<
        (),
        TraceProtocolViolation,
    >)
        requires
            old(self)@.depth >= 1,
        ensures
            r is Err <==> old(self)@.exit_violates(),
            r matches Err(e) ==> final(self)@ == old(self)@ && e == (
            TraceProtocolViolation::UnexpectedDepth {
                stack_top_depth: old(self)@.kept().last().0,
                current_depth: old(self)@.depth,
            }),
            r is Ok ==> exit_recorded(old(self)@, final(self)@, FrameKind::Call, inputs, outcome),
            *final(final(self).trace_stack) == *final(old(self).trace_stack),
    {
        self.exit(FrameKind::Call, inputs, outcome)
    }

    /// The engine leaves a contract creation that it entered with `inputs` and
    /// that ended with `outcome`.
    pub fn create_end(&mut self, inputs: serde_json::Value, outcome: serde_json::Value) -> (r:
        Result<(), TraceProtocolViolation>)
        requires
            old(self)@.depth >= 1,
        ensures
            r is Err <==> old(self)@.exit_violates(),
            r matches Err(e) ==> final(self)@ == old(self)@ && e == (
            TraceProtocolViolation::UnexpectedDepth {
                stack_top_depth: old(self)@.kept().last().0,
                current_depth: old(self)@.depth,
            }),
            r is Ok ==> exit_recorded(old(self)@, final(self)@, FrameKind::Create, inputs, outcome),
            *final(final(self).trace_stack) == *final(old(self).trace_stack),
    {
        self.exit(FrameKind::Create, inputs, outcome)
    }

    /// Takes one event, whichever it is.
    pub fn record(&mut self, event: TraceEvent) -> (r: Result<(), TraceProtocolViolation>)
        requires
            admits(old(self)@, event),
        ensures
            r is Err <==> event is Exit && old(self)@.exit_violates(),
            r matches Err(e) ==> final(self)@ == old(self)@ && e == (
            TraceProtocolViolation::UnexpectedDepth {
                stack_top_depth: old(self)@.kept().last().0,
                current_depth: old(self)@.depth,
            }),
            r is Ok ==> transition(old(self)@, event, final(self)@),
            *final(final(self).trace_stack) == *final(old(self).trace_stack),
    {
        match event {
            TraceEvent::Step { gas_spent } => {
                self.step(gas_spent);
                Ok(())
            },
            TraceEvent::Enter => {
                let _ = self.call();
                Ok(())
            },
            TraceEvent::Log { log } => {
                self.log(log);
                Ok(())
            },
            TraceEvent::Exit { kind, inputs, outcome } => self.exit(kind, inputs, outcome),
        }
    }

    /// Folds the children of the frame at the current depth into a new frame
    /// and puts it on the stack in their place.
    fn exit(&mut self, kind: FrameKind, inputs: serde_json::Value, outcome: serde_json::Value) -> (r:
        Result<(), TraceProtocolViolation>)
        requires
            old(self)@.depth >= 1,
        ensures
            r is Err <==> old(self)@.exit_violates(),
            r matches Err(e) ==> final(self)@ == old(self)@ && e == (
            TraceProtocolViolation::UnexpectedDepth {
                stack_top_depth: old(self)@.kept().last().0,
                current_depth: old(self)@.depth,
            }),
            r is Ok ==> exit_recorded(old(self)@, final(self)@, kind, inputs, outcome),
            *final(final(self).trace_stack) == *final(old(self).trace_stack),
    {
        let depth = self.current_depth;
        let len = self.trace_stack.len();
        let ghost stack = self.trace_stack@;
        let mut kept: usize = len;
        proof {
            assert(stack.take(len as int) =~= stack);
        }
        while kept > 0 && self.trace_stack[kept - 1].0 > depth && self.trace_stack[kept - 1].0 - 1
            == depth
            invariant
                kept <= len,
                len == stack.len(),
                stack == self.trace_stack@,
                depth == self.current_depth,
                top_run(stack, depth + 1) == (len - kept) + top_run(stack.take(kept as int), depth + 1),
            decreases kept,
        {
            proof {
                assert(stack.take(kept as int).drop_last() =~= stack.take(kept - 1));
            }
            kept = kept - 1;
        }
        proof {
            assert(stack.take(kept as int).len() == kept);
            assert(top_run(stack.take(kept as int), depth + 1) == 0);
        }
        if kept > 0 && self.trace_stack[kept - 1].0 > depth {
            return Err(
                TraceProtocolViolation::UnexpectedDepth {
                    stack_top_depth: self.trace_stack[kept - 1].0,
                    current_depth: depth,
                },
            );
        }
        let mut adopted = self.trace_stack.split_off(kept);
        proof {
            assert(self.trace_stack@ =~= stack.take(kept as int));
            assert(adopted@ =~= stack.skip(kept as int));
        }
        let calls = take_frames(&mut adopted);
        let mut logs: Vec<serde_json::Value> = Vec::new();
        std::mem::swap(&mut logs, &mut self.logs_stack);
        let frame = TraceFrame { depth, kind, inputs, outcome, calls, logs };
        self.trace_stack.push((depth, frame));
        self.current_depth = depth - 1;
        proof {
            assert(self.trace_stack@.drop_last() =~= stack.take(kept as int));
        }
        Ok(())
    }

    /// The engine emitted a log inside the current frame.
    pub fn log(&mut self, log: serde_json::Value)
        ensures
            final(self)@ == (RecorderView {
                pending_logs: old(self)@.pending_logs.push(log),
                ..old(self)@
            }),
            *final(final(self).trace_stack) == *final(old(self).trace_stack),
    {
        self.logs_stack.push(log);
    }
}

/// Moves the frames out of `entries`, keeping their order.
fn take_frames(entries: &mut Vec<StackEntry>) -> (frames: Vec<TraceFrame>)
    ensures
        frames@ == frames_of(old(entries)@),
        final(entries)@.len() == 0,
{
    let ghost all = entries@;
    let mut reversed: Vec<TraceFrame> = Vec::new();
    while entries.len() > 0
        invariant
            entries@.len() + reversed@.len() == all.len(),
            entries@ == all.take(entries@.len() as int),
            forall|i: int|
                0 <= i < reversed@.len() ==> reversed@[i] == #[trigger] all[all.len() - 1 - i].1,
        decreases entries@.len(),
    {
        let entry = entries.pop().unwrap();
        reversed.push(entry.1);
    }
    let mut frames: Vec<TraceFrame> = Vec::new();
    while reversed.len() > 0
        invariant
            frames@.len() + reversed@.len() == all.len(),
            forall|i: int|
                0 <= i < reversed@.len() ==> reversed@[i] == #[trigger] all[all.len() - 1 - i].1,
            forall|i: int| 0 <= i < frames@.len() ==> #[trigger] frames@[i] == all[i].1,
        decreases reversed@.len(),
    {
        let ghost next = frames@.len() as int;
        let frame = reversed.pop().unwrap();
        proof {
            assert(frame == all[all.len() - 1 - reversed@.len()].1);
            assert(all.len() - 1 - reversed@.len() == next);
        }
        frames.push(frame);
    }
    proof {
        assert(frames@ =~= frames_of(all));
    }
    frames
}

} // verus!
