//! The trace is a function of the events: two recorders that take the same
//! events hold the same trees, whatever vectors they keep them in.

use vstd::prelude::*;
use crate::trace::trace_outcome;
use crate::inspector::{
    is_run, lemma_top_run, top_run, FrameKind, RecorderView, StackEntry, TraceEvent, TraceFrame,
};

verus! {

/// A frame with all that is nested in it, as plain values.
pub ghost struct FrameTree {
    pub depth: u64,
    pub kind: FrameKind,
    pub inputs: serde_json::Value,
    pub outcome: serde_json::Value,
    pub calls: Seq<FrameTree>,
    pub logs: Seq<serde_json::Value>,
}

/// The tree that `frame` holds.
pub open spec fn tree_of(frame: TraceFrame) -> FrameTree
    decreases frame,
{
    FrameTree {
        depth: frame.depth,
        kind: frame.kind,
        inputs: frame.inputs,
        outcome: frame.outcome,
        calls: Seq::new(
            frame.calls@.len(),
            |i: int|
                if 0 <= i < frame.calls@.len() {
                    tree_of(frame.calls@[i])
                } else {
                    arbitrary()
                },
        ),
        logs: frame.logs@,
    }
}

/// The depths and trees of a run of stack entries.
pub open spec fn trees_of(entries: Seq<StackEntry>) -> Seq<(u64, FrameTree)> {
    Seq::new(entries.len(), |i: int| (entries[i].0, tree_of(entries[i].1)))
}

/// Two recorder states that no observer can tell apart.
pub open spec fn same_record(a: RecorderView, b: RecorderView) -> bool {
    &&& a.gas_used == b.gas_used
    &&& a.call_count == b.call_count
    &&& a.depth == b.depth
    &&& a.pending_logs == b.pending_logs
    &&& trees_of(a.stack) == trees_of(b.stack)
}

/// How long the run of children on top of a stack is depends on the depths
/// of its entries alone.
pub proof fn lemma_top_run_of_trees(a: Seq<StackEntry>, b: Seq<StackEntry>, depth: int)
    requires
        trees_of(a) == trees_of(b),
    ensures
        a.len() == b.len(),
        top_run(a, depth) == top_run(b, depth),
    decreases a.len(),
{
    assert(trees_of(a).len() == a.len());
    assert(trees_of(b).len() == b.len());
    if a.len() > 0 {
        assert(trees_of(a)[a.len() - 1].0 == a.last().0);
        assert(trees_of(b)[b.len() - 1].0 == b.last().0);
        assert(trees_of(a.drop_last()) =~= trees_of(a).drop_last());
        assert(trees_of(b.drop_last()) =~= trees_of(b).drop_last());
        lemma_top_run_of_trees(a.drop_last(), b.drop_last(), depth);
    }
}

/// One accepted event takes two states that cannot be told apart to two
/// states that cannot be told apart.
pub proof fn lemma_same_event_same_record(
    a: RecorderView,
    b: RecorderView,
    event: TraceEvent,
    a_next: RecorderView,
    b_next: RecorderView,
)
    requires
        same_record(a, b),
        crate::inspector::transition(a, event, a_next),
        crate::inspector::transition(b, event, b_next),
    ensures
        same_record(a_next, b_next),
{
    match event {
        TraceEvent::Exit { kind, inputs, outcome } => {
            lemma_top_run_of_trees(a.stack, b.stack, a.depth + 1);
            lemma_top_run(a.stack, a.depth + 1);
            lemma_top_run(b.stack, b.depth + 1);
            let kept = a.stack.len() - top_run(a.stack, a.depth + 1);
            let fa = a_next.stack.last().1;
            let fb = b_next.stack.last().1;
            assert(tree_of(fa).calls =~= tree_of(fb).calls) by {
                assert forall|i: int| 0 <= i < fa.calls@.len() implies tree_of(fa.calls@[i])
                    == tree_of(fb.calls@[i]) by {
                    assert(fa.calls@[i] == a.adopted()[i].1);
                    assert(fb.calls@[i] == b.adopted()[i].1);
                    assert(a.adopted()[i] == a.stack[kept + i]);
                    assert(b.adopted()[i] == b.stack[kept + i]);
                    assert(trees_of(a.stack)[kept + i].1 == tree_of(a.stack[kept + i].1));
                    assert(trees_of(b.stack)[kept + i].1 == tree_of(b.stack[kept + i].1));
                }
            }
            assert(tree_of(fa) == tree_of(fb));
            assert(trees_of(a_next.stack) =~= trees_of(b_next.stack)) by {
                assert forall|i: int| 0 <= i < a_next.stack.len() implies trees_of(
                    a_next.stack,
                )[i] == trees_of(b_next.stack)[i] by {
                    if i < kept {
                        assert(a_next.stack[i] == a_next.stack.drop_last()[i]);
                        assert(b_next.stack[i] == b_next.stack.drop_last()[i]);
                        assert(a.kept()[i] == a.stack[i]);
                        assert(b.kept()[i] == b.stack[i]);
                        assert(trees_of(a.stack)[i] == (a.stack[i].0, tree_of(a.stack[i].1)));
                        assert(trees_of(b.stack)[i] == (b.stack[i].0, tree_of(b.stack[i].1)));
                    }
                }
            }
        },
        _ => {},
    }
}

/// Two runs over the same events cannot be told apart at any point: the
/// counters agree, the pending logs agree, and the stacks hold the same trees
/// at the same depths.
pub proof fn lemma_same_events_same_record(
    a: Seq<RecorderView>,
    b: Seq<RecorderView>,
    events: Seq<TraceEvent>,
    at: int,
)
    requires
        is_run(a, events),
        is_run(b, events),
        0 <= at <= events.len(),
    ensures
        same_record(a[at], b[at]),
    decreases at,
{
    if at > 0 {
        lemma_same_events_same_record(a, b, events, at - 1);
        let _ = events[at - 1];
        lemma_same_event_same_record(a[at - 1], b[at - 1], events[at - 1], a[at], b[at]);
    }
}

/// Two runs over the same events end in the same trace: both in none, both
/// in the same violation, or both in a root that holds the same tree.
pub proof fn lemma_same_events_same_trace(
    a: Seq<RecorderView>,
    b: Seq<RecorderView>,
    events: Seq<TraceEvent>,
)
    requires
        is_run(a, events),
        is_run(b, events),
    ensures
        match (trace_outcome(a.last().stack), trace_outcome(b.last().stack)) {
            (Ok(None), Ok(None)) => true,
            (Ok(Some(root_a)), Ok(Some(root_b))) => tree_of(root_a) == tree_of(root_b),
            (Err(violation_a), Err(violation_b)) => violation_a == violation_b,
            _ => false,
        },
{
    lemma_same_events_same_record(a, b, events, events.len() as int);
    let sa = a.last().stack;
    let sb = b.last().stack;
    assert(trees_of(sa).len() == sa.len());
    assert(trees_of(sb).len() == sb.len());
    if sa.len() > 0 {
        assert(trees_of(sa)[0] == (sa[0].0, tree_of(sa[0].1)));
        assert(trees_of(sb)[0] == (sb[0].0, tree_of(sb[0].1)));
    }
}

} // verus!
