use serde_json::Value;
use trace_prestate::inspector::{
    FrameKind, MyInspector, TraceEvent, TraceFrame, TraceProtocolViolation,
};
use trace_prestate::trace::trace_result;

fn label(name: &str) -> Value {
    Value::String(name.to_string())
}

fn leaf(depth: u64, name: &str) -> TraceFrame {
    TraceFrame {
        depth,
        kind: FrameKind::Call,
        inputs: label(name),
        outcome: Value::Null,
        calls: Vec::new(),
        logs: Vec::new(),
    }
}

#[test]
fn new_recorder_has_seen_nothing() {
    let mut buffer = Vec::new();
    let recorder = MyInspector::new(&mut buffer);
    assert_eq!(recorder.gas_used, 0);
    assert_eq!(recorder.call_count, 0);
    assert_eq!(recorder.current_depth, 0);
    assert!(recorder.trace_stack.is_empty());
    assert!(recorder.logs_stack.is_empty());
}

#[test]
fn two_sibling_calls_become_children_in_execution_order() {
    let mut buffer = Vec::new();
    let mut recorder = MyInspector::new(&mut buffer);
    recorder.call();
    recorder.call();
    assert_eq!(recorder.call_end(label("B"), label("B done")), Ok(()));
    recorder.call();
    assert_eq!(recorder.call_end(label("C"), label("C done")), Ok(()));
    assert_eq!(recorder.call_end(label("A"), label("A done")), Ok(()));

    assert_eq!(recorder.current_depth, 0);
    assert_eq!(recorder.call_count, 3);
    let root = trace_result(buffer).unwrap().unwrap();
    assert_eq!(root.depth, 1);
    assert_eq!(root.kind, FrameKind::Call);
    assert_eq!(root.inputs, label("A"));
    assert_eq!(root.outcome, label("A done"));
    assert_eq!(root.calls.len(), 2);
    assert_eq!(root.calls[0].inputs, label("B"));
    assert_eq!(root.calls[0].outcome, label("B done"));
    assert_eq!(root.calls[0].depth, 2);
    assert_eq!(root.calls[1].inputs, label("C"));
    assert_eq!(root.calls[1].depth, 2);
    assert!(root.calls[0].calls.is_empty());
    assert!(root.calls[1].calls.is_empty());
    assert!(root.logs.is_empty());
}

#[test]
fn no_enter_and_no_exit_gives_the_null_trace() {
    let mut buffer = Vec::new();
    let mut recorder = MyInspector::new(&mut buffer);
    recorder.step(21_000);
    recorder.log(label("orphan"));
    recorder.step(5);
    assert_eq!(recorder.gas_used, 21_005);
    assert!(recorder.trace_stack.is_empty());
    assert_eq!(trace_result(buffer), Ok(None));
}

#[test]
fn fresh_recorder_gives_the_null_trace() {
    let mut buffer = Vec::new();
    let recorder = MyInspector::new(&mut buffer);
    assert_eq!(recorder.current_depth, 0);
    assert_eq!(trace_result(buffer), Ok(None));
}

#[test]
fn recorder_goes_on_from_what_the_caller_left_on_the_stack() {
    let mut buffer = vec![(1, leaf(1, "earlier"))];
    let mut recorder = MyInspector::new(&mut buffer);
    assert_eq!(recorder.trace_stack.len(), 1);
    recorder.call();
    assert_eq!(recorder.call_end(label("later"), Value::Null), Ok(()));
    assert_eq!(buffer.len(), 2);
    assert_eq!(buffer[0].1.inputs, label("earlier"));
    assert_eq!(buffer[1].1.inputs, label("later"));
    assert_eq!(trace_result(buffer), Err(TraceProtocolViolation::MultipleRoots { remaining: 1 }));
}

#[test]
fn entry_deeper_than_a_child_is_a_violation() {
    let mut buffer = Vec::new();
    let mut recorder = MyInspector::new(&mut buffer);
    recorder.call();
    recorder.trace_stack.push((3, leaf(3, "stray")));
    let before = recorder.trace_stack.len();
    assert_eq!(
        recorder.call_end(label("A"), Value::Null),
        Err(TraceProtocolViolation::UnexpectedDepth { stack_top_depth: 3, current_depth: 1 })
    );
    assert_eq!(recorder.trace_stack.len(), before);
    assert_eq!(recorder.current_depth, 1);
}

#[test]
fn violation_under_the_children_leaves_the_recorder_as_it_was() {
    let mut buffer = Vec::new();
    let mut recorder = MyInspector::new(&mut buffer);
    recorder.call();
    recorder.trace_stack.push((7, leaf(7, "stray")));
    recorder.trace_stack.push((2, leaf(2, "child")));
    recorder.log(label("pending"));
    assert_eq!(
        recorder.create_end(label("A"), Value::Null),
        Err(TraceProtocolViolation::UnexpectedDepth { stack_top_depth: 7, current_depth: 1 })
    );
    assert_eq!(recorder.trace_stack.len(), 2);
    assert_eq!(recorder.trace_stack[1].1.inputs, label("child"));
    assert_eq!(recorder.logs_stack.len(), 1);
    assert_eq!(recorder.current_depth, 1);
}

#[test]
fn exit_stops_at_an_entry_that_is_no_child() {
    let mut buffer = Vec::new();
    let mut recorder = MyInspector::new(&mut buffer);
    recorder.call();
    assert_eq!(recorder.call_end(label("first"), Value::Null), Ok(()));
    recorder.call();
    recorder.call();
    assert_eq!(recorder.call_end(label("inner"), Value::Null), Ok(()));
    assert_eq!(recorder.call_end(label("second"), Value::Null), Ok(()));

    assert_eq!(recorder.trace_stack.len(), 2);
    assert_eq!(recorder.trace_stack[0].0, 1);
    assert_eq!(recorder.trace_stack[0].1.inputs, label("first"));
    assert!(recorder.trace_stack[0].1.calls.is_empty());
    assert_eq!(recorder.trace_stack[1].0, 1);
    assert_eq!(recorder.trace_stack[1].1.inputs, label("second"));
    assert_eq!(recorder.trace_stack[1].1.calls.len(), 1);
    assert_eq!(recorder.trace_stack[1].1.calls[0].inputs, label("inner"));
}

#[test]
fn entry_at_a_lower_depth_stays_on_the_stack() {
    let mut buffer = Vec::new();
    let mut recorder = MyInspector::new(&mut buffer);
    recorder.call();
    recorder.call();
    recorder.trace_stack.push((1, leaf(1, "low")));
    recorder.trace_stack.push((3, leaf(3, "child")));
    assert_eq!(recorder.call_end(label("A"), Value::Null), Ok(()));
    assert_eq!(recorder.trace_stack.len(), 2);
    assert_eq!(recorder.trace_stack[0].1.inputs, label("low"));
    assert_eq!(recorder.trace_stack[1].0, 2);
    assert_eq!(recorder.trace_stack[1].1.calls.len(), 1);
    assert_eq!(recorder.trace_stack[1].1.calls[0].inputs, label("child"));
    assert_eq!(recorder.current_depth, 1);
}

#[test]
fn logs_go_to_the_frame_that_exits_next() {
    let mut buffer = Vec::new();
    let mut recorder = MyInspector::new(&mut buffer);
    recorder.call();
    recorder.log(label("one"));
    recorder.call();
    recorder.log(label("two"));
    assert_eq!(recorder.call_end(label("inner"), Value::Null), Ok(()));
    assert!(recorder.logs_stack.is_empty());
    recorder.log(label("three"));
    assert_eq!(recorder.call_end(label("outer"), Value::Null), Ok(()));

    let root = trace_result(buffer).unwrap().unwrap();
    assert_eq!(root.logs, vec![label("three")]);
    assert_eq!(root.calls[0].logs, vec![label("one"), label("two")]);
}

#[test]
fn create_frames_are_marked_as_creates() {
    let mut buffer = Vec::new();
    let mut recorder = MyInspector::new(&mut buffer);
    recorder.create();
    recorder.call();
    assert_eq!(recorder.call_end(label("call"), Value::Null), Ok(()));
    assert_eq!(recorder.create_end(label("create"), Value::Null), Ok(()));
    let root = trace_result(buffer).unwrap().unwrap();
    assert_eq!(root.kind, FrameKind::Create);
    assert_eq!(root.calls[0].kind, FrameKind::Call);
    assert_eq!(root.inputs, label("create"));
}

#[test]
fn three_levels_nest() {
    let mut buffer = Vec::new();
    let mut recorder = MyInspector::new(&mut buffer);
    recorder.call();
    recorder.call();
    recorder.call();
    assert_eq!(recorder.current_depth, 3);
    assert_eq!(recorder.call_end(label("c"), Value::Null), Ok(()));
    assert_eq!(recorder.call_end(label("b"), Value::Null), Ok(()));
    assert_eq!(recorder.call_end(label("a"), Value::Null), Ok(()));
    let root = trace_result(buffer).unwrap().unwrap();
    assert_eq!(root.inputs, label("a"));
    assert_eq!(root.calls.len(), 1);
    assert_eq!(root.calls[0].inputs, label("b"));
    assert_eq!(root.calls[0].calls.len(), 1);
    assert_eq!(root.calls[0].calls[0].inputs, label("c"));
    assert_eq!(root.calls[0].calls[0].depth, 3);
}

#[test]
fn steps_add_up() {
    let mut buffer = Vec::new();
    let mut recorder = MyInspector::new(&mut buffer);
    recorder.step(3);
    recorder.step(0);
    recorder.step(u64::MAX - 3);
    assert_eq!(recorder.gas_used, u64::MAX);
}

#[test]
fn events_drive_the_recorder_like_the_callbacks() {
    let mut buffer = Vec::new();
    let mut recorder = MyInspector::new(&mut buffer);
    let events = vec![
        TraceEvent::Enter,
        TraceEvent::Step { gas_spent: 7 },
        TraceEvent::Enter,
        TraceEvent::Exit { kind: FrameKind::Create, inputs: label("B"), outcome: Value::Null },
        TraceEvent::Log { log: label("late") },
        TraceEvent::Enter,
        TraceEvent::Exit { kind: FrameKind::Call, inputs: label("C"), outcome: Value::Null },
        TraceEvent::Exit { kind: FrameKind::Call, inputs: label("A"), outcome: Value::Null },
    ];
    for event in events {
        assert_eq!(recorder.record(event), Ok(()));
    }
    assert_eq!(recorder.gas_used, 7);
    assert_eq!(recorder.call_count, 3);
    let root = trace_result(buffer).unwrap().unwrap();
    assert_eq!(root.calls.len(), 2);
    assert_eq!(root.calls[0].kind, FrameKind::Create);
    assert_eq!(root.calls[0].inputs, label("B"));
    assert_eq!(root.calls[1].inputs, label("C"));
    assert_eq!(root.calls[1].logs, vec![label("late")]);
    assert!(root.logs.is_empty());
}

#[test]
fn record_reports_a_violation() {
    let mut buffer = Vec::new();
    let mut recorder = MyInspector::new(&mut buffer);
    assert_eq!(recorder.record(TraceEvent::Enter), Ok(()));
    recorder.trace_stack.push((5, leaf(5, "stray")));
    assert_eq!(
        recorder.record(TraceEvent::Exit {
            kind: FrameKind::Call,
            inputs: Value::Null,
            outcome: Value::Null
        }),
        Err(TraceProtocolViolation::UnexpectedDepth { stack_top_depth: 5, current_depth: 1 })
    );
}

#[test]
fn two_roots_are_a_violation() {
    let stack = vec![(1, leaf(1, "a")), (1, leaf(1, "b")), (1, leaf(1, "c"))];
    assert_eq!(trace_result(stack), Err(TraceProtocolViolation::MultipleRoots { remaining: 2 }));
}

#[test]
fn root_at_another_depth_is_a_violation() {
    assert_eq!(
        trace_result(vec![(2, leaf(2, "a"))]),
        Err(TraceProtocolViolation::RootDepth { depth: 2 })
    );
    assert_eq!(
        trace_result(vec![(0, leaf(0, "a"))]),
        Err(TraceProtocolViolation::RootDepth { depth: 0 })
    );
}

#[test]
fn single_root_at_depth_one_is_the_trace() {
    let root = trace_result(vec![(1, leaf(1, "a"))]).unwrap().unwrap();
    assert_eq!(root.inputs, label("a"));
}

#[test]
fn same_events_give_the_same_trace() {
    let run = || {
        let mut buffer = Vec::new();
    let mut recorder = MyInspector::new(&mut buffer);
        recorder.call();
        recorder.call();
        recorder.log(label("l"));
        recorder.call_end(label("B"), Value::Null).unwrap();
        recorder.call_end(label("A"), Value::Null).unwrap();
        trace_result(buffer)
    };
    assert_eq!(run(), run());
}

#[test]
fn entering_never_asks_the_engine_to_skip_the_frame() {
    let mut buffer = Vec::new();
    let mut recorder = MyInspector::new(&mut buffer);
    assert!(recorder.call().is_none());
    assert!(recorder.create().is_none());
    assert_eq!(recorder.current_depth, 2);
    assert_eq!(recorder.call_count, 2);
}
