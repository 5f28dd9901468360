use payload_router::caps::MediaKind;
use payload_router::caps::SubStreamDescriptor;
use payload_router::ingest::SinkAction;
use payload_router::merge::step;
use payload_router::merge::Event;
use payload_router::merge::GraphStatus;
use payload_router::merge::IncomingUnit;
use payload_router::merge::LoopState;
use payload_router::merge::StopKind;
use payload_router::recipe::Stage;
use payload_router::router::BranchRouter;

fn one_stream(codec: &[u8], payload_type: u8) -> Vec<SubStreamDescriptor> {
    vec![SubStreamDescriptor {
        media: MediaKind::Video,
        codec: codec.to_vec(),
        clock_rate: 90000,
        payload_type,
        channels: None,
    }]
}

fn packet(payload: &[u8]) -> Event {
    Event::Feed(IncomingUnit::DataPacket {
        stream_index: 0,
        payload: payload.to_vec(),
        pts: 0,
        clock_rate: 90000,
    })
}

/// Feeds events through the loop one at a time, recording every sink call in
/// order, like a mock sink would.
fn run(streams: &Vec<SubStreamDescriptor>, events: Vec<Event>) -> (LoopState, Vec<SinkAction>) {
    let mut state = LoopState::Running { last: None };
    let mut trace = Vec::new();
    for ev in events {
        let (next, mut acts) = step(state, streams, ev);
        state = next;
        trace.append(&mut acts);
    }
    (state, trace)
}

fn count_pushes(trace: &[SinkAction]) -> usize {
    trace
        .iter()
        .filter(|a| matches!(a, SinkAction::Push { .. }))
        .count()
}

fn count_finishes(trace: &[SinkAction]) -> usize {
    trace.iter().filter(|a| matches!(a, SinkAction::Finish)).count()
}

#[test]
fn three_h264_packets_then_end() {
    let streams = one_stream(b"H264", 96);
    let (state, trace) = run(
        &streams,
        vec![
            packet(b"one"),
            packet(b"two"),
            packet(b"three"),
            Event::Feed(IncomingUnit::End),
        ],
    );
    // One branch for payload type 96, built from the H264 recipe.
    let mut router = BranchRouter::new();
    let mut plans = Vec::new();
    for _ in 0..3 {
        if let Some(plan) = router.on_new_payload_type(96, &b"H264".to_vec()) {
            plans.push(plan);
        }
    }
    assert_eq!(plans.len(), 1);
    assert_eq!(plans[0].recipe.stages[0], Stage::RtpH264Depay);
    assert_eq!(plans[0].recipe.stages.len(), 5);
    // Three buffers pushed, one finish, normal exit.
    assert_eq!(count_pushes(&trace), 3);
    assert_eq!(count_finishes(&trace), 1);
    assert!(matches!(trace.last(), Some(SinkAction::Finish)));
    assert!(matches!(
        state,
        LoopState::Stopped { reason: StopKind::NormalEndOfStream, cause: None }
    ));
}

#[test]
fn unknown_codec_packet_then_end() {
    let streams = one_stream(b"XYZ", 97);
    let (state, trace) = run(
        &streams,
        vec![packet(b"data"), Event::Feed(IncomingUnit::End)],
    );
    let mut router = BranchRouter::new();
    let plan = router.on_new_payload_type(97, &b"XYZ".to_vec()).unwrap();
    assert_eq!(plan.recipe.stages, vec![Stage::Discard]);
    assert_eq!(count_pushes(&trace), 1);
    assert!(matches!(
        state,
        LoopState::Stopped { reason: StopKind::NormalEndOfStream, .. }
    ));
}

#[test]
fn graph_error_stops_the_loop_without_finish() {
    let streams = one_stream(b"H264", 96);
    let (state, trace) = run(
        &streams,
        vec![Event::Status(GraphStatus::Error { cause: b"X".to_vec() })],
    );
    assert_eq!(count_finishes(&trace), 0);
    assert!(trace.is_empty());
    match state {
        LoopState::Stopped { reason, cause } => {
            assert_eq!(reason, StopKind::GraphError);
            assert_eq!(cause, Some(b"X".to_vec()));
        }
        _ => panic!("loop should have stopped"),
    }
}

#[test]
fn feed_error_after_a_packet_stops_without_finish() {
    let streams = one_stream(b"H264", 96);
    let (state, trace) = run(
        &streams,
        vec![
            packet(b"data"),
            Event::FeedFailed { cause: b"connection reset".to_vec() },
        ],
    );
    assert_eq!(count_pushes(&trace), 1);
    assert_eq!(count_finishes(&trace), 0);
    match state {
        LoopState::Stopped { reason, cause } => {
            assert_eq!(reason, StopKind::FeedError);
            assert_eq!(cause, Some(b"connection reset".to_vec()));
        }
        _ => panic!("loop should have stopped"),
    }
}

#[test]
fn configure_precedes_every_push_that_needs_a_new_descriptor() {
    let streams = one_stream(b"H264", 96);
    let (_, trace) = run(&streams, vec![packet(b"one"), packet(b"two")]);
    // First packet: configure then push; second packet, same descriptor: push only.
    assert_eq!(trace.len(), 3);
    assert!(matches!(trace[0], SinkAction::Configure(_)));
    assert!(matches!(trace[1], SinkAction::Push { .. }));
    assert!(matches!(trace[2], SinkAction::Push { .. }));
}

#[test]
fn descriptor_change_forces_a_reconfigure_before_the_push() {
    let streams = one_stream(b"H264", 96);
    let changed = Event::Feed(IncomingUnit::DataPacket {
        stream_index: 0,
        payload: b"two".to_vec(),
        pts: 0,
        clock_rate: 8000,
    });
    let (_, trace) = run(&streams, vec![packet(b"one"), changed]);
    assert_eq!(trace.len(), 4);
    assert!(matches!(trace[0], SinkAction::Configure(_)));
    assert!(matches!(trace[1], SinkAction::Push { .. }));
    assert!(matches!(trace[2], SinkAction::Configure(_)));
    assert!(matches!(trace[3], SinkAction::Push { .. }));
}

#[test]
fn control_reports_and_other_status_are_ignored() {
    let streams = one_stream(b"H264", 96);
    let (state, trace) = run(
        &streams,
        vec![
            Event::Feed(IncomingUnit::ControlReport),
            Event::Status(GraphStatus::Other),
        ],
    );
    assert!(trace.is_empty());
    assert!(matches!(state, LoopState::Running { .. }));
}

#[test]
fn status_end_of_stream_stops_normally_without_finish() {
    let streams = one_stream(b"H264", 96);
    let (state, trace) = run(&streams, vec![Event::Status(GraphStatus::EndOfStream)]);
    assert_eq!(count_finishes(&trace), 0);
    assert!(matches!(
        state,
        LoopState::Stopped { reason: StopKind::NormalEndOfStream, .. }
    ));
}

#[test]
fn status_bus_closing_stops_normally() {
    let streams = one_stream(b"H264", 96);
    let (state, _) = run(&streams, vec![Event::StatusClosed]);
    assert!(matches!(
        state,
        LoopState::Stopped { reason: StopKind::NormalEndOfStream, .. }
    ));
}

#[test]
fn sink_failure_is_a_graph_error() {
    let streams = one_stream(b"H264", 96);
    let (state, _) = run(
        &streams,
        vec![Event::SinkFailed { cause: b"sink unavailable".to_vec() }],
    );
    match state {
        LoopState::Stopped { reason, cause } => {
            assert_eq!(reason, StopKind::GraphError);
            assert_eq!(cause, Some(b"sink unavailable".to_vec()));
        }
        _ => panic!("loop should have stopped"),
    }
}

#[test]
fn a_stopped_loop_ignores_every_further_event() {
    let streams = one_stream(b"H264", 96);
    let (state, trace) = run(
        &streams,
        vec![
            Event::Feed(IncomingUnit::End),
            packet(b"late"),
            Event::Status(GraphStatus::Error { cause: b"late".to_vec() }),
        ],
    );
    assert_eq!(count_pushes(&trace), 0);
    assert_eq!(count_finishes(&trace), 1);
    assert!(matches!(
        state,
        LoopState::Stopped { reason: StopKind::NormalEndOfStream, .. }
    ));
}
