//! The Event Merge Loop: merges the packet feed and the graph's status bus
//! into one control loop. The loop is a state machine; each iteration takes
//! whichever event was ready first and decides the next state and the sink
//! calls to perform. The unverified shell races the two sources, performs the
//! calls, and reports their failures back as events, so every decision the
//! loop makes is made here and verified.

use vstd::prelude::*;

use crate::caps::build_caps;
use crate::caps::caps_of;
use crate::caps::CapabilityDescriptor;
use crate::caps::CapsModel;
use crate::caps::SubStreamDescriptor;
use crate::caps::SubStreamModel;
use crate::ingest::acts_model;
use crate::ingest::finish_count;
use crate::ingest::forward_packet;
use crate::ingest::is_push;
use crate::ingest::last_configured;
use crate::ingest::lemma_finish_count_append;
use crate::ingest::lemma_finish_count_push;
use crate::ingest::lemma_last_configured_push;
use crate::ingest::opt_caps_model;
use crate::ingest::push_caps;
use crate::ingest::pushes_configured;
use crate::ingest::spec_forward;
use crate::ingest::ActionModel;
use crate::ingest::SinkAction;

verus! {

/// One unit produced by the packet feed.
pub enum IncomingUnit {
    /// One timestamped data packet of one sub-stream.
    DataPacket {
        /// Index into the negotiated sub-stream metadata.
        stream_index: usize,
        /// The packet's raw bytes, forwarded as one buffer.
        payload: Vec<u8>,
        /// Presentation timestamp, owned for the duration of forwarding.
        pts: u64,
        /// Clock rate of the packet's timing context, in Hz.
        clock_rate: u32,
    },
    /// A control report; discarded silently.
    ControlReport,
    /// The feed is exhausted; the sole normal end of the feed.
    End,
}

/// One message from the graph engine's status bus.
pub enum GraphStatus {
    EndOfStream,
    Error { cause: Vec<u8> },
    Other,
}

/// One event the loop reacts to: whichever of the two sources was ready
/// first, or the outcome of a sink call the shell performed.
pub enum Event {
    /// The packet feed yielded a unit.
    Feed(IncomingUnit),
    /// The packet feed itself failed; it is unusable from here on.
    FeedFailed { cause: Vec<u8> },
    /// The status bus yielded a message.
    Status(GraphStatus),
    /// The status bus closed with no further message.
    StatusClosed,
    /// A configure, push or finish against the real sink failed.
    SinkFailed { cause: Vec<u8> },
}

/// Why the loop stopped.
#[derive(Clone, Copy, PartialEq, Eq, Structural, Debug)]
pub enum StopKind {
    NormalEndOfStream,
    FeedError,
    GraphError,
}

/// The loop's state: running with the capability last declared to the sink,
/// or stopped for a recorded reason, with the failing side's cause when one
/// exists.
pub enum LoopState {
    Running { last: Option<CapabilityDescriptor> },
    Stopped { reason: StopKind, cause: Option<Vec<u8>> },
}

/// Mathematical model of an incoming unit.
pub enum UnitModel {
    DataPacket { stream_index: int, payload: Seq<u8>, pts: u64, clock_rate: u32 },
    ControlReport,
    End,
}

/// Mathematical model of a status-bus message.
pub enum StatusModel {
    EndOfStream,
    Error(Seq<u8>),
    Other,
}

/// Mathematical model of a loop event.
pub enum EventModel {
    Feed(UnitModel),
    FeedFailed(Seq<u8>),
    Status(StatusModel),
    StatusClosed,
    SinkFailed(Seq<u8>),
}

/// Mathematical model of the loop's state.
pub enum StateModel {
    Running(Option<CapsModel>),
    Stopped { reason: StopKind, cause: Option<Seq<u8>> },
}

impl View for IncomingUnit {
    type V = UnitModel;

    open spec fn view(&self) -> UnitModel {
        match self {
            IncomingUnit::DataPacket { stream_index, payload, pts, clock_rate } => {
                UnitModel::DataPacket {
                    stream_index: *stream_index as int,
                    payload: payload@,
                    pts: *pts,
                    clock_rate: *clock_rate,
                }
            },
            IncomingUnit::ControlReport => UnitModel::ControlReport,
            IncomingUnit::End => UnitModel::End,
        }
    }
}

impl View for GraphStatus {
    type V = StatusModel;

    open spec fn view(&self) -> StatusModel {
        match self {
            GraphStatus::EndOfStream => StatusModel::EndOfStream,
            GraphStatus::Error { cause } => StatusModel::Error(cause@),
            GraphStatus::Other => StatusModel::Other,
        }
    }
}

impl View for Event {
    type V = EventModel;

    open spec fn view(&self) -> EventModel {
        match self {
            Event::Feed(u) => EventModel::Feed(u@),
            Event::FeedFailed { cause } => EventModel::FeedFailed(cause@),
            Event::Status(s) => EventModel::Status(s@),
            Event::StatusClosed => EventModel::StatusClosed,
            Event::SinkFailed { cause } => EventModel::SinkFailed(cause@),
        }
    }
}

impl View for LoopState {
    type V = StateModel;

    open spec fn view(&self) -> StateModel {
        match self {
            LoopState::Running { last } => StateModel::Running(opt_caps_model(*last)),
            LoopState::Stopped { reason, cause } => StateModel::Stopped {
                reason: *reason,
                cause: (match cause {
                    Some(c) => Some(c@),
                    None => None,
                }),
            },
        }
    }
}

/// The model of the negotiated sub-stream metadata collection.
pub open spec fn streams_model(v: Vec<SubStreamDescriptor>) -> Seq<SubStreamModel> {
    v@.map_values(|d: SubStreamDescriptor| d@)
}

/// Negotiated metadata is well formed.
pub open spec fn streams_ok(streams: Seq<SubStreamModel>) -> bool {
    forall|i: int| 0 <= i < streams.len() ==> (#[trigger] streams[i]).wf()
}

/// An event the feed is allowed to deliver: a data packet carries a stream
/// index that negotiation established and a positive clock rate.
pub open spec fn event_ok(ev: EventModel, streams: Seq<SubStreamModel>) -> bool {
    ev matches EventModel::Feed(UnitModel::DataPacket { stream_index, clock_rate, .. }) ==> {
        &&& 0 <= stream_index < streams.len()
        &&& clock_rate > 0
    }
}

/// The loop's initial state: running, nothing configured yet.
pub open spec fn init_state() -> StateModel {
    StateModel::Running(None)
}

/// One iteration of the Event Merge Loop, as a mathematical function: the
/// next state and the sink calls the iteration makes. A stopped loop ignores
/// every further event and calls nothing.
pub open spec fn spec_step(s: StateModel, streams: Seq<SubStreamModel>, ev: EventModel) -> (
    StateModel,
    Seq<ActionModel>,
) {
    match s {
        StateModel::Stopped { .. } => (s, seq![]),
        StateModel::Running(last) => match ev {
            EventModel::Feed(UnitModel::DataPacket { stream_index, payload, pts, clock_rate }) => {
                let fwd = spec_forward(last, caps_of(streams[stream_index], clock_rate), payload);
                (StateModel::Running(fwd.0), fwd.1)
            },
            EventModel::Feed(UnitModel::ControlReport) => (s, seq![]),
            EventModel::Feed(UnitModel::End) => (
                StateModel::Stopped { reason: StopKind::NormalEndOfStream, cause: None },
                seq![ActionModel::Finish],
            ),
            EventModel::FeedFailed(cause) => (
                StateModel::Stopped { reason: StopKind::FeedError, cause: Some(cause) },
                seq![],
            ),
            EventModel::Status(StatusModel::EndOfStream) => (
                StateModel::Stopped { reason: StopKind::NormalEndOfStream, cause: None },
                seq![],
            ),
            EventModel::Status(StatusModel::Error(cause)) => (
                StateModel::Stopped { reason: StopKind::GraphError, cause: Some(cause) },
                seq![],
            ),
            EventModel::Status(StatusModel::Other) => (s, seq![]),
            EventModel::StatusClosed => (
                StateModel::Stopped { reason: StopKind::NormalEndOfStream, cause: None },
                seq![],
            ),
            EventModel::SinkFailed(cause) => (
                StateModel::Stopped { reason: StopKind::GraphError, cause: Some(cause) },
                seq![],
            ),
        },
    }
}

/// One iteration of the Event Merge Loop. Decides everything; performs
/// nothing itself. The caller performs the returned sink calls in order and
/// reports a failure among them as the next `SinkFailed` event.
pub fn step(state: LoopState, streams: &Vec<SubStreamDescriptor>, event: Event) -> (r: (
    LoopState,
    Vec<SinkAction>,
))
    requires
        event_ok(event@, streams_model(*streams)),
        streams_ok(streams_model(*streams)),
    ensures
        r.0@ == spec_step(state@, streams_model(*streams), event@).0,
        acts_model(r.1@) == spec_step(state@, streams_model(*streams), event@).1,
{
    let ghost model = spec_step(state@, streams_model(*streams), event@);
    match state {
        LoopState::Stopped { reason, cause } => {
            let r = (LoopState::Stopped { reason, cause }, Vec::<SinkAction>::new());
            proof {
                assert(acts_model(r.1@) =~= model.1);
            }
            r
        },
        LoopState::Running { last } => match event {
            Event::Feed(IncomingUnit::DataPacket { stream_index, payload, pts: _, clock_rate }) => {
                let desc = &streams[stream_index];
                proof {
                    assert(desc@ == streams_model(*streams)[stream_index as int]);
                }
                let caps = build_caps(desc, clock_rate);
                let (new_last, acts) = forward_packet(last, caps, payload);
                (LoopState::Running { last: new_last }, acts)
            },
            Event::Feed(IncomingUnit::ControlReport) => {
                let r = (LoopState::Running { last }, Vec::<SinkAction>::new());
                proof {
                    assert(acts_model(r.1@) =~= model.1);
                }
                r
            },
            Event::Feed(IncomingUnit::End) => {
                let mut acts = Vec::<SinkAction>::new();
                acts.push(SinkAction::Finish);
                proof {
                    assert(acts_model(acts@) =~= model.1);
                }
                (
                    LoopState::Stopped { reason: StopKind::NormalEndOfStream, cause: None },
                    acts,
                )
            },
            Event::FeedFailed { cause } => {
                let r = (
                    LoopState::Stopped { reason: StopKind::FeedError, cause: Some(cause) },
                    Vec::<SinkAction>::new(),
                );
                proof {
                    assert(acts_model(r.1@) =~= model.1);
                }
                r
            },
            Event::Status(GraphStatus::EndOfStream) => {
                let r = (
                    LoopState::Stopped { reason: StopKind::NormalEndOfStream, cause: None },
                    Vec::<SinkAction>::new(),
                );
                proof {
                    assert(acts_model(r.1@) =~= model.1);
                }
                r
            },
            Event::Status(GraphStatus::Error { cause }) => {
                let r = (
                    LoopState::Stopped { reason: StopKind::GraphError, cause: Some(cause) },
                    Vec::<SinkAction>::new(),
                );
                proof {
                    assert(acts_model(r.1@) =~= model.1);
                }
                r
            },
            Event::Status(GraphStatus::Other) => {
                let r = (LoopState::Running { last }, Vec::<SinkAction>::new());
                proof {
                    assert(acts_model(r.1@) =~= model.1);
                }
                r
            },
            Event::StatusClosed => {
                let r = (
                    LoopState::Stopped { reason: StopKind::NormalEndOfStream, cause: None },
                    Vec::<SinkAction>::new(),
                );
                proof {
                    assert(acts_model(r.1@) =~= model.1);
                }
                r
            },
            Event::SinkFailed { cause } => {
                let r = (
                    LoopState::Stopped { reason: StopKind::GraphError, cause: Some(cause) },
                    Vec::<SinkAction>::new(),
                );
                proof {
                    assert(acts_model(r.1@) =~= model.1);
                }
                r
            },
        },
    }
}

/// A whole run of the loop over a sequence of events: final state plus the
/// concatenated sink-call trace.
pub open spec fn spec_run(s: StateModel, streams: Seq<SubStreamModel>, evs: Seq<EventModel>) -> (
    StateModel,
    Seq<ActionModel>,
)
    decreases evs.len(),
{
    if evs.len() == 0 {
        (s, seq![])
    } else {
        let first = spec_step(s, streams, evs[0]);
        let rest = spec_run(first.0, streams, evs.drop_first());
        (rest.0, first.1 + rest.1)
    }
}

/// The loop's invariant tying its state to the trace produced so far: every
/// push so far was correctly configured, finish happened at most once, and
/// while the loop runs, nothing is finished and the state records exactly the
/// trace's latest configure.
pub open spec fn loop_inv(s: StateModel, t: Seq<ActionModel>) -> bool {
    &&& pushes_configured(t)
    &&& finish_count(t) <= 1
    &&& (s matches StateModel::Running(last) ==> finish_count(t) == 0 && last_configured(t)
        == last)
}

proof fn lemma_pushes_configured_snoc(t: Seq<ActionModel>, a: ActionModel)
    requires
        pushes_configured(t),
        is_push(a) ==> last_configured(t) == Some(push_caps(a)),
    ensures
        pushes_configured(t.push(a)),
{
    let t2 = t.push(a);
    assert forall|i: int| 0 <= i < t2.len() && is_push(#[trigger] t2[i]) implies last_configured(
        t2.take(i),
    ) == Some(push_caps(t2[i])) by {
        if i < t.len() {
            assert(t2[i] == t[i]);
            assert(t2.take(i) =~= t.take(i));
        } else {
            assert(t2[i] == a);
            assert(t2.take(i) =~= t);
        }
    }
}

/// One step keeps the loop invariant: whatever event arrives, the calls the
/// step makes extend the trace without breaking the ordering or finish rules.
pub proof fn lemma_step_preserves_inv(
    s: StateModel,
    t: Seq<ActionModel>,
    streams: Seq<SubStreamModel>,
    ev: EventModel,
)
    requires
        loop_inv(s, t),
    ensures
        loop_inv(spec_step(s, streams, ev).0, t + spec_step(s, streams, ev).1),
{
    let acts = spec_step(s, streams, ev).1;
    let t2 = t + acts;
    match s {
        StateModel::Stopped { .. } => {
            assert(t2 =~= t);
        },
        StateModel::Running(last) => {
            match ev {
                EventModel::Feed(
                    UnitModel::DataPacket { stream_index, payload, pts, clock_rate },
                ) => {
                    let c = caps_of(streams[stream_index], clock_rate);
                    if last == Some(c) {
                        let p = ActionModel::Push { caps: c, payload };
                        assert(t2 =~= t.push(p));
                        lemma_pushes_configured_snoc(t, p);
                        lemma_last_configured_push(t, p);
                        lemma_finish_count_push(t, p);
                    } else {
                        let cfg = ActionModel::Configure(c);
                        let p = ActionModel::Push { caps: c, payload };
                        let t1 = t.push(cfg);
                        assert(t2 =~= t1.push(p));
                        lemma_pushes_configured_snoc(t, cfg);
                        lemma_last_configured_push(t, cfg);
                        lemma_finish_count_push(t, cfg);
                        lemma_pushes_configured_snoc(t1, p);
                        lemma_last_configured_push(t1, p);
                        lemma_finish_count_push(t1, p);
                    }
                },
                EventModel::Feed(UnitModel::End) => {
                    assert(t2 =~= t.push(ActionModel::Finish));
                    lemma_pushes_configured_snoc(t, ActionModel::Finish);
                    lemma_finish_count_push(t, ActionModel::Finish);
                },
                _ => {
                    assert(t2 =~= t);
                },
            }
        },
    }
}

/// A run that keeps the invariant at its start keeps it at its end.
pub proof fn lemma_run_preserves_inv(
    s: StateModel,
    t: Seq<ActionModel>,
    streams: Seq<SubStreamModel>,
    evs: Seq<EventModel>,
)
    requires
        loop_inv(s, t),
    ensures
        loop_inv(spec_run(s, streams, evs).0, t + spec_run(s, streams, evs).1),
    decreases evs.len(),
{
    if evs.len() == 0 {
        assert(t + spec_run(s, streams, evs).1 =~= t);
    } else {
        let st = spec_step(s, streams, evs[0]);
        let rest = spec_run(st.0, streams, evs.drop_first());
        lemma_step_preserves_inv(s, t, streams, evs[0]);
        lemma_run_preserves_inv(st.0, t + st.1, streams, evs.drop_first());
        assert((t + st.1) + rest.1 =~= t + (st.1 + rest.1));
    }
}

/// The loop never acts again once stopped: further events change nothing and
/// call nothing.
pub proof fn lemma_run_stopped(s: StateModel, streams: Seq<SubStreamModel>, evs: Seq<EventModel>)
    requires
        s is Stopped,
    ensures
        spec_run(s, streams, evs).0 == s,
        spec_run(s, streams, evs).1 == Seq::<ActionModel>::empty(),
    decreases evs.len(),
{
    if evs.len() == 0 {
        assert(spec_run(s, streams, evs).1 =~= Seq::<ActionModel>::empty());
    } else {
        lemma_run_stopped(s, streams, evs.drop_first());
        assert(spec_run(s, streams, evs).1 =~= Seq::<ActionModel>::empty());
    }
}

/// Which stop reason an event forces on a running loop, if any.
pub open spec fn terminal_reason(ev: EventModel) -> Option<StopKind> {
    match ev {
        EventModel::Feed(UnitModel::End) => Some(StopKind::NormalEndOfStream),
        EventModel::FeedFailed(_) => Some(StopKind::FeedError),
        EventModel::Status(StatusModel::EndOfStream) => Some(StopKind::NormalEndOfStream),
        EventModel::Status(StatusModel::Error(_)) => Some(StopKind::GraphError),
        EventModel::StatusClosed => Some(StopKind::NormalEndOfStream),
        EventModel::SinkFailed(_) => Some(StopKind::GraphError),
        _ => None,
    }
}

/// The reason of the first terminating event of a sequence, if one occurs.
pub open spec fn first_terminal(evs: Seq<EventModel>) -> Option<StopKind>
    decreases evs.len(),
{
    if evs.len() == 0 {
        None
    } else if terminal_reason(evs[0]) is Some {
        terminal_reason(evs[0])
    } else {
        first_terminal(evs.drop_first())
    }
}

/// Whether the first terminating event of the sequence is the feed's End.
pub open spec fn ends_by_feed_end(evs: Seq<EventModel>) -> bool
    decreases evs.len(),
{
    if evs.len() == 0 {
        false
    } else if evs[0] == EventModel::Feed(UnitModel::End) {
        true
    } else if terminal_reason(evs[0]) is Some {
        false
    } else {
        ends_by_feed_end(evs.drop_first())
    }
}

/// Termination law: the loop stops for the reason of the first terminating
/// event, and only then; with no terminating event it is still running.
pub proof fn lemma_run_stop_reason(
    last: Option<CapsModel>,
    streams: Seq<SubStreamModel>,
    evs: Seq<EventModel>,
)
    ensures
        (match first_terminal(evs) {
            Some(k) => spec_run(StateModel::Running(last), streams, evs).0 matches
                StateModel::Stopped { reason, .. } && reason == k,
            None => spec_run(StateModel::Running(last), streams, evs).0 is Running,
        }),
    decreases evs.len(),
{
    if evs.len() > 0 {
        let s1 = spec_step(StateModel::Running(last), streams, evs[0]).0;
        if terminal_reason(evs[0]) is Some {
            lemma_run_stopped(s1, streams, evs.drop_first());
        } else {
            match s1 {
                StateModel::Running(l1) => {
                    lemma_run_stop_reason(l1, streams, evs.drop_first());
                },
                StateModel::Stopped { .. } => {
                    assert(false);
                },
            }
        }
    }
}

/// Shutdown law: the sink is finished exactly once when the feed itself ends,
/// and never otherwise — in particular, never after a feed error, never after
/// a graph error, and never twice.
pub proof fn lemma_finish_exactly_on_feed_end(
    last: Option<CapsModel>,
    streams: Seq<SubStreamModel>,
    evs: Seq<EventModel>,
)
    ensures
        finish_count(spec_run(StateModel::Running(last), streams, evs).1) == (if ends_by_feed_end(
            evs,
        ) {
            1nat
        } else {
            0nat
        }),
    decreases evs.len(),
{
    let run = spec_run(StateModel::Running(last), streams, evs);
    if evs.len() == 0 {
        assert(finish_count(run.1) == 0);
    } else {
        let st = spec_step(StateModel::Running(last), streams, evs[0]);
        let rest = spec_run(st.0, streams, evs.drop_first());
        lemma_finish_count_append(st.1, rest.1);
        if evs[0] == EventModel::Feed(UnitModel::End) {
            lemma_run_stopped(st.0, streams, evs.drop_first());
            assert(st.1 =~= Seq::<ActionModel>::empty().push(ActionModel::Finish));
            lemma_finish_count_push(Seq::<ActionModel>::empty(), ActionModel::Finish);
        } else if terminal_reason(evs[0]) is Some {
            lemma_run_stopped(st.0, streams, evs.drop_first());
            assert(finish_count(st.1) == 0);
        } else {
            match st.0 {
                StateModel::Running(l1) => {
                    lemma_finish_exactly_on_feed_end(l1, streams, evs.drop_first());
                },
                StateModel::Stopped { .. } => {
                    assert(false);
                },
            }
            match evs[0] {
                EventModel::Feed(
                    UnitModel::DataPacket { stream_index, payload, pts, clock_rate },
                ) => {
                    let c = caps_of(streams[stream_index], clock_rate);
                    let p = ActionModel::Push { caps: c, payload };
                    if last == Some(c) {
                        assert(st.1 =~= Seq::<ActionModel>::empty().push(p));
                        lemma_finish_count_push(Seq::<ActionModel>::empty(), p);
                    } else {
                        let cfg = ActionModel::Configure(c);
                        assert(st.1 =~= Seq::<ActionModel>::empty().push(cfg).push(p));
                        lemma_finish_count_push(Seq::<ActionModel>::empty(), cfg);
                        lemma_finish_count_push(Seq::<ActionModel>::empty().push(cfg), p);
                    }
                },
                _ => {
                    assert(finish_count(st.1) == 0);
                },
            }
        }
    }
}

/// Ordering law for whole runs: starting from the initial state, every push
/// the loop ever makes happens under a configure of exactly the descriptor
/// derived for its packet, and the sink is finished at most once.
pub proof fn lemma_run_pushes_configured(streams: Seq<SubStreamModel>, evs: Seq<EventModel>)
    ensures
        pushes_configured(spec_run(init_state(), streams, evs).1),
        finish_count(spec_run(init_state(), streams, evs).1) <= 1,
{
    let empty = Seq::<ActionModel>::empty();
    assert(loop_inv(init_state(), empty));
    lemma_run_preserves_inv(init_state(), empty, streams, evs);
    assert(empty + spec_run(init_state(), streams, evs).1 =~= spec_run(
        init_state(),
        streams,
        evs,
    ).1);
}

/// Normal-termination law: a run from the initial state reaches
/// `Stopped { NormalEndOfStream }` exactly when its first terminating event
/// is the feed's End, the status bus's EndOfStream, or the status bus
/// closing; and no run finishes the sink twice.
pub proof fn lemma_normal_stop_iff(streams: Seq<SubStreamModel>, evs: Seq<EventModel>)
    ensures
        (spec_run(init_state(), streams, evs).0 matches StateModel::Stopped {
            reason: StopKind::NormalEndOfStream,
            ..
        }) <==> first_terminal(evs) == Some(StopKind::NormalEndOfStream),
        finish_count(spec_run(init_state(), streams, evs).1) <= 1,
{
    lemma_run_stop_reason(None, streams, evs);
    lemma_run_pushes_configured(streams, evs);
}

} // verus!
