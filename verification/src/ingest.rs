//! The Ingest Adapter: the single entry point that accepts one packet's raw
//! bytes plus its capability descriptor and forwards them to the graph
//! engine's sink, declaring the capability ahead of the bytes whenever it
//! differs from the last one declared (including before the very first
//! packet). The adapter emits sink actions; the unverified shell performs
//! them against the real sink in the exact order emitted.

use vstd::prelude::*;

use crate::caps::CapabilityDescriptor;
use crate::caps::CapsModel;

verus! {

/// One call against the graph engine's ingest sink.
pub enum SinkAction {
    /// Declares the capability in effect for all bytes pushed after it.
    Configure(CapabilityDescriptor),
    /// Delivers one packet's raw bytes as a single buffer. `caps` records the
    /// descriptor in effect for this buffer, for the sink to validate.
    Push { caps: CapabilityDescriptor, payload: Vec<u8> },
    /// Signals that no further data follows; must come last and only once.
    Finish,
}

/// Mathematical model of a sink call.
pub enum ActionModel {
    Configure(CapsModel),
    Push { caps: CapsModel, payload: Seq<u8> },
    Finish,
}

impl View for SinkAction {
    type V = ActionModel;

    open spec fn view(&self) -> ActionModel {
        match self {
            SinkAction::Configure(c) => ActionModel::Configure(c@),
            SinkAction::Push { caps, payload } => ActionModel::Push {
                caps: caps@,
                payload: payload@,
            },
            SinkAction::Finish => ActionModel::Finish,
        }
    }
}

/// The model of a sequence of sink actions: the call trace they perform.
pub open spec fn acts_model(v: Seq<SinkAction>) -> Seq<ActionModel> {
    v.map_values(|a: SinkAction| a@)
}

/// The model of an optional capability descriptor.
pub open spec fn opt_caps_model(o: Option<CapabilityDescriptor>) -> Option<CapsModel> {
    match o {
        Some(c) => Some(c@),
        None => None,
    }
}

pub open spec fn is_push(a: ActionModel) -> bool {
    a matches ActionModel::Push { .. }
}

pub open spec fn push_caps(a: ActionModel) -> CapsModel {
    match a {
        ActionModel::Push { caps, .. } => caps,
        _ => arbitrary(),
    }
}

/// The capability declared by the latest configure call of a trace, if any.
pub open spec fn last_configured(t: Seq<ActionModel>) -> Option<CapsModel>
    decreases t.len(),
{
    if t.len() == 0 {
        None
    } else {
        match t.last() {
            ActionModel::Configure(c) => Some(c),
            _ => last_configured(t.drop_last()),
        }
    }
}

/// How many finish calls a trace holds.
pub open spec fn finish_count(t: Seq<ActionModel>) -> nat
    decreases t.len(),
{
    if t.len() == 0 {
        0
    } else {
        (if t.last() is Finish {
            1nat
        } else {
            0nat
        }) + finish_count(t.drop_last())
    }
}

/// The Ingest Adapter's ordering guarantee, over a whole trace: every push
/// happens under a configure of exactly the descriptor the pushed packet
/// carries, already in effect when the push is made.
pub open spec fn pushes_configured(t: Seq<ActionModel>) -> bool {
    forall|i: int|
        0 <= i < t.len() && is_push(#[trigger] t[i]) ==> last_configured(t.take(i)) == Some(
            push_caps(t[i]),
        )
}

pub proof fn lemma_last_configured_push(t: Seq<ActionModel>, a: ActionModel)
    ensures
        last_configured(t.push(a)) == (match a {
            ActionModel::Configure(c) => Some(c),
            _ => last_configured(t),
        }),
{
    assert(t.push(a).drop_last() =~= t);
    assert(t.push(a).last() == a);
}

pub proof fn lemma_finish_count_push(t: Seq<ActionModel>, a: ActionModel)
    ensures
        finish_count(t.push(a)) == finish_count(t) + (if a is Finish {
            1nat
        } else {
            0nat
        }),
{
    assert(t.push(a).drop_last() =~= t);
    assert(t.push(a).last() == a);
}

pub proof fn lemma_finish_count_append(t: Seq<ActionModel>, u: Seq<ActionModel>)
    ensures
        finish_count(t + u) == finish_count(t) + finish_count(u),
    decreases u.len(),
{
    if u.len() == 0 {
        assert(t + u =~= t);
    } else {
        lemma_finish_count_append(t, u.drop_last());
        assert((t + u).drop_last() =~= t + u.drop_last());
        assert((t + u).last() == u.last());
    }
}

/// What the adapter does with one packet, as a mathematical function: the
/// capability in effect afterwards, and the sink calls made, a configure
/// ahead of the push exactly when the descriptor differs from the last one.
pub open spec fn spec_forward(last: Option<CapsModel>, caps: CapsModel, payload: Seq<u8>) -> (
    Option<CapsModel>,
    Seq<ActionModel>,
) {
    if last == Some(caps) {
        (Some(caps), seq![ActionModel::Push { caps, payload }])
    } else {
        (
            Some(caps),
            seq![ActionModel::Configure(caps), ActionModel::Push { caps, payload }],
        )
    }
}

/// Forwards one packet: retags the declared capability whenever it changed,
/// then delivers the bytes. Returns the capability now in effect and the sink
/// calls to perform, in order.
pub fn forward_packet(
    last: Option<CapabilityDescriptor>,
    caps: CapabilityDescriptor,
    payload: Vec<u8>,
) -> (r: (Option<CapabilityDescriptor>, Vec<SinkAction>))
    ensures
        opt_caps_model(r.0) == spec_forward(opt_caps_model(last), caps@, payload@).0,
        acts_model(r.1@) == spec_forward(opt_caps_model(last), caps@, payload@).1,
{
    let ghost model = spec_forward(opt_caps_model(last), caps@, payload@);
    let same = match &last {
        Some(prev) => prev.same_as(&caps),
        None => false,
    };
    let mut acts: Vec<SinkAction> = Vec::new();
    if !same {
        acts.push(SinkAction::Configure(caps.duplicate()));
    }
    let new_last = Some(caps.duplicate());
    acts.push(SinkAction::Push { caps, payload });
    proof {
        assert(acts_model(acts@) =~= model.1);
    }
    (new_last, acts)
}

} // verus!
