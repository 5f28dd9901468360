//! The Recipe Table: a static, read-only mapping from uppercase codec name to
//! branch construction instructions. A recipe is a fixed linear chain of
//! processing stages plus the index of the stage that exposes the branch's
//! sink port. Unknown codec names resolve to the discard recipe, never to a
//! routing failure.

use vstd::prelude::*;

use crate::caps::ascii_upper;
use crate::caps::upper_bytes;

verus! {

/// One processing stage of a branch: a graph-engine element kind. The names
/// map one-for-one onto the engine's element descriptions.
#[derive(Clone, Copy, PartialEq, Eq, Structural, Debug)]
pub enum Stage {
    /// Depacketizes H.264 network payloads into an elementary stream.
    RtpH264Depay,
    /// Parses the H.264 stream, updating timecodes.
    H264ParseUpdateTimecode,
    /// Hardware-accelerated H.264 decoding.
    VaapiDecode,
    /// Converts decoded frames to a displayable format.
    VideoConvert,
    /// Presents frames on an automatically chosen video sink.
    AutoVideoSink,
    /// Consumes and drops all data.
    Discard,
}

/// Branch construction instructions: a fixed linear chain of stages, and
/// which stage exposes the branch's sink port.
pub struct Recipe {
    pub stages: Vec<Stage>,
    pub sink_stage: usize,
}

impl Recipe {
    pub open spec fn wf(self) -> bool {
        &&& self.stages@.len() > 0
        &&& self.sink_stage < self.stages@.len()
    }

    /// A discard recipe consumes and drops everything.
    pub open spec fn is_discard(self) -> bool {
        self.stages@ == discard_stages()
    }
}

/// The codec name, uppercase, that selects the H.264 presentation chain.
pub open spec fn h264_name() -> Seq<u8> {
    seq![72u8, 50u8, 54u8, 52u8]
}

/// The H.264 presentation chain: depacketize, parse, decode, convert,
/// present. The sink port is exposed by the first stage.
pub open spec fn h264_stages() -> Seq<Stage> {
    seq![
        Stage::RtpH264Depay,
        Stage::H264ParseUpdateTimecode,
        Stage::VaapiDecode,
        Stage::VideoConvert,
        Stage::AutoVideoSink,
    ]
}

/// The default recipe: a single discard stage.
pub open spec fn discard_stages() -> Seq<Stage> {
    seq![Stage::Discard]
}

/// The Recipe Table rule: which stage chain an uppercase codec name selects.
pub open spec fn recipe_stages_for(codec_upper: Seq<u8>) -> Seq<Stage> {
    if codec_upper == h264_name() {
        h264_stages()
    } else {
        discard_stages()
    }
}

/// Unknown codec names degrade gracefully: every codec name absent from the
/// Recipe Table resolves to the discard chain, and lookup has no failure
/// outcome at all.
pub proof fn lemma_unknown_codec_discards(codec: Seq<u8>)
    requires
        upper_bytes(codec) != h264_name(),
    ensures
        recipe_stages_for(upper_bytes(codec)) == discard_stages(),
{
}

/// Looks up the construction recipe for a codec name: case-insensitive exact
/// match against the table, falling back to the discard recipe. Total; a
/// lookup never fails and never needs synchronization.
pub fn lookup_recipe(codec: &Vec<u8>) -> (r: Recipe)
    ensures
        r.stages@ == recipe_stages_for(upper_bytes(codec@)),
        r.sink_stage == 0,
        r.wf(),
{
    let up = ascii_upper(codec);
    let is_h264 = up.len() == 4 && up[0] == 72 && up[1] == 50 && up[2] == 54 && up[3] == 52;
    proof {
        if is_h264 {
            assert(up@ =~= h264_name());
        } else {
            if up@ == h264_name() {
                assert(up@.len() == 4);
                assert(up@[0] == 72 && up@[1] == 50 && up@[2] == 54 && up@[3] == 52);
            }
        }
    }
    if is_h264 {
        let stages = vec![
            Stage::RtpH264Depay,
            Stage::H264ParseUpdateTimecode,
            Stage::VaapiDecode,
            Stage::VideoConvert,
            Stage::AutoVideoSink,
        ];
        proof {
            assert(stages@ =~= h264_stages());
        }
        Recipe { stages, sink_stage: 0 }
    } else {
        let stages = vec![Stage::Discard];
        proof {
            assert(stages@ =~= discard_stages());
        }
        Recipe { stages, sink_stage: 0 }
    }
}

} // verus!
