//! Capability descriptors: the metadata describing how to interpret one
//! packet's bytes, derived fresh per packet from the negotiated sub-stream
//! metadata. Codec names are ASCII byte strings and are canonicalized to
//! uppercase for downstream matching.

use vstd::prelude::*;

verus! {

/// Media kind of a negotiated sub-stream.
#[derive(Clone, Copy, PartialEq, Eq, Structural, Debug)]
pub enum MediaKind {
    Video,
    Audio,
    Other,
}

/// Metadata of one negotiated sub-stream, immutable once negotiation
/// completes and read-only to this crate.
pub struct SubStreamDescriptor {
    pub media: MediaKind,
    /// Codec name as negotiated, an ASCII byte string in arbitrary case.
    pub codec: Vec<u8>,
    /// Nominal clock rate of the sub-stream, in Hz.
    pub clock_rate: u32,
    /// Payload-type id carried by every packet of this sub-stream.
    pub payload_type: u8,
    /// Channel count, present only for media that have one.
    pub channels: Option<u16>,
}

/// Mathematical model of a `SubStreamDescriptor`.
pub struct SubStreamModel {
    pub media: MediaKind,
    pub codec: Seq<u8>,
    pub clock_rate: u32,
    pub payload_type: u8,
    pub channels: Option<u16>,
}

impl View for SubStreamDescriptor {
    type V = SubStreamModel;

    open spec fn view(&self) -> SubStreamModel {
        SubStreamModel {
            media: self.media,
            codec: self.codec@,
            clock_rate: self.clock_rate,
            payload_type: self.payload_type,
            channels: self.channels,
        }
    }
}

impl SubStreamModel {
    /// A negotiated descriptor carries a positive clock rate and, when a
    /// channel count is present, a positive one.
    pub open spec fn wf(self) -> bool {
        &&& self.clock_rate > 0
        &&& (self.channels matches Some(c) ==> c > 0)
    }
}

/// The capability metadata attached to every packet handed to the graph
/// engine. Derived, ephemeral, equality-comparable; downstream branches key
/// their existence on it.
pub struct CapabilityDescriptor {
    pub media: MediaKind,
    /// Codec name canonicalized to uppercase.
    pub codec: Vec<u8>,
    /// Clock rate taken from the packet's timing context, in Hz.
    pub clock_rate: u32,
    pub payload_type: u8,
    pub channels: Option<u16>,
}

/// Mathematical model of a `CapabilityDescriptor`.
pub struct CapsModel {
    pub media: MediaKind,
    pub codec: Seq<u8>,
    pub clock_rate: u32,
    pub payload_type: u8,
    pub channels: Option<u16>,
}

impl View for CapabilityDescriptor {
    type V = CapsModel;

    open spec fn view(&self) -> CapsModel {
        CapsModel {
            media: self.media,
            codec: self.codec@,
            clock_rate: self.clock_rate,
            payload_type: self.payload_type,
            channels: self.channels,
        }
    }
}

impl CapsModel {
    pub open spec fn wf(self) -> bool {
        &&& self.clock_rate > 0
        &&& (self.channels matches Some(c) ==> c > 0)
    }
}

/// Uppercases one ASCII byte; bytes outside `a..=z` are unchanged.
pub open spec fn upper_byte(b: u8) -> u8 {
    if 97 <= b && b <= 122 {
        (b - 32) as u8
    } else {
        b
    }
}

/// Uppercases an ASCII byte string.
pub open spec fn upper_bytes(s: Seq<u8>) -> Seq<u8> {
    s.map_values(|b: u8| upper_byte(b))
}

/// Canonicalizes an ASCII codec name to uppercase.
pub fn ascii_upper(s: &Vec<u8>) -> (r: Vec<u8>)
    ensures
        r@ == upper_bytes(s@),
{
    let mut r: Vec<u8> = Vec::new();
    let mut i: usize = 0;
    while i < s.len()
        invariant
            i <= s.len(),
            r@ == upper_bytes(s@.take(i as int)),
        decreases s.len() - i,
    {
        let b = s[i];
        if 97 <= b && b <= 122 {
            r.push(b - 32);
        } else {
            r.push(b);
        }
        proof {
            assert(upper_bytes(s@.take(i + 1 as int)) =~= upper_bytes(s@.take(i as int)).push(
                upper_byte(s@[i as int]),
            ));
        }
        i += 1;
    }
    proof {
        assert(s@.take(s@.len() as int) =~= s@);
    }
    r
}

/// Byte-string equality.
fn bytes_eq(a: &Vec<u8>, b: &Vec<u8>) -> (r: bool)
    ensures
        r == (a@ == b@),
{
    if a.len() != b.len() {
        return false;
    }
    let mut i: usize = 0;
    while i < a.len()
        invariant
            i <= a.len(),
            a@.len() == b@.len(),
            forall|j: int| 0 <= j < i ==> a@[j] == b@[j],
        decreases a.len() - i,
    {
        if a[i] != b[i] {
            return false;
        }
        i += 1;
    }
    proof {
        assert(a@ =~= b@);
    }
    true
}

/// Byte-for-byte copy of a byte string.
fn copy_bytes(s: &Vec<u8>) -> (r: Vec<u8>)
    ensures
        r@ == s@,
{
    let mut r: Vec<u8> = Vec::new();
    let mut i: usize = 0;
    while i < s.len()
        invariant
            i <= s.len(),
            r@ == s@.take(i as int),
        decreases s.len() - i,
    {
        r.push(s[i]);
        proof {
            assert(s@.take(i + 1 as int) =~= s@.take(i as int).push(s@[i as int]));
        }
        i += 1;
    }
    proof {
        assert(s@.take(s@.len() as int) =~= s@);
    }
    r
}

/// The descriptor the Capability Descriptor Builder derives from a sub-stream
/// descriptor and the clock rate of the current packet's timing context.
pub open spec fn caps_of(s: SubStreamModel, clock_rate: u32) -> CapsModel {
    CapsModel {
        media: s.media,
        codec: upper_bytes(s.codec),
        clock_rate: clock_rate,
        payload_type: s.payload_type,
        channels: s.channels,
    }
}

impl CapabilityDescriptor {
    /// Structural copy; capability descriptors are ephemeral and re-derived
    /// or copied freely.
    pub fn duplicate(&self) -> (r: CapabilityDescriptor)
        ensures
            r@ == self@,
    {
        CapabilityDescriptor {
            media: self.media,
            codec: copy_bytes(&self.codec),
            clock_rate: self.clock_rate,
            payload_type: self.payload_type,
            channels: self.channels,
        }
    }

    /// Equality of the full capability metadata; a change in any field makes
    /// the descriptors differ and must be propagated downstream.
    pub fn same_as(&self, other: &CapabilityDescriptor) -> (r: bool)
        ensures
            r == (self@ == other@),
    {
        let media_eq = self.media == other.media;
        let channels_eq = match (self.channels, other.channels) {
            (Some(a), Some(b)) => a == b,
            (None, None) => true,
            _ => false,
        };
        let r = media_eq && channels_eq && self.clock_rate == other.clock_rate
            && self.payload_type == other.payload_type && bytes_eq(&self.codec, &other.codec);
        proof {
            if r {
                assert(self@ =~= other@);
            }
        }
        r
    }
}

/// Capability Descriptor Builder: derives the capability descriptor for one
/// packet from its sub-stream's metadata and the packet's timing context.
/// Pure and total: it never fails.
pub fn build_caps(s: &SubStreamDescriptor, clock_rate: u32) -> (r: CapabilityDescriptor)
    requires
        s@.wf(),
        clock_rate > 0,
    ensures
        r@ == caps_of(s@, clock_rate),
        r@.wf(),
{
    CapabilityDescriptor {
        media: s.media,
        codec: ascii_upper(&s.codec),
        clock_rate: clock_rate,
        payload_type: s.payload_type,
        channels: s.channels,
    }
}

/// The codec name, lower case as negotiated, of the video streams worth
/// setting up.
pub open spec fn h264_lower_name() -> Seq<u8> {
    seq![104u8, 50u8, 54u8, 52u8]
}

/// Whether a sub-stream is an H.264 video stream.
pub open spec fn is_h264_video(s: SubStreamModel) -> bool {
    s.media == MediaKind::Video && s.codec == h264_lower_name()
}

fn stream_is_h264_video(s: &SubStreamDescriptor) -> (r: bool)
    ensures
        r == is_h264_video(s@),
{
    let c = &s.codec;
    let codec_match = c.len() == 4 && c[0] == 104 && c[1] == 50 && c[2] == 54 && c[3] == 52;
    proof {
        if codec_match {
            assert(c@ =~= h264_lower_name());
        } else {
            if c@ == h264_lower_name() {
                assert(c@.len() == 4);
                assert(c@[0] == 104 && c@[1] == 50 && c@[2] == 54 && c@[3] == 52);
            }
        }
    }
    let media_match = s.media == MediaKind::Video;
    media_match && codec_match
}

/// Picks the sub-stream to set up for playing: the first video stream whose
/// negotiated codec name is exactly "h264", if any.
pub fn select_video_stream(streams: &Vec<SubStreamDescriptor>) -> (r: Option<usize>)
    ensures
        (r matches Some(i) ==> i < streams@.len() && is_h264_video(streams@[i as int]@) && (forall|
            j: int,
        |
            0 <= j < i ==> !is_h264_video(streams@[j]@))),
        r is None ==> (forall|j: int| 0 <= j < streams@.len() ==> !is_h264_video(streams@[j]@)),
{
    let mut i: usize = 0;
    while i < streams.len()
        invariant
            i <= streams@.len(),
            forall|j: int| 0 <= j < i ==> !is_h264_video(streams@[j]@),
        decreases streams@.len() - i,
    {
        if stream_is_h264_video(&streams[i]) {
            return Some(i);
        }
        i += 1;
    }
    None
}

} // verus!
