//! Encoded H.264 RTP packets and their grouping into access units: the
//! encoder's packets are sent in batches that each end with the packet that
//! carries the RTP marker bit, i.e. one batch per encoded frame.
use vstd::prelude::*;
use bytes::Bytes;
use crate::byte_buffer::{bytes_as_slice, bytes_contents, bytes_len};

verus! {

/// Length of the fixed RTP header.
pub const RTP_FIXED_HEADER_LEN: usize = 12;
/// The RTP version this stream uses.
pub const RTP_VERSION: u8 = 2;

/// Why bytes are not an RTP packet of this stream.
#[derive(Debug, Clone, Copy, PartialEq, Eq)]
pub enum RtpPacketError {
    ShorterThanHeader { len: usize },
    UnsupportedVersion { version: u8 },
}

/// Whether an RTP packet with these bytes ends a frame (its marker bit), or
/// why the bytes are not a packet of this stream.
pub open spec fn spec_rtp_marker(payload: Seq<u8>) -> Result<bool, RtpPacketError> {
    if payload.len() < RTP_FIXED_HEADER_LEN {
        Err(RtpPacketError::ShorterThanHeader { len: payload.len() as usize })
    } else if payload[0] / 64 != RTP_VERSION {
        Err(RtpPacketError::UnsupportedVersion { version: (payload[0] / 64) as u8 })
    } else {
        Ok(payload[1] >= 128)
    }
}

/// Checks the fixed header of an RTP packet and reads its marker bit.
pub fn rtp_marker(payload: &[u8]) -> (r: Result<bool, RtpPacketError>)
    ensures
        r == spec_rtp_marker(payload@),
{
    if payload.len() < RTP_FIXED_HEADER_LEN {
        return Err(RtpPacketError::ShorterThanHeader { len: payload.len() });
    }
    let first = payload[0];
    let version: u8 = first >> 6;
    assert(first >> 6 == first / 64) by (bit_vector);
    if version != RTP_VERSION {
        return Err(RtpPacketError::UnsupportedVersion { version });
    }
    let second = payload[1];
    let marker = second & 0x80 != 0;
    assert((second & 0x80 != 0) == (second >= 128)) by (bit_vector);
    Ok(marker)
}

/// One encoded RTP packet with the presentation time of its frame.
pub struct GStreamerRtpPacket {
    payload: Bytes,
    marker: bool,
    pts_ns: Option<u64>,
}

impl GStreamerRtpPacket {
    /// The packet's bytes.
    pub closed spec fn spec_payload(self) -> Seq<u8> {
        bytes_contents(self.payload)
    }

    pub closed spec fn spec_marker(self) -> bool {
        self.marker
    }

    pub closed spec fn spec_pts_ns(self) -> Option<u64> {
        self.pts_ns
    }

    /// A packet from encoder output bytes, if they hold an RTP packet of this
    /// stream.
    pub fn from_payload(payload: Bytes, pts_ns: Option<u64>) -> (r: Result<Self, RtpPacketError>)
        ensures
            match r {
                Ok(p) => spec_rtp_marker(bytes_contents(payload)) == Ok::<bool, RtpPacketError>(
                    p.spec_marker(),
                ) && p.spec_payload() == bytes_contents(payload) && p.spec_pts_ns() == pts_ns,
                Err(e) => spec_rtp_marker(bytes_contents(payload)) == Err::<bool, RtpPacketError>(e),
            },
    {
        let marker = match rtp_marker(bytes_as_slice(&payload)) {
            Ok(m) => m,
            Err(e) => return Err(e),
        };
        Ok(GStreamerRtpPacket { payload, marker, pts_ns })
    }

    /// Whether the packet ends its frame.
    pub fn is_frame_end(&self) -> (r: bool)
        ensures
            r == self.spec_marker(),
    {
        self.marker
    }

    /// Presentation time of the packet's frame in nanoseconds, if it has one.
    pub fn pts_ns(&self) -> (r: Option<u64>)
        ensures
            r == self.spec_pts_ns(),
    {
        self.pts_ns
    }

    /// Length of the packet in bytes.
    pub fn payload_len(&self) -> (n: usize)
        ensures
            n == self.spec_payload().len(),
    {
        bytes_len(&self.payload)
    }

    /// The packet's bytes.
    pub fn into_payload(self) -> (b: Bytes)
        ensures
            bytes_contents(b) == self.spec_payload(),
    {
        self.payload
    }
}

/// Packets of the frame being sent, collected until its last packet arrives.
pub struct AccessUnitBatcher<P> {
    pub pending: Vec<P>,
}

/// Pending packets and completed batch after one packet; `frame_end` says
/// whether the packet ends its frame.
pub open spec fn spec_batch_step<P>(pending: Seq<P>, packet: P, frame_end: bool) -> (
    Seq<P>,
    Option<Seq<P>>,
) {
    if frame_end {
        (Seq::empty(), Some(pending.push(packet)))
    } else {
        (pending.push(packet), None)
    }
}

impl<P> AccessUnitBatcher<P> {
    pub fn new() -> (b: Self)
        ensures
            b.pending@.len() == 0,
    {
        AccessUnitBatcher { pending: Vec::new() }
    }

    /// Adds a packet; when it ends its frame, returns the frame's packets.
    pub fn push(&mut self, packet: P, frame_end: bool) -> (batch: Option<Vec<P>>)
        ensures
            ({
                let (pending, done) = spec_batch_step(old(self).pending@, packet, frame_end);
                &&& final(self).pending@ == pending
                &&& match batch {
                    Some(b) => done == Some(b@),
                    None => done is None,
                }
            }),
    {
        self.pending.push(packet);
        if frame_end {
            let mut batch: Vec<P> = Vec::new();
            std::mem::swap(&mut batch, &mut self.pending);
            Some(batch)
        } else {
            None
        }
    }

    /// Number of packets of an unfinished frame that would be dropped if the
    /// stream ended now.
    pub fn incomplete_len(&self) -> (n: usize)
        ensures
            n == self.pending@.len(),
    {
        self.pending.len()
    }
}

/// The batches sent and the packets left pending after feeding `inputs`
/// (each a packet and whether it ends its frame) to an empty batcher.
pub open spec fn spec_batch_run<P>(inputs: Seq<(P, bool)>) -> (Seq<Seq<P>>, Seq<P>)
    decreases inputs.len(),
{
    if inputs.len() == 0 {
        (Seq::empty(), Seq::empty())
    } else {
        let (sent, pending) = spec_batch_run(inputs.drop_last());
        let (next_pending, done) = spec_batch_step(pending, inputs.last().0, inputs.last().1);
        match done {
            Some(b) => (sent.push(b), next_pending),
            None => (sent, next_pending),
        }
    }
}

/// All sent batches, concatenated in order.
pub open spec fn spec_concat<P>(batches: Seq<Seq<P>>) -> Seq<P>
    decreases batches.len(),
{
    if batches.len() == 0 {
        Seq::empty()
    } else {
        spec_concat(batches.drop_last()) + batches.last()
    }
}

/// The packets of `inputs`, without their frame-end flags.
pub open spec fn spec_packets<P>(inputs: Seq<(P, bool)>) -> Seq<P> {
    inputs.map_values(|input: (P, bool)| input.0)
}

/// Batching loses, duplicates and reorders no packet: the sent batches
/// followed by the pending packets are exactly the packets fed in. Every sent
/// batch is non-empty and ends with a frame-end packet, and the pending packets
/// contain none.
pub proof fn batching_preserves_packets<P>(inputs: Seq<(P, bool)>)
    ensures
        spec_concat(spec_batch_run(inputs).0) + spec_batch_run(inputs).1 == spec_packets(inputs),
        forall|i: int|
            0 <= i < spec_batch_run(inputs).0.len() ==> (#[trigger] spec_batch_run(inputs).0[i]).len()
                > 0,
    decreases inputs.len(),
{
    if inputs.len() > 0 {
        let prefix = inputs.drop_last();
        batching_preserves_packets(prefix);
        let (sent, pending) = spec_batch_run(prefix);
        let last = inputs.last();
        assert(spec_packets(inputs) =~= spec_packets(prefix).push(last.0));
        if last.1 {
            assert(spec_concat(sent.push(pending.push(last.0))) =~= spec_concat(sent) + pending.push(
                last.0,
            )) by {
                assert(sent.push(pending.push(last.0)).drop_last() =~= sent);
            }
            assert(spec_concat(sent) + pending.push(last.0) + Seq::<P>::empty() =~= (spec_concat(
                sent,
            ) + pending).push(last.0));
        } else {
            assert(spec_concat(sent) + pending.push(last.0) =~= (spec_concat(sent) + pending).push(
                last.0,
            ));
        }
    }
}

/// Whether a batch is one frame: its last packet, and only that one, ends a
/// frame.
pub open spec fn spec_is_frame_batch<P>(batch: Seq<(P, bool)>) -> bool {
    batch.len() > 0 && batch.last().1 && forall|j: int| 0 <= j < batch.len() - 1 ==> !(
    #[trigger] batch[j]).1
}

/// Like `spec_batch_run`, but keeping each packet's frame-end flag.
pub open spec fn spec_flagged_run<P>(inputs: Seq<(P, bool)>) -> (Seq<Seq<(P, bool)>>, Seq<(P, bool)>)
    decreases inputs.len(),
{
    if inputs.len() == 0 {
        (Seq::empty(), Seq::empty())
    } else {
        let (sent, pending) = spec_flagged_run(inputs.drop_last());
        let (next_pending, done) = spec_batch_step(pending, inputs.last(), inputs.last().1);
        match done {
            Some(b) => (sent.push(b), next_pending),
            None => (sent, next_pending),
        }
    }
}

/// Every sent batch is exactly one frame, and no pending packet ends a frame.
pub proof fn batches_are_whole_frames<P>(inputs: Seq<(P, bool)>)
    ensures
        forall|i: int|
            0 <= i < spec_flagged_run(inputs).0.len() ==> spec_is_frame_batch(
                #[trigger] spec_flagged_run(inputs).0[i],
            ),
        forall|j: int|
            0 <= j < spec_flagged_run(inputs).1.len() ==> !(#[trigger] spec_flagged_run(
                inputs,
            ).1[j]).1,
    decreases inputs.len(),
{
    if inputs.len() > 0 {
        batches_are_whole_frames(inputs.drop_last());
        let (sent, pending) = spec_flagged_run(inputs.drop_last());
        let last = inputs.last();
        if last.1 {
            let b = pending.push(last);
            assert(spec_is_frame_batch(b)) by {
                assert forall|j: int| 0 <= j < b.len() - 1 implies !(#[trigger] b[j]).1 by {
                    assert(b[j] == pending[j]);
                }
            }
            assert forall|i: int| 0 <= i < sent.push(b).len() implies spec_is_frame_batch(
                #[trigger] sent.push(b)[i],
            ) by {
                if i < sent.len() {
                    assert(sent.push(b)[i] == sent[i]);
                }
            }
        }
    }
}

/// Timestamp of a buffer seen at a pad probe: `buffer` is the buffer's
/// presentation time, if the probe saw a buffer at all.
pub fn buffer_pts(buffer: Option<Option<u64>>) -> (r: Option<u64>)
    ensures
        r == match buffer {
            Some(pts) => pts,
            None => None,
        },
{
    match buffer {
        Some(pts) => pts,
        None => None,
    }
}


/// The marker of a well-formed packet (at least the 12 header bytes, RTP
/// version 2 in the top two bits of the first byte) is bit 7 of its second
/// byte.
pub proof fn marker_is_bit_seven_of_the_second_byte(p: Seq<u8>)
    requires
        p.len() >= 12,
        p[0] >> 6u8 == 2,
    ensures
        spec_rtp_marker(p) == Ok::<bool, RtpPacketError>(p[1] & 0x80u8 == 0x80u8),
{
    let a = p[0];
    let b = p[1];
    assert(a >> 6u8 == a / 64) by (bit_vector);
    assert((b & 0x80u8 == 0x80u8) == (b >= 128)) by (bit_vector);
}

/// Whether a packet ends its frame depends on its first two bytes and its
/// length only: the sequence number, timestamp, source and payload do not
/// change it.
pub proof fn marker_ignores_the_other_bytes(p: Seq<u8>, q: Seq<u8>)
    requires
        p.len() == q.len(),
        p.len() >= 2,
        p[0] == q[0],
        p[1] == q[1],
    ensures
        spec_rtp_marker(p) == spec_rtp_marker(q),
{
}

} // verus!
