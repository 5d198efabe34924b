//! Follows frame probes through a hardware H.264 pipeline: a probe waits
//! until its frame enters the pipeline, collects the VPP and encoder
//! timestamps its buffer passes, and is matched, in input order, with the
//! RTP packets that carry the encoded frame.
//!
//! Pipeline events arrive from pad probes on other threads; the caller hands
//! them over in the order they were sent.
use vstd::prelude::*;
use std::collections::HashMap;
use crate::video_probe::{VideoFrameProbe, VideoFrameTimestamps};

verus! {

broadcast use vstd::std_specs::hash::group_hash_axioms;

/// A buffer passing a pad of the pipeline, identified by its presentation
/// timestamp; `at` is the clock reading in nanoseconds.
#[derive(Debug, Clone, Copy, PartialEq, Eq)]
pub enum VideoProbeEvent {
    PipelineInput { pts_ns: u64 },
    VppEntered { pts_ns: u64, at: u64 },
    VppCompleted { pts_ns: u64, at: u64 },
    EncoderEntered { pts_ns: u64, at: u64 },
    EncoderCompleted { pts_ns: u64, at: u64 },
}

/// RTP packets and payload bytes seen so far for one encoded frame.
#[derive(Debug, Clone, Copy, PartialEq, Eq)]
pub struct RtpFrameStats {
    pub packets: u64,
    pub bytes: u64,
}

/// What one RTP packet of the encoder's output led to.
#[derive(Debug, Clone, Copy, PartialEq, Eq)]
pub enum PacketOutcome {
    /// The packet carries no presentation timestamp and is not counted.
    MissingPts,
    /// The packet was counted; its frame continues.
    FrameContinues,
    /// A frame ended but no probed frame entered the pipeline before it.
    MissingInputOrder { output_pts_ns: u64 },
    /// A frame ended but the probe of the frame that entered first is gone.
    MissingProbe { input_pts_ns: u64, output_pts_ns: u64 },
    /// A frame ended: its probe, with the encoder's completion time, and its
    /// RTP totals.
    FrameEncoded { probe: VideoFrameProbe, rtp_packets: u64, rtp_bytes: u64 },
}

/// Probes waiting to enter the pipeline, probes inside it, the order in which
/// they entered, encoder completion times by output timestamp, and the RTP
/// totals of frames whose last packet has not been seen.
pub struct EncoderProbeTracker {
    pub submitted: Vec<VideoFrameProbe>,
    pub encoding: HashMap<u64, VideoFrameProbe>,
    pub encoded_order: Vec<u64>,
    pub encoder_completed: HashMap<u64, u64>,
    pub pending_rtp: HashMap<u64, RtpFrameStats>,
}

/// The index of the submitted probe of the frame with timestamp `pts_ns`.
pub open spec fn spec_submitted_index(submitted: Seq<VideoFrameProbe>, pts_ns: u64) -> Option<int> {
    if exists|i: int| 0 <= i < submitted.len() && submitted[i].pts_ns == pts_ns {
        Some(choose|i: int| 0 <= i < submitted.len() && submitted[i].pts_ns == pts_ns)
    } else {
        None
    }
}

/// The submitted probes of frames later than `pts_ns`, in order: a frame that
/// entered the pipeline passes every earlier frame that never will.
pub open spec fn spec_later_than(submitted: Seq<VideoFrameProbe>, pts_ns: u64) -> Seq<VideoFrameProbe>
    decreases submitted.len(),
{
    if submitted.len() == 0 {
        Seq::empty()
    } else {
        let rest = spec_later_than(submitted.drop_last(), pts_ns);
        if submitted.last().pts_ns > pts_ns {
            rest.push(submitted.last())
        } else {
            rest
        }
    }
}

/// The probe with one more timestamp.
pub open spec fn spec_with_timestamps(probe: VideoFrameProbe, timestamps: VideoFrameTimestamps) -> VideoFrameProbe {
    VideoFrameProbe { timestamps, ..probe }
}

/// The probe of a frame inside the pipeline after `event` passed a pad.
pub open spec fn spec_marked(probe: VideoFrameProbe, event: VideoProbeEvent) -> VideoFrameProbe {
    let t = probe.timestamps;
    match event {
        VideoProbeEvent::VppEntered { at, .. } => spec_with_timestamps(probe, VideoFrameTimestamps { vpp_entered: Some(at), ..t }),
        VideoProbeEvent::VppCompleted { at, .. } => spec_with_timestamps(probe, VideoFrameTimestamps { vpp_completed: Some(at), ..t }),
        VideoProbeEvent::EncoderEntered { at, .. } => spec_with_timestamps(probe, VideoFrameTimestamps { encoder_entered: Some(at), ..t }),
        _ => probe,
    }
}

/// `a + b`, or `u64::MAX` when that overflows.
pub open spec fn spec_saturating_add(a: u64, b: u64) -> u64 {
    if a + b > u64::MAX { u64::MAX } else { (a + b) as u64 }
}

/// The RTP totals of a frame after one more packet of `payload_len` bytes.
pub open spec fn spec_count_packet(stats: Option<RtpFrameStats>, payload_len: usize) -> RtpFrameStats {
    let s = match stats {
        Some(s) => s,
        None => RtpFrameStats { packets: 0, bytes: 0 },
    };
    RtpFrameStats {
        packets: spec_saturating_add(s.packets, 1),
        bytes: spec_saturating_add(s.bytes, payload_len as u64),
    }
}

impl EncoderProbeTracker {
    /// At most one submitted probe per frame timestamp.
    pub open spec fn wf(self) -> bool {
        forall|i: int, j: int|
            0 <= i < j < self.submitted@.len() ==> #[trigger] self.submitted@[i].pts_ns
                != #[trigger] self.submitted@[j].pts_ns
    }

    pub fn new() -> (t: Self)
        ensures
            t.wf(),
            t.submitted@.len() == 0,
            t.encoding@ == Map::<u64, VideoFrameProbe>::empty(),
            t.encoded_order@.len() == 0,
            t.encoder_completed@ == Map::<u64, u64>::empty(),
            t.pending_rtp@ == Map::<u64, RtpFrameStats>::empty(),
    {
        EncoderProbeTracker {
            submitted: Vec::new(),
            encoding: HashMap::new(),
            encoded_order: Vec::new(),
            encoder_completed: HashMap::new(),
            pending_rtp: HashMap::new(),
        }
    }

    fn submitted_index(&self, pts_ns: u64) -> (r: Option<usize>)
        requires
            self.wf(),
        ensures
            r == (match spec_submitted_index(self.submitted@, pts_ns) {
                Some(i) => Some(i as usize),
                None => None::<usize>,
            }),
            r matches Some(i) ==> i < self.submitted@.len() && self.submitted@[i as int].pts_ns == pts_ns,
    {
        let mut i: usize = 0;
        while i < self.submitted.len()
            invariant
                self.wf(),
                i <= self.submitted@.len(),
                forall|j: int| 0 <= j < i ==> self.submitted@[j].pts_ns != pts_ns,
            decreases self.submitted@.len() - i,
        {
            if self.submitted[i].pts_ns == pts_ns {
                proof {
                    let c = choose|j: int| 0 <= j < self.submitted@.len() && self.submitted@[j].pts_ns == pts_ns;
                    if c > i as int {
                        assert(self.submitted@[i as int].pts_ns != self.submitted@[c].pts_ns);
                    }
                }
                return Some(i);
            }
            i = i + 1;
        }
        None
    }

    /// Hands a frame's probe to the encoder at `at`; it waits for its frame to
    /// enter the pipeline. A probe of the same frame timestamp is replaced.
    pub fn submit_frame(&mut self, probe: VideoFrameProbe, at: u64)
        requires
            old(self).wf(),
        ensures
            final(self).wf(),
            ({
                let marked = spec_with_timestamps(
                    probe,
                    VideoFrameTimestamps { encoder_submitted: Some(at), ..probe.timestamps },
                );
                final(self).submitted@ == match spec_submitted_index(old(self).submitted@, probe.pts_ns) {
                    Some(i) => old(self).submitted@.update(i, marked),
                    None => old(self).submitted@.push(marked),
                }
            }),
            final(self).encoding@ == old(self).encoding@,
            final(self).encoded_order@ == old(self).encoded_order@,
            final(self).encoder_completed@ == old(self).encoder_completed@,
            final(self).pending_rtp@ == old(self).pending_rtp@,
    {
        let mut probe = probe;
        probe.mark_encoder_submitted(at);
        match self.submitted_index(probe.pts_ns) {
            Some(i) => {
                self.submitted.set(i, probe);
                proof {
                    assert forall|a: int, b: int| 0 <= a < b < self.submitted@.len() implies #[trigger] self.submitted@[a].pts_ns
                        != #[trigger] self.submitted@[b].pts_ns by {
                        assert(old(self).submitted@[a].pts_ns != old(self).submitted@[b].pts_ns);
                    }
                }
            },
            None => {
                self.submitted.push(probe);
                proof {
                    assert forall|a: int, b: int| 0 <= a < b < self.submitted@.len() implies #[trigger] self.submitted@[a].pts_ns
                        != #[trigger] self.submitted@[b].pts_ns by {
                        if b < old(self).submitted@.len() {
                            assert(old(self).submitted@[a].pts_ns != old(self).submitted@[b].pts_ns);
                        } else {
                            assert(old(self).submitted@[a].pts_ns != probe.pts_ns);
                        }
                    }
                }
            },
        }
    }

    fn keep_later_than(&mut self, pts_ns: u64)
        requires
            old(self).wf(),
        ensures
            final(self).wf(),
            final(self).submitted@ == spec_later_than(old(self).submitted@, pts_ns),
            final(self).encoding@ == old(self).encoding@,
            final(self).encoded_order@ == old(self).encoded_order@,
            final(self).encoder_completed@ == old(self).encoder_completed@,
            final(self).pending_rtp@ == old(self).pending_rtp@,
    {
        let mut kept: Vec<VideoFrameProbe> = Vec::new();
        let mut i: usize = 0;
        while i < self.submitted.len()
            invariant
                self.wf(),
                i <= self.submitted@.len(),
                kept@ == spec_later_than(self.submitted@.take(i as int), pts_ns),
                forall|a: int| 0 <= a < kept@.len() ==> exists|k: int| 0 <= k < i && #[trigger] kept@[a] == self.submitted@[k],
                forall|a: int, b: int| 0 <= a < b < kept@.len() ==> #[trigger] kept@[a].pts_ns != #[trigger] kept@[b].pts_ns,
            decreases self.submitted@.len() - i,
        {
            let probe = self.submitted[i];
            proof {
                assert(self.submitted@.take(i as int + 1).drop_last() == self.submitted@.take(i as int));
            }
            if probe.pts_ns > pts_ns {
                let ghost before = kept@;
                kept.push(probe);
                proof {
                    assert forall|a: int| 0 <= a < kept@.len() implies exists|k: int| 0 <= k < i + 1 && #[trigger] kept@[a]
                        == self.submitted@[k] by {
                        if a < before.len() {
                            let k = choose|k: int| 0 <= k < i && before[a] == self.submitted@[k];
                            assert(kept@[a] == self.submitted@[k]);
                        } else {
                            assert(kept@[a] == self.submitted@[i as int]);
                        }
                    }
                    assert forall|a: int, b: int| 0 <= a < b < kept@.len() implies #[trigger] kept@[a].pts_ns
                        != #[trigger] kept@[b].pts_ns by {
                        if b == before.len() {
                            let k = choose|k: int| 0 <= k < i && before[a] == self.submitted@[k];
                            assert(self.submitted@[k].pts_ns != self.submitted@[i as int].pts_ns);
                        } else {
                            assert(before[a].pts_ns != before[b].pts_ns);
                        }
                    }
                }
            }
            i = i + 1;
        }
        proof {
            assert(self.submitted@.take(i as int) == self.submitted@);
        }
        self.submitted = kept;
    }

    /// Takes one event of the pipeline's pad probes. A frame entering the
    /// pipeline moves its probe inside and drops the probes of earlier frames;
    /// the VPP and encoder pads stamp the probe of their frame; the encoder's
    /// output records its completion time under the output timestamp.
    pub fn apply_event(&mut self, event: VideoProbeEvent)
        requires
            old(self).wf(),
        ensures
            final(self).wf(),
            match event {
                VideoProbeEvent::PipelineInput { pts_ns } => {
                    &&& final(self).submitted@ == spec_later_than(old(self).submitted@, pts_ns)
                    &&& match spec_submitted_index(old(self).submitted@, pts_ns) {
                        Some(i) => {
                            &&& final(self).encoding@ == old(self).encoding@.insert(pts_ns, old(self).submitted@[i])
                            &&& final(self).encoded_order@ == old(self).encoded_order@.push(pts_ns)
                        },
                        None => {
                            &&& final(self).encoding@ == old(self).encoding@
                            &&& final(self).encoded_order@ == old(self).encoded_order@
                        },
                    }
                    &&& final(self).encoder_completed@ == old(self).encoder_completed@
                },
                VideoProbeEvent::EncoderCompleted { pts_ns, at } => {
                    &&& final(self).submitted@ == old(self).submitted@
                    &&& final(self).encoding@ == old(self).encoding@
                    &&& final(self).encoded_order@ == old(self).encoded_order@
                    &&& final(self).encoder_completed@ == old(self).encoder_completed@.insert(pts_ns, at)
                },
                VideoProbeEvent::VppEntered { pts_ns, .. } | VideoProbeEvent::VppCompleted { pts_ns, .. }
                | VideoProbeEvent::EncoderEntered { pts_ns, .. } => {
                    &&& final(self).submitted@ == old(self).submitted@
                    &&& final(self).encoding@ == if old(self).encoding@.contains_key(pts_ns) {
                        old(self).encoding@.insert(pts_ns, spec_marked(old(self).encoding@[pts_ns], event))
                    } else {
                        old(self).encoding@
                    }
                    &&& final(self).encoded_order@ == old(self).encoded_order@
                    &&& final(self).encoder_completed@ == old(self).encoder_completed@
                },
            },
            final(self).pending_rtp@ == old(self).pending_rtp@,
    {
        match event {
            VideoProbeEvent::PipelineInput { pts_ns } => {
                if let Some(i) = self.submitted_index(pts_ns) {
                    let probe = self.submitted[i];
                    self.encoding.insert(pts_ns, probe);
                    self.encoded_order.push(pts_ns);
                }
                self.keep_later_than(pts_ns);
            },
            VideoProbeEvent::VppEntered { pts_ns, at } => {
                if let Some(mut probe) = self.encoding.remove(&pts_ns) {
                    probe.mark_vpp_entered(at);
                    self.encoding.insert(pts_ns, probe);
                    proof {
                        assert(self.encoding@ =~= old(self).encoding@.insert(pts_ns, spec_marked(old(self).encoding@[pts_ns], event)));
                    }
                }
            },
            VideoProbeEvent::VppCompleted { pts_ns, at } => {
                if let Some(mut probe) = self.encoding.remove(&pts_ns) {
                    probe.mark_vpp_completed(at);
                    self.encoding.insert(pts_ns, probe);
                    proof {
                        assert(self.encoding@ =~= old(self).encoding@.insert(pts_ns, spec_marked(old(self).encoding@[pts_ns], event)));
                    }
                }
            },
            VideoProbeEvent::EncoderEntered { pts_ns, at } => {
                if let Some(mut probe) = self.encoding.remove(&pts_ns) {
                    probe.mark_encoder_entered(at);
                    self.encoding.insert(pts_ns, probe);
                    proof {
                        assert(self.encoding@ =~= old(self).encoding@.insert(pts_ns, spec_marked(old(self).encoding@[pts_ns], event)));
                    }
                }
            },
            VideoProbeEvent::EncoderCompleted { pts_ns, at } => {
                self.encoder_completed.insert(pts_ns, at);
            },
        }
    }

    /// Counts one RTP packet of the encoder's output. The last packet of a
    /// frame completes the probe of the frame that entered the pipeline first,
    /// with the encoder's completion time for the packet's timestamp.
    pub fn record_packet(&mut self, pts_ns: Option<u64>, payload_len: usize, frame_end: bool) -> (outcome: PacketOutcome)
        requires
            old(self).wf(),
        ensures
            final(self).wf(),
            final(self).submitted@ == old(self).submitted@,
            match pts_ns {
                None => {
                    &&& outcome == PacketOutcome::MissingPts
                    &&& final(self).encoding@ == old(self).encoding@
                    &&& final(self).encoded_order@ == old(self).encoded_order@
                    &&& final(self).encoder_completed@ == old(self).encoder_completed@
                    &&& final(self).pending_rtp@ == old(self).pending_rtp@
                },
                Some(pts) => {
                    let stats = spec_count_packet(
                        if old(self).pending_rtp@.contains_key(pts) { Some(old(self).pending_rtp@[pts]) } else { None },
                        payload_len,
                    );
                    if !frame_end {
                        &&& outcome == PacketOutcome::FrameContinues
                        &&& final(self).pending_rtp@ == old(self).pending_rtp@.insert(pts, stats)
                        &&& final(self).encoding@ == old(self).encoding@
                        &&& final(self).encoded_order@ == old(self).encoded_order@
                        &&& final(self).encoder_completed@ == old(self).encoder_completed@
                    } else {
                        &&& final(self).pending_rtp@ == old(self).pending_rtp@.remove(pts)
                        &&& final(self).encoder_completed@ == old(self).encoder_completed@.remove(pts)
                        &&& if old(self).encoded_order@.len() == 0 {
                            &&& outcome == (PacketOutcome::MissingInputOrder { output_pts_ns: pts })
                            &&& final(self).encoded_order@ == old(self).encoded_order@
                            &&& final(self).encoding@ == old(self).encoding@
                        } else {
                            let input = old(self).encoded_order@[0];
                            &&& final(self).encoded_order@ == old(self).encoded_order@.drop_first()
                            &&& final(self).encoding@ == old(self).encoding@.remove(input)
                            &&& outcome == if old(self).encoding@.contains_key(input) {
                                PacketOutcome::FrameEncoded {
                                    probe: spec_with_timestamps(
                                        old(self).encoding@[input],
                                        VideoFrameTimestamps {
                                            encoder_completed: if old(self).encoder_completed@.contains_key(pts) {
                                                Some(old(self).encoder_completed@[pts])
                                            } else {
                                                None
                                            },
                                            ..old(self).encoding@[input].timestamps
                                        },
                                    ),
                                    rtp_packets: stats.packets,
                                    rtp_bytes: stats.bytes,
                                }
                            } else {
                                PacketOutcome::MissingProbe { input_pts_ns: input, output_pts_ns: pts }
                            }
                        }
                    }
                },
            },
    {
        let pts = match pts_ns {
            Some(pts) => pts,
            None => {
                return PacketOutcome::MissingPts;
            },
        };
        let previous = match self.pending_rtp.remove(&pts) {
            Some(stats) => stats,
            None => RtpFrameStats { packets: 0, bytes: 0 },
        };
        let stats = RtpFrameStats {
            packets: previous.packets.saturating_add(1),
            bytes: previous.bytes.saturating_add(payload_len as u64),
        };
        if !frame_end {
            self.pending_rtp.insert(pts, stats);
            proof {
                assert(self.pending_rtp@ =~= old(self).pending_rtp@.insert(pts, stats));
            }
            return PacketOutcome::FrameContinues;
        }
        let encoder_completed = self.encoder_completed.remove(&pts);
        if self.encoded_order.len() == 0 {
            return PacketOutcome::MissingInputOrder { output_pts_ns: pts };
        }
        let input_pts_ns = self.encoded_order.remove(0);
        proof {
            assert(self.encoded_order@ =~= old(self).encoded_order@.drop_first());
        }
        match self.encoding.remove(&input_pts_ns) {
            Some(probe) => {
                let mut probe = probe;
                probe.mark_encoder_completed(encoder_completed);
                PacketOutcome::FrameEncoded { probe, rtp_packets: stats.packets, rtp_bytes: stats.bytes }
            },
            None => PacketOutcome::MissingProbe { input_pts_ns, output_pts_ns: pts },
        }
    }
}

/// When a frame enters the pipeline, exactly the submitted probes of later
/// frames keep waiting: a probe of an earlier or the same frame never will
/// enter.
pub proof fn pipeline_input_keeps_only_later_probes(submitted: Seq<VideoFrameProbe>, pts_ns: u64, probe: VideoFrameProbe)
    ensures
        spec_later_than(submitted, pts_ns).contains(probe) <==> (submitted.contains(probe) && probe.pts_ns > pts_ns),
    decreases submitted.len(),
{
    if submitted.len() > 0 {
        let init = submitted.drop_last();
        pipeline_input_keeps_only_later_probes(init, pts_ns, probe);
        let rest = spec_later_than(init, pts_ns);
        let all = spec_later_than(submitted, pts_ns);
        if all.contains(probe) {
            let j = choose|j: int| 0 <= j < all.len() && all[j] == probe;
            if j < rest.len() {
                assert(rest[j] == probe);
                let k = choose|k: int| 0 <= k < init.len() && init[k] == probe;
                assert(submitted[k] == probe);
            } else {
                assert(submitted[submitted.len() - 1] == probe);
            }
        }
        if submitted.contains(probe) && probe.pts_ns > pts_ns {
            let k = choose|k: int| 0 <= k < submitted.len() && submitted[k] == probe;
            if k < init.len() {
                assert(init[k] == probe);
                let j = choose|j: int| 0 <= j < rest.len() && rest[j] == probe;
                assert(all[j] == probe);
            } else {
                assert(all[rest.len() as int] == probe);
            }
        }
    }
}

} // verus!
