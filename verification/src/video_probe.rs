//! Per-frame latency probe of the host video path: vblank wait, KMS capture,
//! GPU processing, optional VAAPI VPP, H.264 encode and RTP packetization,
//! plus the two-second throughput window that accumulates encoded frames.
//!
//! Timestamps are monotonic clock readings in nanoseconds; durations are
//! nanoseconds.
use vstd::prelude::*;

use crate::client_video_probe::{elapsed, required, spec_elapsed};

verus! {

/// Length of the throughput window, in nanoseconds.
pub const REPORT_WINDOW_NS: u64 = 2_000_000_000;

/// Clock readings taken around one KMS capture.
#[derive(Debug, Clone, Copy, PartialEq, Eq)]
pub struct VideoCaptureTiming {
    pub vblank_wait_started: u64,
    pub capture_started: u64,
    pub capture_completed: u64,
}

/// Assigns frame identifiers and presentation timestamps relative to the clock's epoch.
#[derive(Debug, Clone, Copy, PartialEq, Eq)]
pub struct VideoProbeClock {
    pub epoch: u64,
    pub next_frame_id: u64,
}

#[derive(Debug, Clone, Copy, PartialEq, Eq)]
pub struct VideoFrameTimestamps {
    pub vblank_wait_started: u64,
    pub capture_started: u64,
    pub capture_completed: u64,
    pub gpu_received: Option<u64>,
    pub gpu_submitted: Option<u64>,
    pub pipeline_ready: Option<u64>,
    pub encoder_submitted: Option<u64>,
    pub vpp_entered: Option<u64>,
    pub vpp_completed: Option<u64>,
    pub encoder_entered: Option<u64>,
    pub encoder_completed: Option<u64>,
}

/// Probe that follows one captured frame until its RTP packets are sent.
#[derive(Debug, Clone, Copy, PartialEq, Eq)]
pub struct VideoFrameProbe {
    pub frame_id: u64,
    pub pts_ns: u64,
    pub timestamps: VideoFrameTimestamps,
}

/// Stage durations of one encoded frame, in nanoseconds.
#[derive(Debug, Clone, Copy, PartialEq, Eq)]
pub struct VideoFrameTimings {
    pub vblank_wait: u64,
    pub capture: u64,
    pub capture_queue: u64,
    pub gpu_process: u64,
    pub gpu_fence: u64,
    pub encoder_queue: u64,
    pub vpp_queue: u64,
    pub vpp: u64,
    pub encode_queue: u64,
    pub encode: u64,
    pub rtp_packetize: u64,
    pub host_latency: u64,
}

/// Accumulated stage durations of one throughput window, in nanoseconds.
#[derive(Debug, Clone, Copy, PartialEq, Eq)]
pub struct VideoProbeStageTotals {
    pub vblank_wait: u128,
    pub capture: u128,
    pub capture_queue: u128,
    pub gpu_process: u128,
    pub gpu_fence: u128,
    pub encoder_queue: u128,
    pub vpp_queue: u128,
    pub vpp: u128,
    pub encode_queue: u128,
    pub encode: u128,
    pub rtp_packetize: u128,
    pub host_latency: u128,
}

/// What a finished host throughput window reports.
#[derive(Debug, Clone, Copy, PartialEq, Eq)]
pub struct VideoWindowReport {
    pub partial: bool,
    pub window_ns: u64,
    pub frames: u64,
    pub rtp_packets: u64,
    pub rtp_bytes: u64,
    pub totals: VideoProbeStageTotals,
}

/// What recording one encoded frame produced.
#[derive(Debug, Clone, Copy, PartialEq, Eq)]
pub enum VideoRecordOutcome {
    Incomplete { frame_id: u64, missing_stage: &'static str },
    Recorded {
        frame_id: u64,
        pts_ns: u64,
        timings: VideoFrameTimings,
        report: Option<VideoWindowReport>,
    },
}

/// Accumulates encoded frames and closes a window every `REPORT_WINDOW_NS`.
#[derive(Debug, Clone, Copy, PartialEq, Eq)]
pub struct VideoProbeReporter {
    pub window_started: Option<u64>,
    pub frames: u64,
    pub rtp_packets: u64,
    pub rtp_bytes: u64,
    pub totals: VideoProbeStageTotals,
}

pub open spec fn zero_video_totals() -> VideoProbeStageTotals {
    VideoProbeStageTotals {
        vblank_wait: 0,
        capture: 0,
        capture_queue: 0,
        gpu_process: 0,
        gpu_fence: 0,
        encoder_queue: 0,
        vpp_queue: 0,
        vpp: 0,
        encode_queue: 0,
        encode: 0,
        rtp_packetize: 0,
        host_latency: 0,
    }
}

/// A duration given in nanoseconds as a `u64`, saturating at `u64::MAX`.
pub open spec fn spec_duration_ns(nanos: u128) -> u64 {
    if nanos > u64::MAX {
        u64::MAX
    } else {
        nanos as u64
    }
}

/// The stage timings of a probe whose RTP packets completed at `rtp_completed`, or the
/// first missing stage. The VPP stages count as zero when the frame bypassed VPP.
pub open spec fn spec_video_finish(t: VideoFrameTimestamps, rtp_completed: u64) -> Result<
    VideoFrameTimings,
    &'static str,
> {
    if t.gpu_received is None {
        Err("gpu_received")
    } else if t.gpu_submitted is None {
        Err("gpu_submitted")
    } else if t.pipeline_ready is None {
        Err("pipeline_ready")
    } else if t.encoder_submitted is None {
        Err("encoder_submitted")
    } else if t.vpp_entered is Some && t.vpp_completed is None {
        Err("vpp_completed")
    } else if t.encoder_entered is None {
        Err("encoder_entered")
    } else if t.encoder_completed is None {
        Err("encoder_completed")
    } else {
        let gpu_received = t.gpu_received.unwrap();
        let gpu_submitted = t.gpu_submitted.unwrap();
        let pipeline_ready = t.pipeline_ready.unwrap();
        let encoder_submitted = t.encoder_submitted.unwrap();
        let encoder_entered = t.encoder_entered.unwrap();
        let encoder_completed = t.encoder_completed.unwrap();
        let (vpp_queue, vpp, vpp_completed) = match t.vpp_entered {
            Some(vpp_entered) => (
                spec_elapsed(encoder_submitted, vpp_entered),
                spec_elapsed(vpp_entered, t.vpp_completed.unwrap()),
                t.vpp_completed.unwrap(),
            ),
            None => (0u64, 0u64, encoder_submitted),
        };
        Ok(
            VideoFrameTimings {
                vblank_wait: spec_elapsed(t.vblank_wait_started, t.capture_started),
                capture: spec_elapsed(t.capture_started, t.capture_completed),
                capture_queue: spec_elapsed(t.capture_completed, gpu_received),
                gpu_process: spec_elapsed(gpu_received, gpu_submitted),
                gpu_fence: spec_elapsed(gpu_submitted, pipeline_ready),
                encoder_queue: spec_elapsed(pipeline_ready, encoder_submitted),
                vpp_queue,
                vpp,
                encode_queue: spec_elapsed(vpp_completed, encoder_entered),
                encode: spec_elapsed(encoder_entered, encoder_completed),
                rtp_packetize: spec_elapsed(encoder_completed, rtp_completed),
                host_latency: spec_elapsed(t.capture_started, rtp_completed),
            },
        )
    }
}

pub open spec fn spec_add_video_timings(
    t: VideoProbeStageTotals,
    x: VideoFrameTimings,
) -> VideoProbeStageTotals {
    VideoProbeStageTotals {
        vblank_wait: (t.vblank_wait + x.vblank_wait) as u128,
        capture: (t.capture + x.capture) as u128,
        capture_queue: (t.capture_queue + x.capture_queue) as u128,
        gpu_process: (t.gpu_process + x.gpu_process) as u128,
        gpu_fence: (t.gpu_fence + x.gpu_fence) as u128,
        encoder_queue: (t.encoder_queue + x.encoder_queue) as u128,
        vpp_queue: (t.vpp_queue + x.vpp_queue) as u128,
        vpp: (t.vpp + x.vpp) as u128,
        encode_queue: (t.encode_queue + x.encode_queue) as u128,
        encode: (t.encode + x.encode) as u128,
        rtp_packetize: (t.rtp_packetize + x.rtp_packetize) as u128,
        host_latency: (t.host_latency + x.host_latency) as u128,
    }
}

pub open spec fn video_totals_bounded(t: VideoProbeStageTotals, frames: u64) -> bool {
    let bound = frames * u64::MAX;
    &&& t.vblank_wait <= bound
    &&& t.capture <= bound
    &&& t.capture_queue <= bound
    &&& t.gpu_process <= bound
    &&& t.gpu_fence <= bound
    &&& t.encoder_queue <= bound
    &&& t.vpp_queue <= bound
    &&& t.vpp <= bound
    &&& t.encode_queue <= bound
    &&& t.encode <= bound
    &&& t.rtp_packetize <= bound
    &&& t.host_latency <= bound
}

/// Converts a nanosecond count to `u64`, saturating at `u64::MAX`.
pub fn duration_ns(nanos: u128) -> (ns: u64)
    ensures
        ns == spec_duration_ns(nanos),
{
    if nanos > u64::MAX as u128 {
        u64::MAX
    } else {
        nanos as u64
    }
}

impl VideoProbeClock {
    /// A clock whose presentation timestamps count from `epoch`.
    pub fn new(epoch: u64) -> (clock: Self)
        ensures
            clock == (VideoProbeClock { epoch, next_frame_id: 0 }),
    {
        VideoProbeClock { epoch, next_frame_id: 0 }
    }

    /// Starts the probe of the next captured frame; its presentation timestamp is the time
    /// from the epoch to the start of the capture.
    pub fn frame(&mut self, timing: VideoCaptureTiming) -> (probe: VideoFrameProbe)
        ensures
            probe == (VideoFrameProbe {
                frame_id: old(self).next_frame_id,
                pts_ns: spec_elapsed(old(self).epoch, timing.capture_started),
                timestamps: VideoFrameTimestamps {
                    vblank_wait_started: timing.vblank_wait_started,
                    capture_started: timing.capture_started,
                    capture_completed: timing.capture_completed,
                    gpu_received: None,
                    gpu_submitted: None,
                    pipeline_ready: None,
                    encoder_submitted: None,
                    vpp_entered: None,
                    vpp_completed: None,
                    encoder_entered: None,
                    encoder_completed: None,
                },
            }),
            final(self).epoch == old(self).epoch,
            final(self).next_frame_id == (if old(self).next_frame_id == u64::MAX {
                u64::MAX
            } else {
                (old(self).next_frame_id + 1) as u64
            }),
    {
        let frame_id = self.next_frame_id;
        self.next_frame_id = self.next_frame_id.saturating_add(1);
        VideoFrameProbe {
            frame_id,
            pts_ns: duration_ns(elapsed(self.epoch, timing.capture_started) as u128),
            timestamps: VideoFrameTimestamps {
                vblank_wait_started: timing.vblank_wait_started,
                capture_started: timing.capture_started,
                capture_completed: timing.capture_completed,
                gpu_received: None,
                gpu_submitted: None,
                pipeline_ready: None,
                encoder_submitted: None,
                vpp_entered: None,
                vpp_completed: None,
                encoder_entered: None,
                encoder_completed: None,
            },
        }
    }
}

impl VideoFrameProbe {
    pub fn frame_id(&self) -> (id: u64)
        ensures
            id == self.frame_id,
    {
        self.frame_id
    }

    pub fn pts_ns(&self) -> (pts: u64)
        ensures
            pts == self.pts_ns,
    {
        self.pts_ns
    }

    pub fn mark_gpu_received(&mut self, at: u64)
        ensures
            *final(self) == (VideoFrameProbe {
                timestamps: VideoFrameTimestamps { gpu_received: Some(at), ..old(self).timestamps },
                ..*old(self)
            }),
    {
        self.timestamps.gpu_received = Some(at);
    }

    pub fn mark_gpu_submitted(&mut self, at: u64)
        ensures
            *final(self) == (VideoFrameProbe {
                timestamps: VideoFrameTimestamps { gpu_submitted: Some(at), ..old(self).timestamps },
                ..*old(self)
            }),
    {
        self.timestamps.gpu_submitted = Some(at);
    }

    pub fn mark_pipeline_ready(&mut self, at: u64)
        ensures
            *final(self) == (VideoFrameProbe {
                timestamps: VideoFrameTimestamps {
                    pipeline_ready: Some(at),
                    ..old(self).timestamps
                },
                ..*old(self)
            }),
    {
        self.timestamps.pipeline_ready = Some(at);
    }

    pub fn mark_encoder_submitted(&mut self, at: u64)
        ensures
            *final(self) == (VideoFrameProbe {
                timestamps: VideoFrameTimestamps {
                    encoder_submitted: Some(at),
                    ..old(self).timestamps
                },
                ..*old(self)
            }),
    {
        self.timestamps.encoder_submitted = Some(at);
    }

    pub fn mark_vpp_entered(&mut self, at: u64)
        ensures
            *final(self) == (VideoFrameProbe {
                timestamps: VideoFrameTimestamps { vpp_entered: Some(at), ..old(self).timestamps },
                ..*old(self)
            }),
    {
        self.timestamps.vpp_entered = Some(at);
    }

    pub fn mark_vpp_completed(&mut self, at: u64)
        ensures
            *final(self) == (VideoFrameProbe {
                timestamps: VideoFrameTimestamps {
                    vpp_completed: Some(at),
                    ..old(self).timestamps
                },
                ..*old(self)
            }),
    {
        self.timestamps.vpp_completed = Some(at);
    }

    pub fn mark_encoder_entered(&mut self, at: u64)
        ensures
            *final(self) == (VideoFrameProbe {
                timestamps: VideoFrameTimestamps {
                    encoder_entered: Some(at),
                    ..old(self).timestamps
                },
                ..*old(self)
            }),
    {
        self.timestamps.encoder_entered = Some(at);
    }

    /// Records when the encoder released the frame, or clears it when that is unknown.
    pub fn mark_encoder_completed(&mut self, at: Option<u64>)
        ensures
            *final(self) == (VideoFrameProbe {
                timestamps: VideoFrameTimestamps { encoder_completed: at, ..old(self).timestamps },
                ..*old(self)
            }),
    {
        self.timestamps.encoder_completed = at;
    }

    /// The stage durations of a completely probed frame whose packets completed at
    /// `rtp_completed`, or the first missing stage.
    pub fn finish(&self, rtp_completed: u64) -> (r: Result<VideoFrameTimings, &'static str>)
        ensures
            r == spec_video_finish(self.timestamps, rtp_completed),
    {
        let t = &self.timestamps;
        let gpu_received = required(t.gpu_received, "gpu_received")?;
        let gpu_submitted = required(t.gpu_submitted, "gpu_submitted")?;
        let pipeline_ready = required(t.pipeline_ready, "pipeline_ready")?;
        let encoder_submitted = required(t.encoder_submitted, "encoder_submitted")?;
        let (vpp_queue, vpp, vpp_completed) = match t.vpp_entered {
            Some(vpp_entered) => {
                let vpp_completed = required(t.vpp_completed, "vpp_completed")?;
                (
                    elapsed(encoder_submitted, vpp_entered),
                    elapsed(vpp_entered, vpp_completed),
                    vpp_completed,
                )
            },
            None => (0u64, 0u64, encoder_submitted),
        };
        let encoder_entered = required(t.encoder_entered, "encoder_entered")?;
        let encoder_completed = required(t.encoder_completed, "encoder_completed")?;
        Ok(
            VideoFrameTimings {
                vblank_wait: elapsed(t.vblank_wait_started, t.capture_started),
                capture: elapsed(t.capture_started, t.capture_completed),
                capture_queue: elapsed(t.capture_completed, gpu_received),
                gpu_process: elapsed(gpu_received, gpu_submitted),
                gpu_fence: elapsed(gpu_submitted, pipeline_ready),
                encoder_queue: elapsed(pipeline_ready, encoder_submitted),
                vpp_queue,
                vpp,
                encode_queue: elapsed(vpp_completed, encoder_entered),
                encode: elapsed(encoder_entered, encoder_completed),
                rtp_packetize: elapsed(encoder_completed, rtp_completed),
                host_latency: elapsed(t.capture_started, rtp_completed),
            },
        )
    }
}

impl VideoProbeStageTotals {
    pub fn zero() -> (totals: Self)
        ensures
            totals == zero_video_totals(),
    {
        VideoProbeStageTotals {
            vblank_wait: 0,
            capture: 0,
            capture_queue: 0,
            gpu_process: 0,
            gpu_fence: 0,
            encoder_queue: 0,
            vpp_queue: 0,
            vpp: 0,
            encode_queue: 0,
            encode: 0,
            rtp_packetize: 0,
            host_latency: 0,
        }
    }

    /// Adds the stage durations of one frame to the totals.
    pub fn add(&mut self, timings: &VideoFrameTimings)
        requires
            old(self).vblank_wait + timings.vblank_wait <= u128::MAX,
            old(self).capture + timings.capture <= u128::MAX,
            old(self).capture_queue + timings.capture_queue <= u128::MAX,
            old(self).gpu_process + timings.gpu_process <= u128::MAX,
            old(self).gpu_fence + timings.gpu_fence <= u128::MAX,
            old(self).encoder_queue + timings.encoder_queue <= u128::MAX,
            old(self).vpp_queue + timings.vpp_queue <= u128::MAX,
            old(self).vpp + timings.vpp <= u128::MAX,
            old(self).encode_queue + timings.encode_queue <= u128::MAX,
            old(self).encode + timings.encode <= u128::MAX,
            old(self).rtp_packetize + timings.rtp_packetize <= u128::MAX,
            old(self).host_latency + timings.host_latency <= u128::MAX,
        ensures
            *final(self) == spec_add_video_timings(*old(self), *timings),
    {
        self.vblank_wait = self.vblank_wait + timings.vblank_wait as u128;
        self.capture = self.capture + timings.capture as u128;
        self.capture_queue = self.capture_queue + timings.capture_queue as u128;
        self.gpu_process = self.gpu_process + timings.gpu_process as u128;
        self.gpu_fence = self.gpu_fence + timings.gpu_fence as u128;
        self.encoder_queue = self.encoder_queue + timings.encoder_queue as u128;
        self.vpp_queue = self.vpp_queue + timings.vpp_queue as u128;
        self.vpp = self.vpp + timings.vpp as u128;
        self.encode_queue = self.encode_queue + timings.encode_queue as u128;
        self.encode = self.encode + timings.encode as u128;
        self.rtp_packetize = self.rtp_packetize + timings.rtp_packetize as u128;
        self.host_latency = self.host_latency + timings.host_latency as u128;
    }
}

impl Default for VideoProbeReporter {
    fn default() -> (r: Self)
        ensures
            r == (VideoProbeReporter {
                window_started: None,
                frames: 0,
                rtp_packets: 0,
                rtp_bytes: 0,
                totals: zero_video_totals(),
            }),
    {
        VideoProbeReporter {
            window_started: None,
            frames: 0,
            rtp_packets: 0,
            rtp_bytes: 0,
            totals: VideoProbeStageTotals::zero(),
        }
    }
}

impl VideoProbeReporter {
    pub open spec fn wf(self) -> bool {
        video_totals_bounded(self.totals, self.frames)
    }

    pub open spec fn spec_window_report(self, partial: bool, now: u64) -> Option<VideoWindowReport> {
        match self.window_started {
            None => None,
            Some(started) => if self.frames == 0 {
                None
            } else {
                Some(
                    VideoWindowReport {
                        partial,
                        window_ns: spec_elapsed(started, now),
                        frames: self.frames,
                        rtp_packets: self.rtp_packets,
                        rtp_bytes: self.rtp_bytes,
                        totals: self.totals,
                    },
                )
            },
        }
    }

    pub open spec fn spec_after_report(self, now: u64) -> Self {
        if self.window_started is Some && self.frames != 0 {
            VideoProbeReporter {
                window_started: Some(now),
                frames: 0,
                rtp_packets: 0,
                rtp_bytes: 0,
                totals: zero_video_totals(),
            }
        } else {
            self
        }
    }

    pub open spec fn spec_accumulate(
        self,
        rtp_packets: u64,
        rtp_bytes: u64,
        timings: VideoFrameTimings,
        now: u64,
    ) -> Self {
        VideoProbeReporter {
            window_started: Some(
                match self.window_started {
                    Some(s) => s,
                    None => now,
                },
            ),
            frames: (self.frames + 1) as u64,
            rtp_packets: (self.rtp_packets + rtp_packets) as u64,
            rtp_bytes: (self.rtp_bytes + rtp_bytes) as u64,
            totals: spec_add_video_timings(self.totals, timings),
        }
    }

    pub open spec fn spec_window_due(self, now: u64) -> bool {
        match self.window_started {
            Some(started) => spec_elapsed(started, now) >= REPORT_WINDOW_NS,
            None => false,
        }
    }

    /// Accumulates a frame whose RTP packets completed at `now`, and closes the window once
    /// it has lasted `REPORT_WINDOW_NS`. An incomplete probe is reported and otherwise ignored.
    pub fn record_frame(
        &mut self,
        probe: VideoFrameProbe,
        rtp_packets: u64,
        rtp_bytes: u64,
        now: u64,
    ) -> (r: VideoRecordOutcome)
        requires
            old(self).wf(),
            spec_video_finish(probe.timestamps, now) is Ok ==> {
                &&& old(self).frames < u64::MAX
                &&& old(self).rtp_packets + rtp_packets <= u64::MAX
                &&& old(self).rtp_bytes + rtp_bytes <= u64::MAX
            },
        ensures
            final(self).wf(),
            match spec_video_finish(probe.timestamps, now) {
                Err(stage) => {
                    &&& r == VideoRecordOutcome::Incomplete {
                        frame_id: probe.frame_id,
                        missing_stage: stage,
                    }
                    &&& *final(self) == *old(self)
                },
                Ok(timings) => {
                    let acc = old(self).spec_accumulate(rtp_packets, rtp_bytes, timings, now);
                    &&& r == VideoRecordOutcome::Recorded {
                        frame_id: probe.frame_id,
                        pts_ns: probe.pts_ns,
                        timings,
                        report: if acc.spec_window_due(now) {
                            acc.spec_window_report(false, now)
                        } else {
                            None
                        },
                    }
                    &&& *final(self) == if acc.spec_window_due(now) {
                        acc.spec_after_report(now)
                    } else {
                        acc
                    }
                },
            },
    {
        let timings = match probe.finish(now) {
            Ok(timings) => timings,
            Err(stage) => {
                return VideoRecordOutcome::Incomplete {
                    frame_id: probe.frame_id,
                    missing_stage: stage,
                };
            },
        };
        proof {
            lemma_video_totals_grow(self.totals, self.frames, timings);
        }
        if self.window_started.is_none() {
            self.window_started = Some(now);
        }
        self.frames = self.frames + 1;
        self.rtp_packets = self.rtp_packets + rtp_packets;
        self.rtp_bytes = self.rtp_bytes + rtp_bytes;
        self.totals.add(&timings);
        let due = match self.window_started {
            Some(started) => elapsed(started, now) >= REPORT_WINDOW_NS,
            None => false,
        };
        let report = if due {
            self.report_window(false, now)
        } else {
            None
        };
        VideoRecordOutcome::Recorded {
            frame_id: probe.frame_id,
            pts_ns: probe.pts_ns,
            timings,
            report,
        }
    }

    /// Closes the current window with a partial report; a new empty window starts at `now`.
    pub fn finish(&mut self, now: u64) -> (r: Option<VideoWindowReport>)
        requires
            old(self).wf(),
        ensures
            r == old(self).spec_window_report(true, now),
            *final(self) == old(self).spec_after_report(now),
            final(self).wf(),
    {
        self.report_window(true, now)
    }

    /// Reports the current window, if it holds frames, and starts a new empty one at `now`.
    pub fn report_window(&mut self, partial: bool, now: u64) -> (r: Option<VideoWindowReport>)
        requires
            old(self).wf(),
        ensures
            r == old(self).spec_window_report(partial, now),
            *final(self) == old(self).spec_after_report(now),
            final(self).wf(),
    {
        let started = match self.window_started {
            Some(started) => started,
            None => {
                return None;
            },
        };
        if self.frames == 0 {
            return None;
        }
        let report = VideoWindowReport {
            partial,
            window_ns: elapsed(started, now),
            frames: self.frames,
            rtp_packets: self.rtp_packets,
            rtp_bytes: self.rtp_bytes,
            totals: self.totals,
        };
        self.window_started = Some(now);
        self.frames = 0;
        self.rtp_packets = 0;
        self.rtp_bytes = 0;
        self.totals = VideoProbeStageTotals::zero();
        Some(report)
    }
}

proof fn lemma_video_totals_grow(t: VideoProbeStageTotals, frames: u64, x: VideoFrameTimings)
    requires
        video_totals_bounded(t, frames),
        frames < u64::MAX,
    ensures
        video_totals_bounded(spec_add_video_timings(t, x), (frames + 1) as u64),
        frames * u64::MAX + u64::MAX <= u128::MAX,
{
    assert(frames * u64::MAX + u64::MAX == (frames + 1) * u64::MAX) by (nonlinear_arith);
    assert((frames + 1) * u64::MAX <= u64::MAX * u64::MAX) by (nonlinear_arith)
        requires
            frames < u64::MAX,
    ;
}


/// Reporting a window that holds frames starts a new empty window at the
/// report time, which is not earlier than the start of the window it closes
/// when the clock does not run backwards; a reporter without an open window
/// or without frames is left as it was.
pub proof fn report_restarts_the_window(r: VideoProbeReporter, now: u64)
    requires
        r.window_started matches Some(start) ==> start <= now,
    ensures
        r.window_started is None || r.frames == 0 ==> r.spec_after_report(now) == r,
        r.window_started is Some && r.frames != 0 ==> {
            let n = r.spec_after_report(now);
            &&& n.window_started == Some(now)
            &&& r.window_started->0 <= now
            &&& n.frames == 0
            &&& n.rtp_packets == 0
            &&& n.rtp_bytes == 0
            &&& n.totals == zero_video_totals()
            
        },
{
}

} // verus!
