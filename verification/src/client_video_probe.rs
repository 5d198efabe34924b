//! Per-frame latency probe of the client video path: decoder queue, decode,
//! presentation, DMA-BUF import and render, plus the throughput window that
//! accumulates completed frames.
//!
//! Timestamps are monotonic clock readings in nanoseconds; durations are
//! nanoseconds.
use vstd::prelude::*;

use crate::geometry::ScreenId;

verus! {

/// Length of the interval from `start` to `end`, or zero when `end` precedes `start`.
pub open spec fn spec_elapsed(start: u64, end: u64) -> u64 {
    if end >= start {
        (end - start) as u64
    } else {
        0
    }
}

/// Assigns consecutive frame identifiers to submitted client frames.
#[derive(Debug)]
pub struct ClientVideoProbeClock {
    pub next_frame_id: u64,
}

impl Default for ClientVideoProbeClock {
    fn default() -> (clock: Self)
        ensures
            clock.next_frame_id == 0,
    {
        ClientVideoProbeClock { next_frame_id: 0 }
    }
}

/// Clock readings of one client frame as it moves through the decoder and renderer.
#[derive(Debug, Clone, Copy, PartialEq, Eq)]
pub struct ClientVideoFrameTimestamps {
    pub decoder_submitted: u64,
    pub decoder_entered: Option<u64>,
    pub decoder_completed: Option<u64>,
    pub gui_received: Option<u64>,
    pub dma_buf_import_started: Option<u64>,
    pub dma_buf_import_completed: Option<u64>,
    pub render_started: Option<u64>,
    pub render_completed: Option<u64>,
}

/// Probe that follows one encoded frame from submission to the decoder until it is rendered.
#[derive(Debug, Clone, Copy, PartialEq, Eq)]
pub struct ClientVideoFrameProbe {
    pub frame_id: u64,
    pub rtp_packets: u64,
    pub rtp_bytes: u64,
    pub timestamps: ClientVideoFrameTimestamps,
}

/// Stage durations of one completed client frame, in nanoseconds.
#[derive(Debug, Clone, Copy, PartialEq, Eq)]
pub struct ClientVideoFrameTimings {
    pub decoder_queue: u64,
    pub decode: u64,
    pub presentation_queue: u64,
    pub dma_buf_import_queue: u64,
    pub dma_buf_import: u64,
    pub render_queue: u64,
    pub render: u64,
    pub client_latency: u64,
}

/// Accumulated stage durations of the frames in one throughput window, in nanoseconds.
#[derive(Debug, Clone, Copy, PartialEq, Eq)]
pub struct ClientVideoProbeStageTotals {
    pub decoder_queue: u128,
    pub decode: u128,
    pub presentation_queue: u128,
    pub dma_buf_import_queue: u128,
    pub dma_buf_import: u128,
    pub render_queue: u128,
    pub render: u128,
    pub client_latency: u128,
}

/// What a finished throughput window reports.
#[derive(Debug, Clone, Copy, PartialEq, Eq)]
pub struct ClientVideoWindowReport {
    pub partial: bool,
    pub window_ns: u64,
    pub frames: u64,
    pub rtp_packets: u64,
    pub rtp_bytes: u64,
    pub totals: ClientVideoProbeStageTotals,
}

/// What recording one frame produced.
#[derive(Debug, Clone, Copy, PartialEq, Eq)]
pub enum ClientVideoRecordOutcome {
    /// The probe misses the named stage; nothing was accumulated.
    Incomplete { screen_id: ScreenId, frame_id: u64, missing_stage: &'static str },
    /// The frame was accumulated; `report` holds the window that closed because of it.
    Recorded {
        screen_id: ScreenId,
        frame_id: u64,
        timings: ClientVideoFrameTimings,
        report: Option<ClientVideoWindowReport>,
    },
}

/// Accumulates completed client frames and closes a window once `report_interval_ns` has passed.
#[derive(Debug, Clone, Copy, PartialEq, Eq)]
pub struct ClientVideoProbeReporter {
    pub report_interval_ns: u64,
    pub window_started: Option<u64>,
    pub frames: u64,
    pub rtp_packets: u64,
    pub rtp_bytes: u64,
    pub totals: ClientVideoProbeStageTotals,
}

pub open spec fn zero_client_totals() -> ClientVideoProbeStageTotals {
    ClientVideoProbeStageTotals {
        decoder_queue: 0,
        decode: 0,
        presentation_queue: 0,
        dma_buf_import_queue: 0,
        dma_buf_import: 0,
        render_queue: 0,
        render: 0,
        client_latency: 0,
    }
}

/// The stage timings of a probe, or the first stage (in path order) whose timestamp is missing.
pub open spec fn spec_client_finish(t: ClientVideoFrameTimestamps) -> Result<
    ClientVideoFrameTimings,
    &'static str,
> {
    if t.decoder_entered is None {
        Err("decoder_entered")
    } else if t.decoder_completed is None {
        Err("decoder_completed")
    } else if t.gui_received is None {
        Err("gui_received")
    } else if t.dma_buf_import_started is None {
        Err("dma_buf_import_started")
    } else if t.dma_buf_import_completed is None {
        Err("dma_buf_import_completed")
    } else if t.render_started is None {
        Err("render_started")
    } else if t.render_completed is None {
        Err("render_completed")
    } else {
        let entered = t.decoder_entered.unwrap();
        let completed = t.decoder_completed.unwrap();
        let gui = t.gui_received.unwrap();
        let import_started = t.dma_buf_import_started.unwrap();
        let import_completed = t.dma_buf_import_completed.unwrap();
        let render_started = t.render_started.unwrap();
        let render_completed = t.render_completed.unwrap();
        Ok(
            ClientVideoFrameTimings {
                decoder_queue: spec_elapsed(t.decoder_submitted, entered),
                decode: spec_elapsed(entered, completed),
                presentation_queue: spec_elapsed(completed, gui),
                dma_buf_import_queue: spec_elapsed(gui, import_started),
                dma_buf_import: spec_elapsed(import_started, import_completed),
                render_queue: spec_elapsed(import_completed, render_started),
                render: spec_elapsed(render_started, render_completed),
                client_latency: spec_elapsed(t.decoder_submitted, render_completed),
            },
        )
    }
}

pub open spec fn spec_add_client_timings(
    t: ClientVideoProbeStageTotals,
    x: ClientVideoFrameTimings,
) -> ClientVideoProbeStageTotals {
    ClientVideoProbeStageTotals {
        decoder_queue: (t.decoder_queue + x.decoder_queue) as u128,
        decode: (t.decode + x.decode) as u128,
        presentation_queue: (t.presentation_queue + x.presentation_queue) as u128,
        dma_buf_import_queue: (t.dma_buf_import_queue + x.dma_buf_import_queue) as u128,
        dma_buf_import: (t.dma_buf_import + x.dma_buf_import) as u128,
        render_queue: (t.render_queue + x.render_queue) as u128,
        render: (t.render + x.render) as u128,
        client_latency: (t.client_latency + x.client_latency) as u128,
    }
}

/// Every total is bounded by what `frames` durations of at most `u64::MAX` can add up to.
pub open spec fn client_totals_bounded(t: ClientVideoProbeStageTotals, frames: u64) -> bool {
    let bound = frames * u64::MAX;
    &&& t.decoder_queue <= bound
    &&& t.decode <= bound
    &&& t.presentation_queue <= bound
    &&& t.dma_buf_import_queue <= bound
    &&& t.dma_buf_import <= bound
    &&& t.render_queue <= bound
    &&& t.render <= bound
    &&& t.client_latency <= bound
}

impl ClientVideoProbeStageTotals {
    pub fn zero() -> (totals: Self)
        ensures
            totals == zero_client_totals(),
    {
        ClientVideoProbeStageTotals {
            decoder_queue: 0,
            decode: 0,
            presentation_queue: 0,
            dma_buf_import_queue: 0,
            dma_buf_import: 0,
            render_queue: 0,
            render: 0,
            client_latency: 0,
        }
    }

    /// Adds the stage durations of one frame to the totals.
    pub fn add(&mut self, timings: &ClientVideoFrameTimings)
        requires
            old(self).decoder_queue + timings.decoder_queue <= u128::MAX,
            old(self).decode + timings.decode <= u128::MAX,
            old(self).presentation_queue + timings.presentation_queue <= u128::MAX,
            old(self).dma_buf_import_queue + timings.dma_buf_import_queue <= u128::MAX,
            old(self).dma_buf_import + timings.dma_buf_import <= u128::MAX,
            old(self).render_queue + timings.render_queue <= u128::MAX,
            old(self).render + timings.render <= u128::MAX,
            old(self).client_latency + timings.client_latency <= u128::MAX,
        ensures
            *final(self) == spec_add_client_timings(*old(self), *timings),
    {
        self.decoder_queue = self.decoder_queue + timings.decoder_queue as u128;
        self.decode = self.decode + timings.decode as u128;
        self.presentation_queue = self.presentation_queue + timings.presentation_queue as u128;
        self.dma_buf_import_queue = self.dma_buf_import_queue
            + timings.dma_buf_import_queue as u128;
        self.dma_buf_import = self.dma_buf_import + timings.dma_buf_import as u128;
        self.render_queue = self.render_queue + timings.render_queue as u128;
        self.render = self.render + timings.render as u128;
        self.client_latency = self.client_latency + timings.client_latency as u128;
    }
}

/// The timestamp of a stage, or the stage's name when it was never reached.
pub fn required(timestamp: Option<u64>, stage: &'static str) -> (r: Result<u64, &'static str>)
    ensures
        r == (match timestamp {
            Some(t) => Ok::<u64, &'static str>(t),
            None => Err(stage),
        }),
{
    match timestamp {
        Some(t) => Ok(t),
        None => Err(stage),
    }
}

/// Nanoseconds from `start` to `end`, saturating at zero when `end` is earlier.
pub fn elapsed(start: u64, end: u64) -> (d: u64)
    ensures
        d == spec_elapsed(start, end),
{
    if end >= start {
        end - start
    } else {
        0
    }
}

impl ClientVideoProbeClock {
    /// Starts the probe of the next submitted frame; identifiers count up from zero and
    /// stop at `u64::MAX`.
    pub fn frame(&mut self, rtp_packets: usize, rtp_bytes: usize, submitted_ns: u64) -> (probe:
        ClientVideoFrameProbe)
        ensures
            probe == ClientVideoFrameProbe::spec_new(
                old(self).next_frame_id,
                rtp_packets as u64,
                rtp_bytes as u64,
                submitted_ns,
            ),
            final(self).next_frame_id == (if old(self).next_frame_id == u64::MAX {
                u64::MAX
            } else {
                (old(self).next_frame_id + 1) as u64
            }),
    {
        let frame_id = self.next_frame_id;
        self.next_frame_id = self.next_frame_id.saturating_add(1);
        ClientVideoFrameProbe::new(frame_id, rtp_packets as u64, rtp_bytes as u64, submitted_ns)
    }
}

impl ClientVideoFrameProbe {
    pub open spec fn spec_new(
        frame_id: u64,
        rtp_packets: u64,
        rtp_bytes: u64,
        submitted: u64,
    ) -> ClientVideoFrameProbe {
        ClientVideoFrameProbe {
            frame_id,
            rtp_packets,
            rtp_bytes,
            timestamps: ClientVideoFrameTimestamps {
                decoder_submitted: submitted,
                decoder_entered: None,
                decoder_completed: None,
                gui_received: None,
                dma_buf_import_started: None,
                dma_buf_import_completed: None,
                render_started: None,
                render_completed: None,
            },
        }
    }

    /// A probe submitted at `submitted` that has not reached any later stage.
    pub fn new(frame_id: u64, rtp_packets: u64, rtp_bytes: u64, submitted: u64) -> (probe: Self)
        ensures
            probe == Self::spec_new(frame_id, rtp_packets, rtp_bytes, submitted),
    {
        ClientVideoFrameProbe {
            frame_id,
            rtp_packets,
            rtp_bytes,
            timestamps: ClientVideoFrameTimestamps {
                decoder_submitted: submitted,
                decoder_entered: None,
                decoder_completed: None,
                gui_received: None,
                dma_buf_import_started: None,
                dma_buf_import_completed: None,
                render_started: None,
                render_completed: None,
            },
        }
    }

    pub fn frame_id(&self) -> (id: u64)
        ensures
            id == self.frame_id,
    {
        self.frame_id
    }

    pub fn mark_decoder_entered(&mut self, at: u64)
        ensures
            *final(self) == (ClientVideoFrameProbe {
                timestamps: ClientVideoFrameTimestamps {
                    decoder_entered: Some(at),
                    ..old(self).timestamps
                },
                ..*old(self)
            }),
    {
        self.timestamps.decoder_entered = Some(at);
    }

    pub fn mark_decoder_completed(&mut self, at: u64)
        ensures
            *final(self) == (ClientVideoFrameProbe {
                timestamps: ClientVideoFrameTimestamps {
                    decoder_completed: Some(at),
                    ..old(self).timestamps
                },
                ..*old(self)
            }),
    {
        self.timestamps.decoder_completed = Some(at);
    }

    pub fn mark_gui_received(&mut self, at: u64)
        ensures
            *final(self) == (ClientVideoFrameProbe {
                timestamps: ClientVideoFrameTimestamps {
                    gui_received: Some(at),
                    ..old(self).timestamps
                },
                ..*old(self)
            }),
    {
        self.timestamps.gui_received = Some(at);
    }

    pub fn mark_dma_buf_import_started(&mut self, at: u64)
        ensures
            *final(self) == (ClientVideoFrameProbe {
                timestamps: ClientVideoFrameTimestamps {
                    dma_buf_import_started: Some(at),
                    ..old(self).timestamps
                },
                ..*old(self)
            }),
    {
        self.timestamps.dma_buf_import_started = Some(at);
    }

    pub fn mark_dma_buf_import_completed(&mut self, at: u64)
        ensures
            *final(self) == (ClientVideoFrameProbe {
                timestamps: ClientVideoFrameTimestamps {
                    dma_buf_import_completed: Some(at),
                    ..old(self).timestamps
                },
                ..*old(self)
            }),
    {
        self.timestamps.dma_buf_import_completed = Some(at);
    }

    pub fn mark_render_started(&mut self, at: u64)
        ensures
            *final(self) == (ClientVideoFrameProbe {
                timestamps: ClientVideoFrameTimestamps {
                    render_started: Some(at),
                    ..old(self).timestamps
                },
                ..*old(self)
            }),
    {
        self.timestamps.render_started = Some(at);
    }

    pub fn mark_render_completed(&mut self, at: u64)
        ensures
            *final(self) == (ClientVideoFrameProbe {
                timestamps: ClientVideoFrameTimestamps {
                    render_completed: Some(at),
                    ..old(self).timestamps
                },
                ..*old(self)
            }),
    {
        self.timestamps.render_completed = Some(at);
    }

    /// The stage durations of a completely probed frame, or the first missing stage.
    pub fn finish(&self) -> (r: Result<ClientVideoFrameTimings, &'static str>)
        ensures
            r == spec_client_finish(self.timestamps),
    {
        let t = &self.timestamps;
        let decoder_entered = required(t.decoder_entered, "decoder_entered")?;
        let decoder_completed = required(t.decoder_completed, "decoder_completed")?;
        let gui_received = required(t.gui_received, "gui_received")?;
        let dma_buf_import_started = required(t.dma_buf_import_started, "dma_buf_import_started")?;
        let dma_buf_import_completed = required(
            t.dma_buf_import_completed,
            "dma_buf_import_completed",
        )?;
        let render_started = required(t.render_started, "render_started")?;
        let render_completed = required(t.render_completed, "render_completed")?;
        Ok(
            ClientVideoFrameTimings {
                decoder_queue: elapsed(t.decoder_submitted, decoder_entered),
                decode: elapsed(decoder_entered, decoder_completed),
                presentation_queue: elapsed(decoder_completed, gui_received),
                dma_buf_import_queue: elapsed(gui_received, dma_buf_import_started),
                dma_buf_import: elapsed(dma_buf_import_started, dma_buf_import_completed),
                render_queue: elapsed(dma_buf_import_completed, render_started),
                render: elapsed(render_started, render_completed),
                client_latency: elapsed(t.decoder_submitted, render_completed),
            },
        )
    }
}

impl ClientVideoProbeReporter {
    /// The reporter's counters are consistent: totals fit what `frames` frames can add up to.
    pub open spec fn wf(self) -> bool {
        client_totals_bounded(self.totals, self.frames)
    }

    /// The report of the current window at `now`, if a window with frames is open.
    pub open spec fn spec_window_report(self, partial: bool, now: u64) -> Option<
        ClientVideoWindowReport,
    > {
        match self.window_started {
            None => None,
            Some(started) => if self.frames == 0 {
                None
            } else {
                Some(
                    ClientVideoWindowReport {
                        partial,
                        window_ns: spec_elapsed(started, now),
                        frames: self.frames,
                        rtp_packets: self.rtp_packets,
                        rtp_bytes: self.rtp_bytes,
                        totals: self.totals,
                    },
                )
            },
        }
    }

    /// The reporter after reporting at `now`: a new empty window starts at `now` when a
    /// report was produced, and nothing changes otherwise.
    pub open spec fn spec_after_report(self, now: u64) -> Self {
        if self.window_started is Some && self.frames != 0 {
            ClientVideoProbeReporter {
                window_started: Some(now),
                frames: 0,
                rtp_packets: 0,
                rtp_bytes: 0,
                totals: zero_client_totals(),
                ..self
            }
        } else {
            self
        }
    }

    /// The reporter after accumulating one frame at `now`, before any report.
    pub open spec fn spec_accumulate(
        self,
        probe: ClientVideoFrameProbe,
        timings: ClientVideoFrameTimings,
        now: u64,
    ) -> Self {
        ClientVideoProbeReporter {
            window_started: Some(
                match self.window_started {
                    Some(s) => s,
                    None => now,
                },
            ),
            frames: (self.frames + 1) as u64,
            rtp_packets: (self.rtp_packets + probe.rtp_packets) as u64,
            rtp_bytes: (self.rtp_bytes + probe.rtp_bytes) as u64,
            totals: spec_add_client_timings(self.totals, timings),
            ..self
        }
    }

    /// Whether the window of `self` has lasted at least the report interval at `now`.
    pub open spec fn spec_window_due(self, now: u64) -> bool {
        match self.window_started {
            Some(started) => spec_elapsed(started, now) >= self.report_interval_ns,
            None => false,
        }
    }

    pub fn new(report_interval_ns: u64) -> (r: Self)
        ensures
            r == (ClientVideoProbeReporter {
                report_interval_ns,
                window_started: None,
                frames: 0,
                rtp_packets: 0,
                rtp_bytes: 0,
                totals: zero_client_totals(),
            }),
            r.wf(),
    {
        ClientVideoProbeReporter {
            report_interval_ns,
            window_started: None,
            frames: 0,
            rtp_packets: 0,
            rtp_bytes: 0,
            totals: ClientVideoProbeStageTotals::zero(),
        }
    }

    /// Accumulates a completely probed frame into the current window (opening it at `now`
    /// if none is open) and closes the window once it has lasted the report interval.
    /// An incomplete probe is reported and otherwise ignored.
    pub fn record_frame(&mut self, screen_id: ScreenId, probe: ClientVideoFrameProbe, now: u64) -> (r:
        ClientVideoRecordOutcome)
        requires
            old(self).wf(),
            spec_client_finish(probe.timestamps) is Ok ==> {
                &&& old(self).frames < u64::MAX
                &&& old(self).rtp_packets + probe.rtp_packets <= u64::MAX
                &&& old(self).rtp_bytes + probe.rtp_bytes <= u64::MAX
            },
        ensures
            final(self).wf(),
            match spec_client_finish(probe.timestamps) {
                Err(stage) => {
                    &&& r == ClientVideoRecordOutcome::Incomplete {
                        screen_id,
                        frame_id: probe.frame_id,
                        missing_stage: stage,
                    }
                    &&& *final(self) == *old(self)
                },
                Ok(timings) => {
                    let acc = old(self).spec_accumulate(probe, timings, now);
                    &&& r == ClientVideoRecordOutcome::Recorded {
                        screen_id,
                        frame_id: probe.frame_id,
                        timings,
                        report: if acc.spec_window_due(now) {
                            acc.spec_window_report(false, now)
                        } else {
                            None
                        },
                    }
                    &&& *final(self) == if acc.spec_window_due(now) {
                        acc.spec_after_report(now)
                    } else {
                        acc
                    }
                },
            },
    {
        let timings = match probe.finish() {
            Ok(timings) => timings,
            Err(stage) => {
                return ClientVideoRecordOutcome::Incomplete {
                    screen_id,
                    frame_id: probe.frame_id,
                    missing_stage: stage,
                };
            },
        };
        proof {
            lemma_client_totals_grow(self.totals, self.frames, timings);
        }
        if self.window_started.is_none() {
            self.window_started = Some(now);
        }
        self.frames = self.frames + 1;
        self.rtp_packets = self.rtp_packets + probe.rtp_packets;
        self.rtp_bytes = self.rtp_bytes + probe.rtp_bytes;
        self.totals.add(&timings);
        let due = match self.window_started {
            Some(started) => elapsed(started, now) >= self.report_interval_ns,
            None => false,
        };
        let report = if due {
            self.report_window(false, now)
        } else {
            None
        };
        ClientVideoRecordOutcome::Recorded { screen_id, frame_id: probe.frame_id, timings, report }
    }

    /// Closes the current window with a final, partial report and leaves no window open.
    pub fn finish(&mut self, now: u64) -> (r: Option<ClientVideoWindowReport>)
        requires
            old(self).wf(),
        ensures
            r == old(self).spec_window_report(true, now),
            *final(self) == (ClientVideoProbeReporter {
                window_started: None,
                ..old(self).spec_after_report(now)
            }),
            final(self).wf(),
    {
        let report = self.report_window(true, now);
        self.window_started = None;
        report
    }

    /// Reports the current window, if it holds frames, and starts a new empty one at `now`.
    pub fn report_window(&mut self, partial: bool, now: u64) -> (r: Option<
        ClientVideoWindowReport,
    >)
        requires
            old(self).wf(),
        ensures
            r == old(self).spec_window_report(partial, now),
            *final(self) == old(self).spec_after_report(now),
            final(self).wf(),
    {
        let started = match self.window_started {
            Some(started) => started,
            None => {
                return None;
            },
        };
        if self.frames == 0 {
            return None;
        }
        let report = ClientVideoWindowReport {
            partial,
            window_ns: elapsed(started, now),
            frames: self.frames,
            rtp_packets: self.rtp_packets,
            rtp_bytes: self.rtp_bytes,
            totals: self.totals,
        };
        self.window_started = Some(now);
        self.frames = 0;
        self.rtp_packets = 0;
        self.rtp_bytes = 0;
        self.totals = ClientVideoProbeStageTotals::zero();
        Some(report)
    }
}

/// Adding one frame's durations keeps the totals within the bound for one more frame.
proof fn lemma_client_totals_grow(
    t: ClientVideoProbeStageTotals,
    frames: u64,
    x: ClientVideoFrameTimings,
)
    requires
        client_totals_bounded(t, frames),
        frames < u64::MAX,
    ensures
        client_totals_bounded(spec_add_client_timings(t, x), (frames + 1) as u64),
        frames * u64::MAX + u64::MAX <= u128::MAX,
{
    assert(frames * u64::MAX + u64::MAX == (frames + 1) * u64::MAX) by (nonlinear_arith);
    assert((frames + 1) * u64::MAX <= u64::MAX * u64::MAX) by (nonlinear_arith)
        requires
            frames < u64::MAX,
    ;
}

/// Follows client frames through the hardware decoder: a probe waits from
/// its submission until a buffer enters the decoder, then until a buffer
/// leaves it. Buffers are matched with probes in submission order.
#[derive(Debug)]
pub struct ClientDecodeProbeQueue {
    pub clock: ClientVideoProbeClock,
    pub submitted: Vec<ClientVideoFrameProbe>,
    pub entered: Vec<ClientVideoFrameProbe>,
}

/// The probe with its decoder-entered time.
pub open spec fn spec_entered(probe: ClientVideoFrameProbe, at: u64) -> ClientVideoFrameProbe {
    ClientVideoFrameProbe {
        timestamps: ClientVideoFrameTimestamps { decoder_entered: Some(at), ..probe.timestamps },
        ..probe
    }
}

/// The probe with its decoder-completed time.
pub open spec fn spec_completed(probe: ClientVideoFrameProbe, at: u64) -> ClientVideoFrameProbe {
    ClientVideoFrameProbe {
        timestamps: ClientVideoFrameTimestamps { decoder_completed: Some(at), ..probe.timestamps },
        ..probe
    }
}

impl ClientDecodeProbeQueue {
    pub fn new() -> (q: Self)
        ensures
            q.clock.next_frame_id == 0,
            q.submitted@.len() == 0,
            q.entered@.len() == 0,
    {
        ClientDecodeProbeQueue { clock: ClientVideoProbeClock { next_frame_id: 0 }, submitted: Vec::new(), entered: Vec::new() }
    }

    /// Starts the probe of a frame of `rtp_packets` packets and `rtp_bytes`
    /// bytes handed to the decoder at `now`; it waits for the decoder.
    pub fn submit_frame(&mut self, rtp_packets: usize, rtp_bytes: usize, now: u64)
        ensures
            final(self).submitted@ == old(self).submitted@.push(
                ClientVideoFrameProbe::spec_new(old(self).clock.next_frame_id, rtp_packets as u64, rtp_bytes as u64, now),
            ),
            final(self).entered@ == old(self).entered@,
            final(self).clock.next_frame_id == (if old(self).clock.next_frame_id == u64::MAX {
                u64::MAX
            } else {
                (old(self).clock.next_frame_id + 1) as u64
            }),
    {
        let probe = self.clock.frame(rtp_packets, rtp_bytes, now);
        self.submitted.push(probe);
    }

    /// A buffer entered the decoder at `at`: the oldest waiting probe moves
    /// on, stamped. The result is false when no probe was waiting.
    pub fn decoder_entered(&mut self, at: u64) -> (matched: bool)
        ensures
            matched == (old(self).submitted@.len() > 0),
            matched ==> final(self).submitted@ == old(self).submitted@.drop_first()
                && final(self).entered@ == old(self).entered@.push(spec_entered(old(self).submitted@[0], at)),
            !matched ==> final(self).submitted@ == old(self).submitted@ && final(self).entered@
                == old(self).entered@,
            final(self).clock.next_frame_id == old(self).clock.next_frame_id,
    {
        if self.submitted.len() == 0 {
            return false;
        }
        let mut probe = self.submitted.remove(0);
        probe.mark_decoder_entered(at);
        self.entered.push(probe);
        proof {
            assert(self.submitted@ =~= old(self).submitted@.drop_first());
        }
        true
    }

    /// A buffer left the decoder at `at`: the oldest probe inside the decoder
    /// is complete, stamped; `None` when no probe was inside.
    pub fn decoder_completed(&mut self, at: u64) -> (done: Option<ClientVideoFrameProbe>)
        ensures
            done == (if old(self).entered@.len() > 0 {
                Some(spec_completed(old(self).entered@[0], at))
            } else {
                None::<ClientVideoFrameProbe>
            }),
            old(self).entered@.len() > 0 ==> final(self).entered@ == old(self).entered@.drop_first(),
            old(self).entered@.len() == 0 ==> final(self).entered@ == old(self).entered@,
            final(self).submitted@ == old(self).submitted@,
            final(self).clock.next_frame_id == old(self).clock.next_frame_id,
    {
        if self.entered.len() == 0 {
            return None;
        }
        let mut probe = self.entered.remove(0);
        probe.mark_decoder_completed(at);
        proof {
            assert(self.entered@ =~= old(self).entered@.drop_first());
        }
        Some(probe)
    }
}


/// Reporting a window that holds frames starts a new empty window at the
/// report time, which is not earlier than the start of the window it closes
/// when the clock does not run backwards; a reporter without an open window
/// or without frames is left as it was.
pub proof fn client_report_restarts_the_window(r: ClientVideoProbeReporter, now: u64)
    requires
        r.window_started matches Some(start) ==> start <= now,
    ensures
        r.window_started is None || r.frames == 0 ==> r.spec_after_report(now) == r,
        r.window_started is Some && r.frames != 0 ==> {
            let n = r.spec_after_report(now);
            &&& n.window_started == Some(now)
            &&& r.window_started->0 <= now
            &&& n.frames == 0
            &&& n.rtp_packets == 0
            &&& n.rtp_bytes == 0
            &&& n.totals == zero_client_totals()
            &&& n.report_interval_ns == r.report_interval_ns
        },
{
}

} // verus!
