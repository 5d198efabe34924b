//! Frame-pipeline fan-out: one source publishes processed frames to every
//! subscriber, and a subscriber that falls behind only ever sees the latest
//! frame.
//!
//! Subscribers are addressed by the index returned from `subscribe`. The waker
//! type `W` is opaque here: the publisher stores the waker of a pending poll and
//! hands the stored wakers back when new state arrives, so the caller can wake
//! them.
use vstd::prelude::*;
use std::rc::Rc;
use crate::geometry::{PixelSize, ScreenId};

verus! {

/// State shared between the publisher and one subscription.
pub struct FrameSubscriptionState<F, E, W> {
    /// Frame published since the last poll, if any.
    pub latest: Option<Rc<F>>,
    /// Failure not yet reported to the subscriber.
    pub failure: Option<Rc<E>>,
    /// Waker of the last poll that found nothing to deliver.
    pub waker: Option<W>,
    /// No further frames will be published to this subscription.
    pub closed: bool,
    /// The publisher still delivers frames to this subscription.
    pub attached: bool,
}

/// Result of polling a subscription.
pub enum FramePoll<F, E> {
    Failed(Rc<E>),
    Frame(Rc<F>),
    Ended,
    Pending,
}

/// Publisher that keeps only the latest frame for each subscriber.
pub struct LatestFramePublisher<F, E, W> {
    /// One slot per subscription ever created; `None` once it was dropped.
    pub subscriptions: Vec<Option<FrameSubscriptionState<F, E, W>>>,
    pub failure: Option<Rc<E>>,
    pub closed: bool,
}

/// Slot after a frame was published.
pub open spec fn spec_publish_slot<F, E, W>(
    slot: Option<FrameSubscriptionState<F, E, W>>,
    frame: Rc<F>,
) -> Option<FrameSubscriptionState<F, E, W>> {
    match slot {
        Some(s) => if s.attached {
            Some(FrameSubscriptionState { latest: Some(frame), waker: None, ..s })
        } else {
            Some(s)
        },
        None => None,
    }
}

/// Slot after the publisher was closed.
pub open spec fn spec_close_slot<F, E, W>(
    slot: Option<FrameSubscriptionState<F, E, W>>,
) -> Option<FrameSubscriptionState<F, E, W>> {
    match slot {
        Some(s) => if s.attached {
            Some(FrameSubscriptionState { closed: true, waker: None, attached: false, ..s })
        } else {
            Some(s)
        },
        None => None,
    }
}

/// Slot after the publisher failed.
pub open spec fn spec_fail_slot<F, E, W>(
    slot: Option<FrameSubscriptionState<F, E, W>>,
    failure: Rc<E>,
) -> Option<FrameSubscriptionState<F, E, W>> {
    match slot {
        Some(s) => if s.attached {
            Some(
                FrameSubscriptionState {
                    latest: None,
                    failure: Some(failure),
                    closed: true,
                    waker: None,
                    attached: false,
                },
            )
        } else {
            Some(s)
        },
        None => None,
    }
}

/// Wakers that an update of every attached slot takes, in slot order.
pub open spec fn spec_attached_wakers<F, E, W>(
    slots: Seq<Option<FrameSubscriptionState<F, E, W>>>,
) -> Seq<W>
    decreases slots.len(),
{
    if slots.len() == 0 {
        Seq::empty()
    } else {
        let rest = spec_attached_wakers(slots.drop_last());
        match slots.last() {
            Some(s) => if s.attached && s.waker is Some {
                rest.push(s.waker->0)
            } else {
                rest
            },
            None => rest,
        }
    }
}

/// Subscription state and result of one poll.
pub open spec fn spec_poll<F, E, W>(s: FrameSubscriptionState<F, E, W>, waker: W) -> (
    FrameSubscriptionState<F, E, W>,
    FramePoll<F, E>,
) {
    match s.failure {
        Some(f) => (FrameSubscriptionState { failure: None, ..s }, FramePoll::Failed(f)),
        None => match s.latest {
            Some(frame) => (FrameSubscriptionState { latest: None, ..s }, FramePoll::Frame(frame)),
            None => if s.closed {
                (s, FramePoll::Ended)
            } else {
                (FrameSubscriptionState { waker: Some(waker), ..s }, FramePoll::Pending)
            },
        },
    }
}

/// State of a subscription created now.
pub open spec fn spec_new_subscription<F, E, W>(
    failure: Option<Rc<E>>,
    closed: bool,
) -> FrameSubscriptionState<F, E, W> {
    FrameSubscriptionState { latest: None, failure, waker: None, closed, attached: true }
}

fn share_failure<E>(failure: &Option<Rc<E>>) -> (r: Option<Rc<E>>)
    ensures
        r == *failure,
{
    match failure {
        Some(f) => Some(Rc::clone(f)),
        None => None,
    }
}

impl<F, E, W> LatestFramePublisher<F, E, W> {
    /// A publisher without subscribers that is still open.
    pub fn new() -> (p: Self)
        ensures
            p.subscriptions@.len() == 0,
            p.failure is None,
            !p.closed,
    {
        LatestFramePublisher { subscriptions: Vec::new(), failure: None, closed: false }
    }

    /// Adds a subscription and returns its index. It starts without a frame
    /// and inherits the publisher's failure and closed state.
    pub fn subscribe(&mut self) -> (id: usize)
        requires
            old(self).subscriptions@.len() < usize::MAX,
        ensures
            id == old(self).subscriptions@.len(),
            final(self).subscriptions@ == old(self).subscriptions@.push(
                Some(spec_new_subscription(old(self).failure, old(self).closed)),
            ),
            final(self).failure == old(self).failure,
            final(self).closed == old(self).closed,
    {
        let id = self.subscriptions.len();
        let failure = share_failure(&self.failure);
        self.subscriptions.push(
            Some(
                FrameSubscriptionState {
                    latest: None,
                    failure,
                    waker: None,
                    closed: self.closed,
                    attached: true,
                },
            ),
        );
        id
    }

    /// Drops a subscription; the publisher stops delivering to it.
    pub fn unsubscribe(&mut self, id: usize)
        requires
            id < old(self).subscriptions@.len(),
        ensures
            final(self).subscriptions@ == old(self).subscriptions@.update(id as int, None),
            final(self).failure == old(self).failure,
            final(self).closed == old(self).closed,
    {
        self.subscriptions.set(id, None);
    }

    /// Makes `frame` the latest frame of every attached subscription and
    /// returns the wakers of the subscriptions that were waiting.
    pub fn publish(&mut self, frame: F) -> (woken: Vec<W>)
        ensures
            final(self).subscriptions@.len() == old(self).subscriptions@.len(),
            forall|i: int|
                0 <= i < old(self).subscriptions@.len() ==> #[trigger] final(self).subscriptions@[i]
                    == spec_publish_slot(old(self).subscriptions@[i], Rc::new(frame)),
            woken@ == spec_attached_wakers(old(self).subscriptions@),
            final(self).failure == old(self).failure,
            final(self).closed == old(self).closed,
    {
        let frame = Rc::new(frame);
        let mut woken: Vec<W> = Vec::new();
        let n = self.subscriptions.len();
        let mut i: usize = 0;
        while i < n
            invariant
                n == old(self).subscriptions@.len(),
                i <= n,
                self.subscriptions@.len() == n,
                self.failure == old(self).failure,
                self.closed == old(self).closed,
                forall|j: int|
                    0 <= j < i ==> #[trigger] self.subscriptions@[j] == spec_publish_slot(
                        old(self).subscriptions@[j],
                        frame,
                    ),
                forall|j: int| i <= j < n ==> #[trigger] self.subscriptions@[j] == old(self).subscriptions@[j],
                woken@ == spec_attached_wakers(old(self).subscriptions@.take(i as int)),
            decreases n - i,
        {
            proof {
                assert(old(self).subscriptions@.take(i as int + 1).drop_last()
                    =~= old(self).subscriptions@.take(i as int));
            }
            let slot = &mut self.subscriptions[i];
            match slot {
                Some(state) => {
                    if state.attached {
                        state.latest = Some(Rc::clone(&frame));
                        match state.waker.take() {
                            Some(w) => woken.push(w),
                            None => {},
                        }
                    }
                },
                None => {},
            }
            i = i + 1;
        }
        proof {
            assert(old(self).subscriptions@.take(n as int) =~= old(self).subscriptions@);
        }
        woken
    }
    /// Closes every attached subscription and returns the wakers of the
    /// subscriptions that were waiting. Frames they already hold stay.
    pub fn close(&mut self) -> (woken: Vec<W>)
        ensures
            final(self).subscriptions@.len() == old(self).subscriptions@.len(),
            forall|i: int|
                0 <= i < old(self).subscriptions@.len() ==> #[trigger] final(self).subscriptions@[i]
                    == spec_close_slot(old(self).subscriptions@[i]),
            woken@ == spec_attached_wakers(old(self).subscriptions@),
            final(self).failure == old(self).failure,
            final(self).closed,
    {
        self.closed = true;
        let mut woken: Vec<W> = Vec::new();
        let n = self.subscriptions.len();
        let mut i: usize = 0;
        while i < n
            invariant
                n == old(self).subscriptions@.len(),
                i <= n,
                self.subscriptions@.len() == n,
                self.failure == old(self).failure,
                self.closed,
                forall|j: int|
                    0 <= j < i ==> #[trigger] self.subscriptions@[j] == spec_close_slot(
                        old(self).subscriptions@[j],
                    ),
                forall|j: int| i <= j < n ==> #[trigger] self.subscriptions@[j] == old(self).subscriptions@[j],
                woken@ == spec_attached_wakers(old(self).subscriptions@.take(i as int)),
            decreases n - i,
        {
            proof {
                assert(old(self).subscriptions@.take(i as int + 1).drop_last()
                    =~= old(self).subscriptions@.take(i as int));
            }
            let slot = &mut self.subscriptions[i];
            match slot {
                Some(state) => {
                    if state.attached {
                        state.closed = true;
                        state.attached = false;
                        match state.waker.take() {
                            Some(w) => woken.push(w),
                            None => {},
                        }
                    }
                },
                None => {},
            }
            i = i + 1;
        }
        proof {
            assert(old(self).subscriptions@.take(n as int) =~= old(self).subscriptions@);
        }
        woken
    }

    /// Records `failure`, reports it to every attached subscription in place of
    /// any frame it held, closes them and returns the wakers of those waiting.
    pub fn fail(&mut self, failure: E) -> (woken: Vec<W>)
        ensures
            final(self).subscriptions@.len() == old(self).subscriptions@.len(),
            forall|i: int|
                0 <= i < old(self).subscriptions@.len() ==> #[trigger] final(self).subscriptions@[i]
                    == spec_fail_slot(old(self).subscriptions@[i], Rc::new(failure)),
            woken@ == spec_attached_wakers(old(self).subscriptions@),
            final(self).failure == Some(Rc::new(failure)),
            final(self).closed,
    {
        let failure = Rc::new(failure);
        self.failure = Some(Rc::clone(&failure));
        self.closed = true;
        let mut woken: Vec<W> = Vec::new();
        let n = self.subscriptions.len();
        let mut i: usize = 0;
        while i < n
            invariant
                n == old(self).subscriptions@.len(),
                i <= n,
                self.subscriptions@.len() == n,
                self.failure == Some(failure),
                self.closed,
                forall|j: int|
                    0 <= j < i ==> #[trigger] self.subscriptions@[j] == spec_fail_slot(
                        old(self).subscriptions@[j],
                        failure,
                    ),
                forall|j: int| i <= j < n ==> #[trigger] self.subscriptions@[j] == old(self).subscriptions@[j],
                woken@ == spec_attached_wakers(old(self).subscriptions@.take(i as int)),
            decreases n - i,
        {
            proof {
                assert(old(self).subscriptions@.take(i as int + 1).drop_last()
                    =~= old(self).subscriptions@.take(i as int));
            }
            let slot = &mut self.subscriptions[i];
            match slot {
                Some(state) => {
                    if state.attached {
                        state.latest = None;
                        state.failure = Some(Rc::clone(&failure));
                        state.closed = true;
                        state.attached = false;
                        match state.waker.take() {
                            Some(w) => woken.push(w),
                            None => {},
                        }
                    }
                },
                None => {},
            }
            i = i + 1;
        }
        proof {
            assert(old(self).subscriptions@.take(n as int) =~= old(self).subscriptions@);
        }
        woken
    }

    /// Polls subscription `id`: a pending failure comes first, then the latest
    /// frame, then the end of the stream; otherwise `waker` is kept.
    pub fn poll(&mut self, id: usize, waker: W) -> (r: FramePoll<F, E>)
        requires
            id < old(self).subscriptions@.len(),
            old(self).subscriptions@[id as int] is Some,
        ensures
            ({
                let (s, out) = spec_poll(old(self).subscriptions@[id as int]->0, waker);
                &&& final(self).subscriptions@ == old(self).subscriptions@.update(id as int, Some(s))
                &&& r == out
            }),
            final(self).failure == old(self).failure,
            final(self).closed == old(self).closed,
    {
        let slot = &mut self.subscriptions[id];
        match slot {
            Some(state) => {
                match state.failure.take() {
                    Some(f) => FramePoll::Failed(f),
                    None => match state.latest.take() {
                        Some(frame) => FramePoll::Frame(frame),
                        None => if state.closed {
                            FramePoll::Ended
                        } else {
                            state.waker = Some(waker);
                            FramePoll::Pending
                        },
                    },
                }
            },
            None => FramePoll::Ended,
        }
    }
}


/// What a frame pipeline produces.
#[derive(Debug, Clone, Copy, PartialEq, Eq, Hash, Structural)]
pub struct FramePipelineParameters {
    pub frame_size: PixelSize,
}

/// Subscriptions with equal keys share one pipeline source.
#[derive(Debug, Clone, Copy, PartialEq, Eq, Hash, Structural)]
pub struct FramePipelineSourceKey {
    pub screen_id: ScreenId,
    pub parameters: FramePipelineParameters,
}

/// A pipeline source and the number of subscriptions that hold it.
/// A source that failed is no longer registered, but its subscriptions may
/// still hold it.
#[derive(Debug, Clone, Copy, PartialEq, Eq)]
pub struct PipelineSource {
    pub key: FramePipelineSourceKey,
    pub pipeline_id: u64,
    pub subscribers: usize,
    pub registered: bool,
}

/// How a subscription is served.
#[derive(Debug, Clone, Copy, PartialEq, Eq)]
pub enum SubscribePlan {
    /// Share the registered source with this pipeline.
    Reuse { pipeline_id: u64 },
    /// Create a new source; the screen's capture must be acquired first when
    /// `acquire_capture`.
    Create { acquire_capture: bool },
}

/// What the last release of a source leaves behind.
#[derive(Debug, Clone, Copy, PartialEq, Eq)]
pub struct ReleaseOutcome {
    /// The source was the last one held for this screen: stop its capture.
    pub stop_capture: Option<ScreenId>,
    /// No registered source is left: stop the GPU worker.
    pub stop_worker: bool,
}

/// What the failure of a screen's capture leaves behind.
#[derive(Debug, Clone, PartialEq, Eq)]
pub struct ScreenFailureOutcome {
    /// The pipelines that fail, in registration order.
    pub failed_pipelines: Vec<u64>,
    /// The screen's capture was running: stop it.
    pub stop_capture: bool,
    /// No registered source is left: stop the GPU worker.
    pub stop_worker: bool,
}

/// Bookkeeping of the frame-pipeline manager: the sources, the screens
/// whose capture is running, whether the GPU worker runs, and the next
/// pipeline identifier.
pub struct FramePipelineRegistry {
    pub sources: Vec<PipelineSource>,
    pub captured: Vec<ScreenId>,
    pub worker_running: bool,
    pub next_pipeline_id: u64,
}

/// The index of the registered source for `key`.
pub open spec fn spec_registered_index(sources: Seq<PipelineSource>, key: FramePipelineSourceKey) -> Option<int> {
    if exists|i: int| 0 <= i < sources.len() && sources[i].registered && sources[i].key == key {
        Some(choose|i: int| 0 <= i < sources.len() && sources[i].registered && sources[i].key == key)
    } else {
        None
    }
}

/// Whether a registered source captures `screen_id`.
pub open spec fn spec_screen_in_use(sources: Seq<PipelineSource>, screen_id: ScreenId) -> bool {
    exists|i: int| 0 <= i < sources.len() && sources[i].registered && sources[i].key.screen_id == screen_id
}

/// Whether any source is registered.
pub open spec fn spec_any_registered(sources: Seq<PipelineSource>) -> bool {
    exists|i: int| 0 <= i < sources.len() && sources[i].registered
}

impl FramePipelineRegistry {
    /// The registry's invariant: one registered source per key, one source
    /// per pipeline, every source held by a subscription, and every screen
    /// with a registered source captured.
    pub open spec fn wf(self) -> bool {
        &&& forall|i: int, j: int|
            0 <= i < j < self.sources@.len() && self.sources@[i].registered && self.sources@[j].registered
                ==> #[trigger] self.sources@[i].key != #[trigger] self.sources@[j].key
        &&& forall|i: int, j: int|
            0 <= i < j < self.sources@.len() ==> #[trigger] self.sources@[i].pipeline_id
                != #[trigger] self.sources@[j].pipeline_id
        &&& forall|i: int| 0 <= i < self.sources@.len() ==> (#[trigger] self.sources@[i]).subscribers > 0
        &&& forall|i: int|
            0 <= i < self.sources@.len() && (#[trigger] self.sources@[i]).registered
                ==> self.captured@.contains(self.sources@[i].key.screen_id)
        &&& forall|i: int| 0 <= i < self.sources@.len() ==> (#[trigger] self.sources@[i]).pipeline_id
            < self.next_pipeline_id
    }

    pub fn new() -> (r: Self)
        ensures
            r.wf(),
            r.sources@.len() == 0,
            r.captured@.len() == 0,
            !r.worker_running,
            r.next_pipeline_id == 0,
    {
        FramePipelineRegistry { sources: Vec::new(), captured: Vec::new(), worker_running: false, next_pipeline_id: 0 }
    }

    fn registered_index(&self, key: FramePipelineSourceKey) -> (r: Option<usize>)
        ensures
            match r {
                Some(i) => i < self.sources@.len() && self.sources@[i as int].registered
                    && self.sources@[i as int].key == key,
                None => spec_registered_index(self.sources@, key) is None,
            },
    {
        let mut i: usize = 0;
        while i < self.sources.len()
            invariant
                i <= self.sources@.len(),
                forall|j: int| 0 <= j < i ==> !(self.sources@[j].registered && self.sources@[j].key == key),
            decreases self.sources@.len() - i,
        {
            if self.sources[i].registered && self.sources[i].key == key {
                return Some(i);
            }
            i = i + 1;
        }
        None
    }

    fn is_captured(&self, screen_id: ScreenId) -> (r: bool)
        ensures
            r == self.captured@.contains(screen_id),
    {
        let mut i: usize = 0;
        while i < self.captured.len()
            invariant
                i <= self.captured@.len(),
                forall|j: int| 0 <= j < i ==> self.captured@[j] != screen_id,
            decreases self.captured@.len() - i,
        {
            if self.captured[i] == screen_id {
                return true;
            }
            i = i + 1;
        }
        false
    }

    /// Serves a subscription to `key`: an identical registered source is
    /// shared (one more subscriber); otherwise a new source is needed, and the
    /// screen's capture only if it is not already running.
    pub fn begin_subscribe(&mut self, key: FramePipelineSourceKey) -> (plan: SubscribePlan)
        requires
            old(self).wf(),
            forall|i: int| 0 <= i < old(self).sources@.len() ==> (#[trigger] old(self).sources@[i]).subscribers < usize::MAX,
        ensures
            final(self).wf(),
            final(self).captured@ == old(self).captured@,
            final(self).worker_running == old(self).worker_running,
            final(self).next_pipeline_id == old(self).next_pipeline_id,
            match plan {
                SubscribePlan::Reuse { pipeline_id } => exists|i: int|
                    0 <= i < old(self).sources@.len() && old(self).sources@[i].registered
                        && old(self).sources@[i].key == key && old(self).sources@[i].pipeline_id == pipeline_id
                        && final(self).sources@ == old(self).sources@.update(
                        i,
                        PipelineSource { subscribers: (old(self).sources@[i].subscribers + 1) as usize, ..old(self).sources@[i] },
                    ),
                SubscribePlan::Create { acquire_capture } => spec_registered_index(old(self).sources@, key) is None
                    && acquire_capture == !old(self).captured@.contains(key.screen_id)
                    && final(self).sources@ == old(self).sources@,
            },
    {
        match self.registered_index(key) {
            Some(i) => {
                let source = self.sources[i];
                let pipeline_id = source.pipeline_id;
                self.sources.set(i, PipelineSource { subscribers: source.subscribers + 1, ..source });
                proof {
                    assert forall|a: int, b: int| 0 <= a < b < self.sources@.len() implies #[trigger] self.sources@[a].pipeline_id
                        != #[trigger] self.sources@[b].pipeline_id by {
                        assert(old(self).sources@[a].pipeline_id != old(self).sources@[b].pipeline_id);
                    }
                    assert forall|a: int, b: int|
                        0 <= a < b < self.sources@.len() && self.sources@[a].registered && self.sources@[b].registered
                            implies #[trigger] self.sources@[a].key != #[trigger] self.sources@[b].key by {
                        assert(old(self).sources@[a].key != old(self).sources@[b].key);
                    }
                }
                SubscribePlan::Reuse { pipeline_id }
            },
            None => SubscribePlan::Create { acquire_capture: !self.is_captured(key.screen_id) },
        }
    }

    /// Whether the GPU worker must be started before registering with it;
    /// afterwards it counts as running.
    pub fn ensure_worker(&mut self) -> (start: bool)
        requires
            old(self).wf(),
        ensures
            final(self).wf(),
            start == !old(self).worker_running,
            final(self).worker_running,
            final(self).sources@ == old(self).sources@,
            final(self).captured@ == old(self).captured@,
            final(self).next_pipeline_id == old(self).next_pipeline_id,
    {
        let start = !self.worker_running;
        self.worker_running = true;
        start
    }

    /// A fresh pipeline identifier, unless identifiers are exhausted.
    pub fn allocate_pipeline_id(&mut self) -> (r: Option<u64>)
        requires
            old(self).wf(),
        ensures
            final(self).wf(),
            final(self).sources@ == old(self).sources@,
            final(self).captured@ == old(self).captured@,
            final(self).worker_running == old(self).worker_running,
            match r {
                Some(id) => id == old(self).next_pipeline_id && final(self).next_pipeline_id == id + 1,
                None => old(self).next_pipeline_id == u64::MAX && final(self).next_pipeline_id
                    == old(self).next_pipeline_id,
            },
    {
        match self.next_pipeline_id.checked_add(1) {
            Some(next) => {
                let id = self.next_pipeline_id;
                self.next_pipeline_id = next;
                Some(id)
            },
            None => None,
        }
    }

    /// Registers the new source of pipeline `pipeline_id` for `key` with its
    /// first subscriber, and records the screen's capture as running.
    pub fn add_source(&mut self, key: FramePipelineSourceKey, pipeline_id: u64)
        requires
            old(self).wf(),
            spec_registered_index(old(self).sources@, key) is None,
            pipeline_id < old(self).next_pipeline_id,
            forall|i: int| 0 <= i < old(self).sources@.len() ==> (#[trigger] old(self).sources@[i]).pipeline_id != pipeline_id,
        ensures
            final(self).wf(),
            final(self).sources@ == old(self).sources@.push(
                PipelineSource { key, pipeline_id, subscribers: 1, registered: true },
            ),
            final(self).captured@ == (if old(self).captured@.contains(key.screen_id) {
                old(self).captured@
            } else {
                old(self).captured@.push(key.screen_id)
            }),
            final(self).worker_running == old(self).worker_running,
            final(self).next_pipeline_id == old(self).next_pipeline_id,
    {
        if !self.is_captured(key.screen_id) {
            self.captured.push(key.screen_id);
        }
        let ghost before = self.sources@;
        self.sources.push(PipelineSource { key, pipeline_id, subscribers: 1, registered: true });
        proof {
            assert forall|i: int| 0 <= i < self.sources@.len() && (#[trigger] self.sources@[i]).registered implies self.captured@.contains(
                self.sources@[i].key.screen_id,
            ) by {
                if i < before.len() {
                    assert(old(self).captured@.contains(before[i].key.screen_id));
                    if !old(self).captured@.contains(key.screen_id) {
                        let k = choose|k: int| 0 <= k < old(self).captured@.len() && old(self).captured@[k] == before[i].key.screen_id;
                        assert(self.captured@[k] == before[i].key.screen_id);
                    }
                } else {
                    if !old(self).captured@.contains(key.screen_id) {
                        assert(self.captured@[self.captured@.len() - 1] == key.screen_id);
                    }
                }
            }
            assert forall|i: int, j: int|
                0 <= i < j < self.sources@.len() && self.sources@[i].registered && self.sources@[j].registered
                    implies #[trigger] self.sources@[i].key != #[trigger] self.sources@[j].key by {
                if j == before.len() {
                    assert(!(before[i].registered && before[i].key == key));
                }
            }
        }
    }

    fn pipeline_index(&self, pipeline_id: u64) -> (r: Option<usize>)
        requires
            self.wf(),
        ensures
            r == (match spec_pipeline_index(self.sources@, pipeline_id) {
                Some(i) => Some(i as usize),
                None => None::<usize>,
            }),
            r matches Some(i) ==> i < self.sources@.len() && self.sources@[i as int].pipeline_id == pipeline_id,
    {
        let mut i: usize = 0;
        while i < self.sources.len()
            invariant
                self.wf(),
                i <= self.sources@.len(),
                forall|j: int| 0 <= j < i ==> self.sources@[j].pipeline_id != pipeline_id,
            decreases self.sources@.len() - i,
        {
            if self.sources[i].pipeline_id == pipeline_id {
                proof {
                    let c = choose|j: int| 0 <= j < self.sources@.len() && self.sources@[j].pipeline_id == pipeline_id;
                    if c != i as int {
                        if c < i as int {
                            assert(self.sources@[c].pipeline_id != self.sources@[i as int].pipeline_id);
                        } else {
                            assert(self.sources@[i as int].pipeline_id != self.sources@[c].pipeline_id);
                        }
                    }
                }
                return Some(i);
            }
            i = i + 1;
        }
        None
    }

    fn any_registered(&self) -> (r: bool)
        ensures
            r == spec_any_registered(self.sources@),
    {
        let mut i: usize = 0;
        while i < self.sources.len()
            invariant
                i <= self.sources@.len(),
                forall|j: int| 0 <= j < i ==> !self.sources@[j].registered,
            decreases self.sources@.len() - i,
        {
            if self.sources[i].registered {
                return true;
            }
            i = i + 1;
        }
        false
    }

    fn screen_in_use(&self, screen_id: ScreenId) -> (r: bool)
        ensures
            r == spec_screen_in_use(self.sources@, screen_id),
    {
        let mut i: usize = 0;
        while i < self.sources.len()
            invariant
                i <= self.sources@.len(),
                forall|j: int| 0 <= j < i ==> !(self.sources@[j].registered && self.sources@[j].key.screen_id == screen_id),
            decreases self.sources@.len() - i,
        {
            if self.sources[i].registered && self.sources[i].key.screen_id == screen_id {
                return true;
            }
            i = i + 1;
        }
        false
    }

    /// Forgets the running capture of `screen_id`.
    fn forget_capture(&mut self, screen_id: ScreenId)
        requires
            old(self).wf(),
            !spec_screen_in_use(old(self).sources@, screen_id),
        ensures
            final(self).wf(),
            final(self).sources@ == old(self).sources@,
            final(self).worker_running == old(self).worker_running,
            final(self).next_pipeline_id == old(self).next_pipeline_id,
            forall|s: ScreenId| #[trigger] final(self).captured@.contains(s) == (old(self).captured@.contains(s) && s != screen_id),
    {
        let mut kept: Vec<ScreenId> = Vec::new();
        let mut i: usize = 0;
        while i < self.captured.len()
            invariant
                i <= self.captured@.len(),
                forall|s: ScreenId| #[trigger] kept@.contains(s) == (self.captured@.take(i as int).contains(s) && s != screen_id),
            decreases self.captured@.len() - i,
        {
            let s = self.captured[i];
            let ghost kept_before = kept@;
            proof {
                assert(self.captured@.take(i as int + 1) == self.captured@.take(i as int).push(s));
            }
            if s != screen_id {
                kept.push(s);
            }
            proof {
                broadcast use vstd::seq_lib::lemma_seq_contains_after_push;
                assert forall|t: ScreenId| #[trigger] kept@.contains(t) == (self.captured@.take(i as int + 1).contains(t) && t != screen_id) by {
                    assert(kept_before.contains(t) == (self.captured@.take(i as int).contains(t) && t != screen_id));
                }
            }
            i = i + 1;
        }
        proof {
            assert(self.captured@.take(i as int) == self.captured@);
        }
        self.captured = kept;
        proof {
            assert forall|k: int| 0 <= k < self.sources@.len() && (#[trigger] self.sources@[k]).registered implies self.captured@.contains(
                self.sources@[k].key.screen_id,
            ) by {
                assert(old(self).captured@.contains(old(self).sources@[k].key.screen_id));
                if old(self).sources@[k].key.screen_id == screen_id {
                    assert(spec_screen_in_use(old(self).sources@, screen_id));
                }
            }
        }
    }

    /// Drops one subscription of pipeline `pipeline_id`. When it was the last
    /// one the source goes away; the screen's capture stops once no registered
    /// source uses the screen, and the GPU worker once no source is registered.
    /// An identifier that no source carries changes nothing.
    pub fn release(&mut self, pipeline_id: u64) -> (outcome: ReleaseOutcome)
        requires
            old(self).wf(),
        ensures
            final(self).wf(),
            final(self).next_pipeline_id == old(self).next_pipeline_id,
            match spec_pipeline_index(old(self).sources@, pipeline_id) {
                None => {
                    &&& final(self).sources@ == old(self).sources@
                    &&& final(self).captured@ == old(self).captured@
                    &&& final(self).worker_running == old(self).worker_running
                    &&& outcome == ReleaseOutcome { stop_capture: None, stop_worker: false }
                },
                Some(i) => {
                    let source = old(self).sources@[i];
                    let screen_id = source.key.screen_id;
                    let sources = spec_release_sources(old(self).sources@, i);
                    let last = source.subscribers == 1;
                    let stop_capture = last && !spec_screen_in_use(sources, screen_id)
                        && old(self).captured@.contains(screen_id);
                    let stop_worker = last && !spec_any_registered(sources) && old(self).worker_running;
                    &&& final(self).sources@ == sources
                    &&& forall|s: ScreenId| #[trigger] final(self).captured@.contains(s) == (old(self).captured@.contains(s)
                        && !(s == screen_id && stop_capture))
                    &&& final(self).worker_running == (old(self).worker_running && !stop_worker)
                    &&& outcome.stop_capture == (if stop_capture { Some(screen_id) } else { None })
                    &&& outcome.stop_worker == stop_worker
                },
            },
    {
        let i = match self.pipeline_index(pipeline_id) {
            Some(i) => i,
            None => {
                return ReleaseOutcome { stop_capture: None, stop_worker: false };
            },
        };
        let source = self.sources[i];
        if source.subscribers > 1 {
            self.sources.set(i, PipelineSource { subscribers: source.subscribers - 1, ..source });
            proof {
                assert forall|a: int, b: int| 0 <= a < b < self.sources@.len() implies #[trigger] self.sources@[a].pipeline_id
                    != #[trigger] self.sources@[b].pipeline_id by {
                    assert(old(self).sources@[a].pipeline_id != old(self).sources@[b].pipeline_id);
                }
                assert forall|a: int, b: int|
                    0 <= a < b < self.sources@.len() && self.sources@[a].registered && self.sources@[b].registered
                        implies #[trigger] self.sources@[a].key != #[trigger] self.sources@[b].key by {
                    assert(old(self).sources@[a].key != old(self).sources@[b].key);
                }
            }
            return ReleaseOutcome { stop_capture: None, stop_worker: false };
        }
        let ghost before = self.sources@;
        self.sources.remove(i);
        proof {
            assert(self.sources@ == before.remove(i as int));
            assert forall|a: int, b: int| 0 <= a < b < self.sources@.len() implies #[trigger] self.sources@[a].pipeline_id
                != #[trigger] self.sources@[b].pipeline_id by {
                let oa = if a < i { a } else { a + 1 };
                let ob = if b < i { b } else { b + 1 };
                assert(before[oa].pipeline_id != before[ob].pipeline_id);
            }
            assert forall|a: int, b: int|
                0 <= a < b < self.sources@.len() && self.sources@[a].registered && self.sources@[b].registered
                    implies #[trigger] self.sources@[a].key != #[trigger] self.sources@[b].key by {
                let oa = if a < i { a } else { a + 1 };
                let ob = if b < i { b } else { b + 1 };
                assert(before[oa].key != before[ob].key);
            }
            assert forall|k: int| 0 <= k < self.sources@.len() && (#[trigger] self.sources@[k]).registered implies self.captured@.contains(
                self.sources@[k].key.screen_id,
            ) by {
                let ok = if k < i { k } else { k + 1 };
                assert(before[ok] == self.sources@[k]);
            }
            assert forall|k: int| 0 <= k < self.sources@.len() implies (#[trigger] self.sources@[k]).subscribers > 0
                && self.sources@[k].pipeline_id < self.next_pipeline_id by {
                let ok = if k < i { k } else { k + 1 };
                assert(before[ok] == self.sources@[k]);
            }
        }
        let screen_id = source.key.screen_id;
        let mut stop_capture: Option<ScreenId> = None;
        if !self.screen_in_use(screen_id) {
            if self.is_captured(screen_id) {
                stop_capture = Some(screen_id);
            }
            self.forget_capture(screen_id);
        }
        let mut stop_worker = false;
        if !self.any_registered() && self.worker_running {
            self.worker_running = false;
            stop_worker = true;
        }
        ReleaseOutcome { stop_capture, stop_worker }
    }

    /// The capture of `screen_id` failed: every registered source of the
    /// screen fails and is unregistered (its subscriptions still hold it until
    /// they are released), the screen's capture stops, and the GPU worker stops
    /// once no source is registered.
    pub fn screen_failed(&mut self, screen_id: ScreenId) -> (outcome: ScreenFailureOutcome)
        requires
            old(self).wf(),
        ensures
            final(self).wf(),
            final(self).next_pipeline_id == old(self).next_pipeline_id,
            final(self).sources@ == spec_fail_screen_sources(old(self).sources@, screen_id),
            outcome.failed_pipelines@ == spec_failed_pipelines(old(self).sources@, screen_id),
            !spec_screen_in_use(final(self).sources@, screen_id),
            outcome.stop_capture == old(self).captured@.contains(screen_id),
            forall|s: ScreenId| #[trigger] final(self).captured@.contains(s) == (old(self).captured@.contains(s) && s != screen_id),
            outcome.stop_worker == (old(self).worker_running && !spec_any_registered(final(self).sources@)),
            final(self).worker_running == (old(self).worker_running && spec_any_registered(final(self).sources@)),
    {
        let mut failed: Vec<u64> = Vec::new();
        let mut i: usize = 0;
        let ghost before = self.sources@;
        while i < self.sources.len()
            invariant
                i <= self.sources@.len(),
                self.sources@.len() == before.len(),
                before == old(self).sources@,
                self.captured@ == old(self).captured@,
                self.worker_running == old(self).worker_running,
                self.next_pipeline_id == old(self).next_pipeline_id,
                self.sources@.take(i as int) == spec_fail_screen_sources(before.take(i as int), screen_id),
                forall|k: int| i <= k < before.len() ==> self.sources@[k] == before[k],
                failed@ == spec_failed_pipelines(before.take(i as int), screen_id),
            decreases self.sources@.len() - i,
        {
            let source = self.sources[i];
            proof {
                assert(before.take(i as int + 1).drop_last() == before.take(i as int));
            }
            if source.registered && source.key.screen_id == screen_id {
                failed.push(source.pipeline_id);
                self.sources.set(i, PipelineSource { registered: false, ..source });
            }
            proof {
                assert(self.sources@.take(i as int + 1) =~= spec_fail_screen_sources(before.take(i as int), screen_id).push(
                    spec_fail_source(before[i as int], screen_id),
                ));
            }
            i = i + 1;
        }
        proof {
            assert(before.take(i as int) == before);
            assert(self.sources@.take(i as int) == self.sources@);
            lemma_fail_screen_sources_shape(before, screen_id);
        }
        let ghost failed_sources = self.sources@;
        proof {
            assert forall|a: int, b: int| 0 <= a < b < self.sources@.len() implies #[trigger] self.sources@[a].pipeline_id
                != #[trigger] self.sources@[b].pipeline_id by {
                assert(before[a].pipeline_id != before[b].pipeline_id);
            }
            assert forall|a: int, b: int|
                0 <= a < b < self.sources@.len() && self.sources@[a].registered && self.sources@[b].registered
                    implies #[trigger] self.sources@[a].key != #[trigger] self.sources@[b].key by {
                assert(before[a].key != before[b].key);
            }
            assert forall|k: int| 0 <= k < self.sources@.len() && (#[trigger] self.sources@[k]).registered implies self.captured@.contains(
                self.sources@[k].key.screen_id,
            ) by {
                assert(self.sources@[k] == spec_fail_source(before[k], screen_id));
                assert(before[k].registered);
                assert(old(self).sources@[k] == before[k]);
            }
            assert forall|k: int| 0 <= k < self.sources@.len() implies (#[trigger] self.sources@[k]).subscribers > 0
                && self.sources@[k].pipeline_id < self.next_pipeline_id by {
                assert(self.sources@[k] == spec_fail_source(before[k], screen_id));
                assert(old(self).sources@[k] == before[k]);
            }
            if spec_screen_in_use(self.sources@, screen_id) {
                let k = choose|k: int| 0 <= k < self.sources@.len() && self.sources@[k].registered && self.sources@[k].key.screen_id == screen_id;
                assert(before[k].registered);
            }
        }
        let stop_capture = self.is_captured(screen_id);
        self.forget_capture(screen_id);
        let mut stop_worker = false;
        if !self.any_registered() && self.worker_running {
            self.worker_running = false;
            stop_worker = true;
        }
        ScreenFailureOutcome { failed_pipelines: failed, stop_capture, stop_worker }
    }
}

/// The index of the source of pipeline `pipeline_id`.
pub open spec fn spec_pipeline_index(sources: Seq<PipelineSource>, pipeline_id: u64) -> Option<int> {
    if exists|i: int| 0 <= i < sources.len() && sources[i].pipeline_id == pipeline_id {
        Some(choose|i: int| 0 <= i < sources.len() && sources[i].pipeline_id == pipeline_id)
    } else {
        None
    }
}

/// The sources after one subscription of the source at `i` is dropped: the
/// source goes away with its last subscription.
pub open spec fn spec_release_sources(sources: Seq<PipelineSource>, i: int) -> Seq<PipelineSource> {
    if sources[i].subscribers > 1 {
        sources.update(i, PipelineSource { subscribers: (sources[i].subscribers - 1) as usize, ..sources[i] })
    } else {
        sources.remove(i)
    }
}

/// A source after the capture of `screen_id` failed.
pub open spec fn spec_fail_source(source: PipelineSource, screen_id: ScreenId) -> PipelineSource {
    if source.registered && source.key.screen_id == screen_id {
        PipelineSource { registered: false, ..source }
    } else {
        source
    }
}

/// The sources after the capture of `screen_id` failed.
pub open spec fn spec_fail_screen_sources(sources: Seq<PipelineSource>, screen_id: ScreenId) -> Seq<PipelineSource>
    decreases sources.len(),
{
    if sources.len() == 0 {
        sources
    } else {
        spec_fail_screen_sources(sources.drop_last(), screen_id).push(spec_fail_source(sources.last(), screen_id))
    }
}

/// The pipelines that fail with the capture of `screen_id`, in source order.
pub open spec fn spec_failed_pipelines(sources: Seq<PipelineSource>, screen_id: ScreenId) -> Seq<u64>
    decreases sources.len(),
{
    if sources.len() == 0 {
        Seq::empty()
    } else {
        let rest = spec_failed_pipelines(sources.drop_last(), screen_id);
        let last = sources.last();
        if last.registered && last.key.screen_id == screen_id {
            rest.push(last.pipeline_id)
        } else {
            rest
        }
    }
}

proof fn lemma_fail_screen_sources_shape(sources: Seq<PipelineSource>, screen_id: ScreenId)
    ensures
        spec_fail_screen_sources(sources, screen_id).len() == sources.len(),
        forall|k: int| 0 <= k < sources.len() ==> #[trigger] spec_fail_screen_sources(sources, screen_id)[k]
            == spec_fail_source(sources[k], screen_id),
    decreases sources.len(),
{
    if sources.len() > 0 {
        lemma_fail_screen_sources_shape(sources.drop_last(), screen_id);
    }
}

/// Every pipeline whose source was registered for the failed screen is
/// reported as failed, and no other.
pub proof fn screen_failure_fails_every_pipeline_of_the_screen(
    sources: Seq<PipelineSource>,
    screen_id: ScreenId,
    pipeline_id: u64,
)
    ensures
        spec_failed_pipelines(sources, screen_id).contains(pipeline_id) <==> exists|k: int|
            0 <= k < sources.len() && sources[k].registered && sources[k].key.screen_id == screen_id
                && sources[k].pipeline_id == pipeline_id,
    decreases sources.len(),
{
    if sources.len() > 0 {
        let init = sources.drop_last();
        screen_failure_fails_every_pipeline_of_the_screen(init, screen_id, pipeline_id);
        let rest = spec_failed_pipelines(init, screen_id);
        let last = sources.last();
        if spec_failed_pipelines(sources, screen_id).contains(pipeline_id) {
            if rest.contains(pipeline_id) {
                let k = choose|k: int| 0 <= k < init.len() && init[k].registered && init[k].key.screen_id == screen_id
                    && init[k].pipeline_id == pipeline_id;
                assert(sources[k] == init[k]);
            } else {
                let j = choose|j: int| 0 <= j < spec_failed_pipelines(sources, screen_id).len()
                    && spec_failed_pipelines(sources, screen_id)[j] == pipeline_id;
                assert(j == rest.len());
                assert(sources[sources.len() - 1] == last);
            }
        }
        if exists|k: int| 0 <= k < sources.len() && sources[k].registered && sources[k].key.screen_id == screen_id
            && sources[k].pipeline_id == pipeline_id {
            let k = choose|k: int| 0 <= k < sources.len() && sources[k].registered && sources[k].key.screen_id == screen_id
                && sources[k].pipeline_id == pipeline_id;
            if k < init.len() {
                assert(init[k] == sources[k]);
                let j = choose|j: int| 0 <= j < rest.len() && rest[j] == pipeline_id;
                assert(spec_failed_pipelines(sources, screen_id)[j] == pipeline_id);
            } else {
                assert(spec_failed_pipelines(sources, screen_id) == rest.push(pipeline_id));
                assert(spec_failed_pipelines(sources, screen_id)[rest.len() as int] == pipeline_id);
            }
        }
    }
}

/// Releasing the only subscription of a source that was just added removes it
/// again: the sources are as they were before.
pub proof fn release_undoes_add_source(
    sources: Seq<PipelineSource>,
    key: FramePipelineSourceKey,
    pipeline_id: u64,
)
    requires
        forall|k: int| 0 <= k < sources.len() ==> (#[trigger] sources[k]).pipeline_id != pipeline_id,
    ensures
        ({
            let added = sources.push(PipelineSource { key, pipeline_id, subscribers: 1, registered: true });
            &&& spec_pipeline_index(added, pipeline_id) == Some(sources.len() as int)
            &&& spec_release_sources(added, sources.len() as int) == sources
        }),
{
    let added = sources.push(PipelineSource { key, pipeline_id, subscribers: 1, registered: true });
    assert(added[sources.len() as int].pipeline_id == pipeline_id);
    let c = choose|i: int| 0 <= i < added.len() && added[i].pipeline_id == pipeline_id;
    if c < sources.len() {
        assert(added[c] == sources[c]);
    }
    assert(added.remove(sources.len() as int) =~= sources);
}

/// Sharing a registered source with one more subscription and then releasing
/// that subscription leaves the source as it was.
pub proof fn release_undoes_sharing(sources: Seq<PipelineSource>, i: int)
    requires
        0 <= i < sources.len(),
        0 < sources[i].subscribers < usize::MAX,
    ensures
        ({
            let shared = sources.update(i, PipelineSource { subscribers: (sources[i].subscribers + 1) as usize, ..sources[i] });
            spec_release_sources(shared, i) == sources
        }),
{
    let shared = sources.update(i, PipelineSource { subscribers: (sources[i].subscribers + 1) as usize, ..sources[i] });
    assert(spec_release_sources(shared, i) =~= sources);
}


/// Every attached subscription without a pending failure receives the frame
/// that was just published, so all subscribers of one source share it.
pub proof fn publish_reaches_every_subscriber<F, E, W>(
    s: FrameSubscriptionState<F, E, W>,
    frame: Rc<F>,
    waker: W,
)
    requires
        s.attached,
        s.failure is None,
    ensures
        spec_poll(spec_publish_slot(Some(s), frame)->0, waker).1 == FramePoll::<F, E>::Frame(frame),
{
}

/// A subscriber that did not poll between two publications sees only the
/// later frame.
pub proof fn slow_subscriber_sees_only_latest<F, E, W>(
    s: FrameSubscriptionState<F, E, W>,
    first: Rc<F>,
    second: Rc<F>,
    waker: W,
)
    requires
        s.attached,
        s.failure is None,
    ensures
        spec_poll(spec_publish_slot(spec_publish_slot(Some(s), first), second)->0, waker).1
            == FramePoll::<F, E>::Frame(second),
{
}

/// A frame is delivered once: the poll after it finds no frame.
pub proof fn frame_is_delivered_once<F, E, W>(
    s: FrameSubscriptionState<F, E, W>,
    first_waker: W,
    second_waker: W,
)
    requires
        spec_poll(s, first_waker).1 is Frame,
    ensures
        ({
            let next = spec_poll(spec_poll(s, first_waker).0, second_waker).1;
            next is Pending || next is Ended
        }),
{
}

/// After a failure an attached subscription reports the failure once, and then
/// the end of the stream.
pub proof fn failure_is_reported_then_stream_ends<F, E, W>(
    s: FrameSubscriptionState<F, E, W>,
    failure: Rc<E>,
    first_waker: W,
    second_waker: W,
)
    requires
        s.attached,
    ensures
        ({
            let failed = spec_fail_slot(Some(s), failure)->0;
            &&& spec_poll(failed, first_waker).1 == FramePoll::<F, E>::Failed(failure)
            &&& spec_poll(spec_poll(failed, first_waker).0, second_waker).1 == FramePoll::<
                F,
                E,
            >::Ended
        }),
{
}

/// Closing keeps a frame that was not yet polled; the stream ends after it.
pub proof fn close_delivers_pending_frame_then_ends<F, E, W>(
    s: FrameSubscriptionState<F, E, W>,
    frame: Rc<F>,
    first_waker: W,
    second_waker: W,
)
    requires
        s.attached,
        s.failure is None,
        s.latest == Some(frame),
    ensures
        ({
            let closed = spec_close_slot(Some(s))->0;
            &&& spec_poll(closed, first_waker).1 == FramePoll::<F, E>::Frame(frame)
            &&& spec_poll(spec_poll(closed, first_waker).0, second_waker).1 == FramePoll::<
                F,
                E,
            >::Ended
        }),
{
}

/// A subscription created after the publisher failed reports that failure
/// first, then the end of the stream.
pub proof fn late_subscriber_sees_failure<F, E, W>(
    failure: Rc<E>,
    first_waker: W,
    second_waker: W,
)
    ensures
        ({
            let s = spec_new_subscription::<F, E, W>(Some(failure), true);
            &&& spec_poll(s, first_waker).1 == FramePoll::<F, E>::Failed(failure)
            &&& spec_poll(spec_poll(s, first_waker).0, second_waker).1 == FramePoll::<
                F,
                E,
            >::Ended
        }),
{
}

} // verus!
