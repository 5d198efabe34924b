use std::rc::Rc;

use rabbit_infra::frame_pipeline::{FramePoll, LatestFramePublisher};

type Publisher = LatestFramePublisher<u32, String, &'static str>;

fn ready_frame(publisher: &mut Publisher, id: usize) -> Rc<u32> {
    match publisher.poll(id, "waker") {
        FramePoll::Frame(frame) => frame,
        FramePoll::Failed(_) => panic!("Frame pipeline should publish a valid frame"),
        FramePoll::Ended => panic!("Frame pipeline subscription should remain open"),
        FramePoll::Pending => panic!("Frame pipeline should have a published frame"),
    }
}

#[test]
fn shared_source_publishes_one_frame_to_all_subscribers() {
    let mut publisher = Publisher::new();
    let first = publisher.subscribe();
    let second = publisher.subscribe();

    publisher.publish(7);

    let first_frame = ready_frame(&mut publisher, first);
    let second_frame = ready_frame(&mut publisher, second);

    assert!(Rc::ptr_eq(&first_frame, &second_frame));
    assert_eq!(*first_frame, 7);
}

#[test]
fn slow_subscribers_share_only_the_latest_frame() {
    let mut publisher = Publisher::new();
    let first = publisher.subscribe();
    let second = publisher.subscribe();

    publisher.publish(1);
    publisher.publish(2);

    let first_frame = ready_frame(&mut publisher, first);
    let second_frame = ready_frame(&mut publisher, second);

    assert_eq!(*first_frame, 2);
    assert!(Rc::ptr_eq(&first_frame, &second_frame));
    assert!(matches!(publisher.poll(first, "waker"), FramePoll::Pending));
}

#[test]
fn waiting_subscribers_are_woken_by_a_publication() {
    let mut publisher = Publisher::new();
    let first = publisher.subscribe();
    let second = publisher.subscribe();
    assert!(matches!(publisher.poll(first, "first"), FramePoll::Pending));

    let woken = publisher.publish(3);

    assert_eq!(woken, vec!["first"]);
    assert_eq!(*ready_frame(&mut publisher, second), 3);
}

#[test]
fn failure_is_reported_once_then_the_stream_ends() {
    let mut publisher = Publisher::new();
    let id = publisher.subscribe();
    publisher.publish(5);

    publisher.fail(String::from("capture failed"));

    match publisher.poll(id, "waker") {
        FramePoll::Failed(error) => assert_eq!(error.as_str(), "capture failed"),
        _ => panic!("the failure should replace the pending frame"),
    }
    assert!(matches!(publisher.poll(id, "waker"), FramePoll::Ended));
}

#[test]
fn closing_keeps_the_pending_frame_then_ends() {
    let mut publisher = Publisher::new();
    let id = publisher.subscribe();
    publisher.publish(9);

    publisher.close();

    assert_eq!(*ready_frame(&mut publisher, id), 9);
    assert!(matches!(publisher.poll(id, "waker"), FramePoll::Ended));
}

#[test]
fn late_subscribers_inherit_the_failure() {
    let mut publisher = Publisher::new();
    publisher.fail(String::from("gone"));

    let late = publisher.subscribe();

    assert!(matches!(publisher.poll(late, "waker"), FramePoll::Failed(_)));
    assert!(matches!(publisher.poll(late, "waker"), FramePoll::Ended));
}

#[test]
fn dropped_subscriptions_receive_nothing() {
    let mut publisher = Publisher::new();
    let first = publisher.subscribe();
    let second = publisher.subscribe();
    publisher.unsubscribe(first);

    publisher.publish(4);

    assert!(publisher.subscriptions[first].is_none());
    assert_eq!(*ready_frame(&mut publisher, second), 4);
}

use rabbit_infra::frame_pipeline::{
    FramePipelineParameters, FramePipelineRegistry, FramePipelineSourceKey, ReleaseOutcome, SubscribePlan,
};
use rabbit_infra::geometry::{PixelSize, ScreenId};

struct Manager {
    registry: FramePipelineRegistry,
    capture_acquisitions: usize,
    worker_starts: usize,
}

impl Manager {
    fn new() -> Self {
        Manager { registry: FramePipelineRegistry::new(), capture_acquisitions: 0, worker_starts: 0 }
    }

    fn subscribe(&mut self, screen: u8, width: u32, height: u32) -> u64 {
        let key = FramePipelineSourceKey {
            screen_id: ScreenId(screen),
            parameters: FramePipelineParameters { frame_size: PixelSize { width, height } },
        };
        match self.registry.begin_subscribe(key) {
            SubscribePlan::Reuse { pipeline_id } => pipeline_id,
            SubscribePlan::Create { acquire_capture } => {
                if acquire_capture {
                    self.capture_acquisitions += 1;
                }
                if self.registry.ensure_worker() {
                    self.worker_starts += 1;
                }
                let id = self.registry.allocate_pipeline_id().expect("pipeline identifiers are available");
                self.registry.add_source(key, id);
                id
            },
        }
    }

    fn registered(&self) -> usize {
        self.registry.sources.iter().filter(|source| source.registered).count()
    }
}

#[test]
fn subscriptions_reuse_only_an_identical_frame_pipeline_source() {
    let mut manager = Manager::new();
    let first = manager.subscribe(1, 1920, 1080);
    let second = manager.subscribe(1, 1920, 1080);
    let different = manager.subscribe(1, 1280, 720);

    assert_eq!(first, second);
    assert_ne!(first, different);
    assert_eq!(manager.registered(), 2);
    assert_eq!(manager.capture_acquisitions, 1);

    manager.registry.release(first);
    assert_eq!(manager.registered(), 2);
    manager.registry.release(second);
    assert_eq!(manager.registered(), 1);
    manager.registry.release(different);
    assert_eq!(manager.registered(), 0);
    assert!(manager.registry.captured.is_empty());
}

#[test]
fn distinct_pipeline_sources_share_one_gpu_worker() {
    let mut manager = Manager::new();
    let first = manager.subscribe(1, 1920, 1080);
    assert!(manager.registry.worker_running);
    let second = manager.subscribe(1, 1280, 720);
    assert!(manager.registry.worker_running);

    assert_eq!(manager.worker_starts, 1);
    assert_eq!(manager.capture_acquisitions, 1);

    let outcome = manager.registry.release(first);
    assert_eq!(outcome, ReleaseOutcome { stop_capture: None, stop_worker: false });
    let outcome = manager.registry.release(second);
    assert_eq!(outcome, ReleaseOutcome { stop_capture: Some(ScreenId(1)), stop_worker: true });

    assert!(!manager.registry.worker_running);
}

#[test]
fn capture_failure_fails_every_pipeline_for_the_screen() {
    let mut manager = Manager::new();
    let first = manager.subscribe(1, 1920, 1080);
    let second = manager.subscribe(1, 1280, 720);

    let outcome = manager.registry.screen_failed(ScreenId(1));

    assert_eq!(outcome.failed_pipelines, vec![first, second]);
    assert!(outcome.stop_capture);
    assert!(outcome.stop_worker);
    assert_eq!(manager.registered(), 0);
    assert!(manager.registry.captured.is_empty());
    assert!(!manager.registry.worker_running);

    // The failed sources stay held until their subscriptions go away.
    assert_eq!(manager.registry.sources.len(), 2);
    assert_eq!(manager.registry.release(first), ReleaseOutcome { stop_capture: None, stop_worker: false });
    assert_eq!(manager.registry.release(second), ReleaseOutcome { stop_capture: None, stop_worker: false });
    assert!(manager.registry.sources.is_empty());
}

#[test]
fn screen_failure_leaves_other_screens_running() {
    let mut manager = Manager::new();
    let first = manager.subscribe(1, 1920, 1080);
    let other = manager.subscribe(2, 1920, 1080);

    let outcome = manager.registry.screen_failed(ScreenId(1));

    assert_eq!(outcome.failed_pipelines, vec![first]);
    assert!(outcome.stop_capture);
    assert!(!outcome.stop_worker);
    assert_eq!(manager.registry.captured, vec![ScreenId(2)]);
    assert!(manager.registry.worker_running);
    assert_eq!(manager.capture_acquisitions, 2);

    // A new subscription to the failed screen gets a fresh source and capture.
    let again = manager.subscribe(1, 1920, 1080);
    assert_ne!(again, first);
    assert_eq!(manager.capture_acquisitions, 3);
    assert_eq!(
        manager.registry.release(other),
        ReleaseOutcome { stop_capture: Some(ScreenId(2)), stop_worker: false }
    );
}

#[test]
fn releasing_an_unknown_pipeline_changes_nothing() {
    let mut manager = Manager::new();
    let first = manager.subscribe(3, 640, 480);
    assert_eq!(manager.registry.release(first + 10), ReleaseOutcome { stop_capture: None, stop_worker: false });
    assert_eq!(manager.registered(), 1);
    assert!(manager.registry.worker_running);
}
