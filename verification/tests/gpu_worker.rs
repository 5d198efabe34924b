use rabbit_infra::dma_buf::{DRM_FORMAT_NV12, DRM_FORMAT_XRGB8888};
use rabbit_infra::geometry::{PixelSize, ScreenId};
use rabbit_infra::gpu_worker::{
    gpu_mismatch, output_candidates, passthrough_decision, validate_nv12_size, FrameOutputStrategy,
    GpuDevice, Nv12OutputStrategy, Nv12SizeError, PassthroughDecision,
};

fn device(path: &str) -> GpuDevice {
    GpuDevice::from_render_node(String::from(path))
}

#[test]
fn render_node_path_is_the_gpu_identity() {
    let first = device("/dev/dri/renderD128");
    let same = device("/dev/dri/renderD128");
    let different = device("/dev/dri/renderD129");

    assert_eq!(first, same);
    assert_ne!(first, different);
    assert_eq!(first.render_node_path(), "/dev/dri/renderD128");
}

#[test]
fn gpu_binding_rejects_a_different_render_node() {
    let bound = device("/dev/dri/renderD128");

    assert!(gpu_mismatch(&bound, ScreenId(1), &device("/dev/dri/renderD128")).is_none());
    let mismatch = gpu_mismatch(&bound, ScreenId(1), &device("/dev/dri/renderD129"))
        .expect("A different render node should be rejected");
    assert_eq!(mismatch.screen_id, ScreenId(1));
    assert_eq!(mismatch.bound.render_node_path(), "/dev/dri/renderD128");
    assert_eq!(mismatch.device.render_node_path(), "/dev/dri/renderD129");
}

#[test]
fn nv12_output_requires_non_zero_even_dimensions() {
    assert!(validate_nv12_size(PixelSize { width: 1920, height: 1080 }).is_ok());
    assert_eq!(
        validate_nv12_size(PixelSize { width: 0, height: 1080 }),
        Err(Nv12SizeError::Empty { width: 0, height: 1080 })
    );
    assert_eq!(
        validate_nv12_size(PixelSize { width: 1920, height: 0 }),
        Err(Nv12SizeError::Empty { width: 1920, height: 0 })
    );
    assert_eq!(
        validate_nv12_size(PixelSize { width: 1919, height: 1080 }),
        Err(Nv12SizeError::OddDimension { width: 1919, height: 1080 })
    );
    assert_eq!(
        validate_nv12_size(PixelSize { width: 1920, height: 1079 }),
        Err(Nv12SizeError::OddDimension { width: 1920, height: 1079 })
    );
}

#[test]
fn output_strategies_have_stable_names() {
    assert_eq!(Nv12OutputStrategy::GbmNv12.name(), "gbm_nv12");
    assert_eq!(Nv12OutputStrategy::GbmSeparatePlanes.name(), "gbm_separate_planes");
    assert_eq!(FrameOutputStrategy::PassthroughXrgb(0).name(), "kms_xrgb_passthrough");
    assert_eq!(FrameOutputStrategy::DirectNv12(Nv12OutputStrategy::GbmSeparatePlanes).name(), "gbm_separate_planes");
    assert_eq!(FrameOutputStrategy::VaapiXrgb(7).name(), "vaapi_xrgb");
}

#[test]
fn direct_nv12_is_tried_before_vaapi_copies() {
    assert_eq!(
        output_candidates(true, true, &[5, 6]),
        vec![
            FrameOutputStrategy::DirectNv12(Nv12OutputStrategy::GbmNv12),
            FrameOutputStrategy::DirectNv12(Nv12OutputStrategy::GbmSeparatePlanes),
            FrameOutputStrategy::VaapiXrgb(5),
            FrameOutputStrategy::VaapiXrgb(6),
        ]
    );
    assert_eq!(output_candidates(false, true, &[]), vec![FrameOutputStrategy::DirectNv12(Nv12OutputStrategy::GbmSeparatePlanes)]);
}

#[test]
fn only_a_single_matching_xrgb_pipeline_passes_frames_through() {
    let size = PixelSize { width: 1920, height: 1080 };
    assert_eq!(
        passthrough_decision(1, size, None, size, DRM_FORMAT_XRGB8888, &[3]),
        PassthroughDecision::ProbeEncoder { modifier: 3 }
    );
    assert_eq!(
        passthrough_decision(1, size, Some(FrameOutputStrategy::PassthroughXrgb(3)), size, DRM_FORMAT_XRGB8888, &[3]),
        PassthroughDecision::Publish
    );
    assert_eq!(
        passthrough_decision(1, size, Some(FrameOutputStrategy::PassthroughXrgb(3)), size, DRM_FORMAT_XRGB8888, &[4]),
        PassthroughDecision::ModifierChanged { expected: 3, actual: 4 }
    );
    assert_eq!(passthrough_decision(2, size, None, size, DRM_FORMAT_XRGB8888, &[3]), PassthroughDecision::Process);
    assert_eq!(
        passthrough_decision(1, PixelSize { width: 1280, height: 720 }, None, size, DRM_FORMAT_XRGB8888, &[3]),
        PassthroughDecision::Process
    );
    assert_eq!(passthrough_decision(1, size, None, size, DRM_FORMAT_NV12, &[3, 3]), PassthroughDecision::Process);
    assert_eq!(
        passthrough_decision(1, size, Some(FrameOutputStrategy::VaapiXrgb(3)), size, DRM_FORMAT_XRGB8888, &[3]),
        PassthroughDecision::Process
    );
}

use rabbit_infra::gpu_worker::{
    GpuWorkerAction, GpuWorkerEvent, GpuWorkerState, ScreenFailure, WorkerPipelines,
};

#[test]
fn worker_event_loop_receives_screen_gpu_identity_before_frames() {
    let mut worker = GpuWorkerState::new();
    assert_eq!(worker.step(GpuWorkerEvent::RegisterScreen { screen_id: ScreenId(3) }), GpuWorkerAction::Wait);

    assert_eq!(worker.awaits_device(ScreenId(3)), Some(true));

    let action = worker.step(GpuWorkerEvent::ScreenDevice {
        screen_id: ScreenId(3),
        device: device("/dev/dri/renderD128"),
    });
    assert_eq!(action, GpuWorkerAction::CreateContext { screen_id: ScreenId(3) });
    assert_eq!(
        worker.step(GpuWorkerEvent::ContextCreated { screen_id: ScreenId(3), succeeded: true }),
        GpuWorkerAction::Wait
    );
    assert_eq!(worker.bound.as_ref().map(|d| d.render_node_path()), Some("/dev/dri/renderD128"));
    assert_eq!(worker.awaits_device(ScreenId(3)), Some(false));
    assert_eq!(
        worker.step(GpuWorkerEvent::Frame { screen_id: ScreenId(3) }),
        GpuWorkerAction::ProcessFrame { screen_id: ScreenId(3) }
    );
}

#[test]
fn worker_reports_a_capture_failure_for_its_screen() {
    let mut worker = GpuWorkerState::new();
    worker.step(GpuWorkerEvent::RegisterScreen { screen_id: ScreenId(4) });

    let action = worker.step(GpuWorkerEvent::FrameFailed { screen_id: ScreenId(4) });

    assert_eq!(
        action,
        GpuWorkerAction::ReportScreenFailure { screen_id: ScreenId(4), failure: ScreenFailure::CaptureFailed }
    );
    assert_eq!(worker.awaits_device(ScreenId(4)), None);
    assert_eq!(worker.step(GpuWorkerEvent::FailureReported { delivered: true }), GpuWorkerAction::Wait);
    assert_eq!(worker.step(GpuWorkerEvent::FailureReported { delivered: false }), GpuWorkerAction::Stop);
    assert_eq!(worker.step(GpuWorkerEvent::RegisterScreen { screen_id: ScreenId(4) }), GpuWorkerAction::Stop);
}

#[test]
fn worker_rejects_a_screen_on_another_gpu() {
    let mut worker = GpuWorkerState::new();
    worker.step(GpuWorkerEvent::RegisterScreen { screen_id: ScreenId(1) });
    worker.step(GpuWorkerEvent::ScreenDevice { screen_id: ScreenId(1), device: device("/dev/dri/renderD128") });
    worker.step(GpuWorkerEvent::ContextCreated { screen_id: ScreenId(1), succeeded: true });
    worker.step(GpuWorkerEvent::RegisterScreen { screen_id: ScreenId(2) });

    match worker.step(GpuWorkerEvent::ScreenDevice { screen_id: ScreenId(2), device: device("/dev/dri/renderD129") }) {
        GpuWorkerAction::ReportScreenFailure { screen_id, failure: ScreenFailure::GpuMismatch(mismatch) } => {
            assert_eq!(screen_id, ScreenId(2));
            assert_eq!(mismatch.bound.render_node_path(), "/dev/dri/renderD128");
        },
        other => panic!("unexpected action {other:?}"),
    }
    assert_eq!(worker.awaits_device(ScreenId(2)), None);
    assert_eq!(worker.awaits_device(ScreenId(1)), Some(false));
}

#[test]
fn frames_before_a_gpu_context_fail_the_screen() {
    let mut worker = GpuWorkerState::new();
    worker.step(GpuWorkerEvent::RegisterScreen { screen_id: ScreenId(5) });
    assert_eq!(
        worker.step(GpuWorkerEvent::Frame { screen_id: ScreenId(5) }),
        GpuWorkerAction::ReportScreenFailure { screen_id: ScreenId(5), failure: ScreenFailure::MissingContext }
    );
}

#[test]
fn worker_routes_processing_result_only_to_pipelines_for_the_same_screen() {
    let mut table = WorkerPipelines::new();
    table.register(0, ScreenId(2), PixelSize { width: 1280, height: 720 });
    table.register(1, ScreenId(3), PixelSize { width: 1920, height: 1080 });

    let routed = table.pipelines_for_screen(ScreenId(2));
    assert_eq!(routed, vec![0]);

    // The processing of pipeline 0 failed: it is dropped, pipeline 1 stays.
    table.finish_screen_frame(ScreenId(2), &routed);
    assert_eq!(table.pipelines.len(), 1);
    assert_eq!(table.pipelines[0].id, 1);
    assert_eq!(table.pipelines_for_screen(ScreenId(3)), vec![1]);
}

#[test]
fn pipeline_table_replaces_and_releases_by_identifier() {
    let mut table = WorkerPipelines::new();
    table.register(7, ScreenId(1), PixelSize { width: 640, height: 480 });
    table.set_strategy(7, FrameOutputStrategy::VaapiXrgb(2));
    assert_eq!(table.pipelines[0].strategy, Some(FrameOutputStrategy::VaapiXrgb(2)));

    table.register(7, ScreenId(1), PixelSize { width: 800, height: 600 });
    assert_eq!(table.pipelines.len(), 1);
    assert_eq!(table.pipelines[0].strategy, None);
    assert_eq!(table.pipelines[0].frame_size, PixelSize { width: 800, height: 600 });

    table.release(8);
    assert_eq!(table.pipelines.len(), 1);
    table.release(7);
    assert!(table.pipelines.is_empty());
}
