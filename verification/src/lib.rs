//! Verified core of the Rabbit Linux media infrastructure: the connection
//! handshake wire format, KMS plane capture, GPU frame pipelines, DMA-BUF
//! layouts and their EGL import, the hardware H.264 pipelines and the loops
//! that drive them, frame-timing probes, uinput event planning and screen
//! layout.
//!
//! Clock readings are plain monotonic nanosecond counts supplied by the caller.
use vstd::prelude::*;

pub mod geometry;
pub mod client_video_probe;
pub mod video_probe;
pub mod byte_buffer;
pub mod connection_request;
pub mod text;
pub mod kms_plane;
pub mod frame_pipeline;
pub mod dma_buf;
pub mod video_caps;
pub mod h264_pipeline;
pub mod rtp_packet;
pub mod input;
pub mod screen_layout;
pub mod gpu_worker;
pub mod kms_capture;
pub mod kms_framebuffer;
pub mod kms_snapshot;
pub mod egl_import;
pub mod gl_composition;
pub mod encoder_probe;
pub mod damage_notifier;
pub mod stream_drive;
pub mod drm_device;
pub mod latest_sender;

verus! {

} // verus!
