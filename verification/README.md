# rabbit_infra

The Linux media infrastructure of Rabbit as a Verus-verified library: the
decisions and data formats behind screen capture, GPU frame pipelines,
hardware H.264 encoding and decoding, remote input and the connection
handshake, each with a contract proved by Verus.

## Layout

- `src/` — the verified library.
  - Wire formats: `connection_request` (handshake codec with decode-of-encode
    laws and the staged TCP reads), `rtp_packet` (RTP marker bits and access
    unit batching), `byte_buffer` (the trusted interface to `bytes`).
  - Frame pipelines: `frame_pipeline` (latest-frame fan-out and the source
    registry), `gpu_worker` (GPU binding, pipeline routing, pass-through and
    output choices), `dma_buf` (buffer layouts and the buffer pool),
    `egl_import`, `gl_composition`, `video_caps`, `h264_pipeline`,
    `stream_drive` (encoder, decoder and recorder loops), `latest_sender`
    (the latest-item output channel over `flume`), `encoder_probe`,
    `video_probe`, `client_video_probe`.
  - KMS capture: `kms_plane`, `kms_snapshot`, `kms_framebuffer`,
    `kms_capture`, `damage_notifier`, `drm_device`.
  - Desktop: `screen_layout`, `input`, `geometry`, `text`.
- `tests/` — tests of the library, run against the compiled crate.
- `app/` — the system side: uinput devices, the niri IPC query, sysfs
  device discovery, the retry loop of the latest-item channel and probe
  report logging.
