//! Decisions of the Wayland damage notifier, which drives dynamic-rate KMS
//! capture from wlr-screencopy damage events: when to request a screencopy
//! frame, how to answer the compositor's frame events, and when a request
//! reports damage.
//!
//! The first frame of a notifier is a full copy that establishes the
//! baseline; later requests copy with damage, so the compositor answers only
//! once the output changed.
use vstd::prelude::*;

verus! {

/// The state of the notifier's screencopy requests.
#[derive(Debug, Clone, Copy, PartialEq, Eq)]
pub struct DamageRequestState {
    /// A screencopy frame was requested and is not finished.
    pub request_pending: bool,
    /// A full frame was copied once, so later copies can wait for damage.
    pub baseline_ready: bool,
    /// The pending request saw damage or completed.
    pub damaged: bool,
    /// The pending request failed, or the output went away.
    pub failed: bool,
    /// A shared-memory buffer is attached to the pending request.
    pub has_buffer: bool,
}

/// What the compositor sent about the pending screencopy frame, or about the
/// notifier's output.
#[derive(Debug, Clone, Copy, PartialEq, Eq)]
pub enum ScreencopyEvent {
    /// The compositor asks for a buffer; `format_known` is false for a pixel
    /// format this client does not know.
    Buffer { format_known: bool, width: u32, height: u32, stride: u32 },
    /// Creating the shared-memory buffer for the frame finished.
    BufferCreated { succeeded: bool },
    Damage,
    Ready,
    Failed,
    /// An output went away; `ours` when it is the notifier's output.
    OutputDestroyed { ours: bool },
    /// Any other frame event.
    Other,
}

/// What the notifier does with the frame next.
#[derive(Debug, Clone, Copy, PartialEq, Eq)]
pub enum ScreencopyAction {
    Nothing,
    /// Create a shared-memory buffer of this geometry.
    CreateBuffer { width: i32, height: i32, stride: i32 },
    /// Copy the output into the created buffer; with damage tracking once
    /// the baseline exists.
    Copy { with_damage: bool },
    /// The frame is finished: destroy it.
    DestroyFrame,
}

/// A damage request that failed.
#[derive(Debug, Clone, Copy, PartialEq, Eq)]
pub enum DamageRequestError {
    RequestFailed,
}

impl DamageRequestState {
    /// A notifier that has not requested anything yet.
    pub fn new() -> (s: Self)
        ensures
            s == (DamageRequestState {
                request_pending: false,
                baseline_ready: false,
                damaged: false,
                failed: false,
                has_buffer: false,
            }),
    {
        DamageRequestState {
            request_pending: false,
            baseline_ready: false,
            damaged: false,
            failed: false,
            has_buffer: false,
        }
    }

    /// Starts a wait: when no request is pending, a new screencopy request is
    /// sent (the result is true) with fresh damage and failure flags.
    pub fn begin_wait(&mut self) -> (request: bool)
        ensures
            request == !old(self).request_pending,
            *final(self) == (if request {
                (DamageRequestState { request_pending: true, damaged: false, failed: false, ..*old(self) })
            } else {
                *old(self)
            }),
    {
        if self.request_pending {
            return false;
        }
        self.request_pending = true;
        self.damaged = false;
        self.failed = false;
        true
    }

    /// Takes one event of the pending frame or of the outputs.
    pub fn on_event(&mut self, event: ScreencopyEvent) -> (action: ScreencopyAction)
        ensures
            final(self).request_pending == old(self).request_pending,
            old(self).baseline_ready ==> final(self).baseline_ready,
            match event {
                ScreencopyEvent::Buffer { format_known, width, height, stride } => if format_known
                    && width <= i32::MAX && height <= i32::MAX && stride <= i32::MAX {
                    action == (ScreencopyAction::CreateBuffer {
                        width: width as i32,
                        height: height as i32,
                        stride: stride as i32,
                    }) && *final(self) == *old(self)
                } else {
                    action == ScreencopyAction::Nothing && *final(self) == (DamageRequestState {
                        failed: true,
                        ..*old(self)
                    })
                },
                ScreencopyEvent::BufferCreated { succeeded } => if succeeded {
                    action == (ScreencopyAction::Copy { with_damage: old(self).baseline_ready })
                        && *final(self) == (DamageRequestState { has_buffer: true, ..*old(self) })
                } else {
                    action == ScreencopyAction::Nothing && *final(self) == (DamageRequestState {
                        failed: true,
                        ..*old(self)
                    })
                },
                ScreencopyEvent::Damage => action == ScreencopyAction::Nothing && *final(self)
                    == (DamageRequestState { damaged: true, ..*old(self) }),
                ScreencopyEvent::Ready => action == ScreencopyAction::DestroyFrame && *final(self)
                    == (DamageRequestState { baseline_ready: true, damaged: true, ..*old(self) }),
                ScreencopyEvent::Failed => action == ScreencopyAction::DestroyFrame && *final(self)
                    == (DamageRequestState { failed: true, ..*old(self) }),
                ScreencopyEvent::OutputDestroyed { ours } => action == ScreencopyAction::Nothing
                    && *final(self) == (if ours {
                    (DamageRequestState { failed: true, ..*old(self) })
                } else {
                    *old(self)
                }),
                ScreencopyEvent::Other => action == ScreencopyAction::Nothing && *final(self)
                    == *old(self),
            },
    {
        match event {
            ScreencopyEvent::Buffer { format_known, width, height, stride } => {
                if !format_known || width > i32::MAX as u32 || height > i32::MAX as u32 || stride
                    > i32::MAX as u32 {
                    self.failed = true;
                    return ScreencopyAction::Nothing;
                }
                ScreencopyAction::CreateBuffer {
                    width: width as i32,
                    height: height as i32,
                    stride: stride as i32,
                }
            },
            ScreencopyEvent::BufferCreated { succeeded } => {
                if succeeded {
                    self.has_buffer = true;
                    ScreencopyAction::Copy { with_damage: self.baseline_ready }
                } else {
                    self.failed = true;
                    ScreencopyAction::Nothing
                }
            },
            ScreencopyEvent::Damage => {
                self.damaged = true;
                ScreencopyAction::Nothing
            },
            ScreencopyEvent::Ready => {
                self.baseline_ready = true;
                self.damaged = true;
                ScreencopyAction::DestroyFrame
            },
            ScreencopyEvent::Failed => {
                self.failed = true;
                ScreencopyAction::DestroyFrame
            },
            ScreencopyEvent::OutputDestroyed { ours } => {
                if ours {
                    self.failed = true;
                }
                ScreencopyAction::Nothing
            },
            ScreencopyEvent::Other => ScreencopyAction::Nothing,
        }
    }

    /// Whether the pending request reported damage. A failed request is an
    /// error; a damaged one is finished, so the next wait sends a new request
    /// and the buffer is released.
    pub fn finish_request(&mut self) -> (r: Result<bool, DamageRequestError>)
        ensures
            old(self).failed ==> r == Err::<bool, DamageRequestError>(DamageRequestError::RequestFailed)
                && *final(self) == *old(self),
            !old(self).failed ==> r == Ok::<bool, DamageRequestError>(old(self).damaged),
            !old(self).failed && old(self).damaged ==> *final(self) == (DamageRequestState {
                request_pending: false,
                has_buffer: false,
                ..*old(self)
            }),
            !old(self).failed && !old(self).damaged ==> *final(self) == *old(self),
    {
        if self.failed {
            return Err(DamageRequestError::RequestFailed);
        }
        if !self.damaged {
            return Ok(false);
        }
        self.request_pending = false;
        self.has_buffer = false;
        Ok(true)
    }
}

} // verus!
