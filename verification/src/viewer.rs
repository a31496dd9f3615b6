//! The view controller: the per-frame owner of the viewer's state. It
//! triggers the one bootstrap load, drains at most one decode result per
//! frame, applies successful results to the displayed texture and label,
//! and guards dispatch so that at most one decode request is in flight.

use vstd::prelude::*;

use crate::decode::DecodeResult;
use crate::decode::ImagePayload;
use crate::decode::channels_of;

verus! {

/// The pixel contents the display texture holds: the model of the opaque
/// GPU-side handle. Created once, then overwritten in place on each
/// successful decode.
#[derive(Clone, Debug, PartialEq, Eq)]
pub struct TextureContent {
    pub width: u32,
    pub height: u32,
    pub rgba: bool,
    pub pixels: Vec<u8>,
}

impl TextureContent {
    /// The buffer holds exactly one pixel per coordinate.
    pub open spec fn wf(self) -> bool {
        self.pixels@.len() == self.width as int * self.height as int * channels_of(self.rgba)
    }
}

/// What the texture of a freshly applied payload holds.
pub open spec fn texture_of(payload: ImagePayload) -> TextureContent {
    TextureContent {
        width: payload.width,
        height: payload.height,
        rgba: payload.rgba,
        pixels: payload.pixels,
    }
}

/// What one frame's drain did: the channel was empty, a failure was drained
/// (display untouched), or a successful payload was applied — `created`
/// says whether the texture was created rather than updated in place.
#[derive(Clone, Copy, PartialEq, Eq, Structural, Debug)]
pub enum DrainOutcome {
    NoMessage,
    FailureDrained,
    Applied { created: bool },
}

/// The view controller's state: one instance per running viewer, owned and
/// mutated only on the render thread.
pub struct ViewerState {
    pub displayed_width: u32,
    pub displayed_height: u32,
    pub label: Option<String>,
    pub texture: Option<TextureContent>,
    pub busy: bool,
    pub boot_pending: bool,
}

impl ViewerState {
    /// Whatever texture is displayed is well formed.
    pub open spec fn wf(self) -> bool {
        match self.texture {
            Some(t) => t.wf(),
            None => true,
        }
    }

    /// A fresh viewer: placeholder dimensions, nothing displayed, no
    /// request in flight, and the bootstrap load still owed.
    pub fn new() -> (s: ViewerState)
        ensures
            s.displayed_width == 300,
            s.displayed_height == 300,
            s.label is None,
            s.texture is None,
            !s.busy,
            s.boot_pending,
            s.wf(),
    {
        ViewerState {
            displayed_width: 300,
            displayed_height: 300,
            label: None,
            texture: None,
            busy: false,
            boot_pending: true,
        }
    }

    /// First-frame bootstrap: exactly once per process lifetime this
    /// dispatches the default load and marks the viewer busy; every later
    /// call is a no-op. The caller spawns a decode worker iff `dispatch`.
    pub fn frame_bootstrap(&mut self) -> (dispatch: bool)
        ensures
            dispatch == old(self).boot_pending,
            old(self).boot_pending ==> *final(self) == (ViewerState {
                boot_pending: false,
                busy: true,
                ..*old(self)
            }),
            !old(self).boot_pending ==> *final(self) == *old(self),
            old(self).wf() ==> final(self).wf(),
    {
        if self.boot_pending {
            self.boot_pending = false;
            self.busy = true;
            true
        } else {
            false
        }
    }

    /// A user-triggered load request. While a request is in flight the new
    /// one is silently dropped and nothing changes, so at most one decode
    /// is ever in flight; otherwise the viewer becomes busy. The caller
    /// spawns a decode worker iff `accepted`.
    pub fn request_load(&mut self) -> (accepted: bool)
        ensures
            accepted == !old(self).busy,
            old(self).busy ==> *final(self) == *old(self),
            !old(self).busy ==> *final(self) == (ViewerState { busy: true, ..*old(self) }),
            old(self).wf() ==> final(self).wf(),
    {
        if self.busy {
            false
        } else {
            self.busy = true;
            true
        }
    }

    /// One frame's drain of the result channel, given the message the one
    /// non-blocking receive attempt produced (`None` when the channel was
    /// empty). An empty channel changes nothing. Any message clears the
    /// busy flag. A failure leaves the displayed dimensions, label and
    /// texture exactly as they were. A success republishes the payload:
    /// dimensions and label come from it, and its pixels become the texture
    /// — created anew iff none existed, else overwritten in place.
    pub fn drain(&mut self, msg: Option<DecodeResult>) -> (outcome: DrainOutcome)
        ensures
            msg is None ==> *final(self) == *old(self) && outcome == DrainOutcome::NoMessage,
            msg matches Some(DecodeResult::Failure) ==> *final(self) == (ViewerState {
                busy: false,
                ..*old(self)
            }) && outcome == DrainOutcome::FailureDrained,
            msg matches Some(DecodeResult::Success(p)) ==> *final(self) == (ViewerState {
                displayed_width: p.width,
                displayed_height: p.height,
                label: Some(p.label),
                texture: Some(texture_of(p)),
                busy: false,
                ..*old(self)
            }) && outcome == (DrainOutcome::Applied { created: old(self).texture is None }),
            old(self).wf() && (msg matches Some(r) ==> r.wf()) ==> final(self).wf(),
    {
        match msg {
            None => DrainOutcome::NoMessage,
            Some(DecodeResult::Failure) => {
                self.busy = false;
                DrainOutcome::FailureDrained
            },
            Some(DecodeResult::Success(payload)) => {
                self.busy = false;
                self.displayed_width = payload.width;
                self.displayed_height = payload.height;
                let created = self.texture.is_none();
                self.texture = Some(
                    TextureContent {
                        width: payload.width,
                        height: payload.height,
                        rgba: payload.rgba,
                        pixels: payload.pixels,
                    },
                );
                self.label = Some(payload.label);
                DrainOutcome::Applied { created }
            },
        }
    }
}

} // verus!
