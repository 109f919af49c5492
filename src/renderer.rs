//! The logical side of a frame renderer: surface configuration, the
//! recovery policy for lost surface images, and the plan of one frame.
use vstd::prelude::*;

use crate::color::{Color, State};

verus! {

/// How many consecutive frames may lose their surface image before the
/// loss is treated as fatal.
pub const MAX_LOST_FRAMES: u32 = 3;

/// Vertices drawn per frame: one triangle, positions made in the shader.
pub const TRIANGLE_VERTICES: u32 = 3;

/// Instances drawn per frame.
pub const TRIANGLE_INSTANCES: u32 = 1;

/// Errors of the renderer.
#[derive(Clone, Copy, Debug, PartialEq, Eq, Structural)]
pub enum RenderError {
    /// No compatible adapter or device could be negotiated.
    BackendUnavailable,
    /// The next presentable image could not be acquired.
    SurfaceLost,
    /// A surface extent was zero.
    InvalidDimensions,
}

/// The size that the presentation surface is configured with.
#[derive(Clone, Copy, Debug, PartialEq, Eq, Structural)]
pub struct SurfaceConfig {
    pub width: u32,
    pub height: u32,
}

/// One frame: clear the acquired image to `clear`, then draw
/// `vertex_count` vertices in `instance_count` instances over an image of
/// `width` by `height` pixels.
#[derive(Clone, Copy, Debug, PartialEq, Eq, Structural)]
pub struct Frame {
    pub clear: Color,
    pub width: u32,
    pub height: u32,
    pub vertex_count: u32,
    pub instance_count: u32,
}

/// What a renderer is, seen from its contracts.
pub struct AppView {
    pub config: SurfaceConfig,
    /// Frames that lost their image since the last frame that did not.
    pub lost_streak: nat,
}

impl AppView {
    pub open spec fn wf(self) -> bool {
        &&& self.config.width > 0
        &&& self.config.height > 0
        &&& self.lost_streak <= MAX_LOST_FRAMES
    }

    /// Too many frames in a row have lost their image.
    pub open spec fn exhausted(self) -> bool {
        self.lost_streak >= MAX_LOST_FRAMES
    }
}

/// The plan of a frame drawn with configuration `c` and clear color `color`.
pub open spec fn frame_of(c: SurfaceConfig, color: Color) -> Frame {
    Frame {
        clear: color,
        width: c.width,
        height: c.height,
        vertex_count: TRIANGLE_VERTICES,
        instance_count: TRIANGLE_INSTANCES,
    }
}

/// A renderer after `resize(w, h)`, and what the call returns: a zero extent
/// is rejected and changes nothing; otherwise the surface takes the new size.
pub open spec fn resize_result(s: AppView, w: u32, h: u32) -> (AppView, Result<(), RenderError>) {
    if w == 0 || h == 0 {
        (s, Err(RenderError::InvalidDimensions))
    } else {
        (AppView { config: SurfaceConfig { width: w, height: h }, ..s }, Ok(()))
    }
}

/// A renderer after rendering one frame cleared to `color`, where `acquired`
/// says whether the next surface image could be had, and what the call
/// returns. A frame that draws ends a run of lost frames; a lost one extends
/// it, up to the bound.
pub open spec fn render_result(s: AppView, color: Color, acquired: bool) -> (
    AppView,
    Result<Frame, RenderError>,
) {
    if acquired {
        (AppView { lost_streak: 0, ..s }, Ok(frame_of(s.config, color)))
    } else {
        let streak = if s.lost_streak < MAX_LOST_FRAMES {
            s.lost_streak + 1
        } else {
            MAX_LOST_FRAMES as nat
        };
        (AppView { lost_streak: streak, ..s }, Err(RenderError::SurfaceLost))
    }
}

/// The first of the formats a surface supports, if it supports any.
pub fn first_supported<T: Copy>(supported: &Vec<T>) -> (r: Option<T>)
    ensures
        r is None <==> supported@.len() == 0,
        r is Some ==> r->0 == supported@[0],
{
    if supported.len() == 0 {
        None
    } else {
        Some(supported[0])
    }
}

/// A renderer's logical state.
pub struct App {
    config: SurfaceConfig,
    lost_streak: u32,
}

impl View for App {
    type V = AppView;

    closed spec fn view(&self) -> AppView {
        AppView { config: self.config, lost_streak: self.lost_streak as nat }
    }
}

impl App {
    /// A renderer for a surface of `width` by `height`, once the backend
    /// negotiation has reported `backend_ready`.
    pub fn new(backend_ready: bool, width: u32, height: u32) -> (r: Result<App, RenderError>)
        ensures
            !backend_ready ==> r == Err::<App, RenderError>(RenderError::BackendUnavailable),
            backend_ready && (width == 0 || height == 0) ==> r == Err::<App, RenderError>(
                RenderError::InvalidDimensions,
            ),
            backend_ready && width > 0 && height > 0 ==> r is Ok,
            r matches Ok(a) ==> a@ == (AppView {
                config: SurfaceConfig { width, height },
                lost_streak: 0,
            }) && a@.wf(),
    {
        if !backend_ready {
            Err(RenderError::BackendUnavailable)
        } else if width == 0 || height == 0 {
            Err(RenderError::InvalidDimensions)
        } else {
            Ok(App { config: SurfaceConfig { width, height }, lost_streak: 0 })
        }
    }

    /// The update rule: the state switches to opaque green.
    pub fn update(state: &mut State)
        ensures
            final(state).color == Color::spec_green(),
            final(state).wf(),
    {
        proof {
            assert(crate::color::ONE_BITS & crate::color::EXPONENT_MASK
                != crate::color::EXPONENT_MASK) by (bit_vector);
            assert(crate::color::ZERO_BITS & crate::color::EXPONENT_MASK
                != crate::color::EXPONENT_MASK) by (bit_vector);
        }
        state.update_color(Color::green());
    }

    /// Reconfigures the surface to `new_width` by `new_height`.
    pub fn resize(&mut self, new_width: u32, new_height: u32) -> (r: Result<(), RenderError>)
        requires
            old(self)@.wf(),
        ensures
            (final(self)@, r) == resize_result(old(self)@, new_width, new_height),
            final(self)@.wf(),
    {
        if new_width == 0 || new_height == 0 {
            Err(RenderError::InvalidDimensions)
        } else {
            self.config = SurfaceConfig { width: new_width, height: new_height };
            Ok(())
        }
    }

    /// Renders one frame cleared to `color`, a snapshot of the render state
    /// taken once; `acquired` says whether the next surface image was had.
    pub fn render(&mut self, color: Color, acquired: bool) -> (r: Result<Frame, RenderError>)
        requires
            old(self)@.wf(),
        ensures
            (final(self)@, r) == render_result(old(self)@, color, acquired),
            final(self)@.wf(),
    {
        if acquired {
            self.lost_streak = 0;
            Ok(
                Frame {
                    clear: color,
                    width: self.config.width,
                    height: self.config.height,
                    vertex_count: TRIANGLE_VERTICES,
                    instance_count: TRIANGLE_INSTANCES,
                },
            )
        } else {
            if self.lost_streak < MAX_LOST_FRAMES {
                self.lost_streak = self.lost_streak + 1;
            }
            Err(RenderError::SurfaceLost)
        }
    }

    /// The current surface configuration.
    pub fn config(&self) -> (c: SurfaceConfig)
        ensures
            c == self@.config,
    {
        self.config
    }

    /// Whether so many frames in a row have lost their image that the loss
    /// is fatal.
    pub fn is_exhausted(&self) -> (r: bool)
        ensures
            r == self@.exhausted(),
    {
        self.lost_streak >= MAX_LOST_FRAMES
    }
}

/// After a resize to a non-zero extent, the next frame whose image is
/// acquired draws, over an image of exactly that extent.
pub proof fn lemma_resize_then_render(s: AppView, w: u32, h: u32, color: Color)
    requires
        s.wf(),
        w > 0,
        h > 0,
    ensures
        ({
            let resized = resize_result(s, w, h).0;
            let r = render_result(resized, color, true).1;
            &&& r is Ok
            &&& r->Ok_0.width == w
            &&& r->Ok_0.height == h
            &&& r->Ok_0.clear == color
        }),
{
}

/// A resize with a zero extent is rejected with `InvalidDimensions` and
/// leaves the configuration as it was.
pub proof fn lemma_resize_zero_rejected(s: AppView, w: u32, h: u32)
    requires
        w == 0 || h == 0,
    ensures
        resize_result(s, w, h).1 == Err::<(), RenderError>(RenderError::InvalidDimensions),
        resize_result(s, w, h).0 == s,
{
}

/// Resizing twice to the same extent leaves the renderer as one resize does,
/// and the second call returns what the first did.
pub proof fn lemma_resize_idempotent(s: AppView, w: u32, h: u32)
    ensures
        resize_result(resize_result(s, w, h).0, w, h) == resize_result(s, w, h),
{
}

} // verus!
