//! The GL-over-EGL backend on the compositor: a GL surface created on a
//! native sub-window at a fixed initial size, driven by buffer swaps.
//!
//! Construction follows a strict ordering: every step depends on the one
//! before it succeeding, and the shell aborts construction on the first
//! native failure. The surface size is fixed at construction; this backend
//! has no resize-recreation path, unlike the other families.

use vstd::prelude::*;
use crate::color::Vec4;
use crate::RenderBatch;
use crate::SizeResult;

verus! {

/// One native call of the GL/EGL per-frame protocol. Channels are on the
/// 0..=255 scale; the shell maps them to the unit floats GL expects.
#[derive(Clone, Copy, Debug, PartialEq, Eq, Structural)]
pub enum EglCmd {
    /// Pump pending display events without blocking.
    DispatchPending,
    /// Set the GL clear color.
    ClearColor { r: u32, g: u32, b: u32, a: u32 },
    /// Clear the color buffer.
    ClearColorBuffer,
    /// Swap the EGL buffers to present the frame.
    SwapBuffers,
}

/// One step of the construction protocol, in the order the shell must
/// perform them; a failure of any step aborts construction.
#[derive(Clone, Copy, Debug, PartialEq, Eq, Structural)]
pub enum EglSetupStep {
    /// Connect to the display server.
    ConnectDisplay,
    /// Acquire the EGL display from the native display.
    GetDisplay,
    /// Initialize EGL on that display.
    Initialize,
    /// Choose the first config matching the required buffer attributes.
    ChooseConfig,
    /// Create the native sub-window surface at its fixed initial size.
    CreateNativeWindow { width: u32, height: u32 },
    /// Wrap the native window as an EGL window surface.
    CreateWindowSurface,
    /// Create an EGL context requesting the given client version.
    CreateContext { client_version: u32 },
    /// Make the context current on the surface.
    MakeCurrent,
}

/// The buffer attributes the chosen EGL config must match.
#[derive(Clone, Copy, Debug, PartialEq, Eq, Structural)]
pub struct EglConfigSpec {
    pub red_size: u32,
    pub green_size: u32,
    pub blue_size: u32,
    pub depth_size: u32,
    /// The config must support window surfaces.
    pub window_surface: bool,
    /// The config must be renderable with GL ES 2.
    pub es2: bool,
}

/// The attributes the construction protocol requires of its config: eight
/// bits per color channel, a 24-bit depth buffer, window surfaces, and
/// GL ES 2 renderability.
pub fn egl_config_spec() -> (r: EglConfigSpec)
    ensures
        r == (EglConfigSpec {
            red_size: 8,
            green_size: 8,
            blue_size: 8,
            depth_size: 24,
            window_surface: true,
            es2: true,
        }),
{
    EglConfigSpec {
        red_size: 8,
        green_size: 8,
        blue_size: 8,
        depth_size: 24,
        window_surface: true,
        es2: true,
    }
}

/// The GL/EGL backend bound to one compositor surface.
#[derive(Clone, Copy, Debug, PartialEq, Eq, Structural)]
pub struct WaylandBackend {
    /// The native surface, carried as the address of the object.
    pub surface: usize,
    /// The fixed width the GL surface was created with.
    pub width: u32,
    /// The fixed height the GL surface was created with.
    pub height: u32,
}

/// The edge length of the fixed initial sub-window surface.
pub const INITIAL_EGL_SURFACE_SIZE: u32 = 520;

/// The ordered construction steps of the GL/EGL backend.
pub open spec fn spec_egl_setup_steps() -> Seq<EglSetupStep> {
    seq![
        EglSetupStep::ConnectDisplay,
        EglSetupStep::GetDisplay,
        EglSetupStep::Initialize,
        EglSetupStep::ChooseConfig,
        EglSetupStep::CreateNativeWindow {
            width: INITIAL_EGL_SURFACE_SIZE,
            height: INITIAL_EGL_SURFACE_SIZE,
        },
        EglSetupStep::CreateWindowSurface,
        EglSetupStep::CreateContext { client_version: 2 },
        EglSetupStep::MakeCurrent,
    ]
}

/// Creates the GL/EGL backend on a compositor surface and hands the shell
/// the strictly ordered construction steps; the shell aborts on the first
/// step that fails.
pub fn create_wayland_backend(surface: usize) -> (r: (WaylandBackend, Vec<EglSetupStep>))
    ensures
        r.0 == (WaylandBackend {
            surface,
            width: INITIAL_EGL_SURFACE_SIZE,
            height: INITIAL_EGL_SURFACE_SIZE,
        }),
        r.1@ == spec_egl_setup_steps(),
{
    let steps = vec![
        EglSetupStep::ConnectDisplay,
        EglSetupStep::GetDisplay,
        EglSetupStep::Initialize,
        EglSetupStep::ChooseConfig,
        EglSetupStep::CreateNativeWindow {
            width: INITIAL_EGL_SURFACE_SIZE,
            height: INITIAL_EGL_SURFACE_SIZE,
        },
        EglSetupStep::CreateWindowSurface,
        EglSetupStep::CreateContext { client_version: 2 },
        EglSetupStep::MakeCurrent,
    ];
    (
        WaylandBackend {
            surface,
            width: INITIAL_EGL_SURFACE_SIZE,
            height: INITIAL_EGL_SURFACE_SIZE,
        },
        steps,
    )
}

impl WaylandBackend {
    /// Starts a frame: pumps pending display events, then clears the color
    /// buffer to opaque white.
    pub fn begin_draw(&mut self) -> (cmds: Vec<EglCmd>)
        ensures
            *final(self) == *old(self),
            cmds@ == seq![
                EglCmd::DispatchPending,
                EglCmd::ClearColor { r: 255, g: 255, b: 255, a: 255 },
                EglCmd::ClearColorBuffer,
            ],
    {
        let cmds = vec![
            EglCmd::DispatchPending,
            EglCmd::ClearColor { r: 255, g: 255, b: 255, a: 255 },
            EglCmd::ClearColorBuffer,
        ];
        cmds
    }

    /// Ends a frame by swapping the EGL buffers.
    pub fn flush(&self) -> (cmds: Vec<EglCmd>)
        ensures
            cmds@ == seq![EglCmd::SwapBuffers],
    {
        vec![EglCmd::SwapBuffers]
    }

    /// This backend cannot report its display size yet: an explicit
    /// not-yet-implemented stop, never a stale answer.
    pub fn get_display_size(&self) -> (r: SizeResult)
        ensures
            r is Unimplemented,
    {
        SizeResult::Unimplemented
    }

    /// Fills the entire visible surface with the solid color: the clear
    /// color is set to the caller's channels and the color buffer cleared.
    pub fn clear(&self, v: Vec4) -> (cmds: Vec<EglCmd>)
        ensures
            cmds@ == seq![
                EglCmd::ClearColor { r: v.0, g: v.1, b: v.2, a: v.3 },
                EglCmd::ClearColorBuffer,
            ],
    {
        vec![
            EglCmd::ClearColor { r: v.0, g: v.1, b: v.2, a: v.3 },
            EglCmd::ClearColorBuffer,
        ]
    }

    /// The shape primitives are not implemented on this backend: each call
    /// is an explicit not-yet-implemented stop.
    pub fn draw_primitive(&self) -> (r: RenderBatch)
        ensures
            r is Unimplemented,
    {
        RenderBatch::Unimplemented
    }
}

} // verus!
