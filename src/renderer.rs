use vstd::prelude::*;
use crate::color::{argb, to_u32_argb};
use crate::frame::{fill_solid, is_solid};

verus! {

/// Title of the window created at activation.
pub const WINDOW_TITLE: &'static str = "Desktop Renderer";

/// Logical width of the drawable area before any resize.
pub const DEFAULT_WIDTH: u32 = 640;

/// Logical height of the drawable area before any resize.
pub const DEFAULT_HEIGHT: u32 = 480;

/// Red channel of the frame color.
pub const FRAME_RED: u8 = 198;

/// Green channel of the frame color.
pub const FRAME_GREEN: u8 = 0;

/// Blue channel of the frame color.
pub const FRAME_BLUE: u8 = 148;

/// Where the controller stands between process start and loop exit.
#[derive(Clone, Copy, Debug, PartialEq, Eq, Structural)]
pub enum Lifecycle {
    /// No window or surface exists yet.
    Uninitialized,
    /// The window and its surface exist; resizes and redraws are served.
    Running,
    /// The loop was told to exit; no event is served any more.
    Terminated,
}

/// The window events that the controller reacts to.
#[derive(Clone, Copy, Debug, PartialEq, Eq, Structural)]
pub enum WindowEvent {
    CloseRequested,
    Resized { width: u32, height: u32 },
    RedrawRequested,
    /// Any other event of the window system; it is ignored.
    Other,
}

/// What the caller driving the window system must do after an event.
#[derive(Clone, Copy, Debug, PartialEq, Eq, Structural)]
pub enum Command {
    /// Nothing to do.
    Nothing,
    /// Create a window titled `WINDOW_TITLE` of this logical size, then a
    /// pixel surface bound to it; any failure is fatal.
    CreateWindow { width: u32, height: u32 },
    /// Terminate the event loop.
    ExitLoop,
    /// Resize the pixel surface to these dimensions; a failure is fatal.
    ResizeSurface { width: u32, height: u32 },
    /// Take the surface's `width * height` buffer, paint it with
    /// `DesktopRenderer::draw_frame`, present it, and request the next redraw.
    Present { width: u32, height: u32 },
}

/// The controller's state as a plain value.
pub struct RendererView {
    pub width: u32,
    pub height: u32,
    pub lifecycle: Lifecycle,
}

/// The packed color of every pixel of every frame.
pub open spec fn frame_color() -> int {
    argb(FRAME_RED, FRAME_GREEN, FRAME_BLUE)
}

/// The state after activation and the command it issues.
pub open spec fn activate(s: RendererView) -> (RendererView, Command) {
    match s.lifecycle {
        Lifecycle::Terminated => (s, Command::Nothing),
        _ => (
            RendererView { lifecycle: Lifecycle::Running, ..s },
            Command::CreateWindow { width: s.width, height: s.height },
        ),
    }
}

/// The state after one window event and the command it issues.
pub open spec fn step(s: RendererView, e: WindowEvent) -> (RendererView, Command) {
    match s.lifecycle {
        Lifecycle::Terminated => (s, Command::Nothing),
        Lifecycle::Uninitialized => match e {
            WindowEvent::CloseRequested => (
                RendererView { lifecycle: Lifecycle::Terminated, ..s },
                Command::ExitLoop,
            ),
            _ => (s, Command::Nothing),
        },
        Lifecycle::Running => match e {
            WindowEvent::CloseRequested => (
                RendererView { lifecycle: Lifecycle::Terminated, ..s },
                Command::ExitLoop,
            ),
            WindowEvent::Resized { width, height } => if width != 0 && height != 0 {
                (
                    RendererView { width, height, ..s },
                    Command::ResizeSurface { width, height },
                )
            } else {
                (s, Command::Nothing)
            },
            WindowEvent::RedrawRequested => (
                s,
                Command::Present { width: s.width, height: s.height },
            ),
            WindowEvent::Other => (s, Command::Nothing),
        },
    }
}

/// Bridges window events to pixel-surface work: holds the current size of
/// the drawable area and where the lifecycle stands.
pub struct DesktopRenderer {
    width: u32,
    height: u32,
    lifecycle: Lifecycle,
}

impl View for DesktopRenderer {
    type V = RendererView;

    closed spec fn view(&self) -> RendererView {
        RendererView { width: self.width, height: self.height, lifecycle: self.lifecycle }
    }
}

impl DesktopRenderer {
    /// The stored size is never zero in either dimension.
    #[verifier::type_invariant]
    spec fn inv(self) -> bool {
        self.width > 0 && self.height > 0
    }

    /// A controller of the default size, before activation.
    pub fn new() -> (r: Self)
        ensures
            r@ == (RendererView {
                width: DEFAULT_WIDTH,
                height: DEFAULT_HEIGHT,
                lifecycle: Lifecycle::Uninitialized,
            }),
    {
        DesktopRenderer {
            width: DEFAULT_WIDTH,
            height: DEFAULT_HEIGHT,
            lifecycle: Lifecycle::Uninitialized,
        }
    }

    /// Current width of the drawable area.
    pub fn width(&self) -> (r: u32)
        ensures
            r == self@.width,
            r > 0,
    {
        proof {
            use_type_invariant(self);
        }
        self.width
    }

    /// Current height of the drawable area.
    pub fn height(&self) -> (r: u32)
        ensures
            r == self@.height,
            r > 0,
    {
        proof {
            use_type_invariant(self);
        }
        self.height
    }

    /// Where the lifecycle stands.
    pub fn lifecycle(&self) -> (r: Lifecycle)
        ensures
            r == self@.lifecycle,
    {
        self.lifecycle
    }

    /// Handles the window system's activation: asks for the window and its
    /// surface at the current size, unless the loop was already told to exit.
    pub fn resumed(&mut self) -> (c: Command)
        ensures
            (final(self)@, c) == activate(old(self)@),
    {
        proof {
            use_type_invariant(&*self);
        }
        match self.lifecycle {
            Lifecycle::Terminated => Command::Nothing,
            _ => {
                self.lifecycle = Lifecycle::Running;
                Command::CreateWindow { width: self.width, height: self.height }
            },
        }
    }

    /// Handles one window event: close ends the loop, a resize to a nonzero
    /// size is stored and passed to the surface, a redraw asks for a frame.
    pub fn window_event(&mut self, event: WindowEvent) -> (c: Command)
        ensures
            (final(self)@, c) == step(old(self)@, event),
    {
        proof {
            use_type_invariant(&*self);
        }
        match self.lifecycle {
            Lifecycle::Terminated => Command::Nothing,
            Lifecycle::Uninitialized => match event {
                WindowEvent::CloseRequested => {
                    self.lifecycle = Lifecycle::Terminated;
                    Command::ExitLoop
                },
                _ => Command::Nothing,
            },
            Lifecycle::Running => match event {
                WindowEvent::CloseRequested => {
                    self.lifecycle = Lifecycle::Terminated;
                    Command::ExitLoop
                },
                WindowEvent::Resized { width, height } => {
                    if width != 0 && height != 0 {
                        self.width = width;
                        self.height = height;
                        Command::ResizeSurface { width, height }
                    } else {
                        Command::Nothing
                    }
                },
                WindowEvent::RedrawRequested => Command::Present {
                    width: self.width,
                    height: self.height,
                },
                WindowEvent::Other => Command::Nothing,
            },
        }
    }

    /// Paints one frame: every pixel of the `width * height` buffer gets the
    /// packed frame color.
    pub fn draw_frame(&self, buffer: &mut [u32])
        requires
            old(buffer)@.len() == self@.width as int * self@.height as int,
        ensures
            final(buffer)@.len() == old(buffer)@.len(),
            forall|i: int| 0 <= i < final(buffer)@.len() ==> #[trigger] final(buffer)@[i] as int == frame_color(),
    {
        let color = to_u32_argb((FRAME_RED, FRAME_GREEN, FRAME_BLUE));
        fill_solid(buffer, self.width, self.height, color);
        assert(is_solid(buffer@, color));
    }
}

/// The diagnostic phase of a frame drawn `millis` milliseconds after the
/// Unix epoch: one step per 32 ms, wrapping at 256.
pub fn frame_phase(millis: u128) -> (d: u128)
    ensures
        d as int == millis as int / 32 % 256,
        d < 256,
{
    millis / 32 % 256
}

} // verus!
