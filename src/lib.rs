//! A window controller that paints every frame in one solid color.
//!
//! The library holds the controller's decisions and the frame's pixel content;
//! the window system and the presentation surface are driven by the caller,
//! which carries out the `Command` that each event hands back.

pub mod color;
pub mod frame;
pub mod laws;
pub mod renderer;

pub use color::to_u32_argb;
pub use frame::{fill_solid, put_pixel};
pub use renderer::{
    frame_phase, Command, DesktopRenderer, Lifecycle, WindowEvent, DEFAULT_HEIGHT, DEFAULT_WIDTH,
    FRAME_BLUE, FRAME_GREEN, FRAME_RED, WINDOW_TITLE,
};
