use desktop_renderer::{
    fill_solid, frame_phase, put_pixel, to_u32_argb, Command, DesktopRenderer, Lifecycle,
    WindowEvent, DEFAULT_HEIGHT, DEFAULT_WIDTH, FRAME_BLUE, FRAME_GREEN, FRAME_RED, WINDOW_TITLE,
};

fn running() -> DesktopRenderer {
    let mut r = DesktopRenderer::new();
    r.resumed();
    r
}

fn frame_of(r: &DesktopRenderer, c: Command) -> Vec<u32> {
    match c {
        Command::Present { width, height } => {
            let mut buffer = vec![0u32; width as usize * height as usize];
            r.draw_frame(&mut buffer);
            buffer
        }
        other => panic!("expected a frame, got {:?}", other),
    }
}

#[test]
fn pack_examples() {
    assert_eq!(to_u32_argb((198, 0, 148)), 0x00C6_0094);
    assert_eq!(to_u32_argb((0, 0, 0)), 0);
    assert_eq!(to_u32_argb((255, 255, 255)), 0x00FF_FFFF);
    assert_eq!(to_u32_argb((1, 2, 3)), 0x0001_0203);
    assert_eq!(to_u32_argb((FRAME_RED, FRAME_GREEN, FRAME_BLUE)), 0x00C6_0094);
}

#[test]
fn pack_matches_shifts_for_all_channels() {
    for r in [0u8, 1, 127, 128, 198, 255] {
        for g in [0u8, 7, 128, 255] {
            for b in [0u8, 148, 255] {
                let expected = (r as u32) << 16 | (g as u32) << 8 | b as u32;
                assert_eq!(to_u32_argb((r, g, b)), expected);
                assert_eq!(to_u32_argb((r, g, b)) >> 24, 0);
            }
        }
    }
}

#[test]
fn new_has_default_size() {
    let r = DesktopRenderer::new();
    assert_eq!(r.width(), 640);
    assert_eq!(r.height(), 480);
    assert_eq!(DEFAULT_WIDTH, 640);
    assert_eq!(DEFAULT_HEIGHT, 480);
    assert_eq!(r.lifecycle(), Lifecycle::Uninitialized);
    assert_eq!(WINDOW_TITLE, "Desktop Renderer");
}

#[test]
fn activation_asks_for_window_of_current_size() {
    let mut r = DesktopRenderer::new();
    assert_eq!(r.resumed(), Command::CreateWindow { width: 640, height: 480 });
    assert_eq!(r.lifecycle(), Lifecycle::Running);
}

#[test]
fn redraw_paints_whole_default_frame() {
    let mut r = running();
    let c = r.window_event(WindowEvent::RedrawRequested);
    assert_eq!(c, Command::Present { width: 640, height: 480 });
    let buffer = frame_of(&r, c);
    assert_eq!(buffer.len(), 640 * 480);
    assert!(buffer.iter().all(|&p| p == 0x00C6_0094));
}

#[test]
fn draw_frame_overwrites_every_pixel() {
    let mut r = running();
    r.window_event(WindowEvent::Resized { width: 3, height: 2 });
    let mut buffer = vec![7u32; 6];
    r.draw_frame(&mut buffer);
    assert_eq!(buffer, vec![0x00C6_0094; 6]);
}

#[test]
fn zero_width_resize_is_ignored() {
    let mut r = running();
    assert_eq!(r.window_event(WindowEvent::Resized { width: 0, height: 300 }), Command::Nothing);
    assert_eq!((r.width(), r.height()), (640, 480));
}

#[test]
fn zero_height_resize_is_ignored() {
    let mut r = running();
    r.window_event(WindowEvent::Resized { width: 100, height: 50 });
    assert_eq!(r.window_event(WindowEvent::Resized { width: 300, height: 0 }), Command::Nothing);
    assert_eq!(r.window_event(WindowEvent::Resized { width: 0, height: 0 }), Command::Nothing);
    assert_eq!((r.width(), r.height()), (100, 50));
}

#[test]
fn nonzero_resize_is_stored_and_sizes_next_frame() {
    let mut r = running();
    assert_eq!(
        r.window_event(WindowEvent::Resized { width: 17, height: 5 }),
        Command::ResizeSurface { width: 17, height: 5 }
    );
    assert_eq!((r.width(), r.height()), (17, 5));
    let c = r.window_event(WindowEvent::RedrawRequested);
    assert_eq!(c, Command::Present { width: 17, height: 5 });
    assert_eq!(frame_of(&r, c).len(), 85);
}

#[test]
fn activate_resize_redraw_sequence() {
    let mut r = DesktopRenderer::new();
    r.resumed();
    r.window_event(WindowEvent::Resized { width: 800, height: 600 });
    let c = r.window_event(WindowEvent::RedrawRequested);
    let buffer = frame_of(&r, c);
    assert_eq!(buffer.len(), 480_000);
    assert!(buffer.iter().all(|&p| p == 0x00C6_0094));
}

#[test]
fn close_exits_exactly_once() {
    let mut r = running();
    assert_eq!(r.window_event(WindowEvent::CloseRequested), Command::ExitLoop);
    assert_eq!(r.lifecycle(), Lifecycle::Terminated);
    assert_eq!(r.window_event(WindowEvent::CloseRequested), Command::Nothing);
    assert_eq!(r.window_event(WindowEvent::RedrawRequested), Command::Nothing);
    assert_eq!(r.window_event(WindowEvent::Resized { width: 10, height: 10 }), Command::Nothing);
    assert_eq!(r.resumed(), Command::Nothing);
    assert_eq!((r.width(), r.height()), (640, 480));
}

#[test]
fn events_before_activation() {
    let mut r = DesktopRenderer::new();
    assert_eq!(r.window_event(WindowEvent::RedrawRequested), Command::Nothing);
    assert_eq!(r.window_event(WindowEvent::Resized { width: 5, height: 5 }), Command::Nothing);
    assert_eq!((r.width(), r.height()), (640, 480));
    assert_eq!(r.window_event(WindowEvent::CloseRequested), Command::ExitLoop);
}

#[test]
fn other_events_are_ignored() {
    let mut r = running();
    assert_eq!(r.window_event(WindowEvent::Other), Command::Nothing);
    assert_eq!(r.lifecycle(), Lifecycle::Running);
}

#[test]
fn put_pixel_uses_row_major_offset() {
    let mut buffer = vec![0u32; 12];
    put_pixel(&mut buffer, 4, 1, 2, 9);
    assert_eq!(buffer[1 + 4 * 2], 9);
    assert_eq!(buffer.iter().filter(|&&p| p != 0).count(), 1);
}

#[test]
fn fill_solid_covers_frame() {
    let mut buffer = vec![1u32; 35];
    fill_solid(&mut buffer, 7, 5, 42);
    assert!(buffer.iter().all(|&p| p == 42));
    let mut empty: Vec<u32> = Vec::new();
    fill_solid(&mut empty, 0, 9, 42);
    assert!(empty.is_empty());
}

#[test]
fn phase_steps_every_32_ms_and_wraps() {
    assert_eq!(frame_phase(0), 0);
    assert_eq!(frame_phase(31), 0);
    assert_eq!(frame_phase(32), 1);
    assert_eq!(frame_phase(100), 3);
    assert_eq!(frame_phase(32 * 256), 0);
    assert_eq!(frame_phase(32 * 257 + 5), 1);
}
