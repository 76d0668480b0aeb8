use sixel_backend::backend::SixelBackend;
use sixel_backend::events::{Event, KeyEvent, KeyEventKind, MouseEvent, MouseEventKind, WindowEvent};
use sixel_backend::frame::{encode_frame, Emission, Encoded, Rgb};
use sixel_backend::geometry::{Geometry, WindowSize};
use sixel_backend::keys::KeyCode;
use sixel_backend::modifiers::KeyModifiers;
use sixel_backend::translate::Reaction;

const BLACK: Rgb = Rgb { r: 0, g: 0, b: 0 };
const RED: Rgb = Rgb { r: 255, g: 0, b: 0 };

fn window(columns: u16, rows: u16) -> WindowSize {
    WindowSize { columns, rows, width: 0, height: 0 }
}

#[test]
fn a_new_backend_knows_nothing() {
    let backend = SixelBackend::new();
    assert_eq!(backend.geometry(), Geometry::default());
    assert!(backend.framebuffer().is_empty());
}

#[test]
fn syncing_allocates_a_black_frame() {
    let mut backend = SixelBackend::new();
    assert!(backend.sync_geometry(window(4, 3)));
    assert_eq!(backend.geometry(), Geometry::from_window_size(window(4, 3)));
    assert_eq!(backend.framebuffer(), &vec![BLACK; 32 * 30]);
}

#[test]
fn syncing_again_changes_nothing() {
    let mut backend = SixelBackend::new();
    assert!(backend.sync_geometry(window(4, 3)));
    backend.emit_frame(Some(vec![RED; 32 * 30]));
    assert!(!backend.sync_geometry(window(4, 3)));
    assert_eq!(backend.framebuffer(), &vec![RED; 32 * 30]);
}

#[test]
fn a_new_size_keeps_the_pixels_that_fit() {
    let mut backend = SixelBackend::new();
    backend.sync_geometry(window(4, 3));
    backend.emit_frame(Some(vec![RED; 32 * 30]));
    assert!(backend.sync_geometry(window(5, 3)));
    let mut expected = vec![RED; 32 * 30];
    expected.resize(40 * 30, BLACK);
    assert_eq!(backend.framebuffer(), &expected);
    assert!(backend.sync_geometry(window(1, 2)));
    assert_eq!(backend.framebuffer(), &vec![RED; 8 * 12]);
}

#[test]
fn a_drawn_frame_is_written() {
    let mut backend = SixelBackend::new();
    backend.sync_geometry(window(2, 2));
    let pixels = vec![RED; 16 * 12];
    let image = match encode_frame(&pixels, &backend.geometry()) {
        Encoded::Image(text) => text,
        other => panic!("{:?}", other),
    };
    assert_eq!(
        backend.emit_frame(Some(pixels.clone())),
        Emission::Write(format!("\u{1b}[H{}", image))
    );
    assert_eq!(backend.framebuffer(), &pixels);
}

#[test]
fn a_drawn_frame_with_a_full_palette_is_written() {
    let mut backend = SixelBackend::new();
    backend.sync_geometry(window(12, 7));
    let mut pixels = Vec::new();
    for i in 0..96 * 96u32 {
        let c = (i / 6) % 256;
        pixels.push(Rgb { r: ((c % 16) * 16) as u8, g: ((c / 16) * 16) as u8, b: 0 });
    }
    match backend.emit_frame(Some(pixels)) {
        Emission::Write(output) => assert!(output.starts_with("\u{1b}[H\u{1b}Pq\"1;1;96;96#0;2;")),
        other => panic!("{:?}", other),
    }
}

#[test]
fn nothing_drawn_is_nothing_written() {
    let mut backend = SixelBackend::new();
    backend.sync_geometry(window(2, 2));
    assert_eq!(backend.emit_frame(None), Emission::Nothing);
    assert_eq!(backend.framebuffer(), &vec![BLACK; 16 * 12]);
}

#[test]
fn an_unsynced_backend_writes_nothing() {
    let mut backend = SixelBackend::new();
    assert_eq!(backend.emit_frame(Some(vec![])), Emission::Nothing);
}

#[test]
fn events_are_mapped_with_the_geometry_of_the_backend() {
    let mut backend = SixelBackend::new();
    backend.sync_geometry(window(4, 3));
    let modifiers = KeyModifiers { bits: 0 };
    let moved = MouseEvent { kind: MouseEventKind::Moved, column: 3, row: 1, modifiers };
    assert_eq!(
        backend.handle_event(Event::Mouse(moved)),
        Reaction::Dispatch(vec![WindowEvent::PointerMoved {
            position: backend.geometry().cell_centre(3, 1)
        }])
    );
    let quit = KeyEvent {
        code: KeyCode::Char('q'),
        modifiers: KeyModifiers { bits: 2 },
        kind: KeyEventKind::Press,
    };
    assert_eq!(backend.handle_event(Event::Key(quit)), Reaction::Quit);
}
