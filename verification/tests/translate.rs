use sixel_backend::events::{
    map_button, Event, KeyEvent, KeyEventKind, MouseButton, MouseEvent, MouseEventKind,
    PointerButton, WindowEvent,
};
use sixel_backend::geometry::{CellSpan, Geometry, WindowSize};
use sixel_backend::keys::{keycode_to_text, KeyCode};
use sixel_backend::modifiers::{KeyModifiers, Modifier};
use sixel_backend::translate::{translate, translate_paste, with_modifiers, Reaction};
use slint::platform::Key;

const NONE: KeyModifiers = KeyModifiers { bits: 0 };

fn held(flags: crossterm::event::KeyModifiers) -> KeyModifiers {
    KeyModifiers { bits: flags.bits() }
}

fn shift() -> KeyModifiers {
    held(crossterm::event::KeyModifiers::SHIFT)
}

fn control() -> KeyModifiers {
    held(crossterm::event::KeyModifiers::CONTROL)
}

fn geometry() -> Geometry {
    Geometry::from_window_size(WindowSize { columns: 80, rows: 24, width: 800, height: 480 })
}

fn key(code: KeyCode, modifiers: KeyModifiers, kind: KeyEventKind) -> Reaction {
    translate(&geometry(), Event::Key(KeyEvent { code, modifiers, kind }))
}

fn mouse(kind: MouseEventKind, modifiers: KeyModifiers) -> Reaction {
    translate(&geometry(), Event::Mouse(MouseEvent { kind, column: 7, row: 2, modifiers }))
}

fn press(text: char) -> WindowEvent {
    WindowEvent::KeyPressed { text }
}

fn repeat(text: char) -> WindowEvent {
    WindowEvent::KeyPressRepeated { text }
}

fn release(text: char) -> WindowEvent {
    WindowEvent::KeyReleased { text }
}

#[test]
fn modifiers_are_those_of_the_terminal() {
    let flags = [
        (Modifier::Shift, crossterm::event::KeyModifiers::SHIFT),
        (Modifier::Control, crossterm::event::KeyModifiers::CONTROL),
        (Modifier::Alt, crossterm::event::KeyModifiers::ALT),
        (Modifier::Super, crossterm::event::KeyModifiers::SUPER),
        (Modifier::Hyper, crossterm::event::KeyModifiers::HYPER),
        (Modifier::Meta, crossterm::event::KeyModifiers::META),
    ];
    for bits in 0..=255u8 {
        let mods = KeyModifiers { bits };
        for (modifier, flag) in flags {
            assert_eq!(mods.contains(modifier), bits & flag.bits() != 0);
        }
    }
}

#[test]
fn named_keys_have_the_characters_of_the_window() {
    let named = [
        (KeyCode::Enter, Key::Return),
        (KeyCode::Backspace, Key::Backspace),
        (KeyCode::Esc, Key::Escape),
        (KeyCode::Tab, Key::Tab),
        (KeyCode::BackTab, Key::Backtab),
        (KeyCode::Delete, Key::Delete),
        (KeyCode::Insert, Key::Insert),
        (KeyCode::Up, Key::UpArrow),
        (KeyCode::Down, Key::DownArrow),
        (KeyCode::Left, Key::LeftArrow),
        (KeyCode::Right, Key::RightArrow),
        (KeyCode::Home, Key::Home),
        (KeyCode::End, Key::End),
        (KeyCode::PageUp, Key::PageUp),
        (KeyCode::PageDown, Key::PageDown),
    ];
    for (code, key) in named {
        let text: slint::SharedString = key.into();
        let (c, printable) = keycode_to_text(code).unwrap();
        assert_eq!(slint::SharedString::from(c), text);
        assert!(!printable);
    }
    assert_eq!(keycode_to_text(KeyCode::Left), Some(('\u{F702}', false)));
    assert_eq!(keycode_to_text(KeyCode::Enter), Some(('\n', false)));
}

#[test]
fn different_keys_have_different_texts() {
    let codes = [
        KeyCode::Enter, KeyCode::Backspace, KeyCode::Esc, KeyCode::Tab, KeyCode::BackTab,
        KeyCode::Delete, KeyCode::Insert, KeyCode::Up, KeyCode::Down, KeyCode::Left,
        KeyCode::Right, KeyCode::Home, KeyCode::End, KeyCode::PageUp, KeyCode::PageDown,
        KeyCode::Char('\n'), KeyCode::Char('a'), KeyCode::Char('A'),
    ];
    for (i, a) in codes.iter().enumerate() {
        for (j, b) in codes.iter().enumerate() {
            assert_eq!(keycode_to_text(*a) == keycode_to_text(*b), i == j);
        }
    }
}

#[test]
fn characters_stand_for_themselves() {
    assert_eq!(keycode_to_text(KeyCode::Char('x')), Some(('x', true)));
    assert_eq!(keycode_to_text(KeyCode::Char('\u{e9}')), Some(('\u{e9}', true)));
}

#[test]
fn other_keys_are_not_passed_on() {
    for code in [
        KeyCode::F(1),
        KeyCode::Null,
        KeyCode::Menu,
        KeyCode::CapsLock,
        KeyCode::ScrollLock,
        KeyCode::NumLock,
        KeyCode::PrintScreen,
        KeyCode::Pause,
        KeyCode::KeypadBegin,
        KeyCode::Media,
        KeyCode::Modifier,
    ] {
        assert_eq!(keycode_to_text(code), None);
        assert_eq!(key(code, control(), KeyEventKind::Press), Reaction::Dispatch(vec![]));
    }
}

#[test]
fn a_key_is_pressed_and_released() {
    assert_eq!(
        key(KeyCode::Char('a'), NONE, KeyEventKind::Press),
        Reaction::Dispatch(vec![press('a'), release('a')])
    );
    assert_eq!(
        key(KeyCode::Char('a'), NONE, KeyEventKind::Repeat),
        Reaction::Dispatch(vec![repeat('a'), release('a')])
    );
    assert_eq!(
        key(KeyCode::Char('a'), NONE, KeyEventKind::Release),
        Reaction::Dispatch(vec![])
    );
}

#[test]
fn shift_is_pressed_for_named_keys_only() {
    assert_eq!(
        key(KeyCode::Char('A'), shift(), KeyEventKind::Press),
        Reaction::Dispatch(vec![press('A'), release('A')])
    );
    let (s, up) = (char::from(Key::Shift), char::from(Key::UpArrow));
    assert_eq!(
        key(KeyCode::Up, shift(), KeyEventKind::Press),
        Reaction::Dispatch(vec![press(s), press(up), release(up), release(s)])
    );
}

#[test]
fn control_c_and_q_quit() {
    for kind in [KeyEventKind::Press, KeyEventKind::Repeat] {
        for c in ['c', 'q'] {
            assert_eq!(key(KeyCode::Char(c), control(), kind), Reaction::Quit);
            let more = KeyModifiers { bits: control().bits | shift().bits };
            assert_eq!(key(KeyCode::Char(c), more, kind), Reaction::Quit);
        }
    }
    let ctrl = char::from(Key::Control);
    assert_eq!(
        key(KeyCode::Char('c'), control(), KeyEventKind::Release),
        Reaction::Dispatch(vec![])
    );
    assert_eq!(
        key(KeyCode::Char('C'), control(), KeyEventKind::Press),
        Reaction::Dispatch(vec![press(ctrl), press('C'), release('C'), release(ctrl)])
    );
    assert_eq!(
        key(KeyCode::Char('c'), NONE, KeyEventKind::Press),
        Reaction::Dispatch(vec![press('c'), release('c')])
    );
}

#[test]
fn modifiers_are_released_in_reverse_order() {
    let all = KeyModifiers { bits: 0b0011_1111 };
    let (s, c) = (char::from(Key::Shift), char::from(Key::Control));
    let (a, m) = (char::from(Key::Alt), char::from(Key::Meta));
    let inner = WindowEvent::WindowActiveChanged(true);
    assert_eq!(
        with_modifiers(all, true, vec![inner]),
        vec![
            press(s), press(c), press(a), press(m),
            inner,
            release(m), release(a), release(c), release(s),
        ]
    );
    assert_eq!(
        with_modifiers(all, false, vec![]),
        vec![press(c), press(a), press(m), release(m), release(a), release(c)]
    );
}

#[test]
fn super_and_meta_are_one_key() {
    let m = char::from(Key::Meta);
    for flags in [crossterm::event::KeyModifiers::SUPER, crossterm::event::KeyModifiers::META] {
        assert_eq!(with_modifiers(held(flags), true, vec![]), vec![press(m), release(m)]);
    }
    assert_eq!(
        with_modifiers(held(crossterm::event::KeyModifiers::HYPER), true, vec![]),
        vec![]
    );
}

#[test]
fn buttons_keep_their_names() {
    assert_eq!(map_button(MouseButton::Left), PointerButton::Left);
    assert_eq!(map_button(MouseButton::Right), PointerButton::Right);
    assert_eq!(map_button(MouseButton::Middle), PointerButton::Middle);
}

#[test]
fn clicks_come_with_modifiers() {
    let position = geometry().cell_centre(7, 2);
    let s = char::from(Key::Shift);
    assert_eq!(
        mouse(MouseEventKind::Down(MouseButton::Right), shift()),
        Reaction::Dispatch(vec![
            press(s),
            WindowEvent::PointerPressed { position, button: PointerButton::Right },
            release(s),
        ])
    );
    assert_eq!(
        mouse(MouseEventKind::Up(MouseButton::Left), NONE),
        Reaction::Dispatch(vec![WindowEvent::PointerReleased {
            position,
            button: PointerButton::Left
        }])
    );
}

#[test]
fn moves_come_without_modifiers() {
    let position = geometry().cell_centre(7, 2);
    let moved = Reaction::Dispatch(vec![WindowEvent::PointerMoved { position }]);
    assert_eq!(mouse(MouseEventKind::Moved, shift()), moved);
    assert_eq!(mouse(MouseEventKind::Drag(MouseButton::Left), control()), moved);
}

#[test]
fn the_wheel_scrolls_by_three_cells() {
    let geometry = geometry();
    let scrolled = |right: i32, up: i32| {
        Reaction::Dispatch(vec![WindowEvent::PointerScrolled {
            position: geometry.cell_centre(7, 2),
            delta_x: CellSpan { cells: right, size: geometry.cell_w() },
            delta_y: CellSpan { cells: up, size: geometry.cell_h() },
        }])
    };
    assert_eq!(mouse(MouseEventKind::ScrollUp, shift()), scrolled(0, 3));
    assert_eq!(mouse(MouseEventKind::ScrollDown, NONE), scrolled(0, -3));
    assert_eq!(mouse(MouseEventKind::ScrollLeft, NONE), scrolled(3, 0));
    assert_eq!(mouse(MouseEventKind::ScrollRight, NONE), scrolled(-3, 0));
}

#[test]
fn focus_and_size() {
    assert_eq!(
        translate(&geometry(), Event::FocusGained),
        Reaction::Dispatch(vec![WindowEvent::WindowActiveChanged(true)])
    );
    assert_eq!(
        translate(&geometry(), Event::FocusLost),
        Reaction::Dispatch(vec![WindowEvent::WindowActiveChanged(false)])
    );
    assert_eq!(translate(&geometry(), Event::Resize(100, 30)), Reaction::SyncGeometry);
}

#[test]
fn pasted_text_is_typed() {
    assert_eq!(
        translate(&geometry(), Event::Paste(String::from("a\u{20ac}"))),
        Reaction::Dispatch(vec![
            press('a'), release('a'), press('\u{20ac}'), release('\u{20ac}'),
        ])
    );
    assert_eq!(translate_paste(""), vec![]);
    let mut both = translate_paste("ab");
    both.extend(translate_paste("cd"));
    assert_eq!(both, translate_paste("abcd"));
}

#[test]
fn no_key_is_left_down() {
    let codes = [KeyCode::Char('x'), KeyCode::Char('\u{11}'), KeyCode::Up, KeyCode::F(3)];
    for bits in 0..64u8 {
        for code in codes {
            for kind in [KeyEventKind::Press, KeyEventKind::Repeat, KeyEventKind::Release] {
                if let Reaction::Dispatch(events) = key(code, KeyModifiers { bits }, kind) {
                    let mut down: Vec<char> = Vec::new();
                    for event in events {
                        match event {
                            WindowEvent::KeyPressed { text }
                            | WindowEvent::KeyPressRepeated { text } => {
                                if !down.contains(&text) {
                                    down.push(text);
                                }
                            }
                            WindowEvent::KeyReleased { text } => down.retain(|c| *c != text),
                            _ => {}
                        }
                    }
                    assert_eq!(down, Vec::<char>::new());
                }
            }
        }
    }
}
