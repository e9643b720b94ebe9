use egui_glium::bridge::Bridge;
use egui_glium::bridge::CursorIcon;
use egui_glium::bridge::GuiFlags;
use egui_glium::bridge::HostAction;
use egui_glium::bridge::InputEvent;
use egui_glium::bridge::Key;
use egui_glium::bridge::Modifiers;
use egui_glium::bridge::Output;
use egui_glium::bridge::Platform;
use egui_glium::bridge::PointerButton;
use egui_glium::bridge::WindowEvent;
use egui_glium::bridge::is_printable;
use egui_glium::bridge::sat_add;
use egui_glium::geom::Scale;

fn unit_scale() -> Scale {
    Scale { num: 1, den: 1 }
}

fn new_bridge() -> Bridge {
    Bridge::new(unit_scale(), Platform::Other)
}

fn no_focus() -> GuiFlags {
    GuiFlags { wants_pointer_input: false, wants_keyboard_input: false, is_using_pointer: false }
}

fn default_output() -> Output {
    Output {
        needs_repaint: false,
        cursor: CursorIcon::Default,
        copied_text: String::new(),
        open_url: None,
    }
}

#[test]
fn unfocused_events_are_not_consumed() {
    let mut b = new_bridge();
    let flags = no_focus();
    assert!(!b.on_event(&flags, &WindowEvent::CursorMoved { x: 10, y: 20 }));
    assert!(!b.on_event(
        &flags,
        &WindowEvent::MouseInput { button: PointerButton::Primary, pressed: true }
    ));
    assert!(!b.on_event(&flags, &WindowEvent::MouseWheel { dx: 0, dy: 5 }));
    assert!(!b.on_event(&flags, &WindowEvent::ReceivedCharacter { ch: 'a' }));
    assert!(!b.on_event(
        &flags,
        &WindowEvent::KeyboardInput { key: Key::Other(31), pressed: true }
    ));
    assert!(!b.on_event(&flags, &WindowEvent::CloseRequested));
    assert!(!b.on_event(&flags, &WindowEvent::CursorLeft));
    assert!(!b.on_event(&flags, &WindowEvent::Other));
}

#[test]
fn focus_cycle_key_always_consumed() {
    let mut b = new_bridge();
    let flags = no_focus();
    assert!(b.on_event(&flags, &WindowEvent::KeyboardInput { key: Key::Tab, pressed: true }));
    assert!(b.on_event(&flags, &WindowEvent::KeyboardInput { key: Key::Tab, pressed: false }));
}

#[test]
fn focused_events_are_consumed() {
    let mut b = new_bridge();
    let pointer = GuiFlags {
        wants_pointer_input: true,
        wants_keyboard_input: false,
        is_using_pointer: true,
    };
    assert!(b.on_event(
        &pointer,
        &WindowEvent::MouseInput { button: PointerButton::Primary, pressed: true }
    ));
    assert!(b.on_event(&pointer, &WindowEvent::MouseWheel { dx: 1, dy: 1 }));
    assert!(b.on_event(&pointer, &WindowEvent::CursorMoved { x: 1, y: 1 }));
    let keyboard = GuiFlags {
        wants_pointer_input: false,
        wants_keyboard_input: true,
        is_using_pointer: false,
    };
    assert!(b.on_event(&keyboard, &WindowEvent::ReceivedCharacter { ch: 'x' }));
    assert!(b.on_event(
        &keyboard,
        &WindowEvent::KeyboardInput { key: Key::Other(77), pressed: true }
    ));
}

#[test]
fn quit_event_close_and_destroyed() {
    let b = new_bridge();
    assert!(b.is_quit_event(&WindowEvent::CloseRequested));
    assert!(b.is_quit_event(&WindowEvent::Destroyed));
    assert!(!b.is_quit_event(&WindowEvent::CursorLeft));
    assert!(!b.is_quit_event(&WindowEvent::Other));
}

#[test]
fn quit_event_cmd_q_on_mac() {
    let mut b = Bridge::new(unit_scale(), Platform::Mac);
    let flags = no_focus();
    b.on_event(&flags, &WindowEvent::KeyboardInput { key: Key::Logo, pressed: true });
    assert!(b.is_quit_event(&WindowEvent::KeyboardInput { key: Key::Q, pressed: true }));
    assert!(!b.is_quit_event(&WindowEvent::KeyboardInput { key: Key::Q, pressed: false }));
    // alt-F4 is not the mac chord
    b.on_event(&flags, &WindowEvent::KeyboardInput { key: Key::Alt, pressed: true });
    assert!(!b.is_quit_event(&WindowEvent::KeyboardInput { key: Key::F4, pressed: true }));
    b.on_event(&flags, &WindowEvent::KeyboardInput { key: Key::Logo, pressed: false });
    assert!(!b.is_quit_event(&WindowEvent::KeyboardInput { key: Key::Q, pressed: true }));
}

#[test]
fn quit_event_alt_f4_elsewhere() {
    let mut b = new_bridge();
    let flags = no_focus();
    b.on_event(&flags, &WindowEvent::KeyboardInput { key: Key::Alt, pressed: true });
    assert!(b.is_quit_event(&WindowEvent::KeyboardInput { key: Key::F4, pressed: true }));
    assert!(!b.is_quit_event(&WindowEvent::KeyboardInput { key: Key::F4, pressed: false }));
    assert!(!b.is_quit_event(&WindowEvent::KeyboardInput { key: Key::Q, pressed: true }));
    // the logo key is no quit modifier off mac
    b.on_event(&flags, &WindowEvent::KeyboardInput { key: Key::Alt, pressed: false });
    b.on_event(&flags, &WindowEvent::KeyboardInput { key: Key::Logo, pressed: true });
    assert!(!b.is_quit_event(&WindowEvent::KeyboardInput { key: Key::Q, pressed: true }));
}

#[test]
fn quit_event_other_combinations_false() {
    let mut b = new_bridge();
    let flags = no_focus();
    b.on_event(&flags, &WindowEvent::KeyboardInput { key: Key::Ctrl, pressed: true });
    assert!(!b.is_quit_event(&WindowEvent::KeyboardInput { key: Key::Q, pressed: true }));
    assert!(!b.is_quit_event(&WindowEvent::KeyboardInput { key: Key::F4, pressed: true }));
    assert!(!b.is_quit_event(&WindowEvent::KeyboardInput { key: Key::Tab, pressed: true }));
}

#[test]
fn take_input_returns_pending_then_empty() {
    let mut b = new_bridge();
    let flags = no_focus();
    b.on_event(&flags, &WindowEvent::CursorMoved { x: 3, y: 4 });
    b.on_event(&flags, &WindowEvent::MouseWheel { dx: 2, dy: 7 });
    let first = b.take_input(640, 480);
    assert_eq!(first.events.len(), 1);
    assert!(matches!(first.events[0], InputEvent::PointerMoved { x: 3, y: 4 }));
    assert_eq!(first.scroll_x, 2);
    assert_eq!(first.scroll_y, 7);

    let second = b.take_input(640, 480);
    assert_eq!(second.events.len(), 0);
    assert_eq!(second.scroll_x, 0);
    assert_eq!(second.scroll_y, 0);
    assert_eq!(second.zoom_y, 0);
    assert_eq!(second.scale, unit_scale());
    assert_eq!(second.screen_size_pts, Some((640, 480)));
}

#[test]
fn take_input_screen_size_in_points() {
    let mut b = Bridge::new(Scale { num: 2, den: 1 }, Platform::Other);
    let input = b.take_input(200, 100);
    assert_eq!(input.screen_size_pts, Some((100, 50)));
    let minimized = b.take_input(0, 100);
    assert_eq!(minimized.screen_size_pts, None);
}

#[test]
fn mouse_button_needs_known_pointer_position() {
    let mut b = new_bridge();
    let flags = no_focus();
    b.on_event(&flags, &WindowEvent::MouseInput { button: PointerButton::Primary, pressed: true });
    let input = b.take_input(100, 100);
    assert_eq!(input.events.len(), 0);

    b.on_event(&flags, &WindowEvent::CursorMoved { x: 8, y: 9 });
    b.on_event(
        &flags,
        &WindowEvent::MouseInput { button: PointerButton::Secondary, pressed: true },
    );
    let input = b.take_input(100, 100);
    assert_eq!(input.events.len(), 2);
    assert!(matches!(
        input.events[1],
        InputEvent::PointerButton { x: 8, y: 9, button: PointerButton::Secondary, pressed: true, .. }
    ));
}

#[test]
fn cursor_left_emits_pointer_gone() {
    let mut b = new_bridge();
    let flags = no_focus();
    b.on_event(&flags, &WindowEvent::CursorMoved { x: 1, y: 1 });
    b.on_event(&flags, &WindowEvent::CursorLeft);
    let input = b.take_input(100, 100);
    assert!(matches!(input.events[1], InputEvent::PointerGone));
}

#[test]
fn scroll_with_command_modifier_is_zoom() {
    let mut b = new_bridge();
    let flags = no_focus();
    b.on_event(&flags, &WindowEvent::KeyboardInput { key: Key::Ctrl, pressed: true });
    b.on_event(&flags, &WindowEvent::MouseWheel { dx: 0, dy: 10 });
    let input = b.take_input(100, 100);
    assert_eq!(input.scroll_y, 0);
    assert_eq!(input.zoom_y, 10);
}

#[test]
fn text_input_filters_unprintable_and_mac_commands() {
    let mut b = Bridge::new(unit_scale(), Platform::Mac);
    let flags = no_focus();
    b.on_event(&flags, &WindowEvent::ReceivedCharacter { ch: 'a' });
    b.on_event(&flags, &WindowEvent::ReceivedCharacter { ch: '\u{7}' });
    b.on_event(&flags, &WindowEvent::KeyboardInput { key: Key::Ctrl, pressed: true });
    b.on_event(&flags, &WindowEvent::ReceivedCharacter { ch: 'b' });
    let input = b.take_input(100, 100);
    let texts: Vec<&InputEvent> = input
        .events
        .iter()
        .filter(|e| matches!(e, InputEvent::Text { .. }))
        .collect();
    assert_eq!(texts.len(), 1);
    assert!(matches!(texts[0], InputEvent::Text { ch: 'a' }));

    // off mac, a held control key does not suppress printable characters
    let mut b = new_bridge();
    b.on_event(&flags, &WindowEvent::KeyboardInput { key: Key::Ctrl, pressed: true });
    b.on_event(&flags, &WindowEvent::ReceivedCharacter { ch: 'c' });
    let input = b.take_input(100, 100);
    assert!(input.events.iter().any(|e| matches!(e, InputEvent::Text { ch: 'c' })));
}

#[test]
fn modifier_keys_update_state_and_focus_clears_it() {
    let mut b = new_bridge();
    let flags = no_focus();
    b.on_event(&flags, &WindowEvent::KeyboardInput { key: Key::Shift, pressed: true });
    b.on_event(&flags, &WindowEvent::KeyboardInput { key: Key::Alt, pressed: true });
    assert_eq!(b.modifiers, Modifiers { alt: true, ctrl: false, shift: true, logo: false });
    b.on_event(&flags, &WindowEvent::KeyboardInput { key: Key::Shift, pressed: false });
    assert_eq!(b.modifiers, Modifiers { alt: true, ctrl: false, shift: false, logo: false });
    b.on_event(&flags, &WindowEvent::Focused { focused: false });
    assert_eq!(b.modifiers, Modifiers { alt: false, ctrl: false, shift: false, logo: false });
}

#[test]
fn copy_cut_chords_emit_events() {
    let mut b = new_bridge();
    let flags = no_focus();
    b.on_event(&flags, &WindowEvent::KeyboardInput { key: Key::Ctrl, pressed: true });
    b.on_event(&flags, &WindowEvent::KeyboardInput { key: Key::C, pressed: true });
    b.on_event(&flags, &WindowEvent::KeyboardInput { key: Key::X, pressed: true });
    let input = b.take_input(100, 100);
    assert!(input.events.iter().any(|e| matches!(e, InputEvent::Copy)));
    assert!(input.events.iter().any(|e| matches!(e, InputEvent::Cut)));
    assert!(input
        .events
        .iter()
        .any(|e| matches!(e, InputEvent::Key { key: Key::C, pressed: true, .. })));
}

#[test]
fn paste_chord_emits_paste_request() {
    let mut b = new_bridge();
    let flags = no_focus();
    b.on_event(&flags, &WindowEvent::KeyboardInput { key: Key::Ctrl, pressed: true });
    b.on_event(&flags, &WindowEvent::KeyboardInput { key: Key::V, pressed: true });
    let input = b.take_input(100, 100);
    assert!(input.events.iter().any(|e| matches!(e, InputEvent::Paste)));
    assert!(input
        .events
        .iter()
        .any(|e| matches!(e, InputEvent::Key { key: Key::V, pressed: true, .. })));
    // without the command modifier, V is an ordinary key
    b.on_event(&flags, &WindowEvent::KeyboardInput { key: Key::Ctrl, pressed: false });
    b.on_event(&flags, &WindowEvent::KeyboardInput { key: Key::V, pressed: true });
    let input = b.take_input(100, 100);
    assert!(!input.events.iter().any(|e| matches!(e, InputEvent::Paste)));
}

#[test]
fn gui_keys_are_forwarded() {
    let mut b = new_bridge();
    let flags = no_focus();
    b.on_event(&flags, &WindowEvent::KeyboardInput { key: Key::Backspace, pressed: true });
    b.on_event(&flags, &WindowEvent::KeyboardInput { key: Key::Enter, pressed: true });
    b.on_event(&flags, &WindowEvent::KeyboardInput { key: Key::ArrowLeft, pressed: true });
    b.on_event(&flags, &WindowEvent::KeyboardInput { key: Key::Num7, pressed: true });
    b.on_event(&flags, &WindowEvent::KeyboardInput { key: Key::Z, pressed: false });
    let input = b.take_input(100, 100);
    assert_eq!(input.events.len(), 5);
    assert!(matches!(
        input.events[0],
        InputEvent::Key { key: Key::Backspace, pressed: true, .. }
    ));
    assert!(matches!(input.events[1], InputEvent::Key { key: Key::Enter, pressed: true, .. }));
    assert!(matches!(
        input.events[2],
        InputEvent::Key { key: Key::ArrowLeft, pressed: true, .. }
    ));
    assert!(matches!(input.events[3], InputEvent::Key { key: Key::Num7, pressed: true, .. }));
    assert!(matches!(input.events[4], InputEvent::Key { key: Key::Z, pressed: false, .. }));
}

#[test]
fn modifier_function_and_unknown_keys_are_not_forwarded() {
    let mut b = new_bridge();
    let flags = no_focus();
    b.on_event(&flags, &WindowEvent::KeyboardInput { key: Key::Shift, pressed: true });
    b.on_event(&flags, &WindowEvent::KeyboardInput { key: Key::F4, pressed: true });
    b.on_event(&flags, &WindowEvent::KeyboardInput { key: Key::Other(123), pressed: true });
    let input = b.take_input(100, 100);
    assert_eq!(input.events.len(), 0);
}

#[test]
fn windows_edit_chords() {
    let mut b = Bridge::new(unit_scale(), Platform::Windows);
    let flags = no_focus();
    b.on_event(&flags, &WindowEvent::KeyboardInput { key: Key::Shift, pressed: true });
    b.on_event(&flags, &WindowEvent::KeyboardInput { key: Key::Delete, pressed: true });
    b.on_event(&flags, &WindowEvent::KeyboardInput { key: Key::Insert, pressed: true });
    b.on_event(&flags, &WindowEvent::KeyboardInput { key: Key::Shift, pressed: false });
    b.on_event(&flags, &WindowEvent::KeyboardInput { key: Key::Ctrl, pressed: true });
    b.on_event(&flags, &WindowEvent::KeyboardInput { key: Key::Insert, pressed: true });
    let input = b.take_input(100, 100);
    assert!(input.events.iter().any(|e| matches!(e, InputEvent::Cut)));
    assert!(input.events.iter().any(|e| matches!(e, InputEvent::Paste)));
    assert!(input.events.iter().any(|e| matches!(e, InputEvent::Copy)));
    // the same chords do nothing on other platforms
    let mut b = new_bridge();
    b.on_event(&flags, &WindowEvent::KeyboardInput { key: Key::Shift, pressed: true });
    b.on_event(&flags, &WindowEvent::KeyboardInput { key: Key::Delete, pressed: true });
    let input = b.take_input(100, 100);
    assert!(!input.events.iter().any(|e| matches!(e, InputEvent::Cut)));
}

#[test]
fn unknown_pointer_button_emits_no_event() {
    let mut b = new_bridge();
    let flags = no_focus();
    b.on_event(&flags, &WindowEvent::CursorMoved { x: 5, y: 5 });
    let wants = GuiFlags {
        wants_pointer_input: true,
        wants_keyboard_input: false,
        is_using_pointer: false,
    };
    let consumed = b.on_event(
        &wants,
        &WindowEvent::MouseInput { button: PointerButton::Unknown, pressed: true },
    );
    assert!(consumed);
    let input = b.take_input(100, 100);
    assert!(!input.events.iter().any(|e| matches!(e, InputEvent::PointerButton { .. })));
}

#[test]
fn logo_key_is_a_modifier_only_on_mac() {
    let flags = no_focus();
    let mut mac = Bridge::new(unit_scale(), Platform::Mac);
    mac.on_event(&flags, &WindowEvent::KeyboardInput { key: Key::Logo, pressed: true });
    assert!(mac.modifiers.logo);
    let mut other = new_bridge();
    other.on_event(&flags, &WindowEvent::KeyboardInput { key: Key::Logo, pressed: true });
    assert!(!other.modifiers.logo);
}

#[test]
fn tiny_window_still_reports_a_screen_size() {
    // 1 physical pixel at a 2x scale is half a point, rounded up to one
    let mut b = Bridge::new(Scale { num: 2, den: 1 }, Platform::Other);
    let input = b.take_input(1, 1);
    assert_eq!(input.screen_size_pts, Some((1, 1)));
}

#[test]
fn scale_factor_change_updates_scale() {
    let mut b = new_bridge();
    let flags = no_focus();
    let new_scale = Scale { num: 3, den: 2 };
    b.on_event(&flags, &WindowEvent::ScaleFactorChanged { scale: new_scale });
    let input = b.take_input(300, 300);
    assert_eq!(input.scale, new_scale);
    assert_eq!(input.screen_size_pts, Some((200, 200)));
}

#[test]
fn apply_output_cursor_change_with_pointer_in_window() {
    let mut b = new_bridge();
    let flags = no_focus();
    b.on_event(&flags, &WindowEvent::CursorMoved { x: 1, y: 1 });
    let output = Output { cursor: CursorIcon::Text, ..default_output() };
    let actions = b.apply_output(output);
    assert_eq!(actions.len(), 2);
    assert!(matches!(actions[0], HostAction::ShowCursor));
    assert!(matches!(actions[1], HostAction::SetCursor(CursorIcon::Text)));
}

#[test]
fn apply_output_same_cursor_does_nothing() {
    let mut b = new_bridge();
    let actions = b.apply_output(default_output());
    assert_eq!(actions.len(), 0);
}

#[test]
fn apply_output_hidden_cursor_and_pointer_outside() {
    let mut b = new_bridge();
    let output = Output { cursor: CursorIcon::Hidden, ..default_output() };
    let actions = b.apply_output(output);
    assert_eq!(actions.len(), 1);
    assert!(matches!(actions[0], HostAction::HideCursor));

    let output = Output { cursor: CursorIcon::Grab, ..default_output() };
    let actions = b.apply_output(output);
    assert_eq!(actions.len(), 1);
    assert!(matches!(actions[0], HostAction::ShowCursor));
}

#[test]
fn apply_output_clipboard_and_url_in_order() {
    let mut b = new_bridge();
    let output = Output {
        needs_repaint: false,
        cursor: CursorIcon::Default,
        copied_text: String::from("hello"),
        open_url: Some(String::from("https://example.invalid/")),
    };
    let actions = b.apply_output(output);
    assert_eq!(actions.len(), 2);
    match &actions[0] {
        HostAction::OpenUrl(url) => assert_eq!(url, "https://example.invalid/"),
        other => panic!("unexpected action {:?}", other),
    }
    match &actions[1] {
        HostAction::SetClipboard(text) => assert_eq!(text, "hello"),
        other => panic!("unexpected action {:?}", other),
    }
}

#[test]
fn saturating_accumulators() {
    assert_eq!(sat_add(i64::MAX, 1), i64::MAX);
    assert_eq!(sat_add(i64::MIN, -1), i64::MIN);
    assert_eq!(sat_add(40, 2), 42);
}

#[test]
fn printable_character_classification() {
    assert!(is_printable('a'));
    assert!(is_printable('é'));
    assert!(!is_printable('\u{1f}'));
    assert!(!is_printable('\u{7f}'));
    assert!(!is_printable('\u{e000}'));
    assert!(!is_printable('\u{f8ff}'));
    assert!(is_printable('\u{f900}'));
}
