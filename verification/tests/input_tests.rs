use xplm_egui::geometry::HostPoint;
use xplm_egui::geometry::LogicalPoint;
use xplm_egui::geometry::WindowGeometry;
use xplm_egui::input::CursorIcon;
use xplm_egui::input::Event;
use xplm_egui::input::KeyAction;
use xplm_egui::input::Modifiers;
use xplm_egui::input::MouseAction;
use xplm_egui::input::PointerButton;
use xplm_egui::input::ScreenSize;
use xplm_egui::input::XplmInputState;
use xplm_egui::keymap::Key;
use xplm_egui::keymap::KeyCode;
use xplm_egui::keymap::xplm_to_egui_key;

fn no_mods() -> Modifiers {
    Modifiers { alt: false, ctrl: false, shift: false, mac_cmd: false, command: false }
}

fn sample_geometry() -> WindowGeometry {
    WindowGeometry { left: 0, top: 600, right: 800, bottom: 0 }
}

#[test]
fn digit_row_and_numpad_map_identically() {
    assert_eq!(xplm_to_egui_key(KeyCode::Key0), Some(Key::Num0));
    assert_eq!(xplm_to_egui_key(KeyCode::Numpad0), Some(Key::Num0));
    assert_eq!(xplm_to_egui_key(KeyCode::Key7), Some(Key::Num7));
    assert_eq!(xplm_to_egui_key(KeyCode::Numpad7), Some(Key::Num7));
}

#[test]
fn arrows_navigation_and_letters_are_mapped() {
    assert_eq!(xplm_to_egui_key(KeyCode::Left), Some(Key::ArrowLeft));
    assert_eq!(xplm_to_egui_key(KeyCode::Down), Some(Key::ArrowDown));
    assert_eq!(xplm_to_egui_key(KeyCode::Back), Some(Key::Backspace));
    assert_eq!(xplm_to_egui_key(KeyCode::Return), Some(Key::Enter));
    assert_eq!(xplm_to_egui_key(KeyCode::Enter), Some(Key::Enter));
    assert_eq!(xplm_to_egui_key(KeyCode::Home), Some(Key::Home));
    assert_eq!(xplm_to_egui_key(KeyCode::A), Some(Key::A));
    assert_eq!(xplm_to_egui_key(KeyCode::Z), Some(Key::Z));
}

#[test]
fn codes_outside_the_table_map_to_nothing() {
    assert_eq!(xplm_to_egui_key(KeyCode::F1), None);
    assert_eq!(xplm_to_egui_key(KeyCode::Multiply), None);
    assert_eq!(xplm_to_egui_key(KeyCode::Semicolon), None);
    assert_eq!(xplm_to_egui_key(KeyCode::NumpadEnter), None);
}

#[test]
fn text_event_stands_immediately_before_key_event() {
    let mut state = XplmInputState::new();
    let mods = no_mods();
    state.keyboard_event(KeyCode::A, KeyAction::Press, Some('a'), mods);
    let batch = state.take_egui_input();
    assert_eq!(batch.events.len(), 2);
    assert_eq!(batch.events[0], Event::Text { ch: 'a' });
    assert_eq!(batch.events[1], Event::Key { key: Key::A, pressed: true, modifiers: mods });
}

#[test]
fn release_appends_no_text_event() {
    let mut state = XplmInputState::new();
    let mods = no_mods();
    state.keyboard_event(KeyCode::A, KeyAction::Release, Some('a'), mods);
    let batch = state.take_egui_input();
    assert_eq!(batch.events, vec![Event::Key { key: Key::A, pressed: false, modifiers: mods }]);
}

#[test]
fn unmapped_code_produces_zero_key_events() {
    let mut state = XplmInputState::new();
    let mods = no_mods();
    state.keyboard_event(KeyCode::F5, KeyAction::Press, None, mods);
    let batch = state.take_egui_input();
    assert!(batch.events.is_empty());
}

#[test]
fn unmapped_code_with_character_still_appends_its_text() {
    let mut state = XplmInputState::new();
    let mods = no_mods();
    state.keyboard_event(KeyCode::Semicolon, KeyAction::Press, Some(';'), mods);
    let batch = state.take_egui_input();
    assert_eq!(batch.events, vec![Event::Text { ch: ';' }]);
}

#[test]
fn keyboard_event_stores_the_modifier_snapshot() {
    let mut state = XplmInputState::new();
    let mods = Modifiers { alt: true, ctrl: true, shift: false, mac_cmd: false, command: true };
    state.keyboard_event(KeyCode::B, KeyAction::Press, None, mods);
    let batch = state.take_egui_input();
    assert_eq!(batch.modifiers, mods);
    assert_eq!(batch.events, vec![Event::Key { key: Key::B, pressed: true, modifiers: mods }]);
}

#[test]
fn mouse_down_converts_to_logical_space() {
    let mut state = XplmInputState::new();
    let consumed = state.mouse_event(MouseAction::Down, HostPoint { x: 100, y: 500 }, sample_geometry());
    assert!(!consumed);
    let batch = state.take_egui_input();
    assert_eq!(
        batch.events,
        vec![Event::PointerButton {
            pos: LogicalPoint { x: 100, y: 100 },
            button: PointerButton::Primary,
            pressed: true,
            modifiers: no_mods(),
        }]
    );
}

#[test]
fn mouse_drag_appends_a_pointer_move() {
    let mut state = XplmInputState::new();
    state.mouse_event(MouseAction::Drag, HostPoint { x: 10, y: 590 }, sample_geometry());
    let batch = state.take_egui_input();
    assert_eq!(batch.events, vec![Event::PointerMoved { pos: LogicalPoint { x: 10, y: 10 } }]);
}

#[test]
fn mouse_up_releases_the_primary_button() {
    let mut state = XplmInputState::new();
    state.mouse_event(MouseAction::Up, HostPoint { x: 0, y: 600 }, sample_geometry());
    let batch = state.take_egui_input();
    assert_eq!(
        batch.events,
        vec![Event::PointerButton {
            pos: LogicalPoint { x: 0, y: 0 },
            button: PointerButton::Primary,
            pressed: false,
            modifiers: no_mods(),
        }]
    );
}

#[test]
fn scroll_is_a_documented_no_op() {
    let mut state = XplmInputState::new();
    let consumed = state.scroll_event(HostPoint { x: 5, y: 5 }, 0, -3);
    assert!(!consumed);
    let batch = state.take_egui_input();
    assert!(batch.events.is_empty());
}

#[test]
fn cursor_query_refreshes_screen_rect_and_appends_a_move() {
    let mut state = XplmInputState::new();
    let icon = state.cursor(HostPoint { x: 400, y: 300 }, sample_geometry());
    assert_eq!(icon, CursorIcon::HostDefault);
    let batch = state.take_egui_input();
    assert_eq!(batch.screen_size, Some(ScreenSize { width: 800, height: 600 }));
    assert_eq!(batch.events, vec![Event::PointerMoved { pos: LogicalPoint { x: 400, y: 300 } }]);
}

#[test]
fn take_twice_returns_an_empty_batch_the_second_time() {
    let mut state = XplmInputState::new();
    let mods = no_mods();
    state.keyboard_event(KeyCode::C, KeyAction::Press, Some('c'), mods);
    state.cursor(HostPoint { x: 1, y: 1 }, sample_geometry());
    let first = state.take_egui_input();
    assert_eq!(first.events.len(), 3);
    assert!(first.screen_size.is_some());
    let second = state.take_egui_input();
    assert!(second.events.is_empty());
    assert!(second.screen_size.is_none());
    assert_eq!(second.modifiers, mods);
}

#[test]
fn default_translator_starts_empty() {
    let mut state = XplmInputState::default();
    let batch = state.take_egui_input();
    assert!(batch.events.is_empty());
    assert!(batch.screen_size.is_none());
    assert_eq!(batch.modifiers, no_mods());
}
