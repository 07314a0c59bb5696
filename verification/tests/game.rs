use space_engine::game::input::{
    menu_mouse_command, KeyCode, KeyEvent, KeyboardCommand, KeyboardHandler, Keys, MouseCommand,
    MouseEventKind,
};
use space_engine::game::state::{GameState, MenuState, StateTransition, UIChange, WorldState};
use space_engine::utils::Size2D;

fn press(key: KeyCode) -> KeyEvent {
    KeyEvent { key, pressed: true, repeat: false }
}

fn release(key: KeyCode) -> KeyEvent {
    KeyEvent { key, pressed: false, repeat: false }
}

#[test]
fn keyboard_commands() {
    let mut handler = KeyboardHandler::new();
    assert_eq!(handler.register_key(&press(KeyCode::Escape)), KeyboardCommand::SwitchToMenu);
    assert_eq!(handler.register_key(&press(KeyCode::Enter)), KeyboardCommand::SwitchToWorld);
    assert_eq!(handler.register_key(&press(KeyCode::F11)), KeyboardCommand::ToggleFullscreen);
    assert_eq!(handler.register_key(&release(KeyCode::Escape)), KeyboardCommand::Nothing);
    assert_eq!(handler.register_key(&press(KeyCode::Other)), KeyboardCommand::Nothing);
    assert!(handler.no_key_held());
}

#[test]
fn movement_keys_are_held_until_released() {
    let mut handler = KeyboardHandler::new();
    assert_eq!(handler.register_key(&press(KeyCode::KeyW)), KeyboardCommand::Nothing);
    handler.register_key(&press(KeyCode::KeyA));
    handler.register_key(&press(KeyCode::KeyW));
    assert_eq!(handler.keys_pressed().len(), 2);
    assert!(handler.keys_pressed().contains(&KeyCode::KeyW));
    handler.register_key(&release(KeyCode::KeyW));
    assert_eq!(handler.keys_pressed(), &vec![KeyCode::KeyA]);
    handler.register_key(&release(KeyCode::KeyA));
    assert!(handler.no_key_held());
}

#[test]
fn repeats_only_count_for_forward_and_backward() {
    let mut handler = KeyboardHandler::new();
    handler.register_key(&KeyEvent { key: KeyCode::KeyS, pressed: true, repeat: true });
    handler.register_key(&KeyEvent { key: KeyCode::Space, pressed: true, repeat: true });
    assert_eq!(handler.keys_pressed(), &vec![KeyCode::KeyS]);
    handler.register_key(&press(KeyCode::ShiftLeft));
    handler.register_key(&KeyEvent { key: KeyCode::ShiftLeft, pressed: false, repeat: true });
    assert!(handler.keys_pressed().contains(&KeyCode::ShiftLeft));
}

#[test]
fn default_key_map() {
    let handler = KeyboardHandler::new();
    assert_eq!(handler.key_map.len(), 6);
    assert!(handler.key_map.contains(&(KeyCode::KeyW, Keys::Forward)));
    assert!(handler.key_map.contains(&(KeyCode::Escape, Keys::Escape)));
    assert!(handler.key_map.contains(&(KeyCode::KeyD, Keys::Right)));
}

#[test]
fn menu_mouse_commands_from_hit_tests() {
    assert_eq!(menu_mouse_command(MouseEventKind::CursorMoved, &[false, true, true], true), MouseCommand::HoverUIObject(1));
    assert_eq!(menu_mouse_command(MouseEventKind::CursorMoved, &[false, false], true), MouseCommand::UnhoverUIObject);
    assert_eq!(menu_mouse_command(MouseEventKind::CursorLeft, &[true], true), MouseCommand::UnhoverUIObject);
    assert_eq!(menu_mouse_command(MouseEventKind::ButtonPressed, &[false, false, true], true), MouseCommand::PressUIObject(2));
    assert_eq!(menu_mouse_command(MouseEventKind::ButtonPressed, &[true], false), MouseCommand::Nothing);
    assert_eq!(menu_mouse_command(MouseEventKind::ButtonPressed, &[false], true), MouseCommand::Nothing);
    assert_eq!(menu_mouse_command(MouseEventKind::Other, &[true], true), MouseCommand::Nothing);
}

#[test]
fn menu_hover_moves_between_objects() {
    let mut menu = MenuState::new();
    assert_eq!(menu.ui_capacity(), 4);
    let (t, changes) = menu.handle_mouse_command(&MouseCommand::HoverUIObject(1));
    assert!(matches!(t, StateTransition::Stay));
    assert_eq!(changes, vec![UIChange::Hovered(1)]);
    assert_eq!(menu.ui_sizes()[1], Size2D { width: 220, height: 220 });
    let (_, changes) = menu.handle_mouse_command(&MouseCommand::HoverUIObject(1));
    assert!(changes.is_empty());
    let (_, changes) = menu.handle_mouse_command(&MouseCommand::HoverUIObject(3));
    assert_eq!(changes, vec![UIChange::Unhovered(1), UIChange::Hovered(3)]);
    assert_eq!(menu.ui_sizes()[1], Size2D { width: 200, height: 200 });
    assert_eq!(menu.ui_sizes()[3], Size2D { width: 220, height: 220 });
    assert_eq!(menu.hovered_index(), Some(3));
    let (_, changes) = menu.handle_mouse_command(&MouseCommand::UnhoverUIObject);
    assert_eq!(changes, vec![UIChange::Unhovered(3)]);
    assert!(menu.ui_sizes().iter().all(|s| *s == Size2D { width: 200, height: 200 }));
    let (_, changes) = menu.handle_mouse_command(&MouseCommand::UnhoverUIObject);
    assert!(changes.is_empty());
    assert_eq!(menu.hovered_index(), None);
}

#[test]
fn menu_press_switches_or_brightens() {
    let mut menu = MenuState::new();
    let (t, changes) = menu.handle_mouse_command(&MouseCommand::PressUIObject(0));
    match t {
        StateTransition::SwitchTo(GameState::WorldState(w)) => assert_eq!(w.ui_capacity(), 1),
        _ => panic!("pressing the first object must open the world"),
    }
    assert!(changes.is_empty());
    let (t, changes) = menu.handle_mouse_command(&MouseCommand::PressUIObject(2));
    assert!(matches!(t, StateTransition::Stay));
    assert_eq!(changes, vec![UIChange::Pressed(2)]);
    let (t, changes) = menu.handle_mouse_command(&MouseCommand::Nothing);
    assert!(matches!(t, StateTransition::Stay));
    assert!(changes.is_empty());
}

#[test]
fn state_switches_on_keys() {
    let mut state = GameState::new();
    assert!(!state.captures_cursor());
    assert_eq!(state.ui_capacity(), 4);
    assert!(matches!(state.handle_keyboard_command(&KeyboardCommand::SwitchToMenu), StateTransition::Stay));
    let t = state.handle_keyboard_command(&KeyboardCommand::SwitchToWorld);
    let mut world = match t {
        StateTransition::SwitchTo(s) => s,
        _ => panic!("enter must open the world"),
    };
    assert!(world.captures_cursor());
    assert_eq!(world.ui_capacity(), 1);
    let (t, changes) = world.handle_mouse_command(&MouseCommand::HoverUIObject(0));
    assert!(matches!(t, StateTransition::Stay));
    assert!(changes.is_empty());
    match world.handle_keyboard_command(&KeyboardCommand::SwitchToMenu) {
        StateTransition::SwitchTo(GameState::MenuState(m)) => assert_eq!(m.ui_capacity(), 4),
        _ => panic!("escape must open the menu"),
    }
    let w = WorldState::new();
    assert_eq!(w.ui_sizes(), &vec![Size2D { width: 400, height: 100 }]);
}
