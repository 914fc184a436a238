use novade_system::input::{
    ButtonState, InputEvent, InputManager, InputState, KeyState, Modifiers, UNITS_PER_PIXEL,
};

/// A distance in pixels as fixed-point units.
fn px(pixels: f64) -> i64 {
    (pixels * UNITS_PER_PIXEL as f64) as i64
}

fn default_modifiers() -> Modifiers {
    Modifiers { shift: false, ctrl: false, alt: false, logo: false }
}

#[test]
fn test_keyboard_event_update() {
    let mut state = InputState::default();
    let modifiers_with_shift = Modifiers { shift: true, ..default_modifiers() };

    let event_a_press = InputEvent::Keyboard {
        key_code: 65,
        state: KeyState::Pressed,
        modifiers: modifiers_with_shift,
    };
    state.update_from_event(&event_a_press);
    assert!(state.pressed_keys.contains(&65));
    assert_eq!(state.modifiers, modifiers_with_shift);

    let event_a_release = InputEvent::Keyboard {
        key_code: 65,
        state: KeyState::Released,
        modifiers: default_modifiers(),
    };
    state.update_from_event(&event_a_release);
    assert!(!state.pressed_keys.contains(&65));
    assert_eq!(state.modifiers, default_modifiers());
}

#[test]
fn test_pointer_motion_update() {
    let mut state = InputState::default();
    let modifiers_with_ctrl = Modifiers { ctrl: true, ..default_modifiers() };
    let event = InputEvent::PointerMotion {
        delta_x: px(10.5),
        delta_y: px(-5.0),
        modifiers: modifiers_with_ctrl,
    };
    state.update_from_event(&event);
    assert_eq!(state.pointer_x, px(10.5));
    assert_eq!(state.pointer_y, px(-5.0));
    assert_eq!(state.modifiers, modifiers_with_ctrl);

    let event2 = InputEvent::PointerMotion {
        delta_x: px(-0.5),
        delta_y: px(1.0),
        modifiers: modifiers_with_ctrl,
    };
    state.update_from_event(&event2);
    assert_eq!(state.pointer_x, px(10.0));
    assert_eq!(state.pointer_y, px(-4.0));
}

#[test]
fn test_pointer_button_update() {
    let mut state = InputState::default();
    let modifiers_with_alt = Modifiers { alt: true, ..default_modifiers() };

    let event_press = InputEvent::PointerButton {
        button_code: 1,
        state: ButtonState::Pressed,
        modifiers: modifiers_with_alt,
    };
    state.update_from_event(&event_press);
    assert!(state.pressed_buttons.contains(&1));
    assert_eq!(state.modifiers, modifiers_with_alt);

    let event_release = InputEvent::PointerButton {
        button_code: 1,
        state: ButtonState::Released,
        modifiers: default_modifiers(),
    };
    state.update_from_event(&event_release);
    assert!(!state.pressed_buttons.contains(&1));
    assert_eq!(state.modifiers, default_modifiers());
}

#[test]
fn test_pointer_axis_update() {
    let mut state = InputState::default();
    let modifiers_with_logo = Modifiers { logo: true, ..default_modifiers() };
    let event = InputEvent::PointerAxis {
        horizontal: px(1.0),
        vertical: px(-1.0),
        modifiers: modifiers_with_logo,
    };
    state.update_from_event(&event);
    assert_eq!(state.modifiers, modifiers_with_logo);
    assert_eq!(state.pointer_x, px(0.0));
    assert!(state.pressed_keys.is_empty());
}

#[test]
fn test_touch_events_update() {
    let mut state = InputState::default();
    let touch_id = 1;
    let modifiers_touch = Modifiers { shift: true, ctrl: true, ..default_modifiers() };

    let event_down = InputEvent::TouchDown {
        touch_id,
        x: px(100.0),
        y: px(150.0),
        modifiers: modifiers_touch,
    };
    state.update_from_event(&event_down);
    assert!(state.active_touches.contains_key(&touch_id));
    assert_eq!(state.active_touches.get(&touch_id), Some(&(px(100.0), px(150.0))));
    assert_eq!(state.modifiers, modifiers_touch);

    let event_motion = InputEvent::TouchMotion {
        touch_id,
        x: px(110.0),
        y: px(155.0),
        modifiers: modifiers_touch,
    };
    state.update_from_event(&event_motion);
    assert_eq!(state.active_touches.get(&touch_id), Some(&(px(110.0), px(155.0))));

    let event_up = InputEvent::TouchUp { touch_id, modifiers: default_modifiers() };
    state.update_from_event(&event_up);
    assert!(!state.active_touches.contains_key(&touch_id));
    assert_eq!(state.modifiers, default_modifiers());
}

#[test]
fn test_modifier_priority() {
    let mut state = InputState::default();
    let mod_shift = Modifiers { shift: true, ..default_modifiers() };
    let mod_ctrl = Modifiers { ctrl: true, ..default_modifiers() };

    let event_key_shift =
        InputEvent::Keyboard { key_code: 65, state: KeyState::Pressed, modifiers: mod_shift };
    state.update_from_event(&event_key_shift);
    assert_eq!(state.modifiers, mod_shift);

    let event_motion_ctrl =
        InputEvent::PointerMotion { delta_x: px(0.0), delta_y: px(0.0), modifiers: mod_ctrl };
    state.update_from_event(&event_motion_ctrl);
    assert_eq!(state.modifiers, mod_ctrl);
}

#[test]
fn default_state_is_empty() {
    let state = InputState::default();
    assert!(state.pressed_keys.is_empty());
    assert!(state.pressed_buttons.is_empty());
    assert!(state.active_touches.is_empty());
    assert_eq!((state.pointer_x, state.pointer_y), (0, 0));
    assert_eq!(state.modifiers, Modifiers::default());
    assert_eq!(Modifiers::default(), default_modifiers());
}

#[test]
fn touch_motion_for_an_unknown_touch_is_dropped() {
    let mut state = InputState::default();
    let shift = Modifiers { shift: true, ..default_modifiers() };
    state.update_from_event(&InputEvent::TouchMotion {
        touch_id: 7,
        x: px(3.0),
        y: px(4.0),
        modifiers: shift,
    });
    assert!(state.active_touches.is_empty());
    assert_eq!(state.modifiers, shift);
}

#[test]
fn touch_down_twice_keeps_the_latest_position() {
    let mut state = InputState::default();
    for (x, y) in [(1, 2), (30, 40)] {
        state.update_from_event(&InputEvent::TouchDown {
            touch_id: 9,
            x,
            y,
            modifiers: default_modifiers(),
        });
    }
    assert_eq!(state.active_touches.len(), 1);
    assert_eq!(state.active_touches.get(&9), Some(&(30, 40)));
}

#[test]
fn pointer_position_stops_at_the_end_of_its_range() {
    let mut state = InputState::default();
    let far = InputEvent::PointerMotion {
        delta_x: i64::MAX,
        delta_y: i64::MIN,
        modifiers: default_modifiers(),
    };
    state.update_from_event(&far);
    state.update_from_event(&far);
    assert_eq!(state.pointer_x, i64::MAX);
    assert_eq!(state.pointer_y, i64::MIN);
    state.update_from_event(&InputEvent::PointerMotion {
        delta_x: -1,
        delta_y: 1,
        modifiers: default_modifiers(),
    });
    assert_eq!(state.pointer_x, i64::MAX - 1);
    assert_eq!(state.pointer_y, i64::MIN + 1);
}

#[test]
fn releasing_what_is_not_held_changes_nothing() {
    let mut state = InputState::default();
    state.update_from_event(&InputEvent::Keyboard {
        key_code: 30,
        state: KeyState::Released,
        modifiers: default_modifiers(),
    });
    state.update_from_event(&InputEvent::PointerButton {
        button_code: 2,
        state: ButtonState::Released,
        modifiers: default_modifiers(),
    });
    state.update_from_event(&InputEvent::TouchUp { touch_id: 4, modifiers: default_modifiers() });
    assert_eq!(state, InputState::default());
}

#[test]
fn shortcut_events_leave_the_state_alone() {
    let mut state = InputState::default();
    let held = Modifiers { alt: true, ..default_modifiers() };
    state.update_from_event(&InputEvent::Keyboard {
        key_code: 10,
        state: KeyState::Pressed,
        modifiers: held,
    });
    state.update_from_event(&InputEvent::CopyShortcut);
    state.update_from_event(&InputEvent::PasteShortcut);
    assert_eq!(state.modifiers, held);
    assert!(state.pressed_keys.contains(&10));
    assert_eq!(InputEvent::CopyShortcut.modifiers(), None);
}

#[test]
fn manager_recognises_copy_and_paste() {
    let ctrl = Modifiers { ctrl: true, ..default_modifiers() };
    let mut manager = InputManager::new();
    let press = |key_code, modifiers| InputEvent::Keyboard {
        key_code,
        state: KeyState::Pressed,
        modifiers,
    };
    assert_eq!(manager.process_simulated_raw_event(press(67, ctrl)), InputEvent::CopyShortcut);
    assert_eq!(manager.process_simulated_raw_event(press(86, ctrl)), InputEvent::PasteShortcut);
    assert_eq!(manager.process_simulated_raw_event(press(88, ctrl)), press(88, ctrl));
    assert_eq!(
        manager.process_simulated_raw_event(press(67, default_modifiers())),
        press(67, default_modifiers())
    );
    let release =
        InputEvent::Keyboard { key_code: 67, state: KeyState::Released, modifiers: ctrl };
    assert_eq!(manager.process_simulated_raw_event(release), release);
    let keys = &manager.input_state.pressed_keys;
    assert!(keys.contains(&86) && keys.contains(&88) && !keys.contains(&67));
    assert_eq!(manager.input_state.modifiers, ctrl);
}
