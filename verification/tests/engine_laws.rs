use novade_system::compositor::engine::{
    action_for_event, CompositorState, Output, Window, WindowAction, WindowState,
};
use novade_system::input::{InputEvent, KeyState, Modifiers};

fn plain() -> Modifiers {
    Modifiers { shift: false, ctrl: false, alt: false, logo: false }
}

fn key(key_code: u32) -> InputEvent {
    InputEvent::Keyboard { key_code, state: KeyState::Pressed, modifiers: plain() }
}

fn shown(id: u32, title: &str) -> Window {
    let mut window = Window::new(id, 1, title.to_string(), 300, 200, 5, 6);
    window.map();
    window
}

fn hidden(id: u32, title: &str) -> Window {
    Window::new(id, 1, title.to_string(), 300, 200, 5, 6)
}

/// (x, y, width, height, state) of every window, in collection order.
fn geometry(state: &CompositorState) -> Vec<(i32, i32, u32, u32, WindowState)> {
    state.windows.iter().map(|w| (w.x, w.y, w.width, w.height, w.state)).collect()
}

fn focus(state: &CompositorState) -> Option<u32> {
    state.seats[0].focused_window
}

#[test]
fn new_state_has_one_seat_and_two_outputs() {
    let state = CompositorState::new();
    assert!(state.running);
    assert_eq!(state.display.name, "default_display");
    assert!(state.windows.is_empty());
    assert_eq!(state.seats.len(), 1);
    assert_eq!(state.seats[0].name, "seat0");
    assert_eq!(state.seats[0].focused_window, None);
    assert_eq!(
        state.outputs,
        vec![
            Output::new(1, "Primary-1920x1080".to_string(), 1920, 1080, 0, 0, true),
            Output::new(2, "Secondary-1280x720".to_string(), 1280, 720, 1920, 0, false),
        ]
    );
    assert_eq!((state.next_window_id, state.next_output_id), (1, 3));
}

#[test]
fn window_new_replaces_zero_extents() {
    let window = Window::new(3, 8, "t".to_string(), 0, 0, -4, 9);
    assert_eq!((window.width, window.height), (100, 100));
    assert_eq!((window.id, window.client_id, window.x, window.y), (3, 8, -4, 9));
    assert_eq!(window.state, WindowState::Floating);
    assert_eq!(window.app_id, None);
    assert!(!window.focused && !window.is_mapped && window.event_queue.is_empty());
    let wide = Window::new(3, 8, "t".to_string(), 7, 0, 0, 0);
    assert_eq!((wide.width, wide.height), (7, 100));
}

#[test]
fn unmap_clears_the_focus_flag_and_map_restores_visibility() {
    let mut window = shown(1, "w");
    window.focused = true;
    window.unmap();
    assert!(!window.is_mapped && !window.focused);
    window.focused = true;
    window.unmap();
    assert!(window.focused, "a window that was not mapped is left as it is");
    window.map();
    assert!(window.is_mapped);
    window.map();
    assert!(window.is_mapped);
}

#[test]
fn find_window_follows_adds_and_removes() {
    let mut state = CompositorState::new();
    assert!(state.find_window(1).is_none());
    state.add_window(hidden(1, "a"));
    state.add_window(hidden(2, "b"));
    assert!(state.find_window(1).is_some() && state.find_window(2).is_some());
    assert!(state.remove_window(1));
    assert!(state.find_window(1).is_none());
    assert_eq!(state.find_window(2).unwrap().title, "b");
    state.add_window(hidden(1, "again"));
    assert_eq!(state.find_window(1).unwrap().title, "again");
    assert!(state.remove_window(2) && state.remove_window(1));
    assert!(!state.remove_window(1));
    assert!(state.find_window(1).is_none() && state.find_window(2).is_none());
}

#[test]
fn an_id_added_twice_is_found_until_removed_twice() {
    let mut state = CompositorState::new();
    state.add_window(hidden(7, "first"));
    state.add_window(hidden(7, "second"));
    assert_eq!(state.find_window(7).unwrap().title, "first");
    assert!(state.remove_window(7));
    assert_eq!(state.find_window(7).unwrap().title, "second");
    assert!(state.remove_window(7));
    assert!(state.find_window(7).is_none());
}

#[test]
fn ids_are_never_handed_out_twice() {
    let mut state = CompositorState::new();
    let a = state.next_window_id();
    state.add_window(hidden(a, "a"));
    assert!(state.remove_window(a));
    let b = state.next_window_id();
    assert!(b > a);
    let first = state.next_output_id();
    assert!(state.remove_output(1));
    let second = state.next_output_id();
    assert_eq!((first, second), (3, 4));
}

#[test]
fn focus_always_lands_on_a_present_mapped_window() {
    let mut state = CompositorState::new();
    state.add_window(shown(1, "a"));
    state.add_window(hidden(2, "b"));

    assert!(state.set_focused_window_for_seat("seat0", Some(2)));
    assert_eq!(focus(&state), None, "an unmapped window is refused");
    assert!(state.set_focused_window_for_seat("seat0", Some(1)));
    assert_eq!(focus(&state), Some(1));
    assert!(state.set_focused_window_for_seat("seat0", Some(9)));
    assert_eq!(focus(&state), None, "a window that is not there is refused");
    assert!(state.windows.iter().all(|w| !w.focused));
}

#[test]
fn set_focus_to_a_missing_window_clears_the_focus() {
    let mut state = CompositorState::new();
    state.add_window(shown(1, "a"));
    assert!(state.set_focused_window_for_seat("seat0", Some(1)));
    assert!(state.set_focused_window_for_seat("seat0", Some(42)));
    assert_eq!(focus(&state), None);
    assert!(!state.find_window(1).unwrap().focused);
}

#[test]
fn set_focus_on_a_missing_seat_changes_nothing() {
    let mut state = CompositorState::new();
    state.add_window(shown(1, "a"));
    assert!(state.set_focused_window_for_seat("seat0", Some(1)));
    assert!(!state.set_focused_window_for_seat("seat1", None));
    assert_eq!(focus(&state), Some(1));
    assert!(state.find_window(1).unwrap().focused);
}

#[test]
fn stale_focus_heals_when_focus_logic_runs() {
    let mut state = CompositorState::new();
    state.add_window(shown(1, "a"));
    state.add_window(shown(2, "b"));
    assert!(state.set_focused_window_for_seat("seat0", Some(1)));
    state.find_window_mut(1).unwrap().unmap();
    assert!(!state.find_window(1).unwrap().focused);
    assert!(!state.dispatch_input_event(&key(65), "seat0"));
    assert!(state.find_window(1).unwrap().event_queue.is_empty());
    assert!(state.focus_next_window("seat0"));
    assert_eq!(focus(&state), Some(2));
}

#[test]
fn tiling_twice_gives_the_same_geometry() {
    let mut state = CompositorState::new();
    state.add_window(shown(1, "a"));
    state.add_window(hidden(2, "b"));
    state.add_window(shown(3, "c"));
    state.add_window(shown(4, "d"));
    state.tile_windows();
    let once = geometry(&state);
    state.tile_windows();
    assert_eq!(geometry(&state), once);
    assert_eq!(
        once,
        vec![
            (0, 0, 640, 1080, WindowState::Tiled),
            (5, 6, 300, 200, WindowState::Floating),
            (640, 0, 640, 1080, WindowState::Tiled),
            (1280, 0, 640, 1080, WindowState::Tiled),
        ]
    );
}

#[test]
fn tiling_leaves_the_remainder_unused() {
    let mut state = CompositorState::new();
    state.outputs.clear();
    state.add_output(Output::new(9, "odd".to_string(), 1000, 700, -100, 40, false));
    for id in 1..=3 {
        state.add_window(shown(id, "w"));
    }
    state.tile_windows();
    assert_eq!(
        geometry(&state),
        vec![
            (-100, 40, 333, 700, WindowState::Tiled),
            (233, 40, 333, 700, WindowState::Tiled),
            (566, 40, 333, 700, WindowState::Tiled),
        ]
    );
}

#[test]
fn tiling_prefers_the_first_primary_output() {
    let mut state = CompositorState::new();
    state.outputs.clear();
    state.add_output(Output::new(1, "a".to_string(), 800, 600, 0, 0, false));
    state.add_output(Output::new(2, "b".to_string(), 1000, 500, 800, 10, true));
    state.add_output(Output::new(3, "c".to_string(), 400, 300, 1800, 0, true));
    state.add_window(shown(1, "w"));
    state.tile_windows();
    assert_eq!(geometry(&state), vec![(800, 10, 1000, 500, WindowState::Tiled)]);
}

#[test]
fn tiling_with_more_windows_than_pixels() {
    let mut state = CompositorState::new();
    state.outputs.clear();
    state.add_output(Output::new(1, "tiny".to_string(), 2, 10, 7, 8, true));
    for id in 1..=3 {
        state.add_window(shown(id, "w"));
    }
    state.tile_windows();
    assert_eq!(geometry(&state), vec![(7, 8, 0, 10, WindowState::Tiled); 3]);
}

#[test]
fn tiling_holds_the_left_edge_inside_the_coordinate_range() {
    let mut state = CompositorState::new();
    state.outputs.clear();
    state.add_output(Output::new(1, "far".to_string(), 1000, 10, i32::MAX - 600, 0, true));
    state.add_window(shown(1, "a"));
    state.add_window(shown(2, "b"));
    state.add_window(shown(3, "c"));
    state.tile_windows();
    let lefts: Vec<i32> = state.windows.iter().map(|w| w.x).collect();
    assert_eq!(lefts, vec![i32::MAX - 600, i32::MAX - 267, i32::MAX]);

    let mut wide = CompositorState::new();
    wide.outputs.clear();
    wide.add_output(Output::new(1, "wide".to_string(), u32::MAX, 10, -5, 0, true));
    wide.add_window(shown(1, "a"));
    wide.add_window(shown(2, "b"));
    wide.tile_windows();
    assert_eq!(
        geometry(&wide),
        vec![
            (-5, 0, 2147483647, 10, WindowState::Tiled),
            (2147483642, 0, 2147483647, 10, WindowState::Tiled),
        ]
    );
}

#[test]
fn tiling_without_mapped_windows_changes_nothing() {
    let mut state = CompositorState::new();
    state.add_window(hidden(1, "a"));
    state.add_window(hidden(2, "b"));
    let before = geometry(&state);
    state.tile_windows();
    assert_eq!(geometry(&state), before);
}

#[test]
fn resize_and_move_keep_the_tiled_mark() {
    let mut state = CompositorState::new();
    state.add_window(shown(1, "a"));
    state.tile_windows();
    assert!(state.resize_window(1, 10, 20));
    assert!(state.move_window(1, -30, i32::MIN));
    assert_eq!(geometry(&state), vec![(-30, i32::MIN, 10, 20, WindowState::Tiled)]);
}

#[test]
fn resize_to_zero_width_is_rejected() {
    let mut state = CompositorState::new();
    state.add_window(hidden(1, "a"));
    assert!(!state.resize_window(1, 0, 100));
    let window = state.find_window(1).unwrap();
    assert_eq!((window.width, window.height), (300, 200));
}

#[test]
fn focus_cycle_visits_a_b_c_a() {
    let mut state = CompositorState::new();
    let mut seen = Vec::new();
    for title in ["A", "B", "C"] {
        let id = state.next_window_id();
        state.add_window(shown(id, title));
    }
    for _ in 0..4 {
        assert!(state.focus_next_window("seat0"));
        let id = focus(&state).unwrap();
        seen.push(state.find_window(id).unwrap().title.clone());
    }
    assert_eq!(seen, vec!["A", "B", "C", "A"]);
}

#[test]
fn focus_cycle_returns_after_as_many_steps_as_mapped_windows() {
    for mapped in 1..=5u32 {
        let mut state = CompositorState::new();
        for id in 1..=mapped {
            state.add_window(shown(id, "w"));
            state.add_window(hidden(100 + id, "h"));
        }
        assert!(state.focus_next_window("seat0"));
        let first = focus(&state);
        assert_eq!(first, Some(1));
        for step in 1..=mapped {
            assert!(state.focus_next_window("seat0"));
            assert_eq!(focus(&state), Some(step % mapped + 1));
        }
        assert_eq!(focus(&state), first);
    }
}

#[test]
fn focus_cycle_skips_unmapped_windows() {
    let mut state = CompositorState::new();
    state.add_window(hidden(1, "a"));
    state.add_window(shown(2, "b"));
    state.add_window(hidden(3, "c"));
    state.add_window(shown(4, "d"));
    let mut seen = Vec::new();
    for _ in 0..3 {
        assert!(state.focus_next_window("seat0"));
        seen.push(focus(&state));
    }
    assert_eq!(seen, vec![Some(2), Some(4), Some(2)]);
    let flags: Vec<bool> = state.windows.iter().map(|w| w.focused).collect();
    assert_eq!(flags, vec![false, true, false, false]);
}

#[test]
fn focus_cycle_without_mapped_windows_clears_the_focus() {
    let mut state = CompositorState::new();
    state.add_window(hidden(1, "a"));
    state.seats[0].focused_window = Some(1);
    assert!(state.focus_next_window("seat0"));
    assert_eq!(focus(&state), None);
    assert!(!state.focus_next_window("nobody"));
}

#[test]
fn dispatch_queues_for_the_focused_mapped_window_only() {
    let mut state = CompositorState::new();
    state.add_window(shown(1, "a"));
    state.add_window(shown(2, "b"));
    assert!(state.set_focused_window_for_seat("seat0", Some(2)));
    assert!(state.dispatch_input_event(&key(65), "seat0"));
    assert!(state.dispatch_input_event(&key(66), "seat0"));
    assert!(state.find_window(1).unwrap().event_queue.is_empty());
    assert_eq!(state.find_window(2).unwrap().event_queue, vec![key(65), key(66)]);
    assert!(!state.dispatch_input_event(&key(67), "other"));
    assert_eq!(state.find_window(2).unwrap().event_queue.len(), 2);
}

#[test]
fn dispatch_goes_to_the_first_window_with_the_focused_id() {
    let mut state = CompositorState::new();
    state.add_window(shown(5, "first"));
    state.add_window(shown(5, "second"));
    assert!(state.set_focused_window_for_seat("seat0", Some(5)));
    assert!(state.dispatch_input_event(&key(1), "seat0"));
    let lengths: Vec<usize> = state.windows.iter().map(|w| w.event_queue.len()).collect();
    assert_eq!(lengths, vec![1, 0]);
}

#[test]
fn window_actions() {
    let ctrl = Modifiers { ctrl: true, ..plain() };
    let press = |key_code, modifiers| InputEvent::Keyboard {
        key_code,
        state: KeyState::Pressed,
        modifiers,
    };
    assert_eq!(action_for_event(&press(88, ctrl)), Some(WindowAction::Close));
    assert_eq!(action_for_event(&press(88, plain())), None);
    assert_eq!(action_for_event(&press(70, plain())), Some(WindowAction::ToggleFullscreen));
    assert_eq!(action_for_event(&press(70, ctrl)), Some(WindowAction::ToggleFullscreen));
    assert_eq!(action_for_event(&press(71, ctrl)), None);
    let release =
        InputEvent::Keyboard { key_code: 88, state: KeyState::Released, modifiers: ctrl };
    assert_eq!(action_for_event(&release), None);
    assert_eq!(action_for_event(&InputEvent::TouchUp { touch_id: 88, modifiers: ctrl }), None);
}

#[test]
fn find_window_mut_changes_the_window_in_place() {
    let mut state = CompositorState::new();
    state.add_window(hidden(1, "a"));
    state.add_window(hidden(2, "b"));
    state.find_window_mut(2).unwrap().app_id = Some("org.example".to_string());
    assert!(state.find_window_mut(3).is_none());
    assert_eq!(state.windows[1].app_id.as_deref(), Some("org.example"));
    assert_eq!(state.windows[0].app_id, None);
    assert_eq!(state.windows.len(), 2);
}

#[test]
fn remove_output_takes_the_first_with_the_id_only() {
    let mut state = CompositorState::new();
    state.add_output(Output::new(2, "twin".to_string(), 10, 10, 0, 0, false));
    assert!(state.remove_output(2));
    let names: Vec<&str> = state.outputs.iter().map(|o| o.name.as_str()).collect();
    assert_eq!(names, vec!["Primary-1920x1080", "twin"]);
}

#[test]
fn single_window_fills_the_primary_output() {
    let mut state = CompositorState::new();
    assert_eq!(state.outputs.len(), 2);
    let primary = &state.outputs[0];
    assert!(primary.is_primary);
    assert_eq!((primary.x, primary.y, primary.width, primary.height), (0, 0, 1920, 1080));
    let secondary = &state.outputs[1];
    assert!(!secondary.is_primary);
    assert_eq!((secondary.x, secondary.y, secondary.width, secondary.height), (1920, 0, 1280, 720));

    let id = state.next_window_id();
    state.add_window(shown(id, "only"));
    state.tile_windows();
    assert_eq!(geometry(&state), vec![(0, 0, 1920, 1080, WindowState::Tiled)]);
    assert_eq!(focus(&state), None);
}

#[test]
fn a_window_queue_is_first_in_first_out() {
    let mut window = hidden(1, "w");
    window.queue_event(key(1));
    window.queue_event(key(2));
    window.queue_event(key(3));
    assert_eq!(window.event_queue, vec![key(1), key(2), key(3)]);
    assert_eq!(window.process_event_queue(), vec![key(1), key(2), key(3)]);
    window.queue_event(key(4));
    assert_eq!(window.process_event_queue(), vec![key(4)]);
}

#[test]
fn removing_the_focused_window_leaves_a_stale_focus_that_takes_no_input() {
    let mut state = CompositorState::new();
    state.add_window(shown(1, "a"));
    state.add_window(shown(2, "b"));
    assert!(state.set_focused_window_for_seat("seat0", Some(1)));
    assert!(state.remove_window(1));
    assert_eq!(focus(&state), Some(1), "the seat still names the window");
    assert!(!state.dispatch_input_event(&key(9), "seat0"));
    assert!(state.windows.iter().all(|w| w.event_queue.is_empty()));
    assert!(state.set_focused_window_for_seat("seat0", Some(1)));
    assert_eq!(focus(&state), None, "the next focus request heals it");
}
