use novade_system::client::{ClientRequest, ServerEvent};
use novade_system::compositor::engine::WindowState;
use novade_system::input::{InputEvent, KeyState, Modifiers};
use novade_system::server::Server;

const KEY_C: u32 = 67;
const KEY_V: u32 = 86;

fn create_server_with_client() -> (Server, u32) {
    let mut server = Server::new();
    let client_id = server.add_client();
    (server, client_id)
}

fn no_modifiers() -> Modifiers {
    Modifiers { ctrl: false, shift: false, alt: false, logo: false }
}

fn key_press(key_code: u32, modifiers: Modifiers) -> InputEvent {
    InputEvent::Keyboard { key_code, state: KeyState::Pressed, modifiers }
}

#[test]
fn test_server_handle_copy_text_request() {
    let (mut server, client_id) = create_server_with_client();
    let text_to_copy = "Hello from client".to_string();

    let request = ClientRequest::CopyText { client_id, text: text_to_copy.clone() };
    let response = server.process_client_request(request);

    assert_eq!(response, Some(ServerEvent::TextCopied { client_id }));
    assert_eq!(server.get_clipboard_data(), Some(text_to_copy));
}

#[test]
fn test_server_handle_paste_text_request() {
    let (mut server, client_id) = create_server_with_client();
    let clipboard_content = "Existing clipboard data".to_string();
    server.set_clipboard_data(clipboard_content.clone());

    let request = ClientRequest::PasteTextRequest { client_id };
    let response = server.process_client_request(request);

    assert_eq!(
        response,
        Some(ServerEvent::PasteTextResponse { client_id, text: Some(clipboard_content) })
    );
}

#[test]
fn test_server_handle_paste_text_request_empty_clipboard() {
    let (mut server, client_id) = create_server_with_client();
    server.clear_clipboard_data();

    let request = ClientRequest::PasteTextRequest { client_id };
    let response = server.process_client_request(request);

    assert_eq!(response, Some(ServerEvent::PasteTextResponse { client_id, text: None }));
}

#[test]
fn test_server_handle_clipboard_request_invalid_client() {
    let mut server = Server::new();
    let invalid_client_id = 999;

    let copy_request =
        ClientRequest::CopyText { client_id: invalid_client_id, text: "test".to_string() };
    let copy_response = server.process_client_request(copy_request);
    assert_eq!(copy_response, None);

    let paste_request = ClientRequest::PasteTextRequest { client_id: invalid_client_id };
    let paste_response = server.process_client_request(paste_request);
    assert_eq!(paste_response, None);
}

#[test]
fn test_server_handle_copy_shortcut() {
    let mut server = Server::new();
    let ctrl_c_event = InputEvent::Keyboard {
        key_code: KEY_C,
        state: KeyState::Pressed,
        modifiers: Modifiers { ctrl: true, shift: false, alt: false, logo: false },
    };

    server.run_loop_iteration(vec![ctrl_c_event]);

    assert_eq!(
        server.get_clipboard_data(),
        Some("Simulated copied text from active window".to_string())
    );
}

#[test]
fn test_server_handle_paste_shortcut() {
    let mut server = Server::new();
    let initial_clipboard_data = "Test paste data".to_string();
    server.set_clipboard_data(initial_clipboard_data.clone());

    let ctrl_v_event = InputEvent::Keyboard {
        key_code: KEY_V,
        state: KeyState::Pressed,
        modifiers: Modifiers { ctrl: true, shift: false, alt: false, logo: false },
    };

    server.run_loop_iteration(vec![ctrl_v_event]);

    assert_eq!(server.get_clipboard_data(), Some(initial_clipboard_data));
}

#[test]
fn client_ids_start_at_one_and_grow() {
    let mut server = Server::default();
    assert_eq!(server.add_client(), 1);
    assert_eq!(server.add_client(), 2);
    assert_eq!(server.add_client(), 3);
    let ids: Vec<u32> = server.clients.iter().map(|c| c.id).collect();
    assert_eq!(ids, vec![1, 2, 3]);
}

#[test]
fn create_window_acknowledges_with_id_and_geometry() {
    let (mut server, client_id) = create_server_with_client();
    let request = |title: &str, width, height| ClientRequest::CreateWindow {
        client_id,
        title: title.to_string(),
        initial_width: width,
        initial_height: height,
    };

    let first = server.process_client_request(request("one", 640, 480));
    assert_eq!(
        first,
        Some(ServerEvent::WindowCreated {
            window_id: 1,
            client_id,
            initial_geometry: (50, 50, 640, 480),
        })
    );
    let second = server.process_client_request(request("two", 0, 0));
    assert_eq!(
        second,
        Some(ServerEvent::WindowCreated {
            window_id: 2,
            client_id,
            initial_geometry: (70, 70, 100, 100),
        })
    );
    let third = server.process_client_request(request("three", 1, 0));
    assert_eq!(
        third,
        Some(ServerEvent::WindowCreated {
            window_id: 3,
            client_id,
            initial_geometry: (90, 90, 1, 100),
        })
    );

    let windows = &server.compositor_state.windows;
    assert_eq!(windows.len(), 3);
    assert_eq!(windows[1].title, "two");
    assert_eq!(windows[1].client_id, client_id);
    assert_eq!(windows[1].state, WindowState::Floating);
    assert!(!windows[1].is_mapped && !windows[1].focused);
    assert!(windows[1].event_queue.is_empty());
    assert_eq!(server.compositor_state.next_window_id, 4);
}

#[test]
fn create_window_for_an_unknown_client_is_dropped() {
    let (mut server, client_id) = create_server_with_client();
    let reply = server.process_client_request(ClientRequest::CreateWindow {
        client_id: client_id + 1,
        title: "stranger".to_string(),
        initial_width: 10,
        initial_height: 10,
    });
    assert_eq!(reply, None);
    assert!(server.compositor_state.windows.is_empty());
    assert_eq!(server.compositor_state.next_window_id, 1);
}

#[test]
fn copy_text_for_an_unknown_client_leaves_the_clipboard() {
    let (mut server, client_id) = create_server_with_client();
    server.set_clipboard_data("kept".to_string());
    let reply = server.process_client_request(ClientRequest::CopyText {
        client_id: client_id + 5,
        text: "lost".to_string(),
    });
    assert_eq!(reply, None);
    assert_eq!(server.get_clipboard_data(), Some("kept".to_string()));
}

/// A server with one client and one mapped, focused window.
fn server_with_focused_window() -> (Server, u32) {
    let (mut server, client_id) = create_server_with_client();
    let reply = server.process_client_request(ClientRequest::CreateWindow {
        client_id,
        title: "main".to_string(),
        initial_width: 300,
        initial_height: 200,
    });
    let window_id = match reply {
        Some(ServerEvent::WindowCreated { window_id, .. }) => window_id,
        other => panic!("no window was created: {:?}", other),
    };
    server.compositor_state.find_window_mut(window_id).unwrap().map();
    assert!(server.compositor_state.set_focused_window_for_seat("seat0", Some(window_id)));
    (server, window_id)
}

#[test]
fn loop_iteration_updates_input_state_and_drains_queues() {
    let (mut server, window_id) = server_with_focused_window();
    let shift = Modifiers { shift: true, ..no_modifiers() };
    let ctrl = Modifiers { ctrl: true, ..no_modifiers() };
    server.run_loop_iteration(vec![
        key_press(65, shift),
        InputEvent::PointerMotion { delta_x: 512, delta_y: -256, modifiers: shift },
        key_press(KEY_C, ctrl),
        InputEvent::TouchDown { touch_id: 3, x: 10, y: 20, modifiers: ctrl },
    ]);

    let input = &server.input_manager.input_state;
    assert!(input.pressed_keys.contains(&65));
    assert!(input.pressed_keys.contains(&KEY_C));
    assert_eq!((input.pointer_x, input.pointer_y), (512, -256));
    assert_eq!(input.active_touches.get(&3), Some(&(10, 20)));
    assert_eq!(input.modifiers, ctrl);
    assert_eq!(
        server.get_clipboard_data(),
        Some("Simulated copied text from active window".to_string())
    );
    let window = server.compositor_state.find_window(window_id).unwrap();
    assert!(window.event_queue.is_empty());
    assert!(window.focused && window.is_mapped);
}

#[test]
fn dispatch_between_iterations_is_seen_by_the_window() {
    let (mut server, window_id) = server_with_focused_window();
    let a = key_press(65, no_modifiers());
    let b = key_press(66, no_modifiers());
    assert!(server.compositor_state.dispatch_input_event(&a, "seat0"));
    assert!(server.compositor_state.dispatch_input_event(&b, "seat0"));
    let window = server.compositor_state.find_window_mut(window_id).unwrap();
    assert_eq!(window.event_queue, vec![a, b]);
    assert_eq!(window.process_event_queue(), vec![a, b]);
    assert!(window.event_queue.is_empty());
    assert!(window.process_event_queue().is_empty());
}

#[test]
fn empty_iteration_changes_nothing_but_the_queues() {
    let (mut server, window_id) = server_with_focused_window();
    let pending = key_press(70, no_modifiers());
    assert!(server.compositor_state.dispatch_input_event(&pending, "seat0"));
    server.run_loop_iteration(Vec::new());
    let window = server.compositor_state.find_window(window_id).unwrap();
    assert!(window.event_queue.is_empty());
    assert_eq!(server.get_clipboard_data(), None);
    assert!(server.input_manager.input_state.pressed_keys.is_empty());
}
