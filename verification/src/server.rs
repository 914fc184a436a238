//! The server: one compositor state, one input manager, the known clients
//! and the clipboard, driven one loop iteration at a time.

use crate::client::{Client, ClientRequest, ClientRequestView, ServerEvent, ServerEventView};
use crate::clipboard::Clipboard;
use crate::compositor::engine::model::{clamp_to_i32, CompositorView};
use crate::compositor::engine::state::CompositorState;
use crate::compositor::engine::window::{Window, WindowView};
use crate::input::event::InputEvent;
use crate::input::manager::{recognized, InputManager};
use crate::input::state::InputStateView;
use vstd::prelude::*;

verus! {

/// Distance of the first window from the top and from the left.
pub const CASCADE_ORIGIN: i32 = 50;

/// Distance by which each further window is placed down and to the right.
pub const CASCADE_STEP: i32 = 20;

/// Most windows for which the cascade still fits the coordinate range.
pub const CASCADE_LIMIT: usize = 107374179;

/// The one seat that the server drives.
pub open spec fn default_seat() -> Seq<char> {
    "seat0"@
}

/// What the copy shortcut puts on the clipboard.
pub open spec fn shortcut_text() -> Seq<char> {
    "Simulated copied text from active window"@
}

/// Where a new window is placed, on both axes, when `count` windows are
/// there: one step further for each of them, held at the end of the
/// coordinate range.
pub open spec fn cascade_offset(count: int) -> i32 {
    clamp_to_i32(CASCADE_ORIGIN + count * CASCADE_STEP)
}

/// The ids of `clients`, in order.
pub open spec fn client_ids(clients: Seq<Client>) -> Seq<u32> {
    clients.map_values(|c: Client| c.id)
}

/// The server: the compositor state, the input manager, the known clients
/// and the clipboard.
///
/// Client ids come from a counter that starts at 1 and only ever grows.
#[derive(Debug)]
pub struct Server {
    pub compositor_state: CompositorState,
    pub input_manager: InputManager,
    /// The clients that may make requests.
    pub clients: Vec<Client>,
    /// The id that the next client gets.
    pub next_client_id: u32,
    pub clipboard: Clipboard,
}

/// The mathematical value of a [`Server`].
pub struct ServerView {
    pub compositor: CompositorView,
    pub input: InputStateView,
    /// The ids of the known clients, in the order in which they joined.
    pub clients: Seq<u32>,
    pub next_client_id: u32,
    pub clipboard: Option<Seq<char>>,
}

impl View for Server {
    type V = ServerView;

    open spec fn view(&self) -> ServerView {
        ServerView {
            compositor: self.compositor_state@,
            input: self.input_manager@,
            clients: client_ids(self.clients@),
            next_client_id: self.next_client_id,
            clipboard: self.clipboard@,
        }
    }
}

impl ServerView {
    /// The server at start: the compositor and the input state at their
    /// start, no client, an empty clipboard.
    pub open spec fn initial() -> ServerView {
        ServerView {
            compositor: CompositorView::initial(),
            input: InputStateView::initial(),
            clients: Seq::empty(),
            next_client_id: 1,
            clipboard: None,
        }
    }

    /// The server after one more client joined.
    pub open spec fn with_client(self) -> ServerView
        recommends
            self.next_client_id < u32::MAX,
    {
        ServerView {
            clients: self.clients.push(self.next_client_id),
            next_client_id: (self.next_client_id + 1) as u32,
            ..self
        }
    }

    /// Whether `client_id` may make requests.
    pub open spec fn knows_client(self, client_id: u32) -> bool {
        self.clients.contains(client_id)
    }

    /// The window that a request of `client_id` for a window titled `title`
    /// of `width` by `height` creates.
    pub open spec fn created_window(
        self,
        client_id: u32,
        title: Seq<char>,
        width: u32,
        height: u32,
    ) -> WindowView {
        let offset = cascade_offset(self.compositor.windows.len() as int);
        WindowView::fresh(
            self.compositor.next_window_id,
            client_id,
            title,
            width,
            height,
            offset,
            offset,
        )
    }

    /// The answer to `request`. A client that is not known gets none.
    pub open spec fn reply_to(self, request: ClientRequestView) -> Option<ServerEventView> {
        if !self.knows_client(request.client()) {
            None
        } else {
            match request {
                ClientRequestView::CreateWindow {
                    client_id,
                    title,
                    initial_width,
                    initial_height,
                } => {
                    let w = self.created_window(client_id, title, initial_width, initial_height);
                    Some(
                        ServerEventView::WindowCreated {
                            window_id: w.id,
                            client_id,
                            initial_geometry: (w.x, w.y, w.width, w.height),
                        },
                    )
                },
                ClientRequestView::CopyText { client_id, .. } => Some(
                    ServerEventView::TextCopied { client_id },
                ),
                ClientRequestView::PasteTextRequest { client_id } => Some(
                    ServerEventView::PasteTextResponse { client_id, text: self.clipboard },
                ),
            }
        }
    }

    /// The server after `request`. The request of a client that is not
    /// known changes nothing.
    pub open spec fn after_request(self, request: ClientRequestView) -> ServerView {
        if !self.knows_client(request.client()) {
            self
        } else {
            match request {
                ClientRequestView::CreateWindow {
                    client_id,
                    title,
                    initial_width,
                    initial_height,
                } => ServerView {
                    compositor: self.compositor.after_window_id().with_window(
                        self.created_window(client_id, title, initial_width, initial_height),
                    ),
                    ..self
                },
                ClientRequestView::CopyText { text, .. } => ServerView {
                    clipboard: Some(text),
                    ..self
                },
                ClientRequestView::PasteTextRequest { .. } => self,
            }
        }
    }

    /// The server after one raw input event.
    ///
    /// The input state takes the event as it came in. A copy shortcut puts
    /// its text on the clipboard, a paste shortcut changes nothing more, and
    /// any other event is dispatched on the default seat.
    pub open spec fn after_event(self, event: InputEvent) -> ServerView {
        let s = ServerView { input: self.input.after(event), ..self };
        match recognized(event) {
            InputEvent::CopyShortcut => ServerView { clipboard: Some(shortcut_text()), ..s },
            InputEvent::PasteShortcut => s,
            other => ServerView {
                compositor: s.compositor.with_dispatched(other, default_seat()),
                ..s
            },
        }
    }

    /// The server after each of `events` in turn.
    pub open spec fn after_events(self, events: Seq<InputEvent>) -> ServerView
        decreases events.len(),
    {
        if events.len() == 0 {
            self
        } else {
            self.after_events(events.drop_last()).after_event(events.last())
        }
    }

    /// The server after one loop iteration over `events`: every event is
    /// reduced and dispatched in turn, and only then every window's queue
    /// is emptied.
    pub open spec fn after_iteration(self, events: Seq<InputEvent>) -> ServerView {
        let s = self.after_events(events);
        ServerView { compositor: s.compositor.drained(), ..s }
    }
}

impl Default for Server {
    fn default() -> (server: Server)
        ensures
            server@ == ServerView::initial(),
    {
        Server::new()
    }
}

impl Server {
    /// A server at start.
    pub fn new() -> (server: Server)
        ensures
            server@ == ServerView::initial(),
    {
        let server = Server {
            compositor_state: CompositorState::new(),
            input_manager: InputManager::new(),
            clients: Vec::new(),
            next_client_id: 1,
            clipboard: Clipboard::new(),
        };
        assert(server@.clients =~= Seq::<u32>::empty());
        server
    }

    /// Lets one more client join and hands back its id.
    pub fn add_client(&mut self) -> (client_id: u32)
        requires
            old(self).next_client_id < u32::MAX,
        ensures
            client_id == old(self).next_client_id,
            final(self)@ == old(self)@.with_client(),
    {
        let client_id = self.next_client_id;
        self.next_client_id += 1;
        self.clients.push(Client::new(client_id));
        assert(self@.clients =~= old(self)@.clients.push(client_id));
        client_id
    }

    /// Whether `client_id` may make requests.
    fn is_known_client(&self, client_id: u32) -> (known: bool)
        ensures
            known == self@.knows_client(client_id),
    {
        let n = self.clients.len();
        for i in 0..n
            invariant
                n == self.clients@.len(),
                forall|j: int| 0 <= j < i ==> self@.clients[j] != client_id,
        {
            if self.clients[i].id == client_id {
                assert(self@.clients[i as int] == client_id);
                return true;
            }
        }
        false
    }

    /// Carries out `request` and hands back the answer.
    ///
    /// The request of a client that is not known is dropped without an
    /// answer. A new window gets the next window id, is placed one cascade
    /// step further than there are windows, and is added unmapped.
    pub fn process_client_request(&mut self, request: ClientRequest) -> (reply: Option<ServerEvent>)
        requires
            request is CreateWindow && old(self)@.knows_client(request@.client()) ==> old(
                self,
            )@.compositor.next_window_id < u32::MAX,
        ensures
            final(self)@ == old(self)@.after_request(request@),
            reply matches Some(event) ==> old(self)@.reply_to(request@) == Some(event@),
            reply is None ==> old(self)@.reply_to(request@) is None,
    {
        match request {
            ClientRequest::CreateWindow { client_id, title, initial_width, initial_height } => {
                if !self.is_known_client(client_id) {
                    return None;
                }
                let window_id = self.compositor_state.next_window_id();
                let offset = cascade_position(self.compositor_state.windows.len());
                let window = Window::new(
                    window_id,
                    client_id,
                    title,
                    initial_width,
                    initial_height,
                    offset,
                    offset,
                );
                let geometry = (window.x, window.y, window.width, window.height);
                self.compositor_state.add_window(window);
                Some(
                    ServerEvent::WindowCreated {
                        window_id,
                        client_id,
                        initial_geometry: geometry,
                    },
                )
            },
            ClientRequest::CopyText { client_id, text } => {
                if !self.is_known_client(client_id) {
                    return None;
                }
                self.set_clipboard_data(text);
                Some(ServerEvent::TextCopied { client_id })
            },
            ClientRequest::PasteTextRequest { client_id } => {
                if !self.is_known_client(client_id) {
                    return None;
                }
                let text = self.get_clipboard_data();
                Some(ServerEvent::PasteTextResponse { client_id, text })
            },
        }
    }

    /// Runs one iteration of the event loop over `simulated_events`.
    ///
    /// Each event in turn is fed to the input manager; a copy shortcut puts
    /// its text on the clipboard, a paste shortcut reads the clipboard, and
    /// any other event is dispatched to the focused window of the default
    /// seat. When all events are through, every window's queue is emptied,
    /// in collection order.
    pub fn run_loop_iteration(&mut self, simulated_events: Vec<InputEvent>)
        ensures
            final(self)@ == old(self)@.after_iteration(simulated_events@),
    {
        let n = simulated_events.len();
        for i in 0..n
            invariant
                n == simulated_events@.len(),
                self@ == old(self)@.after_events(simulated_events@.take(i as int)),
        {
            proof {
                assert(simulated_events@.take(i + 1).drop_last() =~= simulated_events@.take(
                    i as int,
                ));
            }
            let processed = self.input_manager.process_simulated_raw_event(simulated_events[i]);
            match processed {
                InputEvent::CopyShortcut => {
                    self.set_clipboard_data("Simulated copied text from active window".to_owned());
                },
                InputEvent::PasteShortcut => {
                    let _ = self.get_clipboard_data();
                },
                _ => {
                    let _ = self.compositor_state.dispatch_input_event(&processed, "seat0");
                },
            }
        }
        assert(simulated_events@.take(n as int) =~= simulated_events@);
        let count = self.compositor_state.windows.len();
        let ghost before = self.compositor_state;
        for i in 0..count
            invariant
                count == self.compositor_state.windows@.len(),
                count == before.windows@.len(),
                self.compositor_state.same_but_windows(&before),
                self@.input == old(self)@.after_events(simulated_events@).input,
                self@.clients == old(self)@.after_events(simulated_events@).clients,
                self@.next_client_id == old(self)@.after_events(simulated_events@).next_client_id,
                self@.clipboard == old(self)@.after_events(simulated_events@).clipboard,
                before@ == old(self)@.after_events(simulated_events@).compositor,
                forall|j: int|
                    0 <= j < i ==> (#[trigger] self.compositor_state.windows@[j])@
                        == before.windows@[j]@.drained(),
                forall|j: int|
                    i <= j < count ==> self.compositor_state.windows@[j] == before.windows@[j],
        {
            let _ = self.compositor_state.windows[i].process_event_queue();
        }
        assert(self@.compositor.windows =~= before@.drained().windows);
    }

    /// Puts `data` on the clipboard.
    pub fn set_clipboard_data(&mut self, data: String)
        ensures
            final(self)@ == (ServerView { clipboard: Some(data@), ..old(self)@ }),
    {
        self.clipboard.set_data(data);
    }

    /// A copy of what the clipboard holds.
    pub fn get_clipboard_data(&self) -> (data: Option<String>)
        ensures
            data matches Some(s) ==> self@.clipboard == Some(s@),
            data is None ==> self@.clipboard is None,
    {
        self.clipboard.get_data()
    }

    /// Empties the clipboard.
    pub fn clear_clipboard_data(&mut self)
        ensures
            final(self)@ == (ServerView { clipboard: None, ..old(self)@ }),
    {
        self.clipboard.clear_data();
    }
}

/// Where a new window is placed, on both axes, when `count` windows are
/// there.
fn cascade_position(count: usize) -> (offset: i32)
    ensures
        offset == cascade_offset(count as int),
{
    if count > CASCADE_LIMIT {
        i32::MAX
    } else {
        CASCADE_ORIGIN + (count as i32) * CASCADE_STEP
    }
}

/// The input state of the server sees every event of an iteration, in
/// order, whether the event is dispatched, intercepted as a shortcut or
/// dropped; the clients are not touched.
pub proof fn lemma_iteration_feeds_the_input_state(server: ServerView, events: Seq<InputEvent>)
    ensures
        server.after_iteration(events).input == server.input.after_all(events),
        server.after_iteration(events).clients == server.clients,
        server.after_iteration(events).next_client_id == server.next_client_id,
    decreases events.len(),
{
    if events.len() > 0 {
        lemma_iteration_feeds_the_input_state(server, events.drop_last());
    }
}

/// When an iteration is over, no window has an event waiting.
pub proof fn lemma_iteration_leaves_no_event_waiting(
    server: ServerView,
    events: Seq<InputEvent>,
    i: int,
)
    requires
        0 <= i < server.after_iteration(events).compositor.windows.len(),
    ensures
        server.after_iteration(events).compositor.windows[i].event_queue.len() == 0,
{
}

} // verus!
