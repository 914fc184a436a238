//! Clients, what they ask of the server, and what the server answers.

use vstd::prelude::*;

verus! {

/// A client known to the server.
#[derive(Debug, Clone, Copy, PartialEq, Eq, Structural)]
pub struct Client {
    pub id: u32,
}

impl Client {
    pub fn new(id: u32) -> (client: Client)
        ensures
            client.id == id,
    {
        Client { id }
    }
}

/// A request of a client.
#[derive(Debug, Clone, PartialEq)]
pub enum ClientRequest {
    /// Create a window with the given title and size.
    CreateWindow { client_id: u32, title: String, initial_width: u32, initial_height: u32 },
    /// Put `text` on the clipboard.
    CopyText { client_id: u32, text: String },
    /// Read the clipboard.
    PasteTextRequest { client_id: u32 },
}

/// The mathematical value of a [`ClientRequest`].
pub enum ClientRequestView {
    CreateWindow { client_id: u32, title: Seq<char>, initial_width: u32, initial_height: u32 },
    CopyText { client_id: u32, text: Seq<char> },
    PasteTextRequest { client_id: u32 },
}

impl ClientRequestView {
    /// The client that makes the request.
    pub open spec fn client(self) -> u32 {
        match self {
            ClientRequestView::CreateWindow { client_id, .. } => client_id,
            ClientRequestView::CopyText { client_id, .. } => client_id,
            ClientRequestView::PasteTextRequest { client_id } => client_id,
        }
    }
}

impl View for ClientRequest {
    type V = ClientRequestView;

    open spec fn view(&self) -> ClientRequestView {
        match *self {
            ClientRequest::CreateWindow {
                client_id,
                title,
                initial_width,
                initial_height,
            } => ClientRequestView::CreateWindow {
                client_id,
                title: title@,
                initial_width,
                initial_height,
            },
            ClientRequest::CopyText { client_id, text } => ClientRequestView::CopyText {
                client_id,
                text: text@,
            },
            ClientRequest::PasteTextRequest { client_id } => ClientRequestView::PasteTextRequest {
                client_id,
            },
        }
    }
}

/// An answer of the server.
#[derive(Debug, PartialEq)]
pub enum ServerEvent {
    /// A window was created. The geometry is (x, y, width, height).
    WindowCreated { window_id: u32, client_id: u32, initial_geometry: (i32, i32, u32, u32) },
    /// The client's text is on the clipboard.
    TextCopied { client_id: u32 },
    /// What the clipboard holds.
    PasteTextResponse { client_id: u32, text: Option<String> },
}

/// The mathematical value of a [`ServerEvent`].
pub enum ServerEventView {
    WindowCreated { window_id: u32, client_id: u32, initial_geometry: (i32, i32, u32, u32) },
    TextCopied { client_id: u32 },
    PasteTextResponse { client_id: u32, text: Option<Seq<char>> },
}

impl View for ServerEvent {
    type V = ServerEventView;

    open spec fn view(&self) -> ServerEventView {
        match *self {
            ServerEvent::WindowCreated {
                window_id,
                client_id,
                initial_geometry,
            } => ServerEventView::WindowCreated { window_id, client_id, initial_geometry },
            ServerEvent::TextCopied { client_id } => ServerEventView::TextCopied { client_id },
            ServerEvent::PasteTextResponse {
                client_id,
                text,
            } => ServerEventView::PasteTextResponse {
                client_id,
                text: match text {
                    Some(t) => Some(t@),
                    None => None,
                },
            },
        }
    }
}

impl Clone for ServerEvent {
    fn clone(&self) -> (copy: ServerEvent)
        ensures
            copy@ == self@,
    {
        match self {
            ServerEvent::WindowCreated {
                window_id,
                client_id,
                initial_geometry,
            } => ServerEvent::WindowCreated {
                window_id: *window_id,
                client_id: *client_id,
                initial_geometry: *initial_geometry,
            },
            ServerEvent::TextCopied { client_id } => ServerEvent::TextCopied {
                client_id: *client_id,
            },
            ServerEvent::PasteTextResponse { client_id, text } => ServerEvent::PasteTextResponse {
                client_id: *client_id,
                text: match text {
                    Some(t) => Some(t.clone()),
                    None => None,
                },
            },
        }
    }
}

} // verus!
