//! The engine of a desktop compositor: outputs, windows and seats, input
//! tracking and dispatch, window arrangement, and the vocabulary of the
//! rendering backend.

pub mod client;
pub mod clipboard;
pub mod compositor;
pub mod input;
pub mod server;

pub use client::{Client, ClientRequest, ServerEvent};
pub use server::Server;
