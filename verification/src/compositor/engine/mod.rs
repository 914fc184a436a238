//! The compositor's state: outputs, windows and seats, and the operations
//! on them.

pub mod display;
pub mod laws;
pub mod model;
pub mod output;
pub mod seat;
pub mod state;
pub mod window;

pub use display::Display;
pub use model::CompositorView;
pub use output::{Output, OutputView};
pub use seat::{Seat, SeatView};
pub use state::CompositorState;
pub use window::{action_for_event, Window, WindowAction, WindowState, WindowView};
