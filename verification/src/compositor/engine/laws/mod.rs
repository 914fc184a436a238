//! Laws of the compositor's operations, proved of the model.

pub mod cycling;
pub mod dispatch;
pub mod focus;
pub mod identifiers;
pub mod layout;
pub mod mapping;
pub mod presence;
