//! The compositor.

use vstd::prelude::*;

pub mod engine;
pub mod renderer_interface;

verus! {

/// What the compositor as a whole can fail at.
#[derive(Debug)]
pub enum CompositorError {
    InitializationFailed(String),
}

pub type CompositorResult<T> = Result<T, CompositorError>;

} // verus!
