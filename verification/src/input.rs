//! The cancellation source: whatever the user does while the overlay is
//! up means that the user wants out.

use vstd::prelude::*;
use crate::orchestrator::{Event, EventView};

verus! {

/// The kinds of input that the surface forwards.
#[derive(Clone, Copy, Debug, PartialEq, Eq, Structural)]
pub enum InputEvent {
    PointerMotion,
    KeyDown,
    KeyUp,
    ButtonDown,
    ButtonUp,
}

/// Turns input into requests to cancel. It holds nothing and filters
/// nothing: no kind of input is told from another, none is waited out, and
/// no key is left aside.
#[derive(Clone, Copy, Debug, PartialEq, Eq, Structural)]
pub struct CancellationSource {}

impl CancellationSource {
    /// A cancellation source.
    pub fn new() -> (source: CancellationSource) {
        CancellationSource {  }
    }

    /// The event that the orchestrator is handed for this input: a request
    /// to cancel, whatever the input was.
    pub fn on_input_event(&self, input: InputEvent) -> (event: Event)
        ensures
            event@ == EventView::CancelRequest,
    {
        match input {
            InputEvent::PointerMotion => Event::CancelRequest,
            InputEvent::KeyDown => Event::CancelRequest,
            InputEvent::KeyUp => Event::CancelRequest,
            InputEvent::ButtonDown => Event::CancelRequest,
            InputEvent::ButtonUp => Event::CancelRequest,
        }
    }
}

/// The events that a run of inputs is turned into: one request to cancel
/// for each input, in order.
pub open spec fn cancel_requests(inputs: Seq<InputEvent>) -> Seq<EventView> {
    Seq::new(inputs.len(), |i: int| EventView::CancelRequest)
}

} // verus!
