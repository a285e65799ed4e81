//! What a bounded wait on the delivery channel comes to.

use vstd::prelude::*;
use crate::event::Event;

verus! {

/// `tokio::time::error::Elapsed`, the error of a timer that ran out.
/// Nothing is claimed of it.
#[verifier::external_type_specification]
#[verifier::external_body]
pub struct ExElapsed(tokio::time::error::Elapsed);

/// The outcome of one wait for the next event.
#[derive(Debug)]
pub enum EventResult {
    /// Nothing arrived in time. Nothing was taken from the channel: the
    /// caller may wait again.
    Timeout,
    /// Every producer is gone and the channel is drained.
    StreamClosed,
    /// The next event, now the caller's.
    Received(Event),
}

/// Reads the outcome of a wait from what the timer and the channel gave:
/// the timer's error is a timeout, the channel's end is a closed stream,
/// and an event is handed on as it is.
pub fn wait_outcome(
    polled: Result<Option<Event>, tokio::time::error::Elapsed>,
) -> (outcome: EventResult)
    ensures
        outcome == (match polled {
            Ok(Some(event)) => EventResult::Received(event),
            Ok(None) => EventResult::StreamClosed,
            Err(_) => EventResult::Timeout,
        }),
{
    match polled {
        Ok(Some(event)) => EventResult::Received(event),
        Ok(None) => EventResult::StreamClosed,
        Err(_) => EventResult::Timeout,
    }
}

} // verus!
