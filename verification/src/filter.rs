//! A filter that lets only message events through to the handlers.

use vstd::prelude::*;
use crate::message::EventKind;

verus! {

/// Lets message events pass and stops every other kind of event.
pub struct MessageEventFilter;

impl MessageEventFilter {
    /// Whether an event of kind `event` goes on to the handlers.
    pub fn filter(&self, event: EventKind) -> (res: bool)
        ensures
            res <==> event == EventKind::Message,
    {
        match event {
            EventKind::Message => true,
            _ => false,
        }
    }

    /// The filter's priority; filters run from the lowest priority up.
    pub fn get_priority(&self) -> (res: u8)
        ensures
            res == 0,
    {
        0
    }
}

} // verus!
