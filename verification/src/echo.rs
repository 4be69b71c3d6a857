//! The echo command: a message whose text begins with `/echo` is sent back
//! without that prefix, as a reply to it.

use vstd::prelude::*;
use crate::message::{
    Message, Segment, SegmentView, segments_view, some_text_starts_with, trim_head_spec,
};

verus! {

/// Echoes every message that starts with `/echo`.
pub struct EchoHandler;

impl EchoHandler {
    /// The segments to send back for `message`: `None` unless a text
    /// segment begins with `/echo`; otherwise the message's segments with
    /// that prefix trimmed from the first such segment, followed by a reply
    /// to the message.
    pub fn respond(&self, message: &Message) -> (res: Option<Vec<Segment>>)
        ensures
            res is Some <==> some_text_starts_with(message@.segments, "/echo"@),
            res matches Some(segs) ==> segments_view(segs@) == trim_head_spec(
                message@.segments,
                "/echo"@,
            ).push(SegmentView::Reply(message@.id)),
    {
        if message.starts_with_text("/echo") {
            let mut segments = message.trim_head_text("/echo");
            let ghost before = segments@;
            segments.push(Segment::Reply { message_id: message.id.clone() });
            assert(segments_view(segments@) =~= segments_view(before).push(
                SegmentView::Reply(message@.id),
            ));
            Some(segments)
        } else {
            None
        }
    }
}

} // verus!
