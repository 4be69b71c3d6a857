//! What a dialogue asks the program around the library to do.

use vstd::prelude::*;
use crate::message::{Segment, SegmentView, segments_view};

verus! {

/// One thing for the program to do on behalf of a dialogue, in order.
#[derive(Debug, Clone, PartialEq, Eq)]
pub enum Action {
    /// Send the segments to the conversation of the dialogue.
    Send(Vec<Segment>),
    /// Send the segments as a reply to the message with id `message_id`.
    Reply { message_id: String, segments: Vec<Segment> },
    /// Wait, with no time limit, for the next message of the same user and
    /// hand its text back.
    WaitText,
    /// Wait up to `timeout_secs` seconds for a message of the same user
    /// whose text is a `u8`, answering each other text with
    /// `error_message`, and give up after `invalid_threshold` such texts
    /// beyond the first.
    WaitNumber { timeout_secs: u64, invalid_threshold: usize, error_message: String },
    /// As `WaitNumber`, for a yes/no answer.
    WaitBool { timeout_secs: u64, invalid_threshold: usize, error_message: String },
}

/// The mathematical value of an [`Action`].
pub enum ActionView {
    Send(Seq<SegmentView>),
    Reply { message_id: Seq<char>, segments: Seq<SegmentView> },
    WaitText,
    WaitNumber { timeout_secs: u64, invalid_threshold: usize, error_message: Seq<char> },
    WaitBool { timeout_secs: u64, invalid_threshold: usize, error_message: Seq<char> },
}

impl View for Action {
    type V = ActionView;

    open spec fn view(&self) -> ActionView {
        match self {
            Action::Send(segs) => ActionView::Send(segments_view(segs@)),
            Action::Reply { message_id, segments } => ActionView::Reply {
                message_id: message_id@,
                segments: segments_view(segments@),
            },
            Action::WaitText => ActionView::WaitText,
            Action::WaitNumber { timeout_secs, invalid_threshold, error_message } =>
                ActionView::WaitNumber {
                    timeout_secs: *timeout_secs,
                    invalid_threshold: *invalid_threshold,
                    error_message: error_message@,
                },
            Action::WaitBool { timeout_secs, invalid_threshold, error_message } =>
                ActionView::WaitBool {
                    timeout_secs: *timeout_secs,
                    invalid_threshold: *invalid_threshold,
                    error_message: error_message@,
                },
        }
    }
}

/// The views of a list of actions.
pub open spec fn actions_view(actions: Seq<Action>) -> Seq<ActionView> {
    actions.map_values(|a: Action| a@)
}

} // verus!
