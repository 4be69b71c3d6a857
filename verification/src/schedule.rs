//! The scheduled greeting: a fixed text sent to a fixed user on a timer.

use vstd::prelude::*;
use crate::message::{Segment, SegmentView, segments_view};

verus! {

/// Sends "Tik" to a fixed user every ten minutes.
pub struct ScheduleHandler;

/// When a scheduled send runs: every `every_minutes` minutes, at second
/// `at_second` of the minute.
#[derive(Debug, Clone, Copy, PartialEq, Eq, Structural)]
pub struct Schedule {
    pub every_minutes: u32,
    pub at_second: u32,
}

/// One scheduled send: the bot with id `bot_id` sends `segments` to the
/// user `target_user` in a private chat.
#[derive(Debug, Clone, PartialEq, Eq)]
pub struct ScheduledSend {
    pub bot_id: String,
    pub target_user: String,
    pub segments: Vec<Segment>,
}

impl ScheduleHandler {
    /// Every ten minutes, at second 30.
    pub fn schedule(&self) -> (res: Schedule)
        ensures
            res == (Schedule { every_minutes: 10, at_second: 30 }),
    {
        Schedule { every_minutes: 10, at_second: 30 }
    }

    /// What each run sends: "Tik" from bot "123456789" to user "123456789".
    pub fn tick(&self) -> (res: ScheduledSend)
        ensures
            res.bot_id@ == "123456789"@,
            res.target_user@ == "123456789"@,
            segments_view(res.segments@) == seq![SegmentView::Text("Tik"@)],
    {
        let mut segments: Vec<Segment> = Vec::new();
        segments.push(Segment::Text { content: "Tik".to_owned() });
        assert(segments_view(segments@) =~= seq![SegmentView::Text("Tik"@)]);
        ScheduledSend {
            bot_id: "123456789".to_owned(),
            target_user: "123456789".to_owned(),
            segments,
        }
    }
}

} // verus!
