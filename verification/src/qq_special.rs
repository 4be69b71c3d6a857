//! The `/like` command of QQ bots: the sender of the command gets one like.

use vstd::prelude::*;
use crate::message::{Message, Segment, SegmentView, segments_view, some_text_starts_with};
use crate::text::{parse_i64, parse_i64_spec};

verus! {

/// Answers `/like` by sending one like to the sender.
pub struct QQSpecialHandler;

/// Why a `/like` command cannot be carried out.
#[derive(Debug, PartialEq, Eq, Structural)]
pub enum LikeError {
    /// The event names no user.
    NoUser,
    /// The bot that received the command is not a OneBot v11 bot.
    NotOnebotBot,
    /// The user id is not a decimal `i64`.
    InvalidUserId,
}

/// What to do for a `/like` command: send `times` likes to `user_id`, then
/// send `reply`.
#[derive(Debug, Clone, PartialEq, Eq)]
pub struct LikePlan {
    pub user_id: i64,
    pub times: i64,
    pub reply: Vec<Segment>,
}

/// Whether `message` is present and holds a text segment beginning with `/like`.
pub open spec fn is_like_command(message: Option<&Message>) -> bool {
    message matches Some(m) && some_text_starts_with(m@.segments, "/like"@)
}

impl QQSpecialHandler {
    /// The plan for an event with `message`, sent by `user_id`, received by
    /// a bot that is a OneBot v11 bot when `bot_is_onebot` holds.
    ///
    /// No plan unless the message is a `/like` command; then, in this order,
    /// a missing user, a bot of another kind and a user id that is not a
    /// decimal `i64` are errors; otherwise one like for that user id and the
    /// reply "Sent 1 like to you." to the message.
    pub fn plan_like(
        &self,
        message: Option<&Message>,
        user_id: Option<&str>,
        bot_is_onebot: bool,
    ) -> (res: Result<Option<LikePlan>, LikeError>)
        ensures
            !is_like_command(message) ==> res matches Ok(None),
            is_like_command(message) && user_id is None ==> res == Err::<Option<LikePlan>, LikeError>(
                LikeError::NoUser,
            ),
            is_like_command(message) && user_id is Some && !bot_is_onebot ==> res == Err::<
                Option<LikePlan>,
                LikeError,
            >(LikeError::NotOnebotBot),
            is_like_command(message) && user_id is Some && bot_is_onebot && parse_i64_spec(
                user_id->0@,
            ) is None ==> res == Err::<Option<LikePlan>, LikeError>(LikeError::InvalidUserId),
            is_like_command(message) && user_id is Some && bot_is_onebot && parse_i64_spec(
                user_id->0@,
            ) is Some ==> (res matches Ok(Some(plan)) && plan.user_id == parse_i64_spec(
                user_id->0@,
            )->0 && plan.times == 1 && segments_view(plan.reply@) == seq![
                SegmentView::Text("Sent 1 like to you."@),
                SegmentView::Reply(message->0@.id),
            ]),
    {
        let message = match message {
            Some(m) => m,
            None => return Ok(None),
        };
        if !message.starts_with_text("/like") {
            return Ok(None);
        }
        let user_id = match user_id {
            Some(u) => u,
            None => return Err(LikeError::NoUser),
        };
        if !bot_is_onebot {
            return Err(LikeError::NotOnebotBot);
        }
        let id = match parse_i64(user_id) {
            Some(id) => id,
            None => return Err(LikeError::InvalidUserId),
        };
        let mut reply: Vec<Segment> = Vec::new();
        reply.push(Segment::Text { content: "Sent 1 like to you.".to_owned() });
        reply.push(Segment::Reply { message_id: message.id.clone() });
        assert(segments_view(reply@) =~= seq![
            SegmentView::Text("Sent 1 like to you."@),
            SegmentView::Reply(message@.id),
        ]);
        Ok(Some(LikePlan { user_id: id, times: 1, reply }))
    }
}

} // verus!
