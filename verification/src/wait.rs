//! The wait dialogue: on `/wait` the bot asks for a number and then for a
//! yes/no answer, replying to each.

use vstd::prelude::*;
use crate::dialogue::{Action, ActionView, actions_view};
use crate::message::{Message, SegmentView, some_text_starts_with, text_only};
use crate::text::{
    canonical_decimal, decimal, lemma_decimal_is_canonical, parse_u8_spec, u64_to_decimal,
};

verus! {

/// Where a wait dialogue stands.
#[derive(Debug, Clone, Copy, PartialEq, Eq, Structural)]
pub enum WaitStage {
    /// No message seen yet.
    Idle,
    /// The bot has asked for a number.
    AwaitingNumber,
    /// The bot has asked for a yes/no answer.
    AwaitingBool,
    /// The dialogue is over.
    Finished,
}

/// One wait dialogue with one user.
#[derive(Debug, Clone, PartialEq, Eq)]
pub struct WaitDialogue {
    pub stage: WaitStage,
}

/// The prompt for the number, also sent with each invalid answer.
pub open spec fn number_prompt() -> Seq<char> {
    "Please send a unsigned int8"@
}

/// The prompt for the yes/no answer, also sent with an invalid answer.
pub open spec fn bool_prompt() -> Seq<char> {
    "Please send a bool"@
}

/// The reply to the number `n`.
pub open spec fn number_reply(n: nat) -> Seq<char> {
    "You sent a number: "@ + decimal(n)
}

/// The reply to a number shows that number as the user could have typed
/// it: after the fixed opening come the decimal digits of `n`, without sign
/// or leading zeros, and they read back as `n`.
pub proof fn law_number_reply_shows_the_number(n: u8)
    ensures
        number_reply(n as nat).len() >= "You sent a number: "@.len(),
        number_reply(n as nat).subrange(0, "You sent a number: "@.len() as int)
            == "You sent a number: "@,
        canonical_decimal(
            number_reply(n as nat).subrange(
                "You sent a number: "@.len() as int,
                number_reply(n as nat).len() as int,
            ),
            n as nat,
        ),
        parse_u8_spec(
            number_reply(n as nat).subrange(
                "You sent a number: "@.len() as int,
                number_reply(n as nat).len() as int,
            ),
        ) == Some(n),
{
    let p = "You sent a number: "@;
    let d = decimal(n as nat);
    lemma_decimal_is_canonical(n as nat);
    let r = number_reply(n as nat);
    assert(r.subrange(0, p.len() as int) =~= p);
    assert(r.subrange(p.len() as int, r.len() as int) =~= d);
    assert(d[0] != '+');
}

/// The reply to the yes/no answer `b`.
pub open spec fn bool_reply(b: bool) -> Seq<char> {
    if b {
        "You confirmed"@
    } else {
        "You rejected"@
    }
}

/// Whether `message` is present and holds a text segment beginning with `/wait`.
pub open spec fn is_wait_command(message: Option<&Message>) -> bool {
    message matches Some(m) && some_text_starts_with(m@.segments, "/wait"@)
}

impl WaitDialogue {
    /// A dialogue that has seen no message yet.
    pub fn new() -> (res: Self)
        ensures
            res.stage == WaitStage::Idle,
    {
        WaitDialogue { stage: WaitStage::Idle }
    }

    /// The first step, on the event that may start the dialogue: for a
    /// `/wait` command, ask for a number and wait for it (30 seconds, 3
    /// invalid answers tolerated); for anything else, end at once. Only an
    /// idle dialogue takes this step.
    pub fn on_message(&mut self, message: Option<&Message>) -> (res: Vec<Action>)
        ensures
            old(self).stage == WaitStage::Idle && is_wait_command(message) ==> {
                &&& final(self).stage == WaitStage::AwaitingNumber
                &&& actions_view(res@) == seq![
                    ActionView::Send(seq![SegmentView::Text(number_prompt())]),
                    ActionView::WaitNumber {
                        timeout_secs: 30,
                        invalid_threshold: 3,
                        error_message: number_prompt(),
                    },
                ]
            },
            old(self).stage == WaitStage::Idle && !is_wait_command(message) ==> {
                &&& final(self).stage == WaitStage::Finished
                &&& res@.len() == 0
            },
            old(self).stage != WaitStage::Idle ==> {
                &&& final(self).stage == old(self).stage
                &&& res@.len() == 0
            },
    {
        let mut actions: Vec<Action> = Vec::new();
        if self.stage != WaitStage::Idle {
            return actions;
        }
        let start = match message {
            Some(m) => m.starts_with_text("/wait"),
            None => false,
        };
        if start {
            actions.push(Action::Send(text_only("Please send a unsigned int8".to_owned())));
            actions.push(
                Action::WaitNumber {
                    timeout_secs: 30,
                    invalid_threshold: 3,
                    error_message: "Please send a unsigned int8".to_owned(),
                },
            );
            assert(actions_view(actions@) =~= seq![
                ActionView::Send(seq![SegmentView::Text(number_prompt())]),
                ActionView::WaitNumber {
                    timeout_secs: 30,
                    invalid_threshold: 3,
                    error_message: number_prompt(),
                },
            ]);
            self.stage = WaitStage::AwaitingNumber;
        } else {
            self.stage = WaitStage::Finished;
        }
        actions
    }

    /// The step on the number `n`, received in the message with id
    /// `answer_id`: reply to that message with the number, then ask for a yes/no
    /// answer and wait for it (30 seconds, no invalid answer tolerated).
    /// Only a dialogue awaiting a number takes this step.
    pub fn on_number(&mut self, n: u8, answer_id: &str) -> (res: Vec<Action>)
        ensures
            old(self).stage == WaitStage::AwaitingNumber ==> {
                &&& final(self).stage == WaitStage::AwaitingBool
                &&& actions_view(res@) == seq![
                    ActionView::Reply {
                        message_id: answer_id@,
                        segments: seq![SegmentView::Text(number_reply(n as nat))],
                    },
                    ActionView::Send(seq![SegmentView::Text(bool_prompt())]),
                    ActionView::WaitBool {
                        timeout_secs: 30,
                        invalid_threshold: 1,
                        error_message: bool_prompt(),
                    },
                ]
            },
            old(self).stage != WaitStage::AwaitingNumber ==> {
                &&& final(self).stage == old(self).stage
                &&& res@.len() == 0
            },
    {
        let mut actions: Vec<Action> = Vec::new();
        if self.stage != WaitStage::AwaitingNumber {
            return actions;
        }
        let mut reply = "You sent a number: ".to_owned();
        reply.append(u64_to_decimal(n as u64).as_str());
        let ghost r = reply@;
        actions.push(Action::Reply { message_id: answer_id.to_owned(), segments: text_only(reply) });
        actions.push(Action::Send(text_only("Please send a bool".to_owned())));
        actions.push(
            Action::WaitBool {
                timeout_secs: 30,
                invalid_threshold: 1,
                error_message: "Please send a bool".to_owned(),
            },
        );
        assert(actions_view(actions@) =~= seq![
            ActionView::Reply { message_id: answer_id@, segments: seq![SegmentView::Text(r)] },
            ActionView::Send(seq![SegmentView::Text(bool_prompt())]),
            ActionView::WaitBool {
                timeout_secs: 30,
                invalid_threshold: 1,
                error_message: bool_prompt(),
            },
        ]);
        self.stage = WaitStage::AwaitingBool;
        actions
    }

    /// The step on the yes/no answer `b`, received in the message with id
    /// `answer_id`: reply to that message that the user confirmed or
    /// rejected, and end. Only a dialogue awaiting that answer takes this step.
    pub fn on_bool(&mut self, b: bool, answer_id: &str) -> (res: Vec<Action>)
        ensures
            old(self).stage == WaitStage::AwaitingBool ==> {
                &&& final(self).stage == WaitStage::Finished
                &&& actions_view(res@) == seq![
                    ActionView::Reply {
                        message_id: answer_id@,
                        segments: seq![SegmentView::Text(bool_reply(b))],
                    },
                ]
            },
            old(self).stage != WaitStage::AwaitingBool ==> {
                &&& final(self).stage == old(self).stage
                &&& res@.len() == 0
            },
    {
        let mut actions: Vec<Action> = Vec::new();
        if self.stage != WaitStage::AwaitingBool {
            return actions;
        }
        let reply = if b {
            "You confirmed".to_owned()
        } else {
            "You rejected".to_owned()
        };
        let ghost r = reply@;
        actions.push(Action::Reply { message_id: answer_id.to_owned(), segments: text_only(reply) });
        assert(actions_view(actions@) =~= seq![
            ActionView::Reply { message_id: answer_id@, segments: seq![SegmentView::Text(r)] },
        ]);
        self.stage = WaitStage::Finished;
        actions
    }

    /// The dialogue ends without a further step (a wait or a send failed).
    pub fn on_failure(&mut self)
        ensures
            final(self).stage == WaitStage::Finished,
    {
        self.stage = WaitStage::Finished;
    }
}

} // verus!
