//! The reaction commands: `/set action` makes the bot react to every later
//! message of the sender, `/cancel action` stops it. The targets live in a
//! SQLite table `reactions (user_id TEXT PRIMARY KEY, reaction_type TEXT)`;
//! this module decides which statements run and what is answered.

use vstd::prelude::*;
use crate::message::{EventKind, Message, Segment, SegmentView, raw_text, segments_view, text_only};
use crate::text::starts_with;

verus! {

/// An SQL statement and the values bound to its `?` placeholders, in order.
#[derive(Debug, Clone, PartialEq, Eq)]
pub struct Statement {
    pub sql: String,
    pub binds: Vec<String>,
}

/// The values bound by a statement.
pub open spec fn binds_view(s: &Statement) -> Seq<Seq<char>> {
    s.binds@.map_values(|b: String| b@)
}

/// The statement that creates the table of reaction targets.
pub fn create_table_statement() -> (res: Statement)
    ensures
        res.sql@ == "CREATE TABLE reactions (\n                    user_id TEXT PRIMARY KEY,\n                    reaction_type TEXT NOT NULL\n                )"@,
        res.binds@.len() == 0,
{
    Statement {
        sql: "CREATE TABLE reactions (\n                    user_id TEXT PRIMARY KEY,\n                    reaction_type TEXT NOT NULL\n                )".to_owned(),
        binds: Vec::new(),
    }
}

/// The statement that makes `user_id` a target of the `like` reaction; it
/// fails where the user is a target already, the user id being the key.
pub fn add_target_statement(user_id: &str) -> (res: Statement)
    ensures
        res.sql@ == "INSERT INTO reactions (user_id, reaction_type) VALUES (?, ?)"@,
        binds_view(&res) == seq![user_id@, "like"@],
{
    let mut binds: Vec<String> = Vec::new();
    binds.push(user_id.to_owned());
    binds.push("like".to_owned());
    let res = Statement {
        sql: "INSERT INTO reactions (user_id, reaction_type) VALUES (?, ?)".to_owned(),
        binds,
    };
    assert(binds_view(&res) =~= seq![user_id@, "like"@]);
    res
}

/// The statement that stops `user_id` being a target of the `like` reaction.
pub fn remove_target_statement(user_id: &str) -> (res: Statement)
    ensures
        res.sql@ == "DELETE FROM reactions WHERE user_id = ? AND reaction_type = 'like'"@,
        binds_view(&res) == seq![user_id@],
{
    let mut binds: Vec<String> = Vec::new();
    binds.push(user_id.to_owned());
    let res = Statement {
        sql: "DELETE FROM reactions WHERE user_id = ? AND reaction_type = 'like'".to_owned(),
        binds,
    };
    assert(binds_view(&res) =~= seq![user_id@]);
    res
}

/// The statement that counts the `like` targets with id `user_id`.
pub fn check_target_statement(user_id: &str) -> (res: Statement)
    ensures
        res.sql@ == "SELECT COUNT(*) FROM reactions WHERE user_id = ? AND reaction_type = 'like'"@,
        binds_view(&res) == seq![user_id@],
{
    let mut binds: Vec<String> = Vec::new();
    binds.push(user_id.to_owned());
    let res = Statement {
        sql: "SELECT COUNT(*) FROM reactions WHERE user_id = ? AND reaction_type = 'like'".to_owned(),
        binds,
    };
    assert(binds_view(&res) =~= seq![user_id@]);
    res
}

/// Whether a user is a target, given the count that the check statement
/// returned for them.
pub fn is_target(count: i64) -> (res: bool)
    ensures
        res == (count > 0),
{
    count > 0
}

/// The reactions set on a target's message: the one with id "201".
pub fn target_reactions() -> (res: Vec<String>)
    ensures
        res@.map_values(|r: String| r@) == seq!["201"@],
{
    let mut res: Vec<String> = Vec::new();
    res.push("201".to_owned());
    assert(res@.map_values(|r: String| r@) =~= seq!["201"@]);
    res
}

/// The commands found in the text of a message.
#[derive(Debug, Clone, Copy, PartialEq, Eq, Structural)]
pub struct ReactionCommands {
    /// The text begins with `/set action`.
    pub set_action: bool,
    /// The text begins with `/cancel action`.
    pub cancel_action: bool,
}

/// The commands in the message text `text`.
pub fn commands(text: &str) -> (res: ReactionCommands)
    ensures
        res.set_action == "/set action"@.is_prefix_of(text@),
        res.cancel_action == "/cancel action"@.is_prefix_of(text@),
{
    ReactionCommands {
        set_action: starts_with(text, "/set action"),
        cancel_action: starts_with(text, "/cancel action"),
    }
}

/// The answer to `/set action`, sent as a reply to the command.
pub fn set_reply() -> (res: Vec<Segment>)
    ensures
        segments_view(res@) == seq![SegmentView::Text("Set reaction to your message"@)],
{
    text_only("Set reaction to your message".to_owned())
}

/// The answer to `/cancel action`, sent as a reply to the command.
pub fn cancel_reply() -> (res: Vec<Segment>)
    ensures
        segments_view(res@) == seq![SegmentView::Text("Cancel reaction to your message"@)],
{
    text_only("Cancel reaction to your message".to_owned())
}

/// The statements to run for a message event: add the sender as a target
/// on `/set action`, remove them on `/cancel action`, and in any case check
/// whether the sender is a target, to react to the message if so.
#[derive(Debug, Clone, PartialEq, Eq)]
pub struct ReactionPlan {
    pub add: Option<Statement>,
    pub remove: Option<Statement>,
    pub check: Statement,
}

/// Whether `plan` is the plan for a message with text `text` from the user
/// `sender_id`: adding them on `/set action`, removing them on
/// `/cancel action`, and checking them in any case.
pub open spec fn plans(plan: ReactionPlan, text: Seq<char>, sender_id: Seq<char>) -> bool {
    &&& plan.add is Some <==> "/set action"@.is_prefix_of(text)
    &&& plan.add matches Some(st) ==> st.sql@
        == "INSERT INTO reactions (user_id, reaction_type) VALUES (?, ?)"@ && binds_view(&st)
        == seq![sender_id, "like"@]
    &&& plan.remove is Some <==> "/cancel action"@.is_prefix_of(text)
    &&& plan.remove matches Some(st) ==> st.sql@
        == "DELETE FROM reactions WHERE user_id = ? AND reaction_type = 'like'"@
        && binds_view(&st) == seq![sender_id]
    &&& plan.check.sql@
        == "SELECT COUNT(*) FROM reactions WHERE user_id = ? AND reaction_type = 'like'"@
    &&& binds_view(&plan.check) == seq![sender_id]
}

/// The plan for `message`, sent by the user `sender_id`; the commands are
/// read from the message's text.
pub fn plan_for_message(message: &Message, sender_id: &str) -> (res: ReactionPlan)
    ensures
        plans(res, raw_text(message@.segments), sender_id@),
{
    let text = message.get_raw_text();
    let found = commands(text.as_str());
    let add = if found.set_action {
        Some(add_target_statement(sender_id))
    } else {
        None
    };
    let remove = if found.cancel_action {
        Some(remove_target_statement(sender_id))
    } else {
        None
    };
    ReactionPlan { add, remove, check: check_target_statement(sender_id) }
}

/// The plan for an event of kind `kind`: only a message event, with its
/// message and its sender, gets one; every other event is left alone.
pub fn plan_for_event(kind: EventKind, message: Option<&Message>, sender_id: Option<&str>) -> (res:
    Option<ReactionPlan>)
    ensures
        res is Some <==> kind == EventKind::Message && message is Some && sender_id is Some,
        res matches Some(plan) ==> plans(plan, raw_text(message->0@.segments), sender_id->0@),
{
    match (kind, message, sender_id) {
        (EventKind::Message, Some(m), Some(u)) => Some(plan_for_message(m, u)),
        _ => None,
    }
}

/// No text holds both commands: `/set action` and `/cancel action` differ
/// in their second character.
pub proof fn lemma_commands_exclusive(text: Seq<char>)
    ensures
        !("/set action"@.is_prefix_of(text) && "/cancel action"@.is_prefix_of(text)),
{
    reveal_strlit("/set action");
    reveal_strlit("/cancel action");
    if "/set action"@.is_prefix_of(text) && "/cancel action"@.is_prefix_of(text) {
        assert("/set action"@[1] == text[1]);
        assert("/cancel action"@[1] == text[1]);
    }
}

} // verus!
