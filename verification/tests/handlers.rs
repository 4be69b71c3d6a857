use oxidebot_example::echo::EchoHandler;
use oxidebot_example::message::{EventKind, Message, Segment};
use oxidebot_example::qq_special::{LikeError, QQSpecialHandler};
use oxidebot_example::schedule::ScheduleHandler;
use oxidebot_example::set_message_reaction::{
    add_target_statement, cancel_reply, check_target_statement, commands,
    create_table_statement, is_target, plan_for_event, plan_for_message, remove_target_statement, set_reply,
    target_reactions,
};

fn text(s: &str) -> Segment {
    Segment::Text { content: s.to_string() }
}

fn message(id: &str, segments: Vec<Segment>) -> Message {
    Message { id: id.to_string(), segments }
}

#[test]
fn echo_sends_back_the_rest_as_a_reply() {
    let m = message("42", vec![text("/echo hello"), Segment::Other { position: 1 }]);
    let out = EchoHandler.respond(&m).unwrap();
    assert_eq!(
        out,
        vec![
            text(" hello"),
            Segment::Other { position: 1 },
            Segment::Reply { message_id: "42".to_string() },
        ]
    );
}

#[test]
fn echo_finds_the_command_in_a_later_segment() {
    let m = message("7", vec![Segment::Other { position: 0 }, text("/echo/echo x")]);
    let out = EchoHandler.respond(&m).unwrap();
    assert_eq!(
        out,
        vec![
            Segment::Other { position: 0 },
            text(" x"),
            Segment::Reply { message_id: "7".to_string() },
        ]
    );
}

#[test]
fn echo_ignores_other_messages() {
    let m = message("1", vec![text("hello /echo")]);
    assert_eq!(EchoHandler.respond(&m), None);
}

#[test]
fn like_plan_for_a_valid_user() {
    let m = message("9", vec![text("/like")]);
    let plan = QQSpecialHandler.plan_like(Some(&m), Some("123456"), true).unwrap().unwrap();
    assert_eq!(plan.user_id, 123456);
    assert_eq!(plan.times, 1);
    assert_eq!(
        plan.reply,
        vec![text("Sent 1 like to you."), Segment::Reply { message_id: "9".to_string() }]
    );
}

#[test]
fn like_errors_come_in_order() {
    let m = message("9", vec![text("/like me")]);
    let h = QQSpecialHandler;
    assert_eq!(h.plan_like(Some(&m), None, false), Err(LikeError::NoUser));
    assert_eq!(h.plan_like(Some(&m), Some("abc"), false), Err(LikeError::NotOnebotBot));
    assert_eq!(h.plan_like(Some(&m), Some("abc"), true), Err(LikeError::InvalidUserId));
    assert_eq!(
        h.plan_like(Some(&m), Some("99999999999999999999"), true),
        Err(LikeError::InvalidUserId)
    );
}

#[test]
fn like_ignores_other_events() {
    let m = message("9", vec![text("hello")]);
    let h = QQSpecialHandler;
    assert_eq!(h.plan_like(Some(&m), None, false), Ok(None));
    assert_eq!(h.plan_like(None, Some("1"), true), Ok(None));
}

#[test]
fn schedule_sends_tik_every_ten_minutes() {
    let h = ScheduleHandler;
    let s = h.schedule();
    assert_eq!(s.every_minutes, 10);
    assert_eq!(s.at_second, 30);
    let t = h.tick();
    assert_eq!(t.bot_id, "123456789");
    assert_eq!(t.target_user, "123456789");
    assert_eq!(t.segments, vec![text("Tik")]);
}

#[test]
fn reaction_statements() {
    let create = create_table_statement();
    assert_eq!(
        create.sql,
        "CREATE TABLE reactions (\n                    user_id TEXT PRIMARY KEY,\n                    reaction_type TEXT NOT NULL\n                )"
    );
    assert!(create.binds.is_empty());
    let add = add_target_statement("u1");
    assert_eq!(add.sql, "INSERT INTO reactions (user_id, reaction_type) VALUES (?, ?)");
    assert_eq!(add.binds, vec!["u1".to_string(), "like".to_string()]);
    let remove = remove_target_statement("u1");
    assert_eq!(remove.sql, "DELETE FROM reactions WHERE user_id = ? AND reaction_type = 'like'");
    assert_eq!(remove.binds, vec!["u1".to_string()]);
    let check = check_target_statement("u1");
    assert_eq!(
        check.sql,
        "SELECT COUNT(*) FROM reactions WHERE user_id = ? AND reaction_type = 'like'"
    );
    assert_eq!(check.binds, vec!["u1".to_string()]);
}

#[test]
fn reaction_decisions() {
    assert!(is_target(1));
    assert!(is_target(3));
    assert!(!is_target(0));
    assert!(!is_target(-1));
    assert_eq!(target_reactions(), vec!["201".to_string()]);
    assert_eq!(set_reply(), vec![text("Set reaction to your message")]);
    assert_eq!(cancel_reply(), vec![text("Cancel reaction to your message")]);
}

#[test]
fn reaction_commands_are_exclusive() {
    let set = commands("/set action now");
    assert!(set.set_action && !set.cancel_action);
    let cancel = commands("/cancel action");
    assert!(!cancel.set_action && cancel.cancel_action);
    let none = commands("hello /set action");
    assert!(!none.set_action && !none.cancel_action);
}

#[test]
fn reaction_plan_for_messages() {
    let m = message("1", vec![text("/set "), Segment::Other { position: 1 }, text("action")]);
    let plan = plan_for_message(&m, "u2");
    assert_eq!(plan.add, Some(add_target_statement("u2")));
    assert_eq!(plan.remove, None);
    assert_eq!(plan.check, check_target_statement("u2"));

    let m = message("2", vec![text("/cancel action")]);
    let plan = plan_for_message(&m, "u3");
    assert_eq!(plan.add, None);
    assert_eq!(plan.remove, Some(remove_target_statement("u3")));

    let m = message("3", vec![text("hi")]);
    let plan = plan_for_message(&m, "u4");
    assert_eq!(plan.add, None);
    assert_eq!(plan.remove, None);
    assert_eq!(plan.check, check_target_statement("u4"));
}

#[test]
fn reaction_plan_only_for_message_events() {
    let m = message("1", vec![text("/set action")]);
    assert_eq!(plan_for_event(EventKind::Message, Some(&m), Some("u5")), Some(plan_for_message(&m, "u5")));
    assert_eq!(plan_for_event(EventKind::Notice, Some(&m), Some("u5")), None);
    assert_eq!(plan_for_event(EventKind::Message, None, Some("u5")), None);
    assert_eq!(plan_for_event(EventKind::Message, Some(&m), None), None);
}
