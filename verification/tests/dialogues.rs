use oxidebot_example::dialogue::Action;
use oxidebot_example::interaction::{greeting, HelloDialogue, HelloInteraction, HelloStage};
use oxidebot_example::message::{Message, Segment};
use oxidebot_example::wait::{WaitDialogue, WaitStage};

fn text(s: &str) -> Segment {
    Segment::Text { content: s.to_string() }
}

fn send(s: &str) -> Action {
    Action::Send(vec![text(s)])
}

fn message(s: &str) -> Message {
    Message { id: "m".to_string(), segments: vec![text(s)] }
}

#[test]
fn hello_starts_on_hello() {
    let h = HelloInteraction::new();
    assert!(h.should_start(Some(&message("/hello there"))));
    assert!(!h.should_start(Some(&message("hi /hello"))));
    assert!(!h.should_start(None));
    let split = Message {
        id: "s".to_string(),
        segments: vec![text("/hel"), Segment::Other { position: 1 }, text("lo")],
    };
    assert!(h.should_start(Some(&split)));
}

#[test]
fn greeting_text_format() {
    assert_eq!(greeting(1, "Alice", 30), "(1)Hello, Alice, you are 30 years old");
    assert_eq!(greeting(12, "", 0), "(12)Hello, , you are 0 years old");
}

#[test]
fn hello_dialogue_full_run() {
    let mut shared = HelloInteraction::new();
    let (mut d, actions) = HelloDialogue::start();
    assert_eq!(actions, vec![send("What's your name?"), Action::WaitText]);
    assert_eq!(d.stage, HelloStage::AwaitingName);

    let actions = d.on_text(&mut shared, "Alice");
    assert_eq!(actions, vec![send("How old are you?"), Action::WaitText]);
    assert_eq!(d.stage, HelloStage::AwaitingAge { name: "Alice".to_string() });

    let actions = d.on_text(&mut shared, "old");
    assert_eq!(actions, vec![send("Input error, please enter a number (0-255)"), Action::WaitText]);
    let actions = d.on_text(&mut shared, "300");
    assert_eq!(actions, vec![send("Input error, please enter a number (0-255)"), Action::WaitText]);
    assert_eq!(shared.times_greeted("Alice"), 0);

    let actions = d.on_text(&mut shared, "30");
    assert_eq!(actions, vec![send("(1)Hello, Alice, you are 30 years old")]);
    assert_eq!(d.stage, HelloStage::Finished);
    assert_eq!(shared.times_greeted("Alice"), 1);

    assert_eq!(d.on_text(&mut shared, "31"), vec![]);
    assert_eq!(shared.times_greeted("Alice"), 1);
}

#[test]
fn greetings_accumulate_per_name() {
    let mut shared = HelloInteraction::new();
    assert_eq!(shared.record_greeting("Bob"), Some(1));
    assert_eq!(shared.record_greeting("Bob"), Some(2));
    assert_eq!(shared.record_greeting("Carol"), Some(1));
    assert_eq!(shared.times_greeted("Bob"), 2);
    assert_eq!(shared.times_greeted("Carol"), 1);
    assert_eq!(shared.times_greeted("Dave"), 0);

    let (mut d, _) = HelloDialogue::start();
    d.on_text(&mut shared, "Bob");
    let actions = d.on_text(&mut shared, "+7");
    assert_eq!(actions, vec![send("(3)Hello, Bob, you are 7 years old")]);
}

#[test]
fn hello_dialogue_failure_ends_it() {
    let mut shared = HelloInteraction::new();
    let (mut d, _) = HelloDialogue::start();
    d.on_failure();
    assert_eq!(d.stage, HelloStage::Finished);
    assert_eq!(d.on_text(&mut shared, "Alice"), vec![]);
}

#[test]
fn wait_dialogue_full_run() {
    let mut d = WaitDialogue::new();
    assert_eq!(d.stage, WaitStage::Idle);
    let actions = d.on_message(Some(&message("/wait")));
    assert_eq!(
        actions,
        vec![
            send("Please send a unsigned int8"),
            Action::WaitNumber {
                timeout_secs: 30,
                invalid_threshold: 3,
                error_message: "Please send a unsigned int8".to_string(),
            },
        ]
    );
    assert_eq!(d.on_bool(true, "m2"), vec![]);
    let actions = d.on_number(42, "m2");
    assert_eq!(
        actions,
        vec![
            Action::Reply {
                message_id: "m2".to_string(),
                segments: vec![text("You sent a number: 42")],
            },
            send("Please send a bool"),
            Action::WaitBool {
                timeout_secs: 30,
                invalid_threshold: 1,
                error_message: "Please send a bool".to_string(),
            },
        ]
    );
    assert_eq!(d.stage, WaitStage::AwaitingBool);
    assert_eq!(
        d.on_bool(false, "m3"),
        vec![Action::Reply { message_id: "m3".to_string(), segments: vec![text("You rejected")] }]
    );
    assert_eq!(d.stage, WaitStage::Finished);
    assert_eq!(d.on_number(1, "m4"), vec![]);
}

#[test]
fn wait_dialogue_confirm_and_ignore() {
    let mut d = WaitDialogue::new();
    d.on_message(Some(&message("/wait now")));
    d.on_number(0, "a");
    assert_eq!(
        d.on_bool(true, "c"),
        vec![Action::Reply { message_id: "c".to_string(), segments: vec![text("You confirmed")] }]
    );

    let mut other = WaitDialogue::new();
    assert_eq!(other.on_message(Some(&message("hello"))), vec![]);
    assert_eq!(other.stage, WaitStage::Finished);
    let mut none = WaitDialogue::new();
    assert_eq!(none.on_message(None), vec![]);
    assert_eq!(none.stage, WaitStage::Finished);

    let mut failed = WaitDialogue::new();
    failed.on_message(Some(&message("/wait")));
    failed.on_failure();
    assert_eq!(failed.stage, WaitStage::Finished);
    assert_eq!(failed.on_number(3, "x"), vec![]);
}
