use ollama_bot::{
    EventContent, InferenceError, MessageRouter, Role, RoomEvent, RoomState, RouterAction,
};

const PARTY: &str = "🎉🎊🥳 let's PARTY!! 🥳🎊🎉";

fn text_event(sender: &str, state: RoomState, body: &str) -> RoomEvent {
    RoomEvent {
        sender_id: sender.to_string(),
        room_state: state,
        content: EventContent::Text(body.to_string()),
    }
}

fn router_with_one_exchange() -> MessageRouter {
    let mut r = MessageRouter::new("@bot:example.org".to_string());
    let reply = r.on_inference_result("hi".to_string(), Ok("hello".to_string()));
    assert_eq!(reply, Some("hello".to_string()));
    r
}

#[test]
fn party_event_gets_canned_reply() {
    let r = MessageRouter::new("@bot:example.org".to_string());
    match r.on_room_event(&text_event("u2", RoomState::Joined, "!party")) {
        RouterAction::Send(t) => assert_eq!(t, PARTY),
        other => panic!("unexpected action {:?}", other),
    }
    assert_eq!(r.conversation().len(), 0);
}

#[test]
fn trigger_inside_longer_text_gets_canned_reply() {
    let r = router_with_one_exchange();
    match r.on_room_event(&text_event("u2", RoomState::Joined, "time to !party now")) {
        RouterAction::Send(t) => assert_eq!(t, PARTY),
        other => panic!("unexpected action {:?}", other),
    }
    assert_eq!(r.conversation().len(), 2);
}

#[test]
fn partial_trigger_goes_to_the_model() {
    let r = MessageRouter::new("@bot:example.org".to_string());
    match r.on_room_event(&text_event("u2", RoomState::Joined, "party!")) {
        RouterAction::Infer { prompt, request } => {
            assert_eq!(prompt, "party!");
            assert_eq!(request.len(), 1);
        }
        other => panic!("unexpected action {:?}", other),
    }
}

#[test]
fn events_outside_joined_rooms_are_ignored() {
    let r = router_with_one_exchange();
    for state in [RoomState::Left, RoomState::Invited, RoomState::Unknown] {
        for body in ["!party", "hello"] {
            assert!(matches!(
                r.on_room_event(&text_event("u2", state, body)),
                RouterAction::Ignore
            ));
        }
    }
    assert_eq!(r.conversation().len(), 2);
}

#[test]
fn non_text_events_are_ignored() {
    let r = MessageRouter::new("@bot:example.org".to_string());
    let ev = RoomEvent {
        sender_id: "u2".to_string(),
        room_state: RoomState::Joined,
        content: EventContent::Other,
    };
    assert!(matches!(r.on_room_event(&ev), RouterAction::Ignore));
}

#[test]
fn own_messages_are_ignored() {
    let r = MessageRouter::new("@bot:example.org".to_string());
    for body in ["!party", "hello"] {
        let ev = text_event("@bot:example.org", RoomState::Joined, body);
        assert!(matches!(r.on_room_event(&ev), RouterAction::Ignore));
    }
}

#[test]
fn model_request_replays_history_then_new_turn() {
    let r = router_with_one_exchange();
    match r.on_room_event(&text_event("u2", RoomState::Joined, "how are you?")) {
        RouterAction::Infer { prompt, request } => {
            assert_eq!(prompt, "how are you?");
            assert_eq!(request.len(), 3);
            assert_eq!(request[0].role, Role::User);
            assert_eq!(request[0].text, "hi");
            assert_eq!(request[1].role, Role::Assistant);
            assert_eq!(request[1].text, "hello");
            assert_eq!(request[2].role, Role::User);
            assert_eq!(request[2].text, "how are you?");
        }
        other => panic!("unexpected action {:?}", other),
    }
    assert_eq!(r.conversation().len(), 2);
}

#[test]
fn answered_exchange_adds_user_then_assistant_turn() {
    let mut r = router_with_one_exchange();
    let reply = r.on_inference_result("second".to_string(), Ok("answer".to_string()));
    assert_eq!(reply, Some("answer".to_string()));
    let h = r.conversation();
    assert_eq!(h.len(), 4);
    assert_eq!(h.get(2).role, Role::User);
    assert_eq!(h.get(2).text, "second");
    assert_eq!(h.get(3).role, Role::Assistant);
    assert_eq!(h.get(3).text, "answer");
}

#[test]
fn failed_exchange_leaves_history_alone() {
    let mut r = router_with_one_exchange();
    let err = InferenceError { message: "connection refused".to_string() };
    assert_eq!(r.on_inference_result("second".to_string(), Err(err)), None);
    let h = r.conversation();
    assert_eq!(h.len(), 2);
    assert_eq!(h.get(0).text, "hi");
    assert_eq!(h.get(1).text, "hello");
}

#[test]
fn new_router_keeps_identity_and_starts_empty() {
    let r = MessageRouter::new("@bot:example.org".to_string());
    assert_eq!(r.self_id_str(), "@bot:example.org");
    assert!(r.conversation().is_empty());
}
