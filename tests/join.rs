use ollama_bot::{
    InviteEvent, JoinAction, JoinAttemptState, JoinEvent, JoinPhase, INITIAL_DELAY_SECS,
    MAX_DELAY_SECS,
};

fn invite(target: &str, room: &str) -> InviteEvent {
    InviteEvent { target_user_id: target.to_string(), room_id: room.to_string() }
}

#[test]
fn invite_for_someone_else_starts_nothing() {
    assert!(JoinAttemptState::on_invite(&invite("@alice:example.org", "R1"), &"@bot:example.org".to_string()).is_none());
}

#[test]
fn invite_for_self_starts_with_an_attempt() {
    let m = JoinAttemptState::on_invite(&invite("@bot:example.org", "R1"), &"@bot:example.org".to_string())
        .expect("machine");
    assert_eq!(m.room_id, "R1");
    assert_eq!(m.status.phase, JoinPhase::Joining);
    assert_eq!(m.status.delay_seconds, INITIAL_DELAY_SECS);
    assert_eq!(m.status.attempt_count, 0);
    assert_eq!(m.first_action(), JoinAction::Attempt);
}

#[test]
fn join_succeeds_on_third_attempt() {
    let mut m = JoinAttemptState::new("R1".to_string());
    let mut waits = vec![];
    let mut attempts = 1;
    for _ in 0..2 {
        match m.step(JoinEvent::JoinFailed) {
            JoinAction::Wait(d) => waits.push(d),
            other => panic!("unexpected {:?}", other),
        }
        assert_eq!(m.step(JoinEvent::WaitElapsed), JoinAction::Attempt);
        attempts += 1;
    }
    assert_eq!(m.step(JoinEvent::JoinSucceeded), JoinAction::Finished);
    assert_eq!(attempts, 3);
    assert_eq!(waits, vec![2, 4]);
    assert_eq!(m.status.phase, JoinPhase::Joined);
    assert!(m.is_finished());
}

#[test]
fn joined_machine_schedules_nothing_more() {
    let mut m = JoinAttemptState::new("R1".to_string());
    assert_eq!(m.step(JoinEvent::JoinSucceeded), JoinAction::Finished);
    let before = m.status;
    for e in [JoinEvent::JoinFailed, JoinEvent::WaitElapsed, JoinEvent::JoinSucceeded] {
        assert_eq!(m.step(e), JoinAction::Idle);
    }
    assert_eq!(m.status, before);
}

#[test]
fn join_failing_forever_is_abandoned() {
    let mut m = JoinAttemptState::new("R1".to_string());
    let mut waits = vec![];
    let mut attempts = 1;
    loop {
        match m.step(JoinEvent::JoinFailed) {
            JoinAction::Wait(d) => waits.push(d),
            other => panic!("unexpected {:?}", other),
        }
        match m.step(JoinEvent::WaitElapsed) {
            JoinAction::Attempt => attempts += 1,
            JoinAction::GiveUp => break,
            other => panic!("unexpected {:?}", other),
        }
    }
    assert_eq!(waits, vec![2, 4, 8, 16, 32, 64, 128, 256, 512, 1024, 2048]);
    assert!(waits.iter().all(|d| *d <= MAX_DELAY_SECS));
    assert_eq!(attempts, 11);
    assert_eq!(m.status.phase, JoinPhase::Abandoned);
    assert!(m.is_finished());
    for e in [JoinEvent::JoinFailed, JoinEvent::WaitElapsed, JoinEvent::JoinSucceeded] {
        assert_eq!(m.step(e), JoinAction::Idle);
    }
    assert_eq!(m.status.phase, JoinPhase::Abandoned);
}

#[test]
fn events_out_of_turn_are_idle() {
    let mut m = JoinAttemptState::new("R1".to_string());
    assert_eq!(m.step(JoinEvent::WaitElapsed), JoinAction::Idle);
    assert_eq!(m.step(JoinEvent::JoinFailed), JoinAction::Wait(2));
    assert_eq!(m.step(JoinEvent::JoinSucceeded), JoinAction::Idle);
    assert_eq!(m.step(JoinEvent::JoinFailed), JoinAction::Idle);
    assert_eq!(m.status.phase, JoinPhase::Waiting);
}
