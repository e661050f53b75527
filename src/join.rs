use vstd::prelude::*;

verus! {

/// The wait before the second join attempt, in seconds.
pub const INITIAL_DELAY_SECS: u64 = 2;

/// The longest wait the machine will schedule, in seconds.
pub const MAX_DELAY_SECS: u64 = 3600;

/// `2` raised to `k`.
pub open spec fn pow2(k: nat) -> nat
    decreases k,
{
    if k == 0 {
        1
    } else {
        2 * pow2((k - 1) as nat)
    }
}

pub proof fn lemma_pow2_facts(k: nat)
    ensures
        pow2(k + 1) == 2 * pow2(k),
        k <= 11 ==> pow2(k) <= 2048,
        k >= 12 ==> pow2(k) >= 4096,
        pow2(k) >= 1,
    decreases k,
{
    reveal_with_fuel(pow2, 13);
    if k > 0 {
        lemma_pow2_facts((k - 1) as nat);
    }
}

/// Where the machine of one invite stands.
#[derive(Clone, Copy, Debug, PartialEq, Eq, Structural)]
pub enum JoinPhase {
    /// A join attempt is under way.
    Joining,
    /// The last attempt failed; a wait before the next one is under way.
    Waiting,
    /// The room was joined (terminal).
    Joined,
    /// The machine gave up on the room (terminal).
    Abandoned,
}

/// What the runner reports back to the machine.
#[derive(Clone, Copy, Debug, PartialEq, Eq, Structural)]
pub enum JoinEvent {
    JoinSucceeded,
    JoinFailed,
    WaitElapsed,
}

/// What the machine asks the runner to do next.
#[derive(Clone, Copy, Debug, PartialEq, Eq, Structural)]
pub enum JoinAction {
    /// Make a join attempt and report how it went.
    Attempt,
    /// Wait this many seconds, then report `WaitElapsed`.
    Wait(u64),
    /// The room was joined; nothing more will be scheduled.
    Finished,
    /// The machine gave up; nothing more will be scheduled.
    GiveUp,
    /// The event did not apply to the current phase; nothing to do.
    Idle,
}

/// The retry bookkeeping of one invite.
#[derive(Clone, Copy, Debug, PartialEq, Eq, Structural)]
pub struct JoinStatus {
    pub phase: JoinPhase,
    /// While joining, the wait that follows a failure; while waiting, the
    /// wait under way.
    pub delay_seconds: u64,
    /// Failed attempts so far.
    pub attempt_count: u64,
}

/// The status in which every invite to this bot starts: first attempt under way.
pub open spec fn initial_status() -> JoinStatus {
    JoinStatus { phase: JoinPhase::Joining, delay_seconds: 2, attempt_count: 0 }
}

/// Every status the machine can reach from `initial_status`.
pub open spec fn status_wf(s: JoinStatus) -> bool {
    &&& s.attempt_count <= 11
    &&& s.delay_seconds == pow2(
        if s.phase == JoinPhase::Waiting {
            s.attempt_count as nat
        } else {
            (s.attempt_count + 1) as nat
        },
    )
    &&& (s.phase == JoinPhase::Abandoned <==> s.delay_seconds > MAX_DELAY_SECS)
    &&& (s.phase == JoinPhase::Waiting ==> s.attempt_count >= 1)
}

/// One transition: the next status and the action asked for.
pub open spec fn next(s: JoinStatus, e: JoinEvent) -> (JoinStatus, JoinAction) {
    match (s.phase, e) {
        (JoinPhase::Joining, JoinEvent::JoinSucceeded) => (
            JoinStatus { phase: JoinPhase::Joined, ..s },
            JoinAction::Finished,
        ),
        (JoinPhase::Joining, JoinEvent::JoinFailed) => (
            JoinStatus { phase: JoinPhase::Waiting, attempt_count: (s.attempt_count + 1) as u64, ..s },
            JoinAction::Wait(s.delay_seconds),
        ),
        (JoinPhase::Waiting, JoinEvent::WaitElapsed) => {
            let d = (2 * s.delay_seconds) as u64;
            if d > MAX_DELAY_SECS {
                (
                    JoinStatus { phase: JoinPhase::Abandoned, delay_seconds: d, ..s },
                    JoinAction::GiveUp,
                )
            } else {
                (JoinStatus { phase: JoinPhase::Joining, delay_seconds: d, ..s }, JoinAction::Attempt)
            }
        },
        _ => (s, JoinAction::Idle),
    }
}

/// The status after a run of events.
pub open spec fn run(s: JoinStatus, es: Seq<JoinEvent>) -> JoinStatus
    decreases es.len(),
{
    if es.len() == 0 {
        s
    } else {
        run(next(s, es[0]).0, es.drop_first())
    }
}

/// The actions asked for along a run of events, one per event.
pub open spec fn actions(s: JoinStatus, es: Seq<JoinEvent>) -> Seq<JoinAction>
    decreases es.len(),
{
    if es.len() == 0 {
        Seq::empty()
    } else {
        seq![next(s, es[0]).1] + actions(next(s, es[0]).0, es.drop_first())
    }
}

pub proof fn lemma_next_wf(s: JoinStatus, e: JoinEvent)
    requires
        status_wf(s),
    ensures
        status_wf(next(s, e).0),
{
    lemma_pow2_facts(s.attempt_count as nat);
    lemma_pow2_facts((s.attempt_count + 1) as nat);
}

proof fn lemma_run_append(s: JoinStatus, a: Seq<JoinEvent>, b: Seq<JoinEvent>)
    ensures
        run(s, a + b) == run(run(s, a), b),
        actions(s, a + b) == actions(s, a) + actions(run(s, a), b),
    decreases a.len(),
{
    if a.len() == 0 {
        assert(a + b =~= b);
        assert(actions(s, a) + actions(s, b) =~= actions(s, b));
    } else {
        let t = next(s, a[0]).0;
        assert((a + b)[0] == a[0]);
        assert((a + b).drop_first() =~= a.drop_first() + b);
        lemma_run_append(t, a.drop_first(), b);
        assert(actions(s, a + b) =~= actions(s, a) + actions(run(s, a), b));
    }
}

proof fn lemma_quiet_when_terminal(s: JoinStatus, es: Seq<JoinEvent>)
    requires
        s.phase == JoinPhase::Joined || s.phase == JoinPhase::Abandoned,
    ensures
        run(s, es) == s,
        actions(s, es).len() == es.len(),
        forall|i: int| 0 <= i < es.len() ==> #[trigger] actions(s, es)[i] == JoinAction::Idle,
    decreases es.len(),
{
    if es.len() > 0 {
        lemma_quiet_when_terminal(s, es.drop_first());
        assert forall|i: int| 0 <= i < es.len() implies #[trigger] actions(s, es)[i]
            == JoinAction::Idle by {
            if i > 0 {
                assert(actions(s, es)[i] == actions(s, es.drop_first())[i - 1]);
            }
        }
    }
}

/// A successful join ends the machine: it reports `Finished`, and no later
/// event schedules a wait or another attempt, or changes the status again.
pub proof fn lemma_success_is_final(s: JoinStatus, later: Seq<JoinEvent>)
    requires
        s.phase == JoinPhase::Joining,
    ensures
        next(s, JoinEvent::JoinSucceeded).1 == JoinAction::Finished,
        next(s, JoinEvent::JoinSucceeded).0.phase == JoinPhase::Joined,
        run(next(s, JoinEvent::JoinSucceeded).0, later) == next(s, JoinEvent::JoinSucceeded).0,
        forall|i: int|
            0 <= i < later.len() ==> #[trigger] actions(next(s, JoinEvent::JoinSucceeded).0, later)[i]
                == JoinAction::Idle,
{
    lemma_quiet_when_terminal(next(s, JoinEvent::JoinSucceeded).0, later);
}

/// An abandoned machine stays abandoned: no later event makes it attempt a
/// join or schedule a wait.
pub proof fn lemma_abandoned_is_final(s: JoinStatus, later: Seq<JoinEvent>)
    requires
        s.phase == JoinPhase::Abandoned,
    ensures
        run(s, later) == s,
        forall|i: int| 0 <= i < later.len() ==> #[trigger] actions(s, later)[i] == JoinAction::Idle,
{
    lemma_quiet_when_terminal(s, later);
}

/// `n` failed attempts, each followed by the end of the wait it caused.
pub open spec fn failure_cycles(n: nat) -> Seq<JoinEvent>
    decreases n,
{
    if n == 0 {
        Seq::empty()
    } else {
        failure_cycles((n - 1) as nat) + seq![JoinEvent::JoinFailed, JoinEvent::WaitElapsed]
    }
}

/// The actions asked for along `failure_cycles(n)`: waits of `2, 4, 8, ...`
/// seconds, each followed by a new attempt while the doubled delay stays
/// within the ceiling, and by giving up the first time it would not.
pub open spec fn backoff_actions(n: nat) -> Seq<JoinAction>
    decreases n,
{
    if n == 0 {
        Seq::empty()
    } else {
        backoff_actions((n - 1) as nat) + seq![
            JoinAction::Wait(pow2(n) as u64),
            if pow2(n + 1) <= MAX_DELAY_SECS {
                JoinAction::Attempt
            } else {
                JoinAction::GiveUp
            },
        ]
    }
}

/// On consecutive failures from the start, the waits double from two seconds
/// on, and the machine gives up exactly when the next wait would pass the
/// ceiling: after the eleventh failure, whose wait is 2048 seconds.
pub proof fn lemma_backoff_schedule(n: nat)
    requires
        n <= 11,
    ensures
        actions(initial_status(), failure_cycles(n)) == backoff_actions(n),
        n < 11 ==> run(initial_status(), failure_cycles(n)) == (JoinStatus {
            phase: JoinPhase::Joining,
            delay_seconds: pow2(n + 1) as u64,
            attempt_count: n as u64,
        }),
        n == 11 ==> run(initial_status(), failure_cycles(n)).phase == JoinPhase::Abandoned,
        n == 11 ==> backoff_actions(n).last() == JoinAction::GiveUp,
        n < 11 ==> pow2(n + 1) <= MAX_DELAY_SECS,
    decreases n,
{
    reveal_with_fuel(pow2, 2);
    lemma_pow2_facts(n);
    lemma_pow2_facts(n + 1);
    if n == 0 {
        assert(actions(initial_status(), Seq::empty()) =~= Seq::<JoinAction>::empty());
    } else {
        let m = (n - 1) as nat;
        lemma_backoff_schedule(m);
        lemma_pow2_facts(m);
        let s = run(initial_status(), failure_cycles(m));
        let pair = seq![JoinEvent::JoinFailed, JoinEvent::WaitElapsed];
        lemma_run_append(initial_status(), failure_cycles(m), pair);
        reveal_with_fuel(run, 3);
        reveal_with_fuel(actions, 3);
        assert(pair.drop_first().drop_first() =~= Seq::<JoinEvent>::empty());
        assert(pair.drop_first() =~= seq![JoinEvent::WaitElapsed]);
        assert(actions(s, pair) =~= seq![
            JoinAction::Wait(pow2(n) as u64),
            if pow2(n + 1) <= MAX_DELAY_SECS {
                JoinAction::Attempt
            } else {
                JoinAction::GiveUp
            },
        ]);
    }
}

/// An invite seen by the bot: whom it invites, and to which room.
#[derive(Clone, Debug)]
pub struct InviteEvent {
    pub target_user_id: String,
    pub room_id: String,
}

/// The join machine of one accepted invite.
#[derive(Clone, Debug)]
pub struct JoinAttemptState {
    pub room_id: String,
    pub status: JoinStatus,
}

impl JoinAttemptState {
    pub open spec fn wf(&self) -> bool {
        status_wf(self.status)
    }

    /// A machine for `room_id`, with its first join attempt due.
    pub fn new(room_id: String) -> (r: JoinAttemptState)
        ensures
            r.room_id == room_id,
            r.status == initial_status(),
            r.wf(),
    {
        proof {
            reveal_with_fuel(pow2, 2);
        }
        JoinAttemptState {
            room_id,
            status: JoinStatus {
                phase: JoinPhase::Joining,
                delay_seconds: INITIAL_DELAY_SECS,
                attempt_count: 0,
            },
        }
    }

    /// Starts a machine for an invite addressed to `self_id`; an invite for
    /// anyone else starts nothing, so no join attempt is ever made for it.
    pub fn on_invite(invite: &InviteEvent, self_id: &String) -> (r: Option<JoinAttemptState>)
        ensures
            r is Some <==> invite.target_user_id@ == self_id@,
            r is Some ==> r->Some_0.room_id@ == invite.room_id@ && r->Some_0.status
                == initial_status() && r->Some_0.wf(),
    {
        if invite.target_user_id.eq(self_id) {
            Some(JoinAttemptState::new(invite.room_id.clone()))
        } else {
            None
        }
    }

    /// The action the machine asks for when it starts.
    pub fn first_action(&self) -> (r: JoinAction)
        ensures
            self.status.phase == JoinPhase::Joining ==> r == JoinAction::Attempt,
            self.status.phase != JoinPhase::Joining ==> r == JoinAction::Idle,
    {
        match self.status.phase {
            JoinPhase::Joining => JoinAction::Attempt,
            _ => JoinAction::Idle,
        }
    }

    /// Feeds one event to the machine and returns what to do next.
    pub fn step(&mut self, e: JoinEvent) -> (r: JoinAction)
        requires
            old(self).wf(),
        ensures
            (final(self).status, r) == next(old(self).status, e),
            final(self).room_id == old(self).room_id,
            final(self).wf(),
    {
        proof {
            lemma_next_wf(self.status, e);
        }
        let s = self.status;
        match (s.phase, e) {
            (JoinPhase::Joining, JoinEvent::JoinSucceeded) => {
                self.status = JoinStatus { phase: JoinPhase::Joined, ..s };
                JoinAction::Finished
            },
            (JoinPhase::Joining, JoinEvent::JoinFailed) => {
                self.status = JoinStatus {
                    phase: JoinPhase::Waiting,
                    attempt_count: s.attempt_count + 1,
                    ..s
                };
                JoinAction::Wait(s.delay_seconds)
            },
            (JoinPhase::Waiting, JoinEvent::WaitElapsed) => {
                let d = 2 * s.delay_seconds;
                if d > MAX_DELAY_SECS {
                    self.status = JoinStatus { phase: JoinPhase::Abandoned, delay_seconds: d, ..s };
                    JoinAction::GiveUp
                } else {
                    self.status = JoinStatus { phase: JoinPhase::Joining, delay_seconds: d, ..s };
                    JoinAction::Attempt
                }
            },
            _ => JoinAction::Idle,
        }
    }

    pub fn is_finished(&self) -> (r: bool)
        ensures
            r == (self.status.phase == JoinPhase::Joined || self.status.phase
                == JoinPhase::Abandoned),
    {
        match self.status.phase {
            JoinPhase::Joined | JoinPhase::Abandoned => true,
            _ => false,
        }
    }
}

} // verus!
