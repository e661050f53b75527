use vstd::prelude::*;
use vstd::string::StringExecFns;
use crate::history::{ConversationHistory, Message, Role, views};

verus! {

/// The bot's membership in the room an event comes from.
#[derive(Clone, Copy, Debug, PartialEq, Eq, Structural)]
pub enum RoomState {
    Joined,
    Left,
    Invited,
    Unknown,
}

/// What a room event carries.
#[derive(Clone, Debug)]
pub enum EventContent {
    Text(String),
    Other,
}

/// A message event of a room, as the protocol client hands it over.
#[derive(Clone, Debug)]
pub struct RoomEvent {
    pub sender_id: String,
    pub room_state: RoomState,
    pub content: EventContent,
}

/// The model could not be reached or answered with an error.
#[derive(Clone, Debug)]
pub struct InferenceError {
    pub message: String,
}

/// What the router asks for in answer to a room event.
#[derive(Clone, Debug)]
pub enum RouterAction {
    /// The event calls for no reply.
    Ignore,
    /// Send this text to the room.
    Send(String),
    /// Ask the model to answer `prompt`, handing it `request`: the history so
    /// far followed by the new user turn.
    Infer { prompt: String, request: Vec<Message> },
}

/// `pat` occurs in `s` as a contiguous run.
pub open spec fn has_substring(s: Seq<char>, pat: Seq<char>) -> bool {
    exists|i: int| 0 <= i && i + pat.len() <= s.len() && #[trigger] s.subrange(i, i + pat.len()) == pat
}

/// Relies on `str::contains` with a `&str` pattern: true exactly when `pat`
/// occurs in `s` as a contiguous run of characters.
#[verifier::external_body]
fn str_contains(s: &str, pat: &str) -> (r: bool)
    ensures
        r == has_substring(s@, pat@),
{
    s.contains(pat)
}

/// The word in a message that calls for the canned reply.
pub open spec fn party_trigger() -> Seq<char> {
    "!party"@
}

/// The canned celebratory reply.
pub open spec fn party_reply() -> Seq<char> {
    "🎉🎊🥳 let's PARTY!! 🥳🎊🎉"@
}

/// The event is a text message, from someone else, in a room the bot is in.
pub open spec fn is_addressed(ev: RoomEvent, self_id: Seq<char>) -> bool {
    &&& ev.room_state == RoomState::Joined
    &&& ev.content is Text
    &&& ev.sender_id@ != self_id
}

/// The body of a text event.
pub open spec fn body_of(ev: RoomEvent) -> Seq<char> {
    match ev.content {
        EventContent::Text(t) => t@,
        EventContent::Other => Seq::empty(),
    }
}

/// The history after one exchange with the model: the user turn and the
/// model's answer when the model answered, nothing when it failed.
pub open spec fn after_exchange(
    h: Seq<(Role, Seq<char>)>,
    prompt: Seq<char>,
    answer: Option<Seq<char>>,
) -> Seq<(Role, Seq<char>)> {
    match answer {
        Some(a) => h.push((Role::User, prompt)).push((Role::Assistant, a)),
        None => h,
    }
}

/// An exchange in which the model answered adds exactly two turns at the
/// end, the user's and then the model's; one in which it failed adds none.
pub proof fn lemma_exchange_growth(
    h: Seq<(Role, Seq<char>)>,
    prompt: Seq<char>,
    answer: Option<Seq<char>>,
)
    ensures
        answer is Some ==> {
            let g = after_exchange(h, prompt, answer);
            &&& g.len() == h.len() + 2
            &&& g.subrange(0, h.len() as int) == h
            &&& g[h.len() as int] == (Role::User, prompt)
            &&& g[h.len() as int + 1] == (Role::Assistant, answer->Some_0)
        },
        answer is None ==> after_exchange(h, prompt, answer) == h,
{
    if answer is Some {
        let g = after_exchange(h, prompt, answer);
        assert(g.subrange(0, h.len() as int) =~= h);
    }
}

/// The answer carried by a model outcome, if any.
pub open spec fn answer_of(outcome: Result<String, InferenceError>) -> Option<Seq<char>> {
    match outcome {
        Ok(a) => Some(a@),
        Err(_) => None,
    }
}

/// Decides the replies to room events and keeps the conversation history.
pub struct MessageRouter {
    self_id: String,
    history: ConversationHistory,
}

impl MessageRouter {
    pub closed spec fn self_id(&self) -> Seq<char> {
        self.self_id@
    }

    pub closed spec fn history(&self) -> Seq<(Role, Seq<char>)> {
        self.history@
    }

    /// A router for the bot `self_id`, with an empty history.
    pub fn new(self_id: String) -> (r: MessageRouter)
        ensures
            r.self_id() == self_id@,
            r.history() == Seq::<(Role, Seq<char>)>::empty(),
    {
        MessageRouter { self_id, history: ConversationHistory::new() }
    }

    pub fn self_id_str(&self) -> (r: &String)
        ensures
            r@ == self.self_id(),
    {
        &self.self_id
    }

    pub fn conversation(&self) -> (r: &ConversationHistory)
        ensures
            r@ == self.history(),
    {
        &self.history
    }

    /// Routes one room event. Events from rooms the bot is not in, events that
    /// are not text and the bot's own messages are ignored; a text holding the
    /// trigger gets the canned reply; any other text goes to the model. The
    /// history is left as it is (the receiver is shared).
    pub fn on_room_event(&self, ev: &RoomEvent) -> (r: RouterAction)
        ensures
            r is Ignore <==> !is_addressed(*ev, self.self_id()),
            r is Send <==> is_addressed(*ev, self.self_id()) && has_substring(
                body_of(*ev),
                party_trigger(),
            ),
            r is Send ==> r->Send_0@ == party_reply(),
            r is Infer <==> is_addressed(*ev, self.self_id()) && !has_substring(
                body_of(*ev),
                party_trigger(),
            ),
            r is Infer ==> r->prompt@ == body_of(*ev) && views(r->request@) == self.history().push(
                (Role::User, body_of(*ev)),
            ),
    {
        if ev.room_state != RoomState::Joined {
            return RouterAction::Ignore;
        }
        let body = match &ev.content {
            EventContent::Text(t) => t,
            EventContent::Other => {
                return RouterAction::Ignore;
            },
        };
        if ev.sender_id.eq(&self.self_id) {
            return RouterAction::Ignore;
        }
        if str_contains(body.as_str(), "!party") {
            RouterAction::Send(String::from_str("🎉🎊🥳 let's PARTY!! 🥳🎊🎉"))
        } else {
            let request = self.history.with_user_turn(body);
            RouterAction::Infer { prompt: body.clone(), request }
        }
    }

    /// Takes the model's outcome for `prompt`. On an answer, records the user
    /// turn and the answer and returns the answer to send; on a failure, leaves
    /// the history as it was and returns nothing.
    pub fn on_inference_result(
        &mut self,
        prompt: String,
        outcome: Result<String, InferenceError>,
    ) -> (r: Option<String>)
        ensures
            final(self).self_id() == old(self).self_id(),
            final(self).history() == after_exchange(old(self).history(), prompt@, answer_of(outcome)),
            r is Some <==> outcome is Ok,
            r is Some ==> r->Some_0@ == outcome->Ok_0@,
    {
        match outcome {
            Ok(answer) => {
                self.history.push(Message::new(Role::User, prompt));
                self.history.push(Message::new(Role::Assistant, answer.clone()));
                Some(answer)
            },
            Err(_) => None,
        }
    }
}

} // verus!
