use vstd::prelude::*;

verus! {

/// Who spoke a turn of the conversation.
#[derive(Clone, Copy, Debug, PartialEq, Eq, Structural)]
pub enum Role {
    User,
    Assistant,
    System,
}

/// One role-tagged turn.
#[derive(Clone, Debug)]
pub struct Message {
    pub role: Role,
    pub text: String,
}

impl View for Message {
    type V = (Role, Seq<char>);

    open spec fn view(&self) -> (Role, Seq<char>) {
        (self.role, self.text@)
    }
}

impl Message {
    pub fn new(role: Role, text: String) -> (r: Message)
        ensures
            r@ == (role, text@),
    {
        Message { role, text }
    }
}

/// The views of a sequence of messages, in the same order.
pub open spec fn views(ms: Seq<Message>) -> Seq<(Role, Seq<char>)> {
    ms.map_values(|m: Message| m@)
}

/// The ordered, append-only record of the conversation, replayed to the
/// language model as context on every turn.
#[derive(Clone, Debug)]
pub struct ConversationHistory {
    messages: Vec<Message>,
}

impl View for ConversationHistory {
    type V = Seq<(Role, Seq<char>)>;

    closed spec fn view(&self) -> Seq<(Role, Seq<char>)> {
        views(self.messages@)
    }
}

impl ConversationHistory {
    pub fn new() -> (r: ConversationHistory)
        ensures
            r@ == Seq::<(Role, Seq<char>)>::empty(),
    {
        let r = ConversationHistory { messages: Vec::new() };
        proof {
            assert(r@ =~= Seq::<(Role, Seq<char>)>::empty());
        }
        r
    }

    pub fn len(&self) -> (r: usize)
        ensures
            r == self@.len(),
    {
        self.messages.len()
    }

    pub fn is_empty(&self) -> (r: bool)
        ensures
            r == (self@.len() == 0),
    {
        self.messages.len() == 0
    }

    /// The turn at position `i`, oldest first.
    pub fn get(&self, i: usize) -> (r: &Message)
        requires
            i < self@.len(),
        ensures
            r@ == self@[i as int],
    {
        &self.messages[i]
    }

    /// Appends one turn at the end.
    pub fn push(&mut self, m: Message)
        ensures
            final(self)@ == old(self)@.push(m@),
    {
        let ghost before = self.messages@;
        self.messages.push(m);
        proof {
            assert(self.messages@ == before.push(m));
            assert(self@ =~= old(self)@.push(m@));
        }
    }

    /// The messages handed to the language model for a new user turn: every
    /// turn so far, oldest first, followed by the new one.
    pub fn with_user_turn(&self, prompt: &String) -> (r: Vec<Message>)
        ensures
            views(r@) == self@.push((Role::User, prompt@)),
    {
        let mut out: Vec<Message> = Vec::new();
        let mut i: usize = 0;
        while i < self.messages.len()
            invariant
                i <= self.messages@.len(),
                out@.len() == i,
                forall|j: int| 0 <= j < i ==> #[trigger] out@[j]@ == self.messages@[j]@,
            decreases self.messages@.len() - i,
        {
            let m = Message { role: self.messages[i].role, text: self.messages[i].text.clone() };
            out.push(m);
            i = i + 1;
        }
        out.push(Message { role: Role::User, text: prompt.clone() });
        proof {
            assert(views(out@) =~= self@.push((Role::User, prompt@)));
        }
        out
    }
}

} // verus!
