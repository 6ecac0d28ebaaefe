//! Messages and conversations, and their mathematical views.

use crate::identifier::{fresh_identifier, is_identifier_text};
use crate::time::Timestamp;
use vstd::prelude::*;

verus! {

/// Who wrote a message.
#[derive(Clone, Copy, Debug, PartialEq, Eq, Structural)]
pub enum Role {
    User,
    Assistant,
}

impl Role {
    /// The name under which the role goes over the wire.
    pub open spec fn name(self) -> Seq<char> {
        match self {
            Role::User => "user"@,
            Role::Assistant => "assistant"@,
        }
    }

    pub fn as_str(&self) -> (s: &'static str)
        ensures
            s@ == self.name(),
    {
        match self {
            Role::User => "user",
            Role::Assistant => "assistant",
        }
    }

    /// The role that goes by `name`, if it is the name of a role.
    pub fn named(name: &str) -> (r: Option<Role>)
        ensures
            match r {
                Some(role) => role.name() == name@,
                None => name@ != Role::User.name() && name@ != Role::Assistant.name(),
            },
    {
        let given = name.to_owned();
        if given == "user".to_owned() {
            Some(Role::User)
        } else if given == "assistant".to_owned() {
            Some(Role::Assistant)
        } else {
            None
        }
    }
}

/// No two roles go by one name, so a role is found again by its name.
pub proof fn lemma_role_names_differ()
    ensures
        Role::User.name() != Role::Assistant.name(),
{
    reveal_strlit("user");
    reveal_strlit("assistant");
    assert(Role::User.name().len() != Role::Assistant.name().len());
}

/// One turn of a conversation.
#[derive(Clone, Debug, PartialEq, Eq)]
pub struct Message {
    pub role: Role,
    pub content: String,
    pub timestamp: Timestamp,
}

/// [`Message`] as a mathematical value.
pub struct MessageView {
    pub role: Role,
    pub content: Seq<char>,
    pub timestamp: Timestamp,
}

impl View for Message {
    type V = MessageView;

    open spec fn view(&self) -> MessageView {
        MessageView { role: self.role, content: self.content@, timestamp: self.timestamp }
    }
}

impl Message {
    /// A copy with the same view.
    pub fn duplicate(&self) -> (m: Message)
        ensures
            m@ == self@,
    {
        Message { role: self.role, content: self.content.clone(), timestamp: self.timestamp }
    }
}

/// An ordered, append-only sequence of turns with a title and two instants.
/// The identifier under which it is stored is not part of it.
#[derive(Clone, Debug, PartialEq, Eq)]
pub struct Conversation {
    pub title: String,
    pub created_at: Timestamp,
    pub updated_at: Timestamp,
    pub messages: Vec<Message>,
}

/// [`Conversation`] as a mathematical value.
pub struct ConversationView {
    pub title: Seq<char>,
    pub created_at: Timestamp,
    pub updated_at: Timestamp,
    pub messages: Seq<MessageView>,
}

/// What a listing shows of a conversation.
#[derive(Clone, Debug, PartialEq, Eq)]
pub struct ConversationMetadata {
    pub title: String,
    pub message_count: usize,
    pub created_at: Timestamp,
    pub updated_at: Timestamp,
}

/// [`ConversationMetadata`] as a mathematical value.
pub struct MetadataView {
    pub title: Seq<char>,
    pub message_count: nat,
    pub created_at: Timestamp,
    pub updated_at: Timestamp,
}

impl View for ConversationMetadata {
    type V = MetadataView;

    open spec fn view(&self) -> MetadataView {
        MetadataView {
            title: self.title@,
            message_count: self.message_count as nat,
            created_at: self.created_at,
            updated_at: self.updated_at,
        }
    }
}

impl ConversationView {
    /// The conversation as it is at its creation: no turns yet, both instants
    /// the moment of creation.
    pub open spec fn started(title: Seq<char>, at: Timestamp) -> ConversationView {
        ConversationView { title, created_at: at, updated_at: at, messages: Seq::empty() }
    }

    /// The conversation after one more turn: the turn comes last and carries
    /// `stamped`, the conversation's last change moves to `touched`.
    pub open spec fn appended(
        self,
        role: Role,
        content: Seq<char>,
        stamped: Timestamp,
        touched: Timestamp,
    ) -> ConversationView {
        ConversationView {
            updated_at: touched,
            messages: self.messages.push(MessageView { role, content, timestamp: stamped }),
            ..self
        }
    }

    /// The projection that a listing shows.
    pub open spec fn metadata(self) -> MetadataView {
        MetadataView {
            title: self.title,
            message_count: self.messages.len(),
            created_at: self.created_at,
            updated_at: self.updated_at,
        }
    }
}

impl View for Conversation {
    type V = ConversationView;

    open spec fn view(&self) -> ConversationView {
        ConversationView {
            title: self.title@,
            created_at: self.created_at,
            updated_at: self.updated_at,
            messages: self.messages@.map_values(|m: Message| m@),
        }
    }
}

impl Conversation {
    /// A conversation without turns, created at `at`.
    pub fn started(title: String, at: Timestamp) -> (c: Conversation)
        ensures
            c@ == ConversationView::started(title@, at),
    {
        let c = Conversation { title, created_at: at, updated_at: at, messages: Vec::new() };
        assert(c@.messages =~= Seq::empty());
        c
    }

    /// A conversation without turns under a new random identifier, created now.
    pub fn new(title: String) -> (r: (String, Conversation))
        ensures
            is_identifier_text(r.0@),
            r.1@ == ConversationView::started(title@, r.1@.created_at),
            r.1@.created_at.is_clock_reading(),
    {
        let now = Timestamp::now();
        let id = fresh_identifier();
        (id, Conversation::started(title, now))
    }

    /// Appends one turn stamped `stamped` and moves the last change to
    /// `touched`.
    pub fn record_message(
        &mut self,
        role: Role,
        content: String,
        stamped: Timestamp,
        touched: Timestamp,
    )
        ensures
            final(self)@ == old(self)@.appended(role, content@, stamped, touched),
    {
        let message = Message { role, content, timestamp: stamped };
        self.messages.push(message);
        self.updated_at = touched;
        assert(final(self)@.messages =~= old(self)@.messages.push(message@));
    }

    /// Appends a turn of the user, stamped with the clock; the last change is
    /// a second reading of the clock.
    pub fn add_user_message(&mut self, content: String)
        ensures
            final(self)@ == old(self)@.appended(
                Role::User,
                content@,
                final(self)@.messages.last().timestamp,
                final(self)@.updated_at,
            ),
            final(self)@.messages.last().timestamp.is_clock_reading(),
            final(self)@.updated_at.is_clock_reading(),
    {
        let stamped = Timestamp::now();
        let touched = Timestamp::now();
        self.record_message(Role::User, content, stamped, touched);
    }

    /// Appends a turn of the assistant, stamped with the clock; the last
    /// change is a second reading of the clock.
    pub fn add_assistant_message(&mut self, content: String)
        ensures
            final(self)@ == old(self)@.appended(
                Role::Assistant,
                content@,
                final(self)@.messages.last().timestamp,
                final(self)@.updated_at,
            ),
            final(self)@.messages.last().timestamp.is_clock_reading(),
            final(self)@.updated_at.is_clock_reading(),
    {
        let stamped = Timestamp::now();
        let touched = Timestamp::now();
        self.record_message(Role::Assistant, content, stamped, touched);
    }

    /// A copy with the same view.
    pub fn duplicate(&self) -> (c: Conversation)
        ensures
            c@ == self@,
    {
        let mut messages: Vec<Message> = Vec::new();
        let mut i: usize = 0;
        while i < self.messages.len()
            invariant
                i <= self.messages.len(),
                messages@.len() == i,
                forall|k: int| 0 <= k < i ==> messages@[k]@ == self.messages@[k]@,
            decreases self.messages.len() - i,
        {
            messages.push(self.messages[i].duplicate());
            i += 1;
        }
        let c = Conversation {
            title: self.title.clone(),
            created_at: self.created_at,
            updated_at: self.updated_at,
            messages,
        };
        assert(c@.messages =~= self@.messages);
        c
    }

    /// The projection that a listing shows.
    pub fn metadata(&self) -> (m: ConversationMetadata)
        ensures
            m@ == self@.metadata(),
    {
        ConversationMetadata {
            title: self.title.clone(),
            message_count: self.messages.len(),
            created_at: self.created_at,
            updated_at: self.updated_at,
        }
    }
}

/// A turn of the user followed by a turn of the assistant are the last two
/// turns, in that order, after what was there. Where each reading of the
/// clock is later than the last change before it, the last change moves
/// strictly forward with each turn.
pub proof fn lemma_user_then_assistant(
    c: ConversationView,
    question: Seq<char>,
    answer: Seq<char>,
    asked: Timestamp,
    after_asking: Timestamp,
    answered: Timestamp,
    after_answering: Timestamp,
)
    ensures
        ({
            let one = c.appended(Role::User, question, asked, after_asking);
            let two = one.appended(Role::Assistant, answer, answered, after_answering);
            &&& two.messages == c.messages + seq![
                MessageView { role: Role::User, content: question, timestamp: asked },
                MessageView { role: Role::Assistant, content: answer, timestamp: answered },
            ]
            &&& c.messages.len() == 0 ==> two.messages == seq![
                MessageView { role: Role::User, content: question, timestamp: asked },
                MessageView { role: Role::Assistant, content: answer, timestamp: answered },
            ]
            &&& two.title == c.title && two.created_at == c.created_at
            &&& c.updated_at.before(after_asking) ==> c.updated_at.before(one.updated_at)
            &&& after_asking.before(after_answering) ==> one.updated_at.before(two.updated_at)
        }),
{
    let one = c.appended(Role::User, question, asked, after_asking);
    let two = one.appended(Role::Assistant, answer, answered, after_answering);
    let u = MessageView { role: Role::User, content: question, timestamp: asked };
    let a = MessageView { role: Role::Assistant, content: answer, timestamp: answered };
    assert(two.messages =~= c.messages + seq![u, a]);
    if c.messages.len() == 0 {
        assert(two.messages =~= seq![u, a]);
    }
}

} // verus!
