//! One exchange with the completion endpoint: from the user's message to the
//! request, and from the endpoint's answer to the stored reply.

use crate::config::{ClientConfigView, Config, Temperature};
use crate::endpoint::{completion_endpoint, endpoint_of};
use crate::error::{outcome_view, ChatError, ChatErrorView};
use crate::history::{consistent, ensured, History};
use crate::identifier::is_identifier_text;
use crate::json::{document_of, parse, Json, JsonView};
use crate::model::{Conversation, ConversationView, MessageView, Role};
use crate::store::{RecordView, Store, StoreView};
use crate::text::{name_of, text_of};
use crate::time::Timestamp;
use vstd::prelude::*;

verus! {

/// A turn as the endpoint sees it: who spoke and what, not when.
#[derive(Clone, Debug, PartialEq, Eq)]
pub struct RequestMessage {
    pub role: Role,
    pub content: String,
}

/// [`RequestMessage`] as a mathematical value.
pub struct RequestMessageView {
    pub role: Role,
    pub content: Seq<char>,
}

impl View for RequestMessage {
    type V = RequestMessageView;

    open spec fn view(&self) -> RequestMessageView {
        RequestMessageView { role: self.role, content: self.content@ }
    }
}

/// What is sent to the endpoint: where to, under which key, and the body's
/// fields.
#[derive(Clone, Debug, PartialEq, Eq)]
pub struct ChatRequest {
    pub url: String,
    pub api_key: String,
    pub model: String,
    pub max_tokens: u32,
    pub temperature: Temperature,
    pub messages: Vec<RequestMessage>,
}

/// [`ChatRequest`] as a mathematical value.
pub struct ChatRequestView {
    pub url: Seq<char>,
    pub api_key: Seq<char>,
    pub model: Seq<char>,
    pub max_tokens: u32,
    pub temperature: Temperature,
    pub messages: Seq<RequestMessageView>,
}

impl View for ChatRequest {
    type V = ChatRequestView;

    open spec fn view(&self) -> ChatRequestView {
        ChatRequestView {
            url: self.url@,
            api_key: self.api_key@,
            model: self.model@,
            max_tokens: self.max_tokens,
            temperature: self.temperature,
            messages: self.messages@.map_values(|m: RequestMessage| m@),
        }
    }
}

/// How the exchange with the endpoint ended.
#[derive(Clone, Debug, PartialEq, Eq)]
pub enum RemoteOutcome {
    /// The endpoint answered with a 2xx status and this body.
    Answered { body: String },
    /// The endpoint answered with another status and this body.
    Refused { status: u16, body: String },
    /// No answer came; the transport says why.
    Failed { message: String },
}

/// [`RemoteOutcome`] as a mathematical value.
pub enum RemoteOutcomeView {
    Answered { body: Seq<char> },
    Refused { status: u16, body: Seq<char> },
    Failed { message: Seq<char> },
}

impl View for RemoteOutcome {
    type V = RemoteOutcomeView;

    open spec fn view(&self) -> RemoteOutcomeView {
        match self {
            RemoteOutcome::Answered { body } => RemoteOutcomeView::Answered { body: body@ },
            RemoteOutcome::Refused { status, body } => RemoteOutcomeView::Refused {
                status: *status,
                body: body@,
            },
            RemoteOutcome::Failed { message } => RemoteOutcomeView::Failed { message: message@ },
        }
    }
}

/// The turns of a conversation as the endpoint sees them, in their order.
pub open spec fn wire_messages(c: ConversationView) -> Seq<RequestMessageView> {
    c.messages.map_values(|m: MessageView| RequestMessageView { role: m.role, content: m.content })
}

/// The request that carries conversation `c` to provider `client`.
pub open spec fn request_for(c: ConversationView, client: ClientConfigView) -> ChatRequestView {
    ChatRequestView {
        url: endpoint_of(client.api_url),
        api_key: client.api_key,
        model: client.model,
        max_tokens: client.max_tokens,
        temperature: client.temperature,
        messages: wire_messages(c),
    }
}

/// The reply text in the endpoint's answer: the text under `content` in the
/// `message` of the first of the `choices`.
pub open spec fn reply_text(answer: JsonView) -> Option<Seq<char>> {
    match answer.member("choices"@) {
        Some(choices) => match choices.element(0) {
            Some(first) => match first.member("message"@) {
                Some(message) => match message.member("content"@) {
                    Some(content) => content.text(),
                    None => None,
                },
                None => None,
            },
            None => None,
        },
        None => None,
    }
}

/// The reply text in the body of an answer, or the failure to find one.
pub open spec fn reply_in_body(body: Seq<char>) -> Result<Seq<char>, ChatErrorView> {
    match document_of(body) {
        Some(answer) => match reply_text(answer) {
            Some(text) => Ok(text),
            None => Err(ChatErrorView::MalformedResponse),
        },
        None => Err(ChatErrorView::MalformedResponse),
    }
}

/// The reply text that an exchange gives, or why it gives none.
pub open spec fn reply_of(outcome: RemoteOutcomeView) -> Result<Seq<char>, ChatErrorView> {
    match outcome {
        RemoteOutcomeView::Answered { body } => reply_in_body(body),
        RemoteOutcomeView::Refused { status, body } => Err(
            ChatErrorView::RemoteCallError { status: Some(status), detail: body },
        ),
        RemoteOutcomeView::Failed { message } => Err(
            ChatErrorView::RemoteCallError { status: None, detail: message },
        ),
    }
}

/// Where a message goes: the pointer and the store after the conversation
/// that was asked for, if any, was made the active one.
pub open spec fn aimed(active: Option<Seq<char>>, store: StoreView, target: Option<Seq<char>>)
    -> Result<(Option<Seq<char>>, StoreView), ChatErrorView> {
    match target {
        None => Ok((active, store)),
        Some(id) => if store.contains(id) {
            Ok((Some(id), store.pointed(Some(id))))
        } else {
            Err(ChatErrorView::NotFound { id })
        },
    }
}

/// The store after a finished exchange: the conversation with the reply is
/// written under its identifier, then the pointer.
pub open spec fn exchanged(
    store: StoreView,
    active: Option<Seq<char>>,
    id: Seq<char>,
    c: ConversationView,
) -> StoreView {
    store.saved(id, c).pointed(active)
}

/// The request that asks `input` after what conversation `earlier` holds.
pub open spec fn asking(earlier: ConversationView, input: Seq<char>, client: ClientConfigView)
    -> ChatRequestView {
    ChatRequestView {
        messages: wire_messages(earlier).push(
            RequestMessageView { role: Role::User, content: input },
        ),
        ..request_for(earlier, client)
    }
}

/// Conversation `kept` is conversation `earlier` with the user's message and
/// the reply as two more turns, in that order.
pub open spec fn sent_and_answered(
    earlier: ConversationView,
    kept: ConversationView,
    input: Seq<char>,
    reply: Seq<char>,
) -> bool {
    let n = kept.messages.len() as int;
    &&& n >= 2
    &&& kept.messages[n - 2].role == Role::User
    &&& kept.messages[n - 2].content == input
    &&& kept.messages[n - 1].role == Role::Assistant
    &&& kept.messages[n - 1].content == reply
    &&& kept.messages.drop_last().drop_last() == earlier.messages
    &&& kept.title == earlier.title
    &&& kept.created_at == earlier.created_at
}

/// How an exchange leaves the store and what it returns, where the message
/// went to the conversation under `id`, which held `earlier`, the store was
/// `opened` before the request went out, and the exchange ended with
/// `outcome`. A reply is stored with the message it answers, record first and
/// pointer second; a failure stores nothing.
pub open spec fn closed(
    opened: StoreView,
    id: Seq<char>,
    earlier: ConversationView,
    input: Seq<char>,
    outcome: RemoteOutcomeView,
    after: StoreView,
    returned: Result<Seq<char>, ChatErrorView>,
) -> bool {
    &&& returned == reply_of(outcome)
    &&& match reply_of(outcome) {
        Err(_) => after == opened,
        Ok(reply) => {
            &&& after.contains(id)
            &&& after.records[id] matches RecordView::Valid(kept)
            &&& sent_and_answered(earlier, kept, input, reply)
            &&& after == exchanged(opened, Some(id), id, kept)
        },
    }
}

/// The turns of `conversation` without their instants.
pub fn request_messages(conversation: &Conversation) -> (messages: Vec<RequestMessage>)
    ensures
        messages@.map_values(|m: RequestMessage| m@) == wire_messages(conversation@),
{
    let mut messages: Vec<RequestMessage> = Vec::new();
    let mut i: usize = 0;
    while i < conversation.messages.len()
        invariant
            i <= conversation.messages.len(),
            messages@.len() == i,
            forall|k: int|
                0 <= k < i ==> messages@[k]@ == (RequestMessageView {
                    role: conversation.messages@[k].role,
                    content: conversation.messages@[k].content@,
                }),
        decreases conversation.messages.len() - i,
    {
        let message = &conversation.messages[i];
        messages.push(RequestMessage { role: message.role, content: message.content.clone() });
        i += 1;
    }
    assert(messages@.map_values(|m: RequestMessage| m@) =~= wire_messages(conversation@));
    messages
}

/// The request that carries `conversation` to the provider named
/// `client_name`, or to the default provider where no name is given.
pub fn completion_request(
    conversation: &Conversation,
    config: &Config,
    client_name: Option<&str>,
) -> (r: Result<ChatRequest, ChatError>)
    ensures
        match config@.client(name_of(client_name)) {
            Ok(client) => r matches Ok(request) && request@ == request_for(conversation@, client),
            Err(e) => r matches Err(failure) && failure@ == e,
        },
{
    match config.get_client_config(client_name) {
        Err(e) => Err(e),
        Ok(client) => Ok(
            ChatRequest {
                url: completion_endpoint(client.api_url.as_str()),
                api_key: client.api_key.clone(),
                model: client.model.clone(),
                max_tokens: client.max_tokens,
                temperature: client.temperature,
                messages: request_messages(conversation),
            },
        ),
    }
}

/// The reply text in an answer that was read as a document.
pub fn reply_from(answer: &Json) -> (r: Option<String>)
    ensures
        text_of(r) == reply_text(answer@),
{
    let choices = match answer.member("choices") {
        Some(j) => j,
        None => { return None; },
    };
    let first = match choices.element(0) {
        Some(j) => j,
        None => { return None; },
    };
    let message = match first.member("message") {
        Some(j) => j,
        None => { return None; },
    };
    let content = match message.member("content") {
        Some(j) => j,
        None => { return None; },
    };
    match content.as_str() {
        Some(text) => Some(text.to_owned()),
        None => None,
    }
}

/// The reply text in the body of an answer.
pub fn extract_reply(body: &str) -> (r: Result<String, ChatError>)
    ensures
        outcome_view(r) == reply_in_body(body@),
{
    match parse(body) {
        None => Err(ChatError::MalformedResponse),
        Some(answer) => match reply_from(&answer) {
            Some(text) => Ok(text),
            None => Err(ChatError::MalformedResponse),
        },
    }
}

/// The reply text that an exchange gives. A status outside the 2xx range
/// comes back with the status and the body, a failed transport with its
/// message.
pub fn read_outcome(outcome: RemoteOutcome) -> (r: Result<String, ChatError>)
    ensures
        outcome_view(r) == reply_of(outcome@),
{
    match outcome {
        RemoteOutcome::Answered { body } => extract_reply(body.as_str()),
        RemoteOutcome::Refused { status, body } => Err(
            ChatError::RemoteCallError { status: Some(status), detail: body },
        ),
        RemoteOutcome::Failed { message } => Err(
            ChatError::RemoteCallError { status: None, detail: message },
        ),
    }
}

/// Opens an exchange: makes the conversation named by `conversation_id`, if
/// one is named, the active one; takes the active conversation, making the
/// default one where none is active; and appends the user's message to a copy
/// of it. The copy with its identifier is returned; the store does not hold
/// the message yet.
pub fn begin_send(
    history: &mut History,
    store: &mut Store,
    input: &str,
    conversation_id: Option<&str>,
) -> (r: Result<(String, Conversation), ChatError>)
    ensures
        match aimed(old(history)@, old(store)@, name_of(conversation_id)) {
            Err(e) => {
                &&& r matches Err(failure)
                &&& failure@ == e
                &&& final(history)@ == old(history)@
                &&& final(store)@ == old(store)@
            },
            Ok((active, aimed_store)) => {
                let (id, after, held) = ensured(
                    active,
                    aimed_store,
                    r->Ok_0.0@,
                    r->Ok_0.1@.created_at,
                );
                &&& final(history)@ == Some(id)
                &&& final(store)@ == after
                &&& active is None ==> is_identifier_text(id)
                &&& match held {
                    Err(e) => r matches Err(failure) && failure@ == e,
                    Ok(c) => r matches Ok(opened) && opened.0@ == id && opened.1@ == c.appended(
                        Role::User,
                        input@,
                        opened.1@.messages.last().timestamp,
                        opened.1@.updated_at,
                    ),
                }
            },
        },
        consistent(old(history)@, old(store)@) ==> consistent(final(history)@, final(store)@),
{
    match conversation_id {
        Some(id) => {
            if !history.set_active_conversation(store, id.to_owned()) {
                return Err(ChatError::NotFound { id: id.to_owned() });
            }
        },
        None => {},
    }
    match history.ensure_active_conversation(store) {
        Err(e) => Err(e),
        Ok((id, mut conversation)) => {
            conversation.add_user_message(input.to_owned());
            Ok((id, conversation))
        },
    }
}

/// Closes an exchange. Where the outcome holds a reply text, the text is
/// appended to `conversation` as the assistant's turn, the conversation is
/// written under `id`, then the pointer, and the text is returned. Where it
/// holds none, the failure is returned and the store is left as it was.
pub fn finish_send(
    history: &History,
    store: &mut Store,
    id: &str,
    conversation: Conversation,
    outcome: RemoteOutcome,
) -> (r: Result<String, ChatError>)
    ensures
        match reply_of(outcome@) {
            Err(e) => r matches Err(failure) && failure@ == e && final(store)@ == old(store)@,
            Ok(text) => {
                &&& r matches Ok(reply)
                &&& reply@ == text
                &&& final(store)@.contains(id@)
                &&& final(store)@.records[id@] matches RecordView::Valid(kept)
                &&& kept == conversation@.appended(
                    Role::Assistant,
                    text,
                    kept.messages.last().timestamp,
                    kept.updated_at,
                )
                &&& final(store)@ == exchanged(old(store)@, history@, id@, kept)
            },
        },
        consistent(history@, old(store)@) ==> consistent(history@, final(store)@),
{
    match read_outcome(outcome) {
        Err(e) => Err(e),
        Ok(reply) => {
            let mut conversation = conversation;
            conversation.add_assistant_message(reply.clone());
            store.save(id, &conversation);
            crate::history::save_history(history, store);
            Ok(reply)
        },
    }
}

/// Sends `input` in the conversation named by `conversation_id`, or in the
/// active one, and stores the reply. The request goes out through
/// `transport`, which hands back how the exchange ended.
///
/// A conversation that is asked for and not stored fails the call before
/// anything changes. Else the conversation asked for becomes the active one,
/// and where none is active the default conversation is made under a new
/// identifier. A conversation that does not read back and a provider that is
/// not configured fail the call before the request goes out. The request
/// carries every turn so far and the user's message. A failure of any kind
/// stores no message: the user's message is stored only together with the
/// reply.
pub fn call_openai_with_history<F: FnOnce(&ChatRequest) -> RemoteOutcome>(
    store: &mut Store,
    config: &Config,
    input: &str,
    conversation_id: Option<&str>,
    client_name: Option<&str>,
    transport: F,
) -> (r: Result<String, ChatError>)
    requires
        forall|request: &ChatRequest| transport.requires((request,)),
    ensures
        match aimed(old(store)@.pointer, old(store)@, name_of(conversation_id)) {
            Err(e) => outcome_view(r) == Err::<Seq<char>, ChatErrorView>(e) && final(store)@
                == old(store)@,
            Ok((active, aimed_store)) => exists|fresh: Seq<char>, at: Timestamp|
                {
                    let (id, opened, earlier) = #[trigger] ensured(active, aimed_store, fresh, at);
                    &&& active is None ==> is_identifier_text(fresh)
                    &&& match earlier {
                        Err(e) => outcome_view(r) == Err::<Seq<char>, ChatErrorView>(e)
                            && final(store)@ == opened,
                        Ok(held) => match config@.client(name_of(client_name)) {
                            Err(e) => outcome_view(r) == Err::<Seq<char>, ChatErrorView>(e)
                                && final(store)@ == opened,
                            Ok(client) => exists|request: ChatRequest, outcome: RemoteOutcome|
                                {
                                    &&& #[trigger] transport.ensures((&request,), outcome)
                                    &&& request@ == asking(held, input@, client)
                                    &&& closed(
                                        opened,
                                        id,
                                        held,
                                        input@,
                                        outcome@,
                                        final(store)@,
                                        outcome_view(r),
                                    )
                                },
                        },
                    }
                },
        },
{
    let mut history = crate::history::load_history(store);
    let ghost active = aimed(old(store)@.pointer, old(store)@, name_of(conversation_id))->Ok_0.0;
    let ghost aimed_store = aimed(
        old(store)@.pointer,
        old(store)@,
        name_of(conversation_id),
    )->Ok_0.1;
    let (id, conversation) = match begin_send(&mut history, store, input, conversation_id) {
        Ok(opened) => opened,
        Err(e) => {
            proof {
                if aimed(old(store)@.pointer, old(store)@, name_of(conversation_id)) is Ok {
                    let at = Timestamp { secs: 0, nanos: 0 };
                    assert(ensured(active, aimed_store, Seq::empty(), at).2 is Err);
                }
            }
            return Err(e);
        },
    };
    let ghost at = conversation@.created_at;
    let ghost held = ensured(active, aimed_store, id@, at).2->Ok_0;
    let ghost opened = store@;
    proof {
        assert(ensured(active, aimed_store, id@, at).1 == opened);
        assert(conversation@.messages.drop_last() =~= held.messages);
    }
    let request = match completion_request(&conversation, config, client_name) {
        Ok(request) => request,
        Err(e) => {
            return Err(e);
        },
    };
    proof {
        assert(request@.messages =~= asking(
            held,
            input@,
            config@.client(name_of(client_name))->Ok_0,
        ).messages);
    }
    let outcome = transport(&request);
    let ghost asked = conversation@;
    let r = finish_send(&history, store, id.as_str(), conversation, outcome);
    proof {
        if r is Ok {
            let kept = final(store)@.records[id@]->Valid_0;
            assert(kept.messages.drop_last() =~= asked.messages);
        }
        assert(transport.ensures((&request,), outcome));
        assert(closed(opened, id@, held, input@, outcome@, final(store)@, outcome_view(r)));
    }
    r
}

/// After a finished exchange the conversation reads back with the message
/// and the reply as its last two turns, the pointer is the one that was
/// written, and every other conversation reads back as before.
pub proof fn lemma_exchange_reads_back(
    store: StoreView,
    active: Option<Seq<char>>,
    id: Seq<char>,
    earlier: ConversationView,
    kept: ConversationView,
    input: Seq<char>,
    reply: Seq<char>,
    other: Seq<char>,
)
    requires
        sent_and_answered(earlier, kept, input, reply),
    ensures
        ({
            let after = exchanged(store, active, id, kept);
            &&& after.load(id) == Ok::<ConversationView, ChatErrorView>(kept)
            &&& after.pointer == active
            &&& wire_messages(kept) == wire_messages(earlier).push(
                RequestMessageView { role: Role::User, content: input },
            ).push(RequestMessageView { role: Role::Assistant, content: reply })
            &&& other != id ==> after.load(other) == store.load(other)
        }),
{
    assert(wire_messages(kept) =~= wire_messages(earlier).push(
        RequestMessageView { role: Role::User, content: input },
    ).push(RequestMessageView { role: Role::Assistant, content: reply }));
}

} // verus!
