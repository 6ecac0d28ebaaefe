//! The lifecycle of conversations: creating, fetching, activating, listing
//! and removing them, with the pointer to the active one kept in step.

use crate::error::{outcome_view, ChatError, ChatErrorView};
use crate::identifier::is_identifier_text;
use crate::model::{Conversation, ConversationMetadata, ConversationView};
use crate::store::{lists, RecordView, Store, StoreView};
use crate::text::text_of;
use crate::time::Timestamp;
use vstd::prelude::*;

verus! {

/// The title of the conversation that is made when a message needs one and
/// none is active.
pub open spec fn default_title() -> Seq<char> {
    "Default Conversation"@
}

/// The pointer to the active conversation, as one command holds it.
#[derive(Clone, Debug, PartialEq, Eq)]
pub struct History {
    pub active_conversation_id: Option<String>,
}

impl View for History {
    type V = Option<Seq<char>>;

    open spec fn view(&self) -> Option<Seq<char>> {
        text_of(self.active_conversation_id)
    }
}

impl Default for History {
    fn default() -> (h: History)
        ensures
            h@ is None,
    {
        History { active_conversation_id: None }
    }
}

/// The pointer names nothing that is not stored.
pub open spec fn consistent(active: Option<Seq<char>>, store: StoreView) -> bool {
    active matches Some(id) ==> store.contains(id)
}

/// What fetching the active conversation gives: nothing where the pointer is
/// unset, else what reading the conversation it names gives.
pub open spec fn active_conversation(active: Option<Seq<char>>, store: StoreView) -> Result<
    Option<ConversationView>,
    ChatErrorView,
> {
    match active {
        None => Ok(None),
        Some(id) => match store.load(id) {
            Ok(c) => Ok(Some(c)),
            Err(e) => Err(e),
        },
    }
}

/// The store after `c` was created under `id`: the record is written, then
/// the pointer, which names it.
pub open spec fn created(store: StoreView, id: Seq<char>, c: ConversationView) -> StoreView {
    store.saved(id, c).pointed(Some(id))
}

/// The conversation that is active once one is asked for, with the store as
/// it then is and what reading the conversation gives: the active
/// conversation as it is stored, or, where none is active, the default
/// conversation, made under `fresh` at `at` and activated.
pub open spec fn ensured(active: Option<Seq<char>>, store: StoreView, fresh: Seq<char>, at: Timestamp)
    -> (Seq<char>, StoreView, Result<ConversationView, ChatErrorView>) {
    match active {
        Some(id) => (id, store, store.load(id)),
        None => {
            let made = ConversationView::started(default_title(), at);
            (fresh, created(store, fresh, made), Ok(made))
        },
    }
}

/// The store after the conversation under `id` was removed while `active` was
/// the pointer: the record is deleted, and where the pointer named it the
/// pointer is cleared and written.
pub open spec fn removed(store: StoreView, active: Option<Seq<char>>, id: Seq<char>) -> StoreView {
    if active == Some(id) {
        store.deleted(id).pointed(None)
    } else {
        store.deleted(id)
    }
}

impl History {
    /// Stores a conversation titled `title`, created at `now`, under `id` and
    /// makes it the active one. Two writes: the record, then the pointer.
    pub fn create_conversation_with(
        &mut self,
        store: &mut Store,
        id: String,
        title: String,
        now: Timestamp,
    ) -> (c: Conversation)
        ensures
            c@ == ConversationView::started(title@, now),
            final(store)@ == created(old(store)@, id@, c@),
            final(self)@ == Some(id@),
            consistent(final(self)@, final(store)@),
    {
        let conversation = Conversation::started(title, now);
        store.save(id.as_str(), &conversation);
        self.active_conversation_id = Some(id);
        store.save_pointer(&self.active_conversation_id);
        conversation
    }

    /// Stores a new conversation titled `title` under a new random identifier
    /// and makes it the active one. Two writes: the record, then the pointer.
    pub fn create_conversation(&mut self, store: &mut Store, title: String) -> (r: (
        String,
        Conversation,
    ))
        ensures
            is_identifier_text(r.0@),
            r.1@ == ConversationView::started(title@, r.1@.created_at),
            r.1@.messages.len() == 0,
            r.1@.created_at == r.1@.updated_at,
            final(store)@ == created(old(store)@, r.0@, r.1@),
            final(self)@ == Some(r.0@),
            consistent(final(self)@, final(store)@),
    {
        let (id, conversation) = Conversation::new(title);
        store.save(id.as_str(), &conversation);
        self.active_conversation_id = Some(id.clone());
        store.save_pointer(&self.active_conversation_id);
        (id, conversation)
    }

    /// Reads the conversation stored under `id`.
    pub fn get_conversation(&self, store: &Store, id: &str) -> (r: Result<Conversation, ChatError>)
        ensures
            outcome_view(r) == store@.load(id@),
    {
        store.load(id)
    }

    /// Reads the active conversation; `None` where the pointer is unset.
    pub fn get_active_conversation(&self, store: &Store) -> (r: Result<
        Option<Conversation>,
        ChatError,
    >)
        ensures
            match active_conversation(self@, store@) {
                Ok(None) => r matches Ok(None),
                Ok(Some(c)) => r matches Ok(Some(found)) && found@ == c,
                Err(e) => r matches Err(failure) && failure@ == e,
            },
    {
        match &self.active_conversation_id {
            Some(id) => match store.load(id.as_str()) {
                Ok(c) => Ok(Some(c)),
                Err(e) => Err(e),
            },
            None => Ok(None),
        }
    }

    /// Makes the conversation under `id` the active one and writes the
    /// pointer, if such a conversation is stored; else changes nothing and
    /// returns `false`.
    pub fn set_active_conversation(&mut self, store: &mut Store, id: String) -> (found: bool)
        ensures
            found == old(store)@.contains(id@),
            found ==> final(self)@ == Some(id@) && final(store)@ == old(store)@.pointed(
                Some(id@),
            ),
            !found ==> final(self)@ == old(self)@ && final(store)@ == old(store)@,
            consistent(old(self)@, old(store)@) ==> consistent(final(self)@, final(store)@),
    {
        if store.contains(id.as_str()) {
            self.active_conversation_id = Some(id);
            store.save_pointer(&self.active_conversation_id);
            true
        } else {
            false
        }
    }

    /// The active conversation with its identifier. Where the pointer is
    /// unset, a conversation titled "Default Conversation" is created under a
    /// new identifier and made active first; its identifier and the instant
    /// of its creation are those that come back.
    pub fn ensure_active_conversation(&mut self, store: &mut Store) -> (r: Result<
        (String, Conversation),
        ChatError,
    >)
        ensures
            ({
                let (id, after, held) = ensured(
                    old(self)@,
                    old(store)@,
                    r->Ok_0.0@,
                    r->Ok_0.1@.created_at,
                );
                &&& final(self)@ == Some(id)
                &&& final(store)@ == after
                &&& match held {
                    Ok(c) => r matches Ok(found) && found.0@ == id && found.1@ == c,
                    Err(e) => r matches Err(failure) && failure@ == e,
                }
            }),
            old(self)@ is None ==> r is Ok && is_identifier_text(r->Ok_0.0@),
            consistent(old(self)@, old(store)@) ==> consistent(final(self)@, final(store)@),
    {
        let active = match &self.active_conversation_id {
            Some(id) => Some(id.clone()),
            None => None,
        };
        match active {
            Some(id) => match store.load(id.as_str()) {
                Ok(conversation) => Ok((id, conversation)),
                Err(e) => Err(e),
            },
            None => Ok(self.create_conversation(store, "Default Conversation".to_owned())),
        }
    }

    /// The metadata of every stored conversation that reads back, with its
    /// identifier. Records that do not read back are passed over.
    pub fn list_conversations(&self, store: &Store) -> (items: Vec<(String, ConversationMetadata)>)
        ensures
            lists(items@, store@.listing()),
    {
        store.list_all()
    }

    /// Removes the conversation stored under `id`. Where it was the active
    /// one, the pointer is cleared and written.
    pub fn remove_conversation(&mut self, store: &mut Store, id: &str) -> (r: Result<(), ChatError>)
        ensures
            r is Ok <==> old(store)@.contains(id@),
            r is Ok ==> final(store)@ == removed(old(store)@, old(self)@, id@) && final(self)@
                == if old(self)@ == Some(id@) {
                None
            } else {
                old(self)@
            },
            r matches Err(e) ==> e@ == (ChatErrorView::NotFound { id: id@ }) && final(self)@
                == old(self)@ && final(store)@ == old(store)@,
            consistent(old(self)@, old(store)@) ==> consistent(final(self)@, final(store)@),
    {
        match store.delete(id) {
            Err(e) => Err(e),
            Ok(()) => {
                let wanted = id.to_owned();
                let was_active = match &self.active_conversation_id {
                    Some(active) => *active == wanted,
                    None => false,
                };
                if was_active {
                    self.active_conversation_id = None;
                    store.save_pointer(&self.active_conversation_id);
                }
                Ok(())
            },
        }
    }
}

/// Stores `conversation` under `id`, over what was there.
pub fn save_conversation(store: &mut Store, id: &str, conversation: &Conversation)
    ensures
        final(store)@ == old(store)@.saved(id@, conversation@),
{
    store.save(id, conversation);
}

/// The pointer as it is persisted; unset where it was never written.
pub fn load_history(store: &Store) -> (h: History)
    ensures
        h@ == store@.pointer,
{
    History { active_conversation_id: store.load_pointer() }
}

/// Persists the pointer, also where it is unset.
pub fn save_history(history: &History, store: &mut Store)
    ensures
        final(store)@ == old(store)@.pointed(history@),
{
    store.save_pointer(&history.active_conversation_id);
}

/// A conversation that was just created reads back as it was made, under its
/// identifier and as the active one: with the title it was given and without
/// turns.
pub proof fn lemma_created_reads_back(
    store: StoreView,
    id: Seq<char>,
    title: Seq<char>,
    at: Timestamp,
)
    ensures
        ({
            let c = ConversationView::started(title, at);
            let after = created(store, id, c);
            &&& after.load(id) == Ok::<ConversationView, ChatErrorView>(c)
            &&& active_conversation(Some(id), after) == Ok::<
                Option<ConversationView>,
                ChatErrorView,
            >(Some(c))
            &&& after.load(id)->Ok_0.title == title
            &&& after.load(id)->Ok_0.messages == Seq::<crate::model::MessageView>::empty()
            &&& after.pointer == Some(id)
        }),
{
}

/// Creating a conversation under an identifier leaves what is stored under
/// every other identifier as it was; under an identifier that was not in use
/// it adds one record to those that were there.
pub proof fn lemma_created_keeps_the_rest(
    store: StoreView,
    id: Seq<char>,
    c: ConversationView,
    other: Seq<char>,
)
    requires
        other != id,
    ensures
        created(store, id, c).contains(other) == store.contains(other),
        created(store, id, c).load(other) == store.load(other),
        !store.contains(id) ==> created(store, id, c).records.remove(id) == store.records,
{
    if !store.contains(id) {
        assert(created(store, id, c).records.remove(id) =~= store.records);
    }
}

/// What was saved under an identifier is what reading that identifier gives,
/// in every field, whatever was stored there before; reading any other
/// identifier gives what it gave before.
pub proof fn lemma_saved_reads_back(
    store: StoreView,
    id: Seq<char>,
    c: ConversationView,
    other: Seq<char>,
)
    ensures
        store.saved(id, c).load(id) == Ok::<ConversationView, ChatErrorView>(c),
        other != id ==> store.saved(id, c).load(other) == store.load(other),
{
}

/// After the active conversation was removed, no conversation is active,
/// nothing is stored under its identifier, and reading it fails as not found.
pub proof fn lemma_removed_active_is_gone(store: StoreView, id: Seq<char>)
    requires
        store.contains(id),
    ensures
        ({
            let after = removed(store, Some(id), id);
            &&& after.pointer is None
            &&& active_conversation(after.pointer, after) == Ok::<
                Option<ConversationView>,
                ChatErrorView,
            >(None)
            &&& !after.contains(id)
            &&& after.load(id) == Err::<ConversationView, ChatErrorView>(
                ChatErrorView::NotFound { id },
            )
        }),
{
}

/// Removing a conversation other than the active one leaves the pointer and
/// what it names untouched.
pub proof fn lemma_removed_other_keeps_active(store: StoreView, active: Seq<char>, id: Seq<char>)
    requires
        active != id,
    ensures
        removed(store, Some(active), id).pointer == store.pointer,
        removed(store, Some(active), id).load(active) == store.load(active),
{
}

/// In a store without conversations, asking for an active conversation where
/// none is active makes the conversation titled "Default Conversation",
/// which is then the only one stored and the one that the pointer names.
/// Asking once more finds this conversation under the same identifier and
/// changes nothing: no second conversation is made.
pub proof fn lemma_ensured_once_and_again(
    store: StoreView,
    fresh: Seq<char>,
    at: Timestamp,
    other: Seq<char>,
    later: Timestamp,
)
    requires
        store.records.dom() == Set::<Seq<char>>::empty(),
    ensures
        ({
            let (id, after, held) = ensured(None, store, fresh, at);
            let (again, still, found) = ensured(after.pointer, after, other, later);
            &&& held == Ok::<ConversationView, ChatErrorView>(
                ConversationView::started(default_title(), at),
            )
            &&& after.records.dom() == Set::<Seq<char>>::empty().insert(id)
            &&& after.records[id] == RecordView::Valid(
                ConversationView::started(default_title(), at),
            )
            &&& after.pointer == Some(id)
            &&& again == id
            &&& still == after
            &&& found == held
        }),
{
    let c = ConversationView::started(default_title(), at);
    assert(created(store, fresh, c).records.dom() =~= Set::<Seq<char>>::empty().insert(fresh));
}

} // verus!
