//! What is persisted: one record per conversation and the pointer to the
//! active one, held as a snapshot, with a journal of the writes still to be
//! carried out.

use crate::error::{outcome_view, ChatError, ChatErrorView};
use crate::model::{Conversation, ConversationMetadata, ConversationView, MetadataView};
use crate::text::text_of;
use vstd::prelude::*;

verus! {

/// What is found under an identifier.
#[derive(Clone, Debug, PartialEq, Eq)]
pub enum StoredRecord {
    /// A record that reads back as a conversation.
    Valid(Conversation),
    /// A record that is there but does not read back as a conversation.
    Corrupt,
    /// A record that is there but could not be read.
    Unreadable,
}

/// [`StoredRecord`] as a mathematical value.
pub enum RecordView {
    Valid(ConversationView),
    Corrupt,
    Unreadable,
}

impl View for StoredRecord {
    type V = RecordView;

    open spec fn view(&self) -> RecordView {
        match self {
            StoredRecord::Valid(c) => RecordView::Valid(c@),
            StoredRecord::Corrupt => RecordView::Corrupt,
            StoredRecord::Unreadable => RecordView::Unreadable,
        }
    }
}

/// One write to persistent storage.
#[derive(Clone, Debug, PartialEq, Eq)]
pub enum Write {
    /// Store the conversation under the identifier, over what was there.
    Record { id: String, conversation: Conversation },
    /// Remove the record stored under the identifier.
    Removal { id: String },
    /// Store the pointer to the active conversation; `None` stores "unset".
    Pointer { active: Option<String> },
}

/// [`Write`] as a mathematical value.
pub enum WriteView {
    Record { id: Seq<char>, conversation: ConversationView },
    Removal { id: Seq<char> },
    Pointer { active: Option<Seq<char>> },
}

impl View for Write {
    type V = WriteView;

    open spec fn view(&self) -> WriteView {
        match self {
            Write::Record { id, conversation } => WriteView::Record {
                id: id@,
                conversation: conversation@,
            },
            Write::Removal { id } => WriteView::Removal { id: id@ },
            Write::Pointer { active } => WriteView::Pointer { active: text_of(*active) },
        }
    }
}

/// The store as a mathematical value.
pub struct StoreView {
    /// What is stored under each identifier.
    pub records: Map<Seq<char>, RecordView>,
    /// The persisted pointer to the active conversation.
    pub pointer: Option<Seq<char>>,
    /// The writes made since the journal was last taken, oldest first.
    pub journal: Seq<WriteView>,
}

impl StoreView {
    pub open spec fn empty() -> StoreView {
        StoreView { records: Map::empty(), pointer: None, journal: Seq::empty() }
    }

    /// Something is stored under `id`, readable or not.
    pub open spec fn contains(self, id: Seq<char>) -> bool {
        self.records.dom().contains(id)
    }

    /// What reading `id` back gives.
    pub open spec fn load(self, id: Seq<char>) -> Result<ConversationView, ChatErrorView> {
        if !self.contains(id) {
            Err(ChatErrorView::NotFound { id })
        } else {
            match self.records[id] {
                RecordView::Valid(c) => Ok(c),
                RecordView::Corrupt => Err(ChatErrorView::CorruptRecord { id }),
                RecordView::Unreadable => Err(ChatErrorView::StorageError { id }),
            }
        }
    }

    /// The store after `c` was saved under `id`: one write, over whatever was
    /// there.
    pub open spec fn saved(self, id: Seq<char>, c: ConversationView) -> StoreView {
        StoreView {
            records: self.records.insert(id, RecordView::Valid(c)),
            journal: self.journal.push(WriteView::Record { id, conversation: c }),
            ..self
        }
    }

    /// The store after the record under `id` was deleted: one write.
    pub open spec fn deleted(self, id: Seq<char>) -> StoreView {
        StoreView {
            records: self.records.remove(id),
            journal: self.journal.push(WriteView::Removal { id }),
            ..self
        }
    }

    /// The store after the pointer was set to `active`: one write.
    pub open spec fn pointed(self, active: Option<Seq<char>>) -> StoreView {
        StoreView {
            pointer: active,
            journal: self.journal.push(WriteView::Pointer { active }),
            ..self
        }
    }

    /// The listing: the metadata of every record that reads back as a
    /// conversation, by identifier. Other records are left out.
    pub open spec fn listing(self) -> Map<Seq<char>, MetadataView> {
        Map::new(
            |id: Seq<char>| self.contains(id) && self.records[id] is Valid,
            |id: Seq<char>| self.records[id]->Valid_0.metadata(),
        )
    }
}

/// The views of a run of writes.
pub open spec fn writes_view(writes: Seq<Write>) -> Seq<WriteView> {
    writes.map_values(|w: Write| w@)
}

/// `items` lists `listing`: every item is an entry of `listing`, every entry
/// of `listing` is among the items, and no identifier comes twice.
pub open spec fn lists(
    items: Seq<(String, ConversationMetadata)>,
    listing: Map<Seq<char>, MetadataView>,
) -> bool {
    &&& forall|k: int|
        0 <= k < items.len() ==> listing.dom().contains(#[trigger] items[k].0@)
            && listing[items[k].0@] == items[k].1@
    &&& forall|id: Seq<char>|
        listing.dom().contains(id) ==> exists|k: int|
            0 <= k < items.len() && #[trigger] items[k].0@ == id
    &&& forall|k: int, l: int|
        0 <= k < items.len() && 0 <= l < items.len() && k != l ==> #[trigger] items[k].0@
            != #[trigger] items[l].0@
}

/// One identifier with what is stored under it.
struct Entry {
    id: String,
    record: StoredRecord,
}

/// The persisted state and the journal of writes.
pub struct Store {
    entries: Vec<Entry>,
    pointer: Option<String>,
    journal: Vec<Write>,
}

spec fn holds(entries: Seq<Entry>, id: Seq<char>, i: int) -> bool {
    0 <= i < entries.len() && entries[i].id@ == id
}

spec fn distinct_ids(entries: Seq<Entry>) -> bool {
    forall|i: int, j: int|
        0 <= i < entries.len() && 0 <= j < entries.len() && i != j ==> entries[i].id@
            != entries[j].id@
}

spec fn records_of(entries: Seq<Entry>) -> Map<Seq<char>, RecordView> {
    Map::new(
        |id: Seq<char>| exists|i: int| holds(entries, id, i),
        |id: Seq<char>| entries[choose|i: int| holds(entries, id, i)].record@,
    )
}

proof fn lemma_record_at(entries: Seq<Entry>, i: int)
    requires
        distinct_ids(entries),
        0 <= i < entries.len(),
    ensures
        records_of(entries).dom().contains(entries[i].id@),
        records_of(entries)[entries[i].id@] == entries[i].record@,
{
    let id = entries[i].id@;
    assert(holds(entries, id, i));
    let j = choose|j: int| holds(entries, id, j);
    assert(holds(entries, id, j));
    assert(j == i);
}

impl View for Store {
    type V = StoreView;

    closed spec fn view(&self) -> StoreView {
        StoreView {
            records: records_of(self.entries@),
            pointer: text_of(self.pointer),
            journal: writes_view(self.journal@),
        }
    }
}

impl Store {
    /// Under each identifier there is one record.
    #[verifier::type_invariant]
    spec fn distinct(&self) -> bool {
        distinct_ids(self.entries@)
    }

    /// A store that holds nothing, with nothing to write.
    pub fn new() -> (s: Store)
        ensures
            s@ == StoreView::empty(),
    {
        let s = Store { entries: Vec::new(), pointer: None, journal: Vec::new() };
        assert(s@.records =~= Map::empty());
        assert(s@.journal =~= Seq::empty());
        s
    }

    /// Where `id` is held, if anywhere.
    fn position(&self, id: &str) -> (r: Option<usize>)
        ensures
            match r {
                Some(i) => holds(self.entries@, id@, i as int),
                None => forall|i: int| !holds(self.entries@, id@, i),
            },
    {
        let wanted = id.to_owned();
        let mut i: usize = 0;
        while i < self.entries.len()
            invariant
                i <= self.entries.len(),
                wanted@ == id@,
                forall|k: int| 0 <= k < i ==> !holds(self.entries@, id@, k),
            decreases self.entries.len() - i,
        {
            if self.entries[i].id == wanted {
                return Some(i);
            }
            i += 1;
        }
        None
    }

    /// Whether something is stored under `id`.
    pub fn contains(&self, id: &str) -> (b: bool)
        ensures
            b == self@.contains(id@),
    {
        self.position(id).is_some()
    }

    /// Takes the entries out, leaving none behind.
    fn take_entries(&mut self) -> (entries: Vec<Entry>)
        ensures
            entries == old(self).entries,
            distinct_ids(entries@),
            final(self).entries@ == Seq::<Entry>::empty(),
            final(self).pointer == old(self).pointer,
            final(self).journal == old(self).journal,
    {
        proof {
            use_type_invariant(&*self);
        }
        let mut entries: Vec<Entry> = Vec::new();
        std::mem::swap(&mut self.entries, &mut entries);
        entries
    }

    /// Adds a write to the journal.
    fn journal_write(&mut self, write: Write)
        ensures
            final(self).journal@ == old(self).journal@.push(write),
            final(self).entries == old(self).entries,
            final(self).pointer == old(self).pointer,
    {
        proof {
            use_type_invariant(&*self);
        }
        let mut journal: Vec<Write> = Vec::new();
        std::mem::swap(&mut self.journal, &mut journal);
        journal.push(write);
        self.journal = journal;
    }

    /// Puts `record` under `id`, over what was there.
    fn put(&mut self, id: String, record: StoredRecord)
        ensures
            records_of(final(self).entries@) == records_of(old(self).entries@).insert(
                id@,
                record@,
            ),
            final(self).pointer == old(self).pointer,
            final(self).journal == old(self).journal,
    {
        let ghost before = self.entries@;
        let ghost key = id@;
        let ghost value = record@;
        let found = self.position(id.as_str());
        let ghost at: int = match found {
            Some(i) => i as int,
            None => before.len() as int,
        };
        let mut entries = self.take_entries();
        match found {
            Some(i) => {
                entries.set(i, Entry { id, record });
            },
            None => {
                entries.push(Entry { id, record });
            },
        }
        proof {
            let after = entries@;
            assert(holds(after, key, at));
            assert forall|j: int| 0 <= j < after.len() && j != at implies holds(
                before,
                after[j].id@,
                j,
            ) && after[j] == before[j] && after[j].id@ != key by {
                assert(!holds(before, key, j) || holds(before, key, at));
            }
            assert(distinct_ids(after));
            lemma_record_at(after, at);
            assert forall|k: Seq<char>|
                records_of(after).dom().contains(k) <==> records_of(before).insert(
                    key,
                    value,
                ).dom().contains(k) by {
                if records_of(after).dom().contains(k) {
                    let j = choose|j: int| holds(after, k, j);
                    if j != at {
                        assert(holds(before, k, j));
                    }
                }
                if k != key && records_of(before).dom().contains(k) {
                    let j = choose|j: int| holds(before, k, j);
                    assert(holds(after, k, j));
                }
            }
            assert forall|k: Seq<char>| records_of(after).dom().contains(k) implies records_of(
                after,
            )[k] == records_of(before).insert(key, value)[k] by {
                if k != key {
                    let j = choose|j: int| holds(after, k, j);
                    assert(holds(before, k, j));
                    lemma_record_at(after, j);
                    lemma_record_at(before, j);
                }
            }
            assert(records_of(after) =~= records_of(before).insert(key, value));
        }
        self.entries = entries;
    }

    /// Puts `record` under `id` as it was found in persistent storage: the
    /// snapshot changes, no write is journalled.
    pub fn restore_record(&mut self, id: String, record: StoredRecord)
        ensures
            final(self)@ == (StoreView {
                records: old(self)@.records.insert(id@, record@),
                ..old(self)@
            }),
    {
        self.put(id, record);
    }

    /// Sets the pointer as it was found in persistent storage: the snapshot
    /// changes, no write is journalled.
    pub fn restore_pointer(&mut self, active: Option<String>)
        ensures
            final(self)@ == (StoreView { pointer: text_of(active), ..old(self)@ }),
    {
        proof {
            use_type_invariant(&*self);
        }
        self.pointer = active;
    }

    /// Reads the conversation stored under `id`.
    pub fn load(&self, id: &str) -> (r: Result<Conversation, ChatError>)
        ensures
            outcome_view(r) == self@.load(id@),
    {
        match self.position(id) {
            None => Err(ChatError::NotFound { id: id.to_owned() }),
            Some(i) => {
                proof {
                    use_type_invariant(self);
                    lemma_record_at(self.entries@, i as int);
                }
                match &self.entries[i].record {
                    StoredRecord::Valid(c) => Ok(c.duplicate()),
                    StoredRecord::Corrupt => Err(ChatError::CorruptRecord { id: id.to_owned() }),
                    StoredRecord::Unreadable => Err(ChatError::StorageError { id: id.to_owned() }),
                }
            },
        }
    }

    /// Stores `conversation` under `id`, over what was there, and journals the
    /// write.
    pub fn save(&mut self, id: &str, conversation: &Conversation)
        ensures
            final(self)@ == old(self)@.saved(id@, conversation@),
    {
        self.put(id.to_owned(), StoredRecord::Valid(conversation.duplicate()));
        self.journal_write(
            Write::Record { id: id.to_owned(), conversation: conversation.duplicate() },
        );
        assert(final(self)@.journal =~= old(self)@.saved(id@, conversation@).journal);
    }

    /// Removes the record stored under `id` and journals the write. Where
    /// nothing is stored under `id`, nothing changes.
    pub fn delete(&mut self, id: &str) -> (r: Result<(), ChatError>)
        ensures
            r is Ok <==> old(self)@.contains(id@),
            r is Ok ==> final(self)@ == old(self)@.deleted(id@),
            r matches Err(e) ==> e@ == (ChatErrorView::NotFound { id: id@ }) && final(self)@ == old(
                self,
            )@,
    {
        let ghost before = self.entries@;
        match self.position(id) {
            None => Err(ChatError::NotFound { id: id.to_owned() }),
            Some(i) => {
                let mut entries = self.take_entries();
                entries.remove(i);
                proof {
                    let after = entries@;
                    let at = i as int;
                    let key = id@;
                    assert forall|j: int| 0 <= j < after.len() implies after[j] == before[if j
                        < at {
                        j
                    } else {
                        j + 1
                    }] by {}
                    assert(distinct_ids(after));
                    assert forall|k: Seq<char>|
                        records_of(after).dom().contains(k) <==> records_of(before).remove(
                            key,
                        ).dom().contains(k) by {
                        if records_of(after).dom().contains(k) {
                            let j = choose|j: int| holds(after, k, j);
                            let b = if j < at {
                                j
                            } else {
                                j + 1
                            };
                            assert(holds(before, k, b));
                            assert(holds(before, key, at));
                        }
                        if k != key && records_of(before).dom().contains(k) {
                            let b = choose|b: int| holds(before, k, b);
                            let j = if b < at {
                                b
                            } else {
                                b - 1
                            };
                            assert(holds(after, k, j));
                        }
                    }
                    assert forall|k: Seq<char>|
                        records_of(after).dom().contains(k) implies records_of(after)[k]
                        == records_of(before).remove(key)[k] by {
                        let j = choose|j: int| holds(after, k, j);
                        let b = if j < at {
                            j
                        } else {
                            j + 1
                        };
                        assert(holds(before, k, b));
                        lemma_record_at(after, j);
                        lemma_record_at(before, b);
                    }
                    assert(records_of(after) =~= records_of(before).remove(key));
                    assert(holds(before, key, at));
                }
                self.entries = entries;
                self.journal_write(Write::Removal { id: id.to_owned() });
                assert(final(self)@.journal =~= old(self)@.deleted(id@).journal);
                Ok(())
            },
        }
    }

    /// The metadata of every stored conversation that reads back, with its
    /// identifier. Records that do not read back are passed over.
    pub fn list_all(&self) -> (items: Vec<(String, ConversationMetadata)>)
        ensures
            lists(items@, self@.listing()),
    {
        proof {
            use_type_invariant(self);
        }
        let mut items: Vec<(String, ConversationMetadata)> = Vec::new();
        let ghost mut origin: Seq<int> = Seq::empty();
        let mut n: usize = 0;
        while n < self.entries.len()
            invariant
                n <= self.entries.len(),
                origin.len() == items@.len(),
                forall|k: int|
                    0 <= k < origin.len() ==> 0 <= #[trigger] origin[k] < n
                        && self.entries@[origin[k]].id@ == items@[k].0@
                        && self.entries@[origin[k]].record@ is Valid
                        && items@[k].1@ == self.entries@[origin[k]].record@->Valid_0.metadata(),
                forall|k: int, l: int|
                    0 <= k < l < origin.len() ==> #[trigger] origin[k] < #[trigger] origin[l],
                forall|j: int|
                    0 <= j < n && #[trigger] self.entries@[j].record@ is Valid ==> exists|k: int|
                        0 <= k < origin.len() && #[trigger] origin[k] == j,
            decreases self.entries.len() - n,
        {
            match &self.entries[n].record {
                StoredRecord::Valid(c) => {
                    let ghost earlier = origin;
                    items.push((self.entries[n].id.clone(), c.metadata()));
                    proof {
                        origin = origin.push(n as int);
                        assert forall|j: int|
                            0 <= j < n + 1 && #[trigger] self.entries@[j].record@ is Valid
                                implies exists|k: int|
                                0 <= k < origin.len() && #[trigger] origin[k] == j by {
                            if j < n {
                                let k = choose|k: int|
                                    0 <= k < earlier.len() && #[trigger] earlier[k] == j;
                                assert(origin[k] == j);
                            } else {
                                assert(origin[earlier.len() as int] == j);
                            }
                        }
                    }
                },
                _ => {},
            }
            n += 1;
        }
        proof {
            let entries = self.entries@;
            let listing = self@.listing();
            assert forall|k: int| 0 <= k < items@.len() implies listing.dom().contains(
                #[trigger] items@[k].0@,
            ) && listing[items@[k].0@] == items@[k].1@ by {
                lemma_record_at(entries, origin[k]);
            }
            assert forall|id: Seq<char>| listing.dom().contains(id) implies exists|k: int|
                0 <= k < items@.len() && #[trigger] items@[k].0@ == id by {
                let j = choose|j: int| holds(entries, id, j);
                lemma_record_at(entries, j);
                assert(entries[j].record@ is Valid);
                let k = choose|k: int| 0 <= k < origin.len() && #[trigger] origin[k] == j;
                assert(items@[k].0@ == id);
            }
            assert forall|k: int, l: int|
                0 <= k < items@.len() && 0 <= l < items@.len() && k != l
                    implies #[trigger] items@[k].0@ != #[trigger] items@[l].0@ by {
                if k < l {
                    assert(origin[k] < origin[l]);
                } else {
                    assert(origin[l] < origin[k]);
                }
            }
        }
        items
    }

    /// Reads the persisted pointer; `None` where it is unset or was never
    /// written.
    pub fn load_pointer(&self) -> (active: Option<String>)
        ensures
            text_of(active) == self@.pointer,
    {
        match &self.pointer {
            Some(id) => Some(id.clone()),
            None => None,
        }
    }

    /// Sets the persisted pointer and journals the write, also where it
    /// stores "unset".
    pub fn save_pointer(&mut self, active: &Option<String>)
        ensures
            final(self)@ == old(self)@.pointed(text_of(*active)),
    {
        let kept = match active {
            Some(id) => Some(id.clone()),
            None => None,
        };
        let journalled = match active {
            Some(id) => Some(id.clone()),
            None => None,
        };
        proof {
            use_type_invariant(&*self);
        }
        self.pointer = kept;
        self.journal_write(Write::Pointer { active: journalled });
        assert(final(self)@.journal =~= old(self)@.pointed(text_of(*active)).journal);
    }

    /// Hands out the journalled writes, oldest first, and empties the
    /// journal. The snapshot already shows them as carried out.
    pub fn take_writes(&mut self) -> (writes: Vec<Write>)
        ensures
            writes_view(writes@) == old(self)@.journal,
            final(self)@ == (StoreView { journal: Seq::empty(), ..old(self)@ }),
    {
        proof {
            use_type_invariant(&*self);
        }
        let mut writes: Vec<Write> = Vec::new();
        std::mem::swap(&mut self.journal, &mut writes);
        assert(final(self)@.journal =~= Seq::empty());
        writes
    }
}

/// A saved conversation is listed with its metadata, and the rest of the
/// listing stays as it was.
pub proof fn lemma_saved_is_listed(store: StoreView, id: Seq<char>, c: ConversationView)
    ensures
        store.saved(id, c).listing() == store.listing().insert(id, c.metadata()),
{
    assert(store.saved(id, c).listing() =~= store.listing().insert(id, c.metadata()));
}

/// A record that does not read back as a conversation is not listed, and the
/// listing is what it would be without that record: it raises no failure and
/// hides no other conversation.
pub proof fn lemma_unreadable_is_passed_over(store: StoreView, id: Seq<char>)
    requires
        store.contains(id),
        !(store.records[id] is Valid),
    ensures
        !store.listing().dom().contains(id),
        store.listing() == (StoreView { records: store.records.remove(id), ..store }).listing(),
{
    let without = StoreView { records: store.records.remove(id), ..store };
    assert(store.listing() =~= without.listing());
}

} // verus!
