//! The names under which the persisted state lies below the configuration
//! root.

use crate::error::{ChatError, ChatErrorView};
use crate::text::{ends_with, is_suffix, text_of};
use vstd::prelude::*;

verus! {

/// What the name of a record's file ends with.
pub open spec fn record_suffix() -> Seq<char> {
    ".json"@
}

/// The name of the file that holds the record stored under `id`.
pub open spec fn record_file_of(id: Seq<char>) -> Seq<char> {
    id + record_suffix()
}

/// The identifier whose record a file named `name` holds: the name without
/// the record suffix, where something is left of it; no identifier for any
/// other name.
pub open spec fn record_id_of(name: Seq<char>) -> Option<Seq<char>> {
    if is_suffix(record_suffix(), name) && name.len() > record_suffix().len() {
        Some(name.subrange(0, name.len() - record_suffix().len()))
    } else {
        None
    }
}

/// The directory of the configuration root, below the user's home.
pub fn root_dir_name() -> (name: &'static str)
    ensures
        name@ == ".sharpi"@,
{
    ".sharpi"
}

/// The configuration file, below the root.
pub fn config_file_name() -> (name: &'static str)
    ensures
        name@ == "config.toml"@,
{
    "config.toml"
}

/// The directory of the records, below the root.
pub fn records_dir_name() -> (name: &'static str)
    ensures
        name@ == "conversations"@,
{
    "conversations"
}

/// The file of the pointer to the active conversation, below the root.
pub fn pointer_file_name() -> (name: &'static str)
    ensures
        name@ == "active_conversation.json"@,
{
    "active_conversation.json"
}

/// The name of the file that holds the record stored under `id`.
pub fn record_file_name(id: &str) -> (name: String)
    ensures
        name@ == record_file_of(id@),
{
    let mut name = id.to_owned();
    name.append(".json");
    name
}

/// The identifier whose record the file named `name` holds, if it is the
/// file of a record.
pub fn record_id(name: &str) -> (id: Option<String>)
    ensures
        text_of(id) == record_id_of(name@),
{
    proof {
        reveal_strlit(".json");
    }
    let length = name.unicode_len();
    if length > 5 && ends_with(name, ".json") {
        Some(name.substring_char(0, length - 5).to_owned())
    } else {
        None
    }
}

/// A record's file is found again under the identifier it was named for,
/// whenever the identifier is not empty.
pub proof fn lemma_record_file_names_its_record(id: Seq<char>)
    requires
        id.len() > 0,
    ensures
        record_id_of(record_file_of(id)) == Some(id),
{
    let name = record_file_of(id);
    let cut = name.len() - record_suffix().len();
    assert(name.subrange(cut, name.len() as int) =~= record_suffix());
    assert(name.subrange(0, cut) =~= id);
}

/// Two identifiers never share a file.
pub proof fn lemma_record_files_differ(a: Seq<char>, b: Seq<char>)
    requires
        a != b,
    ensures
        record_file_of(a) != record_file_of(b),
{
    if record_file_of(a) == record_file_of(b) {
        assert(record_file_of(a).len() == a.len() + record_suffix().len());
        assert(record_file_of(b).len() == b.len() + record_suffix().len());
        assert(a.len() == b.len());
        assert forall|i: int| 0 <= i < a.len() implies a[i] == b[i] by {
            assert(record_file_of(a)[i] == a[i]);
            assert(record_file_of(b)[i] == b[i]);
        }
        assert(a =~= b);
    }
}

/// The text that the pointer's file holds for a pointer: what
/// `serde_json::to_string_pretty` writes for an optional string.
pub uninterp spec fn pointer_text(active: Option<Seq<char>>) -> Seq<char>;

/// The pointer that a text holds: what `serde_json::from_str` reads from it
/// as an optional string, or nothing where it rejects the text.
pub uninterp spec fn pointer_in(text: Seq<char>) -> Option<Option<Seq<char>>>;

/// `serde_json::to_string_pretty` on an optional string. The result depends
/// on the pointer alone. The call fails only where the value's own
/// serialization fails or a map has keys that are no strings; an optional
/// string does neither, so it succeeds.
#[verifier::external_body]
fn write_pointer(active: &Option<String>) -> (r: Result<String, serde_json::Error>)
    ensures
        r is Ok,
        r matches Ok(text) ==> text@ == pointer_text(text_of(*active)),
{
    serde_json::to_string_pretty(active)
}

/// `serde_json::from_str` at the type of an optional string. The result
/// depends on the text alone.
#[verifier::external_body]
fn read_pointer(text: &str) -> (r: Result<Option<String>, serde_json::Error>)
    ensures
        match r {
            Ok(active) => pointer_in(text@) == Some(text_of(active)),
            Err(_) => pointer_in(text@) is None,
        },
{
    serde_json::from_str::<Option<String>>(text)
}

/// The text to write into the pointer's file for `active`.
pub fn pointer_to_text(active: &Option<String>) -> (text: String)
    ensures
        text@ == pointer_text(text_of(*active)),
{
    match write_pointer(active) {
        Ok(text) => text,
        Err(_) => vstd::pervasive::unreached(),
    }
}

/// What reading the pointer's file gives, by the text that the file holds: a
/// text that holds no pointer is a corrupt record under the file's name.
pub open spec fn pointer_read(text: Seq<char>) -> Result<Option<Seq<char>>, ChatErrorView> {
    match pointer_in(text) {
        Some(active) => Ok(active),
        None => Err(ChatErrorView::CorruptRecord { id: "active_conversation.json"@ }),
    }
}

/// The pointer that the pointer's file holds, given the file's text.
pub fn pointer_from_text(text: &str) -> (r: Result<Option<String>, ChatError>)
    ensures
        match r {
            Ok(active) => pointer_read(text@) == Ok::<Option<Seq<char>>, ChatErrorView>(
                text_of(active),
            ),
            Err(e) => pointer_read(text@) == Err::<Option<Seq<char>>, ChatErrorView>(e@),
        },
{
    match read_pointer(text) {
        Ok(active) => Ok(active),
        Err(_) => Err(ChatError::CorruptRecord { id: pointer_file_name().to_owned() }),
    }
}

} // verus!
