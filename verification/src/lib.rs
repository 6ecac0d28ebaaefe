//! Conversation history for a command-line chat client.
//!
//! The crate keeps the lifecycle of persisted conversations, the pointer to the
//! active one and the exchange with a chat-completion endpoint as verified
//! logic over plain values. Reading and writing files and talking to the
//! network are left to the caller, who hands in a snapshot of what is persisted
//! and carries out the writes that the journal lists.

pub mod chat;
pub mod cli;
pub mod config;
pub mod endpoint;
pub mod error;
pub mod history;
pub mod identifier;
pub mod json;
pub mod layout;
pub mod model;
pub mod prompt;
pub mod store;
pub mod text;
pub mod time;

use vstd::prelude::*;

verus! {

/// The text of the release number.
pub open spec fn version_text() -> Seq<char> {
    "0.1.0"@
}

/// Release number of the library.
pub fn version() -> (v: &'static str)
    ensures
        v@ == version_text(),
        v@.len() > 0,
{
    proof {
        reveal_strlit("0.1.0");
    }
    "0.1.0"
}

/// The release number and the build line, one below the other.
pub open spec fn build_info_text() -> Seq<char> {
    "Version: "@ + version_text() + "\nBuild date: "@ + version_text()
}

/// Release and build of the library, for display.
pub fn build_info() -> (info: String)
    ensures
        info@ == build_info_text(),
{
    let mut info = "Version: ".to_owned();
    info.append(version());
    info.append("\nBuild date: ");
    info.append(version());
    info
}

/// Prepares the library for use. There is nothing to prepare, so this always
/// succeeds.
pub fn init() -> (r: Result<(), error::ChatError>)
    ensures
        r is Ok,
{
    Ok(())
}

} // verus!
