//! The ways in which an operation fails.

use crate::text::{decimal, decimal_text};
use vstd::prelude::*;

verus! {

/// Why an operation did not succeed.
#[derive(Clone, Debug, PartialEq, Eq)]
pub enum ChatError {
    /// No conversation is stored under the identifier.
    NotFound { id: String },
    /// What is stored under the identifier does not read back as a
    /// conversation.
    CorruptRecord { id: String },
    /// What is stored under the identifier could not be read at all.
    StorageError { id: String },
    /// The configuration names no provider of that name.
    ConfigError { provider: String },
    /// The completion endpoint answered with a status outside the 2xx range
    /// (`status` holds it, `detail` the body of the answer), or the exchange
    /// itself failed (`status` is `None`, `detail` the transport's message).
    RemoteCallError { status: Option<u16>, detail: String },
    /// The endpoint's answer holds no reply text where one is expected.
    MalformedResponse,
}

/// [`ChatError`] as a mathematical value.
pub enum ChatErrorView {
    NotFound { id: Seq<char> },
    CorruptRecord { id: Seq<char> },
    StorageError { id: Seq<char> },
    ConfigError { provider: Seq<char> },
    RemoteCallError { status: Option<u16>, detail: Seq<char> },
    MalformedResponse,
}

impl View for ChatError {
    type V = ChatErrorView;

    open spec fn view(&self) -> ChatErrorView {
        match self {
            ChatError::NotFound { id } => ChatErrorView::NotFound { id: id@ },
            ChatError::CorruptRecord { id } => ChatErrorView::CorruptRecord { id: id@ },
            ChatError::StorageError { id } => ChatErrorView::StorageError { id: id@ },
            ChatError::ConfigError { provider } => ChatErrorView::ConfigError {
                provider: provider@,
            },
            ChatError::RemoteCallError { status, detail } => ChatErrorView::RemoteCallError {
                status: *status,
                detail: detail@,
            },
            ChatError::MalformedResponse => ChatErrorView::MalformedResponse,
        }
    }
}

/// The outcome of an operation as a mathematical value.
pub open spec fn outcome_view<T: View>(r: Result<T, ChatError>) -> Result<T::V, ChatErrorView> {
    match r {
        Ok(t) => Ok(t@),
        Err(e) => Err(e@),
    }
}

/// The sentence that tells a user of a failure.
pub open spec fn message_text(e: ChatErrorView) -> Seq<char> {
    match e {
        ChatErrorView::NotFound { id } => "Conversation with ID "@ + id + " does not exist"@,
        ChatErrorView::CorruptRecord { id } => "Failed to parse conversation file: "@ + id,
        ChatErrorView::StorageError { id } => "Failed to read conversation file: "@ + id,
        ChatErrorView::ConfigError { provider } => "Client configuration not found for '"@
            + provider + "'"@,
        ChatErrorView::RemoteCallError { status: Some(code), detail } =>
            "API request failed with status "@ + decimal_text(code as nat) + ": "@ + detail,
        ChatErrorView::RemoteCallError { status: None, detail } =>
            "Network error while making API request: "@ + detail,
        ChatErrorView::MalformedResponse => "Could not find message content in API response"@,
    }
}

/// The failure is one that a look at the configuration may mend: a provider
/// that is not configured, or an exchange with the endpoint that failed.
pub open spec fn calls_for_setup(e: ChatErrorView) -> bool {
    e is ConfigError || e is RemoteCallError
}

impl ChatError {
    /// Whether the user is to be pointed to the configuration.
    pub fn suggests_setup(&self) -> (b: bool)
        ensures
            b == calls_for_setup(self@),
    {
        match self {
            ChatError::ConfigError { .. } => true,
            ChatError::RemoteCallError { .. } => true,
            _ => false,
        }
    }

    /// The sentence that tells a user of the failure. A refusal by the
    /// endpoint is told with its status and the body of the answer, a failed
    /// transport with the transport's own message.
    pub fn message(&self) -> (text: String)
        ensures
            text@ == message_text(self@),
    {
        match self {
            ChatError::NotFound { id } => {
                let mut text = "Conversation with ID ".to_owned();
                text.append(id.as_str());
                text.append(" does not exist");
                text
            },
            ChatError::CorruptRecord { id } => {
                let mut text = "Failed to parse conversation file: ".to_owned();
                text.append(id.as_str());
                text
            },
            ChatError::StorageError { id } => {
                let mut text = "Failed to read conversation file: ".to_owned();
                text.append(id.as_str());
                text
            },
            ChatError::ConfigError { provider } => {
                let mut text = "Client configuration not found for '".to_owned();
                text.append(provider.as_str());
                text.append("'");
                text
            },
            ChatError::RemoteCallError { status: Some(code), detail } => {
                let mut text = "API request failed with status ".to_owned();
                let wide: u32 = *code as u32;
                text.append(decimal(wide).as_str());
                text.append(": ");
                text.append(detail.as_str());
                text
            },
            ChatError::RemoteCallError { status: None, detail } => {
                let mut text = "Network error while making API request: ".to_owned();
                text.append(detail.as_str());
                text
            },
            ChatError::MalformedResponse => {
                "Could not find message content in API response".to_owned()
            },
        }
    }
}

} // verus!
