//! A single prompt sent without a conversation: the text of the request.

use crate::chat::{RemoteOutcome, RemoteOutcomeView};
use crate::config::ClientConfig;
use crate::endpoint::{completion_endpoint, endpoint_of};
use crate::error::{outcome_view, ChatError, ChatErrorView};
use crate::text::{decimal, decimal_text, push_char};
use vstd::prelude::*;

verus! {

/// How one character of a prompt stands inside a quoted text: a quotation
/// mark and a line feed are written with a backslash, any other character as
/// it is.
pub open spec fn escaped_char(c: char) -> Seq<char> {
    if c == '"' {
        seq!['\\', '"']
    } else if c == '\n' {
        seq!['\\', 'n']
    } else {
        seq![c]
    }
}

/// How a prompt stands inside a quoted text.
pub open spec fn escaped(s: Seq<char>) -> Seq<char>
    decreases s.len(),
{
    if s.len() == 0 {
        Seq::empty()
    } else {
        escaped(s.drop_last()) + escaped_char(s.last())
    }
}

/// The body of the request for a single prompt. The temperature is given as
/// the text that stands for it, and left out where none is given.
pub open spec fn body_text(
    model: Seq<char>,
    input: Seq<char>,
    max_tokens: nat,
    temperature: Option<Seq<char>>,
) -> Seq<char> {
    let head = "{\n            \"model\": \""@ + model
        + "\",\n            \"messages\": [\n                {\n                    \"role\": \"user\",\n                    \"content\": \""@
        + escaped(input) + "\"\n                }\n            ],\n            \"max_tokens\": "@
        + decimal_text(max_tokens);
    match temperature {
        Some(t) => head + ",\n            \"temperature\": "@ + t + "\n        }"@,
        None => head + "\n        }"@,
    }
}

/// A prompt as it stands inside a quoted text.
pub fn escape(input: &str) -> (out: String)
    ensures
        out@ == escaped(input@),
{
    let mut out = String::new();
    assert(input@.subrange(0, 0) =~= Seq::<char>::empty());
    for c in it: input.chars()
        invariant
            it.seq() == input@,
            out@ == escaped(input@.subrange(0, it.index() as int)),
    {
        proof {
            reveal_strlit("\\\"");
            reveal_strlit("\\n");
            let next = input@.subrange(0, it.index() as int + 1);
            assert(next.drop_last() =~= input@.subrange(0, it.index() as int));
            assert(next.last() == c);
        }
        if c == '"' {
            out.append("\\\"");
            assert("\\\""@ =~= escaped_char(c));
        } else if c == '\n' {
            out.append("\\n");
            assert("\\n"@ =~= escaped_char(c));
        } else {
            let ghost before = out@;
            push_char(&mut out, c);
            assert(out@ =~= before + escaped_char(c));
        }
    }
    assert(input@.subrange(0, input@.len() as int) =~= input@);
    out
}

/// The body of the request for a single prompt.
pub fn prompt_body(model: &str, input: &str, max_tokens: u32, temperature: Option<&str>) -> (body:
    String)
    ensures
        body@ == body_text(model@, input@, max_tokens as nat, crate::text::name_of(temperature)),
{
    let mut body = "{\n            \"model\": \"".to_owned();
    body.append(model);
    body.append(
        "\",\n            \"messages\": [\n                {\n                    \"role\": \"user\",\n                    \"content\": \"",
    );
    body.append(escape(input).as_str());
    body.append("\"\n                }\n            ],\n            \"max_tokens\": ");
    body.append(decimal(max_tokens).as_str());
    match temperature {
        Some(t) => {
            body.append(",\n            \"temperature\": ");
            body.append(t);
            body.append("\n        }");
        },
        None => {
            body.append("\n        }");
        },
    }
    body
}

/// What is sent for a single prompt: where to, under which key, and the body
/// as text.
#[derive(Clone, Debug, PartialEq, Eq)]
pub struct PromptRequest {
    pub url: String,
    pub api_key: String,
    pub body: String,
}

/// [`PromptRequest`] as a mathematical value.
pub struct PromptRequestView {
    pub url: Seq<char>,
    pub api_key: Seq<char>,
    pub body: Seq<char>,
}

impl View for PromptRequest {
    type V = PromptRequestView;

    open spec fn view(&self) -> PromptRequestView {
        PromptRequestView { url: self.url@, api_key: self.api_key@, body: self.body@ }
    }
}

/// The request that carries the prompt `input` to provider `client`, with the
/// provider's temperature written as `temperature`.
pub fn prompt_request(client: &ClientConfig, input: &str, temperature: &str) -> (request:
    PromptRequest)
    ensures
        request@ == (PromptRequestView {
            url: endpoint_of(client@.api_url),
            api_key: client@.api_key,
            body: body_text(
                client@.model,
                input@,
                client@.max_tokens as nat,
                Some(temperature@),
            ),
        }),
{
    PromptRequest {
        url: completion_endpoint(client.api_url.as_str()),
        api_key: client.api_key.clone(),
        body: prompt_body(client.model.as_str(), input, client.max_tokens, Some(temperature)),
    }
}

/// What a single prompt gives back: the body of the answer as it came, or
/// why none came.
pub open spec fn answer_of(outcome: RemoteOutcomeView) -> Result<Seq<char>, ChatErrorView> {
    match outcome {
        RemoteOutcomeView::Answered { body } => Ok(body),
        RemoteOutcomeView::Refused { status, body } => Err(
            ChatErrorView::RemoteCallError { status: Some(status), detail: body },
        ),
        RemoteOutcomeView::Failed { message } => Err(
            ChatErrorView::RemoteCallError { status: None, detail: message },
        ),
    }
}

/// The body of the answer to a single prompt, unread.
pub fn read_answer(outcome: RemoteOutcome) -> (r: Result<String, ChatError>)
    ensures
        outcome_view(r) == answer_of(outcome@),
{
    match outcome {
        RemoteOutcome::Answered { body } => Ok(body),
        RemoteOutcome::Refused { status, body } => Err(
            ChatError::RemoteCallError { status: Some(status), detail: body },
        ),
        RemoteOutcome::Failed { message } => Err(
            ChatError::RemoteCallError { status: None, detail: message },
        ),
    }
}

} // verus!
