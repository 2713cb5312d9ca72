//! The conversation as it goes over the wire: the request that carries it and
//! the response that answers it.

use crate::config::{Config, ConfigView};
use vstd::prelude::*;
use vstd::string::StringExecFns;

verus! {

/// Where every request goes.
pub const ENDPOINT: &'static str = "https://api.openai.com/v1/chat/completions";

/// The name of the header field that carries the credential.
pub const AUTHORIZATION: &'static str = "authorization";

/// The name of the header field that says how the request is encoded.
pub const CONTENT_TYPE: &'static str = "content-type";

/// The name of the header field that says how the response is to be encoded.
pub const ACCEPT: &'static str = "accept";

/// What the credential is prefixed with.
pub const BEARER: &'static str = "Bearer ";

/// The encoding of request and response.
pub const JSON: &'static str = "application/json";

/// The role of the message that sets the persona.
pub const SYSTEM: &'static str = "system";

/// The role of the messages that carry the user's texts.
pub const USER: &'static str = "user";

/// One message of a conversation.
#[derive(Debug, PartialEq, Eq)]
pub struct Message {
    /// Who speaks
    pub role: String,
    /// What is said
    pub content: String,
}

/// [`Message`] as plain mathematical values.
pub ghost struct MessageView {
    pub role: Seq<char>,
    pub content: Seq<char>,
}

impl View for Message {
    type V = MessageView;

    open spec fn view(&self) -> MessageView {
        MessageView { role: self.role@, content: self.content@ }
    }
}

impl DeepView for Message {
    type V = MessageView;

    open spec fn deep_view(&self) -> MessageView {
        self@
    }
}

/// The body of a request.
#[derive(Debug, PartialEq, Eq)]
pub struct Input {
    /// The model's identifier
    pub model: String,
    /// Model temperature, as the bits of an IEEE 754 single
    pub temperature: u32,
    /// Random seed value
    pub seed: i32,
    /// The conversation so far
    pub messages: Vec<Message>,
}

/// [`Input`] as plain mathematical values.
pub ghost struct InputView {
    pub model: Seq<char>,
    pub temperature: u32,
    pub seed: i32,
    pub messages: Seq<MessageView>,
}

impl View for Input {
    type V = InputView;

    open spec fn view(&self) -> InputView {
        InputView {
            model: self.model@,
            temperature: self.temperature,
            seed: self.seed,
            messages: self.messages.deep_view(),
        }
    }
}

/// A request: its body and the credential it is sent with.
#[derive(PartialEq, Eq)]
pub struct Request {
    /// The credential
    pub auth: String,
    /// The body
    pub input: Input,
}

/// [`Request`] as plain mathematical values.
pub ghost struct RequestView {
    pub auth: Seq<char>,
    pub input: InputView,
}

impl View for Request {
    type V = RequestView;

    open spec fn view(&self) -> RequestView {
        RequestView { auth: self.auth@, input: self.input@ }
    }
}

/// The message that sets the persona.
pub open spec fn system(content: Seq<char>) -> MessageView {
    MessageView { role: SYSTEM@, content }
}

/// A message that carries one of the user's texts.
pub open spec fn user(content: Seq<char>) -> MessageView {
    MessageView { role: USER@, content }
}

/// Zero or one user message.
pub open spec fn optional(text: Option<Seq<char>>) -> Seq<MessageView> {
    match text {
        Some(content) => seq![user(content)],
        None => Seq::empty(),
    }
}

/// The conversation a configuration opens: the persona, then the context if
/// there is one, then the prompt if there is one.
pub open spec fn conversation(config: ConfigView) -> Seq<MessageView> {
    seq![system(config.persona)] + optional(config.context) + optional(config.prompt)
}

/// A conversation has one to three messages. The persona's comes first and
/// is the only one in the system's name; the context, if there is one, comes
/// before the prompt, if there is one, and nothing else is in it.
pub proof fn conversation_is_ordered(config: ConfigView)
    ensures
        conversation(config).len() == 1 + (if config.context is Some {
            1int
        } else {
            0
        }) + (if config.prompt is Some {
            1int
        } else {
            0
        }),
        1 <= conversation(config).len() <= 3,
        conversation(config)[0] == system(config.persona),
        forall|i: int|
            0 < i < conversation(config).len() ==> (#[trigger] conversation(config)[i]).role
                == USER@,
        SYSTEM@ != USER@,
        config.context matches Some(text) ==> conversation(config)[1] == user(text),
        config.prompt matches Some(text) ==> conversation(config).last() == user(text),
{
    reveal_strlit("system");
    reveal_strlit("user");
    assert(SYSTEM@.len() != USER@.len());
}

/// The request a configuration makes.
pub open spec fn request_of(config: ConfigView) -> RequestView {
    RequestView {
        auth: config.auth,
        input: InputView {
            model: config.model,
            temperature: config.temperature,
            seed: config.seed,
            messages: conversation(config),
        },
    }
}

/// The header fields a request is sent with, as name and value.
pub open spec fn header_fields(auth: Seq<char>) -> Seq<(Seq<char>, Seq<char>)> {
    seq![(AUTHORIZATION@, BEARER@ + auth), (CONTENT_TYPE@, JSON@), (ACCEPT@, JSON@)]
}

impl Request {
    /// Builds the request of a configuration. The conversation opens with the
    /// persona; the context, if any, goes before the prompt, if any.
    pub fn new(config: Config) -> (request: Request)
        ensures
            request@ == request_of(config@),
            request.input.messages@.len() == conversation(config@).len(),
            forall|i: int|
                0 <= i < request.input.messages@.len() ==> (#[trigger] request.input.messages@[i])@
                    == conversation(config@)[i],
    {
        let mut messages = vec![Message { role: SYSTEM.to_owned(), content: config.persona }];

        if let Some(context) = config.context {
            messages.push(Message { role: USER.to_owned(), content: context });
        }

        if let Some(prompt) = config.prompt {
            messages.push(Message { role: USER.to_owned(), content: prompt });
        }
        assert(messages.deep_view() == conversation(config@));

        Request {
            auth: config.auth,
            input: Input {
                model: config.model,
                temperature: config.temperature,
                seed: config.seed,
                messages,
            },
        }
    }

    /// The header fields to send the request with: the credential as a bearer
    /// token, and JSON as the encoding both ways.
    pub fn headers(&self) -> (fields: Vec<(String, String)>)
        ensures
            fields.deep_view() == header_fields(self.auth@),
            fields@.len() == 3,
    {
        vec![
            (AUTHORIZATION.to_owned(), String::from_str(BEARER).concat(self.auth.as_str())),
            (CONTENT_TYPE.to_owned(), JSON.to_owned()),
            (ACCEPT.to_owned(), JSON.to_owned()),
        ]
    }
}

/// How many tokens an exchange took.
#[derive(Debug, Clone, Copy, PartialEq, Eq)]
pub struct Usage {
    pub prompt_tokens: i64,
    pub completion_tokens: i64,
    pub total_tokens: i64,
}

/// One of the answers the service offers.
#[derive(Debug, PartialEq, Eq)]
pub struct Choice {
    /// The answer
    pub message: Message,
    /// Why the answer ends where it does
    pub finish_reason: String,
    /// The answer's place among the choices
    pub index: i64,
}

/// The body of a successful response. Only the first choice's content is
/// ever shown; the rest is kept as it came.
#[derive(Debug, PartialEq, Eq)]
pub struct Output {
    pub id: String,
    pub object: String,
    pub created: i64,
    pub model: String,
    pub usage: Usage,
    pub choices: Vec<Choice>,
}

impl Output {
    /// What the first choice says.
    pub open spec fn first_content(&self) -> Seq<char> {
        self.choices[0].message.content@
    }

    /// The completion: what the first choice says, if there is a choice.
    pub fn completion(&self) -> (text: Option<&String>)
        ensures
            text is Some <==> self.choices@.len() > 0,
            text matches Some(content) ==> *content == self.choices[0].message.content
                && content@ == self.first_content(),
    {
        if self.choices.len() > 0 {
            Some(&self.choices[0].message.content)
        } else {
            None
        }
    }
}

} // verus!
