//! The endpoint and the request that is sent to it.

use vstd::prelude::*;
use vstd::string::StringExecFns;
use crate::context::{Context, ContextView};
use crate::prompt::{Prompt, PromptView};
use crate::text::{decimal, join, text_views, to_decimal};

verus! {

/// One message of a chat.
#[derive(Debug, Clone, PartialEq, Eq)]
pub struct Message {
    /// Who speaks: `system` or `user`.
    pub role: String,
    /// What is said.
    pub content: String,
}

/// The mathematical value of a [`Message`].
pub struct MessageView {
    pub role: Seq<char>,
    pub content: Seq<char>,
}

impl View for Message {
    type V = MessageView;

    open spec fn view(&self) -> MessageView {
        MessageView { role: self.role@, content: self.content@ }
    }
}

/// The values of a sequence of messages, in order.
pub open spec fn message_views(messages: Seq<Message>) -> Seq<MessageView> {
    messages.map_values(|m: Message| m@)
}

/// The message with which the user hands over one block of context.
pub open spec fn context_message(content: Seq<char>) -> MessageView {
    MessageView { role: "user"@, content }
}

/// The messages with which the user hands over the blocks of context.
pub open spec fn context_messages(blocks: Seq<Seq<char>>) -> Seq<MessageView> {
    blocks.map_values(|c: Seq<char>| context_message(c))
}

/// What is sent to the endpoint.
#[derive(Debug, Clone, PartialEq, Eq)]
pub struct Request {
    /// The model that is to answer.
    pub model: String,
    /// The context, block by block, and then the prompt.
    pub messages: Vec<Message>,
    /// Whether the answer is to come in chunks.
    pub stream: bool,
}

/// The mathematical value of a [`Request`].
pub struct RequestView {
    pub model: Seq<char>,
    pub messages: Seq<MessageView>,
    pub stream: bool,
}

impl View for Request {
    type V = RequestView;

    open spec fn view(&self) -> RequestView {
        RequestView {
            model: self.model@,
            messages: message_views(self.messages@),
            stream: self.stream,
        }
    }
}

/// The value of the outcome of building a request.
pub open spec fn request_view(outcome: Result<Request, String>) -> Result<RequestView, Seq<char>> {
    match outcome {
        Ok(request) => Ok(request@),
        Err(message) => Err(message@),
    }
}

/// The request that puts `prompt` to its model with `context`: each block
/// of the context is a message of the user, and the messages of the prompt
/// follow. A prompt without a model cannot be sent.
pub open spec fn request_for(prompt: PromptView, context: ContextView, stream: bool) -> Result<
    RequestView,
    Seq<char>,
> {
    match prompt.model {
        Some(model) => Ok(
            RequestView {
                model,
                messages: context_messages(context.messages()) + prompt.messages(),
                stream,
            },
        ),
        None => Err("no model specified"@),
    }
}

impl Request {
    /// Builds the request that puts `prompt` to its model with `context`.
    pub fn new(prompt: &Prompt, context: &Context, stream: bool) -> (outcome: Result<
        Request,
        String,
    >)
        ensures
            request_view(outcome) == request_for(prompt@, context@, stream),
    {
        let model = match &prompt.model {
            Some(model) => model.clone(),
            None => {
                return Err("no model specified".to_owned());
            },
        };
        let blocks = context.as_messages();
        let ghost wanted = context_messages(context@.messages());
        let mut messages: Vec<Message> = Vec::new();
        let mut i: usize = 0;
        while i < blocks.len()
            invariant
                i <= blocks.len(),
                text_views(blocks@) == context@.messages(),
                wanted == context_messages(context@.messages()),
                message_views(messages@) == wanted.take(i as int),
            decreases blocks.len() - i,
        {
            let ghost before = message_views(messages@);
            messages.push(Message { role: "user".to_owned(), content: blocks[i].clone() });
            assert(message_views(messages@) =~= before.push(wanted[i as int]));
            assert(wanted.take(i + 1) =~= wanted.take(i as int).push(wanted[i as int]));
            i += 1;
        }
        assert(wanted.take(blocks.len() as int) =~= wanted);
        let mut tail = prompt.as_messages();
        let ghost head = message_views(messages@);
        messages.append(&mut tail);
        assert(message_views(messages@) =~= head + prompt@.messages());
        Ok(Request { model, messages, stream })
    }
}

/// Where the endpoint is, and the key that opens it.
#[derive(Debug, Clone, PartialEq, Eq)]
pub struct Server {
    pub host: String,
    pub port: u16,
    pub api_key: String,
}

/// The mathematical value of a [`Server`].
pub struct ServerView {
    pub host: Seq<char>,
    pub port: u16,
    pub api_key: Seq<char>,
}

impl View for Server {
    type V = ServerView;

    open spec fn view(&self) -> ServerView {
        ServerView { host: self.host@, port: self.port, api_key: self.api_key@ }
    }
}

impl ServerView {
    /// The address of the chat-completion endpoint.
    pub open spec fn uri(self) -> Seq<char> {
        "http://"@ + self.host + ":"@ + decimal(self.port as nat) + "/api/chat/completions"@
    }

    /// The value of the header that authorizes a request.
    pub open spec fn authorization(self) -> Seq<char> {
        "Bearer "@ + self.api_key
    }
}

impl Server {
    /// The address of the chat-completion endpoint.
    pub fn uri(&self) -> (r: String)
        ensures
            r@ == self@.uri(),
    {
        let mut uri = join("http://", self.host.as_str());
        uri.append(":");
        uri.append(to_decimal(self.port as u64).as_str());
        uri.append("/api/chat/completions");
        uri
    }

    /// The value of the header that authorizes a request.
    pub fn authorization(&self) -> (r: String)
        ensures
            r@ == self@.authorization(),
    {
        join("Bearer ", self.api_key.as_str())
    }
}

} // verus!
