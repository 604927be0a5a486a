//! What goes to the chat service and what comes back, as plain values.

use vstd::prelude::*;
use vstd::string::StringExecFns;

verus! {

/// Who speaks in a message.
#[derive(Clone, Copy, Debug, PartialEq, Eq, Structural)]
pub enum Role {
    System,
    User,
    Assistant,
}

/// The language model that answers a request.
#[derive(Clone, Copy, Debug, PartialEq, Eq, Structural)]
pub enum Model {
    Gpt4,
    Gpt4Turbo,
}

/// One message of a conversation.
#[derive(Debug)]
pub struct Message {
    pub role: Role,
    pub content: String,
}

/// A `Message` as plain values.
pub struct MessageView {
    pub role: Role,
    pub content: Seq<char>,
}

impl View for Message {
    type V = MessageView;

    open spec fn view(&self) -> MessageView {
        MessageView { role: self.role, content: self.content@ }
    }
}

impl DeepView for Message {
    type V = MessageView;

    open spec fn deep_view(&self) -> MessageView {
        self@
    }
}

impl Clone for Message {
    fn clone(&self) -> (r: Message)
        ensures
            r@ == self@,
    {
        Message { role: self.role, content: self.content.clone() }
    }
}

/// A request for one completion: the model and the messages in the order of
/// the conversation. Every other parameter is left at the service's default.
#[derive(Debug)]
pub struct ChatRequest {
    pub model: Model,
    pub messages: Vec<Message>,
}

/// A `ChatRequest` as plain values.
pub struct ChatRequestView {
    pub model: Model,
    pub messages: Seq<MessageView>,
}

impl View for ChatRequest {
    type V = ChatRequestView;

    open spec fn view(&self) -> ChatRequestView {
        ChatRequestView { model: self.model, messages: self.messages.deep_view() }
    }
}

/// How a call of the chat service ended.
#[derive(Debug)]
pub enum RemoteOutcome {
    /// The service answered; the contents of the choices it gave, in order.
    Choices(Vec<String>),
    /// The call failed, and why.
    Failed(String),
}

/// A `RemoteOutcome` as plain values.
pub enum RemoteOutcomeView {
    Choices(Seq<Seq<char>>),
    Failed(Seq<char>),
}

impl View for RemoteOutcome {
    type V = RemoteOutcomeView;

    open spec fn view(&self) -> RemoteOutcomeView {
        match self {
            RemoteOutcome::Choices(choices) => RemoteOutcomeView::Choices(choices.deep_view()),
            RemoteOutcome::Failed(reason) => RemoteOutcomeView::Failed(reason@),
        }
    }
}

/// Why a call of the chat service gave no completion.
#[derive(Debug)]
pub enum RemoteError {
    /// The call itself failed: no connection, or the service refused.
    CallFailed(String),
    /// The service answered without a single choice.
    NoChoice,
}

/// A `RemoteError` as plain values.
pub enum RemoteErrorView {
    CallFailed(Seq<char>),
    NoChoice,
}

impl View for RemoteError {
    type V = RemoteErrorView;

    open spec fn view(&self) -> RemoteErrorView {
        match self {
            RemoteError::CallFailed(reason) => RemoteErrorView::CallFailed(reason@),
            RemoteError::NoChoice => RemoteErrorView::NoChoice,
        }
    }
}

/// The error in words.
pub open spec fn remote_error_text(e: RemoteErrorView) -> Seq<char> {
    match e {
        RemoteErrorView::CallFailed(reason) => reason,
        RemoteErrorView::NoChoice => "the chat service answered without a choice"@,
    }
}

impl RemoteError {
    /// The error in words: the reason of a failed call as it came, or that
    /// the answer held no choice.
    pub fn message(&self) -> (r: String)
        ensures
            r@ == remote_error_text(self@),
    {
        match self {
            RemoteError::CallFailed(reason) => reason.clone(),
            RemoteError::NoChoice => String::from_str("the chat service answered without a choice"),
        }
    }
}

impl Clone for RemoteError {
    fn clone(&self) -> (r: RemoteError)
        ensures
            r@ == self@,
    {
        match self {
            RemoteError::CallFailed(reason) => RemoteError::CallFailed(reason.clone()),
            RemoteError::NoChoice => RemoteError::NoChoice,
        }
    }
}

/// The completion that an outcome holds: the content of its first choice.
pub open spec fn completion_of(outcome: RemoteOutcomeView) -> Result<Seq<char>, RemoteErrorView> {
    match outcome {
        RemoteOutcomeView::Choices(choices) => if choices.len() > 0 {
            Ok(choices[0])
        } else {
            Err(RemoteErrorView::NoChoice)
        },
        RemoteOutcomeView::Failed(reason) => Err(RemoteErrorView::CallFailed(reason)),
    }
}

/// The view of a completion or of the error in its place.
pub open spec fn completion_view(r: Result<String, RemoteError>) -> Result<
    Seq<char>,
    RemoteErrorView,
> {
    match r {
        Ok(text) => Ok(text@),
        Err(e) => Err(e@),
    }
}

/// The completion of a call: the content of the first choice. Only that one
/// is read. A failed call gives `CallFailed` with the reason, and an answer
/// without choices gives `NoChoice`.
pub fn first_choice(outcome: RemoteOutcome) -> (r: Result<String, RemoteError>)
    ensures
        completion_view(r) == completion_of(outcome@),
{
    match outcome {
        RemoteOutcome::Choices(mut choices) => {
            if choices.len() > 0 {
                Ok(choices.swap_remove(0))
            } else {
                Err(RemoteError::NoChoice)
            }
        },
        RemoteOutcome::Failed(reason) => Err(RemoteError::CallFailed(reason)),
    }
}

/// The messages of `messages`, copied.
pub fn clone_messages(messages: &Vec<Message>) -> (r: Vec<Message>)
    ensures
        r.deep_view() == messages.deep_view(),
{
    let mut r: Vec<Message> = Vec::new();
    let mut i: usize = 0;
    while i < messages.len()
        invariant
            i <= messages.len(),
            r.deep_view() == messages.deep_view().take(i as int),
        decreases messages.len() - i,
    {
        let ghost before = r.deep_view();
        r.push(messages[i].clone());
        assert(r.deep_view() =~= before.push(messages@[i as int]@));
        i += 1;
    }
    r
}

} // verus!
