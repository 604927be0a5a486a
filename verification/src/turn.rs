//! The turn executor: one user message, one request to the chat service, one
//! reply.
//!
//! The executor is idle or awaits the response to the request it handed out.
//! A turn begins with the user's text and ends with the outcome of the call.
//! The caller makes the call in between.

use vstd::prelude::*;
use vstd::string::StringExecFns;

use crate::chat::completion_of;
use crate::chat::first_choice;
use crate::chat::remote_error_text;
use crate::chat::ChatRequest;
use crate::chat::ChatRequestView;
use crate::chat::Message;
use crate::chat::MessageView;
use crate::chat::Model;
use crate::chat::RemoteError;
use crate::chat::RemoteErrorView;
use crate::chat::RemoteOutcome;
use crate::chat::RemoteOutcomeView;
use crate::chat::Role;
use crate::conversation::opened;
use crate::conversation::well_formed;
use crate::conversation::ConversationState;
use crate::text::trim;
use crate::text::trimmed;

verus! {

/// Where the executor stands between turns and within one.
#[derive(Clone, Copy, Debug, PartialEq, Eq, Structural)]
pub enum Phase {
    /// No request is out.
    Idle,
    /// A request is out and its outcome has not come in.
    AwaitingResponse,
}

/// Why a step of a turn gave nothing.
#[derive(Debug)]
pub enum TurnError {
    /// A turn was begun while another awaits its response.
    Busy,
    /// An outcome came in while no turn awaits one.
    NotAwaiting,
    /// The call of the chat service gave no completion.
    Remote(RemoteError),
}

/// A `TurnError` as plain values.
pub enum TurnErrorView {
    Busy,
    NotAwaiting,
    Remote(RemoteErrorView),
}

impl View for TurnError {
    type V = TurnErrorView;

    open spec fn view(&self) -> TurnErrorView {
        match self {
            TurnError::Busy => TurnErrorView::Busy,
            TurnError::NotAwaiting => TurnErrorView::NotAwaiting,
            TurnError::Remote(e) => TurnErrorView::Remote(e@),
        }
    }
}

/// The error in words.
pub open spec fn turn_error_text(e: TurnErrorView) -> Seq<char> {
    match e {
        TurnErrorView::Busy => "a turn is still waiting for its response"@,
        TurnErrorView::NotAwaiting => "no turn is waiting for a response"@,
        TurnErrorView::Remote(remote) => remote_error_text(remote),
    }
}

impl TurnError {
    /// The error in words.
    pub fn message(&self) -> (r: String)
        ensures
            r@ == turn_error_text(self@),
    {
        match self {
            TurnError::Busy => String::from_str("a turn is still waiting for its response"),
            TurnError::NotAwaiting => String::from_str("no turn is waiting for a response"),
            TurnError::Remote(remote) => remote.message(),
        }
    }
}

/// The conversation and the phase of the executor that holds it.
pub struct TurnExecutor {
    conversation: ConversationState,
    phase: Phase,
}

/// A `TurnExecutor` as plain values.
pub struct TurnExecutorView {
    pub history: Seq<MessageView>,
    pub phase: Phase,
}

impl View for TurnExecutor {
    type V = TurnExecutorView;

    closed spec fn view(&self) -> TurnExecutorView {
        TurnExecutorView { history: self.conversation@, phase: self.phase }
    }
}

/// The executor at the start: the system message alone, and idle.
pub open spec fn started(system_prompt: Seq<char>) -> TurnExecutorView {
    TurnExecutorView { history: opened(system_prompt), phase: Phase::Idle }
}

/// The history with the user's text at its end, trimmed.
pub open spec fn submitted(history: Seq<MessageView>, text: Seq<char>) -> Seq<MessageView> {
    history.push(MessageView { role: Role::User, content: trimmed(text) })
}

/// The history with the assistant's reply at its end.
pub open spec fn answered(history: Seq<MessageView>, reply: Seq<char>) -> Seq<MessageView> {
    history.push(MessageView { role: Role::Assistant, content: reply })
}

/// The request of a turn: the whole history, for the model of the
/// conversation.
pub open spec fn request_for(history: Seq<MessageView>) -> ChatRequestView {
    ChatRequestView { model: Model::Gpt4, messages: history }
}

/// The executor after the user's text came in. An idle executor records the
/// text and awaits the response; one that awaits a response stays as it is.
pub open spec fn begun(state: TurnExecutorView, text: Seq<char>) -> TurnExecutorView {
    match state.phase {
        Phase::Idle => TurnExecutorView {
            history: submitted(state.history, text),
            phase: Phase::AwaitingResponse,
        },
        Phase::AwaitingResponse => state,
    }
}

/// The executor after the outcome of the call came in. One that awaits it
/// records the reply, if the outcome holds one, and is idle again whatever
/// the outcome; an idle executor stays as it is.
pub open spec fn ended(state: TurnExecutorView, outcome: RemoteOutcomeView) -> TurnExecutorView {
    match state.phase {
        Phase::AwaitingResponse => TurnExecutorView {
            history: match completion_of(outcome) {
                Ok(reply) => answered(state.history, reply),
                Err(_) => state.history,
            },
            phase: Phase::Idle,
        },
        Phase::Idle => state,
    }
}

/// What the end of a turn hands back: the reply, or why there is none.
pub open spec fn reply_of(state: TurnExecutorView, outcome: RemoteOutcomeView) -> Result<
    Seq<char>,
    TurnErrorView,
> {
    match state.phase {
        Phase::AwaitingResponse => match completion_of(outcome) {
            Ok(reply) => Ok(reply),
            Err(e) => Err(TurnErrorView::Remote(e)),
        },
        Phase::Idle => Err(TurnErrorView::NotAwaiting),
    }
}

/// The view of a reply or of the error in its place.
pub open spec fn reply_view(r: Result<String, TurnError>) -> Result<Seq<char>, TurnErrorView> {
    match r {
        Ok(text) => Ok(text@),
        Err(e) => Err(e@),
    }
}

/// One turn as plain values: what the user wrote, and how the call ended.
pub struct Turn {
    pub text: Seq<char>,
    pub outcome: RemoteOutcomeView,
}

/// The executor after one whole turn.
pub open spec fn after_turn(state: TurnExecutorView, turn: Turn) -> TurnExecutorView {
    ended(begun(state, turn.text), turn.outcome)
}

/// The executor after the given turns, from the start.
pub open spec fn after_turns(system_prompt: Seq<char>, turns: Seq<Turn>) -> TurnExecutorView
    decreases turns.len(),
{
    if turns.len() == 0 {
        started(system_prompt)
    } else {
        after_turn(after_turns(system_prompt, turns.drop_last()), turns.last())
    }
}

/// Every one of the turns ends with a completion.
pub open spec fn all_succeed(turns: Seq<Turn>) -> bool {
    forall|k: int| 0 <= k < turns.len() ==> completion_of((#[trigger] turns[k]).outcome) is Ok
}

/// The user's message of turn `k`.
pub open spec fn question(turns: Seq<Turn>, k: int) -> MessageView {
    MessageView { role: Role::User, content: trimmed(turns[k].text) }
}

/// The assistant's message of turn `k`, which ends with a completion.
pub open spec fn answer(turns: Seq<Turn>, k: int) -> MessageView {
    MessageView { role: Role::Assistant, content: completion_of(turns[k].outcome)->Ok_0 }
}

/// A step never takes a message out nor changes one, and it keeps the
/// conversation well formed.
pub proof fn lemma_steps_only_append(
    state: TurnExecutorView,
    text: Seq<char>,
    outcome: RemoteOutcomeView,
)
    ensures
        state.history.is_prefix_of(begun(state, text).history),
        state.history.is_prefix_of(ended(state, outcome).history),
        well_formed(state.history) ==> well_formed(begun(state, text).history),
        well_formed(state.history) ==> well_formed(ended(state, outcome).history),
{
}

/// After any turns, whether they succeed or fail, the executor is idle and
/// its conversation is well formed: it opens with the system message, which
/// is its only one. Each turn has added one message or two.
pub proof fn lemma_turns_keep_the_conversation_well_formed(
    system_prompt: Seq<char>,
    turns: Seq<Turn>,
)
    ensures
        after_turns(system_prompt, turns).phase == Phase::Idle,
        well_formed(after_turns(system_prompt, turns).history),
        after_turns(system_prompt, turns).history[0] == opened(system_prompt)[0],
        1 + turns.len() <= after_turns(system_prompt, turns).history.len() <= 1 + 2 * turns.len(),
    decreases turns.len(),
{
    if turns.len() > 0 {
        lemma_turns_keep_the_conversation_well_formed(system_prompt, turns.drop_last());
    }
}

/// After N turns that all succeed the conversation holds 1 + 2N messages:
/// the system message, then for each turn the user's message followed by the
/// assistant's.
pub proof fn lemma_successful_turns_alternate(system_prompt: Seq<char>, turns: Seq<Turn>)
    requires
        all_succeed(turns),
    ensures
        after_turns(system_prompt, turns).phase == Phase::Idle,
        after_turns(system_prompt, turns).history.len() == 1 + 2 * turns.len(),
        after_turns(system_prompt, turns).history[0] == (MessageView {
            role: Role::System,
            content: system_prompt,
        }),
        forall|k: int|
            0 <= k < turns.len() ==> {
                &&& after_turns(system_prompt, turns).history[1 + 2 * k] == #[trigger] question(
                    turns,
                    k,
                )
                &&& after_turns(system_prompt, turns).history[2 + 2 * k] == answer(turns, k)
            },
    decreases turns.len(),
{
    if turns.len() > 0 {
        let front = turns.drop_last();
        assert(all_succeed(front)) by {
            assert forall|k: int| 0 <= k < front.len() implies completion_of(
                (#[trigger] front[k]).outcome,
            ) is Ok by {
                assert(front[k] == turns[k]);
            }
        }
        lemma_successful_turns_alternate(system_prompt, front);
        // The last turn adds its two messages behind those of the turns
        // before, which stay where they are.
        let now = after_turns(system_prompt, turns);
        assert forall|k: int| 0 <= k < turns.len() implies {
            &&& now.history[1 + 2 * k] == #[trigger] question(turns, k)
            &&& now.history[2 + 2 * k] == answer(turns, k)
        } by {
            if k < front.len() {
                assert(front[k] == turns[k]);
                assert(question(front, k) == question(turns, k));
            }
        }
    }
}

/// A turn that fails leaves the user's message in the conversation and adds
/// no assistant's message: the conversation has grown by that one message,
/// and the executor is idle again.
pub proof fn lemma_failed_turn_keeps_the_user_message(state: TurnExecutorView, turn: Turn)
    requires
        state.phase == Phase::Idle,
        completion_of(turn.outcome) is Err,
    ensures
        after_turn(state, turn).history == submitted(state.history, turn.text),
        after_turn(state, turn).history.len() == state.history.len() + 1,
        after_turn(state, turn).history.last() == (MessageView {
            role: Role::User,
            content: trimmed(turn.text),
        }),
        after_turn(state, turn).phase == Phase::Idle,
{
}

impl TurnExecutor {
    /// An idle executor whose conversation opens with `system_prompt`.
    pub fn new(system_prompt: String) -> (r: TurnExecutor)
        ensures
            r@ == started(system_prompt@),
    {
        TurnExecutor { conversation: ConversationState::new(system_prompt), phase: Phase::Idle }
    }

    /// The conversation so far.
    pub fn conversation(&self) -> (r: &ConversationState)
        ensures
            r@ == self@.history,
    {
        &self.conversation
    }

    /// Where the executor stands.
    pub fn phase(&self) -> (r: Phase)
        ensures
            r == self@.phase,
    {
        self.phase
    }

    /// Begins a turn with the user's text. An idle executor appends the
    /// trimmed text as the user's message and hands out the request that
    /// carries the whole conversation; it then awaits the response. While a
    /// response is awaited nothing changes and the answer is `Busy`.
    pub fn begin_turn(&mut self, user_text: &str) -> (r: Result<ChatRequest, TurnError>)
        ensures
            final(self)@ == begun(old(self)@, user_text@),
            match r {
                Ok(request) => old(self)@.phase == Phase::Idle && request@ == request_for(
                    final(self)@.history,
                ),
                Err(e) => old(self)@.phase == Phase::AwaitingResponse && e@ == TurnErrorView::Busy,
            },
    {
        match self.phase {
            Phase::Idle => {
                let content = trim(user_text).to_owned();
                self.conversation.append(Message { role: Role::User, content });
                self.phase = Phase::AwaitingResponse;
                Ok(ChatRequest { model: Model::Gpt4, messages: self.conversation.snapshot() })
            },
            Phase::AwaitingResponse => Err(TurnError::Busy),
        }
    }

    /// Ends the turn with the outcome of the call. Where the outcome holds a
    /// completion, it is appended as the assistant's message and handed
    /// back. Where it holds none, nothing is appended: the user's message
    /// stays, and the error is handed back. Either way the executor is idle
    /// again. An idle executor changes nothing and answers `NotAwaiting`.
    pub fn complete_turn(&mut self, outcome: RemoteOutcome) -> (r: Result<String, TurnError>)
        ensures
            final(self)@ == ended(old(self)@, outcome@),
            reply_view(r) == reply_of(old(self)@, outcome@),
    {
        match self.phase {
            Phase::AwaitingResponse => {
                self.phase = Phase::Idle;
                match first_choice(outcome) {
                    Ok(reply) => {
                        self.conversation.append(
                            Message { role: Role::Assistant, content: reply.clone() },
                        );
                        Ok(reply)
                    },
                    Err(e) => Err(TurnError::Remote(e)),
                }
            },
            Phase::Idle => Err(TurnError::NotAwaiting),
        }
    }
}

} // verus!
