//! The driver of the dialogue: it says what the console is to do next.
//!
//! The arguments of the program, if there are any, make the first turn.
//! After that the driver asks for a line, sends the turn that the line
//! begins, shows the reply or the reason why there is none, and asks again.
//! Only the end of the input ends the dialogue.

use vstd::prelude::*;
use vstd::string::StringExecFns;

use crate::chat::ChatRequest;
use crate::chat::ChatRequestView;
use crate::chat::RemoteOutcome;
use crate::chat::RemoteOutcomeView;
use crate::conversation::ConversationState;
use crate::text::join_with_spaces;
use crate::text::joined;
use crate::turn::begun;
use crate::turn::ended;
use crate::turn::reply_of;
use crate::turn::request_for;
use crate::turn::started;
use crate::turn::Phase;
use crate::turn::TurnError;
use crate::turn::TurnErrorView;
use crate::turn::TurnExecutor;
use crate::turn::TurnExecutorView;

verus! {

/// The input of the first turn: the arguments joined by single spaces, or
/// none where there is no argument.
pub open spec fn initial_input_of(arguments: Seq<Seq<char>>) -> Option<Seq<char>> {
    if arguments.len() == 0 {
        None
    } else {
        Some(joined(arguments, " "@))
    }
}

/// The marker that asks for input.
pub const INPUT_MARKER: &'static str = "Input: ";

/// The marker that asks for input, after its icon.
pub const INPUT_MARKER_WITH_ICON: &'static str = "\u{f0ede} Input: ";

/// The label that goes before a reply of the assistant.
pub const REPLY_MARKER: &'static str = "Computer: ";

/// The label that goes before a reply of the assistant, after its icon.
pub const REPLY_MARKER_WITH_ICON: &'static str = "\u{f12ca} Computer: ";

/// The marker that asks for input.
pub open spec fn input_marker(use_icons: bool) -> Seq<char> {
    if use_icons {
        INPUT_MARKER_WITH_ICON@
    } else {
        INPUT_MARKER@
    }
}

/// The label that goes before a reply of the assistant.
pub open spec fn reply_marker(use_icons: bool) -> Seq<char> {
    if use_icons {
        REPLY_MARKER_WITH_ICON@
    } else {
        REPLY_MARKER@
    }
}

/// The input of the first turn, from the arguments that follow the name of
/// the program: all of them joined by single spaces. Without arguments there
/// is no first input, and the dialogue starts by asking.
pub fn initial_input(arguments: &Vec<String>) -> (r: Option<String>)
    ensures
        r.deep_view() == initial_input_of(arguments.deep_view()),
{
    if arguments.len() == 0 {
        None
    } else {
        Some(join_with_spaces(arguments))
    }
}

/// The marker that asks for input, with an icon before it where icons are
/// in use.
pub fn input_prompt(use_icons: bool) -> (r: String)
    ensures
        r@ == input_marker(use_icons),
{
    if use_icons {
        String::from_str(INPUT_MARKER_WITH_ICON)
    } else {
        String::from_str(INPUT_MARKER)
    }
}

/// The label that goes before a reply of the assistant, with an icon before
/// it where icons are in use.
pub fn reply_label(use_icons: bool) -> (r: String)
    ensures
        r@ == reply_marker(use_icons),
{
    if use_icons {
        String::from_str(REPLY_MARKER_WITH_ICON)
    } else {
        String::from_str(REPLY_MARKER)
    }
}

/// The label of a reply tells it from the marker that asks for input,
/// whether icons are in use or not.
pub proof fn lemma_reply_label_is_distinct(input_icons: bool, reply_icons: bool)
    ensures
        input_marker(input_icons) != reply_marker(reply_icons),
{
    reveal_strlit("\u{f0ede} Input: ");
    reveal_strlit("Input: ");
    reveal_strlit("\u{f12ca} Computer: ");
    reveal_strlit("Computer: ");
    assert(input_marker(input_icons)[0] != reply_marker(reply_icons)[0]);
}

/// What the console shows before it asks again.
#[derive(Debug)]
pub enum Shown {
    /// The reply of the assistant, after its label.
    Reply { label: String, text: String },
    /// Why the turn gave no reply.
    Failure(TurnError),
}

/// A `Shown` as plain values.
pub enum ShownView {
    Reply { label: Seq<char>, text: Seq<char> },
    Failure(TurnErrorView),
}

impl View for Shown {
    type V = ShownView;

    open spec fn view(&self) -> ShownView {
        match self {
            Shown::Reply { label, text } => ShownView::Reply { label: label@, text: text@ },
            Shown::Failure(e) => ShownView::Failure(e@),
        }
    }
}

/// What the caller of the driver is to do next.
#[derive(Debug)]
pub enum ReplAction {
    /// Show what there is to show, then the marker, and read one line.
    Ask { shown: Option<Shown>, marker: String },
    /// Send the request and wait for its outcome.
    Send(ChatRequest),
    /// End the dialogue: the input has ended or cannot be read.
    Stop,
}

/// A `ReplAction` as plain values.
pub enum ReplActionView {
    Ask { shown: Option<ShownView>, marker: Seq<char> },
    Send(ChatRequestView),
    Stop,
}

impl View for ReplAction {
    type V = ReplActionView;

    open spec fn view(&self) -> ReplActionView {
        match self {
            ReplAction::Ask { shown, marker } => ReplActionView::Ask {
                shown: match shown {
                    Some(s) => Some(s@),
                    None => None,
                },
                marker: marker@,
            },
            ReplAction::Send(request) => ReplActionView::Send(request@),
            ReplAction::Stop => ReplActionView::Stop,
        }
    }
}

/// The driver of the dialogue: it decides what comes next, and its caller
/// reads the console and makes the calls.
pub struct ReplDriver {
    executor: TurnExecutor,
    use_icons: bool,
    stopped: bool,
}

/// A `ReplDriver` as plain values.
pub struct ReplDriverView {
    pub executor: TurnExecutorView,
    pub use_icons: bool,
    pub stopped: bool,
}

impl View for ReplDriver {
    type V = ReplDriverView;

    closed spec fn view(&self) -> ReplDriverView {
        ReplDriverView {
            executor: self.executor@,
            use_icons: self.use_icons,
            stopped: self.stopped,
        }
    }
}

/// The action that asks for the next line, after showing `shown`.
pub open spec fn ask(use_icons: bool, shown: Option<ShownView>) -> ReplActionView {
    ReplActionView::Ask { shown, marker: input_marker(use_icons) }
}

/// The driver at the start. With arguments, their text has begun the first
/// turn; without, the executor is idle.
pub open spec fn driver_started(
    system_prompt: Seq<char>,
    arguments: Seq<Seq<char>>,
    use_icons: bool,
) -> ReplDriverView {
    ReplDriverView {
        executor: match initial_input_of(arguments) {
            Some(text) => begun(started(system_prompt), text),
            None => started(system_prompt),
        },
        use_icons,
        stopped: false,
    }
}

/// The first action: the request of the first turn where there are
/// arguments, and asking for a line where there are none.
pub open spec fn first_action(
    system_prompt: Seq<char>,
    arguments: Seq<Seq<char>>,
    use_icons: bool,
) -> ReplActionView {
    match initial_input_of(arguments) {
        Some(text) => ReplActionView::Send(
            request_for(begun(started(system_prompt), text).history),
        ),
        None => ask(use_icons, None),
    }
}

/// The driver after a line came in, or after the input ended (`None`).
pub open spec fn after_line(state: ReplDriverView, line: Option<Seq<char>>) -> ReplDriverView {
    if state.stopped {
        state
    } else {
        match line {
            Some(text) => ReplDriverView {
                executor: begun(state.executor, text),
                use_icons: state.use_icons,
                stopped: false,
            },
            None => ReplDriverView {
                executor: state.executor,
                use_icons: state.use_icons,
                stopped: true,
            },
        }
    }
}

/// What follows a line: the request of the turn that the line begins. The
/// end of the input stops the dialogue. A line that comes while a response
/// is awaited begins nothing, and the driver asks again.
pub open spec fn action_after_line(
    state: ReplDriverView,
    line: Option<Seq<char>>,
) -> ReplActionView {
    if state.stopped {
        ReplActionView::Stop
    } else {
        match line {
            Some(text) => match state.executor.phase {
                Phase::Idle => ReplActionView::Send(
                    request_for(begun(state.executor, text).history),
                ),
                Phase::AwaitingResponse => ask(
                    state.use_icons,
                    Some(ShownView::Failure(TurnErrorView::Busy)),
                ),
            },
            None => ReplActionView::Stop,
        }
    }
}

/// The driver after the outcome of a call came in.
pub open spec fn after_outcome(
    state: ReplDriverView,
    outcome: RemoteOutcomeView,
) -> ReplDriverView {
    if state.stopped {
        state
    } else {
        ReplDriverView {
            executor: ended(state.executor, outcome),
            use_icons: state.use_icons,
            stopped: false,
        }
    }
}

/// What follows the outcome of a call: the driver asks for the next line,
/// after the reply with its label, or after the reason why there is none.
pub open spec fn action_after_outcome(
    state: ReplDriverView,
    outcome: RemoteOutcomeView,
) -> ReplActionView {
    if state.stopped {
        ReplActionView::Stop
    } else {
        match reply_of(state.executor, outcome) {
            Ok(reply) => ask(
                state.use_icons,
                Some(ShownView::Reply { label: reply_marker(state.use_icons), text: reply }),
            ),
            Err(e) => ask(state.use_icons, Some(ShownView::Failure(e))),
        }
    }
}

/// The dialogue ends at the end of the input and nowhere else: no line and
/// no outcome of a call stops a driver that has not stopped, and a failed
/// call is followed by the next question like a reply.
pub proof fn lemma_driver_stops_at_end_of_input_only(
    state: ReplDriverView,
    line: Option<Seq<char>>,
    outcome: RemoteOutcomeView,
)
    requires
        !state.stopped,
    ensures
        action_after_line(state, line) is Stop <==> line is None,
        after_line(state, line).stopped <==> line is None,
        action_after_outcome(state, outcome) is Ask,
        !after_outcome(state, outcome).stopped,
{
}

impl ReplDriver {
    /// The driver of a dialogue that opens with `system_prompt`, and what it
    /// asks for first. The arguments are those that follow the name of the
    /// program; where there are any, they make the first turn.
    pub fn start(system_prompt: String, arguments: &Vec<String>, use_icons: bool) -> (r: (
        ReplDriver,
        ReplAction,
    ))
        ensures
            r.0@ == driver_started(system_prompt@, arguments.deep_view(), use_icons),
            r.1@ == first_action(system_prompt@, arguments.deep_view(), use_icons),
    {
        let mut driver = ReplDriver {
            executor: TurnExecutor::new(system_prompt),
            use_icons,
            stopped: false,
        };
        let action = match initial_input(arguments) {
            Some(text) => driver.begin(text.as_str()),
            None => driver.ask(None),
        };
        (driver, action)
    }

    /// The conversation so far.
    pub fn conversation(&self) -> (r: &ConversationState)
        ensures
            r@ == self@.executor.history,
    {
        self.executor.conversation()
    }

    /// Whether the dialogue has ended.
    pub fn is_stopped(&self) -> (r: bool)
        ensures
            r == self@.stopped,
    {
        self.stopped
    }

    fn ask(&self, shown: Option<Shown>) -> (r: ReplAction)
        ensures
            r@ == ask(
                self@.use_icons,
                match shown {
                    Some(s) => Some(s@),
                    None => None,
                },
            ),
    {
        ReplAction::Ask { shown, marker: input_prompt(self.use_icons) }
    }

    fn begin(&mut self, text: &str) -> (r: ReplAction)
        requires
            !old(self).stopped,
        ensures
            final(self)@ == after_line(old(self)@, Some(text@)),
            r@ == action_after_line(old(self)@, Some(text@)),
    {
        match self.executor.begin_turn(text) {
            Ok(request) => ReplAction::Send(request),
            Err(e) => self.ask(Some(Shown::Failure(e))),
        }
    }

    /// Takes in the line that was read; `None` stands for the end of the
    /// input and for a line that could not be read.
    pub fn line_read(&mut self, line: Option<String>) -> (r: ReplAction)
        ensures
            final(self)@ == after_line(old(self)@, line.deep_view()),
            r@ == action_after_line(old(self)@, line.deep_view()),
    {
        if self.stopped {
            return ReplAction::Stop;
        }
        match line {
            Some(text) => self.begin(text.as_str()),
            None => {
                self.stopped = true;
                ReplAction::Stop
            },
        }
    }

    /// Takes in the outcome of the call that was sent.
    pub fn responded(&mut self, outcome: RemoteOutcome) -> (r: ReplAction)
        ensures
            final(self)@ == after_outcome(old(self)@, outcome@),
            r@ == action_after_outcome(old(self)@, outcome@),
    {
        if self.stopped {
            return ReplAction::Stop;
        }
        match self.executor.complete_turn(outcome) {
            Ok(reply) => {
                let shown = Shown::Reply { label: reply_label(self.use_icons), text: reply };
                self.ask(Some(shown))
            },
            Err(e) => self.ask(Some(Shown::Failure(e))),
        }
    }
}

} // verus!
