use techlead::chat::ChatRequest;
use techlead::chat::RemoteError;
use techlead::chat::RemoteOutcome;
use techlead::chat::Role;
use techlead::repl::initial_input;
use techlead::repl::input_prompt;
use techlead::repl::reply_label;
use techlead::repl::ReplAction;
use techlead::repl::ReplDriver;
use techlead::repl::Shown;
use techlead::turn::TurnError;
use techlead::turn::TurnExecutor;

#[test]
fn arguments_are_joined_by_single_spaces() {
    let arguments = vec!["explain".to_string(), "main".to_string()];
    assert_eq!(initial_input(&arguments), Some("explain main".to_string()));
}

#[test]
fn single_argument_is_the_input() {
    assert_eq!(initial_input(&vec!["why?".to_string()]), Some("why?".to_string()));
}

#[test]
fn no_arguments_give_no_first_input() {
    assert_eq!(initial_input(&vec![]), None);
}

#[test]
fn arguments_keep_their_own_spaces() {
    let arguments = vec!["a b".to_string(), "".to_string(), " c".to_string()];
    assert_eq!(initial_input(&arguments), Some("a b   c".to_string()));
}

#[test]
fn first_turn_from_arguments_has_the_joined_text_as_user_content() {
    let arguments = vec!["explain".to_string(), "main".to_string()];
    let input = initial_input(&arguments).unwrap();
    let mut executor = TurnExecutor::new("prompt".to_string());
    let request = executor.begin_turn(&input).unwrap();
    assert_eq!(request.messages[1].role, Role::User);
    assert_eq!(request.messages[1].content, "explain main");
    assert_eq!(executor.conversation().messages()[1].content, "explain main");
}

#[test]
fn markers_without_icons() {
    assert_eq!(input_prompt(false), "Input: ");
    assert_eq!(reply_label(false), "Computer: ");
}

#[test]
fn markers_with_icons() {
    assert_eq!(input_prompt(true), "\u{f0ede} Input: ");
    assert_eq!(reply_label(true), "\u{f12ca} Computer: ");
}

#[test]
fn reply_label_differs_from_the_input_marker() {
    for a in [false, true] {
        for b in [false, true] {
            assert_ne!(input_prompt(a), reply_label(b));
        }
    }
}

fn reply(text: &str) -> RemoteOutcome {
    RemoteOutcome::Choices(vec![text.to_string()])
}

fn expect_send(action: ReplAction) -> ChatRequest {
    match action {
        ReplAction::Send(request) => request,
        other => panic!("expected a request, got {:?}", other),
    }
}

#[test]
fn driver_without_arguments_asks_first() {
    let (driver, action) = ReplDriver::start("p".to_string(), &vec![], false);
    match action {
        ReplAction::Ask { shown, marker } => {
            assert!(shown.is_none());
            assert_eq!(marker, "Input: ");
        }
        other => panic!("unexpected: {:?}", other),
    }
    assert_eq!(driver.conversation().len(), 1);
    assert!(!driver.is_stopped());
}

#[test]
fn driver_with_arguments_sends_the_first_turn_before_asking() {
    let arguments = vec!["explain".to_string(), "main".to_string()];
    let (mut driver, action) = ReplDriver::start("p".to_string(), &arguments, false);
    let request = expect_send(action);
    assert_eq!(request.messages.len(), 2);
    assert_eq!(request.messages[1].role, Role::User);
    assert_eq!(request.messages[1].content, "explain main");
    match driver.responded(reply("it starts the program")) {
        ReplAction::Ask {
            shown: Some(Shown::Reply { label, text }),
            marker,
        } => {
            assert_eq!(label, "Computer: ");
            assert_eq!(text, "it starts the program");
            assert_eq!(marker, "Input: ");
        }
        other => panic!("unexpected: {:?}", other),
    }
    assert_eq!(driver.conversation().len(), 3);
}

#[test]
fn driver_trims_the_line_and_sends_the_turn() {
    let (mut driver, _) = ReplDriver::start("p".to_string(), &vec![], true);
    let request = expect_send(driver.line_read(Some("  what now?\n".to_string())));
    assert_eq!(request.messages[1].content, "what now?");
    match driver.responded(reply("this")) {
        ReplAction::Ask {
            shown: Some(Shown::Reply { label, text }),
            marker,
        } => {
            assert_eq!(label, "\u{f12ca} Computer: ");
            assert_eq!(text, "this");
            assert_eq!(marker, "\u{f0ede} Input: ");
        }
        other => panic!("unexpected: {:?}", other),
    }
}

#[test]
fn driver_reports_a_failed_call_and_asks_again() {
    let (mut driver, _) = ReplDriver::start("p".to_string(), &vec![], false);
    expect_send(driver.line_read(Some("q".to_string())));
    let action = driver.responded(RemoteOutcome::Failed("offline".to_string()));
    match action {
        ReplAction::Ask {
            shown: Some(Shown::Failure(error)),
            marker,
        } => {
            assert_eq!(error.message(), "offline");
            assert_eq!(marker, "Input: ");
        }
        other => panic!("unexpected: {:?}", other),
    }
    assert!(!driver.is_stopped());
    assert_eq!(driver.conversation().len(), 2);
    let request = expect_send(driver.line_read(Some("q again".to_string())));
    assert_eq!(request.messages.len(), 3);
}

#[test]
fn driver_stops_at_the_end_of_the_input() {
    let (mut driver, _) = ReplDriver::start("p".to_string(), &vec![], false);
    assert!(matches!(driver.line_read(None), ReplAction::Stop));
    assert!(driver.is_stopped());
    assert!(matches!(
        driver.line_read(Some("late".to_string())),
        ReplAction::Stop
    ));
    assert!(matches!(driver.responded(reply("late")), ReplAction::Stop));
    assert_eq!(driver.conversation().len(), 1);
}

#[test]
fn driver_knows_no_exit_command() {
    let (mut driver, _) = ReplDriver::start("p".to_string(), &vec![], false);
    for word in ["exit", "quit", ":q", ""] {
        let request = expect_send(driver.line_read(Some(word.to_string())));
        assert_eq!(request.messages.last().unwrap().content, word);
        assert!(matches!(
            driver.responded(reply("ok")),
            ReplAction::Ask { .. }
        ));
    }
    assert_eq!(driver.conversation().len(), 9);
}

#[test]
fn line_during_a_pending_call_begins_no_turn() {
    let (mut driver, _) = ReplDriver::start("p".to_string(), &vec![], false);
    expect_send(driver.line_read(Some("one".to_string())));
    match driver.line_read(Some("two".to_string())) {
        ReplAction::Ask {
            shown: Some(Shown::Failure(error)),
            ..
        } => assert_eq!(error.message(), "a turn is still waiting for its response"),
        other => panic!("unexpected: {:?}", other),
    }
    assert_eq!(driver.conversation().len(), 2);
}

#[test]
fn errors_have_their_words() {
    assert_eq!(RemoteError::CallFailed("status 401".to_string()).message(), "status 401");
    assert_eq!(RemoteError::NoChoice.message(), "the chat service answered without a choice");
    assert_eq!(TurnError::Busy.message(), "a turn is still waiting for its response");
    assert_eq!(TurnError::NotAwaiting.message(), "no turn is waiting for a response");
    assert_eq!(TurnError::Remote(RemoteError::NoChoice).message(), RemoteError::NoChoice.message());
}
