use techlead::chat::clone_messages;
use techlead::chat::first_choice;
use techlead::chat::Message;
use techlead::chat::RemoteError;
use techlead::chat::RemoteOutcome;
use techlead::chat::Role;

#[test]
fn completion_is_the_first_choice() {
    let outcome = RemoteOutcome::Choices(vec!["one".to_string(), "two".to_string()]);
    assert_eq!(first_choice(outcome).unwrap(), "one");
    let single = RemoteOutcome::Choices(vec!["only".to_string()]);
    assert_eq!(first_choice(single).unwrap(), "only");
}

#[test]
fn answer_without_choices_is_an_error() {
    assert!(matches!(first_choice(RemoteOutcome::Choices(vec![])), Err(RemoteError::NoChoice)));
}

#[test]
fn failed_call_hands_its_reason_on() {
    match first_choice(RemoteOutcome::Failed("no route to host".to_string())) {
        Err(RemoteError::CallFailed(reason)) => assert_eq!(reason, "no route to host"),
        other => panic!("unexpected: {:?}", other),
    }
}

#[test]
fn cloned_error_is_the_same_error() {
    match RemoteError::CallFailed("x".to_string()).clone() {
        RemoteError::CallFailed(reason) => assert_eq!(reason, "x"),
        other => panic!("unexpected: {:?}", other),
    }
    assert!(matches!(RemoteError::NoChoice.clone(), RemoteError::NoChoice));
}

#[test]
fn cloned_messages_keep_roles_contents_and_order() {
    let messages = vec![
        Message { role: Role::System, content: "s".to_string() },
        Message { role: Role::User, content: "u".to_string() },
        Message { role: Role::Assistant, content: "a".to_string() },
    ];
    let copy = clone_messages(&messages);
    assert_eq!(copy.len(), 3);
    for (m, c) in messages.iter().zip(copy.iter()) {
        assert_eq!(m.role, c.role);
        assert_eq!(m.content, c.content);
    }
    assert!(clone_messages(&vec![]).is_empty());
}
