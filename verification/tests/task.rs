use autodevgpt::message::Message;
use autodevgpt::prompt::extend_function_text;
use autodevgpt::task::{CallOutcome, NextStep, TaskRequest};

fn goal_function(_input: &str) -> &'static str {
    "fn goal(request) -> summary"
}

#[test]
fn begin_holds_the_extended_prompt_and_is_no_retry() {
    let request = TaskRequest::begin(
        goal_function,
        "Create a webserver for making stock price api requests",
    );
    let expected = extend_function_text(
        "fn goal(request) -> summary",
        "Create a webserver for making stock price api requests",
    );
    assert!(!request.retried);
    assert_eq!(request.message.role, "system");
    assert_eq!(request.message.content, expected.content);
}

#[test]
fn messages_is_the_one_message() {
    let request = TaskRequest::begin(goal_function, "input");
    let sent: Vec<Message> = request.messages();
    assert_eq!(sent.len(), 1);
    assert_eq!(sent[0].role, request.message.role);
    assert_eq!(sent[0].content, request.message.content);
}

#[test]
fn reply_to_first_call_is_returned() {
    let request = TaskRequest::begin(goal_function, "input");
    match request.on_outcome(CallOutcome::Reply("build a website".to_string())) {
        NextStep::Return(text) => assert_eq!(text, "build a website"),
        other => panic!("expected a result, got {:?}", other),
    }
}

#[test]
fn empty_reply_is_returned_as_it_is() {
    let request = TaskRequest::begin(goal_function, "input");
    match request.on_outcome(CallOutcome::Reply(String::new())) {
        NextStep::Return(text) => assert_eq!(text, ""),
        other => panic!("expected a result, got {:?}", other),
    }
}

#[test]
fn failure_of_first_call_asks_for_the_same_message_again() {
    let request = TaskRequest::begin(goal_function, "input");
    let first = request.messages();
    match request.on_outcome(CallOutcome::Failed) {
        NextStep::Retry(again) => {
            assert!(again.retried);
            let second = again.messages();
            assert_eq!(second.len(), 1);
            assert_eq!(second[0].role, first[0].role);
            assert_eq!(second[0].content, first[0].content);
        }
        other => panic!("expected a retry, got {:?}", other),
    }
}

#[test]
fn reply_to_retry_is_returned() {
    let request = TaskRequest::begin(goal_function, "input");
    let again = match request.on_outcome(CallOutcome::Failed) {
        NextStep::Retry(again) => again,
        other => panic!("expected a retry, got {:?}", other),
    };
    match again.on_outcome(CallOutcome::Reply("second time".to_string())) {
        NextStep::Return(text) => assert_eq!(text, "second time"),
        other => panic!("expected a result, got {:?}", other),
    }
}

#[test]
fn failure_of_retry_aborts() {
    let request = TaskRequest::begin(goal_function, "input");
    let again = match request.on_outcome(CallOutcome::Failed) {
        NextStep::Retry(again) => again,
        other => panic!("expected a retry, got {:?}", other),
    };
    assert!(matches!(again.on_outcome(CallOutcome::Failed), NextStep::Abort));
}

#[test]
fn a_task_never_makes_a_third_call() {
    let outcomes = [
        (false, false),
        (false, true),
        (true, false),
        (true, true),
    ];
    for (first_ok, second_ok) in outcomes {
        let outcome = |ok: bool| {
            if ok {
                CallOutcome::Reply("ok".to_string())
            } else {
                CallOutcome::Failed
            }
        };
        let mut calls = 1;
        let step = TaskRequest::begin(goal_function, "input").on_outcome(outcome(first_ok));
        let last = match step {
            NextStep::Retry(again) => {
                calls += 1;
                again.on_outcome(outcome(second_ok))
            }
            done => done,
        };
        assert!(!matches!(last, NextStep::Retry(_)));
        assert_eq!(calls, if first_ok { 1 } else { 2 });
        assert_eq!(matches!(last, NextStep::Return(_)), first_ok || second_ok);
        assert_eq!(matches!(last, NextStep::Abort), !first_ok && !second_ok);
    }
}

#[test]
fn a_request_marked_as_retry_aborts_on_failure() {
    let request = TaskRequest {
        message: Message::new("system".to_string(), "prompt".to_string()),
        retried: true,
    };
    assert!(matches!(request.on_outcome(CallOutcome::Failed), NextStep::Abort));
}
