//! The call policy of a task: send the extended prompt, and if the call fails,
//! send it once more; a second failure ends the task.
//!
//! Nothing here talks to the service. The caller sends what [`TaskRequest::messages`]
//! gives, reports what came of it as a [`CallOutcome`], and does what
//! [`TaskRequest::on_outcome`] answers.

use vstd::prelude::*;
use crate::message::{Message, MessageView};
use crate::prompt::{extend_ai_function, extended_message};

verus! {

/// What came of one call to the service.
#[derive(Debug)]
pub enum CallOutcome {
    /// The service answered with this text.
    Reply(String),
    /// The call failed, for whatever reason.
    Failed,
}

impl View for CallOutcome {
    type V = Option<Seq<char>>;

    open spec fn view(&self) -> Option<Seq<char>> {
        match self {
            CallOutcome::Reply(text) => Some(text@),
            CallOutcome::Failed => None,
        }
    }
}

/// A task with one call outstanding: the message that the call carries, and
/// whether this call is already the repetition.
#[derive(Debug)]
pub struct TaskRequest {
    pub message: Message,
    pub retried: bool,
}

/// The mathematical value of a [`TaskRequest`].
pub struct TaskRequestView {
    pub message: MessageView,
    pub retried: bool,
}

impl View for TaskRequest {
    type V = TaskRequestView;

    open spec fn view(&self) -> TaskRequestView {
        TaskRequestView { message: self.message@, retried: self.retried }
    }
}

/// What the caller does once a call has ended.
#[derive(Debug)]
pub enum NextStep {
    /// The task is done: this text is its result.
    Return(String),
    /// Send the messages of this request; its outcome decides what follows.
    Retry(TaskRequest),
    /// The repetition failed too: the task has no result.
    Abort,
}

/// The mathematical value of a [`NextStep`].
pub enum NextStepView {
    Return(Seq<char>),
    Retry(TaskRequestView),
    Abort,
}

impl View for NextStep {
    type V = NextStepView;

    open spec fn view(&self) -> NextStepView {
        match self {
            NextStep::Return(text) => NextStepView::Return(text@),
            NextStep::Retry(request) => NextStepView::Retry(request@),
            NextStep::Abort => NextStepView::Abort,
        }
    }
}

/// The request that a task starts with: the extended prompt, not yet repeated.
pub open spec fn first_request(function_text: Seq<char>, input: Seq<char>) -> TaskRequestView {
    TaskRequestView { message: extended_message(function_text, input), retried: false }
}

/// The policy. A reply ends the task with that reply. A failure of the first call
/// asks for the same message once more; a failure of the repetition ends the task
/// without a result.
pub open spec fn next_step(request: TaskRequestView, outcome: Option<Seq<char>>) -> NextStepView {
    match outcome {
        Some(text) => NextStepView::Return(text),
        None => if request.retried {
            NextStepView::Abort
        } else {
            NextStepView::Retry(TaskRequestView { message: request.message, retried: true })
        },
    }
}

/// The result of a whole task, given what the first call and, should it be made,
/// the second would bring: the first reply there is, or none.
pub open spec fn task_result(first: Option<Seq<char>>, second: Option<Seq<char>>) -> Option<Seq<char>> {
    match first {
        Some(text) => Some(text),
        None => second,
    }
}

/// The number of calls that a task makes, given what the first call brings.
pub open spec fn calls_made(first: Option<Seq<char>>) -> nat {
    if first is Some { 1 } else { 2 }
}

impl TaskRequest {
    /// Starts a task: asks `function_pass` for the function text that belongs to
    /// `msg_context` and makes the extended prompt the message of the first call.
    pub fn begin<F: Fn(&str) -> &'static str>(function_pass: F, msg_context: &str) -> (request: Self)
        requires
            function_pass.requires((msg_context,)),
        ensures
            exists|function_text: &'static str|
                #[trigger] function_pass.ensures((msg_context,), function_text)
                    && request@ == first_request(function_text@, msg_context@),
    {
        let message = extend_ai_function(function_pass, msg_context);
        TaskRequest { message, retried: false }
    }

    /// The messages to send for this request: its one message, alone.
    pub fn messages(&self) -> (messages: Vec<Message>)
        ensures
            messages@.len() == 1,
            messages@[0]@ == self@.message,
    {
        vec![self.message.clone()]
    }

    /// Decides what follows the outcome of this request's call.
    pub fn on_outcome(self, outcome: CallOutcome) -> (step: NextStep)
        ensures
            step@ == next_step(self@, outcome@),
    {
        match outcome {
            CallOutcome::Reply(text) => NextStep::Return(text),
            CallOutcome::Failed => {
                if self.retried {
                    NextStep::Abort
                } else {
                    NextStep::Retry(TaskRequest { message: self.message, retried: true })
                }
            },
        }
    }
}

/// A task makes at most two calls: what follows a repetition is never another one.
pub proof fn lemma_no_second_retry(
    request: TaskRequestView,
    first: Option<Seq<char>>,
    second: Option<Seq<char>>,
)
    ensures
        next_step(request, first) matches NextStepView::Retry(again) ==> !(next_step(again, second) is Retry),
{
}

/// A repetition carries exactly the message of the call that failed.
pub proof fn lemma_retry_repeats_message(request: TaskRequestView, outcome: Option<Seq<char>>)
    ensures
        next_step(request, outcome) matches NextStepView::Retry(again) ==> again.message
            == request.message,
{
}

/// Followed from its first request, the policy ends a task after `calls_made`
/// calls, with `task_result` as its result and with an abort exactly where
/// both calls fail.
pub proof fn lemma_task_outcome(
    request: TaskRequestView,
    first: Option<Seq<char>>,
    second: Option<Seq<char>>,
)
    requires
        !request.retried,
    ensures
        match next_step(request, first) {
            NextStepView::Return(text) => calls_made(first) == 1 && task_result(first, second) == Some(text),
            NextStepView::Retry(again) => calls_made(first) == 2 && match next_step(again, second) {
                NextStepView::Return(text) => task_result(first, second) == Some(text),
                NextStepView::Retry(_) => false,
                NextStepView::Abort => task_result(first, second) is None,
            },
            NextStepView::Abort => false,
        },
{
}

} // verus!
