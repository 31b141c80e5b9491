//! What a task that samples a collector does, and in which order.
use vstd::prelude::*;

verus! {

/// What a task does next.
#[derive(Clone, Copy, Debug, PartialEq, Eq, Structural)]
pub enum TaskAction {
    /// It takes a sample.
    Sample,
    /// It hands on the report of the sample.
    Report,
    /// It hands on why the sample failed.
    Fail,
    /// It is done.
    Stop,
}

/// What came of an action.
#[derive(Clone, Copy, Debug, PartialEq, Eq, Structural)]
pub enum TaskEvent {
    /// A sample has a report.
    Sampled,
    /// A sample has no report yet.
    Idle,
    /// A sample failed.
    Failed,
    /// What was handed on was taken.
    Delivered,
    /// Nobody listens any more.
    Unheard,
}

/// Whether an event can come of an action.
pub open spec fn can_follow(action: TaskAction, event: TaskEvent) -> bool {
    match action {
        TaskAction::Sample => event is Sampled || event is Idle || event is Failed,
        TaskAction::Report => event is Delivered || event is Unheard,
        TaskAction::Fail => event is Delivered || event is Unheard,
        TaskAction::Stop => false,
    }
}

impl TaskAction {
    /// What a task does after an action. It goes on for as long as its samples succeed and its
    /// reports are taken.
    pub fn next(self, event: TaskEvent) -> (action: Self)
        requires
            can_follow(self, event),
        ensures
            action is Sample <==> event is Idle || (self is Report && event is Delivered),
            action is Report <==> event is Sampled,
            action is Fail <==> event is Failed,
            action is Stop <==> event is Unheard || (self is Fail && event is Delivered),
    {
        match event {
            TaskEvent::Sampled => TaskAction::Report,
            TaskEvent::Idle => TaskAction::Sample,
            TaskEvent::Failed => TaskAction::Fail,
            TaskEvent::Delivered => match self {
                TaskAction::Report => TaskAction::Sample,
                _ => TaskAction::Stop,
            },
            TaskEvent::Unheard => TaskAction::Stop,
        }
    }
}

} // verus!
