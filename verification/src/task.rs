//! Output domain of the `parse` operation: the provider-neutral task draft.

use vstd::prelude::*;

verus! {

/// Task priority. Wire form: `p0`..`p3`.
#[derive(Clone, Copy, Debug, PartialEq, Eq, Structural)]
pub enum Priority {
    P0,
    P1,
    P2,
    P3,
}

impl Priority {
    /// The wire name of a priority.
    pub open spec fn wire_name(self) -> Seq<char> {
        match self {
            Priority::P0 => "p0"@,
            Priority::P1 => "p1"@,
            Priority::P2 => "p2"@,
            Priority::P3 => "p3"@,
        }
    }
}

/// Task status. Wire form: snake_case.
#[derive(Clone, Copy, Debug, PartialEq, Eq, Structural)]
pub enum Status {
    Inbox,
    Todo,
    InProgress,
    InReview,
    Done,
    Cancelled,
}

impl Status {
    /// The wire name of a status.
    pub open spec fn wire_name(self) -> Seq<char> {
        match self {
            Status::Inbox => "inbox"@,
            Status::Todo => "todo"@,
            Status::InProgress => "in_progress"@,
            Status::InReview => "in_review"@,
            Status::Done => "done"@,
            Status::Cancelled => "cancelled"@,
        }
    }

    pub fn as_str(self) -> (r: &'static str)
        ensures
            r@ == self.wire_name(),
            self == Status::Inbox ==> r@ == "inbox"@,
            self == Status::Todo ==> r@ == "todo"@,
            self == Status::InProgress ==> r@ == "in_progress"@,
            self == Status::InReview ==> r@ == "in_review"@,
            self == Status::Done ==> r@ == "done"@,
            self == Status::Cancelled ==> r@ == "cancelled"@,
    {
        match self {
            Status::Inbox => "inbox",
            Status::Todo => "todo",
            Status::InProgress => "in_progress",
            Status::InReview => "in_review",
            Status::Done => "done",
            Status::Cancelled => "cancelled",
        }
    }
}

/// The structured result of the `parse` operation, before it becomes a task.
#[derive(Clone, Debug, Default, PartialEq, Eq)]
pub struct TaskDraft {
    pub title: String,
    pub description: Option<String>,
    pub priority: Option<Priority>,
    pub status: Option<Status>,
}

impl TaskDraft {
    /// A draft with the given title and every optional field unset.
    pub fn new(title: &str) -> (r: TaskDraft)
        ensures
            r.title@ == title@,
            r.description is None,
            r.priority is None,
            r.status is None,
    {
        TaskDraft { title: title.to_owned(), description: None, priority: None, status: None }
    }
}

} // verus!
