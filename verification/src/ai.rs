//! The `parse` operation's side of the AI provider seam: the provider's
//! reply as the operation reads it, and the one function tool it offers.

use vstd::prelude::*;

use crate::parse::{
    draft_keys, lemma_priority_wire_roundtrip, lemma_status_wire_roundtrip, spec_parse_priority,
    spec_parse_status,
};
use crate::task::{Priority, Status};

verus! {

/// A function-tool call returned by the model: the tool's name and its
/// arguments as JSON text.
#[derive(Clone, Debug)]
pub struct ToolCall {
    pub name: String,
    pub arguments: String,
}

/// One item of a provider reply. Only tool calls are read by the library;
/// every other kind of output is skipped.
#[derive(Clone, Debug)]
pub enum AiOutput {
    ToolCall(ToolCall),
    Other,
}

/// The name of the function tool that `parse` asks the model to call.
pub open spec fn create_task_tool_name() -> Seq<char> {
    "create_task"@
}

/// A string parameter of a function tool: its name, its description and,
/// where it is an enumeration, the values it may take.
pub struct ToolParameter {
    pub name: &'static str,
    pub description: &'static str,
    pub choices: Vec<&'static str>,
}

/// A function tool offered to the model: an object of string parameters,
/// of which those named in `required` must be given.
pub struct ToolSchema {
    pub name: &'static str,
    pub description: &'static str,
    pub parameters: Vec<ToolParameter>,
    pub required: Vec<&'static str>,
}

/// The texts of a list of static strings.
pub open spec fn texts(v: Seq<&'static str>) -> Seq<Seq<char>> {
    v.map_values(|s: &'static str| s@)
}

/// The priorities that the tool offers.
pub open spec fn offered_priorities() -> Seq<Seq<char>> {
    seq!["p0"@, "p1"@, "p2"@, "p3"@]
}

/// The statuses that the tool offers for a new task.
pub open spec fn offered_statuses() -> Seq<Seq<char>> {
    seq!["inbox"@, "todo"@, "in_progress"@, "done"@]
}

/// The `create_task` function tool: the task's title (required), an
/// optional description, a priority and an initial status.
pub fn create_task_tool() -> (r: ToolSchema)
    ensures
        r.name@ == create_task_tool_name(),
        r.description@ == "Create a new task from a natural language description."@,
        r.parameters@.len() == 4,
        forall|i: int| 0 <= i < 4 ==> (#[trigger] r.parameters@[i]).name@ == draft_keys()[i],
        r.parameters@[0].description@ == "Short, imperative title for the task (≤120 chars)."@,
        r.parameters@[1].description@ == "Optional detailed description or acceptance criteria."@,
        r.parameters@[2].description@
            == "Priority: p0=urgent, p1=high, p2=medium (default), p3=low."@,
        r.parameters@[3].description@ == "Initial status. Defaults to inbox when omitted."@,
        r.parameters@[0].choices@.len() == 0,
        r.parameters@[1].choices@.len() == 0,
        texts(r.parameters@[2].choices@) == offered_priorities(),
        texts(r.parameters@[3].choices@) == offered_statuses(),
        texts(r.required@) == seq!["title"@],
{
    let title = ToolParameter {
        name: "title",
        description: "Short, imperative title for the task (≤120 chars).",
        choices: Vec::new(),
    };
    let description = ToolParameter {
        name: "description",
        description: "Optional detailed description or acceptance criteria.",
        choices: Vec::new(),
    };
    let priority = ToolParameter {
        name: "priority",
        description: "Priority: p0=urgent, p1=high, p2=medium (default), p3=low.",
        choices: vec!["p0", "p1", "p2", "p3"],
    };
    let status = ToolParameter {
        name: "status",
        description: "Initial status. Defaults to inbox when omitted.",
        choices: vec!["inbox", "todo", "in_progress", "done"],
    };
    let r = ToolSchema {
        name: "create_task",
        description: "Create a new task from a natural language description.",
        parameters: vec![title, description, priority, status],
        required: vec!["title"],
    };
    assert(texts(r.parameters@[2].choices@) =~= offered_priorities());
    assert(texts(r.parameters@[3].choices@) =~= offered_statuses());
    assert(texts(r.required@) =~= seq!["title"@]);
    r
}

/// Every priority and status that the tool offers is one that the mapping
/// of its call reads back, so a model that keeps to the schema never has
/// its choice dropped.
pub proof fn lemma_offered_choices_are_read()
    ensures
        forall|i: int|
            0 <= i < offered_priorities().len() ==> spec_parse_priority(
                #[trigger] offered_priorities()[i],
            ) is Some,
        forall|i: int|
            0 <= i < offered_statuses().len() ==> spec_parse_status(
                #[trigger] offered_statuses()[i],
            ) is Some,
{
    lemma_priority_wire_roundtrip(Priority::P0);
    lemma_priority_wire_roundtrip(Priority::P1);
    lemma_priority_wire_roundtrip(Priority::P2);
    lemma_priority_wire_roundtrip(Priority::P3);
    lemma_status_wire_roundtrip(Status::Inbox);
    lemma_status_wire_roundtrip(Status::Todo);
    lemma_status_wire_roundtrip(Status::InProgress);
    lemma_status_wire_roundtrip(Status::Done);
    assert(offered_priorities()[0] == Priority::P0.wire_name());
    assert(offered_priorities()[1] == Priority::P1.wire_name());
    assert(offered_priorities()[2] == Priority::P2.wire_name());
    assert(offered_priorities()[3] == Priority::P3.wire_name());
    assert(offered_statuses()[0] == Status::Inbox.wire_name());
    assert(offered_statuses()[1] == Status::Todo.wire_name());
    assert(offered_statuses()[2] == Status::InProgress.wire_name());
    assert(offered_statuses()[3] == Status::Done.wire_name());
}

} // verus!
