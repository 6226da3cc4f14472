//! Natural language -> [`TaskDraft`]: mapping a provider's `create_task`
//! tool call onto a task draft.

use vstd::prelude::*;

use crate::ai::{create_task_tool_name, AiOutput};
use crate::error::IntakeError;
use crate::task::{Priority, Status, TaskDraft};
use crate::text::{opt_text, str_eq};

verus! {

/// The priority whose wire name is `s`, if any.
pub open spec fn spec_parse_priority(s: Seq<char>) -> Option<Priority> {
    if exists|p: Priority| p.wire_name() == s {
        Some(choose|p: Priority| p.wire_name() == s)
    } else {
        None
    }
}

/// The status whose wire name is `s`, if any.
pub open spec fn spec_parse_status(s: Seq<char>) -> Option<Status> {
    if exists|st: Status| st.wire_name() == s {
        Some(choose|st: Status| st.wire_name() == s)
    } else {
        None
    }
}

/// Distinct priorities have distinct wire names.
proof fn lemma_priority_names_distinct()
    ensures
        forall|a: Priority, b: Priority| a.wire_name() == b.wire_name() ==> a == b,
{
    reveal_strlit("p0");
    reveal_strlit("p1");
    reveal_strlit("p2");
    reveal_strlit("p3");
    assert("p0"@[1] != "p1"@[1] && "p0"@[1] != "p2"@[1] && "p0"@[1] != "p3"@[1]);
    assert("p1"@[1] != "p2"@[1] && "p1"@[1] != "p3"@[1] && "p2"@[1] != "p3"@[1]);
}

/// Distinct statuses have distinct wire names.
proof fn lemma_status_names_distinct()
    ensures
        forall|a: Status, b: Status| a.wire_name() == b.wire_name() ==> a == b,
{
    reveal_strlit("inbox");
    reveal_strlit("todo");
    reveal_strlit("in_progress");
    reveal_strlit("in_review");
    reveal_strlit("done");
    reveal_strlit("cancelled");
    assert("inbox"@.len() != "todo"@.len());
    assert("inbox"@[2] != "in_progress"@[2] && "inbox"@[2] != "in_review"@[2]);
    assert("in_progress"@[3] != "in_review"@[3]);
    assert("done"@[0] != "inbox"@[0] && "done"@[0] != "todo"@[0] && "done"@[0] != "in_progress"@[0]);
    assert("done"@[0] != "in_review"@[0] && "done"@[0] != "cancelled"@[0]);
    assert("cancelled"@[0] != "inbox"@[0] && "cancelled"@[0] != "todo"@[0]);
    assert("cancelled"@[0] != "in_progress"@[0] && "cancelled"@[0] != "in_review"@[0]);
    assert("todo"@[0] != "in_progress"@[0] && "todo"@[0] != "in_review"@[0]);
}

/// Every priority's wire name is read back as that priority.
pub proof fn lemma_priority_wire_roundtrip(p: Priority)
    ensures
        spec_parse_priority(p.wire_name()) == Some(p),
{
    lemma_priority_names_distinct();
    let q = choose|q: Priority| q.wire_name() == p.wire_name();
    assert(q.wire_name() == p.wire_name());
}

/// Every status's wire name, as `Status::as_str` renders it, is read back
/// by `parse_status` as that status.
pub proof fn lemma_status_wire_roundtrip(s: Status)
    ensures
        spec_parse_status(s.wire_name()) == Some(s),
{
    lemma_status_names_distinct();
    let q = choose|q: Status| q.wire_name() == s.wire_name();
    assert(q.wire_name() == s.wire_name());
}

pub fn parse_priority(s: &str) -> (r: Option<Priority>)
    ensures
        r == spec_parse_priority(s@),
        s@ == "p0"@ <==> r == Some(Priority::P0),
        s@ == "p1"@ <==> r == Some(Priority::P1),
        s@ == "p2"@ <==> r == Some(Priority::P2),
        s@ == "p3"@ <==> r == Some(Priority::P3),
{
    let r = if str_eq(s, "p0") {
        Some(Priority::P0)
    } else if str_eq(s, "p1") {
        Some(Priority::P1)
    } else if str_eq(s, "p2") {
        Some(Priority::P2)
    } else if str_eq(s, "p3") {
        Some(Priority::P3)
    } else {
        None
    };
    proof {
        lemma_priority_names_distinct();
        assert(Priority::P0.wire_name() == "p0"@ && Priority::P1.wire_name() == "p1"@);
        assert(Priority::P2.wire_name() == "p2"@ && Priority::P3.wire_name() == "p3"@);
        match r {
            Some(p) => lemma_priority_wire_roundtrip(p),
            None => {
                assert forall|p: Priority| p.wire_name() != s@ by {
                    match p {
                        Priority::P0 => {},
                        Priority::P1 => {},
                        Priority::P2 => {},
                        Priority::P3 => {},
                    }
                }
            },
        }
    }
    r
}

pub fn parse_status(s: &str) -> (r: Option<Status>)
    ensures
        r == spec_parse_status(s@),
        s@ == "inbox"@ <==> r == Some(Status::Inbox),
        s@ == "todo"@ <==> r == Some(Status::Todo),
        s@ == "in_progress"@ <==> r == Some(Status::InProgress),
        s@ == "in_review"@ <==> r == Some(Status::InReview),
        s@ == "done"@ <==> r == Some(Status::Done),
        s@ == "cancelled"@ <==> r == Some(Status::Cancelled),
{
    let r = if str_eq(s, "inbox") {
        Some(Status::Inbox)
    } else if str_eq(s, "todo") {
        Some(Status::Todo)
    } else if str_eq(s, "in_progress") {
        Some(Status::InProgress)
    } else if str_eq(s, "in_review") {
        Some(Status::InReview)
    } else if str_eq(s, "done") {
        Some(Status::Done)
    } else if str_eq(s, "cancelled") {
        Some(Status::Cancelled)
    } else {
        None
    };
    proof {
        lemma_status_names_distinct();
        assert(Status::Inbox.wire_name() == "inbox"@ && Status::Todo.wire_name() == "todo"@);
        assert(Status::InProgress.wire_name() == "in_progress"@);
        assert(Status::InReview.wire_name() == "in_review"@);
        assert(Status::Done.wire_name() == "done"@ && Status::Cancelled.wire_name() == "cancelled"@);
        match r {
            Some(st) => lemma_status_wire_roundtrip(st),
            None => {
                assert forall|st: Status| st.wire_name() != s@ by {
                    match st {
                        Status::Inbox => {},
                        Status::Todo => {},
                        Status::InProgress => {},
                        Status::InReview => {},
                        Status::Done => {},
                        Status::Cancelled => {},
                    }
                }
            },
        }
    }
    r
}

/// What `serde_json` reads from a JSON text: for each key, in order, the
/// top-level member of that name when it holds a JSON string; or, when the
/// text is not JSON, the parser's message.
pub uninterp spec fn json_string_members(text: Seq<char>, keys: Seq<Seq<char>>) -> Result<
    Seq<Option<Seq<char>>>,
    Seq<char>,
>;

/// The text of each optional member that a read handed out.
pub open spec fn member_texts(v: Seq<Option<String>>) -> Seq<Option<Seq<char>>> {
    v.map_values(|o: Option<String>| opt_text(o))
}

/// The text of each key.
pub open spec fn key_texts(keys: Seq<&str>) -> Seq<Seq<char>> {
    keys.map_values(|k: &str| k@)
}

/// Parses `text` with `serde_json::from_str` into a `serde_json::Value`
/// and reads, for each key, `value[key].as_str()`. Claimed: the outcome is
/// the one named by `json_string_members` for the text and the keys, and a
/// successful read hands out one entry per key. Which texts parse, and the
/// error messages, are `serde_json`'s and are left to that name.
#[verifier::external_body]
fn read_string_members(text: &str, keys: &[&str]) -> (r: Result<Vec<Option<String>>, String>)
    ensures
        match r {
            Ok(v) => json_string_members(text@, key_texts(keys@)) == Ok::<
                Seq<Option<Seq<char>>>,
                Seq<char>,
            >(member_texts(v@)) && v@.len() == keys@.len(),
            Err(m) => json_string_members(text@, key_texts(keys@)) == Err::<
                Seq<Option<Seq<char>>>,
                Seq<char>,
            >(m@),
        },
{
    match serde_json::from_str::<serde_json::Value>(text) {
        Ok(v) => Ok(keys.iter().map(|k| v[*k].as_str().map(String::from)).collect()),
        Err(e) => Err(e.to_string()),
    }
}

/// The members of the `create_task` arguments that the draft is made of.
pub open spec fn draft_keys() -> Seq<Seq<char>> {
    seq!["title"@, "description"@, "priority"@, "status"@]
}

/// The message of the error for a tool call without a title.
pub open spec fn missing_title_message() -> Seq<char> {
    "create_task: missing required field 'title'"@
}

/// The message of the error for a reply without a `create_task` call.
pub open spec fn no_call_message() -> Seq<char> {
    "parse_task: model returned no create_task call"@
}

/// `r` is the draft made of the given member texts: no title is a
/// validation error; otherwise the title and description are copied and the
/// priority and status are read from their wire names, an unknown or absent
/// one leaving the field unset.
pub open spec fn draft_agrees(
    r: Result<TaskDraft, IntakeError>,
    title: Option<Seq<char>>,
    description: Option<Seq<char>>,
    priority: Option<Seq<char>>,
    status: Option<Seq<char>>,
) -> bool {
    match title {
        None => r matches Err(IntakeError::Validation(m)) && m@ == missing_title_message(),
        Some(t) => r matches Ok(d) && {
            &&& d.title@ == t
            &&& opt_text(d.description) == description
            &&& d.priority == match priority {
                Some(p) => spec_parse_priority(p),
                None => None,
            }
            &&& d.status == match status {
                Some(s) => spec_parse_status(s),
                None => None,
            }
        },
    }
}

/// Builds the draft from the string members of a `create_task` call.
pub fn draft_from_fields(
    title: Option<String>,
    description: Option<String>,
    priority: Option<String>,
    status: Option<String>,
) -> (r: Result<TaskDraft, IntakeError>)
    ensures
        draft_agrees(r, opt_text(title), opt_text(description), opt_text(priority), opt_text(status)),
        title is None ==> (r matches Err(IntakeError::Validation(m)) && m@
            == "create_task: missing required field 'title'"@),
        title is Some ==> r is Ok,
        r matches Ok(d) ==> d.title@ == title.unwrap()@,
        r matches Ok(d) ==> opt_text(d.description) == opt_text(description),
        r matches Ok(d) ==> (priority is None ==> d.priority is None) && (priority matches Some(
            p,
        ) ==> d.priority == spec_parse_priority(p@)),
        r matches Ok(d) ==> (status is None ==> d.status is None) && (status matches Some(s)
            ==> d.status == spec_parse_status(s@)),
{
    let title = match title {
        Some(t) => t,
        None => {
            return Err(IntakeError::validation("create_task: missing required field 'title'"));
        },
    };
    let mut draft = TaskDraft::new(title.as_str());
    draft.description = description;
    draft.priority = match priority {
        Some(p) => parse_priority(p.as_str()),
        None => None,
    };
    draft.status = match status {
        Some(s) => parse_status(s.as_str()),
        None => None,
    };
    Ok(draft)
}

/// `r` is the outcome for the JSON arguments `args` of a `create_task` call:
/// text that is not JSON is a serde error with the parser's message;
/// otherwise the draft made of the string members.
pub open spec fn arguments_outcome(r: Result<TaskDraft, IntakeError>, args: Seq<char>) -> bool {
    match json_string_members(args, draft_keys()) {
        Err(m) => r matches Err(IntakeError::Serde(e)) && e@ == m,
        Ok(f) => f.len() == 4 && draft_agrees(r, f[0], f[1], f[2], f[3]),
    }
}

/// Maps the JSON arguments of a `create_task` call onto a draft.
pub fn draft_from_arguments(arguments: &str) -> (r: Result<TaskDraft, IntakeError>)
    ensures
        arguments_outcome(r, arguments@),
        ({
            let members = json_string_members(
                arguments@,
                seq!["title"@, "description"@, "priority"@, "status"@],
            );
            &&& members matches Err(m) ==> (r matches Err(IntakeError::Serde(e)) && e@ == m)
            &&& members matches Ok(f) ==> {
                &&& f.len() == 4
                &&& (r is Ok <==> f[0] is Some)
                &&& r matches Ok(d) ==> {
                    &&& Some(d.title@) == f[0]
                    &&& opt_text(d.description) == f[1]
                    &&& d.priority == match f[2] {
                        Some(p) => spec_parse_priority(p),
                        None => None,
                    }
                    &&& d.status == match f[3] {
                        Some(s) => spec_parse_status(s),
                        None => None,
                    }
                }
            }
        }),
{
    let keys: [&str; 4] = ["title", "description", "priority", "status"];
    proof {
        assert(key_texts(keys@) =~= draft_keys());
    }
    match read_string_members(arguments, keys.as_slice()) {
        Err(m) => Err(IntakeError::Serde(m)),
        Ok(mut fields) => {
            let ghost f = member_texts(fields@);
            let status = fields.pop().unwrap();
            let priority = fields.pop().unwrap();
            let description = fields.pop().unwrap();
            let title = fields.pop().unwrap();
            assert(opt_text(title) == f[0]);
            assert(opt_text(description) == f[1]);
            assert(opt_text(priority) == f[2]);
            assert(opt_text(status) == f[3]);
            draft_from_fields(title, description, priority, status)
        },
    }
}

/// Whether an output is a call of the `create_task` tool.
pub open spec fn is_create_task_call(o: AiOutput) -> bool {
    o matches AiOutput::ToolCall(tc) && tc.name@ == create_task_tool_name()
}

/// Maps a provider's reply onto a draft: the first `create_task` call is
/// read; without one the reply is an AI error.
pub fn draft_from_outputs(outputs: &[AiOutput]) -> (r: Result<TaskDraft, IntakeError>)
    ensures
        (forall|i: int| 0 <= i < outputs@.len() ==> !is_create_task_call(#[trigger] outputs@[i]))
            ==> (r matches Err(IntakeError::Ai(m)) && m@ == no_call_message()),
        forall|i: int|
            0 <= i < outputs@.len() && is_create_task_call(#[trigger] outputs@[i]) && (forall|j: int|
                0 <= j < i ==> !is_create_task_call(outputs@[j])) ==> arguments_outcome(
                r,
                outputs@[i]->ToolCall_0.arguments@,
            ),
{
    let mut i: usize = 0;
    while i < outputs.len()
        invariant
            0 <= i <= outputs@.len(),
            forall|j: int| 0 <= j < i ==> !is_create_task_call(#[trigger] outputs@[j]),
        decreases outputs@.len() - i,
    {
        match &outputs[i] {
            AiOutput::ToolCall(tc) => {
                if str_eq(tc.name.as_str(), "create_task") {
                    return draft_from_arguments(tc.arguments.as_str());
                }
            },
            AiOutput::Other => {},
        }
        i = i + 1;
    }
    Err(IntakeError::ai("parse_task: model returned no create_task call"))
}

} // verus!
