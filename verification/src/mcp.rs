//! Decisions of the intake MCP surface: which methods exist, which tool
//! names advertise them, how a request's parameters become a raw item, and
//! which error reply each failure gets.

use vstd::prelude::*;

use crate::ai::texts;
use crate::error::IntakeError;
use crate::raw_item::{NewRawItem, RawItemKind};
use crate::text::str_eq;

verus! {

/// The methods that the surface dispatches.
#[derive(Clone, Copy, Debug, PartialEq, Eq, Structural)]
pub enum Method {
    IngestRaw,
    ListRaw,
    Parse,
}

impl Method {
    /// The wire name of a method.
    pub open spec fn wire_name(self) -> Seq<char> {
        match self {
            Method::IngestRaw => "torii.ingest_raw"@,
            Method::ListRaw => "torii.list_raw"@,
            Method::Parse => "torii.parse"@,
        }
    }

    /// The method whose wire name is `s`, if any.
    pub open spec fn spec_from_name(s: Seq<char>) -> Option<Method> {
        if exists|m: Method| m.wire_name() == s {
            Some(choose|m: Method| m.wire_name() == s)
        } else {
            None
        }
    }

    pub fn name(self) -> (r: &'static str)
        ensures
            r@ == self.wire_name(),
            self == Method::IngestRaw ==> r@ == "torii.ingest_raw"@,
            self == Method::ListRaw ==> r@ == "torii.list_raw"@,
            self == Method::Parse ==> r@ == "torii.parse"@,
    {
        match self {
            Method::IngestRaw => "torii.ingest_raw",
            Method::ListRaw => "torii.list_raw",
            Method::Parse => "torii.parse",
        }
    }

    pub fn from_name(s: &str) -> (r: Option<Method>)
        ensures
            r == Self::spec_from_name(s@),
    {
        let r = if str_eq(s, "torii.ingest_raw") {
            Some(Method::IngestRaw)
        } else if str_eq(s, "torii.list_raw") {
            Some(Method::ListRaw)
        } else if str_eq(s, "torii.parse") {
            Some(Method::Parse)
        } else {
            None
        };
        proof {
            match r {
                Some(m) => lemma_method_name_roundtrip(m),
                None => {
                    assert forall|m: Method| m.wire_name() != s@ by {
                        match m {
                            Method::IngestRaw => {},
                            Method::ListRaw => {},
                            Method::Parse => {},
                        }
                    }
                },
            }
        }
        r
    }
}

/// Every method's wire name routes back to that method.
pub proof fn lemma_method_name_roundtrip(m: Method)
    ensures
        Method::spec_from_name(m.wire_name()) == Some(m),
{
    reveal_strlit("torii.ingest_raw");
    reveal_strlit("torii.list_raw");
    reveal_strlit("torii.parse");
    assert("torii.ingest_raw"@[6] != "torii.list_raw"@[6]);
    assert("torii.ingest_raw"@[6] != "torii.parse"@[6]);
    assert("torii.list_raw"@[6] != "torii.parse"@[6]);
    assert(forall|a: Method, b: Method| a.wire_name() == b.wire_name() ==> a == b);
    let q = choose|q: Method| q.wire_name() == m.wire_name();
    assert(q.wire_name() == m.wire_name());
}

/// An error answer: the HTTP status, the error kind and its detail.
#[derive(Clone, Debug, PartialEq, Eq)]
pub struct ErrorReply {
    pub status: u16,
    pub error: String,
    pub detail: String,
}

/// A reply with the given status, kind and detail texts.
pub open spec fn reply_is(r: ErrorReply, status: u16, error: Seq<char>, detail: Seq<char>) -> bool {
    r.status == status && r.error@ == error && r.detail@ == detail
}

fn reply(status: u16, error: &str, detail: &str) -> (r: ErrorReply)
    ensures
        reply_is(r, status, error@, detail@),
{
    ErrorReply { status, error: error.to_owned(), detail: detail.to_owned() }
}

/// Routes a method name: a known method, or `400 unknown_method` with the
/// name as detail.
pub fn route(method: &str) -> (r: Result<Method, ErrorReply>)
    ensures
        match Method::spec_from_name(method@) {
            Some(m) => r == Ok::<Method, ErrorReply>(m),
            None => r matches Err(e) && reply_is(e, 400, "unknown_method"@, method@),
        },
{
    match Method::from_name(method) {
        Some(m) => Ok(m),
        None => Err(reply(400, "unknown_method", method)),
    }
}

/// Parameters that do not fit the method: `400 invalid_params`.
pub fn invalid_params(detail: &str) -> (r: ErrorReply)
    ensures
        reply_is(r, 400, "invalid_params"@, detail@),
{
    reply(400, "invalid_params", detail)
}

/// A failure of the store: `500 storage_error`.
pub fn storage_error(detail: &str) -> (r: ErrorReply)
    ensures
        reply_is(r, 500, "storage_error"@, detail@),
{
    reply(500, "storage_error", detail)
}

/// No AI provider is configured: an honest `503 ai_not_configured`.
pub fn ai_not_configured() -> (r: ErrorReply)
    ensures
        reply_is(
            r,
            503,
            "ai_not_configured"@,
            "OPENAI_API_KEY not set; torii-server has no AI provider"@,
        ),
{
    reply(503, "ai_not_configured", "OPENAI_API_KEY not set; torii-server has no AI provider")
}

/// Maps an error of the `parse` operation onto the wire: a problem with
/// the caller's input is `400 validation`, a provider or upstream problem
/// is `502 ai_upstream`.
pub fn ai_error(e: &IntakeError) -> (r: ErrorReply)
    ensures
        match e {
            IntakeError::Validation(m) => reply_is(r, 400, "validation"@, m@),
            _ => reply_is(r, 502, "ai_upstream"@, e.text()),
        },
{
    match e {
        IntakeError::Validation(m) => reply(400, "validation", m.as_str()),
        _ => {
            let detail = e.to_string();
            reply(502, "ai_upstream", detail.as_str())
        },
    }
}

/// The order in which a `parse` request is answered: parameters that do not
/// fit are `400 invalid_params` (with the reader's message as detail), even
/// without a provider; fitting parameters without a configured provider are
/// `503 ai_not_configured`; otherwise the request goes to the provider.
pub fn parse_gate(params: Result<(), &str>, has_provider: bool) -> (r: Result<(), ErrorReply>)
    ensures
        match params {
            Err(detail) => r matches Err(e) && reply_is(e, 400, "invalid_params"@, detail@),
            Ok(()) => if has_provider {
                r is Ok
            } else {
                r matches Err(e) && reply_is(
                    e,
                    503,
                    "ai_not_configured"@,
                    "OPENAI_API_KEY not set; torii-server has no AI provider"@,
                )
            },
        },
{
    match params {
        Err(detail) => Err(invalid_params(detail)),
        Ok(()) => if has_provider {
            Ok(())
        } else {
            Err(ai_not_configured())
        },
    }
}

/// The number of items that `list_raw` returns when no limit is given.
pub fn default_limit() -> (r: i64)
    ensures
        r == 100,
{
    100
}

/// The parameters of `ingest_raw`: the raw intake and an optional link.
pub struct IngestParams {
    pub source: String,
    pub kind: RawItemKind,
    pub body: String,
    pub link: Option<String>,
}

/// The new raw item that an `ingest_raw` request describes.
pub fn ingest_item(p: &IngestParams) -> (r: NewRawItem)
    ensures
        r.id is None,
        r.source@ == p.source@,
        r.kind == p.kind,
        r.body@ == p.body@,
        match p.link {
            Some(t) => r.link matches Some(l) && l.target@ == t@,
            None => r.link is None,
        },
{
    let draft = NewRawItem::new(p.source.as_str(), p.kind, p.body.as_str());
    match &p.link {
        Some(target) => draft.with_link(target.as_str()),
        None => draft,
    }
}

/// The JSON type of a tool's input.
#[derive(Clone, Copy, Debug, PartialEq, Eq, Structural)]
pub enum InputType {
    Text,
    Integer,
}

/// One input of an MCP tool: its name, type, optional description and,
/// for an integer, optional least value.
pub struct ToolInput {
    pub name: &'static str,
    pub kind: InputType,
    pub description: Option<&'static str>,
    pub minimum: Option<i64>,
}

/// The descriptor of an MCP tool, as `tools/list` lists it: name,
/// description, the object of inputs and the inputs that must be given.
pub struct McpTool {
    pub name: &'static str,
    pub description: &'static str,
    pub inputs: Vec<ToolInput>,
    pub required: Vec<&'static str>,
}

/// The text of an optional static string.
pub open spec fn opt_static_text(o: Option<&'static str>) -> Option<Seq<char>> {
    match o {
        Some(s) => Some(s@),
        None => None,
    }
}

/// `i` is the input of the given name, type, description and least value.
pub open spec fn input_is(
    i: ToolInput,
    name: Seq<char>,
    kind: InputType,
    description: Option<Seq<char>>,
    minimum: Option<i64>,
) -> bool {
    &&& i.name@ == name
    &&& i.kind == kind
    &&& opt_static_text(i.description) == description
    &&& i.minimum == minimum
}

fn input(
    name: &'static str,
    kind: InputType,
    description: Option<&'static str>,
    minimum: Option<i64>,
) -> (r: ToolInput)
    ensures
        input_is(r, name@, kind, opt_static_text(description), minimum),
{
    ToolInput { name, kind, description, minimum }
}

/// The descriptors of the advertised tools, one per method, in catalogue
/// order: `ingest_raw` takes source, kind, body (required) and an optional
/// link; `list_raw` an optional positive limit; `parse` the required input
/// text. Every required input is one of the tool's inputs.
pub fn tool_descriptors() -> (r: Vec<McpTool>)
    ensures
        r@.len() == 3,
        forall|i: int| 0 <= i < 3 ==> (#[trigger] r@[i]).name@ == tool_catalogue()[i],
        Method::spec_from_name(dot_first_underscore(r@[0].name@)) == Some(Method::IngestRaw),
        Method::spec_from_name(dot_first_underscore(r@[1].name@)) == Some(Method::ListRaw),
        Method::spec_from_name(dot_first_underscore(r@[2].name@)) == Some(Method::Parse),
        r@[0].description@
            == "Build a typed RawItem from raw intake (source, kind, body, optional link)."@,
        r@[0].inputs@.len() == 4,
        input_is(r@[0].inputs@[0], "source"@, InputType::Text, None, None),
        input_is(
            r@[0].inputs@[1],
            "kind"@,
            InputType::Text,
            Some(
                "Media type: text, document, reference, binary, or event. Semantic/free-form values are treated as text."@,
            ),
            None,
        ),
        input_is(r@[0].inputs@[2], "body"@, InputType::Text, None, None),
        input_is(r@[0].inputs@[3], "link"@, InputType::Text, None, None),
        texts(r@[0].required@) == seq!["source"@, "kind"@, "body"@],
        r@[1].description@ == "List persisted RawItems, newest first."@,
        r@[1].inputs@.len() == 1,
        input_is(r@[1].inputs@[0], "limit"@, InputType::Integer, None, Some(1i64)),
        r@[1].required@.len() == 0,
        r@[2].description@
            == "NL→TaskDraft AI operation: parse free-form text into a task draft."@,
        r@[2].inputs@.len() == 1,
        input_is(r@[2].inputs@[0], "input"@, InputType::Text, None, None),
        texts(r@[2].required@) == seq!["input"@],
        forall|t: int, j: int|
            0 <= t < 3 && 0 <= j < r@[t].required@.len() ==> exists|k: int|
                0 <= k < r@[t].inputs@.len() && (#[trigger] r@[t].inputs@[k]).name@
                    == (#[trigger] r@[t].required@[j])@,
{
    let names = tool_names();
    assert(names@.map_values(|s: &'static str| s@).len() == names@.len());
    assert(names@.len() == 3);
    assert(names@.map_values(|s: &'static str| s@)[0] == names@[0]@);
    assert(names@.map_values(|s: &'static str| s@)[1] == names@[1]@);
    assert(names@.map_values(|s: &'static str| s@)[2] == names@[2]@);
    let ingest = McpTool {
        name: names[0],
        description: "Build a typed RawItem from raw intake (source, kind, body, optional link).",
        inputs: vec![
            input("source", InputType::Text, None, None),
            input(
                "kind",
                InputType::Text,
                Some(
                    "Media type: text, document, reference, binary, or event. Semantic/free-form values are treated as text.",
                ),
                None,
            ),
            input("body", InputType::Text, None, None),
            input("link", InputType::Text, None, None),
        ],
        required: vec!["source", "kind", "body"],
    };
    let list = McpTool {
        name: names[1],
        description: "List persisted RawItems, newest first.",
        inputs: vec![input("limit", InputType::Integer, None, Some(1))],
        required: Vec::new(),
    };
    let parse = McpTool {
        name: names[2],
        description: "NL→TaskDraft AI operation: parse free-form text into a task draft.",
        inputs: vec![input("input", InputType::Text, None, None)],
        required: vec!["input"],
    };
    let r = vec![ingest, list, parse];
    proof {
        lemma_tool_catalogue_dispatch();
    }
    assert(names@[0]@ == tool_catalogue()[0]);
    assert(names@[1]@ == tool_catalogue()[1]);
    assert(names@[2]@ == tool_catalogue()[2]);
    assert(texts(r@[0].required@) =~= seq!["source"@, "kind"@, "body"@]);
    assert(texts(r@[2].required@) =~= seq!["input"@]);
    assert forall|t: int, j: int|
        0 <= t < 3 && 0 <= j < r@[t].required@.len() implies exists|k: int|
            0 <= k < r@[t].inputs@.len() && (#[trigger] r@[t].inputs@[k]).name@
                == (#[trigger] r@[t].required@[j])@ by {
        if t == 0 {
            assert(r@[0].inputs@[j].name@ == r@[0].required@[j]@);
        } else {
            assert(r@[2].inputs@[0].name@ == r@[2].required@[0]@);
        }
    }
    r
}

/// `s` with its first underscore turned into a dot.
pub open spec fn dot_first_underscore(s: Seq<char>) -> Seq<char>
    decreases s.len(),
{
    if s.len() == 0 {
        s
    } else if s[0] == '_' {
        seq!['.'] + s.drop_first()
    } else {
        seq![s[0]] + dot_first_underscore(s.drop_first())
    }
}

/// The tool names that the surface advertises, one per method.
pub open spec fn tool_catalogue() -> Seq<Seq<char>> {
    seq!["torii_ingest_raw"@, "torii_list_raw"@, "torii_parse"@]
}

/// The advertised tool names, in catalogue order.
pub fn tool_names() -> (r: Vec<&'static str>)
    ensures
        r@.map_values(|s: &'static str| s@) == tool_catalogue(),
        r@.map_values(|s: &'static str| s@) == seq![
            "torii_ingest_raw"@,
            "torii_list_raw"@,
            "torii_parse"@,
        ],
{
    let r = vec!["torii_ingest_raw", "torii_list_raw", "torii_parse"];
    assert(r@.map_values(|s: &'static str| s@) =~= tool_catalogue());
    r
}

/// The method name that a tool name advertises: its first underscore
/// becomes a dot.
pub fn tool_method_name(tool: &str) -> (r: String)
    ensures
        r@ == dot_first_underscore(tool@),
{
    let n = tool.unicode_len();
    let mut i: usize = 0;
    assert(tool@.take(0) =~= Seq::<char>::empty());
    assert(tool@.skip(0) =~= tool@);
    assert(tool@.take(0) + dot_first_underscore(tool@.skip(0)) =~= dot_first_underscore(tool@));
    while i < n
        invariant
            n == tool@.len(),
            0 <= i <= n,
            forall|j: int| 0 <= j < i ==> tool@[j] != '_',
            dot_first_underscore(tool@) == tool@.take(i as int) + dot_first_underscore(
                tool@.skip(i as int),
            ),
        decreases n - i,
    {
        let c = tool.get_char(i);
        let ghost rest = tool@.skip(i as int);
        assert(rest[0] == c);
        assert(rest.drop_first() =~= tool@.skip(i + 1));
        if c == '_' {
            let head = tool.substring_char(0, i);
            let tail = tool.substring_char(i + 1, n);
            let mut out = head.to_owned();
            proof {
                reveal_strlit(".");
            }
            out.append(".");
            out.append(tail);
            assert(out@ =~= dot_first_underscore(tool@));
            return out;
        }
        assert(tool@.take(i as int) + seq![c] =~= tool@.take(i + 1));
        i = i + 1;
    }
    assert(tool@.take(n as int) =~= tool@);
    assert(tool@.skip(n as int) =~= Seq::<char>::empty());
    tool.to_owned()
}

/// Where the first underscore of `s` is at position `k`, the dotted name is
/// the part before it, a dot, and the part after it.
proof fn lemma_dot_at(s: Seq<char>, k: int)
    requires
        0 <= k < s.len(),
        s[k] == '_',
        forall|j: int| 0 <= j < k ==> s[j] != '_',
    ensures
        dot_first_underscore(s) == s.take(k) + seq!['.'] + s.skip(k + 1),
    decreases k,
{
    if k == 0 {
        assert(s.drop_first() =~= s.skip(1));
        assert(s.take(0) + seq!['.'] + s.skip(1) =~= seq!['.'] + s.skip(1));
    } else {
        let t = s.drop_first();
        assert forall|j: int| 0 <= j < k - 1 implies t[j] != '_' by {
            assert(t[j] == s[j + 1]);
        }
        lemma_dot_at(t, k - 1);
        assert(t.skip(k) =~= s.skip(k + 1));
        assert(seq![s[0]] + (t.take(k - 1) + seq!['.'] + t.skip(k)) =~= s.take(k) + seq!['.']
            + s.skip(k + 1));
    }
}

/// Every advertised tool name stands for a dispatchable method, and every
/// method is advertised by one tool name.
pub proof fn lemma_tools_match_methods()
    ensures
        forall|i: int|
            0 <= i < tool_catalogue().len() ==> Method::spec_from_name(
                dot_first_underscore(#[trigger] tool_catalogue()[i]),
            ) is Some,
        forall|m: Method|
            #![trigger m.wire_name()]
            exists|i: int|
                0 <= i < tool_catalogue().len() && #[trigger] dot_first_underscore(
                    tool_catalogue()[i],
                ) == m.wire_name(),
{
    reveal_strlit("torii_ingest_raw");
    reveal_strlit("torii_list_raw");
    reveal_strlit("torii_parse");
    reveal_strlit("torii.ingest_raw");
    reveal_strlit("torii.list_raw");
    reveal_strlit("torii.parse");
    let t0 = "torii_ingest_raw"@;
    let t1 = "torii_list_raw"@;
    let t2 = "torii_parse"@;
    lemma_dot_at(t0, 5);
    lemma_dot_at(t1, 5);
    lemma_dot_at(t2, 5);
    assert(dot_first_underscore(t0) =~= "torii.ingest_raw"@);
    assert(dot_first_underscore(t1) =~= "torii.list_raw"@);
    assert(dot_first_underscore(t2) =~= "torii.parse"@);
    lemma_method_name_roundtrip(Method::IngestRaw);
    lemma_method_name_roundtrip(Method::ListRaw);
    lemma_method_name_roundtrip(Method::Parse);
    assert(tool_catalogue()[0] == t0);
    assert(tool_catalogue()[1] == t1);
    assert(tool_catalogue()[2] == t2);
    assert forall|m: Method|
        #![trigger m.wire_name()]
        exists|i: int|
            0 <= i < tool_catalogue().len() && #[trigger] dot_first_underscore(
                tool_catalogue()[i],
            ) == m.wire_name() by {
        match m {
            Method::IngestRaw => {
                assert(dot_first_underscore(tool_catalogue()[0]) == m.wire_name());
            },
            Method::ListRaw => {
                assert(dot_first_underscore(tool_catalogue()[1]) == m.wire_name());
            },
            Method::Parse => {
                assert(dot_first_underscore(tool_catalogue()[2]) == m.wire_name());
            },
        }
    }
}

/// A method is routed from exactly its own wire name: `torii.ingest_raw`
/// builds a raw item, `torii.list_raw` lists them, `torii.parse` drafts a
/// task; every other name routes nowhere.
pub proof fn lemma_method_names_literal()
    ensures
        forall|s: Seq<char>|
            #![trigger Method::spec_from_name(s)]
            (Method::spec_from_name(s) == Some(Method::IngestRaw) <==> s == "torii.ingest_raw"@)
                && (Method::spec_from_name(s) == Some(Method::ListRaw) <==> s
                == "torii.list_raw"@) && (Method::spec_from_name(s) == Some(Method::Parse) <==> s
                == "torii.parse"@) && (Method::spec_from_name(s) is None <==> (s
                != "torii.ingest_raw"@ && s != "torii.list_raw"@ && s != "torii.parse"@)),
{
    lemma_method_name_roundtrip(Method::IngestRaw);
    lemma_method_name_roundtrip(Method::ListRaw);
    lemma_method_name_roundtrip(Method::Parse);
    assert forall|s: Seq<char>| #![trigger Method::spec_from_name(s)]
        (Method::spec_from_name(s) == Some(Method::IngestRaw) <==> s == "torii.ingest_raw"@)
            && (Method::spec_from_name(s) == Some(Method::ListRaw) <==> s == "torii.list_raw"@)
            && (Method::spec_from_name(s) == Some(Method::Parse) <==> s == "torii.parse"@) && (
        Method::spec_from_name(s) is None <==> (s != "torii.ingest_raw"@ && s != "torii.list_raw"@
            && s != "torii.parse"@)) by {
        if exists|m: Method| m.wire_name() == s {
            let m = choose|m: Method| m.wire_name() == s;
            assert(Method::spec_from_name(s) == Some(m));
        } else {
            assert(Method::IngestRaw.wire_name() != s);
            assert(Method::ListRaw.wire_name() != s);
            assert(Method::Parse.wire_name() != s);
        }
    }
}

/// The advertised tools, in catalogue order, dispatch to ingest, list and
/// parse: `torii_ingest_raw`, `torii_list_raw`, `torii_parse`.
pub proof fn lemma_tool_catalogue_dispatch()
    ensures
        tool_catalogue() == seq!["torii_ingest_raw"@, "torii_list_raw"@, "torii_parse"@],
        Method::spec_from_name(dot_first_underscore(tool_catalogue()[0])) == Some(
            Method::IngestRaw,
        ),
        Method::spec_from_name(dot_first_underscore(tool_catalogue()[1])) == Some(Method::ListRaw),
        Method::spec_from_name(dot_first_underscore(tool_catalogue()[2])) == Some(Method::Parse),
{
    reveal_strlit("torii_ingest_raw");
    reveal_strlit("torii_list_raw");
    reveal_strlit("torii_parse");
    reveal_strlit("torii.ingest_raw");
    reveal_strlit("torii.list_raw");
    reveal_strlit("torii.parse");
    let t0 = "torii_ingest_raw"@;
    let t1 = "torii_list_raw"@;
    let t2 = "torii_parse"@;
    lemma_dot_at(t0, 5);
    lemma_dot_at(t1, 5);
    lemma_dot_at(t2, 5);
    assert(dot_first_underscore(t0) =~= "torii.ingest_raw"@);
    assert(dot_first_underscore(t1) =~= "torii.list_raw"@);
    assert(dot_first_underscore(t2) =~= "torii.parse"@);
    lemma_method_names_literal();
    assert(Method::spec_from_name("torii.ingest_raw"@) == Some(Method::IngestRaw));
    assert(Method::spec_from_name("torii.list_raw"@) == Some(Method::ListRaw));
    assert(Method::spec_from_name("torii.parse"@) == Some(Method::Parse));
}

} // verus!
