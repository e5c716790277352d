//! The hook's JSON: the event text is read into a [`HookEvent`], and the
//! decision is written back as the JSON text the agent reads.
//!
//! Parsing and string escaping are serde_json's. A parsed value is seen one
//! level at a time: its kind and scalar, or for an array or object its
//! children as their compact JSON texts, which are parsed in turn where the
//! hook reads into them.
use crate::claude_code_hook::{
    hook_spec, pre_tool_use_response, value_view, EditEntry, EditsValue, HookEvent, HookHost,
    HookResponse, PermissionDecision, ToolInput, ToolInputEntry, ToolValue,
};
use crate::error::{err_of, error_view, ErrorKind, NonoError};
use crate::network_policy::opt_view;
use crate::text::str_eq;
use serde_json::Value;
use vstd::prelude::*;

verus! {

/// One member of a JSON object: its key and its value's compact JSON text.
#[derive(Debug, Clone)]
pub struct JsonMember {
    pub key: String,
    pub text: String,
}

/// A JSON value seen one level deep: scalars by their value (a number by
/// its text), arrays and objects by their children's compact JSON texts,
/// in order.
#[derive(Debug, Clone)]
pub enum JsonNode {
    Null,
    Bool(bool),
    Number(String),
    Str(String),
    Array(Vec<String>),
    Object(Vec<JsonMember>),
}

/// A node by its plain values.
pub enum NodeView {
    Null,
    Bool(bool),
    Number(Seq<char>),
    Str(Seq<char>),
    Array(Seq<Seq<char>>),
    Object(Seq<(Seq<char>, Seq<char>)>),
}

pub open spec fn node_view(n: JsonNode) -> NodeView {
    match n {
        JsonNode::Null => NodeView::Null,
        JsonNode::Bool(b) => NodeView::Bool(b),
        JsonNode::Number(t) => NodeView::Number(t@),
        JsonNode::Str(s) => NodeView::Str(s@),
        JsonNode::Array(items) => NodeView::Array(crate::text::views(items@)),
        JsonNode::Object(ms) => NodeView::Object(ms@.map_values(|m: JsonMember| (m.key@, m.text@))),
    }
}

/// What serde_json reads from a JSON text, as a node, or its error's text.
/// serde_json's grammar and its serialisation of numbers and children take
/// pages to state, so the result is named.
pub uninterp spec fn json_node_of(text: Seq<char>) -> Result<NodeView, Seq<char>>;

/// `serde_json::from_str` into a `serde_json::Value`, seen one level deep:
/// the contract claims that the result is the named node of the text, and
/// that a failure is the named error text.
#[verifier::external_body]
fn json_parse(text: &str) -> (r: Result<JsonNode, String>)
    ensures
        match r {
            Ok(n) => json_node_of(text@) == Ok::<NodeView, Seq<char>>(node_view(n)),
            Err(m) => json_node_of(text@) == Err::<NodeView, Seq<char>>(m@),
        },
{
    match serde_json::from_str::<Value>(text) {
        Err(e) => Err(e.to_string()),
        Ok(Value::Null) => Ok(JsonNode::Null),
        Ok(Value::Bool(b)) => Ok(JsonNode::Bool(b)),
        Ok(Value::Number(n)) => Ok(JsonNode::Number(n.to_string())),
        Ok(Value::String(s)) => Ok(JsonNode::Str(s)),
        Ok(Value::Array(a)) => Ok(JsonNode::Array(a.iter().map(|v| v.to_string()).collect())),
        Ok(Value::Object(m)) => Ok(
            JsonNode::Object(m.into_iter().map(|(key, v)| JsonMember { key, text: v.to_string() }).collect()),
        ),
    }
}

/// The node serde_json reads from a text, if it reads one.
pub open spec fn parsed(text: Seq<char>) -> Option<NodeView> {
    match json_node_of(text) {
        Ok(n) => Some(n),
        Err(_) => None,
    }
}

/// The text of the first member named `key`.
pub open spec fn lookup(ms: Seq<(Seq<char>, Seq<char>)>, key: Seq<char>) -> Option<Seq<char>>
    decreases ms.len(),
{
    if ms.len() == 0 {
        None
    } else if ms[0].0 == key {
        Some(ms[0].1)
    } else {
        lookup(ms.drop_first(), key)
    }
}

/// The member `key` of an object node, by its text; none for other nodes.
pub open spec fn node_field(n: NodeView, key: Seq<char>) -> Option<Seq<char>> {
    match n {
        NodeView::Object(ms) => lookup(ms, key),
        _ => None,
    }
}

/// The member `key` of the object a text holds.
pub open spec fn field(text: Seq<char>, key: Seq<char>) -> Option<Seq<char>> {
    match parsed(text) {
        Some(n) => node_field(n, key),
        None => None,
    }
}

/// The string a text holds, if it holds one.
pub open spec fn as_str(text: Seq<char>) -> Option<Seq<char>> {
    match parsed(text) {
        Some(NodeView::Str(s)) => Some(s),
        _ => None,
    }
}

pub open spec fn opt_as_str(t: Option<Seq<char>>) -> Option<Seq<char>> {
    match t {
        Some(x) => as_str(x),
        None => None,
    }
}

/// A field's value as the hook keeps it: a string by its text, anything
/// else by its JSON text.
pub open spec fn entry_value(text: Seq<char>) -> (bool, Seq<char>) {
    match as_str(text) {
        Some(s) => (true, s),
        None => (false, text),
    }
}

/// An entry read from an object member: its key, and its value.
pub open spec fn entry_fits(e: ToolInputEntry, m: (Seq<char>, Seq<char>)) -> bool {
    e.key@ == m.0 && value_view(e.value) == entry_value(m.1)
}

/// The entries of a tool input are the members of the object it holds,
/// in order; none when it holds no object.
pub open spec fn entries_match(es: Seq<ToolInputEntry>, n: Option<NodeView>) -> bool {
    match n {
        Some(NodeView::Object(ms)) => es.len() == ms.len() && forall|i: int|
            0 <= i < es.len() ==> #[trigger] entry_fits(es[i], ms[i]),
        _ => es.len() == 0,
    }
}

/// The `edits` value: missing, an array whose entries' string fields are
/// read, or anything else.
pub open spec fn edits_match(e: Option<EditsValue>, t: Option<Seq<char>>) -> bool {
    match t {
        None => e is None,
        Some(x) => match parsed(x) {
            Some(NodeView::Array(items)) => e matches Some(EditsValue::Array(es)) && es.len() == items.len() && forall|i: int|
                0 <= i < es.len() ==> #[trigger] opt_view(es[i].old_string) == opt_as_str(field(items[i], "old_string"@))
                    && opt_view(es[i].new_string) == opt_as_str(field(items[i], "new_string"@)),
            _ => e matches Some(EditsValue::NotArray),
        },
    }
}

/// The tool input read from its JSON text.
pub open spec fn input_matches(ti: ToolInput, t: Seq<char>) -> bool {
    &&& ti.is_object == (parsed(t) matches Some(NodeView::Object(_)))
    &&& opt_view(ti.file_path) == opt_as_str(field(t, "file_path"@))
    &&& opt_view(ti.content) == opt_as_str(field(t, "content"@))
    &&& opt_view(ti.old_string) == opt_as_str(field(t, "old_string"@))
    &&& opt_view(ti.new_string) == opt_as_str(field(t, "new_string"@))
    &&& opt_view(ti.command) == opt_as_str(field(t, "command"@))
    &&& edits_match(ti.edits, field(t, "edits"@))
    &&& entries_match(ti.entries@, parsed(t))
}

/// The event read from the node of its JSON text: the string fields it
/// names, and its `tool_input`.
pub open spec fn event_matches(ev: HookEvent, root: NodeView) -> bool {
    &&& opt_view(ev.hook_event_name) == opt_as_str(node_field(root, "hook_event_name"@))
    &&& opt_view(ev.tool_name) == opt_as_str(node_field(root, "tool_name"@))
    &&& match node_field(root, "tool_input"@) {
        None => ev.tool_input is None,
        Some(t) => ev.tool_input matches Some(ti) && input_matches(ti, t),
    }
}

/// The text of the member `key` of an object node.
pub fn member_text(n: &JsonNode, key: &str) -> (r: Option<String>)
    ensures
        opt_view(r) == node_field(node_view(*n), key@),
{
    match n {
        JsonNode::Object(ms) => {
            let ghost mv = ms@.map_values(|m: JsonMember| (m.key@, m.text@));
            assert(node_field(node_view(*n), key@) == lookup(mv, key@));
            assert(mv.subrange(0, mv.len() as int) =~= mv);
            let mut i: usize = 0;
            while i < ms.len()
                invariant
                    i <= ms.len(),
                    mv == ms@.map_values(|m: JsonMember| (m.key@, m.text@)),
                    node_field(node_view(*n), key@) == lookup(mv, key@),
                    lookup(mv, key@) == lookup(mv.subrange(i as int, mv.len() as int), key@),
                decreases ms.len() - i,
            {
                let ghost rest = mv.subrange(i as int, mv.len() as int);
                assert(rest.drop_first() =~= mv.subrange(i + 1, mv.len() as int));
                assert(rest[0] == (ms@[i as int].key@, ms@[i as int].text@));
                if str_eq(ms[i].key.as_str(), key) {
                    return Some(ms[i].text.clone());
                }
                i = i + 1;
            }
            assert(mv.subrange(i as int, mv.len() as int).len() == 0);
            None
        },
        _ => None,
    }
}

/// The string a JSON text holds, if it holds one.
pub fn text_as_str(text: &str) -> (r: Option<String>)
    ensures
        opt_view(r) == as_str(text@),
{
    match json_parse(text) {
        Ok(JsonNode::Str(s)) => Some(s),
        _ => None,
    }
}

fn opt_text_as_str(t: Option<String>) -> (r: Option<String>)
    ensures
        opt_view(r) == opt_as_str(opt_view(t)),
{
    match t {
        Some(x) => text_as_str(x.as_str()),
        None => None,
    }
}

fn string_field(n: &JsonNode, key: &str) -> (r: Option<String>)
    ensures
        opt_view(r) == opt_as_str(node_field(node_view(*n), key@)),
{
    opt_text_as_str(member_text(n, key))
}

fn edits_of(t: Option<String>) -> (r: Option<EditsValue>)
    ensures
        edits_match(r, opt_view(t)),
{
    let text = match t {
        None => return None,
        Some(x) => x,
    };
    let items = match json_parse(text.as_str()) {
        Ok(JsonNode::Array(items)) => items,
        _ => return Some(EditsValue::NotArray),
    };
    let ghost iv = crate::text::views(items@);
    let mut es: Vec<EditEntry> = Vec::new();
    let mut i: usize = 0;
    while i < items.len()
        invariant
            i <= items.len(),
            iv == crate::text::views(items@),
            es.len() == i,
            forall|j: int| 0 <= j < i ==> #[trigger] opt_view(es@[j].old_string) == opt_as_str(field(iv[j], "old_string"@))
                && opt_view(es@[j].new_string) == opt_as_str(field(iv[j], "new_string"@)),
        decreases items.len() - i,
    {
        let entry = match json_parse(items[i].as_str()) {
            Ok(node) => EditEntry {
                old_string: string_field(&node, "old_string"),
                new_string: string_field(&node, "new_string"),
            },
            Err(_) => EditEntry { old_string: None, new_string: None },
        };
        let ghost before = es@;
        es.push(entry);
        proof {
            assert(iv[i as int] == items@[i as int]@);
            assert forall|j: int| 0 <= j < i + 1 implies #[trigger] opt_view(es@[j].old_string) == opt_as_str(
                field(iv[j], "old_string"@),
            ) && opt_view(es@[j].new_string) == opt_as_str(field(iv[j], "new_string"@)) by {
                if j < i {
                    assert(es@[j] == before[j]);
                }
            }
        }
        i = i + 1;
    }
    Some(EditsValue::Array(es))
}

fn entries_of(ms: &Vec<JsonMember>) -> (r: Vec<ToolInputEntry>)
    ensures
        entries_match(r@, Some(NodeView::Object(ms@.map_values(|m: JsonMember| (m.key@, m.text@))))),
{
    let ghost mv = ms@.map_values(|m: JsonMember| (m.key@, m.text@));
    let mut es: Vec<ToolInputEntry> = Vec::new();
    let mut i: usize = 0;
    while i < ms.len()
        invariant
            i <= ms.len(),
            mv == ms@.map_values(|m: JsonMember| (m.key@, m.text@)),
            es.len() == i,
            forall|j: int| 0 <= j < i ==> #[trigger] entry_fits(es@[j], mv[j]),
        decreases ms.len() - i,
    {
        let m = &ms[i];
        let value = match text_as_str(m.text.as_str()) {
            Some(s) => ToolValue::Text(s),
            None => ToolValue::Other(m.text.clone()),
        };
        let ghost before = es@;
        es.push(ToolInputEntry { key: m.key.clone(), value });
        proof {
            assert(mv[i as int] == (ms@[i as int].key@, ms@[i as int].text@));
            assert(entry_fits(es@[i as int], mv[i as int]));
            assert forall|j: int| 0 <= j < i + 1 implies #[trigger] entry_fits(es@[j], mv[j]) by {
                if j < i {
                    assert(es@[j] == before[j]);
                }
            }
        }
        i = i + 1;
    }
    es
}

/// The tool input read from its JSON text.
pub fn tool_input_of(text: &str) -> (r: ToolInput)
    ensures
        input_matches(r, text@),
{
    match json_parse(text) {
        Ok(node) => {
            let entries = match &node {
                JsonNode::Object(ms) => entries_of(ms),
                _ => Vec::new(),
            };
            let is_object = match &node {
                JsonNode::Object(_) => true,
                _ => false,
            };
            ToolInput {
                is_object,
                entries,
                file_path: string_field(&node, "file_path"),
                content: string_field(&node, "content"),
                old_string: string_field(&node, "old_string"),
                new_string: string_field(&node, "new_string"),
                command: string_field(&node, "command"),
                edits: edits_of(member_text(&node, "edits")),
            }
        },
        Err(_) => ToolInput {
            is_object: false,
            entries: Vec::new(),
            file_path: None,
            content: None,
            old_string: None,
            new_string: None,
            command: None,
            edits: None,
        },
    }
}

/// The hook event read from the node of its JSON text.
pub fn event_from_json(root: &JsonNode) -> (ev: HookEvent)
    ensures
        event_matches(ev, node_view(*root)),
{
    let tool_input = match member_text(root, "tool_input") {
        None => None,
        Some(t) => Some(tool_input_of(t.as_str())),
    };
    HookEvent {
        hook_event_name: string_field(root, "hook_event_name"),
        tool_name: string_field(root, "tool_name"),
        tool_input,
    }
}

/// The JSON string literal serde_json writes for a string (quotes and
/// escapes), or its error's text. The escaping rules are serde_json's, so
/// the result is named.
pub uninterp spec fn json_string_text(s: Seq<char>) -> Result<Seq<char>, Seq<char>>;

/// `serde_json::to_string` of a string: the contract claims that the result
/// is the named literal of the string, and that a failure is the named
/// error text.
#[verifier::external_body]
fn json_quote(s: &str) -> (r: Result<String, String>)
    ensures
        match r {
            Ok(q) => json_string_text(s@) == Ok::<Seq<char>, Seq<char>>(q@),
            Err(m) => json_string_text(s@) == Err::<Seq<char>, Seq<char>>(m@),
        },
{
    serde_json::to_string(s).map_err(|e| e.to_string())
}

/// The JSON literal of a string, when serde_json writes one.
pub open spec fn quoted(s: Seq<char>) -> Seq<char> {
    match json_string_text(s) {
        Ok(q) => q,
        Err(_) => Seq::empty(),
    }
}

/// The JSON text of a field's value: a string as its literal, anything
/// else as the JSON text it was read with.
pub open spec fn value_text(v: ToolValue) -> Seq<char> {
    match v {
        ToolValue::Text(t) => quoted(t@),
        ToolValue::Other(t) => t@,
    }
}

pub open spec fn member_json(e: ToolInputEntry) -> Seq<char> {
    quoted(e.key@) + ":"@ + value_text(e.value)
}

/// The members of an object, in order, separated by commas.
pub open spec fn members_json(es: Seq<ToolInputEntry>) -> Seq<char>
    decreases es.len(),
{
    if es.len() == 0 {
        Seq::empty()
    } else if es.len() == 1 {
        member_json(es[0])
    } else {
        members_json(es.drop_last()) + ","@ + member_json(es.last())
    }
}

pub open spec fn decision_text(d: PermissionDecision) -> Seq<char> {
    match d {
        PermissionDecision::Allow => "allow"@,
        PermissionDecision::Deny => "deny"@,
    }
}

/// The JSON text of a response, its keys in the order serde_json writes
/// them: `hookSpecificOutput` holding `additionalContext` (when given),
/// `hookEventName`, `permissionDecision`, `permissionDecisionReason`, and
/// `updatedInput` (when given).
pub open spec fn response_json(h: HookResponse) -> Seq<char> {
    "{\"hookSpecificOutput\":{"@ + match h.additional_context {
        Some(c) => "\"additionalContext\":"@ + quoted(c@) + ","@,
        None => Seq::empty(),
    } + "\"hookEventName\":\"PreToolUse\",\"permissionDecision\":\""@ + decision_text(h.decision)
        + "\",\"permissionDecisionReason\":"@ + quoted(h.reason@) + match h.updated_input {
        Some(es) => ",\"updatedInput\":{"@ + members_json(es@) + "}"@,
        None => Seq::empty(),
    } + "}}"@
}

/// A string the response's text quotes.
pub open spec fn quotes(h: HookResponse, s: Seq<char>) -> bool {
    ||| s == h.reason@
    ||| (h.additional_context matches Some(c) && s == c@)
    ||| (h.updated_input matches Some(es) && exists|i: int| 0 <= i < es@.len() && (s == es@[i].key@
        || (es@[i].value matches ToolValue::Text(t) && s == t@)))
}

fn quote_or_fail(s: &str, Ghost(h): Ghost<HookResponse>) -> (r: Result<String, String>)
    requires
        quotes(h, s@),
    ensures
        match r {
            Ok(q) => q@ == quoted(s@) && json_string_text(s@) is Ok,
            Err(m) => exists|x: Seq<char>| #[trigger] quotes(h, x) && json_string_text(x) == Err::<Seq<char>, Seq<char>>(m@),
        },
{
    json_quote(s)
}

fn members_text(es: &Vec<ToolInputEntry>, Ghost(h): Ghost<HookResponse>) -> (r: Result<String, String>)
    requires
        h.updated_input matches Some(u) && u@ == es@,
    ensures
        match r {
            Ok(t) => t@ == members_json(es@),
            Err(m) => exists|x: Seq<char>| #[trigger] quotes(h, x) && json_string_text(x) == Err::<Seq<char>, Seq<char>>(m@),
        },
{
    let mut out = String::new();
    let mut i: usize = 0;
    while i < es.len()
        invariant
            i <= es.len(),
            h.updated_input matches Some(u) && u@ == es@,
            out@ == members_json(es@.take(i as int)),
        decreases es.len() - i,
    {
        let e = &es[i];
        proof {
            assert(quotes(h, e.key@));
        }
        let k = quote_or_fail(e.key.as_str(), Ghost(h))?;
        let v = match &e.value {
            ToolValue::Text(t) => {
                proof {
                    assert(quotes(h, t@));
                }
                quote_or_fail(t.as_str(), Ghost(h))?
            },
            ToolValue::Other(t) => t.clone(),
        };
        let ghost before = out@;
        if i > 0 {
            out.append(",");
        }
        out.append(k.as_str());
        out.append(":");
        out.append(v.as_str());
        proof {
            let p = es@.take(i + 1);
            assert(p.drop_last() =~= es@.take(i as int));
            assert(p.last() == es@[i as int]);
            if i == 0 {
                assert(es@.take(0) =~= Seq::<ToolInputEntry>::empty());
            }
        }
        i = i + 1;
    }
    proof {
        assert(es@.take(es.len() as int) =~= es@);
    }
    Ok(out)
}

/// The JSON text of a response, or the text of the first string serde_json
/// could not write.
pub fn response_text(h: &HookResponse) -> (r: Result<String, String>)
    ensures
        match r {
            Ok(t) => t@ == response_json(*h),
            Err(m) => exists|x: Seq<char>| #[trigger] quotes(*h, x) && json_string_text(x) == Err::<Seq<char>, Seq<char>>(m@),
        },
{
    let ghost g = *h;
    let mut out = String::from_str("{\"hookSpecificOutput\":{");
    match &h.additional_context {
        Some(c) => {
            let q = quote_or_fail(c.as_str(), Ghost(g))?;
            out.append("\"additionalContext\":");
            out.append(q.as_str());
            out.append(",");
        },
        None => {},
    }
    out.append("\"hookEventName\":\"PreToolUse\",\"permissionDecision\":\"");
    match h.decision {
        PermissionDecision::Allow => out.append("allow"),
        PermissionDecision::Deny => out.append("deny"),
    }
    out.append("\",\"permissionDecisionReason\":");
    let reason = quote_or_fail(h.reason.as_str(), Ghost(g))?;
    out.append(reason.as_str());
    match &h.updated_input {
        Some(es) => {
            let m = members_text(es, Ghost(g))?;
            out.append(",\"updatedInput\":{");
            out.append(m.as_str());
            out.append("}");
        },
        None => {},
    }
    out.append("}}");
    Ok(out)
}

/// What the hook answers to an event text: an unreadable text fails; the
/// event read from it is decided as [`hook_spec`] says; and an answer is
/// written as [`response_json`] says (a string serde_json cannot write
/// fails the hook).
pub open spec fn hook_text_spec(input: Seq<char>, host: &HookHost, r: Result<Option<String>, NonoError>) -> bool {
    match json_node_of(input) {
        Err(m) => r matches Err(e) && error_view(e) == err_of(ErrorKind::HookInstall, "invalid agent hook JSON on stdin: "@ + m),
        Ok(root) => exists|ev: HookEvent, hr: Result<Option<HookResponse>, NonoError>|
            #![trigger event_matches(ev, root), hook_spec(ev, host, hr)]
            event_matches(ev, root) && hook_spec(ev, host, hr) && match hr {
                Err(e) => r == Err::<Option<String>, NonoError>(e),
                Ok(None) => r == Ok::<Option<String>, NonoError>(None),
                Ok(Some(h)) => match r {
                    Ok(Some(t)) => t@ == response_json(h),
                    Err(e) => exists|x: Seq<char>| #[trigger] quotes(h, x) && (json_string_text(x) matches Err(m)
                        && error_view(e) == err_of(ErrorKind::HookInstall, "failed to serialize agent hook response: "@ + m)),
                    Ok(None) => false,
                },
            },
    }
}

/// Answers a PreToolUse hook event given as JSON text with the JSON text
/// to print, if any.
pub fn pre_tool_use_response_text(input: &str, host: &HookHost) -> (r: Result<Option<String>, NonoError>)
    ensures
        hook_text_spec(input@, host, r),
{
    let root = match json_parse(input) {
        Ok(n) => n,
        Err(m) => {
            let mut msg = String::from_str("invalid agent hook JSON on stdin: ");
            msg.append(m.as_str());
            return Err(NonoError::HookInstall(msg));
        },
    };
    let event = event_from_json(&root);
    let hr = pre_tool_use_response(&event, host);
    assert(event_matches(event, node_view(root)) && hook_spec(event, host, hr));
    match hr {
        Err(e) => Err(e),
        Ok(None) => Ok(None),
        Ok(Some(h)) => match response_text(&h) {
            Ok(t) => Ok(Some(t)),
            Err(m) => {
                let mut msg = String::from_str("failed to serialize agent hook response: ");
                msg.append(m.as_str());
                Err(NonoError::HookInstall(msg))
            },
        },
    }
}

} // verus!
