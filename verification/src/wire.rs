//! The fenced tool-call wire format: a best-effort two-stage lexer that
//! extracts a structured tool call from free-form model text.
//!
//! The primary stage looks for a fenced block opened by a literal
//! `` ```tool `` marker and closed by the first following `` ``` ``; its
//! contents must be a JSON object `{"tool": ..., "arguments": {...},
//! "id": ...?}`.  The fallback stage, used only when the primary stage
//! finds nothing parseable, requires the literal key `"tool"` somewhere in
//! the text and tries the span from the first `{` to the last `}`.  Any
//! failure is silent: absent or malformed input means "no tool call",
//! never an error.

use vstd::prelude::*;

use crate::json::JsonNode;
use crate::json::JsonValue;
use crate::json::json_members_match;
use crate::json::json_matches;
use crate::json::parse_json;
use crate::json::spec_parse_json;
use crate::outside::uuid_hyphenated;
use crate::strutil::chars_of;
use crate::strutil::find_char;
use crate::strutil::find_from;
use crate::strutil::lemma_spec_find;
use crate::strutil::rfind_char;
use crate::strutil::slice_range;
use crate::strutil::spec_find;
use crate::strutil::spec_find_char;
use crate::strutil::spec_rfind_char;
use crate::strutil::spec_contains_from;
use crate::strutil::str_eq;
use crate::tool::ToolCall;

verus! {

/// The abstract content of a tool call.
pub struct ToolCallNode {
    pub name: Seq<char>,
    pub arguments: Seq<(Seq<char>, JsonNode)>,
    pub id: Option<Seq<char>>,
}

/// Whether an executable tool call carries the abstract content `n`
/// (ignoring the id).
pub open spec fn tool_call_matches(c: ToolCall, n: ToolCallNode) -> bool {
    &&& c.name@ == n.name
    &&& json_members_match(c.arguments@, n.arguments)
}

/// The value under a key in an abstract member list (first occurrence).
pub open spec fn spec_node_lookup(ns: Seq<(Seq<char>, JsonNode)>, key: Seq<char>) -> Option<
    JsonNode,
>
    decreases ns.len(),
{
    if ns.len() == 0 {
        None
    } else if ns[0].0 == key {
        Some(ns[0].1)
    } else {
        spec_node_lookup(ns.drop_first(), key)
    }
}

/// The tool call described by a JSON value: an object whose `tool` member
/// is a string, whose `arguments` member is an object, and whose optional
/// `id` member is a string.
pub open spec fn spec_tool_call_of_json(n: JsonNode) -> Option<ToolCallNode> {
    match n {
        JsonNode::Obj(ms) => match spec_node_lookup(ms, "tool"@) {
            Some(JsonNode::Text(name)) => match spec_node_lookup(ms, "arguments"@) {
                Some(JsonNode::Obj(args)) => match spec_node_lookup(ms, "id"@) {
                    None => Some(ToolCallNode { name, arguments: args, id: None }),
                    Some(JsonNode::Text(id)) => Some(
                        ToolCallNode { name, arguments: args, id: Some(id) },
                    ),
                    Some(_) => None,
                },
                _ => None,
            },
            _ => None,
        },
        _ => None,
    }
}

/// The tool call encoded by a whole text, if any.
pub open spec fn spec_tool_call_of_text(s: Seq<char>) -> Option<ToolCallNode> {
    match spec_parse_json(s) {
        Some(n) => spec_tool_call_of_json(n),
        None => None,
    }
}

/// The span between the fenced markers, if both are present.
pub open spec fn spec_fenced_span(content: Seq<char>) -> Option<(int, int)> {
    match spec_find(content, "```tool"@, 0) {
        Some(si) => match spec_find(content, "```"@, si + "```tool"@.len()) {
            Some(ei) => Some((si + "```tool"@.len(), ei)),
            None => None,
        },
        None => None,
    }
}

/// The primary stage: the tool call inside the fenced block.
pub open spec fn spec_primary_call(content: Seq<char>) -> Option<ToolCallNode> {
    match spec_fenced_span(content) {
        Some((a, b)) => spec_tool_call_of_text(content.subrange(a, b)),
        None => None,
    }
}

/// The fallback stage: the literal key `"tool"` must occur, and the span
/// from the first `{` to the last `}` must encode a tool call.
pub open spec fn spec_fallback_call(content: Seq<char>) -> Option<ToolCallNode> {
    if !spec_contains_from(content, "\"tool\""@, 0) {
        None
    } else {
        match (spec_find_char(content, '{', 0), spec_rfind_char(content, '}')) {
            (Some(a), Some(b)) => if b <= a {
                None
            } else {
                spec_tool_call_of_text(content.subrange(a, b + 1))
            },
            _ => None,
        }
    }
}

/// The detected tool call and the stage that found it (`true` for the
/// primary, fenced stage).
pub open spec fn spec_detect(content: Seq<char>) -> Option<(ToolCallNode, bool)> {
    match spec_primary_call(content) {
        Some(c) => Some((c, true)),
        None => match spec_fallback_call(content) {
            Some(c) => Some((c, false)),
            None => None,
        },
    }
}

/// Whether a text carries a detectable tool call.
pub open spec fn spec_has_tool_call(content: Seq<char>) -> bool {
    spec_detect(content) is Some
}

/// Parse a whole character span as a tool-call object.
fn parse_tool_call_text(text: &[char]) -> (r: Option<ToolCall>)
    ensures
        match r {
            None => spec_tool_call_of_text(text@) is None,
            Some(c) => spec_tool_call_of_text(text@) matches Some(n) && tool_call_matches(c, n)
                && (match n.id {
                Some(idt) => c.id matches Some(s) && s@ == idt,
                None => c.id is None,
            }),
        },
{
    let v = match parse_json(text) {
        Some(v) => v,
        None => {
            return None;
        },
    };
    let mut ms = match v {
        JsonValue::Obj(ms) => ms,
        _ => {
            return None;
        },
    };
    let ghost ns = spec_parse_json(text@)->Some_0->Obj_0;
    let ghost total = ns.len();
    let mut name_v: Option<JsonValue> = None;
    let mut args_v: Option<JsonValue> = None;
    let mut id_v: Option<JsonValue> = None;
    let ghost mut j: int = 0;
    proof {
        assert(ns.skip(0) =~= ns);
    }
    while ms.len() > 0
        invariant
            0 <= j <= total,
            total == ns.len(),
            json_members_match(ms@, ns.skip(j)),
            lookup_slot_ok(name_v, spec_node_lookup(ns, "tool"@), ns, j, "tool"@),
            lookup_slot_ok(args_v, spec_node_lookup(ns, "arguments"@), ns, j, "arguments"@),
            lookup_slot_ok(id_v, spec_node_lookup(ns, "id"@), ns, j, "id"@),
        decreases ms@.len(),
    {
        proof {
            reveal_strlit("tool");
            reveal_strlit("arguments");
            reveal_strlit("id");
            assert(ms@[0].0@ == ns.skip(j)[0].0);
            assert(json_matches(ms@[0].1, ns.skip(j)[0].1));
            assert(ns.skip(j)[0] == ns[j]);
            assert(ns.skip(j).drop_first() =~= ns.skip(j + 1));
        }
        let (k, v) = ms.remove(0);
        if name_v.is_none() && str_eq(k.as_str(), "tool") {
            name_v = Some(v);
        } else if args_v.is_none() && str_eq(k.as_str(), "arguments") {
            args_v = Some(v);
        } else if id_v.is_none() && str_eq(k.as_str(), "id") {
            id_v = Some(v);
        }
        proof {
            j = j + 1;
        }
    }
    proof {
        assert(ns.skip(j).len() == 0);
        assert(j == total);
    }
    let name = match name_v {
        Some(JsonValue::Text(s)) => s,
        Some(_) => {
            return None;
        },
        None => {
            return None;
        },
    };
    let arguments = match args_v {
        Some(JsonValue::Obj(a)) => a,
        Some(_) => {
            return None;
        },
        None => {
            return None;
        },
    };
    let id = match id_v {
        Some(JsonValue::Text(s)) => Some(s),
        Some(_) => {
            return None;
        },
        None => None,
    };
    Some(ToolCall { name, arguments, id })
}

/// The slot invariant of the extraction loop: the overall lookup result is
/// the slot's content once filled, and otherwise still to be found in the
/// unprocessed suffix.
pub open spec fn lookup_slot_ok(
    slot: Option<JsonValue>,
    target: Option<JsonNode>,
    ns: Seq<(Seq<char>, JsonNode)>,
    j: int,
    key: Seq<char>,
) -> bool {
    match slot {
        Some(v) => target matches Some(n) && json_matches(v, n),
        None => target == spec_node_lookup(ns.skip(j), key),
    }
}

/// Detect a tool call in model output.
///
/// When the primary (fenced) stage succeeds and the call carries no id, a
/// fresh unique id is generated; a call found by the fallback stage is
/// returned as parsed.
pub fn detect_tool_call(content: &str) -> (r: Option<ToolCall>)
    ensures
        match r {
            None => spec_detect(content@) is None,
            Some(c) => spec_detect(content@) matches Some((n, primary)) && tool_call_matches(c, n)
                && (match n.id {
                Some(idt) => c.id matches Some(s) && s@ == idt,
                None => if primary {
                    c.id matches Some(s) && s@.len() == 36
                } else {
                    c.id is None
                },
            }),
        },
{
    let text = chars_of(content);
    let n = text.len();
    proof {
        reveal_strlit("```tool");
        reveal_strlit("```");
        lemma_spec_find(text@, "```tool"@, 0);
    }
    let primary: Option<ToolCall> = match find_from(text.as_slice(), "```tool", 0) {
        Some(si) => {
            proof {
                assert(si + 7 <= n);
                lemma_spec_find(text@, "```"@, si + 7);
            }
            match find_from(text.as_slice(), "```", si + 7) {
                Some(ei) => {
                    let span = slice_range(text.as_slice(), si + 7, ei);
                    parse_tool_call_text(span.as_slice())
                },
                None => None,
            }
        },
        None => None,
    };
    match primary {
        Some(mut call) => {
            if call.id.is_none() {
                call.id = Some(uuid_hyphenated());
            }
            Some(call)
        },
        None => {
            proof {
                reveal_strlit("\"tool\"");
            }
            match find_from(text.as_slice(), "\"tool\"", 0) {
                Some(_) => {
                    let start = match find_char(text.as_slice(), '{', 0) {
                        Some(a) => a,
                        None => {
                            return None;
                        },
                    };
                    let end = match rfind_char(text.as_slice(), '}') {
                        Some(b) => b,
                        None => {
                            return None;
                        },
                    };
                    if end <= start {
                        return None;
                    }
                    let span = slice_range(text.as_slice(), start, end + 1);
                    parse_tool_call_text(span.as_slice())
                },
                None => None,
            }
        },
    }
}

} // verus!
