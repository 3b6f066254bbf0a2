//! A small JSON value model.
//!
//! Tool arguments and structured tool output are JSON values.  The engine
//! itself only ever inspects object keys and string payloads; numbers are
//! carried in their textual source form and left for the consuming tool to
//! interpret.

use vstd::prelude::*;
use vstd::string::StrSliceExecFns;

use crate::outside::chars_to_string;
use crate::strutil::slice_range;
use crate::strutil::spec_match_at;
use crate::strutil::str_eq;

verus! {

/// A JSON value.
///
/// Object member lists and the invariants of values produced by the parser
/// keep keys unique; `Num` holds the raw source text of a JSON number.
#[derive(Debug, PartialEq, Eq)]
pub enum JsonValue {
    Null,
    Boolean(bool),
    /// A number, kept as its raw source text (e.g. `"-12.5e3"`).
    Num(String),
    Text(String),
    Arr(Vec<JsonValue>),
    Obj(Vec<(String, JsonValue)>),
}

impl Clone for JsonValue {
    /// A structural copy.
    fn clone(&self) -> (r: Self)
        decreases self,
    {
        match self {
            JsonValue::Null => JsonValue::Null,
            JsonValue::Boolean(b) => JsonValue::Boolean(*b),
            JsonValue::Num(s) => JsonValue::Num(s.clone()),
            JsonValue::Text(s) => JsonValue::Text(s.clone()),
            JsonValue::Arr(items) => {
                let n = items.len();
                let mut out: Vec<JsonValue> = Vec::new();
                let mut i: usize = 0;
                while i < n
                    invariant
                        n == items@.len(),
                        0 <= i <= n,
                        items == self->Arr_0,
                        self is Arr,
                    decreases n - i,
                {
                    proof {
                        broadcast use vstd::std_specs::vec::axiom_vec_index_decreases;

                        assert(decreases_to!(*self => self->Arr_0));
                        assert(decreases_to!(self->Arr_0 => self->Arr_0[i as int]));
                    }
                    out.push(items[i].clone());
                    i = i + 1;
                }
                JsonValue::Arr(out)
            },
            JsonValue::Obj(members) => {
                let n = members.len();
                let mut out: Vec<(String, JsonValue)> = Vec::new();
                let mut i: usize = 0;
                while i < n
                    invariant
                        n == members@.len(),
                        0 <= i <= n,
                        members == self->Obj_0,
                        self is Obj,
                    decreases n - i,
                {
                    proof {
                        broadcast use vstd::std_specs::vec::axiom_vec_index_decreases;

                        assert(decreases_to!(*self => self->Obj_0));
                        assert(decreases_to!(self->Obj_0 => self->Obj_0[i as int]));
                        assert(decreases_to!(self->Obj_0[i as int] => self->Obj_0[i as int].1));
                    }
                    out.push((members[i].0.clone(), members[i].1.clone()));
                    i = i + 1;
                }
                JsonValue::Obj(out)
            },
        }
    }
}

/// Whether a member list holds a given key.
pub open spec fn spec_has_key(members: Seq<(String, JsonValue)>, key: Seq<char>) -> bool {
    exists|i: int| 0 <= i < members.len() && members[i].0@ == key
}

/// The value under a key, if present (the first occurrence).
pub open spec fn spec_lookup(members: Seq<(String, JsonValue)>, key: Seq<char>) -> Option<
    JsonValue,
>
    decreases members.len(),
{
    if members.len() == 0 {
        None
    } else if members[0].0@ == key {
        Some(members[0].1)
    } else {
        spec_lookup(members.drop_first(), key)
    }
}

/// Look up a key in an object member list; returns the first match.
pub fn lookup<'a>(members: &'a Vec<(String, JsonValue)>, key: &str) -> (r: Option<&'a JsonValue>)
    ensures
        match r {
            Some(v) => spec_lookup(members@, key@) == Some(*v),
            None => spec_lookup(members@, key@) is None,
        },
{
    let n = members.len();
    let mut i: usize = 0;
    proof {
        assert(members@.skip(0) =~= members@);
    }
    while i < n
        invariant
            n == members@.len(),
            0 <= i <= n,
            spec_lookup(members@, key@) == spec_lookup(members@.skip(i as int), key@),
        decreases n - i,
    {
        proof {
            assert(members@.skip(i as int)[0] == members@[i as int]);
            assert(members@.skip(i as int).drop_first() =~= members@.skip(i + 1));
        }
        if str_eq(members[i].0.as_str(), key) {
            return Some(&members[i].1);
        }
        i = i + 1;
    }
    proof {
        assert(members@.skip(n as int).len() == 0);
    }
    None
}

/// Whether an object member list holds a key.
pub fn has_key(members: &Vec<(String, JsonValue)>, key: &str) -> (r: bool)
    ensures
        r == spec_has_key(members@, key@),
{
    let found = lookup(members, key);
    proof {
        lemma_lookup_has_key(members@, key@);
    }
    found.is_some()
}

/// A key is present exactly when `spec_lookup` finds a value.
pub proof fn lemma_lookup_has_key(members: Seq<(String, JsonValue)>, key: Seq<char>)
    ensures
        spec_has_key(members, key) <==> spec_lookup(members, key) is Some,
    decreases members.len(),
{
    if members.len() > 0 {
        lemma_lookup_has_key(members.drop_first(), key);
        if members[0].0@ == key {
        } else {
            assert(forall|i: int|
                1 <= i < members.len() ==> members[i] == members.drop_first()[i - 1]);
        }
    }
}

/// The abstract content of a JSON value, over character sequences.
pub enum JsonNode {
    Null,
    Boolean(bool),
    Num(Seq<char>),
    Text(Seq<char>),
    Arr(Seq<JsonNode>),
    Obj(Seq<(Seq<char>, JsonNode)>),
}

/// Whether an executable JSON value carries the abstract content `n`.
pub open spec fn json_matches(v: JsonValue, n: JsonNode) -> bool
    decreases n,
{
    match n {
        JsonNode::Null => v is Null,
        JsonNode::Boolean(b) => v matches JsonValue::Boolean(b2) && b2 == b,
        JsonNode::Num(t) => v matches JsonValue::Num(s) && s@ == t,
        JsonNode::Text(t) => v matches JsonValue::Text(s) && s@ == t,
        JsonNode::Arr(items) => v matches JsonValue::Arr(vs) && vs@.len() == items.len() && (forall|
            k: int,
        |
            0 <= k < items.len() ==> json_matches(#[trigger] vs@[k], items[k])),
        JsonNode::Obj(ms) => v matches JsonValue::Obj(vs) && json_members_match(vs@, ms),
    }
}

/// Whether an executable member list carries the abstract members `ns`.
pub open spec fn json_members_match(
    vs: Seq<(String, JsonValue)>,
    ns: Seq<(Seq<char>, JsonNode)>,
) -> bool
    decreases ns,
{
    vs.len() == ns.len() && (forall|k: int|
        0 <= k < ns.len() ==> (#[trigger] vs[k]).0@ == ns[k].0 && json_matches(vs[k].1, ns[k].1))
}

/// JSON insignificant whitespace.
pub open spec fn spec_is_ws(c: char) -> bool {
    c == ' ' || c == '\t' || c == '\n' || c == '\r'
}

/// A decimal digit.
pub open spec fn spec_is_digit(c: char) -> bool {
    '0' <= c && c <= '9'
}

/// A hexadecimal digit.
pub open spec fn spec_is_hex(c: char) -> bool {
    spec_is_digit(c) || ('a' <= c && c <= 'f') || ('A' <= c && c <= 'F')
}

/// The value of a hexadecimal digit.
pub open spec fn spec_hex_value(c: char) -> int {
    if spec_is_digit(c) {
        c as int - '0' as int
    } else if 'a' <= c && c <= 'f' {
        c as int - 'a' as int + 10
    } else {
        c as int - 'A' as int + 10
    }
}

/// The first position at or after `i` that does not hold whitespace.
pub open spec fn spec_skip_ws(s: Seq<char>, i: int) -> int
    decreases s.len() - i,
{
    if 0 <= i && i < s.len() && spec_is_ws(s[i]) {
        spec_skip_ws(s, i + 1)
    } else {
        i
    }
}

/// The first position at or after `i` that does not hold a digit.
pub open spec fn spec_skip_digits(s: Seq<char>, i: int) -> int
    decreases s.len() - i,
{
    if 0 <= i && i < s.len() && spec_is_digit(s[i]) {
        spec_skip_digits(s, i + 1)
    } else {
        i
    }
}

/// `spec_skip_ws` stays within `[i, len]`.
pub proof fn lemma_skip_ws_bounds(s: Seq<char>, i: int)
    requires
        0 <= i <= s.len(),
    ensures
        i <= spec_skip_ws(s, i) <= s.len(),
    decreases s.len() - i,
{
    if i < s.len() && spec_is_ws(s[i]) {
        lemma_skip_ws_bounds(s, i + 1);
    }
}

/// `spec_skip_digits` stays within `[i, len]`.
pub proof fn lemma_skip_digits_bounds(s: Seq<char>, i: int)
    requires
        0 <= i <= s.len(),
    ensures
        i <= spec_skip_digits(s, i) <= s.len(),
    decreases s.len() - i,
{
    if i < s.len() && spec_is_digit(s[i]) {
        lemma_skip_digits_bounds(s, i + 1);
    }
}

/// The decoded character for a single-character escape, if valid.
pub open spec fn spec_escape_char(e: char) -> Option<char> {
    if e == '"' {
        Some('"')
    } else if e == '\\' {
        Some('\\')
    } else if e == '/' {
        Some('/')
    } else if e == 'b' {
        Some('\u{0008}')
    } else if e == 'f' {
        Some('\u{000C}')
    } else if e == 'n' {
        Some('\n')
    } else if e == 'r' {
        Some('\r')
    } else if e == 't' {
        Some('\t')
    } else {
        None
    }
}

/// Whether a member list holds a key (abstract form).
pub open spec fn spec_node_has_key(ns: Seq<(Seq<char>, JsonNode)>, key: Seq<char>) -> bool {
    exists|k: int| 0 <= k < ns.len() && (#[trigger] ns[k]).0 == key
}

/// Parse the body of a string literal, starting just after the opening
/// quote: the decoded characters and the position after the closing quote.
///
/// Simple escapes and `\uXXXX` for non-surrogate code points are decoded;
/// unescaped control characters, lone `\`, unknown escapes, surrogate
/// escapes and an unterminated literal fail.
pub open spec fn spec_parse_chars(s: Seq<char>, i: int) -> Option<(Seq<char>, int)>
    decreases s.len() - i, 0int,
{
    if !(0 <= i && i < s.len()) {
        None
    } else if s[i] == '"' {
        Some((Seq::empty(), i + 1))
    } else if s[i] == '\\' {
        if i + 1 >= s.len() {
            None
        } else if s[i + 1] == 'u' {
            if i + 6 > s.len() {
                None
            } else if !(spec_is_hex(s[i + 2]) && spec_is_hex(s[i + 3]) && spec_is_hex(s[i + 4])
                && spec_is_hex(s[i + 5])) {
                None
            } else {
                let code = spec_hex_value(s[i + 2]) * 4096 + spec_hex_value(s[i + 3]) * 256
                    + spec_hex_value(s[i + 4]) * 16 + spec_hex_value(s[i + 5]);
                if 0xD800 <= code && code <= 0xDFFF {
                    None
                } else {
                    match spec_parse_chars(s, i + 6) {
                        Some((t, j)) => Some((seq![((code as u32) as char)] + t, j)),
                        None => None,
                    }
                }
            }
        } else {
            match spec_escape_char(s[i + 1]) {
                Some(c) => match spec_parse_chars(s, i + 2) {
                    Some((t, j)) => Some((seq![c] + t, j)),
                    None => None,
                },
                None => None,
            }
        }
    } else if (s[i] as u32) < 0x20 {
        None
    } else {
        match spec_parse_chars(s, i + 1) {
            Some((t, j)) => Some((seq![s[i]] + t, j)),
            None => None,
        }
    }
}

/// Parse a number token starting at `i`: the raw text and the position
/// after it.
pub open spec fn spec_parse_number(s: Seq<char>, i: int) -> Option<(Seq<char>, int)> {
    if !(0 <= i && i < s.len()) {
        None
    } else {
        let j0 = if s[i] == '-' {
            i + 1
        } else {
            i
        };
        if !(j0 < s.len() && spec_is_digit(s[j0])) {
            None
        } else {
            let j1 = if s[j0] == '0' {
                j0 + 1
            } else {
                spec_skip_digits(s, j0)
            };
            let j2 = if j1 < s.len() && s[j1] == '.' {
                spec_skip_digits(s, j1 + 1)
            } else {
                j1
            };
            if j1 < s.len() && s[j1] == '.' && j2 == j1 + 1 {
                None
            } else {
                let j3 = if j2 < s.len() && (s[j2] == 'e' || s[j2] == 'E') {
                    if j2 + 1 < s.len() && (s[j2 + 1] == '+' || s[j2 + 1] == '-') {
                        j2 + 2
                    } else {
                        j2 + 1
                    }
                } else {
                    j2
                };
                if j3 == j2 {
                    Some((s.subrange(i, j2), j2))
                } else {
                    let j4 = spec_skip_digits(s, j3);
                    if j4 == j3 {
                        None
                    } else {
                        Some((s.subrange(i, j4), j4))
                    }
                }
            }
        }
    }
}

/// Parse a JSON value starting exactly at `i` (no leading whitespace).
pub open spec fn spec_parse_value(s: Seq<char>, i: int) -> Option<(JsonNode, int)>
    decreases s.len() - i, 2int,
{
    if !(0 <= i && i < s.len()) {
        None
    } else if s[i] == '{' {
        spec_parse_object(s, i)
    } else if s[i] == '[' {
        spec_parse_array(s, i)
    } else if s[i] == '"' {
        match spec_parse_chars(s, i + 1) {
            Some((t, j)) => Some((JsonNode::Text(t), j)),
            None => None,
        }
    } else if s[i] == 't' {
        if spec_match_at(s, "true"@, i) {
            Some((JsonNode::Boolean(true), i + 4))
        } else {
            None
        }
    } else if s[i] == 'f' {
        if spec_match_at(s, "false"@, i) {
            Some((JsonNode::Boolean(false), i + 5))
        } else {
            None
        }
    } else if s[i] == 'n' {
        if spec_match_at(s, "null"@, i) {
            Some((JsonNode::Null, i + 4))
        } else {
            None
        }
    } else {
        match spec_parse_number(s, i) {
            Some((t, j)) => Some((JsonNode::Num(t), j)),
            None => None,
        }
    }
}

/// Parse an object starting at its `{`.
pub open spec fn spec_parse_object(s: Seq<char>, i: int) -> Option<(JsonNode, int)>
    decreases s.len() - i, 1int,
{
    if !(0 <= i && i < s.len() && s[i] == '{') {
        None
    } else {
        let j = spec_skip_ws(s, i + 1);
        if j < s.len() && s[j] == '}' {
            Some((JsonNode::Obj(Seq::empty()), j + 1))
        } else if j <= i || j > s.len() {
            None
        } else {
            match spec_parse_members(s, j) {
                Some((ms, k)) => Some((JsonNode::Obj(ms), k)),
                None => None,
            }
        }
    }
}

/// Parse an array starting at its `[`.
pub open spec fn spec_parse_array(s: Seq<char>, i: int) -> Option<(JsonNode, int)>
    decreases s.len() - i, 1int,
{
    if !(0 <= i && i < s.len() && s[i] == '[') {
        None
    } else {
        let j = spec_skip_ws(s, i + 1);
        if j < s.len() && s[j] == ']' {
            Some((JsonNode::Arr(Seq::empty()), j + 1))
        } else if j <= i || j > s.len() {
            None
        } else {
            match spec_parse_elements(s, j) {
                Some((es, k)) => Some((JsonNode::Arr(es), k)),
                None => None,
            }
        }
    }
}

/// Parse one or more object members starting at a key's opening quote;
/// ends after the closing `}`.  Duplicate keys fail.
pub open spec fn spec_parse_members(s: Seq<char>, i: int) -> Option<
    (Seq<(Seq<char>, JsonNode)>, int),
>
    decreases s.len() - i, 0int,
{
    if !(0 <= i && i < s.len() && s[i] == '"') {
        None
    } else {
        match spec_parse_chars(s, i + 1) {
            None => None,
            Some((key, j1)) => {
                let j2 = spec_skip_ws(s, j1);
                if !(j2 < s.len() && s[j2] == ':') {
                    None
                } else {
                    let j3 = spec_skip_ws(s, j2 + 1);
                    if j3 <= i || j3 > s.len() {
                        None
                    } else {
                        match spec_parse_value(s, j3) {
                            None => None,
                            Some((v, j4)) => {
                                let j5 = spec_skip_ws(s, j4);
                                if j5 < s.len() && s[j5] == ',' {
                                    let j6 = spec_skip_ws(s, j5 + 1);
                                    if j6 <= i || j6 > s.len() {
                                        None
                                    } else {
                                        match spec_parse_members(s, j6) {
                                            None => None,
                                            Some((rest, j7)) => if spec_node_has_key(rest, key) {
                                                None
                                            } else {
                                                Some((seq![(key, v)] + rest, j7))
                                            },
                                        }
                                    }
                                } else if j5 < s.len() && s[j5] == '}' {
                                    Some((seq![(key, v)], j5 + 1))
                                } else {
                                    None
                                }
                            },
                        }
                    }
                }
            },
        }
    }
}

/// Parse one or more array elements starting at a value; ends after the
/// closing `]`.
pub open spec fn spec_parse_elements(s: Seq<char>, i: int) -> Option<(Seq<JsonNode>, int)>
    decreases s.len() - i, 3int,
{
    if !(0 <= i && i < s.len()) {
        None
    } else {
        match spec_parse_value(s, i) {
            None => None,
            Some((v, j)) => {
                let j2 = spec_skip_ws(s, j);
                if j2 < s.len() && s[j2] == ',' {
                    let j3 = spec_skip_ws(s, j2 + 1);
                    if j3 <= i || j3 > s.len() {
                        None
                    } else {
                        match spec_parse_elements(s, j3) {
                            None => None,
                            Some((es, k)) => Some((seq![v] + es, k)),
                        }
                    }
                } else if j2 < s.len() && s[j2] == ']' {
                    Some((seq![v], j2 + 1))
                } else {
                    None
                }
            },
        }
    }
}

/// Matching member lists hold the same keys.
pub proof fn lemma_members_match_keys(
    vs: Seq<(String, JsonValue)>,
    ns: Seq<(Seq<char>, JsonNode)>,
    key: Seq<char>,
)
    requires
        json_members_match(vs, ns),
    ensures
        spec_has_key(vs, key) <==> spec_node_has_key(ns, key),
{
    if spec_has_key(vs, key) {
        let k = choose|k: int| 0 <= k < vs.len() && vs[k].0@ == key;
        assert(ns[k].0 == key);
    }
    if spec_node_has_key(ns, key) {
        let k = choose|k: int| 0 <= k < ns.len() && (#[trigger] ns[k]).0 == key;
        assert(vs[k].0@ == key);
    }
}

/// JSON insignificant whitespace.
fn is_ws(c: char) -> (r: bool)
    ensures
        r == spec_is_ws(c),
{
    c == ' ' || c == '\t' || c == '\n' || c == '\r'
}

/// A decimal digit.
fn is_digit(c: char) -> (r: bool)
    ensures
        r == spec_is_digit(c),
{
    '0' <= c && c <= '9'
}

fn is_hex(c: char) -> (r: bool)
    ensures
        r == spec_is_hex(c),
{
    ('0' <= c && c <= '9') || ('a' <= c && c <= 'f') || ('A' <= c && c <= 'F')
}

fn hex_value(c: char) -> (r: u32)
    requires
        spec_is_hex(c),
    ensures
        r as int == spec_hex_value(c),
        r <= 15,
{
    if '0' <= c && c <= '9' {
        (c as u32) - ('0' as u32)
    } else if 'a' <= c && c <= 'f' {
        (c as u32) - ('a' as u32) + 10
    } else {
        (c as u32) - ('A' as u32) + 10
    }
}

/// Skip whitespace from `i`.
pub fn skip_ws(text: &[char], i: usize) -> (r: usize)
    requires
        i <= text@.len(),
    ensures
        r as int == spec_skip_ws(text@, i as int),
        i <= r <= text@.len(),
{
    let n = text.len();
    let mut j = i;
    while j < n && is_ws(text[j])
        invariant
            i <= j <= n,
            n == text@.len(),
            spec_skip_ws(text@, i as int) == spec_skip_ws(text@, j as int),
        decreases n - j,
    {
        j = j + 1;
    }
    j
}

/// Skip digits from `i`.
fn skip_digits(text: &[char], i: usize) -> (r: usize)
    requires
        i <= text@.len(),
    ensures
        r as int == spec_skip_digits(text@, i as int),
        i <= r <= text@.len(),
{
    let n = text.len();
    let mut j = i;
    while j < n && is_digit(text[j])
        invariant
            i <= j <= n,
            n == text@.len(),
            spec_skip_digits(text@, i as int) == spec_skip_digits(text@, j as int),
        decreases n - j,
    {
        j = j + 1;
    }
    j
}

/// Whether `pat` occurs in `text` at `at` (character comparison).
fn match_at(text: &[char], pat: &str, at: usize) -> (r: bool)
    requires
        at <= text@.len(),
    ensures
        r == spec_match_at(text@, pat@, at as int),
{
    let n = text.len();
    let m = pat.unicode_len();
    if m > n - at {
        return false;
    }
    let mut j: usize = 0;
    while j < m
        invariant
            n == text@.len(),
            m == pat@.len(),
            at + m <= n,
            0 <= j <= m,
            forall|k: int| 0 <= k < j ==> text@[at + k] == pat@[k],
        decreases m - j,
    {
        if text[at + j] != pat.get_char(j) {
            proof {
                if spec_match_at(text@, pat@, at as int) {
                    assert(text@.subrange(at as int, at + m)[j as int] == pat@[j as int]);
                }
            }
            return false;
        }
        j = j + 1;
    }
    proof {
        assert(text@.subrange(at as int, at + m) =~= pat@);
    }
    true
}

/// Parse a string literal's body, starting just after the opening quote.
fn parse_chars(text: &[char], i: usize) -> (r: Option<(Vec<char>, usize)>)
    requires
        i <= text@.len(),
    ensures
        match r {
            None => spec_parse_chars(text@, i as int) is None,
            Some((t, j)) => spec_parse_chars(text@, i as int) matches Some((nt, nj)) && t@ == nt
                && j as int == nj && i < j <= text@.len(),
        },
    decreases text@.len() - i,
{
    broadcast use vstd::utf8::char_u32_cast;

    let n = text.len();
    if i >= n {
        return None;
    }
    let c = text[i];
    if c == '"' {
        return Some((Vec::new(), i + 1));
    }
    if c == '\\' {
        if i + 1 >= n {
            return None;
        }
        let e = text[i + 1];
        if e == 'u' {
            if n - i < 6 {
                return None;
            }
            if !(is_hex(text[i + 2]) && is_hex(text[i + 3]) && is_hex(text[i + 4]) && is_hex(
                text[i + 5],
            )) {
                return None;
            }
            let code: u32 = hex_value(text[i + 2]) * 4096 + hex_value(text[i + 3]) * 256
                + hex_value(text[i + 4]) * 16 + hex_value(text[i + 5]);
            if 0xD800 <= code && code <= 0xDFFF {
                return None;
            }
            let decoded = match char::from_u32(code) {
                Some(d) => d,
                None => {
                    return None;
                },
            };
            proof {
                vstd::utf8::char_u32_cast(decoded, code);
            }
            match parse_chars(text, i + 6) {
                Some((mut t, j)) => {
                    let ghost rest = t@;
                    t.insert(0, decoded);
                    proof {
                        assert(t@ =~= seq![decoded] + rest);
                    }
                    Some((t, j))
                },
                None => None,
            }
        } else {
            let decoded = match e {
                '"' => '"',
                '\\' => '\\',
                '/' => '/',
                'b' => '\u{0008}',
                'f' => '\u{000C}',
                'n' => '\n',
                'r' => '\r',
                't' => '\t',
                _ => {
                    return None;
                },
            };
            match parse_chars(text, i + 2) {
                Some((mut t, j)) => {
                    let ghost rest = t@;
                    t.insert(0, decoded);
                    proof {
                        assert(t@ =~= seq![decoded] + rest);
                    }
                    Some((t, j))
                },
                None => None,
            }
        }
    } else if (c as u32) < 0x20 {
        None
    } else {
        match parse_chars(text, i + 1) {
            Some((mut t, j)) => {
                let ghost rest = t@;
                t.insert(0, c);
                proof {
                    assert(t@ =~= seq![c] + rest);
                }
                Some((t, j))
            },
            None => None,
        }
    }
}

/// Parse a number token starting at `i`.
fn parse_number(text: &[char], i: usize) -> (r: Option<(String, usize)>)
    requires
        i <= text@.len(),
    ensures
        match r {
            None => spec_parse_number(text@, i as int) is None,
            Some((t, j)) => spec_parse_number(text@, i as int) matches Some((nt, nj)) && t@ == nt
                && j as int == nj && i < j <= text@.len(),
        },
{
    let n = text.len();
    if i >= n {
        return None;
    }
    let j0 = if text[i] == '-' {
        i + 1
    } else {
        i
    };
    if !(j0 < n && is_digit(text[j0])) {
        return None;
    }
    let j1 = if text[j0] == '0' {
        j0 + 1
    } else {
        let jd = skip_digits(text, j0);
        proof {
            assert(spec_skip_digits(text@, j0 as int) == spec_skip_digits(text@, j0 + 1));
            lemma_skip_digits_bounds(text@, j0 + 1);
        }
        jd
    };
    let j2 = if j1 < n && text[j1] == '.' {
        skip_digits(text, j1 + 1)
    } else {
        j1
    };
    if j1 < n && text[j1] == '.' && j2 == j1 + 1 {
        return None;
    }
    let j3 = if j2 < n && (text[j2] == 'e' || text[j2] == 'E') {
        if j2 + 1 < n && (text[j2 + 1] == '+' || text[j2 + 1] == '-') {
            j2 + 2
        } else {
            j2 + 1
        }
    } else {
        j2
    };
    if j3 == j2 {
        let raw = slice_range(text, i, j2);
        Some((chars_to_string(&raw), j2))
    } else {
        let j4 = skip_digits(text, j3);
        if j4 == j3 {
            None
        } else {
            let raw = slice_range(text, i, j4);
            Some((chars_to_string(&raw), j4))
        }
    }
}

/// Parse a JSON value starting exactly at `i`.
pub fn parse_value(text: &[char], i: usize) -> (r: Option<(JsonValue, usize)>)
    requires
        i <= text@.len(),
    ensures
        match r {
            None => spec_parse_value(text@, i as int) is None,
            Some((v, j)) => spec_parse_value(text@, i as int) matches Some((n, nj)) && json_matches(
                v,
                n,
            ) && j as int == nj && i < j <= text@.len(),
        },
    decreases text@.len() - i, 2int,
{
    let n = text.len();
    if i >= n {
        return None;
    }
    let c = text[i];
    if c == '{' {
        parse_object(text, i)
    } else if c == '[' {
        parse_array(text, i)
    } else if c == '"' {
        match parse_chars(text, i + 1) {
            Some((t, j)) => Some((JsonValue::Text(chars_to_string(&t)), j)),
            None => None,
        }
    } else if c == 't' {
        if match_at(text, "true", i) {
            proof {
                reveal_strlit("true");
            }
            Some((JsonValue::Boolean(true), i + 4))
        } else {
            None
        }
    } else if c == 'f' {
        if match_at(text, "false", i) {
            proof {
                reveal_strlit("false");
            }
            Some((JsonValue::Boolean(false), i + 5))
        } else {
            None
        }
    } else if c == 'n' {
        if match_at(text, "null", i) {
            proof {
                reveal_strlit("null");
            }
            Some((JsonValue::Null, i + 4))
        } else {
            None
        }
    } else {
        match parse_number(text, i) {
            Some((t, j)) => Some((JsonValue::Num(t), j)),
            None => None,
        }
    }
}

/// Parse an object starting at its `{`.
fn parse_object(text: &[char], i: usize) -> (r: Option<(JsonValue, usize)>)
    requires
        i <= text@.len(),
    ensures
        match r {
            None => spec_parse_object(text@, i as int) is None,
            Some((v, j)) => spec_parse_object(text@, i as int) matches Some((n, nj))
                && json_matches(v, n) && j as int == nj && i < j <= text@.len(),
        },
    decreases text@.len() - i, 1int,
{
    let n = text.len();
    if !(i < n && text[i] == '{') {
        return None;
    }
    let j = skip_ws(text, i + 1);
    if j < n && text[j] == '}' {
        let empty: Vec<(String, JsonValue)> = Vec::new();
        proof {
            assert(json_members_match(empty@, Seq::empty()));
        }
        return Some((JsonValue::Obj(empty), j + 1));
    }
    match parse_members(text, j) {
        Some((ms, k)) => Some((JsonValue::Obj(ms), k)),
        None => None,
    }
}

/// Parse an array starting at its `[`.
fn parse_array(text: &[char], i: usize) -> (r: Option<(JsonValue, usize)>)
    requires
        i <= text@.len(),
    ensures
        match r {
            None => spec_parse_array(text@, i as int) is None,
            Some((v, j)) => spec_parse_array(text@, i as int) matches Some((n, nj)) && json_matches(
                v,
                n,
            ) && j as int == nj && i < j <= text@.len(),
        },
    decreases text@.len() - i, 1int,
{
    let n = text.len();
    if !(i < n && text[i] == '[') {
        return None;
    }
    let j = skip_ws(text, i + 1);
    if j < n && text[j] == ']' {
        let empty: Vec<JsonValue> = Vec::new();
        return Some((JsonValue::Arr(empty), j + 1));
    }
    match parse_elements(text, j) {
        Some((es, k)) => Some((JsonValue::Arr(es), k)),
        None => None,
    }
}

/// Parse one or more object members starting at a key's opening quote.
fn parse_members(text: &[char], i: usize) -> (r: Option<(Vec<(String, JsonValue)>, usize)>)
    requires
        i <= text@.len(),
    ensures
        match r {
            None => spec_parse_members(text@, i as int) is None,
            Some((ms, j)) => spec_parse_members(text@, i as int) matches Some((ns, nj))
                && json_members_match(ms@, ns) && j as int == nj && i < j <= text@.len(),
        },
    decreases text@.len() - i, 0int,
{
    let n = text.len();
    if !(i < n && text[i] == '"') {
        return None;
    }
    let (key, j1) = match parse_chars(text, i + 1) {
        Some(kj) => kj,
        None => {
            return None;
        },
    };
    let j2 = skip_ws(text, j1);
    if !(j2 < n && text[j2] == ':') {
        return None;
    }
    let j3 = skip_ws(text, j2 + 1);
    let (v, j4) = match parse_value(text, j3) {
        Some(vj) => vj,
        None => {
            return None;
        },
    };
    let j5 = skip_ws(text, j4);
    let key_string = chars_to_string(&key);
    if j5 < n && text[j5] == ',' {
        let j6 = skip_ws(text, j5 + 1);
        match parse_members(text, j6) {
            None => None,
            Some((mut rest, j7)) => {
                if has_key(&rest, key_string.as_str()) {
                    proof {
                        let ns = spec_parse_members(text@, j6 as int)->Some_0.0;
                        lemma_members_match_keys(rest@, ns, key@);
                    }
                    None
                } else {
                    proof {
                        let ns = spec_parse_members(text@, j6 as int)->Some_0.0;
                        lemma_members_match_keys(rest@, ns, key@);
                    }
                    let ghost restview = rest@;
                    rest.insert(0, (key_string, v));
                    proof {
                        assert(rest@ =~= seq![(key_string, v)] + restview);
                    }
                    Some((rest, j7))
                }
            },
        }
    } else if j5 < n && text[j5] == '}' {
        let mut ms: Vec<(String, JsonValue)> = Vec::new();
        ms.push((key_string, v));
        Some((ms, j5 + 1))
    } else {
        None
    }
}

/// Parse one or more array elements starting at a value.
fn parse_elements(text: &[char], i: usize) -> (r: Option<(Vec<JsonValue>, usize)>)
    requires
        i <= text@.len(),
    ensures
        match r {
            None => spec_parse_elements(text@, i as int) is None,
            Some((es, j)) => spec_parse_elements(text@, i as int) matches Some((ns, nj))
                && es@.len() == ns.len() && (forall|k: int|
                0 <= k < ns.len() ==> json_matches(#[trigger] es@[k], ns[k])) && j as int == nj && i
                < j <= text@.len(),
        },
    decreases text@.len() - i, 3int,
{
    let n = text.len();
    if i >= n {
        return None;
    }
    let (v, j) = match parse_value(text, i) {
        Some(vj) => vj,
        None => {
            return None;
        },
    };
    let j2 = skip_ws(text, j);
    if j2 < n && text[j2] == ',' {
        let j3 = skip_ws(text, j2 + 1);
        match parse_elements(text, j3) {
            None => None,
            Some((mut es, k)) => {
                let ghost esview = es@;
                es.insert(0, v);
                proof {
                    assert(es@ =~= seq![v] + esview);
                }
                Some((es, k))
            },
        }
    } else if j2 < n && text[j2] == ']' {
        let mut es: Vec<JsonValue> = Vec::new();
        es.push(v);
        Some((es, j2 + 1))
    } else {
        None
    }
}

/// Parse a whole character sequence as one JSON value, allowing
/// surrounding whitespace.
pub fn parse_json(text: &[char]) -> (r: Option<JsonValue>)
    ensures
        match r {
            None => spec_parse_json(text@) is None,
            Some(v) => spec_parse_json(text@) matches Some(n) && json_matches(v, n),
        },
{
    let i = skip_ws(text, 0);
    match parse_value(text, i) {
        Some((v, j)) => {
            if skip_ws(text, j) == text.len() {
                Some(v)
            } else {
                None
            }
        },
        None => None,
    }
}

/// Parse a whole text as one JSON value, allowing surrounding whitespace.
pub open spec fn spec_parse_json(s: Seq<char>) -> Option<JsonNode> {
    let i = spec_skip_ws(s, 0);
    match spec_parse_value(s, i) {
        Some((v, j)) => if spec_skip_ws(s, j) == s.len() {
            Some(v)
        } else {
            None
        },
        None => None,
    }
}

} // verus!
