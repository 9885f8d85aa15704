//! The framing of the line-delimited transport: which lines carry a message,
//! and how a parsed line becomes a request or an answerable parse error.
//! Reading and writing the stream itself happen outside.
use vstd::prelude::*;
use crate::error::McpError;
use crate::json::{JsonValue, absent_or_null, field, str_of, take_member};
use crate::protocol::JsonRpcRequest;
use crate::server::ReadOutcome;

verus! {

/// The characters with the Unicode property White_Space.
pub open spec fn is_white_space(c: char) -> bool {
    ('\u{9}' <= c && c <= '\u{d}') || c == ' ' || c == '\u{85}' || c == '\u{a0}' || c == '\u{1680}'
        || ('\u{2000}' <= c && c <= '\u{200a}') || c == '\u{2028}' || c == '\u{2029}'
        || c == '\u{202f}' || c == '\u{205f}' || c == '\u{3000}'
}

/// The text without its leading whitespace.
pub open spec fn trim_start_of(s: Seq<char>) -> Seq<char>
    decreases s.len(),
{
    if s.len() > 0 && is_white_space(s[0]) {
        trim_start_of(s.drop_first())
    } else {
        s
    }
}

/// The text without its trailing whitespace.
pub open spec fn trim_end_of(s: Seq<char>) -> Seq<char>
    decreases s.len(),
{
    if s.len() > 0 && is_white_space(s.last()) {
        trim_end_of(s.drop_last())
    } else {
        s
    }
}

/// The text of a line without its leading and trailing whitespace.
pub open spec fn trim_of(s: Seq<char>) -> Seq<char> {
    trim_end_of(trim_start_of(s))
}

/// Whether every character of the text is whitespace.
pub open spec fn all_white_space(s: Seq<char>) -> bool {
    forall|i: int| 0 <= i < s.len() ==> is_white_space(#[trigger] s[i])
}

proof fn lemma_trim_start_empty(s: Seq<char>)
    ensures
        trim_start_of(s).len() == 0 <==> all_white_space(s),
        trim_start_of(s).len() > 0 ==> !is_white_space(trim_start_of(s)[0]),
    decreases s.len(),
{
    if s.len() > 0 && is_white_space(s[0]) {
        lemma_trim_start_empty(s.drop_first());
        if all_white_space(s.drop_first()) {
            assert forall|i: int| 0 <= i < s.len() implies is_white_space(#[trigger] s[i]) by {
                if i > 0 {
                    assert(s[i] == s.drop_first()[i - 1]);
                }
            }
        }
        if all_white_space(s) {
            assert forall|i: int| 0 <= i < s.drop_first().len() implies is_white_space(
                #[trigger] s.drop_first()[i],
            ) by {
                assert(s.drop_first()[i] == s[i + 1]);
            }
        }
    } else if s.len() > 0 {
        assert(!is_white_space(s[0]));
    }
}

proof fn lemma_trim_end_keeps_first(s: Seq<char>)
    requires
        s.len() > 0,
        !is_white_space(s[0]),
    ensures
        trim_end_of(s).len() > 0,
    decreases s.len(),
{
    if is_white_space(s.last()) {
        if s.len() == 1 {
            assert(s.last() == s[0]);
        } else {
            assert(s.drop_last()[0] == s[0]);
            lemma_trim_end_keeps_first(s.drop_last());
        }
    }
}

/// A line trims to nothing exactly when it is all whitespace.
proof fn lemma_trim_empty(s: Seq<char>)
    ensures
        trim_of(s).len() == 0 <==> all_white_space(s),
{
    lemma_trim_start_empty(s);
    if trim_start_of(s).len() > 0 {
        lemma_trim_end_keeps_first(trim_start_of(s));
    }
}

/// Relies on `str::trim`: the line without its leading and trailing
/// characters of the Unicode property White_Space.
#[verifier::external_body]
fn trimmed(line: &str) -> (r: &str)
    ensures
        r@ == trim_of(line@),
{
    line.trim()
}

/// What a trimmed line carries: nothing when it is empty, else its text.
pub fn frame_trimmed(text: &str) -> (r: Option<String>)
    ensures
        r is None <==> text@.len() == 0,
        r matches Some(t) ==> t@ == text@,
{
    if text.is_empty() {
        None
    } else {
        Some(String::from_str(text))
    }
}

/// What a line read from the stream carries: nothing for a blank line,
/// which is skipped, else the line without surrounding whitespace.
pub fn frame_line(line: &str) -> (r: Option<String>)
    ensures
        r is None <==> all_white_space(line@),
        r matches Some(t) ==> t@ == trim_of(line@),
{
    proof {
        lemma_trim_empty(line@);
    }
    frame_trimmed(trimmed(line))
}

/// The members of a request envelope that must be strings are strings.
pub open spec fn envelope_ok(v: JsonValue) -> bool {
    &&& v is Object
    &&& str_of(field(v, "jsonrpc"@)) is Some
    &&& str_of(field(v, "method"@)) is Some
}

/// An optional member: missing and `null` both count as absent.
pub open spec fn optional_member(v: JsonValue, key: Seq<char>) -> Option<JsonValue> {
    if absent_or_null(field(v, key)) {
        None
    } else {
        field(v, key)
    }
}

/// The string member `key`, copied.
fn text_of(v: &JsonValue, key: &str) -> (r: Option<String>)
    ensures
        r matches Some(s) ==> str_of(field(*v, key@)) == Some(s@),
        r is None ==> str_of(field(*v, key@)) is None,
{
    match v.get(key) {
        Some(JsonValue::Str(s)) => Some(s.clone()),
        _ => None,
    }
}

/// An optional value: `null` counts as absent.
fn present(v: Option<JsonValue>) -> (r: Option<JsonValue>)
    ensures
        r == (if absent_or_null(v) { None } else { v }),
{
    match v {
        Some(JsonValue::Null) => None,
        other => other,
    }
}

/// Turns a parsed line into a request. A value that is no request envelope
/// becomes a parse error, answered under whatever id it holds.
pub fn decode_request(v: JsonValue) -> (r: ReadOutcome)
    ensures
        r is Request <==> envelope_ok(v),
        r matches ReadOutcome::Request(req) ==> {
            &&& Some(req.jsonrpc@) == str_of(field(v, "jsonrpc"@))
            &&& Some(req.method@) == str_of(field(v, "method"@))
            &&& req.id == optional_member(v, "id"@)
            &&& req.params == optional_member(v, "params"@)
        },
        r matches ReadOutcome::Malformed { id, error } ==> id == optional_member(v, "id"@)
            && error is ParseError,
        !(r is EndOfStream) && !(r is Failed),
{
    let jsonrpc = text_of(&v, "jsonrpc");
    let method = text_of(&v, "method");
    let mut fields = match v {
        JsonValue::Object(fields) => fields,
        _ => {
            return ReadOutcome::Malformed {
                id: None,
                error: McpError::parse_error(String::from_str("Invalid JSON-RPC request: not an object")),
            };
        },
    };
    let id = present(take_member(&mut fields, "id"));
    match (jsonrpc, method) {
        (Some(jsonrpc), Some(method)) => {
            let params = present(take_member(&mut fields, "params"));
            proof {
                reveal_strlit("id");
                reveal_strlit("params");
                assert("id"@[0] != "params"@[0]);
            }
            ReadOutcome::Request(JsonRpcRequest { jsonrpc, id, method, params })
        },
        _ => ReadOutcome::Malformed {
            id,
            error: McpError::parse_error(
                String::from_str("Invalid JSON-RPC request: missing jsonrpc or method"),
            ),
        },
    }
}

} // verus!
