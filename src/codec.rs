use vstd::prelude::*;

use crate::error::BridgeError;

verus! {

#[verifier::external_type_specification]
#[verifier::external_body]
pub struct ExJsonValue(serde_json::Value);

#[verifier::external_type_specification]
#[verifier::external_body]
pub struct ExJsonError(serde_json::Error);

/// The characters of Unicode's White_Space property.
pub open spec fn is_white_space(c: char) -> bool {
    let u = c as u32;
    (0x09 <= u <= 0x0d) || u == 0x20 || u == 0x85 || u == 0xa0 || u == 0x1680
        || (0x2000 <= u <= 0x200a) || u == 0x2028 || u == 0x2029 || u == 0x202f
        || u == 0x205f || u == 0x3000
}

/// A text without its leading white space.
pub open spec fn trim_start(s: Seq<char>) -> Seq<char>
    decreases s.len(),
{
    if s.len() > 0 && is_white_space(s[0]) {
        trim_start(s.drop_first())
    } else {
        s
    }
}

/// A text without its trailing white space.
pub open spec fn trim_end(s: Seq<char>) -> Seq<char>
    decreases s.len(),
{
    if s.len() > 0 && is_white_space(s.last()) {
        trim_end(s.drop_last())
    } else {
        s
    }
}

/// A text without its leading and trailing white space.
pub open spec fn trimmed_of(s: Seq<char>) -> Seq<char> {
    trim_end(trim_start(s))
}

/// The lower-case hexadecimal digits.
pub open spec fn hex_digits() -> Seq<char> {
    seq!['0', '1', '2', '3', '4', '5', '6', '7', '8', '9', 'a', 'b', 'c', 'd', 'e', 'f']
}

/// How one character is written inside a JSON string: the quote, the backslash and
/// the control characters are escaped, short forms first, else as `\u00` and two
/// hex digits; every other character stands as it is.
pub open spec fn escaped_char(c: char) -> Seq<char> {
    if c == '"' {
        seq!['\\', '"']
    } else if c == '\\' {
        seq!['\\', '\\']
    } else if c == '\u{8}' {
        seq!['\\', 'b']
    } else if c == '\t' {
        seq!['\\', 't']
    } else if c == '\n' {
        seq!['\\', 'n']
    } else if c == '\u{c}' {
        seq!['\\', 'f']
    } else if c == '\r' {
        seq!['\\', 'r']
    } else if (c as u32) < 0x20 {
        seq!['\\', 'u', '0', '0', hex_digits()[(c as u32) as int / 16], hex_digits()[(c as u32) as int % 16]]
    } else {
        seq![c]
    }
}

/// The characters of a text, each written as inside a JSON string.
pub open spec fn escaped(s: Seq<char>) -> Seq<char>
    decreases s.len(),
{
    if s.len() == 0 {
        Seq::empty()
    } else {
        escaped_char(s[0]) + escaped(s.drop_first())
    }
}

/// The JSON string literal of a text: its escaped characters between quotes.
pub open spec fn json_string_literal(s: Seq<char>) -> Seq<char> {
    seq!['"'] + escaped(s) + seq!['"']
}

/// Whether `serde_json::from_str` accepts a text as a `serde_json::Value`.
pub uninterp spec fn is_json_text(s: Seq<char>) -> bool;

/// What the JSON value in a text holds under a key, once `serde_json::from_str`
/// has accepted the text.
pub uninterp spec fn member_named(text: Seq<char>, key: Seq<char>) -> Member;

/// Relies on `str::trim`: the line without the leading and trailing characters
/// that have Unicode's White_Space property.
#[verifier::external_body]
fn trim_line(s: &str) -> (r: &str)
    ensures
        r@ == trimmed_of(s@),
{
    s.trim()
}

/// Relies on `serde_json::to_string` applied to a `str`: the JSON string literal of
/// the text, escaped by serde_json's table of escapes with the compact formatter.
/// A string is written into a `Vec`, which cannot fail, so the result is always `Ok`.
#[verifier::external_body]
fn quote_json(s: &str) -> (r: Result<String, serde_json::Error>)
    ensures
        r is Ok,
        r matches Ok(q) ==> q@ == json_string_literal(s@),
{
    serde_json::to_string(s)
}

/// Relies on `serde_json::from_str` into a `serde_json::Value`, then on
/// `serde_json::Value::get` with each of three string keys, which finds the member
/// of that name when the value is an object and nothing otherwise; the variants of
/// what it finds are told apart.
#[verifier::external_body]
fn parse_members(s: &str, k1: &str, k2: &str, k3: &str) -> (r: Result<(Member, Member, Member), serde_json::Error>)
    ensures
        r is Ok <==> is_json_text(s@),
        r matches Ok(m) ==> m == (member_named(s@, k1@), member_named(s@, k2@), member_named(s@, k3@)),
{
    let v: serde_json::Value = serde_json::from_str(s)?;
    let [a, b, c] = [k1, k2, k3].map(|k| match v.get(k) {
        None => Member::Absent,
        Some(serde_json::Value::Null) => Member::Null,
        Some(serde_json::Value::String(t)) => Member::Text(t.clone()),
        Some(_) => Member::Other,
    });
    Ok((a, b, c))
}

/// Relies on `Display` of `serde_json::Error`: the parser's message, for diagnosis only.
#[verifier::external_body]
fn json_error_text(e: &serde_json::Error) -> String {
    e.to_string()
}

/// What a response object holds under one member name.
#[derive(Debug)]
pub enum Member {
    /// No such member, or the value is not an object.
    Absent,
    /// The member is `null`.
    Null,
    /// The member is a string.
    Text(String),
    /// The member is a number, a boolean, an array or an object.
    Other,
}

/// One response of the agent, decoded from a candidate line.
#[derive(Debug)]
pub struct Response {
    /// The kind of message, such as a final answer.
    pub msg_type: String,
    /// The identifier of the request it answers, when the agent gives one.
    pub id: Option<String>,
    /// The payload handed back to the caller.
    pub content: String,
}

/// Whether the three members make a response: `type` and `content` are strings,
/// and `id` is a string, `null` or missing.
pub open spec fn members_fit(msg_type: Member, id: Member, content: Member) -> bool {
    msg_type is Text && content is Text && !(id is Other)
}

/// The response that fitting members make.
pub open spec fn response_of(msg_type: Member, id: Member, content: Member) -> Response {
    Response {
        msg_type: msg_type->Text_0,
        id: if id is Text { Some(id->Text_0) } else { None },
        content: content->Text_0,
    }
}

/// Whether `e` is a decoding failure that carries the raw text `line`.
pub open spec fn is_decode_failure_of(e: BridgeError, line: Seq<char>) -> bool {
    e matches BridgeError::DecodeFailure { line: l, .. } && l@ == line
}

/// Why three members make no response, for members that do not fit: the first
/// member that is wrong is named.
pub open spec fn shape_problem(msg_type: Member, id: Member, content: Member) -> Seq<char> {
    if !(msg_type is Text) {
        "field `type` is missing or not a string"@
    } else if !(content is Text) {
        "field `content` is missing or not a string"@
    } else {
        "field `id` is neither a string nor null"@
    }
}

/// Whether `r` is what the members of a line make: the response when they fit,
/// else a decoding failure that carries the line and names the wrong member.
pub open spec fn members_outcome(line: Seq<char>, msg_type: Member, id: Member, content: Member, r: Result<Response, BridgeError>) -> bool {
    if members_fit(msg_type, id, content) {
        r == Ok::<Response, BridgeError>(response_of(msg_type, id, content))
    } else {
        r matches Err(BridgeError::DecodeFailure { line: l, detail: d })
            && l@ == line && d@ == shape_problem(msg_type, id, content)
    }
}

/// The `type` member of a line that parses.
pub open spec fn type_member(line: Seq<char>) -> Member {
    member_named(line, "type"@)
}

/// The `id` member of a line that parses.
pub open spec fn id_member(line: Seq<char>) -> Member {
    member_named(line, "id"@)
}

/// The `content` member of a line that parses.
pub open spec fn content_member(line: Seq<char>) -> Member {
    member_named(line, "content"@)
}

/// Whether a line decodes into a response.
pub open spec fn decodes(line: Seq<char>) -> bool {
    is_json_text(line) && members_fit(type_member(line), id_member(line), content_member(line))
}

/// The response that a line which decodes gives.
pub open spec fn decoded(line: Seq<char>) -> Response {
    response_of(type_member(line), id_member(line), content_member(line))
}

/// Whether `e` is the failure of decoding `line`, a line that does not decode: it
/// carries the line, and for a line that is JSON it names the wrong member (for one
/// that is not, the parser's message).
pub open spec fn is_failure_decoding(line: Seq<char>, e: BridgeError) -> bool {
    is_decode_failure_of(e, line) && (is_json_text(line) ==> (e matches BridgeError::DecodeFailure { detail: d, .. }
        && d@ == shape_problem(type_member(line), id_member(line), content_member(line))))
}

/// Whether `r` is the outcome of decoding `line`.
pub open spec fn decode_outcome(line: Seq<char>, r: Result<Response, BridgeError>) -> bool {
    if decodes(line) {
        r == Ok::<Response, BridgeError>(decoded(line))
    } else {
        r matches Err(e) && is_failure_decoding(line, e)
    }
}

/// The request line that is written for an identifier and a prompt.
pub open spec fn request_line_of(id: Seq<char>, prompt: Seq<char>) -> Seq<char> {
    "{\"id\":"@ + json_string_literal(id) + ",\"prompt\":"@ + json_string_literal(prompt) + "}\n"@
}

/// Encodes a request as one line of JSON ending in a single newline.
pub fn encode_request(id: &str, prompt: &str) -> (r: Result<String, BridgeError>)
    ensures
        r matches Ok(line) && line@ == request_line_of(id@, prompt@),
{
    let qid = match quote_json(id) {
        Ok(q) => q,
        Err(e) => return Err(BridgeError::EncodeFailure(json_error_text(&e))),
    };
    let qprompt = match quote_json(prompt) {
        Ok(q) => q,
        Err(e) => return Err(BridgeError::EncodeFailure(json_error_text(&e))),
    };
    let mut line = String::from_str("{\"id\":");
    line.append(qid.as_str());
    line.append(",\"prompt\":");
    line.append(qprompt.as_str());
    line.append("}\n");
    proof {
        reveal_strlit("{\"id\":");
        reveal_strlit(",\"prompt\":");
        reveal_strlit("}\n");
    }
    Ok(line)
}

/// Builds the response from the members found in a parsed line; `line` is the raw
/// text, kept in the error for diagnosis.
pub fn response_from_members(line: &str, msg_type: Member, id: Member, content: Member) -> (r: Result<Response, BridgeError>)
    ensures
        members_outcome(line@, msg_type, id, content, r),
{
    let detail = if !matches!(msg_type, Member::Text(_)) {
        proof {
            reveal_strlit("field `type` is missing or not a string");
        }
        Some("field `type` is missing or not a string")
    } else if !matches!(content, Member::Text(_)) {
        proof {
            reveal_strlit("field `content` is missing or not a string");
        }
        Some("field `content` is missing or not a string")
    } else if matches!(id, Member::Other) {
        proof {
            reveal_strlit("field `id` is neither a string nor null");
        }
        Some("field `id` is neither a string nor null")
    } else {
        None
    };
    if let Some(d) = detail {
        return Err(BridgeError::DecodeFailure { line: String::from_str(line), detail: String::from_str(d) });
    }
    let msg_type = match msg_type {
        Member::Text(s) => s,
        _ => String::new(),
    };
    let content = match content {
        Member::Text(s) => s,
        _ => String::new(),
    };
    let id = match id {
        Member::Text(s) => Some(s),
        _ => None,
    };
    Ok(Response { msg_type, id, content })
}

/// Decodes a candidate line into a response.
pub fn decode(line: &str) -> (r: Result<Response, BridgeError>)
    ensures
        decode_outcome(line@, r),
{
    proof {
        reveal_strlit("type");
        reveal_strlit("id");
        reveal_strlit("content");
    }
    match parse_members(line, "type", "id", "content") {
        Err(e) => Err(BridgeError::DecodeFailure { line: String::from_str(line), detail: json_error_text(&e) }),
        Ok((msg_type, id, content)) => response_from_members(line, msg_type, id, content),
    }
}

/// The marker that starts a trace line.
pub open spec fn trace_marker() -> Seq<char> {
    "ADK_EVENT:"@
}

pub open spec fn has_prefix(p: Seq<char>, s: Seq<char>) -> bool {
    p.len() <= s.len() && s.subrange(0, p.len() as int) == p
}

/// How a line of the agent's output is treated.
#[derive(Debug, Clone, Copy, PartialEq, Eq, Structural)]
pub enum LineKind {
    /// Nothing but whitespace: skipped.
    Blank,
    /// Progress or diagnostics: skipped.
    Trace,
    /// The line to decode as the response.
    Candidate,
}

/// The kind of a line that has already been trimmed.
pub open spec fn kind_of(t: Seq<char>) -> LineKind {
    if t.len() == 0 {
        LineKind::Blank
    } else if has_prefix(trace_marker(), t) {
        LineKind::Trace
    } else {
        LineKind::Candidate
    }
}

/// Whether `line` begins with `prefix`, character by character.
fn starts_with_chars(line: &str, prefix: &str) -> (r: bool)
    ensures
        r == has_prefix(prefix@, line@),
{
    let n = prefix.unicode_len();
    let m = line.unicode_len();
    if m < n {
        return false;
    }
    let mut i: usize = 0;
    while i < n
        invariant
            i <= n,
            n == prefix@.len(),
            n <= m,
            m == line@.len(),
            forall|j: int| 0 <= j < i ==> line@[j] == prefix@[j],
        decreases n - i,
    {
        if line.get_char(i) != prefix.get_char(i) {
            return false;
        }
        i = i + 1;
    }
    assert(line@.subrange(0, n as int) =~= prefix@);
    true
}

/// Classifies a line that has already been trimmed.
pub fn classify_trimmed(t: &str) -> (r: LineKind)
    ensures
        r == kind_of(t@),
{
    if t.unicode_len() == 0 {
        LineKind::Blank
    } else if starts_with_chars(t, "ADK_EVENT:") {
        proof {
            reveal_strlit("ADK_EVENT:");
        }
        LineKind::Trace
    } else {
        proof {
            reveal_strlit("ADK_EVENT:");
        }
        LineKind::Candidate
    }
}

/// Classifies one line of the agent's output, surrounding whitespace ignored.
pub fn classify(line: &str) -> (r: LineKind)
    ensures
        r == kind_of(trimmed_of(line@)),
{
    let t = trim_line(line);
    classify_trimmed(t)
}

} // verus!
