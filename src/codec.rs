use vstd::prelude::*;
use vstd::string::StringExecFns;
use crate::error::{
    error_with_message, result_view, single_error, ErrorDetail, ErrorKind, FetchError,
    FetchErrorView,
};

verus! {

/// The lower-case hexadecimal digit of `n`, for `n < 16`.
pub open spec fn hex_digit(n: int) -> char {
    seq!['0', '1', '2', '3', '4', '5', '6', '7', '8', '9', 'a', 'b', 'c', 'd', 'e', 'f'][n]
}

/// How one character stands inside a JSON string literal: quote and backslash
/// are escaped, control characters take their short escape or `\u00XX`, and
/// every other character stands as it is.
pub open spec fn escaped_char(c: char) -> Seq<char> {
    if c == '"' {
        seq!['\\', '"']
    } else if c == '\\' {
        seq!['\\', '\\']
    } else if c == '\x08' {
        seq!['\\', 'b']
    } else if c == '\t' {
        seq!['\\', 't']
    } else if c == '\n' {
        seq!['\\', 'n']
    } else if c == '\x0C' {
        seq!['\\', 'f']
    } else if c == '\r' {
        seq!['\\', 'r']
    } else if (c as u32) < 0x20 {
        seq!['\\', 'u', '0', '0', hex_digit((c as u32) as int / 16), hex_digit((c as u32) as int % 16)]
    } else {
        seq![c]
    }
}

/// The escaped contents of a JSON string literal holding `s`.
pub open spec fn escaped(s: Seq<char>) -> Seq<char>
    decreases s.len(),
{
    if s.len() == 0 {
        Seq::empty()
    } else {
        escaped_char(s[0]) + escaped(s.drop_first())
    }
}

/// The JSON string literal that holds `s`.
pub open spec fn json_string(s: Seq<char>) -> Seq<char> {
    seq!['"'] + escaped(s) + seq!['"']
}

/// The request body `{"query":<query>,"variables":<variables>}`, where
/// `variables` is already JSON text.
pub open spec fn request_body(query: Seq<char>, variables: Seq<char>) -> Seq<char> {
    "{\"query\":"@ + json_string(query) + ",\"variables\":"@ + variables + "}"@
}

/// Relies on serde_json::to_string on a `str`: it writes the string as a JSON
/// literal, escaping by the table that `escaped_char` states. Writing into
/// memory cannot fail for a `str`.
#[verifier::external_body]
fn json_quote(s: &str) -> (r: String)
    ensures
        r@ == json_string(s@),
{
    serde_json::to_string(s).unwrap_or_default()
}

/// Frames one request body from the query text and the JSON text of the
/// query's variables.
pub fn encode(query: &str, variables: &str) -> (r: String)
    ensures
        r@ == request_body(query@, variables@),
{
    let mut body = String::from_str("{\"query\":");
    let quoted = json_quote(query);
    body.append(quoted.as_str());
    body.append(",\"variables\":");
    body.append(variables);
    body.append("}");
    body
}

proof fn lemma_escaped_char_unique(a: char, b: char, x: Seq<char>, y: Seq<char>)
    requires
        escaped_char(a) + x == escaped_char(b) + y,
    ensures
        a == b,
{
    let s = escaped_char(a) + x;
    assert(s[0] == escaped_char(a)[0]);
    assert(s[0] == escaped_char(b)[0]);
    if escaped_char(a).len() >= 2 && escaped_char(b).len() >= 2 {
        assert(s[1] == escaped_char(a)[1]);
        assert(s[1] == escaped_char(b)[1]);
        if escaped_char(a).len() == 6 && escaped_char(b).len() == 6 {
            assert(s[4] == escaped_char(a)[4] && s[4] == escaped_char(b)[4]);
            assert(s[5] == escaped_char(a)[5] && s[5] == escaped_char(b)[5]);
            assert((a as u32) == (b as u32));
        }
    }
}

proof fn lemma_escaped_then_quote(q1: Seq<char>, q2: Seq<char>, r1: Seq<char>, r2: Seq<char>)
    requires
        escaped(q1) + seq!['"'] + r1 == escaped(q2) + seq!['"'] + r2,
    ensures
        q1 == q2,
        r1 == r2,
    decreases q1.len(),
{
    let s = escaped(q1) + seq!['"'] + r1;
    if q1.len() == 0 {
        if q2.len() > 0 {
            assert(s[0] == escaped_char(q2[0])[0]);
        }
        assert(r1 =~= s.drop_first());
        assert(r2 =~= s.drop_first());
    } else if q2.len() == 0 {
        assert(s[0] == escaped_char(q1[0])[0]);
    } else {
        let e1 = escaped_char(q1[0]);
        let e2 = escaped_char(q2[0]);
        let t1 = escaped(q1.drop_first()) + seq!['"'] + r1;
        let t2 = escaped(q2.drop_first()) + seq!['"'] + r2;
        assert(s =~= e1 + t1);
        assert(s =~= e2 + t2);
        lemma_escaped_char_unique(q1[0], q2[0], t1, t2);
        assert(t1 =~= s.subrange(e1.len() as int, s.len() as int));
        assert(t2 =~= s.subrange(e2.len() as int, s.len() as int));
        lemma_escaped_then_quote(q1.drop_first(), q2.drop_first(), r1, r2);
        assert(q1 =~= seq![q1[0]] + q1.drop_first());
        assert(q2 =~= seq![q2[0]] + q2.drop_first());
    }
}

/// A request body determines its fields exactly: two bodies are the same
/// text only when their query texts and their variables are the same.
pub proof fn lemma_request_body_fields(
    q1: Seq<char>,
    v1: Seq<char>,
    q2: Seq<char>,
    v2: Seq<char>,
)
    requires
        request_body(q1, v1) == request_body(q2, v2),
    ensures
        q1 == q2,
        v1 == v2,
{
    let p = "{\"query\":"@;
    let m = ",\"variables\":"@;
    let e = "}"@;
    let s = request_body(q1, v1);
    let r1 = m + v1 + e;
    let r2 = m + v2 + e;
    assert(s =~= p + seq!['"'] + (escaped(q1) + seq!['"'] + r1));
    assert(request_body(q2, v2) =~= p + seq!['"'] + (escaped(q2) + seq!['"'] + r2));
    assert(escaped(q1) + seq!['"'] + r1 =~= s.subrange(p.len() as int + 1, s.len() as int));
    assert(escaped(q2) + seq!['"'] + r2 =~= s.subrange(p.len() as int + 1, s.len() as int));
    lemma_escaped_then_quote(q1, q2, r1, r2);
    reveal_strlit("}");
    assert(v1 =~= r1.subrange(m.len() as int, r1.len() - 1));
    assert(v2 =~= r2.subrange(m.len() as int, r2.len() - 1));
}

/// A response envelope as it came off the wire: optional data and an
/// optional, ordered list of error entries.
#[derive(Debug, Clone, PartialEq)]
pub struct ResponseEnvelope<D> {
    pub data: Option<D>,
    pub errors: Option<Vec<ErrorDetail>>,
}

/// Whether the envelope carries at least one error entry.
pub open spec fn has_errors<D>(env: ResponseEnvelope<D>) -> bool {
    env.errors is Some && env.errors->Some_0@.len() > 0
}

/// What an envelope stands for: its error entries if there is one (they mask
/// any data), else its data, else a decode error for a malformed response.
pub open spec fn envelope_result<D>(env: ResponseEnvelope<D>) -> Result<D, FetchErrorView> {
    if has_errors(env) {
        Err(FetchErrorView {
            kind: ErrorKind::Protocol,
            details: env.errors->Some_0@.map_values(|d: ErrorDetail| d@),
        })
    } else if env.data is Some {
        Ok(env.data->Some_0)
    } else {
        Err(single_error(ErrorKind::Decode, "malformed response"@))
    }
}

/// What a parse attempt stands for: a decode error carrying the parser's
/// message, or the result of the envelope.
pub open spec fn decode_result<D>(parsed: Result<ResponseEnvelope<D>, String>) -> Result<
    D,
    FetchErrorView,
> {
    match parsed {
        Ok(env) => envelope_result(env),
        Err(m) => Err(single_error(ErrorKind::Decode, m@)),
    }
}

/// Turns a decoded envelope into the round trip's result.
pub fn unwrap_envelope<D>(env: ResponseEnvelope<D>) -> (r: Result<D, FetchError>)
    ensures
        result_view(r) == envelope_result(env),
{
    let ResponseEnvelope { data, errors } = env;
    match errors {
        Some(es) => {
            if es.len() > 0 {
                return Err(FetchError { kind: ErrorKind::Protocol, details: es });
            }
        },
        None => {},
    }
    match data {
        Some(d) => Ok(d),
        None => Err(error_with_message(ErrorKind::Decode, String::from_str("malformed response"))),
    }
}

/// Turns the outcome of parsing a response body (the envelope, or the
/// parser's message) into the round trip's result. A body that did not parse
/// gives a decode error and never a fault.
pub fn decode<D>(parsed: Result<ResponseEnvelope<D>, String>) -> (r: Result<D, FetchError>)
    ensures
        result_view(r) == decode_result(parsed),
{
    match parsed {
        Ok(env) => unwrap_envelope(env),
        Err(m) => Err(error_with_message(ErrorKind::Decode, m)),
    }
}

/// A successful envelope holding `data`, with no error entries (absent or an
/// empty list), decodes to exactly `data`.
pub proof fn lemma_success_round_trip<D>(data: D, errors: Option<Vec<ErrorDetail>>)
    requires
        errors is None || errors->Some_0@.len() == 0,
    ensures
        decode_result(Ok(ResponseEnvelope { data: Some(data), errors })) == Ok::<
            D,
            FetchErrorView,
        >(data),
{
}

/// Error entries mask data: an envelope with at least one entry decodes to a
/// protocol error carrying exactly those entries, in order, whatever its data.
pub proof fn lemma_errors_mask_data<D>(data: Option<D>, errors: Vec<ErrorDetail>)
    requires
        errors@.len() > 0,
    ensures
        decode_result(Ok(ResponseEnvelope { data, errors: Some(errors) })) == Err::<
            D,
            FetchErrorView,
        >(FetchErrorView { kind: ErrorKind::Protocol, details: errors@.map_values(|d: ErrorDetail| d@) }),
{
}

} // verus!
