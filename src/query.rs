use vstd::prelude::*;
use vstd::string::StringExecFns;
use crate::codec::{decode, decode_result, encode, hex_digit, request_body, ResponseEnvelope};
use crate::error::{error_with_message, result_view, single_error, ErrorKind, FetchError, FetchErrorView};

verus! {

/// Whether a request sends the caller's credentials along.
#[derive(Debug, Clone, Copy, PartialEq, Eq, Structural)]
pub enum CredentialsPolicy {
    Omit,
    SameOrigin,
    Include,
}

/// The transport settings a caller injects: endpoint, extra headers and the
/// credentials policy.
#[derive(Debug, Clone, PartialEq)]
pub struct TransportConfig {
    pub endpoint: String,
    pub headers: Vec<(String, String)>,
    pub credentials: CredentialsPolicy,
}

/// One POST request, ready for the transport.
#[derive(Debug, Clone, PartialEq)]
pub struct HttpRequest {
    pub url: String,
    pub headers: Vec<(String, String)>,
    pub credentials: CredentialsPolicy,
    pub body: String,
}

/// The character view of a header list.
pub open spec fn headers_view(h: Seq<(String, String)>) -> Seq<(Seq<char>, Seq<char>)> {
    h.map_values(|p: (String, String)| (p.0@, p.1@))
}

/// The header that marks a JSON body.
pub open spec fn json_content_type() -> (Seq<char>, Seq<char>) {
    ("Content-Type"@, "application/json"@)
}

/// The request that a configuration and a request body give: the configured
/// endpoint, headers and credentials policy, with the JSON content type last.
pub open spec fn request_matches(
    req: HttpRequest,
    config: TransportConfig,
    body: Seq<char>,
) -> bool {
    &&& req.url@ == config.endpoint@
    &&& headers_view(req.headers@) == headers_view(config.headers@).push(json_content_type())
    &&& req.credentials == config.credentials
    &&& req.body@ == body
}

/// Builds the single request of one round trip for `query` with the JSON
/// text of its variables.
pub fn build_request(config: &TransportConfig, query: &str, variables: &str) -> (r: HttpRequest)
    ensures
        request_matches(r, *config, request_body(query@, variables@)),
{
    let mut headers: Vec<(String, String)> = Vec::new();
    let n = config.headers.len();
    for i in 0..n
        invariant
            n == config.headers@.len(),
            headers@ == config.headers@.take(i as int),
    {
        let name = config.headers[i].0.clone();
        let value = config.headers[i].1.clone();
        headers.push((name, value));
        assert(headers@ =~= config.headers@.take(i + 1));
    }
    assert(headers@ =~= config.headers@);
    let ghost before = headers@;
    headers.push((String::from_str("Content-Type"), String::from_str("application/json")));
    assert(headers_view(headers@) =~= headers_view(before).push(json_content_type()));
    HttpRequest {
        url: config.endpoint.clone(),
        headers,
        credentials: config.credentials,
        body: encode(query, variables),
    }
}

/// The decimal digits of `n`, most significant first.
pub open spec fn decimal(n: nat) -> Seq<char>
    decreases n,
{
    if n < 10 {
        seq![hex_digit(n as int)]
    } else {
        decimal(n / 10).push(hex_digit((n % 10) as int))
    }
}

fn digit_text(d: u64) -> (r: &'static str)
    requires
        d < 10,
    ensures
        r@ == seq![hex_digit(d as int)],
{
    proof {
        reveal_strlit("0");
        reveal_strlit("1");
        reveal_strlit("2");
        reveal_strlit("3");
        reveal_strlit("4");
        reveal_strlit("5");
        reveal_strlit("6");
        reveal_strlit("7");
        reveal_strlit("8");
        reveal_strlit("9");
    }
    let r = if d == 0 {
        "0"
    } else if d == 1 {
        "1"
    } else if d == 2 {
        "2"
    } else if d == 3 {
        "3"
    } else if d == 4 {
        "4"
    } else if d == 5 {
        "5"
    } else if d == 6 {
        "6"
    } else if d == 7 {
        "7"
    } else if d == 8 {
        "8"
    } else {
        "9"
    };
    assert(r@ =~= seq![hex_digit(d as int)]);
    r
}

/// Appends the decimal digits of `n` to `out`.
pub fn push_decimal(out: &mut String, n: u64)
    ensures
        final(out)@ == old(out)@ + decimal(n as nat),
    decreases n,
{
    if n < 10 {
        out.append(digit_text(n));
    } else {
        push_decimal(out, n / 10);
        out.append(digit_text(n % 10));
        assert(old(out)@ + decimal(n as nat) =~= old(out)@ + decimal((n / 10) as nat) + seq![
            hex_digit((n % 10) as int),
        ]);
    }
}

/// What the transport reports: a response with its status and body, or a
/// failure to complete the exchange, described in words.
#[derive(Debug, Clone, PartialEq)]
pub enum TransportOutcome {
    Response { status: u16, body: Vec<u8> },
    Failed(String),
}

/// A status code in the success range.
pub open spec fn is_success_status(status: u16) -> bool {
    200 <= status < 300
}

/// The description of a response whose status is outside the success range.
pub open spec fn status_message(status: u16) -> Seq<char> {
    "unexpected HTTP status "@ + decimal(status as nat)
}

/// What a transport outcome stands for: the body to decode, or a network error.
pub open spec fn transport_result(outcome: TransportOutcome) -> Result<Vec<u8>, FetchErrorView> {
    match outcome {
        TransportOutcome::Response { status, body } => if is_success_status(status) {
            Ok(body)
        } else {
            Err(single_error(ErrorKind::Network, status_message(status)))
        },
        TransportOutcome::Failed(m) => Err(single_error(ErrorKind::Network, m@)),
    }
}

/// Sorts a transport outcome into the body to decode or a network error.
pub fn response_body(outcome: TransportOutcome) -> (r: Result<Vec<u8>, FetchError>)
    ensures
        result_view(r) == transport_result(outcome),
{
    match outcome {
        TransportOutcome::Response { status, body } => {
            if 200 <= status && status < 300 {
                Ok(body)
            } else {
                let mut m = String::from_str("unexpected HTTP status ");
                push_decimal(&mut m, status as u64);
                Err(error_with_message(ErrorKind::Network, m))
            }
        },
        TransportOutcome::Failed(m) => Err(error_with_message(ErrorKind::Network, m)),
    }
}

/// Completes a round trip from the transport's outcome. Only a body that the
/// transport delivered is handed to `parse`; a network error is returned as
/// it is, without parsing.
pub fn complete<D, F>(outcome: TransportOutcome, parse: F) -> (r: Result<D, FetchError>)
    where
        F: Fn(&Vec<u8>) -> Result<ResponseEnvelope<D>, String>,
    requires
        forall|b: &Vec<u8>| parse.requires((b,)),
    ensures
        match transport_result(outcome) {
            Err(e) => result_view(r) == Err::<D, FetchErrorView>(e),
            Ok(body) => exists|parsed: Result<ResponseEnvelope<D>, String>|
                parse.ensures((&body,), parsed) && result_view(r) == decode_result(parsed),
        },
{
    match response_body(outcome) {
        Err(e) => Err(e),
        Ok(body) => {
            let parsed = parse(&body);
            decode(parsed)
        },
    }
}

} // verus!
