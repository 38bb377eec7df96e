//! Error labels: one per failed request, by status code or by the kind of
//! transport failure.
use vstd::prelude::*;
use vstd::string::*;

verus! {

pub open spec fn digit_char(d: nat) -> char {
    seq!['0', '1', '2', '3', '4', '5', '6', '7', '8', '9'][d as int]
}

/// Decimal digits of `n`, most significant first, without leading zeros.
pub open spec fn decimal(n: nat) -> Seq<char>
    decreases n,
{
    if n < 10 {
        seq![digit_char(n)]
    } else {
        decimal(n / 10).push(digit_char(n % 10))
    }
}

fn digit_str(d: u64) -> (r: &'static str)
    requires
        d < 10,
    ensures
        r@ == seq![digit_char(d as nat)],
{
    proof {
        reveal_strlit("0");
        reveal_strlit("1");
        reveal_strlit("2");
        reveal_strlit("3");
        reveal_strlit("4");
        reveal_strlit("5");
        reveal_strlit("6");
        reveal_strlit("7");
        reveal_strlit("8");
        reveal_strlit("9");
    }
    if d == 0 {
        "0"
    } else if d == 1 {
        "1"
    } else if d == 2 {
        "2"
    } else if d == 3 {
        "3"
    } else if d == 4 {
        "4"
    } else if d == 5 {
        "5"
    } else if d == 6 {
        "6"
    } else if d == 7 {
        "7"
    } else if d == 8 {
        "8"
    } else {
        "9"
    }
}

/// Appends the decimal digits of `n` to `s`.
pub fn push_decimal(s: &mut String, n: u64)
    ensures
        final(s)@ == old(s)@ + decimal(n as nat),
    decreases n,
{
    if n >= 10 {
        push_decimal(s, n / 10);
    }
    s.append(digit_str(n % 10));
}

/// Label for a non-success status code, given the code's canonical reason
/// phrase if it has one: a fixed label for the common codes, otherwise
/// `HTTP_<code>_<reason>` with `Unknown` for a missing reason.
pub open spec fn http_label(code: u16, reason: Option<Seq<char>>) -> Seq<char> {
    if code == 400 {
        "HTTP_400_Bad_Request"@
    } else if code == 401 {
        "HTTP_401_Unauthorized"@
    } else if code == 403 {
        "HTTP_403_Forbidden"@
    } else if code == 404 {
        "HTTP_404_Not_Found"@
    } else if code == 429 {
        "HTTP_429_Too_Many_Requests"@
    } else if code == 500 {
        "HTTP_500_Internal_Server_Error"@
    } else if code == 502 {
        "HTTP_502_Bad_Gateway"@
    } else if code == 503 {
        "HTTP_503_Service_Unavailable"@
    } else if code == 504 {
        "HTTP_504_Gateway_Timeout"@
    } else {
        "HTTP_"@ + decimal(code as nat) + "_"@ + match reason {
            Some(r) => r,
            None => "Unknown"@,
        }
    }
}

/// The standard reason phrase that reqwest's `StatusCode` knows for a code.
pub uninterp spec fn reason_phrase(code: u16) -> Option<Seq<char>>;

/// Relies on `StatusCode::from_u16` and `StatusCode::canonical_reason`: the
/// phrase depends on the code alone.
#[verifier::external_body]
fn canonical_reason(code: u16) -> (r: Option<String>)
    ensures
        match r {
            Some(s) => reason_phrase(code) == Some(s@),
            None => reason_phrase(code) is None,
        },
{
    reqwest::StatusCode::from_u16(code).ok().and_then(|c| c.canonical_reason()).map(
        |p| p.to_string(),
    )
}

/// The label of a status code, given its reason phrase.
pub fn http_error_label_with(code: u16, reason: Option<&str>) -> (r: String)
    ensures
        r@ == http_label(
            code,
            match reason {
                Some(s) => Some(s@),
                None => None,
            },
        ),
{
    if code == 400 {
        String::from_str("HTTP_400_Bad_Request")
    } else if code == 401 {
        String::from_str("HTTP_401_Unauthorized")
    } else if code == 403 {
        String::from_str("HTTP_403_Forbidden")
    } else if code == 404 {
        String::from_str("HTTP_404_Not_Found")
    } else if code == 429 {
        String::from_str("HTTP_429_Too_Many_Requests")
    } else if code == 500 {
        String::from_str("HTTP_500_Internal_Server_Error")
    } else if code == 502 {
        String::from_str("HTTP_502_Bad_Gateway")
    } else if code == 503 {
        String::from_str("HTTP_503_Service_Unavailable")
    } else if code == 504 {
        String::from_str("HTTP_504_Gateway_Timeout")
    } else {
        let mut s = String::from_str("HTTP_");
        push_decimal(&mut s, code as u64);
        s.append("_");
        match reason {
            Some(p) => s.append(p),
            None => s.append("Unknown"),
        }
        s
    }
}

/// The label of a non-success status code, with reqwest's reason phrase.
pub fn http_error_label(code: u16) -> (r: String)
    ensures
        r@ == http_label(code, reason_phrase(code)),
{
    let reason = canonical_reason(code);
    match reason {
        Some(p) => http_error_label_with(code, Some(p.as_str())),
        None => http_error_label_with(code, None),
    }
}

/// Kinds of transport failure, in the order in which they are tested.
#[derive(Clone, Copy, Debug, PartialEq, Eq, Structural)]
pub enum TransportErrorKind {
    Timeout,
    Connection,
    Request,
    Body,
    Decode,
    Redirect,
    Builder,
    Unknown,
}

/// What a failed request reports of itself.
#[derive(Clone, Copy, Debug, PartialEq, Eq, Structural)]
pub struct TransportFlags {
    pub timeout: bool,
    pub connect: bool,
    pub request: bool,
    pub body: bool,
    pub decode: bool,
    pub redirect: bool,
    pub builder: bool,
}

/// The first kind whose flag is set, `Unknown` when none is.
pub open spec fn kind_of(f: TransportFlags) -> TransportErrorKind {
    if f.timeout {
        TransportErrorKind::Timeout
    } else if f.connect {
        TransportErrorKind::Connection
    } else if f.request {
        TransportErrorKind::Request
    } else if f.body {
        TransportErrorKind::Body
    } else if f.decode {
        TransportErrorKind::Decode
    } else if f.redirect {
        TransportErrorKind::Redirect
    } else if f.builder {
        TransportErrorKind::Builder
    } else {
        TransportErrorKind::Unknown
    }
}

/// Classifies a transport failure by its flags.
pub fn classify_transport(f: TransportFlags) -> (k: TransportErrorKind)
    ensures
        k == kind_of(f),
{
    if f.timeout {
        TransportErrorKind::Timeout
    } else if f.connect {
        TransportErrorKind::Connection
    } else if f.request {
        TransportErrorKind::Request
    } else if f.body {
        TransportErrorKind::Body
    } else if f.decode {
        TransportErrorKind::Decode
    } else if f.redirect {
        TransportErrorKind::Redirect
    } else if f.builder {
        TransportErrorKind::Builder
    } else {
        TransportErrorKind::Unknown
    }
}

pub open spec fn detail_or(d: Option<Seq<char>>, dflt: Seq<char>) -> Seq<char> {
    match d {
        Some(s) => s,
        None => dflt,
    }
}

/// Label of a transport failure: the kind, and for connection, request and
/// unknown failures the detail the failure carried.
pub open spec fn transport_label(k: TransportErrorKind, detail: Option<Seq<char>>) -> Seq<char> {
    match k {
        TransportErrorKind::Timeout => "Timeout"@,
        TransportErrorKind::Connection => "Connection: "@ + detail_or(
            detail,
            "Failed to establish connection"@,
        ),
        TransportErrorKind::Request => "Request: "@ + detail_or(detail, Seq::empty()),
        TransportErrorKind::Body => "Body: Failed to read response body"@,
        TransportErrorKind::Decode => "Decode: Failed to decode response"@,
        TransportErrorKind::Redirect => "Redirect: Too many redirects"@,
        TransportErrorKind::Builder => "Builder: Invalid request"@,
        TransportErrorKind::Unknown => "Unknown: "@ + detail_or(detail, Seq::empty()),
    }
}

/// The label of a transport failure.
pub fn transport_error_label(k: TransportErrorKind, detail: Option<&str>) -> (r: String)
    ensures
        r@ == transport_label(
            k,
            match detail {
                Some(s) => Some(s@),
                None => None,
            },
        ),
{
    match k {
        TransportErrorKind::Timeout => String::from_str("Timeout"),
        TransportErrorKind::Connection => {
            let mut s = String::from_str("Connection: ");
            match detail {
                Some(d) => s.append(d),
                None => s.append("Failed to establish connection"),
            }
            s
        },
        TransportErrorKind::Request => {
            let mut s = String::from_str("Request: ");
            match detail {
                Some(d) => s.append(d),
                None => {},
            }
            s
        },
        TransportErrorKind::Body => String::from_str("Body: Failed to read response body"),
        TransportErrorKind::Decode => String::from_str("Decode: Failed to decode response"),
        TransportErrorKind::Redirect => String::from_str("Redirect: Too many redirects"),
        TransportErrorKind::Builder => String::from_str("Builder: Invalid request"),
        TransportErrorKind::Unknown => {
            let mut s = String::from_str("Unknown: ");
            match detail {
                Some(d) => s.append(d),
                None => {},
            }
            s
        },
    }
}

} // verus!
