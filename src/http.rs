use vstd::prelude::*;
use crate::status::ServerError;

verus! {

/// The scheme, loopback address and port separator every worker URL starts with.
pub const LOOPBACK_PREFIX: &'static str = "http://127.0.0.1:";

/// The worker's liveness endpoint.
pub const HEALTH_PATH: &'static str = "/api/health";

/// The worker's detection endpoint.
pub const DETECT_PATH: &'static str = "/api/detect-vertebrae";

/// How long one health probe may take before the worker counts as unhealthy.
pub const HEALTH_TIMEOUT_MS: u64 = 2000;

/// The decimal digit for `d < 10`.
pub open spec fn digit_char(d: nat) -> char {
    if d == 0 { '0' }
    else if d == 1 { '1' }
    else if d == 2 { '2' }
    else if d == 3 { '3' }
    else if d == 4 { '4' }
    else if d == 5 { '5' }
    else if d == 6 { '6' }
    else if d == 7 { '7' }
    else if d == 8 { '8' }
    else { '9' }
}

/// The decimal notation of `n`, without sign or leading zeros.
pub open spec fn decimal(n: nat) -> Seq<char>
    decreases n,
{
    if n < 10 {
        seq![digit_char(n)]
    } else {
        decimal(n / 10) + seq![digit_char(n % 10)]
    }
}

/// The URL of `path` on the worker listening at `port` on the loopback address.
pub open spec fn worker_url(port: u16, path: Seq<char>) -> Seq<char> {
    LOOPBACK_PREFIX@ + decimal(port as nat) + path
}

/// A 2xx HTTP status.
pub open spec fn is_success_code(code: u16) -> bool {
    200 <= code && code <= 299
}

/// The lowercase hexadecimal digit for `d < 16`.
pub open spec fn hex_char(d: u32) -> char {
    if d < 10 { digit_char(d as nat) }
    else if d == 10 { 'a' }
    else if d == 11 { 'b' }
    else if d == 12 { 'c' }
    else if d == 13 { 'd' }
    else if d == 14 { 'e' }
    else { 'f' }
}

/// How one character is written inside a JSON string literal: quote and
/// backslash are escaped, control characters take their short escape where
/// JSON has one and `\u00XX` otherwise, everything else stands as it is.
pub open spec fn json_escape_char(c: char) -> Seq<char> {
    let u = c as u32;
    if c == '"' { seq!['\\', '"'] }
    else if c == '\\' { seq!['\\', '\\'] }
    else if u == 0x08 { seq!['\\', 'b'] }
    else if u == 0x09 { seq!['\\', 't'] }
    else if u == 0x0A { seq!['\\', 'n'] }
    else if u == 0x0C { seq!['\\', 'f'] }
    else if u == 0x0D { seq!['\\', 'r'] }
    else if u < 0x20 { seq!['\\', 'u', '0', '0', hex_char(u / 16), hex_char(u % 16)] }
    else { seq![c] }
}

/// The escaped contents of a JSON string literal holding `s`.
pub open spec fn json_escape(s: Seq<char>) -> Seq<char>
    decreases s.len(),
{
    if s.len() == 0 {
        Seq::empty()
    } else {
        json_escape(s.drop_last()) + json_escape_char(s.last())
    }
}

/// The JSON string literal holding `s`.
pub open spec fn json_string(s: Seq<char>) -> Seq<char> {
    seq!['"'] + json_escape(s) + seq!['"']
}

/// The JSON body of a detection request for the quoted file path `quoted_path`.
pub open spec fn detect_body_of(quoted_path: Seq<char>, fast_mode: bool) -> Seq<char> {
    "{\"file_path\":"@ + quoted_path + ",\"fast_mode\":"@
        + (if fast_mode { "true"@ } else { "false"@ }) + "}"@
}

/// Relies on serde_json::to_string applied to a string slice, which writes the
/// slice as a JSON string literal (ser.rs, `format_escaped_str` and its
/// `ESCAPE` table). Writing into the `Vec` that backs the string cannot fail,
/// so the call always succeeds.
#[verifier::external_body]
fn json_string_literal(s: &str) -> (r: Option<String>)
    ensures
        r is Some,
        r matches Some(q) ==> q@ == json_string(s@),
{
    serde_json::to_string(s).ok()
}

/// The one-character string holding the decimal digit `d`.
fn digit_str(d: u16) -> (r: &'static str)
    requires
        d < 10,
    ensures
        r@ == seq![digit_char(d as nat)],
{
    proof {
        reveal_strlit("0");
        reveal_strlit("1");
        reveal_strlit("2");
        reveal_strlit("3");
        reveal_strlit("4");
        reveal_strlit("5");
        reveal_strlit("6");
        reveal_strlit("7");
        reveal_strlit("8");
        reveal_strlit("9");
    }
    let r = if d == 0 { "0" }
        else if d == 1 { "1" }
        else if d == 2 { "2" }
        else if d == 3 { "3" }
        else if d == 4 { "4" }
        else if d == 5 { "5" }
        else if d == 6 { "6" }
        else if d == 7 { "7" }
        else if d == 8 { "8" }
        else { "9" };
    assert(r@ =~= seq![digit_char(d as nat)]);
    r
}

/// Appends the decimal notation of `n` to `s`.
fn append_decimal(s: &mut String, n: u16)
    ensures
        final(s)@ == old(s)@ + decimal(n as nat),
    decreases n,
{
    if n >= 10 {
        append_decimal(s, n / 10);
    }
    s.append(digit_str(n % 10));
    assert(final(s)@ =~= old(s)@ + decimal(n as nat));
}

/// The URL of `path` on the worker at `port`.
fn url_for(port: u16, path: &str) -> (r: String)
    ensures
        r@ == worker_url(port, path@),
{
    let mut r = String::from_str(LOOPBACK_PREFIX);
    append_decimal(&mut r, port);
    r.append(path);
    r
}

/// The URL of the worker's health endpoint.
pub fn health_url(port: u16) -> (r: String)
    ensures
        r@ == worker_url(port, HEALTH_PATH@),
{
    url_for(port, HEALTH_PATH)
}

/// The URL of the worker's detection endpoint.
pub fn detect_url(port: u16) -> (r: String)
    ensures
        r@ == worker_url(port, DETECT_PATH@),
{
    url_for(port, DETECT_PATH)
}

/// Whether an HTTP status is a success (2xx).
pub fn is_success_status(code: u16) -> (r: bool)
    ensures
        r == is_success_code(code),
{
    200 <= code && code <= 299
}

/// Why a health probe found the worker unhealthy.
#[derive(Debug, Clone, PartialEq, Eq)]
pub enum Unhealthy {
    /// The request failed or timed out; the transport's message.
    Transport(String),
    /// The worker answered with this status outside 2xx.
    Status(u16),
}

/// The verdict of one health probe, from the status the worker answered with,
/// or the transport's message where the request failed or timed out.
pub fn probe_verdict(answer: Result<u16, String>) -> (r: Result<(), Unhealthy>)
    ensures
        match answer {
            Ok(code) => if is_success_code(code) {
                r is Ok
            } else {
                r == Err::<(), Unhealthy>(Unhealthy::Status(code))
            },
            Err(message) => r == Err::<(), Unhealthy>(Unhealthy::Transport(message)),
        },
{
    match answer {
        Ok(code) => if is_success_status(code) {
            Ok(())
        } else {
            Err(Unhealthy::Status(code))
        },
        Err(message) => Err(Unhealthy::Transport(message)),
    }
}

/// The JSON body of a detection request: `{"file_path":...,"fast_mode":...}`.
pub fn detect_body(file_path: &str, fast_mode: bool) -> (r: String)
    ensures
        r@ == detect_body_of(json_string(file_path@), fast_mode),
{
    let quoted = json_string_literal(file_path).unwrap();
    let mut body = String::from_str("{\"file_path\":");
    body.append(quoted.as_str());
    body.append(",\"fast_mode\":");
    if fast_mode {
        body.append("true");
    } else {
        body.append("false");
    }
    body.append("}");
    body
}

/// Classifies the worker's answer to a detection request: a 2xx answer hands
/// its body on untouched for decoding, any other is a worker error carrying
/// the status and the body.
pub fn classify_detect_response(code: u16, body: String) -> (r: Result<String, ServerError>)
    ensures
        is_success_code(code) ==> r == Ok::<String, ServerError>(body),
        !is_success_code(code) ==> r == Err::<String, ServerError>(ServerError::Worker { status: code, body }),
{
    if is_success_status(code) {
        Ok(body)
    } else {
        Err(ServerError::Worker { status: code, body })
    }
}

} // verus!
