use vstd::prelude::*;
use vstd::string::{StrSliceExecFns, StringExecFns};
use crate::outcome::Outcome;
use crate::probe::ProbeKind;

verus! {

/// What serde_json reads from a response body: the text of its top-level
/// `"result"` member when the body is JSON and that member is a string
/// (`None` when it is absent or not a string), or the parser's error message.
pub uninterp spec fn json_result_member(body: Seq<char>) -> Result<Option<Seq<char>>, Seq<char>>;

/// The spec value of a read `"result"` member.
pub open spec fn member_view(m: Result<Option<String>, String>) -> Result<Option<Seq<char>>, Seq<char>> {
    match m {
        Ok(Some(s)) => Ok(Some(s@)),
        Ok(None) => Ok(None),
        Err(e) => Err(e@),
    }
}

/// Relies on serde_json::from_str to parse the body as a `serde_json::Value`,
/// then on `Value::get("result")` and `Value::as_str` to read the member.
#[verifier::external_body]
fn read_result_member(body: &str) -> (r: Result<Option<String>, String>)
    ensures
        member_view(r) == json_result_member(body@),
{
    let v: serde_json::Value = match serde_json::from_str(body) {
        Ok(v) => v,
        Err(e) => return Err(e.to_string()),
    };
    match v.get("result").and_then(serde_json::Value::as_str) {
        Some(m) => Ok(Some(m.to_string())),
        None => Ok(None),
    }
}

/// The literal success marker of a healthy node.
pub open spec fn healthy_marker() -> Seq<char> {
    "ok"@
}

/// Prefix of the error detail that echoes an unexpected health payload.
pub open spec fn unexpected_prefix() -> Seq<char> {
    "unexpected response: "@
}

/// The error detail of a health check, given what was read from its body;
/// `None` when the node reported itself healthy.
pub open spec fn health_error(member: Result<Option<Seq<char>>, Seq<char>>, body: Seq<char>) -> Option<Seq<char>> {
    match member {
        Ok(Some(m)) => if m == healthy_marker() {
            None
        } else {
            Some(unexpected_prefix() + body)
        },
        Ok(None) => Some(unexpected_prefix() + body),
        Err(e) => Some(e),
    }
}

/// The spec value of an outcome's error detail.
pub open spec fn detail_view(d: Option<String>) -> Option<Seq<char>> {
    match d {
        Some(s) => Some(s@),
        None => None,
    }
}

fn is_healthy_marker(s: &str) -> (r: bool)
    ensures
        r == (s@ == healthy_marker()),
{
    proof {
        reveal_strlit("ok");
    }
    let n = s.unicode_len();
    if n != 2 {
        return false;
    }
    let a = s.get_char(0);
    let b = s.get_char(1);
    proof {
        if a == 'o' && b == 'k' {
            assert(s@ =~= healthy_marker());
        }
    }
    a == 'o' && b == 'k'
}

/// The outcome of a health check whose body has been read: healthy exactly
/// when the `"result"` member is the string `"ok"`; any other payload fails
/// with the payload echoed; a body that is not JSON fails with the parser's
/// message.
pub fn health_verdict(member: Result<Option<String>, String>, body: &str, duration_ms: u64) -> (r: Outcome)
    ensures
        r.wf(),
        r.probe == ProbeKind::Health,
        r.duration_ms == duration_ms,
        r.succeeded == (health_error(member_view(member), body@) is None),
        detail_view(r.error_detail) == health_error(member_view(member), body@),
{
    match member {
        Ok(Some(m)) => {
            if is_healthy_marker(m.as_str()) {
                Outcome::success(ProbeKind::Health, duration_ms)
            } else {
                let msg = String::from_str("unexpected response: ").concat(body);
                Outcome::failure(ProbeKind::Health, duration_ms, msg)
            }
        },
        Ok(None) => {
            let msg = String::from_str("unexpected response: ").concat(body);
            Outcome::failure(ProbeKind::Health, duration_ms, msg)
        },
        Err(e) => Outcome::failure(ProbeKind::Health, duration_ms, e),
    }
}

/// The outcome of one health check: a transport failure carries its own
/// message; a received body is judged by its `"result"` member.
pub fn health_outcome(response: Result<String, String>, duration_ms: u64) -> (r: Outcome)
    ensures
        r.wf(),
        r.probe == ProbeKind::Health,
        r.duration_ms == duration_ms,
        response matches Err(e) ==> !r.succeeded && r.error_detail == Some(e),
        response matches Ok(b) ==> r.succeeded == (health_error(json_result_member(b@), b@) is None)
            && detail_view(r.error_detail) == health_error(json_result_member(b@), b@),
{
    match response {
        Ok(body) => {
            let member = read_result_member(body.as_str());
            health_verdict(member, body.as_str(), duration_ms)
        },
        Err(e) => Outcome::failure(ProbeKind::Health, duration_ms, e),
    }
}

} // verus!
