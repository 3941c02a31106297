//! The response synthesizer: pure builders for the uniform JSON error
//! envelope returned for client-visible failures. Every synthesized response
//! carries a `content-type: application/json;charset=UTF-8` header and the
//! fixed server-identification header.

use vstd::prelude::*;

use crate::agent;
use crate::data::{headers_view, HttpReply, HttpReplyV};
use crate::json::{json_error_body, json_error_body_exec};
use crate::upstream::{failure_message, UpstreamError};
use vstd::utf8::encode_utf8;

verus! {

/// The two headers every synthesized response carries.
pub open spec fn synth_headers() -> Seq<(Seq<char>, Seq<char>)> {
    seq![
        ("content-type"@, "application/json;charset=UTF-8"@),
        ("server"@, "frl-proxy"@),
    ]
}

/// A synthesized response: the given status, the fixed headers, and the
/// UTF-8 bytes of the JSON error envelope built from the status-code text
/// and the message.
pub open spec fn synthesized_reply(status: u16, code: Seq<char>, message: Seq<char>) -> HttpReplyV {
    HttpReplyV {
        status,
        headers: synth_headers(),
        body: encode_utf8(json_error_body(code, message)),
    }
}

/// The response for a malformed inbound request carrying the validation
/// reason.
pub open spec fn bad_request_reply(reason: Seq<char>) -> HttpReplyV {
    synthesized_reply(400, "400"@, reason)
}

/// The response returned when the upstream call itself failed, carrying the
/// underlying error text.
pub open spec fn cops_failure_reply(message: Seq<char>) -> HttpReplyV {
    synthesized_reply(502, "502"@, message)
}

/// The fixed message of the offline response.
pub open spec fn offline_message() -> Seq<char> {
    "Proxy is operating offline: request stored for later replay"@
}

/// The fixed response returned in store mode, without any network call.
pub open spec fn offline_reply() -> HttpReplyV {
    synthesized_reply(502, "502"@, offline_message())
}

fn synthesize(status: u16, code: &str, message: &str) -> (r: HttpReply)
    ensures
        r@ == synthesized_reply(status, code@, message@),
{
    let body_text = json_error_body_exec(code, message);
    let body: Vec<u8> = body_text.as_str().as_bytes_vec();
    let mut headers: Vec<(String, String)> = Vec::new();
    headers.push(("content-type".to_owned(), "application/json;charset=UTF-8".to_owned()));
    headers.push(("server".to_owned(), agent().to_owned()));
    proof {
        assert(headers_view(headers@) =~~= synth_headers());
    }
    HttpReply { status, headers, body }
}

/// Builds the 400 response rejecting a malformed inbound request; `reason`
/// is the validation reason reported by the parser.
pub fn bad_request_response(reason: &str) -> (r: HttpReply)
    ensures
        r@ == bad_request_reply(reason@),
{
    synthesize(400, "400", reason)
}

/// Builds the 502 response reporting that the upstream call itself failed,
/// carrying the underlying error text.
pub fn cops_failure_response(err: &UpstreamError) -> (r: HttpReply)
    ensures
        r@ == cops_failure_reply(failure_message(*err)),
{
    let mut message: String = "Failed to get a response from COPS: ".to_owned();
    let detail = err.error_message();
    message.append(detail.as_str());
    proof {
        assert(message@ =~= failure_message(*err));
    }
    synthesize(502, "502", message.as_str())
}

/// Builds the fixed 502 response returned in store mode.
pub fn proxy_offline_response() -> (r: HttpReply)
    ensures
        r@ == offline_reply(),
{
    synthesize(502, "502", "Proxy is operating offline: request stored for later replay")
}

} // verus!
