use vstd::prelude::*;
use vstd::string::*;

verus! {

/// Status of a reply when the downstream accepted the sale.
pub const STATUS_OK: u16 = 200;

/// Status of a reply when the downstream rejected the sale.
pub const STATUS_BAD_REQUEST: u16 = 400;

/// Status of a reply when the downstream could not be reached.
pub const STATUS_INTERNAL_ERROR: u16 = 500;

/// Start of the message handed back when the downstream could not be reached;
/// the transport error's description follows it.
pub const TRANSPORT_ERROR_PREFIX: &'static str = "error sending to downstream service: ";

/// The JSON envelope handed back to the caller: `{"ok": .., "mensaje": ..}`.
pub struct ApiResp {
    pub ok: bool,
    pub mensaje: String,
}

/// A complete reply: the HTTP status and the envelope.
pub struct Reply {
    pub status: u16,
    pub body: ApiResp,
}

/// What came of the one outbound call.
pub enum DownstreamOutcome {
    /// The downstream answered with `status`; `body` is its text, or `None`
    /// where the body could not be read.
    Responded { status: u16, body: Option<String> },
    /// No response arrived; `error` describes the transport failure.
    Unreachable { error: String },
}

/// Whether an HTTP status code lies in the success class (200 through 299).
pub open spec fn is_success_status(status: u16) -> bool {
    200 <= status && status <= 299
}

/// The text that a downstream body stands for: itself, or nothing where it
/// could not be read.
pub open spec fn body_text(body: Option<String>) -> Seq<char> {
    match body {
        Some(b) => b@,
        None => Seq::empty(),
    }
}

/// The message that reports a transport failure described by `error`.
pub open spec fn transport_error_text(error: Seq<char>) -> Seq<char> {
    TRANSPORT_ERROR_PREFIX@ + error
}

/// Tells a success status (200 through 299) from any other.
pub fn status_is_success(status: u16) -> (r: bool)
    ensures
        r == is_success_status(status),
{
    200 <= status && status <= 299
}

/// The downstream's body text, or the empty string where it could not be read.
pub fn body_or_empty(body: Option<String>) -> (r: String)
    ensures
        r@ == body_text(body),
{
    match body {
        Some(b) => b,
        None => String::new(),
    }
}

/// The message that reports a transport failure described by `error`.
pub fn transport_error_message(error: &str) -> (r: String)
    ensures
        r@ == transport_error_text(error@),
{
    let prefix = String::from_str(TRANSPORT_ERROR_PREFIX);
    prefix.concat(error)
}

/// Turns the outcome of the outbound call into the reply for the caller.
///
/// A response in the success class becomes 200 with `ok` set and the
/// downstream's text as the message; any other response becomes 400 with `ok`
/// cleared and the same text. An unreadable body counts as the empty text and
/// does not change the status. A transport failure becomes 500 with `ok`
/// cleared and a message made of a fixed prefix and the failure's description.
pub fn relay_reply(outcome: DownstreamOutcome) -> (r: Reply)
    ensures
        match outcome {
            DownstreamOutcome::Responded { status, body } => {
                &&& r.status == (if is_success_status(status) {
                    STATUS_OK
                } else {
                    STATUS_BAD_REQUEST
                })
                &&& r.body.ok == is_success_status(status)
                &&& r.body.mensaje@ == body_text(body)
                &&& body is None ==> r.body.mensaje@.len() == 0
            },
            DownstreamOutcome::Unreachable { error } => {
                &&& r.status == STATUS_INTERNAL_ERROR
                &&& !r.body.ok
                &&& r.body.mensaje@ == transport_error_text(error@)
            },
        },
{
    match outcome {
        DownstreamOutcome::Responded { status, body } => {
            let text = body_or_empty(body);
            if status_is_success(status) {
                Reply { status: STATUS_OK, body: ApiResp { ok: true, mensaje: text } }
            } else {
                Reply { status: STATUS_BAD_REQUEST, body: ApiResp { ok: false, mensaje: text } }
            }
        },
        DownstreamOutcome::Unreachable { error } => {
            let mensaje = transport_error_message(error.as_str());
            Reply { status: STATUS_INTERNAL_ERROR, body: ApiResp { ok: false, mensaje } }
        },
    }
}

} // verus!
