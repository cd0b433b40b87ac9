//! The decisions of one client connection. The caller performs I/O and hands
//! back what happened; each function here says what to do next.

use vstd::prelude::*;
use vstd::utf8::{decode_utf8, valid_utf8};
use crate::request::ReqJsonCmd;
use crate::response::{response_json, ResHeader, ResJsonCmd, ResponseCmdUtil};

verus! {

/// What the connection does next.
pub enum Action {
    /// The client has closed: stop serving it.
    Close,
    /// Interpret this text as a request.
    Decode(String),
    /// Classify the request, send it to the store and wait for the reply.
    Submit(ReqJsonCmd),
    /// Write this text to the client, then stop serving it if `close` holds.
    Respond { text: String, close: bool },
}

/// The wire text telling the client its bytes were not text.
pub open spec fn encode_fail_text() -> Seq<char> {
    response_json(400, "failed to encode text"@, None)
}

/// The wire text telling the client its request was not a command.
pub open spec fn cmd_not_found_text() -> Seq<char> {
    response_json(404, "Command not found"@, None)
}

/// The wire text telling the client the store could not be reached.
pub open spec fn db_error_text() -> Seq<char> {
    response_json(500, "failed to access database server"@, None)
}

/// The action is to write `t` and then keep or close the connection.
pub open spec fn responds(a: Action, t: Seq<char>, close: bool) -> bool {
    match a {
        Action::Respond { text, close: c } => text@ == t && c == close,
        _ => false,
    }
}

/// Relies on `std::str::from_utf8`: it succeeds exactly on valid UTF-8, and
/// the text is then the characters the bytes encode.
#[verifier::external_body]
fn utf8_text(bytes: &[u8]) -> (r: Option<String>)
    ensures
        r is Some <==> valid_utf8(bytes@),
        r matches Some(t) ==> t@ == decode_utf8(bytes@),
{
    std::str::from_utf8(bytes).ok().map(|t| t.to_string())
}

/// The text of the response sent when the client's bytes are not text.
pub fn gen_encode_fail_res() -> (r: String)
    ensures
        r@ == encode_fail_text(),
{
    let res = ResJsonCmd::new(400, ResHeader::new("failed to encode text"), None);
    res.to_json()
}

/// The text of the response sent when a request is not a command.
pub fn gen_cmd_not_found_res() -> (r: String)
    ensures
        r@ == cmd_not_found_text(),
{
    let res = ResJsonCmd::cmd_not_found();
    res.to_json()
}

/// The text of the response sent when the store cannot be reached.
pub fn gen_db_error_res() -> (r: String)
    ensures
        r@ == db_error_text(),
{
    let res = ResJsonCmd::new(500, ResHeader::new("failed to access database server"), None);
    res.to_json()
}

/// After one read: nothing read means the client has closed; otherwise the
/// bytes must be text.
pub fn on_bytes(bytes: &[u8]) -> (a: Action)
    ensures
        bytes@.len() == 0 ==> a is Close,
        bytes@.len() > 0 && !valid_utf8(bytes@) ==> responds(a, encode_fail_text(), false),
        bytes@.len() > 0 && valid_utf8(bytes@) ==> (a matches Action::Decode(t) && t@ == decode_utf8(
            bytes@,
        )),
{
    if bytes.len() == 0 {
        Action::Close
    } else {
        on_text(utf8_text(bytes))
    }
}

/// After the bytes of a read were taken as text, or found not to be text.
pub fn on_text(text: Option<String>) -> (a: Action)
    ensures
        match text {
            Some(t) => a matches Action::Decode(u) && u@ == t@,
            None => responds(a, encode_fail_text(), false),
        },
{
    match text {
        Some(t) => Action::Decode(t),
        None => Action::Respond { text: gen_encode_fail_res(), close: false },
    }
}

/// After the text was read as a request, or did not have a request's shape.
pub fn on_decoded(req: Option<ReqJsonCmd>) -> (a: Action)
    ensures
        match req {
            Some(r) => a == Action::Submit(r),
            None => responds(a, cmd_not_found_text(), false),
        },
{
    match req {
        Some(r) => Action::Submit(r),
        None => Action::Respond { text: gen_cmd_not_found_res(), close: false },
    }
}

/// After the store replied, or could not be reached (the command could not be
/// queued, or its reply was dropped): a reply is written and the connection
/// stays; otherwise the client is told and the connection ends.
pub fn on_reply(reply: Option<ResJsonCmd>) -> (a: Action)
    ensures
        match reply {
            Some(r) => responds(
                a,
                response_json(r.spec_statuscode(), r.spec_comment(), r.spec_body()),
                false,
            ),
            None => responds(a, db_error_text(), true),
        },
{
    match reply {
        Some(r) => Action::Respond { text: r.to_json(), close: false },
        None => Action::Respond { text: gen_db_error_res(), close: true },
    }
}

} // verus!
