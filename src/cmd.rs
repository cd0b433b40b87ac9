//! Internal commands: a classified request together with the slot through
//! which its one response goes back.

use vstd::prelude::*;
use tokio::sync::oneshot::Sender;
use crate::request::ReqJsonCmd;
use crate::response::ResJsonCmd;

verus! {

broadcast use vstd::string::to_string_from_display_ensures_for_str;

#[verifier::external_type_specification]
#[verifier::external_body]
#[verifier::reject_recursive_types(T)]
pub struct ExReplySender<T>(tokio::sync::oneshot::Sender<T>);

/// What a request asks the store to do.
pub enum CmdKind {
    SetValue,
    Get,
    Del,
    NotFound,
}

/// `SET` needs a body, `GET` and `DEL` need none; anything else is not a command.
pub open spec fn classify(command: Seq<char>, has_body: bool) -> CmdKind {
    if command == "SET"@ && has_body {
        CmdKind::SetValue
    } else if command == "GET"@ && !has_body {
        CmdKind::Get
    } else if command == "DEL"@ && !has_body {
        CmdKind::Del
    } else {
        CmdKind::NotFound
    }
}

/// The kind a request falls under.
pub open spec fn request_kind(req: ReqJsonCmd) -> CmdKind {
    classify(req.spec_command(), req.spec_body() is Some)
}

/// A command for the store, with the sender of its reply.
#[derive(Debug)]
pub enum DbCmd {
    SetValue { json_cmd: ReqJsonCmd, sender: Sender<ResJsonCmd> },
    Get { json_cmd: ReqJsonCmd, sender: Sender<ResJsonCmd> },
    Del { json_cmd: ReqJsonCmd, sender: Sender<ResJsonCmd> },
    NotFound { sender: Sender<ResJsonCmd> },
}

impl DbCmd {
    pub open spec fn kind(&self) -> CmdKind {
        match self {
            DbCmd::SetValue { .. } => CmdKind::SetValue,
            DbCmd::Get { .. } => CmdKind::Get,
            DbCmd::Del { .. } => CmdKind::Del,
            DbCmd::NotFound { .. } => CmdKind::NotFound,
        }
    }

    /// The request carried by the command, if it carries one.
    pub open spec fn request(&self) -> Option<ReqJsonCmd> {
        match self {
            DbCmd::SetValue { json_cmd, .. } => Some(*json_cmd),
            DbCmd::Get { json_cmd, .. } => Some(*json_cmd),
            DbCmd::Del { json_cmd, .. } => Some(*json_cmd),
            DbCmd::NotFound { .. } => None,
        }
    }

    /// Gives up the command, keeping only the sender of its reply.
    pub fn into_sender(self) -> Sender<ResJsonCmd> {
        match self {
            DbCmd::SetValue { sender, .. } => sender,
            DbCmd::Get { sender, .. } => sender,
            DbCmd::Del { sender, .. } => sender,
            DbCmd::NotFound { sender } => sender,
        }
    }
}

/// Classifies a request into a command that carries `sender`.
pub fn db_cmd_producer(json_cmd: ReqJsonCmd, sender: Sender<ResJsonCmd>) -> (r: DbCmd)
    ensures
        r.kind() == request_kind(json_cmd),
        r.kind() != CmdKind::NotFound ==> r.request() == Some(json_cmd),
{
    let command = json_cmd.get_header().get_command().to_string();
    let has_body = json_cmd.get_body().is_some();
    if command == "SET".to_string() && has_body {
        DbCmd::SetValue { json_cmd, sender }
    } else if command == "GET".to_string() && !has_body {
        DbCmd::Get { json_cmd, sender }
    } else if command == "DEL".to_string() && !has_body {
        DbCmd::Del { json_cmd, sender }
    } else {
        DbCmd::NotFound { sender }
    }
}

/// Classification is total and deterministic: each command word, with or
/// without a body, falls under exactly the kind the table gives (`SET` with a
/// body, `GET` or `DEL` without one, anything else not a command), and the
/// same input always gives the same kind.
pub proof fn lemma_classify_table(command: Seq<char>, has_body: bool)
    ensures
        (classify(command, has_body) == CmdKind::SetValue) <==> (command == "SET"@ && has_body),
        (classify(command, has_body) == CmdKind::Get) <==> (command == "GET"@ && !has_body),
        (classify(command, has_body) == CmdKind::Del) <==> (command == "DEL"@ && !has_body),
        (classify(command, has_body) == CmdKind::NotFound) <==> !((command == "SET"@ && has_body)
            || (command == "GET"@ && !has_body) || (command == "DEL"@ && !has_body)),
        classify(command, has_body) == classify(command, has_body),
{
    reveal_strlit("SET");
    reveal_strlit("GET");
    reveal_strlit("DEL");
    assert("SET"@[0] != "GET"@[0]);
    assert("SET"@[0] != "DEL"@[0]);
    assert("GET"@[0] != "DEL"@[0]);
}

} // verus!
