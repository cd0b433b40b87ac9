//! The store: a mapping from keys to values, and the step that applies one
//! command to it.

use vstd::prelude::*;
use tokio::sync::oneshot::Sender;
use crate::cmd::{CmdKind, DbCmd};
use crate::request::ReqJsonCmd;
use crate::response::{ResJsonCmd, ResponseCmdUtil};

verus! {

/// The mapping of the store, held in a hashbrown `HashMap`.
#[verifier::external_body]
pub struct StringPool {
    map: hashbrown::HashMap<String, String>,
}

/// Key-value pairs, each key at most once.
pub type KeyValues = Map<Seq<char>, Seq<char>>;

/// The key-value pairs a pool holds.
pub uninterp spec fn pool_contents(p: StringPool) -> KeyValues;

/// The value stored under `k`, if any.
pub open spec fn lookup(m: KeyValues, k: Seq<char>) -> Option<Seq<char>> {
    if m.contains_key(k) {
        Some(m[k])
    } else {
        None
    }
}

/// The view of an optional string.
pub open spec fn opt_view(o: Option<String>) -> Option<Seq<char>> {
    match o {
        Some(s) => Some(s@),
        None => None,
    }
}

/// Relies on hashbrown's `HashMap::default`: the new map is empty.
#[verifier::external_body]
fn pool_new() -> (r: StringPool)
    ensures
        pool_contents(r) == KeyValues::empty(),
{
    StringPool { map: hashbrown::HashMap::default() }
}

/// Relies on hashbrown's `HashMap::insert`: the key now maps to the value, and
/// the value it replaced, if any, is returned. `String` keys compare by content.
#[verifier::external_body]
fn pool_insert(p: &mut StringPool, k: String, v: String) -> (r: Option<String>)
    ensures
        pool_contents(*final(p)) == pool_contents(*old(p)).insert(k@, v@),
        opt_view(r) == lookup(pool_contents(*old(p)), k@),
{
    p.map.insert(k, v)
}

/// Relies on hashbrown's `HashMap::get`: the value stored under the key, if
/// any, here copied out.
#[verifier::external_body]
fn pool_get(p: &StringPool, k: &str) -> (r: Option<String>)
    ensures
        opt_view(r) == lookup(pool_contents(*p), k@),
{
    p.map.get(k).cloned()
}

/// Relies on hashbrown's `HashMap::remove`: the key no longer maps to
/// anything, and the value it held, if any, is returned.
#[verifier::external_body]
fn pool_remove(p: &mut StringPool, k: &str) -> (r: Option<String>)
    ensures
        pool_contents(*final(p)) == pool_contents(*old(p)).remove(k@),
        opt_view(r) == lookup(pool_contents(*old(p)), k@),
{
    p.map.remove(k)
}

/// Relies on tokio's `oneshot::Sender::send`: hands the response to the
/// waiting requester. A requester that has gone away is not an error here.
#[verifier::external_body]
fn send_res_cmd(sender: Sender<ResJsonCmd>, response: ResJsonCmd) {
    let _ = sender.send(response);
}

/// String operations on the store.
pub trait StringType {
    type Output;

    fn set(&mut self, key: &str, val: &str) -> Self::Output;

    fn get(&self, key: &str) -> Self::Output;

    fn delete(&mut self, key: &str) -> Self::Output;
}

/// The store. Only the dispatch step touches it.
pub struct Database {
    string_pool: StringPool,
}

impl View for Database {
    type V = KeyValues;

    closed spec fn view(&self) -> KeyValues {
        pool_contents(self.string_pool)
    }
}

/// The response a command gets from a store holding `m`.
pub open spec fn response_for(m: KeyValues, cmd: DbCmd, r: ResJsonCmd) -> bool {
    match cmd.kind() {
        CmdKind::SetValue => match cmd.request().unwrap().spec_body() {
            Some(_) => r.has(204, "Command success"@, Some("OK"@)),
            None => r.has(404, "Command not found"@, None),
        },
        CmdKind::Get => match lookup(m, cmd.request().unwrap().spec_key()) {
            Some(v) => r.has(200, "Get value"@, Some(v)),
            None => r.has(400, "Key not found"@, None),
        },
        CmdKind::Del => r.has(204, "Command success"@, Some("OK"@)),
        CmdKind::NotFound => r.has(404, "Command not found"@, None),
    }
}

/// The store after a command from a store holding `m`.
pub open spec fn store_after(m: KeyValues, cmd: DbCmd) -> KeyValues {
    match cmd.kind() {
        CmdKind::SetValue => match cmd.request().unwrap().spec_body() {
            Some(v) => m.insert(cmd.request().unwrap().spec_key(), v),
            None => m,
        },
        CmdKind::Del => m.remove(cmd.request().unwrap().spec_key()),
        _ => m,
    }
}

impl Database {
    /// An empty store.
    pub fn new() -> (r: Self)
        ensures
            r@ == KeyValues::empty(),
    {
        Database { string_pool: pool_new() }
    }

    /// Applies one command and gives the response it owes. A `SetValue`
    /// command without a value changes nothing and is answered as an
    /// unrecognised command.
    pub fn execute(&mut self, cmd: &DbCmd) -> (r: ResJsonCmd)
        ensures
            final(self)@ == store_after(old(self)@, *cmd),
            response_for(old(self)@, *cmd, r),
    {
        match cmd {
            DbCmd::SetValue { json_cmd, .. } => match json_cmd.get_body() {
                Some(value) => {
                    let key = json_cmd.get_key();
                    self.set(key.as_str(), value.as_str());
                    ResJsonCmd::ok()
                },
                None => ResJsonCmd::cmd_not_found(),
            },
            DbCmd::Get { json_cmd, .. } => {
                let key = json_cmd.get_key();
                match self.get(key.as_str()) {
                    Some(body) => ResJsonCmd::ok_with_body(body.as_str()),
                    None => ResJsonCmd::key_not_found(),
                }
            },
            DbCmd::Del { json_cmd, .. } => {
                let key = json_cmd.get_key();
                self.delete(key.as_str());
                ResJsonCmd::ok()
            },
            DbCmd::NotFound { .. } => ResJsonCmd::cmd_not_found(),
        }
    }

    /// Applies one command and delivers its response through the command's
    /// sender. Delivery never fails the store.
    pub fn handle(&mut self, cmd: DbCmd)
        ensures
            final(self)@ == store_after(old(self)@, cmd),
    {
        let response = self.execute(&cmd);
        send_res_cmd(cmd.into_sender(), response);
    }
}

impl StringType for Database {
    type Output = Option<String>;

    /// Stores `val` under `key`; returns the value it replaced.
    fn set(&mut self, key: &str, val: &str) -> (r: Option<String>)
        ensures
            final(self)@ == old(self)@.insert(key@, val@),
            opt_view(r) == lookup(old(self)@, key@),
    {
        pool_insert(&mut self.string_pool, key.to_string(), val.to_string())
    }

    /// The value stored under `key`.
    fn get(&self, key: &str) -> (r: Option<String>)
        ensures
            opt_view(r) == lookup(self@, key@),
    {
        pool_get(&self.string_pool, key)
    }

    /// Removes `key`; returns the value it held.
    fn delete(&mut self, key: &str) -> (r: Option<String>)
        ensures
            final(self)@ == old(self)@.remove(key@),
            opt_view(r) == lookup(old(self)@, key@),
    {
        pool_remove(&mut self.string_pool, key)
    }
}

/// Setting a key twice leaves the second value: after `set(k, v1)` and
/// `set(k, v2)`, `get(k)` gives `v2`, and the second `set` returns `v1`.
pub proof fn lemma_set_twice(m: KeyValues, k: Seq<char>, v1: Seq<char>, v2: Seq<char>)
    ensures
        lookup(m.insert(k, v1), k) == Some(v1),
        lookup(m.insert(k, v1).insert(k, v2), k) == Some(v2),
{
}

/// A key never set is absent: `get(k)` gives nothing, and `delete(k)` gives
/// nothing and leaves the store as it was.
pub proof fn lemma_unset_key(m: KeyValues, k: Seq<char>)
    requires
        !m.contains_key(k),
    ensures
        lookup(m, k) is None,
        m.remove(k) == m,
{
    assert(m.remove(k) =~= m);
}

/// Deleting removes: after `set(k, v)` and `delete(k)`, `get(k)` gives nothing.
pub proof fn lemma_set_then_delete(m: KeyValues, k: Seq<char>, v: Seq<char>)
    ensures
        lookup(m.insert(k, v).remove(k), k) is None,
{
}

/// Commands on other keys do not disturb a key: whatever store a `SetValue`
/// or `Del` command for key `j` is applied to, the value under `k != j` is
/// unchanged. So clients on disjoint keys each see only their own writes, and
/// of two `SetValue` commands on one key the later one applied wins.
pub proof fn lemma_commands_isolated(m: KeyValues, cmd: DbCmd, k: Seq<char>)
    requires
        cmd.request() is Some ==> cmd.request().unwrap().spec_key() != k,
    ensures
        lookup(store_after(m, cmd), k) == lookup(m, k),
{
}

/// Of two `SetValue` commands with values on the same key, the one applied
/// last decides what the key holds.
pub proof fn lemma_last_set_wins(m: KeyValues, first: DbCmd, second: DbCmd)
    requires
        first.kind() == CmdKind::SetValue,
        second.kind() == CmdKind::SetValue,
        first.request().unwrap().spec_body() is Some,
        second.request().unwrap().spec_body() is Some,
        first.request().unwrap().spec_key() == second.request().unwrap().spec_key(),
    ensures
        lookup(store_after(store_after(m, first), second), second.request().unwrap().spec_key())
            == second.request().unwrap().spec_body(),
{
}

} // verus!
