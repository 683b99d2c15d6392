//! What the server stores about sign-in sessions and users, apart from the
//! database calls themselves: the row a sign-in writes, the keys that
//! lookups use, the bound on listings, and the schema upgrade plan.
use vstd::prelude::*;
use crate::ids::{is_uuid_v4_text, new_uuid_text};
use crate::text::{byte_len, byte_prefix, cuttable_at, trim_text, trimmed, truncate_bytes};

verus! {

/// How many bytes of a user agent a session keeps.
pub const USER_AGENT_MAX: usize = 512;

/// The most sessions a listing returns.
pub const SESSION_LIST_MAX: usize = 200;

/// The kind recorded for sessions opened by the heartbeat client.
pub open spec fn heartbeat_client_kind() -> Seq<char> {
    "heartbeat-client"@
}

/// One row of the `sessions` table.
pub struct SessionListRow {
    pub id: String,
    pub email: String,
    pub client_id: String,
    pub client_kind: String,
    pub created_at: String,
    pub last_seen_at: String,
    pub remote_ip: Option<String>,
    pub user_agent: Option<String>,
}

/// A user agent as a session keeps it: cut after `USER_AGENT_MAX` bytes.
pub open spec fn kept_user_agent(ua: Seq<char>) -> Seq<char> {
    if byte_len(ua) > USER_AGENT_MAX {
        byte_prefix(ua, USER_AGENT_MAX as int)
    } else {
        ua
    }
}

/// The row that recording a new session writes: created and last seen at
/// `now`, with the user agent cut to `USER_AGENT_MAX` bytes.
pub fn session_row(
    id: &str,
    email: &str,
    client_id: &str,
    client_kind: &str,
    remote_ip: &str,
    user_agent: &str,
    now: &str,
) -> (r: SessionListRow)
    requires
        cuttable_at(user_agent@, USER_AGENT_MAX as int),
    ensures
        r.id@ == id@,
        r.email@ == email@,
        r.client_id@ == client_id@,
        r.client_kind@ == client_kind@,
        r.created_at@ == now@,
        r.last_seen_at@ == now@,
        r.remote_ip is Some && r.remote_ip->0@ == remote_ip@,
        r.user_agent is Some && r.user_agent->0@ == kept_user_agent(user_agent@),
{
    let ua = truncate_bytes(user_agent, USER_AGENT_MAX);
    SessionListRow {
        id: id.to_owned(),
        email: email.to_owned(),
        client_id: client_id.to_owned(),
        client_kind: client_kind.to_owned(),
        created_at: now.to_owned(),
        last_seen_at: now.to_owned(),
        remote_ip: Some(remote_ip.to_owned()),
        user_agent: Some(ua),
    }
}

/// The key that a session or user lookup searches for: the argument
/// trimmed, or none when that leaves nothing, in which case the lookup
/// finds nothing without asking the database.
pub fn lookup_key(raw: &str) -> (k: Option<String>)
    ensures
        trimmed(raw@).len() == 0 ==> k is None,
        trimmed(raw@).len() > 0 ==> k is Some && k->0@ == trimmed(raw@),
{
    let t = trim_text(raw);
    if t.as_str().is_empty() {
        None
    } else {
        Some(t)
    }
}

/// How many sessions a listing asked for `limit` returns at most.
pub fn list_limit(limit: usize) -> (n: usize)
    ensures
        n == (if limit < SESSION_LIST_MAX {
            limit
        } else {
            SESSION_LIST_MAX
        }),
{
    if limit < SESSION_LIST_MAX {
        limit
    } else {
        SESSION_LIST_MAX
    }
}

/// Whether the `users` table, with the columns named, still lacks the
/// `client_id` column.
pub fn lacks_client_id_column(columns: &Vec<String>) -> (b: bool)
    ensures
        b == !(exists|i: int| 0 <= i < columns@.len() && #[trigger] columns@[i]@ == "client_id"@),
{
    let target = String::from_str("client_id");
    let mut i: usize = 0;
    while i < columns.len()
        invariant
            i <= columns@.len(),
            target@ == "client_id"@,
            forall|k: int| 0 <= k < i ==> #[trigger] columns@[k]@ != "client_id"@,
        decreases columns@.len() - i,
    {
        if columns[i] == target {
            return false;
        }
        i = i + 1;
    }
    true
}

/// A fresh client ID for each user row that has none, in order.
pub fn fresh_client_ids(user_ids: &Vec<i64>) -> (r: Vec<(i64, String)>)
    ensures
        r@.len() == user_ids@.len(),
        forall|k: int| 0 <= k < r@.len() ==> (#[trigger] r@[k]).0 == user_ids@[k],
        forall|k: int| 0 <= k < r@.len() ==> is_uuid_v4_text((#[trigger] r@[k]).1@),
{
    let mut r: Vec<(i64, String)> = Vec::new();
    for i in 0..user_ids.len()
        invariant
            r@.len() == i,
            forall|k: int| 0 <= k < i ==> (#[trigger] r@[k]).0 == user_ids@[k],
            forall|k: int| 0 <= k < i ==> is_uuid_v4_text((#[trigger] r@[k]).1@),
    {
        r.push((user_ids[i], new_uuid_text()));
    }
    r
}

} // verus!
