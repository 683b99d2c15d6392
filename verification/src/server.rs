//! The server's in-memory bookkeeping: one row per client that has sent a
//! heartbeat, a bounded history of heartbeat events, and the total count.
use vstd::prelude::*;
use std::collections::VecDeque;
use crate::history::{Duplicate, bounded_push, newest_entries, newest_first, push_bounded};
use crate::order::{text_at_most, text_le, text_le_reflexive, text_le_total, text_le_transitive};
use crate::text::copy_opt;

verus! {

broadcast use vstd::seq_lib::group_to_multiset_ensures;

/// How many heartbeat events the server keeps.
pub const MAX_EVENTS: usize = 200;

/// How many events the statistics show.
pub const RECENT_EVENTS: usize = 50;

/// What the server knows of one client.
pub struct ClientRow {
    pub client_id: String,
    pub client_name: String,
    pub device_id: Option<String>,
    pub last_seen: String,
    pub beats_count: u64,
    pub acknowledged: bool,
    pub last_app_version: Option<String>,
}

impl Duplicate for ClientRow {
    fn duplicate(&self) -> (r: ClientRow) {
        ClientRow {
            client_id: self.client_id.clone(),
            client_name: self.client_name.clone(),
            device_id: copy_opt(&self.device_id),
            last_seen: self.last_seen.clone(),
            beats_count: self.beats_count,
            acknowledged: self.acknowledged,
            last_app_version: copy_opt(&self.last_app_version),
        }
    }
}

/// One received heartbeat.
pub struct HeartbeatEvent {
    pub received_at: String,
    pub client_id: Option<String>,
    pub client_name: Option<String>,
    pub device_id: Option<String>,
    pub app_version: Option<String>,
    pub acknowledged: bool,
    pub ack_detail: String,
}

impl Duplicate for HeartbeatEvent {
    fn duplicate(&self) -> (r: HeartbeatEvent) {
        HeartbeatEvent {
            received_at: self.received_at.clone(),
            client_id: copy_opt(&self.client_id),
            client_name: copy_opt(&self.client_name),
            device_id: copy_opt(&self.device_id),
            app_version: copy_opt(&self.app_version),
            acknowledged: self.acknowledged,
            ack_detail: self.ack_detail.clone(),
        }
    }
}

/// The server's counters, client table and event history.
pub struct ServerState {
    pub total_heartbeats: u64,
    pub events: VecDeque<HeartbeatEvent>,
    pub clients: Vec<ClientRow>,
}

/// The sum of the beat counts of `rows`.
pub open spec fn beats_sum(rows: Seq<ClientRow>) -> int
    decreases rows.len(),
{
    if rows.len() == 0 {
        0
    } else {
        beats_sum(rows.drop_last()) + rows.last().beats_count
    }
}

/// No client ID occurs twice in `rows`.
pub open spec fn ids_unique(rows: Seq<ClientRow>) -> bool {
    forall|i: int, j: int|
        0 <= i < j < rows.len() ==> #[trigger] rows[i].client_id@ != #[trigger] rows[j].client_id@
}

/// The index of the row of client `id` in `rows`, or -1 when it has none.
pub open spec fn client_index(rows: Seq<ClientRow>, id: Seq<char>) -> int
    decreases rows.len(),
{
    if rows.len() == 0 {
        -1
    } else if rows.last().client_id@ == id {
        rows.len() - 1
    } else {
        client_index(rows.drop_last(), id)
    }
}

/// `rows` ordered from the most recently seen client to the least.
pub open spec fn by_recency(rows: Seq<ClientRow>) -> bool {
    forall|i: int, j: int|
        0 <= i < j < rows.len() ==> text_le(#[trigger] rows[j].last_seen@, #[trigger] rows[i].last_seen@)
}

proof fn lemma_beats_sum_push(rows: Seq<ClientRow>, r: ClientRow)
    ensures
        beats_sum(rows.push(r)) == beats_sum(rows) + r.beats_count,
{
    assert(rows.push(r).drop_last() =~= rows);
}

proof fn lemma_beats_sum_update(rows: Seq<ClientRow>, k: int, r: ClientRow)
    requires
        0 <= k < rows.len(),
    ensures
        beats_sum(rows.update(k, r)) == beats_sum(rows) - rows[k].beats_count + r.beats_count,
    decreases rows.len(),
{
    if k == rows.len() - 1 {
        assert(rows.update(k, r).drop_last() =~= rows.drop_last());
    } else {
        lemma_beats_sum_update(rows.drop_last(), k, r);
        assert(rows.update(k, r).drop_last() =~= rows.drop_last().update(k, r));
    }
}

proof fn lemma_beats_le_sum(rows: Seq<ClientRow>, k: int)
    requires
        0 <= k < rows.len(),
    ensures
        rows[k].beats_count <= beats_sum(rows),
        beats_sum(rows) >= 0,
    decreases rows.len(),
{
    lemma_beats_sum_nonneg(rows.drop_last());
    if k < rows.len() - 1 {
        lemma_beats_le_sum(rows.drop_last(), k);
    }
}

proof fn lemma_beats_sum_nonneg(rows: Seq<ClientRow>)
    ensures
        beats_sum(rows) >= 0,
    decreases rows.len(),
{
    if rows.len() > 0 {
        lemma_beats_sum_nonneg(rows.drop_last());
    }
}

proof fn lemma_client_index(rows: Seq<ClientRow>, id: Seq<char>)
    ensures
        -1 <= client_index(rows, id) < rows.len(),
        client_index(rows, id) >= 0 ==> rows[client_index(rows, id)].client_id@ == id,
        client_index(rows, id) == -1 ==> forall|i: int|
            0 <= i < rows.len() ==> #[trigger] rows[i].client_id@ != id,
    decreases rows.len(),
{
    if rows.len() > 0 {
        lemma_client_index(rows.drop_last(), id);
        if client_index(rows, id) == -1 {
            assert forall|i: int| 0 <= i < rows.len() implies #[trigger] rows[i].client_id@ != id by {
                if i < rows.len() - 1 {
                    assert(rows.drop_last()[i] == rows[i]);
                }
            }
        }
    }
}

proof fn lemma_client_index_unique(rows: Seq<ClientRow>, k: int)
    requires
        ids_unique(rows),
        0 <= k < rows.len(),
    ensures
        client_index(rows, rows[k].client_id@) == k,
    decreases rows.len(),
{
    if k < rows.len() - 1 {
        assert(rows[k].client_id@ != rows[rows.len() - 1].client_id@);
        assert(rows.drop_last()[k] == rows[k]);
        assert(ids_unique(rows.drop_last())) by {
            assert forall|i: int, j: int| 0 <= i < j < rows.drop_last().len() implies #[trigger] rows.drop_last()[i].client_id@ != #[trigger] rows.drop_last()[j].client_id@ by {
                assert(rows.drop_last()[i] == rows[i]);
                assert(rows.drop_last()[j] == rows[j]);
            }
        }
        lemma_client_index_unique(rows.drop_last(), k);
    }
}

/// `after` is `before` with an acknowledged heartbeat of client
/// `client_id` received at `now` and answered as `ack_detail` says: the
/// total goes up by one; the client's row takes the name, device, version
/// and time and counts one more beat, or a new row with one beat is added;
/// and the event is appended to the history, the oldest one dropped when it
/// is full. The invariant holds after.
pub open spec fn heartbeat_recorded(
    before: ServerState,
    after: ServerState,
    client_id: String,
    client_name: String,
    device_id: Option<String>,
    app_version: Option<String>,
    now: String,
    ack_detail: String,
) -> bool {
    let k = client_index(before.clients@, client_id@);
    &&& after.wf()
    &&& after.total_heartbeats == before.total_heartbeats + 1
    &&& client_index(after.clients@, client_id@) >= 0
    &&& after.clients@[client_index(after.clients@, client_id@)].last_seen == now
    &&& k >= 0 ==> after.clients@ == before.clients@.update(
        k,
        ClientRow {
            client_id: before.clients@[k].client_id,
            client_name,
            device_id,
            last_seen: now,
            beats_count: (before.clients@[k].beats_count + 1) as u64,
            acknowledged: true,
            last_app_version: app_version,
        },
    )
    &&& k < 0 ==> after.clients@ == before.clients@.push(
        ClientRow {
            client_id,
            client_name,
            device_id,
            last_seen: now,
            beats_count: 1,
            acknowledged: true,
            last_app_version: app_version,
        },
    )
    &&& after.events@ == bounded_push(
        before.events@,
        HeartbeatEvent {
            received_at: now,
            client_id: Some(client_id),
            client_name: Some(client_name),
            device_id,
            app_version,
            acknowledged: true,
            ack_detail,
        },
        MAX_EVENTS as nat,
    )
}

impl ServerState {
    /// At most `MAX_EVENTS` events are kept and never more than heartbeats
    /// were counted, each client has one row, every row is acknowledged with
    /// at least one beat, and the total is the sum of the clients' beat
    /// counts.
    pub open spec fn wf(&self) -> bool {
        &&& self.events@.len() <= MAX_EVENTS
        &&& self.events@.len() <= self.total_heartbeats
        &&& ids_unique(self.clients@)
        &&& forall|i: int|
            0 <= i < self.clients@.len() ==> (#[trigger] self.clients@[i]).acknowledged
                && self.clients@[i].beats_count >= 1
        &&& self.total_heartbeats == beats_sum(self.clients@)
    }

    /// A server that has received nothing.
    pub fn new() -> (s: ServerState)
        ensures
            s.wf(),
            s.total_heartbeats == 0,
            s.events@.len() == 0,
            s.clients@.len() == 0,
    {
        ServerState { total_heartbeats: 0, events: VecDeque::new(), clients: Vec::new() }
    }

    /// The index of the row of client `id`, if it has one.
    pub fn find_client(&self, id: &String) -> (r: Option<usize>)
        ensures
            match r {
                Some(k) => client_index(self.clients@, id@) == k,
                None => client_index(self.clients@, id@) == -1,
            },
    {
        let mut j = self.clients.len();
        assert(self.clients@.take(j as int) =~= self.clients@);
        while j > 0 && self.clients[j - 1].client_id != *id
            invariant
                j <= self.clients@.len(),
                client_index(self.clients@, id@) == client_index(self.clients@.take(j as int), id@),
            decreases j,
        {
            assert(self.clients@.take(j as int).drop_last() =~= self.clients@.take(j - 1));
            j = j - 1;
        }
        if j == 0 {
            None
        } else {
            assert(self.clients@.take(j as int).last() == self.clients@[j - 1]);
            Some(j - 1)
        }
    }

    /// Records an acknowledged heartbeat of client `client_id` received at
    /// `now`, answered as `ack_detail` says (see `heartbeat_recorded`).
    pub fn record_heartbeat(
        &mut self,
        client_id: String,
        client_name: String,
        device_id: Option<String>,
        app_version: Option<String>,
        now: String,
        ack_detail: String,
    )
        requires
            old(self).wf(),
            old(self).total_heartbeats < u64::MAX,
        ensures
            heartbeat_recorded(
                *old(self),
                *final(self),
                client_id,
                client_name,
                device_id,
                app_version,
                now,
                ack_detail,
            ),
    {
        let ghost old_rows = self.clients@;
        proof {
            lemma_client_index(old_rows, client_id@);
        }
        self.total_heartbeats = self.total_heartbeats + 1;
        match self.find_client(&client_id) {
            Some(k) => {
                proof {
                    lemma_beats_le_sum(old_rows, k as int);
                }
                let row = ClientRow {
                    client_id: self.clients[k].client_id.clone(),
                    client_name: client_name.clone(),
                    device_id: copy_opt(&device_id),
                    last_seen: now.clone(),
                    beats_count: self.clients[k].beats_count + 1,
                    acknowledged: true,
                    last_app_version: copy_opt(&app_version),
                };
                proof {
                    lemma_beats_sum_update(old_rows, k as int, row);
                }
                self.clients.set(k, row);
                assert(ids_unique(self.clients@)) by {
                    assert forall|i: int, j: int| 0 <= i < j < self.clients@.len() implies #[trigger] self.clients@[i].client_id@ != #[trigger] self.clients@[j].client_id@ by {
                        assert(old_rows[i].client_id@ != old_rows[j].client_id@);
                    }
                }
                proof {
                    lemma_client_index_unique(self.clients@, k as int);
                }
            },
            None => {
                let row = ClientRow {
                    client_id: client_id.clone(),
                    client_name: client_name.clone(),
                    device_id: copy_opt(&device_id),
                    last_seen: now.clone(),
                    beats_count: 1,
                    acknowledged: true,
                    last_app_version: copy_opt(&app_version),
                };
                proof {
                    lemma_beats_sum_push(old_rows, row);
                }
                self.clients.push(row);
                assert(ids_unique(self.clients@)) by {
                    assert forall|i: int, j: int| 0 <= i < j < self.clients@.len() implies #[trigger] self.clients@[i].client_id@ != #[trigger] self.clients@[j].client_id@ by {
                        if j < old_rows.len() {
                            assert(old_rows[i].client_id@ != old_rows[j].client_id@);
                        } else {
                            assert(old_rows[i].client_id@ != client_id@);
                        }
                    }
                }
                proof {
                    lemma_client_index_unique(self.clients@, old_rows.len() as int);
                }
            },
        }
        let event = HeartbeatEvent {
            received_at: now,
            client_id: Some(client_id),
            client_name: Some(client_name),
            device_id,
            app_version,
            acknowledged: true,
            ack_detail,
        };
        push_bounded(&mut self.events, event, MAX_EVENTS);
    }

    /// The newest `RECENT_EVENTS` events, newest first.
    pub fn recent_events(&self) -> (r: Vec<HeartbeatEvent>)
        ensures
            r@ == newest_first(self.events@, RECENT_EVENTS as nat),
    {
        newest_entries(&self.events, RECENT_EVENTS)
    }

    /// All client rows, the most recently seen first.
    pub fn clients_by_recency(&self) -> (r: Vec<ClientRow>)
        ensures
            r@.to_multiset() == self.clients@.to_multiset(),
            by_recency(r@),
    {
        let mut out: Vec<ClientRow> = Vec::new();
        let n = self.clients.len();
        for i in 0..n
            invariant
                n == self.clients@.len(),
                out@.to_multiset() == self.clients@.take(i as int).to_multiset(),
                by_recency(out@),
        {
            let row = self.clients[i].duplicate();
            let mut p: usize = 0;
            while p < out.len() && text_at_most(row.last_seen.as_str(), out[p].last_seen.as_str())
                invariant
                    p <= out@.len(),
                    row == self.clients@[i as int],
                    by_recency(out@),
                    forall|q: int| 0 <= q < p ==> text_le(row.last_seen@, #[trigger] out@[q].last_seen@),
                decreases out@.len() - p,
            {
                p = p + 1;
            }
            let ghost before = out@;
            proof {
                if p < before.len() {
                    text_le_total(row.last_seen@, before[p as int].last_seen@);
                }
            }
            out.insert(p, row);
            assert(self.clients@.take(i + 1) =~= self.clients@.take(i as int).push(self.clients@[i as int]));
            assert(by_recency(out@)) by {
                assert forall|a: int, b: int| 0 <= a < b < out@.len() implies text_le(#[trigger] out@[b].last_seen@, #[trigger] out@[a].last_seen@) by {
                    if a < p && b == p {
                    } else if a == p && b > p {
                        text_le_reflexive(before[p as int].last_seen@);
                        text_le_transitive(before[b - 1].last_seen@, before[p as int].last_seen@, row.last_seen@);
                    } else if a < p && b > p {
                        assert(text_le(before[b - 1].last_seen@, before[a].last_seen@));
                    } else if a > p {
                        assert(text_le(before[b - 1].last_seen@, before[a - 1].last_seen@));
                    } else {
                        assert(text_le(before[b].last_seen@, before[a].last_seen@));
                    }
                }
            }
        }
        assert(self.clients@.take(n as int) =~= self.clients@);
        out
    }
}

/// No client has more beats than the server has counted in total.
pub proof fn client_beats_within_total(s: ServerState, k: int)
    requires
        s.wf(),
        0 <= k < s.clients@.len(),
    ensures
        s.clients@[k].beats_count <= s.total_heartbeats,
{
    lemma_beats_le_sum(s.clients@, k);
}

} // verus!
