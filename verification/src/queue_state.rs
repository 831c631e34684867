//! Queue/agent snapshot: one guarded cell holding the aggregated queue
//! counters and the per-agent status collection, keyed by agent id.

use vstd::prelude::*;
use vstd::pervasive::VecAdditionalExecFns;

use crate::clock::now_rfc3339;
use crate::events::AppEvent;

verus! {

/// Aggregated queue counters; replaced as a whole value, never merged.
#[derive(Debug, Clone, Copy, PartialEq, Eq, Structural)]
pub struct QueueStatus {
    pub inbound_waiting: u32,
    pub inbound_agents_available: u32,
    pub inbound_agents_total: u32,
    pub outbound_active_campaigns: u32,
    pub outbound_calls_in_progress: u32,
    pub outbound_calls_today: u32,
}

impl Default for QueueStatus {
    fn default() -> (r: Self)
        ensures
            r.inbound_waiting == 0,
            r.inbound_agents_available == 0,
            r.inbound_agents_total == 0,
            r.outbound_active_campaigns == 0,
            r.outbound_calls_in_progress == 0,
            r.outbound_calls_today == 0,
    {
        QueueStatus {
            inbound_waiting: 0,
            inbound_agents_available: 0,
            inbound_agents_total: 0,
            outbound_active_campaigns: 0,
            outbound_calls_in_progress: 0,
            outbound_calls_today: 0,
        }
    }
}

/// One agent's state. `id` is the unique key within the collection; `status`
/// is one of "available", "busy", "break" or "offline".
#[derive(Debug, PartialEq)]
pub struct AgentStatus {
    pub id: String,
    pub name: String,
    pub status: String,
    pub current_call: Option<String>,
    pub call_duration: Option<u32>,
}

impl Clone for AgentStatus {
    fn clone(&self) -> (r: Self)
        ensures
            r == self,
    {
        AgentStatus {
            id: self.id.clone(),
            name: self.name.clone(),
            status: self.status.clone(),
            current_call: match &self.current_call {
                Option::None => Option::None,
                Option::Some(c) => Option::Some(c.clone()),
            },
            call_duration: self.call_duration,
        }
    }
}

/// True iff some record in `s` carries the id `id`.
pub open spec fn spec_contains_id(s: Seq<AgentStatus>, id: Seq<char>) -> bool {
    exists|i: int| 0 <= i < s.len() && s[i].id@ == id
}

/// Index of the first record carrying `id` (meaningful only when one exists).
pub open spec fn spec_first_index_with_id(s: Seq<AgentStatus>, id: Seq<char>) -> int
    decreases s.len(),
{
    if s.len() == 0 {
        0
    } else if s[0].id@ == id {
        0
    } else {
        1 + spec_first_index_with_id(s.drop_first(), id)
    }
}

/// Upsert by id: replace the first record with a matching id in place, or
/// append the record when no id matches.
pub open spec fn spec_upsert(s: Seq<AgentStatus>, a: AgentStatus) -> Seq<AgentStatus> {
    if spec_contains_id(s, a.id@) {
        s.update(spec_first_index_with_id(s, a.id@), a)
    } else {
        s.push(a)
    }
}

/// No two records share an id.
pub open spec fn spec_agent_ids_unique(s: Seq<AgentStatus>) -> bool {
    forall|i: int, j: int| 0 <= i < j < s.len() ==> s[i].id@ != s[j].id@
}

pub proof fn lemma_first_index_with_id(s: Seq<AgentStatus>, id: Seq<char>)
    requires
        spec_contains_id(s, id),
    ensures
        ({
            let k = spec_first_index_with_id(s, id);
            &&& 0 <= k < s.len()
            &&& s[k].id@ == id
            &&& forall|j: int| 0 <= j < k ==> s[j].id@ != id
        }),
    decreases s.len(),
{
    if s[0].id@ == id {
    } else {
        let w = choose|i: int| 0 <= i < s.len() && s[i].id@ == id;
        assert(s.drop_first()[w - 1].id@ == id);
        lemma_first_index_with_id(s.drop_first(), id);
        let k = spec_first_index_with_id(s, id);
        assert(s[k].id@ == id);
        assert forall|j: int| 0 <= j < k implies s[j].id@ != id by {
            if j > 0 {
                assert(s.drop_first()[j - 1].id@ != id);
            }
        }
    }
}

/// The first index is the only index whose prefix is free of the id.
pub proof fn lemma_first_index_with_id_is(s: Seq<AgentStatus>, id: Seq<char>, k: int)
    requires
        0 <= k < s.len(),
        s[k].id@ == id,
        forall|j: int| 0 <= j < k ==> s[j].id@ != id,
    ensures
        spec_first_index_with_id(s, id) == k,
{
    assert(spec_contains_id(s, id));
    lemma_first_index_with_id(s, id);
    let f = spec_first_index_with_id(s, id);
    if f < k {
        assert(s[f].id@ != id);
    }
    if k < f {
        assert(s[k].id@ != id);
    }
}

/// Law: an upsert never breaks id uniqueness.
pub proof fn lemma_upsert_preserves_unique(s: Seq<AgentStatus>, a: AgentStatus)
    requires
        spec_agent_ids_unique(s),
    ensures
        spec_agent_ids_unique(spec_upsert(s, a)),
{
    if spec_contains_id(s, a.id@) {
        lemma_first_index_with_id(s, a.id@);
        let k = spec_first_index_with_id(s, a.id@);
        let t = s.update(k, a);
        assert forall|i: int, j: int| 0 <= i < j < t.len() implies t[i].id@ != t[j].id@ by {
            if i == k {
                assert(s[k].id@ == a.id@);
            } else if j == k {
                assert(s[k].id@ == a.id@);
            }
        }
    } else {
        let t = s.push(a);
        assert forall|i: int, j: int| 0 <= i < j < t.len() implies t[i].id@ != t[j].id@ by {
            if j == s.len() {
                assert(!(s[i].id@ == a.id@)) by {
                    if s[i].id@ == a.id@ {
                        assert(spec_contains_id(s, a.id@));
                    }
                }
            }
        }
    }
}

/// Law: two upserts with the same id leave exactly one record with that id,
/// equal to the second record; nothing else is added.
pub proof fn lemma_upsert_same_id_last_wins(s: Seq<AgentStatus>, r1: AgentStatus, r2: AgentStatus)
    requires
        spec_agent_ids_unique(s),
        r1.id@ == r2.id@,
    ensures
        ({
            let t = spec_upsert(spec_upsert(s, r1), r2);
            &&& spec_agent_ids_unique(t)
            &&& spec_contains_id(t, r2.id@)
            &&& forall|i: int| 0 <= i < t.len() && t[i].id@ == r2.id@ ==> t[i] == r2
            &&& t.len() == if spec_contains_id(s, r1.id@) { s.len() as int } else { s.len() + 1 as int }
        }),
{
    let s1 = spec_upsert(s, r1);
    lemma_upsert_preserves_unique(s, r1);
    if spec_contains_id(s, r1.id@) {
        lemma_first_index_with_id(s, r1.id@);
        let k = spec_first_index_with_id(s, r1.id@);
        assert(s1 == s.update(k, r1));
        lemma_first_index_with_id_is(s1, r2.id@, k);
        assert(spec_contains_id(s1, r2.id@));
        let t = spec_upsert(s1, r2);
        assert(t == s1.update(k, r2));
        assert(t[k].id@ == r2.id@);
        assert(spec_contains_id(t, r2.id@));
        lemma_upsert_preserves_unique(s1, r2);
        assert forall|i: int| 0 <= i < t.len() && t[i].id@ == r2.id@ implies t[i] == r2 by {
            if i != k {
                assert(s[i].id@ != s[k].id@);
            }
        }
    } else {
        let n = s.len() as int;
        assert(s1 == s.push(r1));
        lemma_first_index_with_id_is(s1, r2.id@, n);
        assert(spec_contains_id(s1, r2.id@));
        let t = spec_upsert(s1, r2);
        assert(t == s1.update(n, r2));
        assert(t[n].id@ == r2.id@);
        assert(spec_contains_id(t, r2.id@));
        lemma_upsert_preserves_unique(s1, r2);
        assert forall|i: int| 0 <= i < t.len() && t[i].id@ == r2.id@ implies t[i] == r2 by {
            if i != n {
                assert(s[i].id@ == r1.id@);
                assert(spec_contains_id(s, r1.id@));
            }
        }
    }
}

/// The subsequence of `s` whose records carry status `st`, in order.
pub open spec fn spec_with_status(s: Seq<AgentStatus>, st: Seq<char>) -> Seq<AgentStatus>
    decreases s.len(),
{
    if s.len() == 0 {
        Seq::empty()
    } else {
        let rest = spec_with_status(s.drop_last(), st);
        if s.last().status@ == st {
            rest.push(s.last())
        } else {
            rest
        }
    }
}

/// How many records in `s` carry status `st`.
pub open spec fn spec_count_status(s: Seq<AgentStatus>, st: Seq<char>) -> nat {
    spec_with_status(s, st).len()
}

proof fn lemma_with_status_push(s: Seq<AgentStatus>, a: AgentStatus, st: Seq<char>)
    ensures
        spec_with_status(s.push(a), st) == if a.status@ == st {
            spec_with_status(s, st).push(a)
        } else {
            spec_with_status(s, st)
        },
{
    assert(s.push(a).drop_last() =~= s);
    assert(s.push(a).last() == a);
}

proof fn lemma_with_status_len(s: Seq<AgentStatus>, st: Seq<char>)
    ensures
        spec_with_status(s, st).len() <= s.len(),
    decreases s.len(),
{
    if s.len() > 0 {
        lemma_with_status_len(s.drop_last(), st);
    }
}

/// The queue cell: the current counters, the agent collection and the time
/// of the last whole-snapshot replacement.
pub struct QueueState {
    pub queue_status: QueueStatus,
    pub agents: Vec<AgentStatus>,
    pub last_updated: Option<String>,
}

impl Default for QueueState {
    /// The empty snapshot: zero counters, no agents, never updated.
    fn default() -> (r: Self)
        ensures
            r.queue_status.inbound_waiting == 0,
            r.queue_status.inbound_agents_available == 0,
            r.queue_status.inbound_agents_total == 0,
            r.queue_status.outbound_active_campaigns == 0,
            r.queue_status.outbound_calls_in_progress == 0,
            r.queue_status.outbound_calls_today == 0,
            r.agents@ =~= Seq::<AgentStatus>::empty(),
            r.last_updated is None,
    {
        QueueState {
            queue_status: QueueStatus::default(),
            agents: Vec::new(),
            last_updated: Option::None,
        }
    }
}

fn find_agent_index(agents: &Vec<AgentStatus>, id: &String) -> (r: Option<usize>)
    ensures
        match r {
            Option::Some(k) => {
                &&& (k as int) < agents@.len()
                &&& agents@[k as int].id@ == id@
                &&& forall|j: int| 0 <= j < k ==> agents@[j].id@ != id@
                &&& spec_contains_id(agents@, id@)
            },
            Option::None => !spec_contains_id(agents@, id@),
        },
{
    let mut i: usize = 0;
    while i < agents.len()
        invariant
            i <= agents@.len(),
            forall|j: int| 0 <= j < i ==> agents@[j].id@ != id@,
        decreases agents@.len() - i,
    {
        if agents[i].id == *id {
            return Option::Some(i);
        }
        i += 1;
    }
    Option::None
}

fn clone_agents(v: &Vec<AgentStatus>) -> (r: Vec<AgentStatus>)
    ensures
        r@ == v@,
{
    let mut r: Vec<AgentStatus> = Vec::new();
    let mut i: usize = 0;
    while i < v.len()
        invariant
            i <= v.len(),
            r@ =~= v@.subrange(0, i as int),
        decreases v.len() - i,
    {
        r.push(v[i].clone());
        i += 1;
    }
    proof {
        assert(r@ =~= v@);
    }
    r
}

/// Derived per-status counts, computed on demand from the cell.
pub struct QueueStatistics {
    pub queue_status: QueueStatus,
    pub total_agents: usize,
    pub available: usize,
    pub busy: usize,
    pub on_break: usize,
    pub offline: usize,
    pub last_updated: Option<String>,
}

impl QueueState {
    /// Whole-value replacement of the counters; stamps the update time with
    /// a non-empty clock reading and returns the event the caller must
    /// broadcast. The agent collection is untouched.
    pub fn update_queue_status(&mut self, status: QueueStatus) -> (ev: AppEvent)
        ensures
            final(self).queue_status == status,
            (final(self).last_updated matches Some(s) && s@.len() > 0),
            final(self).agents == old(self).agents,
            ev == AppEvent::QueueStatusUpdated(status),
    {
        self.queue_status = status;
        self.last_updated = Option::Some(now_rfc3339());
        AppEvent::QueueStatusUpdated(status)
    }

    pub fn get_queue_status(&self) -> (r: QueueStatus)
        ensures
            r == self.queue_status,
    {
        self.queue_status
    }

    /// Upsert by id: replaces the record with `agent.id` in place, or
    /// appends when the id is new. Returns the event the caller must
    /// broadcast, carrying the changed record.
    pub fn update_agent_status(&mut self, agent: AgentStatus) -> (ev: AppEvent)
        ensures
            final(self).agents@ == spec_upsert(old(self).agents@, agent),
            final(self).queue_status == old(self).queue_status,
            final(self).last_updated == old(self).last_updated,
            ev == AppEvent::AgentStatusUpdated(agent),
    {
        let ev_agent = agent.clone();
        match find_agent_index(&self.agents, &agent.id) {
            Option::Some(k) => {
                proof {
                    lemma_first_index_with_id_is(self.agents@, agent.id@, k as int);
                }
                self.agents.set(k, agent);
            },
            Option::None => {
                self.agents.push(agent);
            },
        }
        AppEvent::AgentStatusUpdated(ev_agent)
    }

    /// A copy of the whole agent collection, in insertion order.
    pub fn get_all_agents(&self) -> (r: Vec<AgentStatus>)
        ensures
            r@ == self.agents@,
    {
        clone_agents(&self.agents)
    }

    /// The agents whose status reads "available", in order.
    pub fn get_available_agents(&self) -> (r: Vec<AgentStatus>)
        ensures
            r@ == spec_with_status(self.agents@, "available"@),
    {
        self.agents_with_status("available")
    }

    /// The agents whose status reads "busy", in order.
    pub fn get_busy_agents(&self) -> (r: Vec<AgentStatus>)
        ensures
            r@ == spec_with_status(self.agents@, "busy"@),
    {
        self.agents_with_status("busy")
    }

    fn agents_with_status(&self, status: &str) -> (r: Vec<AgentStatus>)
        ensures
            r@ == spec_with_status(self.agents@, status@),
    {
        let wanted: String = status.to_owned();
        let mut r: Vec<AgentStatus> = Vec::new();
        let mut i: usize = 0;
        while i < self.agents.len()
            invariant
                i <= self.agents@.len(),
                wanted@ == status@,
                r@ == spec_with_status(self.agents@.subrange(0, i as int), status@),
            decreases self.agents@.len() - i,
        {
            if self.agents[i].status == wanted {
                r.push(self.agents[i].clone());
            }
            proof {
                let pre = self.agents@.subrange(0, i as int);
                assert(self.agents@.subrange(0, i + 1) =~= pre.push(self.agents@[i as int]));
                lemma_with_status_push(pre, self.agents@[i as int], status@);
            }
            i += 1;
        }
        proof {
            assert(self.agents@.subrange(0, self.agents@.len() as int) =~= self.agents@);
        }
        r
    }

    /// The derived aggregate: current counters, total and per-status agent
    /// counts, and the last update time. Computed on demand, never cached.
    pub fn get_queue_statistics(&self) -> (r: QueueStatistics)
        ensures
            r.queue_status == self.queue_status,
            r.total_agents == self.agents@.len(),
            r.available == spec_count_status(self.agents@, "available"@),
            r.busy == spec_count_status(self.agents@, "busy"@),
            r.on_break == spec_count_status(self.agents@, "break"@),
            r.offline == spec_count_status(self.agents@, "offline"@),
            r.last_updated == self.last_updated,
    {
        let st_available: String = "available".to_owned();
        let st_busy: String = "busy".to_owned();
        let st_break: String = "break".to_owned();
        let st_offline: String = "offline".to_owned();
        let mut available: usize = 0;
        let mut busy: usize = 0;
        let mut on_break: usize = 0;
        let mut offline: usize = 0;
        let mut i: usize = 0;
        while i < self.agents.len()
            invariant
                i <= self.agents@.len(),
                st_available@ == "available"@,
                st_busy@ == "busy"@,
                st_break@ == "break"@,
                st_offline@ == "offline"@,
                available == spec_count_status(self.agents@.subrange(0, i as int), "available"@),
                busy == spec_count_status(self.agents@.subrange(0, i as int), "busy"@),
                on_break == spec_count_status(self.agents@.subrange(0, i as int), "break"@),
                offline == spec_count_status(self.agents@.subrange(0, i as int), "offline"@),
            decreases self.agents@.len() - i,
        {
            proof {
                let pre = self.agents@.subrange(0, i as int);
                lemma_with_status_len(pre, "available"@);
                lemma_with_status_len(pre, "busy"@);
                lemma_with_status_len(pre, "break"@);
                lemma_with_status_len(pre, "offline"@);
            }
            if self.agents[i].status == st_available {
                available += 1;
            } else if self.agents[i].status == st_busy {
                busy += 1;
            } else if self.agents[i].status == st_break {
                on_break += 1;
            } else if self.agents[i].status == st_offline {
                offline += 1;
            }
            proof {
                reveal_strlit("available");
                reveal_strlit("busy");
                reveal_strlit("break");
                reveal_strlit("offline");
                assert("available"@.len() == 9);
                assert("busy"@.len() == 4);
                assert("break"@.len() == 5);
                assert("offline"@.len() == 7);
                let pre = self.agents@.subrange(0, i as int);
                assert(self.agents@.subrange(0, i + 1) =~= pre.push(self.agents@[i as int]));
                lemma_with_status_push(pre, self.agents@[i as int], "available"@);
                lemma_with_status_push(pre, self.agents@[i as int], "busy"@);
                lemma_with_status_push(pre, self.agents@[i as int], "break"@);
                lemma_with_status_push(pre, self.agents@[i as int], "offline"@);
            }
            i += 1;
        }
        proof {
            assert(self.agents@.subrange(0, self.agents@.len() as int) =~= self.agents@);
        }
        QueueStatistics {
            queue_status: self.queue_status,
            total_agents: self.agents.len(),
            available,
            busy,
            on_break,
            offline,
            last_updated: match &self.last_updated {
                Option::None => Option::None,
                Option::Some(s) => Option::Some(s.clone()),
            },
        }
    }
}

} // verus!
