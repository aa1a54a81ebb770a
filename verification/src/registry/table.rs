//! The table of registered agents, kept in increasing id order (the order
//! in which the on-chain map of agents is walked), at most one record per
//! id.
use vstd::prelude::*;

use crate::ids::{id_lt, lemma_id_lt_irreflexive, lemma_id_lt_transitive, order_ids, AgentId, IdOrder};
use crate::registry::types::AgentRecord;

verus! {

/// Records are in strictly increasing id order.
pub open spec fn ids_sorted(s: Seq<AgentRecord>) -> bool {
    forall|i: int, j: int|
        #![trigger s[i], s[j]]
        0 <= i < j < s.len() ==> id_lt(s[i].agent_id@, s[j].agent_id@)
}

/// What every table satisfies: sorted ids, and no more records than an
/// on-chain map can count.
pub open spec fn table_wf(s: Seq<AgentRecord>) -> bool {
    ids_sorted(s) && s.len() <= u32::MAX
}

/// Some record has this id.
pub open spec fn has_agent(s: Seq<AgentRecord>, id: Seq<u8>) -> bool {
    exists|i: int| 0 <= i < s.len() && #[trigger] s[i].agent_id@ == id
}

/// The position of the record with this id (meaningful when there is one).
pub open spec fn index_of(s: Seq<AgentRecord>, id: Seq<u8>) -> int {
    choose|i: int| 0 <= i < s.len() && #[trigger] s[i].agent_id@ == id
}

/// The record with this id, if any.
pub open spec fn lookup(s: Seq<AgentRecord>, id: Seq<u8>) -> Option<AgentRecord> {
    if has_agent(s, id) {
        Some(s[index_of(s, id)])
    } else {
        None
    }
}

/// `p` is where a record with id `id` goes to keep the order.
pub open spec fn insertion_point(s: Seq<AgentRecord>, id: Seq<u8>, p: int) -> bool {
    &&& 0 <= p <= s.len()
    &&& forall|j: int| 0 <= j < p ==> id_lt(#[trigger] s[j].agent_id@, id)
    &&& forall|j: int| p <= j < s.len() ==> id_lt(id, #[trigger] s[j].agent_id@)
}

/// In a sorted table a record's id finds that very record.
pub proof fn lemma_index_of_unique(s: Seq<AgentRecord>, i: int)
    requires
        ids_sorted(s),
        0 <= i < s.len(),
    ensures
        has_agent(s, s[i].agent_id@),
        index_of(s, s[i].agent_id@) == i,
        lookup(s, s[i].agent_id@) == Some(s[i]),
{
    let id = s[i].agent_id@;
    assert(has_agent(s, id));
    let k = index_of(s, id);
    if k < i {
        assert(id_lt(s[k].agent_id@, s[i].agent_id@));
        lemma_id_lt_irreflexive(id);
    } else if k > i {
        assert(id_lt(s[i].agent_id@, s[k].agent_id@));
        lemma_id_lt_irreflexive(id);
    }
}

/// Replacing a record by one with the same id keeps the table sorted and
/// changes what that id finds, and nothing else.
pub proof fn lemma_update_same_id(s: Seq<AgentRecord>, i: int, r: AgentRecord)
    requires
        ids_sorted(s),
        0 <= i < s.len(),
        r.agent_id@ == s[i].agent_id@,
    ensures
        ids_sorted(s.update(i, r)),
        forall|id: Seq<u8>|
            #[trigger] lookup(s.update(i, r), id) == if id == r.agent_id@ {
                Some(r)
            } else {
                lookup(s, id)
            },
{
    let t = s.update(i, r);
    assert(ids_sorted(t)) by {
        assert forall|a: int, b: int| 0 <= a < b < t.len() implies id_lt(
            #[trigger] t[a].agent_id@,
            #[trigger] t[b].agent_id@,
        ) by {
            assert(id_lt(s[a].agent_id@, s[b].agent_id@));
        }
    }
    lemma_index_of_unique(t, i);
    assert forall|id: Seq<u8>|
        #[trigger] lookup(t, id) == if id == r.agent_id@ {
            Some(r)
        } else {
            lookup(s, id)
        } by {
        if id != r.agent_id@ {
            if has_agent(s, id) {
                let k = index_of(s, id);
                assert(t[k].agent_id@ == id);
                lemma_index_of_unique(t, k);
                lemma_index_of_unique(s, k);
            } else {
                if has_agent(t, id) {
                    let k = index_of(t, id);
                    assert(s[k].agent_id@ == id);
                }
            }
        }
    }
}

/// Inserting a record at its insertion point keeps the table sorted, makes
/// its id find it, and changes nothing else.
pub proof fn lemma_insert_at_point(s: Seq<AgentRecord>, p: int, r: AgentRecord)
    requires
        ids_sorted(s),
        insertion_point(s, r.agent_id@, p),
    ensures
        ids_sorted(s.insert(p, r)),
        forall|id: Seq<u8>|
            #[trigger] lookup(s.insert(p, r), id) == if id == r.agent_id@ {
                Some(r)
            } else {
                lookup(s, id)
            },
{
    let t = s.insert(p, r);
    assert(ids_sorted(t)) by {
        assert forall|a: int, b: int| 0 <= a < b < t.len() implies id_lt(
            #[trigger] t[a].agent_id@,
            #[trigger] t[b].agent_id@,
        ) by {
            if b < p {
                assert(id_lt(s[a].agent_id@, s[b].agent_id@));
            } else if b == p {
                assert(id_lt(s[a].agent_id@, r.agent_id@));
            } else if a < p {
                assert(id_lt(s[a].agent_id@, r.agent_id@));
                assert(id_lt(r.agent_id@, s[b - 1].agent_id@));
                lemma_id_lt_transitive(s[a].agent_id@, r.agent_id@, s[b - 1].agent_id@);
            } else if a == p {
                assert(id_lt(r.agent_id@, s[b - 1].agent_id@));
            } else {
                assert(id_lt(s[a - 1].agent_id@, s[b - 1].agent_id@));
            }
        }
    }
    assert(t[p] == r);
    lemma_index_of_unique(t, p);
    assert forall|id: Seq<u8>|
        #[trigger] lookup(t, id) == if id == r.agent_id@ {
            Some(r)
        } else {
            lookup(s, id)
        } by {
        if id != r.agent_id@ {
            if has_agent(s, id) {
                let k = index_of(s, id);
                let k2 = if k < p {
                    k
                } else {
                    k + 1
                };
                assert(t[k2].agent_id@ == id);
                lemma_index_of_unique(t, k2);
                lemma_index_of_unique(s, k);
            } else {
                if has_agent(t, id) {
                    let k = index_of(t, id);
                    if k < p {
                        assert(s[k].agent_id@ == id);
                    } else if k > p {
                        assert(s[k - 1].agent_id@ == id);
                    }
                }
            }
        }
    }
}

/// The registered agents, in increasing id order.
pub struct AgentTable {
    entries: Vec<AgentRecord>,
}

impl View for AgentTable {
    type V = Seq<AgentRecord>;

    closed spec fn view(&self) -> Seq<AgentRecord> {
        self.entries@
    }
}

impl AgentTable {
    #[verifier::type_invariant]
    spec fn wf(self) -> bool {
        table_wf(self.entries@)
    }

    /// An empty table.
    pub fn new() -> (t: Self)
        ensures
            t@ == Seq::<AgentRecord>::empty(),
    {
        AgentTable { entries: Vec::new() }
    }

    /// A table holding `records`, when they are in strictly increasing id
    /// order and few enough to count in a `u32`; `None` otherwise.
    pub fn from_records(records: Vec<AgentRecord>) -> (r: Option<Self>)
        ensures
            r is Some <==> table_wf(records@),
            r matches Some(t) ==> t@ == records@,
    {
        let n = records.len();
        if n > 4294967295 {
            return None;
        }
        if n == 0 {
            return Some(AgentTable { entries: records });
        }
        let mut i: usize = 1;
        while i < n
            invariant
                1 <= i <= n,
                n == records@.len(),
                ids_sorted(records@.take(i as int)),
            decreases n - i,
        {
            match order_ids(&records[i - 1].agent_id, &records[i].agent_id) {
                IdOrder::Less => {},
                _ => {
                    assert(!ids_sorted(records@)) by {
                        lemma_id_lt_irreflexive(records@[i - 1].agent_id@);
                        if id_lt(records@[i - 1].agent_id@, records@[i as int].agent_id@) {
                            assert(false);
                        }
                    }
                    return None;
                },
            }
            let ghost prev = records@.take(i as int);
            let ghost next = records@.take(i + 1);
            assert(ids_sorted(next)) by {
                assert forall|a: int, b: int| 0 <= a < b < next.len() implies id_lt(
                    #[trigger] next[a].agent_id@,
                    #[trigger] next[b].agent_id@,
                ) by {
                    if b < i {
                        assert(prev[a] == next[a] && prev[b] == next[b]);
                    } else if a == i - 1 {
                    } else {
                        assert(prev[a] == next[a] && prev[i - 1] == next[i - 1]);
                        assert(id_lt(next[a].agent_id@, next[i - 1].agent_id@));
                        lemma_id_lt_transitive(
                            next[a].agent_id@,
                            next[i - 1].agent_id@,
                            next[b].agent_id@,
                        );
                    }
                }
            }
            i = i + 1;
        }
        assert(records@.take(n as int) =~= records@);
        Some(AgentTable { entries: records })
    }

    /// The records, in increasing id order.
    pub fn records(&self) -> (v: &Vec<AgentRecord>)
        ensures
            v@ == self@,
            table_wf(self@),
    {
        proof {
            use_type_invariant(self);
        }
        &self.entries
    }

    /// Number of records.
    pub fn len(&self) -> (n: usize)
        ensures
            n == self@.len(),
            table_wf(self@),
    {
        proof {
            use_type_invariant(self);
        }
        self.entries.len()
    }

    /// The record at position `i`.
    pub fn get(&self, i: usize) -> (r: AgentRecord)
        requires
            i < self@.len(),
        ensures
            r == self@[i as int],
            table_wf(self@),
    {
        proof {
            use_type_invariant(self);
        }
        self.entries[i]
    }

    /// The position of the record with this id (`Ok`), or where such a
    /// record would go (`Err`).
    pub fn find(&self, id: &AgentId) -> (r: Result<usize, usize>)
        ensures
            table_wf(self@),
            match r {
                Ok(i) => {
                    &&& i < self@.len()
                    &&& self@[i as int].agent_id@ == id@
                    &&& has_agent(self@, id@)
                    &&& index_of(self@, id@) == i
                    &&& lookup(self@, id@) == Some(self@[i as int])
                },
                Err(p) => {
                    &&& !has_agent(self@, id@)
                    &&& lookup(self@, id@) is None
                    &&& insertion_point(self@, id@, p as int)
                },
            },
    {
        proof {
            use_type_invariant(self);
        }
        let n = self.entries.len();
        let mut i: usize = 0;
        while i < n
            invariant
                0 <= i <= n,
                n == self@.len(),
                table_wf(self@),
                forall|j: int| 0 <= j < i ==> id_lt(#[trigger] self@[j].agent_id@, id@),
            decreases n - i,
        {
            match order_ids(&self.entries[i].agent_id, id) {
                IdOrder::Less => {},
                IdOrder::Equal => {
                    proof {
                        lemma_index_of_unique(self@, i as int);
                    }
                    return Ok(i);
                },
                IdOrder::Greater => {
                    assert forall|j: int| i <= j < self@.len() implies id_lt(
                        id@,
                        #[trigger] self@[j].agent_id@,
                    ) by {
                        if j > i {
                            assert(id_lt(self@[i as int].agent_id@, self@[j].agent_id@));
                            lemma_id_lt_transitive(
                                id@,
                                self@[i as int].agent_id@,
                                self@[j].agent_id@,
                            );
                        }
                    }
                    assert(!has_agent(self@, id@)) by {
                        if has_agent(self@, id@) {
                            let k = index_of(self@, id@);
                            lemma_id_lt_irreflexive(id@);
                        }
                    }
                    return Err(i);
                },
            }
            i = i + 1;
        }
        assert(!has_agent(self@, id@)) by {
            if has_agent(self@, id@) {
                let k = index_of(self@, id@);
                lemma_id_lt_irreflexive(id@);
            }
        }
        Err(n)
    }

    /// Inserts a record at its insertion point.
    pub fn insert_at(&mut self, p: usize, r: AgentRecord)
        requires
            insertion_point(old(self)@, r.agent_id@, p as int),
            old(self)@.len() < u32::MAX,
        ensures
            final(self)@ == old(self)@.insert(p as int, r),
            table_wf(final(self)@),
    {
        proof {
            use_type_invariant(&*self);
            lemma_insert_at_point(self@, p as int, r);
        }
        let mut v: Vec<AgentRecord> = Vec::new();
        std::mem::swap(&mut v, &mut self.entries);
        v.insert(p, r);
        self.entries = v;
    }

    /// Replaces the record at position `i` by one with the same id.
    pub fn set_at(&mut self, i: usize, r: AgentRecord)
        requires
            i < old(self)@.len(),
            r.agent_id@ == old(self)@[i as int].agent_id@,
        ensures
            final(self)@ == old(self)@.update(i as int, r),
            table_wf(final(self)@),
    {
        proof {
            use_type_invariant(&*self);
            lemma_update_same_id(self@, i as int, r);
        }
        let mut v: Vec<AgentRecord> = Vec::new();
        std::mem::swap(&mut v, &mut self.entries);
        v.set(i, r);
        self.entries = v;
    }
}

} // verus!
