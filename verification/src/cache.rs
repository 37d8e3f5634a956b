//! The cache manager: the single owner of the unit-name → snapshot map.
//!
//! All access is serialized through one command queue, so the manager's
//! logic is single-threaded: a query either hits the cache, or asks for one
//! extraction and remembers the snapshot it selects from the extractor's
//! output. A failed extraction caches nothing, so the next query for the
//! same unit retries.

use vstd::prelude::*;
use crate::protocol::{CrateTypeInfo, Query, QueryData, QueryResult};
use crate::resolver::{
    execute_on_snapshot, first_from, lemma_first_from, lemma_first_from_pins, p_key,
    snapshot_answer, wrap_msg,
};

verus! {

/// The predicate: the snapshot reports this unit name.
pub open spec fn p_snap_name(unit: Seq<char>) -> spec_fn(CrateTypeInfo) -> bool {
    |ci: CrateTypeInfo| ci.crate_name@ == unit
}

/// Which snapshot of an extractor run serves `unit`: the first one naming
/// it; with an empty unit name, the last snapshot of the run.
pub open spec fn spec_select_idx(objs: Seq<CrateTypeInfo>, unit: Seq<char>) -> Option<int> {
    if unit.len() == 0 {
        if objs.len() > 0 {
            Option::Some(objs.len() - 1)
        } else {
            Option::None
        }
    } else {
        let f = first_from(objs, p_snap_name(unit), 0);
        if f < objs.len() {
            Option::Some(f)
        } else {
            Option::None
        }
    }
}

/// The "unit not extracted" message.
pub open spec fn unit_not_found_msg(unit: Seq<char>) -> Seq<char> {
    "Crate '"@ + unit + "' not found in compilation output"@
}

pub struct CacheManager {
    /// One snapshot per unit name; populated lazily, replaced whole.
    cache: Vec<(String, CrateTypeInfo)>,
}

impl CacheManager {
    /// The entries, for specification.
    pub closed spec fn entries(self) -> Seq<(String, CrateTypeInfo)> {
        self.cache@
    }

    /// Index of the entry for `unit`, or the entry count.
    pub open spec fn unit_idx(self, unit: Seq<char>) -> int {
        first_from(self.entries(), p_key::<CrateTypeInfo>(unit), 0)
    }

    /// Whether a snapshot for `unit` is cached.
    pub open spec fn has_unit(self, unit: Seq<char>) -> bool {
        self.unit_idx(unit) < self.entries().len()
    }

    /// The map's invariant: no unit is cached twice. Population inserts
    /// only on a miss and invalidation removes the sole entry, so the one
    /// removal also makes invalidation idempotent.
    pub open spec fn wf(self) -> bool {
        forall|i: int, j: int|
            0 <= i < j < self.entries().len() ==> (#[trigger] self.entries()[i]).0@ != (
            #[trigger] self.entries()[j]).0@
    }

    /// An empty cache.
    pub fn new() -> (r: Self)
        ensures
            r.entries().len() == 0,
            r.wf(),
    {
        CacheManager { cache: Vec::new() }
    }

    /// Whether serving `query` for `crate_name` would first have to run the
    /// extractor: liveness and shutdown probes never do; any other query
    /// does exactly when the unit is not cached.
    pub fn needs_extraction(&self, crate_name: &String, query: &Query) -> (r: bool)
        ensures
            r == spec_needs_extraction(*self, crate_name@, *query),
    {
        match query {
            Query::Ping => false,
            Query::Shutdown => false,
            _ => self.find_unit(crate_name).is_none(),
        }
    }

    /// Index of the cached entry for `crate_name`, if any.
    fn find_unit(&self, crate_name: &String) -> (r: Option<usize>)
        ensures
            match r {
                Some(i) => self.unit_idx(crate_name@) == i as int && i < self.entries().len(),
                None => self.unit_idx(crate_name@) == self.entries().len(),
            },
    {
        let ghost pe = p_key::<CrateTypeInfo>(crate_name@);
        let n = self.cache.len();
        let mut i: usize = 0;
        while i < n
            invariant
                i <= n,
                n == self.cache@.len(),
                forall|k: int| 0 <= k < i ==> !#[trigger] pe(self.cache@[k]),
                pe == p_key::<CrateTypeInfo>(crate_name@),
            decreases n - i,
        {
            if self.cache[i].0.eq(crate_name) {
                proof {
                    assert(pe(self.cache@[i as int]));
                    lemma_first_from_pins(self.cache@, pe, i as int);
                }
                return Some(i);
            }
            proof {
                assert(!pe(self.cache@[i as int]));
            }
            i = i + 1;
        }
        proof {
            lemma_first_from_pins(self.cache@, pe, n as int);
        }
        None
    }

    /// Return the cached snapshot's index for `crate_name`; on a miss,
    /// select the snapshot for it from the extraction run's output, cache
    /// it, and return its index. A run with no matching snapshot (or no run
    /// at all) yields a descriptive error and caches nothing, so the next
    /// query retries extraction.
    pub fn get_or_compile(
        &mut self,
        crate_name: &String,
        extraction: Option<Vec<CrateTypeInfo>>,
    ) -> (r: Result<usize, String>)
        ensures
            spec_get_or_compile_post(*old(self), *final(self), crate_name@, extraction, r),
            old(self).wf() ==> final(self).wf(),
    {
        let ghost pre = *self;
        if let Some(i) = self.find_unit(crate_name) {
            return Ok(i);
        }
        proof {
            lemma_first_from(pre.entries(), p_key::<CrateTypeInfo>(crate_name@), 0);
        }
        match extraction {
            Some(mut objs) => {
                let ghost objs0 = objs@;
                match select_snapshot(&mut objs, crate_name) {
                    Some(info) => {
                        let ghost e0 = self.cache@;
                        let i = self.cache.len();
                        let key = crate_name.clone();
                        self.cache.push((key, info));
                        proof {
                            assert(self.cache@.take(e0.len() as int) =~= e0);
                            assert(self.cache@.last().1 == objs0[spec_select_idx(
                                objs0,
                                crate_name@,
                            ).unwrap()]);
                        }
                        proof {
                            if pre.wf() {
                                let pe = p_key::<CrateTypeInfo>(crate_name@);
                                assert forall|a: int, b: int|
                                    0 <= a < b < self.cache@.len() implies (
                                #[trigger] self.cache@[a]).0@ != (#[trigger] self.cache@[b]).0@ by {
                                    if b < e0.len() {
                                        assert(self.cache@[a] == e0[a]);
                                        assert(self.cache@[b] == e0[b]);
                                    } else {
                                        assert(self.cache@[a] == e0[a]);
                                        assert(!pe(e0[a]));
                                        assert(self.cache@[b].0@ == crate_name@);
                                    }
                                }
                            }
                        }
                        Ok(i)
                    },
                    None => Err(wrap_msg("Crate '", crate_name, "' not found in compilation output")),
                }
            },
            None => Err(wrap_msg("Crate '", crate_name, "' not found in compilation output")),
        }
    }

    /// Drop the cached snapshot for `crate_name`, if any; idempotent.
    pub fn invalidate(&mut self, crate_name: &String)
        ensures
            old(self).has_unit(crate_name@) ==> final(self).entries() == old(self).entries().remove(
                old(self).unit_idx(crate_name@),
            ),
            !old(self).has_unit(crate_name@) ==> final(self).entries() == old(self).entries(),
            old(self).wf() ==> final(self).wf(),
    {
        let ghost pre = *self;
        match self.find_unit(crate_name) {
            Some(i) => {
                self.cache.remove(i);
                proof {
                    if pre.wf() {
                        assert forall|a: int, b: int|
                            0 <= a < b < self.cache@.len() implies (#[trigger] self.cache@[a]).0@
                            != (#[trigger] self.cache@[b]).0@ by {
                            let a0 = if a < i as int {
                                a
                            } else {
                                a + 1
                            };
                            let b0 = if b < i as int {
                                b
                            } else {
                                b + 1
                            };
                            assert(self.cache@[a] == pre.entries()[a0]);
                            assert(self.cache@[b] == pre.entries()[b0]);
                        }
                    }
                }
            },
            None => {},
        }
    }

    /// Serve one query. Liveness and shutdown probes are answered without a
    /// snapshot; everything else resolves against the cached snapshot,
    /// populating the cache from `extraction` on a miss.
    pub fn execute_query(
        &mut self,
        crate_name: &String,
        query: &Query,
        extraction: Option<Vec<CrateTypeInfo>>,
    ) -> (r: QueryResult)
        ensures
            spec_execute_post(*old(self), *final(self), crate_name@, *query, extraction, r),
            old(self).wf() ==> final(self).wf(),
    {
        match query {
            Query::Ping => {
                return QueryResult::Success { data: QueryData::Pong };
            },
            Query::Shutdown => {
                return QueryResult::Success { data: QueryData::ShuttingDown };
            },
            _ => {},
        }
        let ghost pre = *self;
        let ghost ext = extraction;
        let go = self.get_or_compile(crate_name, extraction);
        match go {
            Ok(i) => {
                proof {
                    assert(spec_get_or_compile_post(pre, *self, crate_name@, ext, go));
                    if pre.has_unit(crate_name@) {
                        assert(i < self.cache@.len());
                    } else {
                        assert(i as int == self.cache@.len() - 1);
                        assert(self.cache@[i as int] == self.cache@.last());
                    }
                }
                execute_on_snapshot(&self.cache[i].1, query)
            },
            Err(message) => QueryResult::Error { message },
        }
    }
}

/// Whether serving `q` for `unit` against cache state `s` would run the
/// extractor first.
pub open spec fn spec_needs_extraction(s: CacheManager, unit: Seq<char>, q: Query) -> bool {
    !(q is Ping) && !(q is Shutdown) && !s.has_unit(unit)
}

/// What `get_or_compile` guarantees: a hit leaves the cache unchanged and
/// names the hit entry; a miss appends exactly the selected snapshot under
/// the queried name, or reports the unit unextracted and changes nothing.
pub open spec fn spec_get_or_compile_post(
    old_s: CacheManager,
    new_s: CacheManager,
    unit: Seq<char>,
    extraction: Option<Vec<CrateTypeInfo>>,
    r: Result<usize, String>,
) -> bool {
    if old_s.has_unit(unit) {
        new_s.entries() == old_s.entries() && match r {
            Result::Ok(i) => i as int == old_s.unit_idx(unit),
            Result::Err(_) => false,
        }
    } else {
        match extraction {
            Option::Some(objs) => match spec_select_idx(objs@, unit) {
                Option::Some(si) => {
                    &&& new_s.entries().len() == old_s.entries().len() + 1
                    &&& new_s.entries().take(old_s.entries().len() as int) == old_s.entries()
                    &&& new_s.entries().last().0@ == unit
                    &&& new_s.entries().last().1 == objs@[si]
                    &&& match r {
                        Result::Ok(i) => i as int == old_s.entries().len(),
                        Result::Err(_) => false,
                    }
                },
                Option::None => new_s.entries() == old_s.entries() && match r {
                    Result::Err(m) => m@ == unit_not_found_msg(unit),
                    _ => false,
                },
            },
            Option::None => new_s.entries() == old_s.entries() && match r {
                Result::Err(m) => m@ == unit_not_found_msg(unit),
                _ => false,
            },
        }
    }
}

/// What `execute_query` guarantees, covering every query and cache state.
pub open spec fn spec_execute_post(
    old_s: CacheManager,
    new_s: CacheManager,
    unit: Seq<char>,
    q: Query,
    extraction: Option<Vec<CrateTypeInfo>>,
    r: QueryResult,
) -> bool {
    if q is Ping {
        new_s.entries() == old_s.entries() && r == (QueryResult::Success { data: QueryData::Pong })
    } else if q is Shutdown {
        new_s.entries() == old_s.entries() && r == (QueryResult::Success {
            data: QueryData::ShuttingDown,
        })
    } else if old_s.has_unit(unit) {
        new_s.entries() == old_s.entries() && snapshot_answer(
            old_s.entries()[old_s.unit_idx(unit)].1,
            q,
            r,
        )
    } else {
        match extraction {
            Option::Some(objs) => match spec_select_idx(objs@, unit) {
                Option::Some(si) => {
                    &&& new_s.entries().len() == old_s.entries().len() + 1
                    &&& new_s.entries().take(old_s.entries().len() as int) == old_s.entries()
                    &&& new_s.entries().last().0@ == unit
                    &&& new_s.entries().last().1 == objs@[si]
                    &&& snapshot_answer(objs@[si], q, r)
                },
                Option::None => new_s.entries() == old_s.entries() && match r {
                    QueryResult::Error { message } => message@ == unit_not_found_msg(unit),
                    _ => false,
                },
            },
            Option::None => new_s.entries() == old_s.entries() && match r {
                QueryResult::Error { message } => message@ == unit_not_found_msg(unit),
                _ => false,
            },
        }
    }
}

/// Take the snapshot serving `crate_name` out of the extractor's output:
/// the first one naming it, or the last of the run when the name is empty.
fn select_snapshot(objs: &mut Vec<CrateTypeInfo>, crate_name: &String) -> (r: Option<
    CrateTypeInfo,
>)
    ensures
        match spec_select_idx(old(objs)@, crate_name@) {
            Option::Some(si) => match r {
                Some(info) => info == old(objs)@[si],
                None => false,
            },
            Option::None => r is None,
        },
{
    if crate_name.as_str().unicode_len() == 0 {
        proof {
            assert(crate_name@.len() == 0);
        }
        if objs.len() > 0 {
            let last = objs.len() - 1;
            return Some(objs.remove(last));
        }
        return None;
    }
    let ghost pn = p_snap_name(crate_name@);
    let n = objs.len();
    let mut i: usize = 0;
    while i < n
        invariant
            i <= n,
            n == objs@.len(),
            objs@ == old(objs)@,
            forall|k: int| 0 <= k < i ==> !#[trigger] pn(objs@[k]),
            pn == p_snap_name(crate_name@),
            crate_name@.len() > 0,
        decreases n - i,
    {
        if objs[i].crate_name.eq(crate_name) {
            proof {
                assert(pn(objs@[i as int]));
                lemma_first_from_pins(objs@, pn, i as int);
            }
            return Some(objs.remove(i));
        }
        proof {
            assert(!pn(objs@[i as int]));
        }
        i = i + 1;
    }
    proof {
        lemma_first_from_pins(objs@, pn, n as int);
    }
    None
}

/// Entries only grow under queries: a cached unit stays cached across any
/// later query step, whatever it asks and whatever the extractor returned.
pub proof fn lemma_unit_stays_cached(
    s1: CacheManager,
    s2: CacheManager,
    u: Seq<char>,
    unit2: Seq<char>,
    q2: Query,
    extraction: Option<Vec<CrateTypeInfo>>,
    r: QueryResult,
)
    requires
        s1.has_unit(u),
        spec_execute_post(s1, s2, unit2, q2, extraction, r),
    ensures
        s2.has_unit(u),
        s2.entries()[s2.unit_idx(u)] == s1.entries()[s1.unit_idx(u)],
{
    let pe = p_key::<CrateTypeInfo>(u);
    lemma_first_from(s1.entries(), pe, 0);
    if s2.entries() == s1.entries() {
    } else {
        let i = s1.unit_idx(u);
        assert(s2.entries().take(s1.entries().len() as int) == s1.entries());
        assert forall|k: int| 0 <= k < s1.entries().len() implies s2.entries()[k] == s1.entries()[k] by {
            assert(s2.entries().take(s1.entries().len() as int)[k] == s2.entries()[k]);
        }
        assert(pe(s2.entries()[i]));
        lemma_first_from(s2.entries(), pe, 0);
        let j = first_from(s2.entries(), pe, 0);
        assert(j <= i);
        assert(s2.entries()[j] == s1.entries()[j]);
        if j < i {
            assert(!pe(s1.entries()[j]));
        }
    }
}

/// How many of the first `k` queued queries for unit `u` ran the extractor.
pub open spec fn count_extracting(
    states: Seq<CacheManager>,
    u: Seq<char>,
    queries: Seq<Query>,
    k: int,
) -> int
    decreases k,
    when 0 <= k < states.len() && k <= queries.len()
{
    if k <= 0 {
        0
    } else {
        count_extracting(states, u, queries, k - 1) + if spec_needs_extraction(
            states[k - 1],
            u,
            queries[k - 1],
        ) {
            1int
        } else {
            0int
        }
    }
}

/// The step conditions of a serialized queue of snapshot queries, all for
/// unit `u`: each state follows from the one before by one query.
pub open spec fn queue_steps(
    states: Seq<CacheManager>,
    u: Seq<char>,
    queries: Seq<Query>,
    exs: Seq<Option<Vec<CrateTypeInfo>>>,
    rs: Seq<QueryResult>,
    n: int,
) -> bool {
    &&& states.len() == n + 1
    &&& queries.len() == n
    &&& exs.len() == n
    &&& rs.len() == n
    &&& forall|k: int|
        0 <= k < n ==> !((#[trigger] queries[k]) is Ping) && !(queries[k] is Shutdown)
    &&& forall|k: int|
        0 <= k < n ==> #[trigger] spec_execute_post(states[k], states[k + 1], u, queries[k], exs[k], rs[k])
}

proof fn lemma_unit_cached_from(
    states: Seq<CacheManager>,
    u: Seq<char>,
    queries: Seq<Query>,
    exs: Seq<Option<Vec<CrateTypeInfo>>>,
    rs: Seq<QueryResult>,
    n: int,
    k: int,
)
    requires
        n >= 1,
        queue_steps(states, u, queries, exs, rs, n),
        states[1].has_unit(u),
        1 <= k <= n,
    ensures
        states[k].has_unit(u),
    decreases k,
{
    if k > 1 {
        lemma_unit_cached_from(states, u, queries, exs, rs, n, k - 1);
        assert(spec_execute_post(
            states[k - 1],
            states[(k - 1) + 1],
            u,
            queries[k - 1],
            exs[k - 1],
            rs[k - 1],
        ));
        lemma_unit_stays_cached(
            states[k - 1],
            states[k],
            u,
            u,
            queries[k - 1],
            exs[k - 1],
            rs[k - 1],
        );
    }
}

proof fn lemma_count_from(
    states: Seq<CacheManager>,
    u: Seq<char>,
    queries: Seq<Query>,
    exs: Seq<Option<Vec<CrateTypeInfo>>>,
    rs: Seq<QueryResult>,
    n: int,
    k: int,
)
    requires
        n >= 1,
        queue_steps(states, u, queries, exs, rs, n),
        !states[0].has_unit(u),
        states[1].has_unit(u),
        1 <= k <= n,
    ensures
        count_extracting(states, u, queries, k) == 1,
    decreases k,
{
    if k == 1 {
        assert(count_extracting(states, u, queries, 0) == 0);
        assert(spec_needs_extraction(states[0], u, queries[0]));
        assert(count_extracting(states, u, queries, 1) == 1);
    } else {
        lemma_count_from(states, u, queries, exs, rs, n, k - 1);
        lemma_unit_cached_from(states, u, queries, exs, rs, n, k - 1);
        assert(!spec_needs_extraction(states[k - 1], u, queries[k - 1]));
        assert(count_extracting(states, u, queries, k) == count_extracting(
            states,
            u,
            queries,
            k - 1,
        ));
    }
}

/// At most one extraction per unit: of N serialized queries for one
/// never-before-seen unit, exactly the first runs the extractor, provided
/// its run produced a snapshot for the unit; every later query in the queue
/// is served from the cache.
pub proof fn lemma_at_most_one_extraction(
    states: Seq<CacheManager>,
    u: Seq<char>,
    queries: Seq<Query>,
    exs: Seq<Option<Vec<CrateTypeInfo>>>,
    rs: Seq<QueryResult>,
    n: int,
)
    requires
        n >= 1,
        queue_steps(states, u, queries, exs, rs, n),
        !states[0].has_unit(u),
        match exs[0] {
            Option::Some(objs) => spec_select_idx(objs@, u) is Some,
            Option::None => false,
        },
    ensures
        spec_needs_extraction(states[0], u, queries[0]),
        forall|k: int| 1 <= k < n ==> !spec_needs_extraction(states[k], u, queries[k]),
        count_extracting(states, u, queries, n) == 1,
{
    assert(spec_execute_post(states[0], states[1], u, queries[0], exs[0], rs[0]));
    let s1 = states[1];
    let pe = p_key::<CrateTypeInfo>(u);
    assert(s1.has_unit(u)) by {
        assert(s1.entries().last().0@ == u);
        assert(pe(s1.entries()[s1.entries().len() - 1]));
        lemma_first_from(s1.entries(), pe, 0);
        let f = first_from(s1.entries(), pe, 0);
        if f == s1.entries().len() {
            assert(!pe(s1.entries()[s1.entries().len() - 1]));
        }
    }
    assert forall|k: int| 1 <= k < n implies !spec_needs_extraction(states[k], u, queries[k]) by {
        lemma_unit_cached_from(states, u, queries, exs, rs, n, k);
    }
    lemma_count_from(states, u, queries, exs, rs, n, n);
}

/// After one successful population of unit `u`, no later query for `u`
/// needs the extractor again, and every such query is answered from the
/// snapshot that was stored — until an explicit invalidation.
pub proof fn lemma_cache_hit_idempotence(
    s1: CacheManager,
    s2: CacheManager,
    u: Seq<char>,
    q: Query,
    extraction: Option<Vec<CrateTypeInfo>>,
    r: QueryResult,
)
    requires
        s1.has_unit(u),
        !(q is Ping),
        !(q is Shutdown),
        spec_execute_post(s1, s2, u, q, extraction, r),
    ensures
        !spec_needs_extraction(s1, u, q),
        s2.entries() == s1.entries(),
        snapshot_answer(s1.entries()[s1.unit_idx(u)].1, q, r),
{
}

} // verus!
