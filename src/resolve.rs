//! Group-type resolution, cache first, the store on a miss.
//!
//! A store lookup suspends the caller, so resolution advances in steps: each
//! step resolves from the cache up to the first miss and names the lookup that
//! is due; the caller performs it and hands the answer to `resolve_found`.
use vstd::prelude::*;
use quick_cache::sync::Cache;
use crate::types::{GroupType, Update, needs_lookup, lookup_key, with_group_type, after_lookup};

verus! {

#[verifier::external_type_specification]
#[verifier::external_body]
#[verifier::reject_recursive_types(Key)]
#[verifier::reject_recursive_types(Val)]
#[verifier::reject_recursive_types(We)]
#[verifier::reject_recursive_types(B)]
#[verifier::reject_recursive_types(L)]
pub struct ExCache<Key, Val, We, B, L>(Cache<Key, Val, We, B, L>);

#[verifier::external_type_specification]
#[verifier::external_body]
pub struct ExUnitWeighter(quick_cache::UnitWeighter);

#[verifier::external_type_specification]
#[verifier::external_body]
pub struct ExDefaultHashBuilder(quick_cache::DefaultHashBuilder);

#[verifier::external_type_specification]
#[verifier::external_body]
#[verifier::reject_recursive_types(Key)]
#[verifier::reject_recursive_types(Val)]
pub struct ExDefaultLifecycle<Key, Val>(quick_cache::sync::DefaultLifecycle<Key, Val>);

/// Relies on quick_cache::sync::Cache::new: a cache holding up to about
/// `capacity` entries.
#[verifier::external_body]
fn new_cache(capacity: usize) -> Cache<(i32, String), i32> {
    Cache::new(capacity)
}

/// Relies on quick_cache::sync::Cache::get: a copy of the value held for the
/// key, if any. Other tasks insert into the same cache and entries are evicted
/// at any time, so nothing is stated of the answer.
#[verifier::external_body]
fn cache_get(cache: &Cache<(i32, String), i32>, team_id: i32, name: &String) -> Option<i32> {
    cache.get(&(team_id, name.clone()))
}

/// Relies on quick_cache::sync::Cache::insert: stores the entry, evicting
/// others when full.
#[verifier::external_body]
fn cache_insert(cache: &Cache<(i32, String), i32>, team_id: i32, name: String, index: i32) {
    cache.insert((team_id, name), index)
}

/// Bounded map from (team, group-type name) to the group-type index, shared
/// by all batches. Entries are never invalidated: a mapping, once in the
/// store, does not change.
pub struct GroupTypeCache {
    entries: Cache<(i32, String), i32>,
}

/// The cache is shared by concurrent batches and evicts when full, so what a
/// lookup finds depends on other batches too: the contracts here say nothing
/// of what it holds.
impl GroupTypeCache {
    pub fn new(capacity: usize) -> (r: Self) {
        GroupTypeCache { entries: new_cache(capacity) }
    }

    /// The index held for the team's group-type name, if cached.
    pub fn get(&self, team_id: i32, name: &String) -> (r: Option<i32>) {
        cache_get(&self.entries, team_id, name)
    }

    pub fn insert(&self, team_id: i32, name: String, index: i32) {
        cache_insert(&self.entries, team_id, name, index)
    }
}

/// What resolution asks of the caller next.
#[derive(Clone, Debug, PartialEq, Eq)]
pub enum Resolution {
    /// Every update from the starting point on is settled.
    Done,
    /// The update at `at` missed the cache: look its group type up in the store.
    Lookup { at: usize, team_id: i32, group_name: String },
}

/// Resolution settles an update: after a cache hit or a store answer it needs
/// no lookup, and resolving it again leaves it as it is, whatever the cache or
/// the store answers the second time.
pub proof fn lemma_resolution_settles(u: Update, found: Option<i32>, again: Option<i32>)
    ensures
        !needs_lookup(after_lookup(u, found)),
        after_lookup(after_lookup(u, found), again) == after_lookup(u, found),
        !needs_lookup(u) ==> after_lookup(u, again) == u,
{
}

/// The team and group-type name that an update still has to look up.
pub fn pending_key(u: &Update) -> (r: Option<(i32, String)>)
    ensures
        r is Some <==> needs_lookup(*u),
        r matches Some((team_id, name)) ==> lookup_key(*u) == (team_id as int, name@),
{
    match u {
        Update::Property(p) => match &p.group_type_index {
            Some(GroupType::Unresolved(name)) => Some((p.team_id, name.clone())),
            _ => None,
        },
        _ => None,
    }
}

/// Resolves an update from a cache answer; `true` when that was a hit on an
/// update that needed it.
pub fn apply_cached(update: &mut Update, cached: Option<i32>) -> (hit: bool)
    ensures
        hit == (needs_lookup(*old(update)) && cached is Some),
        *final(update) == (if hit {
            after_lookup(*old(update), cached)
        } else {
            *old(update)
        }),
{
    match cached {
        Some(index) => {
            if pending_key(update).is_some() {
                update.set_group_type(Some(GroupType::Resolved(index)));
                true
            } else {
                false
            }
        },
        None => false,
    }
}

/// Applies a store answer to an update: resolved when a row matched, the
/// reference dropped when none did.
pub fn apply_lookup(update: &mut Update, found: Option<i32>)
    ensures
        *final(update) == after_lookup(*old(update), found),
{
    if pending_key(update).is_some() {
        match found {
            Some(index) => update.set_group_type(Some(GroupType::Resolved(index))),
            None => update.set_group_type(None),
        }
    }
}

/// Where resolution of a batch starts: at its end, so that nothing is
/// resolved, when reads are switched off.
pub fn resolution_start(skip_reads: bool, updates: &Vec<Update>) -> (r: usize)
    ensures
        r == (if skip_reads {
            updates.len()
        } else {
            0
        }),
{
    if skip_reads {
        updates.len()
    } else {
        0
    }
}

/// No update of `s` from position `from` on still needs a lookup.
pub open spec fn settled(s: Seq<Update>, from: int) -> bool {
    forall|i: int| from <= i < s.len() ==> !needs_lookup(#[trigger] s[i])
}

/// Between `from` and `stop`, `hits` lists in order each position that needed
/// a lookup, with the index it was resolved to; the other positions there are
/// unchanged.
pub open spec fn hits_applied(
    before: Seq<Update>,
    after: Seq<Update>,
    from: int,
    stop: int,
    hits: Seq<(usize, i32)>,
) -> bool {
    &&& forall|k: int|
        0 <= k < hits.len() ==> {
            &&& from <= (#[trigger] hits[k]).0 < stop
            &&& needs_lookup(before[hits[k].0 as int])
            &&& after[hits[k].0 as int] == after_lookup(before[hits[k].0 as int], Some(hits[k].1))
        }
    &&& forall|k1: int, k2: int| 0 <= k1 < k2 < hits.len() ==> hits[k1].0 < hits[k2].0
    &&& forall|i: int|
        from <= i < stop && needs_lookup(#[trigger] before[i]) ==> exists|k: int|
            0 <= k < hits.len() && (#[trigger] hits[k]).0 == i
    &&& forall|i: int| from <= i < stop && !needs_lookup(#[trigger] before[i]) ==> after[i] == before[i]
}

/// Resolves the updates from `from` on through the cache, up to the first one
/// that misses; that one is left as it was and its lookup is returned, beside
/// the cache hits that were applied.
pub fn resolve_from_cache(cache: &GroupTypeCache, updates: &mut Vec<Update>, from: usize) -> (r: (
    Resolution,
    Vec<(usize, i32)>,
))
    requires
        from <= old(updates).len(),
    ensures
        final(updates).len() == old(updates).len(),
        forall|i: int|
            0 <= i < final(updates).len() && !needs_lookup(old(updates)[i]) ==> final(updates)[i]
                == old(updates)[i],
        forall|i: int| 0 <= i < from ==> final(updates)[i] == old(updates)[i],
        settled(old(updates)@, from as int) ==> r.0 == Resolution::Done && final(updates)@
            == old(updates)@ && r.1@.len() == 0,
        match r.0 {
            Resolution::Done => {
                &&& hits_applied(
                    old(updates)@,
                    final(updates)@,
                    from as int,
                    old(updates).len() as int,
                    r.1@,
                )
                &&& settled(final(updates)@, from as int)
            },
            Resolution::Lookup { at, team_id, group_name } => {
                &&& from <= at < old(updates).len()
                &&& needs_lookup(old(updates)[at as int])
                &&& lookup_key(old(updates)[at as int]) == (team_id as int, group_name@)
                &&& hits_applied(old(updates)@, final(updates)@, from as int, at as int, r.1@)
                &&& forall|i: int|
                    at <= i < final(updates).len() ==> final(updates)[i] == old(updates)[i]
            },
        },
{
    let mut hits: Vec<(usize, i32)> = Vec::new();
    let mut i: usize = from;
    while i < updates.len()
        invariant
            from <= i <= updates.len(),
            updates.len() == old(updates).len(),
            forall|j: int| 0 <= j < from ==> updates[j] == old(updates)[j],
            hits_applied(old(updates)@, updates@, from as int, i as int, hits@),
            settled(updates@.subrange(0, i as int), from as int),
            forall|k: int| 0 <= k < hits@.len() ==> (#[trigger] hits@[k]).0 < i,
            settled(old(updates)@, from as int) ==> hits@.len() == 0,
            forall|j: int| i <= j < updates.len() ==> updates[j] == old(updates)[j],
        decreases updates.len() - i,
    {
        let ghost prev = updates@;
        match pending_key(&updates[i]) {
            None => {},
            Some((team_id, name)) => {
                let cached = cache.get(team_id, &name);
                match cached {
                    None => {
                        proof {
                            assert(needs_lookup(old(updates)[i as int]));
                        }
                        return (Resolution::Lookup { at: i, team_id, group_name: name }, hits);
                    },
                    Some(index) => {
                        apply_cached(&mut updates[i], cached);
                        let ghost old_hits = hits@;
                        hits.push((i, index));
                        proof {
                            let n = hits@.len() - 1;
                            assert(hits@[n] == (i, index));
                            assert forall|j: int|
                                from <= j < i + 1 && needs_lookup(
                                    #[trigger] old(updates)@[j],
                                ) implies exists|k: int|
                                0 <= k < hits@.len() && (#[trigger] hits@[k]).0 == j by {
                                if j < i {
                                    assert(needs_lookup(old(updates)@[j]));
                                    let k = choose|k: int|
                                        0 <= k < old_hits.len() && (#[trigger] old_hits[k]).0 == j;
                                    assert(hits@[k] == old_hits[k]);
                                } else {
                                    assert(hits@[n].0 == j);
                                }
                            }
                        }
                    },
                }
            },
        }
        proof {
            assert(!needs_lookup(updates@[i as int]));
            assert forall|j: int| from <= j < i + 1 implies !needs_lookup(
                #[trigger] updates@.subrange(0, i + 1)[j],
            ) by {
                if j < i {
                    assert(updates@.subrange(0, i + 1)[j] == prev.subrange(0, i as int)[j]);
                }
            }
        }
        i = i + 1;
    }
    proof {
        assert(updates@.subrange(0, i as int) =~= updates@);
        if settled(old(updates)@, from as int) {
            assert(updates@ =~= old(updates)@);
        }
    }
    (Resolution::Done, hits)
}

/// Applies the store's answer to the lookup at `at`, and caches a match (what
/// the shared cache then holds is not stated; see `GroupTypeCache`).
pub fn resolve_found(cache: &GroupTypeCache, updates: &mut Vec<Update>, at: usize, found: Option<
    i32,
>)
    requires
        at < old(updates).len(),
    ensures
        final(updates).len() == old(updates).len(),
        final(updates)[at as int] == after_lookup(old(updates)[at as int], found),
        !needs_lookup(final(updates)[at as int]),
        forall|i: int|
            0 <= i < final(updates).len() && i != at ==> final(updates)[i] == old(updates)[i],
{
    if let Some((team_id, name)) = pending_key(&updates[at]) {
        if let Some(index) = found {
            cache.insert(team_id, name, index);
        }
    }
    apply_lookup(&mut updates[at], found);
}

} // verus!
