use property_defs::resolve::{
    apply_cached, apply_lookup, pending_key, resolution_start, resolve_found, resolve_from_cache,
    GroupTypeCache, Resolution,
};
use property_defs::types::{
    EventPropertyUpdate, EventUpdate, GroupType, PropertyParentType, PropertyUpdate, Update,
};

fn prop(team_id: i32, group: Option<GroupType>) -> Update {
    Update::Property(PropertyUpdate {
        team_id,
        name: "plan".to_string(),
        is_numerical: false,
        property_type: Some("String".to_string()),
        event_type: PropertyParentType::Group,
        group_type_index: group,
    })
}

fn unresolved(team_id: i32, name: &str) -> Update {
    prop(team_id, Some(GroupType::Unresolved(name.to_string())))
}

fn resolved(team_id: i32, index: i32) -> Update {
    prop(team_id, Some(GroupType::Resolved(index)))
}

/// Resolves a whole batch against `store`, counting the lookups made.
fn resolve_all(
    cache: &GroupTypeCache,
    skip_reads: bool,
    updates: &mut Vec<Update>,
    store: &[((i32, &str), i32)],
) -> usize {
    let mut lookups = 0;
    let mut from = resolution_start(skip_reads, updates);
    loop {
        match resolve_from_cache(cache, updates, from).0 {
            Resolution::Done => return lookups,
            Resolution::Lookup { at, team_id, group_name } => {
                lookups += 1;
                let found = store
                    .iter()
                    .find(|((t, n), _)| *t == team_id && *n == group_name)
                    .map(|(_, i)| *i);
                resolve_found(cache, updates, at, found);
                from = at + 1;
            }
        }
    }
}

#[test]
fn group_type_resolve_transition() {
    assert_eq!(GroupType::Unresolved("org".to_string()).resolve(3), GroupType::Resolved(3));
    assert_eq!(GroupType::Resolved(1).resolve(3), GroupType::Resolved(3));
}

#[test]
fn cache_aside_second_resolution_is_a_hit() {
    let cache = GroupTypeCache::new(100);
    let store = [((1, "org"), 5)];
    let mut first = vec![unresolved(1, "org")];
    assert_eq!(resolve_all(&cache, false, &mut first, &store), 1);
    assert_eq!(first, vec![resolved(1, 5)]);
    let mut second = vec![unresolved(1, "org")];
    assert_eq!(resolve_all(&cache, false, &mut second, &store), 0);
    assert_eq!(second, vec![resolved(1, 5)]);
}

#[test]
fn cache_hit_is_reported_before_lookup() {
    let cache = GroupTypeCache::new(100);
    cache.insert(1, "org".to_string(), 5);
    assert_eq!(cache.get(1, &"org".to_string()), Some(5));
    let mut updates = vec![unresolved(1, "org"), unresolved(1, "company")];
    let (r, hits) = resolve_from_cache(&cache, &mut updates, 0);
    assert_eq!(
        r,
        Resolution::Lookup { at: 1, team_id: 1, group_name: "company".to_string() }
    );
    assert_eq!(hits, vec![(0, 5)]);
    assert_eq!(updates, vec![resolved(1, 5), unresolved(1, "company")]);
}

#[test]
fn negative_result_drops_the_reference() {
    let cache = GroupTypeCache::new(100);
    let mut updates = vec![unresolved(1, "nonexistent")];
    assert_eq!(resolve_all(&cache, false, &mut updates, &[]), 1);
    assert_eq!(updates, vec![prop(1, None)]);
    assert_eq!(cache.get(1, &"nonexistent".to_string()), None);
}

#[test]
fn keys_do_not_collide_across_teams() {
    let cache = GroupTypeCache::new(100);
    let store = [((1, "org"), 5), ((2, "org"), 0)];
    let mut updates = vec![unresolved(1, "org"), unresolved(2, "org"), unresolved(1, "org")];
    assert_eq!(resolve_all(&cache, false, &mut updates, &store), 2);
    assert_eq!(updates, vec![resolved(1, 5), resolved(2, 0), resolved(1, 5)]);
}

#[test]
fn settled_updates_are_left_alone() {
    let cache = GroupTypeCache::new(100);
    cache.insert(1, "org".to_string(), 9);
    let before = vec![
        resolved(1, 2),
        prop(1, None),
        Update::Event(EventUpdate { team_id: 1, name: "org".to_string(), last_seen_at: 0 }),
        Update::EventProperty(EventPropertyUpdate {
            team_id: 1,
            event: "org".to_string(),
            property: "plan".to_string(),
        }),
    ];
    let mut updates = before.clone();
    assert_eq!(resolve_all(&cache, false, &mut updates, &[((1, "org"), 9)]), 0);
    assert_eq!(updates, before);
    assert_eq!(resolve_all(&cache, false, &mut updates, &[((1, "org"), 9)]), 0);
    assert_eq!(updates, before);
}

#[test]
fn skip_reads_resolves_nothing() {
    let cache = GroupTypeCache::new(100);
    cache.insert(1, "org".to_string(), 5);
    let before = vec![unresolved(1, "org"), unresolved(3, "x")];
    let mut updates = before.clone();
    assert_eq!(resolution_start(true, &updates), 2);
    assert_eq!(resolution_start(false, &updates), 0);
    assert_eq!(resolve_all(&cache, true, &mut updates, &[((3, "x"), 1)]), 0);
    assert_eq!(updates, before);
}

#[test]
fn empty_batch_resolves_to_done() {
    let cache = GroupTypeCache::new(1);
    let mut updates: Vec<Update> = Vec::new();
    assert_eq!(resolve_from_cache(&cache, &mut updates, 0), (Resolution::Done, vec![]));
}

#[test]
fn apply_cached_only_on_pending_hits() {
    let mut u = unresolved(4, "org");
    assert!(!apply_cached(&mut u, None));
    assert_eq!(u, unresolved(4, "org"));
    assert!(apply_cached(&mut u, Some(2)));
    assert_eq!(u, resolved(4, 2));
    assert!(!apply_cached(&mut u, Some(3)));
    assert_eq!(u, resolved(4, 2));
}

#[test]
fn apply_lookup_resolves_or_drops() {
    let mut u = unresolved(4, "org");
    apply_lookup(&mut u, Some(1));
    assert_eq!(u, resolved(4, 1));
    let mut v = unresolved(4, "org");
    apply_lookup(&mut v, None);
    assert_eq!(v, prop(4, None));
    let mut w = resolved(4, 1);
    apply_lookup(&mut w, None);
    assert_eq!(w, resolved(4, 1));
}

#[test]
fn pending_key_names_team_and_group() {
    assert_eq!(pending_key(&unresolved(8, "org")), Some((8, "org".to_string())));
    assert_eq!(pending_key(&resolved(8, 0)), None);
    assert_eq!(pending_key(&prop(8, None)), None);
}

#[test]
fn cache_pass_reports_each_hit_in_order() {
    let cache = GroupTypeCache::new(100);
    cache.insert(1, "org".to_string(), 5);
    cache.insert(2, "org".to_string(), 7);
    let mut updates = vec![unresolved(1, "org"), resolved(1, 3), unresolved(2, "org"), prop(2, None)];
    let (r, hits) = resolve_from_cache(&cache, &mut updates, 0);
    assert_eq!(r, Resolution::Done);
    assert_eq!(hits, vec![(0, 5), (2, 7)]);
    assert_eq!(updates, vec![resolved(1, 5), resolved(1, 3), resolved(2, 7), prop(2, None)]);
    let again = updates.clone();
    assert_eq!(resolve_from_cache(&cache, &mut updates, 0), (Resolution::Done, vec![]));
    assert_eq!(updates, again);
}
