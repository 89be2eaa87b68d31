//! Laws of the normalizer, proved over the model: deduplication is
//! idempotent, surrogate ids stay dense, earlier entities keep their places,
//! skipped records change nothing, and no collection holds two structurally
//! equal entities.

use vstd::prelude::*;

use crate::model::{
    city_of, insert_new, insert_town, pref_of, same_town_key, step, tables_of, town_of,
    towns_contain_key, RecV, TablesV, TownV,
};

verus! {

/// Feeding the same record twice in a row yields collections identical to
/// feeding it once: the second occurrence is a duplicate of each entity the
/// first one inserted (or found), so nothing changes.
pub proof fn lemma_step_idempotent(t: TablesV, r: RecV)
    ensures
        step(step(t, r), r) == step(t, r),
{
    if !r.skip {
        let t1 = step(t, r);
        let p = pref_of(r);
        if !t.prefs.contains(p) {
            assert(t1.prefs[t.prefs.len() as int] == p);
            assert(t1.prefs.contains(p));
        }
        assert(insert_new(t1.prefs, p) == t1.prefs);
        let c = city_of(r);
        if !t.cities.contains(c) {
            assert(t1.cities[t.cities.len() as int] == c);
            assert(t1.cities.contains(c));
        }
        assert(insert_new(t1.cities, c) == t1.cities);
        let c1 = town_of(r, t.towns.len() as int + 1);
        let c2 = town_of(r, t1.towns.len() as int + 1);
        if towns_contain_key(t.towns, c1) {
            let i = choose|i: int| 0 <= i < t.towns.len() && same_town_key(t.towns[i], c1);
            assert(same_town_key(t1.towns[i], c2));
        } else {
            assert(t1.towns[t.towns.len() as int] == c1);
            assert(same_town_key(t1.towns[t.towns.len() as int], c2));
        }
        assert(towns_contain_key(t1.towns, c2));
        assert(insert_town(t1.towns, c2) == t1.towns);
    }
}

/// A record whose bulk-recipient flag is set contributes no entity to any
/// collection and does not move subsequent surrogate-id assignment.
pub proof fn lemma_skip_no_effect(t: TablesV, r: RecV)
    requires
        r.skip,
    ensures
        step(t, r) == t,
{
}

/// Surrogate ids are dense: the town at position `i` carries id `i + 1`, so
/// a collection of size `N` uses exactly the ids `1..=N`, in first-occurrence
/// order.
pub open spec fn town_ids_dense(ts: Seq<TownV>) -> bool {
    forall|i: int| 0 <= i < ts.len() ==> ts[i].id == i + 1
}

pub proof fn lemma_step_preserves_dense(t: TablesV, r: RecV)
    requires
        town_ids_dense(t.towns),
    ensures
        town_ids_dense(step(t, r).towns),
{
    if !r.skip {
        let c = town_of(r, t.towns.len() as int + 1);
        if !towns_contain_key(t.towns, c) {
            let ts2 = t.towns.push(c);
            assert forall|i: int| 0 <= i < ts2.len() implies ts2[i].id == i + 1 by {
                if i < t.towns.len() {
                    assert(ts2[i] == t.towns[i]);
                } else {
                    assert(ts2[i] == c);
                }
            }
        }
    }
}

/// After any sequence of records the town ids are exactly `1..=N` for a
/// collection of size `N`, each used once, assigned in first-occurrence
/// order.
pub proof fn lemma_town_ids_dense(recs: Seq<RecV>)
    ensures
        town_ids_dense(tables_of(recs).towns),
    decreases recs.len(),
{
    if recs.len() > 0 {
        lemma_town_ids_dense(recs.drop_last());
        lemma_step_preserves_dense(tables_of(recs.drop_last()), recs.last());
    }
}

/// One step never moves or removes an entity: each collection only grows at
/// its end.
pub proof fn lemma_step_extends(t: TablesV, r: RecV)
    ensures
        t.prefs.is_prefix_of(step(t, r).prefs),
        t.cities.is_prefix_of(step(t, r).cities),
        t.towns.is_prefix_of(step(t, r).towns),
{
    if !r.skip {
        let t1 = step(t, r);
        assert(t.prefs =~= t1.prefs.subrange(0, t.prefs.len() as int));
        assert(t.cities =~= t1.cities.subrange(0, t.cities.len() as int));
        assert(t.towns =~= t1.towns.subrange(0, t.towns.len() as int));
    }
}

proof fn lemma_prefix_trans<A>(a: Seq<A>, b: Seq<A>, c: Seq<A>)
    requires
        a.is_prefix_of(b),
        b.is_prefix_of(c),
    ensures
        a.is_prefix_of(c),
{
    assert(a =~= c.subrange(0, a.len() as int));
}

/// Order preservation: entities appear in the order their first occurrence
/// was accepted — processing further records only appends to each
/// collection, leaving every earlier entity at its place.
pub proof fn lemma_order_preserved(recs: Seq<RecV>, more: Seq<RecV>)
    ensures
        tables_of(recs).prefs.is_prefix_of(tables_of(recs + more).prefs),
        tables_of(recs).cities.is_prefix_of(tables_of(recs + more).cities),
        tables_of(recs).towns.is_prefix_of(tables_of(recs + more).towns),
    decreases more.len(),
{
    let t0 = tables_of(recs);
    if more.len() == 0 {
        assert(recs + more =~= recs);
        assert(t0.prefs =~= t0.prefs.subrange(0, t0.prefs.len() as int));
        assert(t0.cities =~= t0.cities.subrange(0, t0.cities.len() as int));
        assert(t0.towns =~= t0.towns.subrange(0, t0.towns.len() as int));
    } else {
        lemma_order_preserved(recs, more.drop_last());
        let prev = recs + more.drop_last();
        let whole = recs + more;
        assert(whole.drop_last() =~= prev);
        assert(whole.last() == more.last());
        let tp = tables_of(prev);
        let tw = tables_of(whole);
        assert(tw == step(tp, more.last()));
        lemma_step_extends(tp, more.last());
        lemma_prefix_trans(t0.prefs, tp.prefs, tw.prefs);
        lemma_prefix_trans(t0.cities, tp.cities, tw.cities);
        lemma_prefix_trans(t0.towns, tp.towns, tw.towns);
    }
}

/// No collection holds two structurally equal entities; for towns no two
/// entries share a deduplication key.
pub open spec fn collections_unique(t: TablesV) -> bool {
    &&& t.prefs.no_duplicates()
    &&& t.cities.no_duplicates()
    &&& forall|i: int, j: int|
        0 <= i < j < t.towns.len() ==> !same_town_key(t.towns[i], t.towns[j])
}

pub proof fn lemma_step_preserves_unique(t: TablesV, r: RecV)
    requires
        collections_unique(t),
    ensures
        collections_unique(step(t, r)),
{
    if !r.skip {
        let t1 = step(t, r);
        let p = pref_of(r);
        if !t.prefs.contains(p) {
            assert forall|i: int, j: int|
                0 <= i < j < t1.prefs.len() implies t1.prefs[i] != t1.prefs[j] by {
                if j < t.prefs.len() {
                    assert(t1.prefs[i] == t.prefs[i] && t1.prefs[j] == t.prefs[j]);
                } else {
                    assert(t1.prefs[i] == t.prefs[i] && t1.prefs[j] == p);
                    assert(t.prefs.contains(t.prefs[i]));
                }
            }
        }
        let c = city_of(r);
        if !t.cities.contains(c) {
            assert forall|i: int, j: int|
                0 <= i < j < t1.cities.len() implies t1.cities[i] != t1.cities[j] by {
                if j < t.cities.len() {
                    assert(t1.cities[i] == t.cities[i] && t1.cities[j] == t.cities[j]);
                } else {
                    assert(t1.cities[i] == t.cities[i] && t1.cities[j] == c);
                    assert(t.cities.contains(t.cities[i]));
                }
            }
        }
        let cand = town_of(r, t.towns.len() as int + 1);
        if !towns_contain_key(t.towns, cand) {
            assert forall|i: int, j: int|
                0 <= i < j < t1.towns.len() implies !same_town_key(t1.towns[i], t1.towns[j]) by {
                if j < t.towns.len() {
                    assert(t1.towns[i] == t.towns[i] && t1.towns[j] == t.towns[j]);
                } else {
                    assert(t1.towns[i] == t.towns[i] && t1.towns[j] == cand);
                }
            }
        }
    }
}

/// After any sequence of records, the first occurrence of each entity is the
/// one that was kept: the collections contain no duplicates.
pub proof fn lemma_collections_unique(recs: Seq<RecV>)
    ensures
        collections_unique(tables_of(recs)),
    decreases recs.len(),
{
    if recs.len() > 0 {
        lemma_collections_unique(recs.drop_last());
        lemma_step_preserves_unique(tables_of(recs.drop_last()), recs.last());
    }
}

} // verus!
