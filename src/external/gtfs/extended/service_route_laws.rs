//! What holds of service-route generation across calls.
use vstd::prelude::*;

use crate::external::gtfs::extended::service_routes::{
    bootstrap_state, exported_from, generate_step, generate_steps, has_row, identifier_of,
    identity_view, initial_state, records_some_trip, row_records, seeded_routes,
    snapshot_identifier, GeneratorState, IdentifyStrategy,
};
use crate::external::gtfs::extended::service_route_identity::ServiceRouteIdentity;
use crate::external::gtfs::extended::stop_time_details::{stop_ids_of, StopTimeDetail};
use crate::joined::{comma_free, lemma_join_injective};

verus! {

/// Resolving the same trip twice gives the same service route both times, and
/// the second time leaves the state (and so the id counter) as it was.
pub proof fn lemma_generate_idempotent(
    strategy: IdentifyStrategy,
    st: GeneratorState,
    details: Seq<StopTimeDetail>,
)
    ensures
        ({
            let (s1, r1) = generate_step(strategy, st, details);
            let (s2, r2) = generate_step(strategy, s1, details);
            r2 == r1 && s2 == s1
        }),
{
}

/// After a pass that resolved every trip, each trip's service route is the
/// one stored under its identity, every trip had visits, and nothing stored
/// before the pass was changed.
pub proof fn lemma_steps_consistent(
    strategy: IdentifyStrategy,
    st: GeneratorState,
    groups: Seq<Seq<StopTimeDetail>>,
)
    ensures
        ({
            let (s, r) = generate_steps(strategy, st, groups);
            r is Some ==> {
                let ps = r->Some_0;
                &&& ps.len() == groups.len()
                &&& st.routes.submap_of(s.routes)
                &&& s.last_id >= st.last_id
                &&& forall|i: int|
                    0 <= i < groups.len() ==> {
                        &&& (#[trigger] groups[i]).len() > 0
                        &&& s.routes.contains_key(identifier_of(strategy, groups[i]))
                        &&& s.routes[identifier_of(strategy, groups[i])] == ps[i]
                    }
            }
        }),
    decreases groups.len(),
{
    if groups.len() > 0 {
        lemma_steps_consistent(strategy, st, groups.drop_last());
        let (s1, r1) = generate_steps(strategy, st, groups.drop_last());
        if r1 is Some {
            let d = groups.last();
            let (s2, r2) = generate_step(strategy, s1, d);
            if r2 is Some {
                let ps = r1->Some_0.push(r2->Some_0);
                assert forall|i: int| 0 <= i < groups.len() implies {
                    &&& (#[trigger] groups[i]).len() > 0
                    &&& s2.routes.contains_key(identifier_of(strategy, groups[i]))
                    &&& s2.routes[identifier_of(strategy, groups[i])] == ps[i]
                } by {
                    if i < groups.len() - 1 {
                        assert(groups.drop_last()[i] == groups[i]);
                    }
                }
            }
        }
    }
}

/// Trips with the same stop ids, resolved by stop ids in one pass, get the
/// same service route, and so the same id.
pub proof fn lemma_same_stop_ids_same_route(
    st: GeneratorState,
    groups: Seq<Seq<StopTimeDetail>>,
    i: int,
    j: int,
)
    requires
        generate_steps(IdentifyStrategy::StopIds, st, groups).1 is Some,
        0 <= i < groups.len(),
        0 <= j < groups.len(),
        stop_ids_of(groups[i]) == stop_ids_of(groups[j]),
    ensures
        ({
            let ps = generate_steps(IdentifyStrategy::StopIds, st, groups).1->Some_0;
            ps[i] == ps[j] && ps[i].id == ps[j].id
        }),
{
    lemma_steps_consistent(IdentifyStrategy::StopIds, st, groups);
}

/// What holds of every state reached from an empty generator: ids run from 1
/// to the last one handed out, distinct identities have distinct ids, and the
/// identities known are exactly those of the trips resolved.
pub open spec fn fresh_invariant(
    strategy: IdentifyStrategy,
    s: GeneratorState,
    groups: Seq<Seq<StopTimeDetail>>,
) -> bool {
    &&& s.last_id >= 0
    &&& forall|k: Seq<char>|
        #[trigger] s.routes.contains_key(k) ==> 1 <= s.routes[k].id <= s.last_id
    &&& forall|k1: Seq<char>, k2: Seq<char>|
        #[trigger] s.routes.contains_key(k1) && #[trigger] s.routes.contains_key(k2) && k1 != k2
            ==> s.routes[k1].id != s.routes[k2].id
    &&& forall|k: Seq<char>|
        #[trigger] s.routes.contains_key(k) <==> exists|l: int|
            0 <= l < groups.len() && identifier_of(strategy, #[trigger] groups[l]) == k
}

/// A pass from an empty generator keeps `fresh_invariant`.
pub proof fn lemma_fresh_invariant(strategy: IdentifyStrategy, groups: Seq<Seq<StopTimeDetail>>)
    ensures
        ({
            let (s, r) = generate_steps(strategy, initial_state(), groups);
            r is Some ==> fresh_invariant(strategy, s, groups)
        }),
    decreases groups.len(),
{
    if groups.len() > 0 {
        let prev = groups.drop_last();
        lemma_fresh_invariant(strategy, prev);
        let (s1, r1) = generate_steps(strategy, initial_state(), prev);
        if r1 is Some {
            let d = groups.last();
            let (s2, r2) = generate_step(strategy, s1, d);
            if r2 is Some {
                let k = identifier_of(strategy, d);
                if !s1.routes.contains_key(k) {
                    assert forall|x: Seq<char>| #[trigger] s2.routes.contains_key(x) implies 1
                        <= s2.routes[x].id <= s2.last_id by {
                        if x != k {
                            assert(s1.routes.contains_key(x));
                        }
                    }
                    assert forall|k1: Seq<char>, k2: Seq<char>|
                        #[trigger] s2.routes.contains_key(k1) && #[trigger] s2.routes.contains_key(k2)
                            && k1 != k2 implies s2.routes[k1].id != s2.routes[k2].id by {
                        if k1 != k && k2 != k {
                            assert(s1.routes.contains_key(k1) && s1.routes.contains_key(k2));
                        } else if k1 == k {
                            assert(s1.routes.contains_key(k2));
                        } else {
                            assert(s1.routes.contains_key(k1));
                        }
                    }
                }
                assert forall|x: Seq<char>| #[trigger] s2.routes.contains_key(x) <==> exists|l: int|
                    0 <= l < groups.len() && identifier_of(strategy, #[trigger] groups[l]) == x by {
                    if s2.routes.contains_key(x) {
                        if x == k {
                            assert(groups[groups.len() - 1] == d);
                        } else {
                            assert(s1.routes.contains_key(x));
                            let l = choose|l: int|
                                0 <= l < prev.len() && identifier_of(strategy, #[trigger] prev[l]) == x;
                            assert(groups[l] == prev[l]);
                        }
                    }
                    if exists|l: int| 0 <= l < groups.len() && identifier_of(strategy, #[trigger] groups[l]) == x {
                        let l = choose|l: int| 0 <= l < groups.len() && identifier_of(strategy, #[trigger] groups[l]) == x;
                        if l < prev.len() {
                            assert(groups[l] == prev[l]);
                            assert(s1.routes.contains_key(x));
                        }
                    }
                }
            }
        }
    } else {
        assert forall|x: Seq<char>| #[trigger] initial_state().routes.contains_key(x) <==> exists|l: int|
            0 <= l < groups.len() && identifier_of(strategy, #[trigger] groups[l]) == x by {}
    }
}

/// A pass over a prefix of the trips gives the prefix of the results.
pub proof fn lemma_steps_prefix(
    strategy: IdentifyStrategy,
    st: GeneratorState,
    groups: Seq<Seq<StopTimeDetail>>,
    n: int,
)
    requires
        0 <= n <= groups.len(),
        generate_steps(strategy, st, groups).1 is Some,
    ensures
        generate_steps(strategy, st, groups.take(n)).1 == Some(
            generate_steps(strategy, st, groups).1->Some_0.take(n),
        ),
    decreases groups.len(),
{
    lemma_steps_consistent(strategy, st, groups);
    if n == groups.len() {
        assert(groups.take(n) =~= groups);
        assert(generate_steps(strategy, st, groups).1->Some_0.take(n) =~= generate_steps(
            strategy,
            st,
            groups,
        ).1->Some_0);
    } else {
        let prev = groups.drop_last();
        lemma_steps_prefix(strategy, st, prev, n);
        assert(prev.take(n) =~= groups.take(n));
        let ps = generate_steps(strategy, st, groups).1->Some_0;
        let qs = generate_steps(strategy, st, prev).1->Some_0;
        assert(ps =~= qs.push(ps.last()));
        assert(qs.take(n) =~= ps.take(n));
    }
}

/// Without a snapshot, ids are positive, and a trip whose identity was not
/// seen before gets an id larger than that of every trip before it.
pub proof fn lemma_fresh_ids_increase(
    strategy: IdentifyStrategy,
    groups: Seq<Seq<StopTimeDetail>>,
    i: int,
    j: int,
)
    requires
        generate_steps(strategy, initial_state(), groups).1 is Some,
        0 <= i < j < groups.len(),
        forall|l: int|
            0 <= l < j ==> identifier_of(strategy, #[trigger] groups[l]) != identifier_of(
                strategy,
                groups[j],
            ),
    ensures
        ({
            let ps = generate_steps(strategy, initial_state(), groups).1->Some_0;
            1 <= ps[i].id < ps[j].id
        }),
{
    let ps = generate_steps(strategy, initial_state(), groups).1->Some_0;
    lemma_steps_consistent(strategy, initial_state(), groups);
    let before = groups.take(j);
    let upto = groups.take(j + 1);
    lemma_steps_prefix(strategy, initial_state(), groups, j);
    lemma_steps_prefix(strategy, initial_state(), groups, j + 1);
    lemma_steps_consistent(strategy, initial_state(), before);
    lemma_steps_consistent(strategy, initial_state(), upto);
    lemma_fresh_invariant(strategy, before);
    let (s1, r1) = generate_steps(strategy, initial_state(), before);
    assert(upto.drop_last() =~= before);
    assert(upto.last() == groups[j]);
    let k = identifier_of(strategy, groups[j]);
    assert(!s1.routes.contains_key(k)) by {
        if s1.routes.contains_key(k) {
            let l = choose|l: int| 0 <= l < before.len() && identifier_of(strategy, #[trigger] before[l]) == k;
            assert(before[l] == groups[l]);
        }
    }
    assert(before[i] == groups[i]);
    assert(ps.take(j)[i] == ps[i]);
    assert(ps.take(j + 1)[j] == ps[j]);
}

/// Without a snapshot, trips with different stop ids, resolved by stop ids,
/// get different ids, provided no stop id holds a `,`.
pub proof fn lemma_different_stop_ids_different_ids(
    groups: Seq<Seq<StopTimeDetail>>,
    i: int,
    j: int,
)
    requires
        generate_steps(IdentifyStrategy::StopIds, initial_state(), groups).1 is Some,
        0 <= i < groups.len(),
        0 <= j < groups.len(),
        comma_free(stop_ids_of(groups[i])),
        comma_free(stop_ids_of(groups[j])),
        stop_ids_of(groups[i]) != stop_ids_of(groups[j]),
    ensures
        ({
            let ps = generate_steps(IdentifyStrategy::StopIds, initial_state(), groups).1->Some_0;
            ps[i].id != ps[j].id
        }),
{
    let strategy = IdentifyStrategy::StopIds;
    lemma_steps_consistent(strategy, initial_state(), groups);
    lemma_fresh_invariant(strategy, groups);
    let ki = identifier_of(strategy, groups[i]);
    let kj = identifier_of(strategy, groups[j]);
    if ki == kj {
        lemma_join_injective(stop_ids_of(groups[i]), stop_ids_of(groups[j]));
    }
}

/// A row of a snapshot is stored under its identity; whatever is stored under
/// an identity comes from a row with that identity.
proof fn lemma_seeded(strategy: IdentifyStrategy, rows: Seq<ServiceRouteIdentity>, k: Seq<char>)
    ensures
        (exists|r: int| 0 <= r < rows.len() && snapshot_identifier(strategy, #[trigger] rows[r]) == k)
            ==> seeded_routes(strategy, rows).contains_key(k),
        seeded_routes(strategy, rows).contains_key(k) ==> exists|r: int|
            0 <= r < rows.len() && snapshot_identifier(strategy, #[trigger] rows[r]) == k
                && seeded_routes(strategy, rows)[k] == identity_view(rows[r]),
    decreases rows.len(),
{
    if rows.len() > 0 {
        let prev = rows.drop_last();
        lemma_seeded(strategy, prev, k);
        if exists|r: int| 0 <= r < rows.len() && snapshot_identifier(strategy, #[trigger] rows[r]) == k {
            let r = choose|r: int| 0 <= r < rows.len() && snapshot_identifier(strategy, #[trigger] rows[r]) == k;
            if r < prev.len() {
                assert(prev[r] == rows[r]);
            }
        }
        if seeded_routes(strategy, rows).contains_key(k) {
            if snapshot_identifier(strategy, rows.last()) == k {
                assert(rows[rows.len() - 1] == rows.last());
            } else {
                let r = choose|r: int|
                    0 <= r < prev.len() && snapshot_identifier(strategy, #[trigger] prev[r]) == k
                        && seeded_routes(strategy, prev)[k] == identity_view(prev[r]);
                assert(prev[r] == rows[r]);
            }
        }
    }
}

/// A pass over trips whose identities are all known changes nothing and
/// returns the stored service routes.
proof fn lemma_steps_all_known(
    strategy: IdentifyStrategy,
    st: GeneratorState,
    groups: Seq<Seq<StopTimeDetail>>,
)
    requires
        forall|i: int|
            0 <= i < groups.len() ==> (#[trigger] groups[i]).len() > 0 && st.routes.contains_key(
                identifier_of(strategy, groups[i]),
            ),
    ensures
        generate_steps(strategy, st, groups).0 == st,
        generate_steps(strategy, st, groups).1 is Some,
    decreases groups.len(),
{
    if groups.len() > 0 {
        let prev = groups.drop_last();
        assert forall|i: int| 0 <= i < prev.len() implies (#[trigger] prev[i]).len() > 0
            && st.routes.contains_key(identifier_of(strategy, prev[i])) by {
            assert(prev[i] == groups[i]);
        }
        lemma_steps_all_known(strategy, st, prev);
        assert(groups[groups.len() - 1] == groups.last());
    }
}

/// Stability across runs: export a snapshot of a pass, bootstrap a new
/// generator from it, and run the same trips again: the second pass changes
/// nothing and resolves every trip to the same service route, with the same
/// id, as the first.
pub proof fn lemma_snapshot_round_trip(
    strategy: IdentifyStrategy,
    st: GeneratorState,
    groups: Seq<Seq<StopTimeDetail>>,
    rows: Seq<ServiceRouteIdentity>,
)
    requires
        generate_steps(strategy, st, groups).1 is Some,
        exported_from(rows, groups, generate_steps(strategy, st, groups).1->Some_0),
    ensures
        generate_steps(strategy, bootstrap_state(strategy, rows), groups) == (
            bootstrap_state(strategy, rows),
            generate_steps(strategy, st, groups).1,
        ),
{
    let (s, r) = generate_steps(strategy, st, groups);
    let ps = r->Some_0;
    let b = bootstrap_state(strategy, rows);
    lemma_steps_consistent(strategy, st, groups);
    assert forall|i: int| 0 <= i < groups.len() implies (#[trigger] groups[i]).len() > 0
        && b.routes.contains_key(identifier_of(strategy, groups[i]))
        && b.routes[identifier_of(strategy, groups[i])] == ps[i] by {
        let k = identifier_of(strategy, groups[i]);
        assert(has_row(rows, groups[i], ps[i]));
        let r0 = choose|r0: int| 0 <= r0 < rows.len() && #[trigger] row_records(rows[r0], groups[i], ps[i]);
        assert(snapshot_identifier(strategy, rows[r0]) == k);
        lemma_seeded(strategy, rows, k);
        let r1 = choose|r1: int|
            0 <= r1 < rows.len() && snapshot_identifier(strategy, #[trigger] rows[r1]) == k
                && seeded_routes(strategy, rows)[k] == identity_view(rows[r1]);
        assert(records_some_trip(rows[r1], groups, ps));
        let l = choose|l: int| 0 <= l < groups.len() && #[trigger] row_records(rows[r1], groups[l], ps[l]);
        assert(identifier_of(strategy, groups[l]) == k);
    }
    lemma_steps_all_known(strategy, b, groups);
    lemma_steps_consistent(strategy, b, groups);
    let qs = generate_steps(strategy, b, groups).1->Some_0;
    assert forall|i: int| 0 <= i < qs.len() implies qs[i] == ps[i] by {
        assert(groups[i].len() > 0);
    }
    assert(qs =~= ps);
}

} // verus!
