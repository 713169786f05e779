//! What holds of the contract as a whole, proved over its model: the
//! invariant of its states, the owner guard, and what sequences of
//! operations lead to.

use vstd::prelude::*;
use crate::aux_map::{
    bulk_keyed, distinct_keys, keys, latest_at, law_bloat_grows, law_upsert_sequence, upsert_each,
    Entries, BLOAT_COUNT,
};
use crate::error::StoreError;
use crate::model::{outcome, ContractView};
use crate::schema::Version1View;

verus! {

/// Construction establishes the invariant, and every operation keeps it,
/// whoever calls and whatever the arguments are.
pub proof fn law_invariant_kept(
    c: ContractView,
    caller: Seq<char>,
    a: Seq<char>,
    b: Seq<char>,
    d: Seq<char>,
)
    requires
        c.wf(),
    ensures
        ContractView::init(a, b).wf(),
        c.after_set_name(caller, a).wf(),
        c.after_add_to_map(caller, a, b).wf(),
        c.after_bloat_map(caller).wf(),
        c.after_add_v2_with_color(caller, a).wf(),
        c.after_set_favorite_color(caller, a).wf(),
        c.after_set_favorite_musician(caller, a).wf(),
        c.after_set_all(caller, a, b, d).wf(),
        c.after_add_v3_and_migrate(caller).wf(),
        c.after_remove_v1(caller).wf(),
{
}

/// Only the removal makes a store shorter, and by one record: every other
/// operation leaves at least as many records as were there.
pub proof fn law_only_removal_shrinks(
    c: ContractView,
    caller: Seq<char>,
    a: Seq<char>,
    b: Seq<char>,
    d: Seq<char>,
)
    ensures
        ContractView::init(a, b).versions.len() == 1,
        c.after_set_name(caller, a).versions.len() == c.versions.len(),
        c.after_add_to_map(caller, a, b).versions.len() == c.versions.len(),
        c.after_bloat_map(caller).versions.len() == c.versions.len(),
        c.after_add_v2_with_color(caller, a).versions.len() >= c.versions.len(),
        c.after_set_favorite_color(caller, a).versions.len() == c.versions.len(),
        c.after_set_favorite_musician(caller, a).versions.len() == c.versions.len(),
        c.after_set_all(caller, a, b, d).versions.len() == c.versions.len(),
        c.after_add_v3_and_migrate(caller).versions.len() >= c.versions.len(),
        c.remove_check(caller) is Ok ==> c.after_remove_v1(caller).versions.len()
            == c.versions.len() - 1,
{
}

/// Only the owner succeeds at a mutating operation: for any other caller
/// each of them signals `Unauthorized` and leaves the state as it was.
pub proof fn law_owner_only(
    c: ContractView,
    caller: Seq<char>,
    a: Seq<char>,
    b: Seq<char>,
    d: Seq<char>,
)
    requires
        caller != c.owner,
    ensures
        outcome(c.write_v1(caller)) == Err::<(), StoreError>(StoreError::Unauthorized),
        outcome(c.write_v2(caller)) == Err::<(), StoreError>(StoreError::Unauthorized),
        outcome(c.write_all(caller)) == Err::<(), StoreError>(StoreError::Unauthorized),
        c.guard(caller) == Err::<(), StoreError>(StoreError::Unauthorized),
        c.remove_check(caller) == Err::<(), StoreError>(StoreError::Unauthorized),
        c.after_set_name(caller, a) == c,
        c.after_add_to_map(caller, a, b) == c,
        c.after_bloat_map(caller) == c,
        c.after_add_v2_with_color(caller, a) == c,
        c.after_set_favorite_color(caller, a) == c,
        c.after_set_favorite_musician(caller, a) == c,
        c.after_set_all(caller, a, b, d) == c,
        c.after_add_v3_and_migrate(caller) == c,
        c.after_remove_v1(caller) == c,
{
}

/// An operation that fails changes nothing, whatever the failure is.
pub proof fn law_failure_changes_nothing(
    c: ContractView,
    caller: Seq<char>,
    a: Seq<char>,
    b: Seq<char>,
    d: Seq<char>,
)
    ensures
        c.write_v1(caller) is Err ==> c.after_set_name(caller, a) == c && c.after_add_to_map(
            caller,
            a,
            b,
        ) == c && c.after_bloat_map(caller) == c && c.after_add_v3_and_migrate(caller) == c,
        c.write_v2(caller) is Err ==> c.after_set_favorite_color(caller, a) == c
            && c.after_set_favorite_musician(caller, a) == c,
        c.write_all(caller) is Err ==> c.after_set_all(caller, a, b, d) == c,
        c.guard(caller) is Err ==> c.after_add_v2_with_color(caller, a) == c,
        c.remove_check(caller) is Err ==> c.after_remove_v1(caller) == c,
{
}

/// `set_name` is idempotent: a second call with the same name changes
/// nothing, and after a call that succeeded the name is the one given.
pub proof fn law_set_name_idempotent(c: ContractView, caller: Seq<char>, name: Seq<char>)
    ensures
        c.after_set_name(caller, name).after_set_name(caller, name) == c.after_set_name(
            caller,
            name,
        ),
        c.write_v1(caller) is Ok ==> c.after_set_name(caller, name).name() == Ok::<
            Seq<char>,
            StoreError,
        >(name),
        c.write_v1(caller) is Ok ==> c.after_set_name(caller, name).write_v1(caller) is Ok,
{
    let once = c.after_set_name(caller, name);
    let twice = once.after_set_name(caller, name);
    assert(twice.versions =~= once.versions);
}

/// `set_all` writes what the three setters write one after the other,
/// wherever all three succeed.
pub proof fn law_set_all_is_the_three_setters(
    c: ContractView,
    caller: Seq<char>,
    name: Seq<char>,
    color: Seq<char>,
    musician: Seq<char>,
)
    requires
        c.write_all(caller) is Ok,
    ensures
        c.after_set_all(caller, name, color, musician) == c.after_set_name(
            caller,
            name,
        ).after_set_favorite_color(caller, color).after_set_favorite_musician(caller, musician),
        c.after_set_all(caller, name, color, musician).all_values() == Ok::<_, StoreError>(
            crate::schema::AllValuesView {
                name,
                favorite_color: color,
                favorite_musician: musician,
            },
        ),
{
    let staged = c.after_set_all(caller, name, color, musician);
    let chained = c.after_set_name(caller, name).after_set_favorite_color(
        caller,
        color,
    ).after_set_favorite_musician(caller, musician);
    assert(staged.versions =~= chained.versions);
}

/// A migration appends and moves nothing: a slot that was there holds what
/// it held, so an accessor whose slot was there reads what it read. A
/// migration that runs again adds a record that no accessor looks at.
pub proof fn law_migrations_keep_slots(c: ContractView, caller: Seq<char>, color: Seq<char>)
    ensures
        forall|k: int|
            0 <= k < c.versions.len() ==> #[trigger] c.after_add_v2_with_color(
                caller,
                color,
            ).versions[k] == c.versions[k],
        forall|k: int|
            0 <= k < c.versions.len() ==> #[trigger] c.after_add_v3_and_migrate(caller).versions[k]
                == c.versions[k],
        c.v1() is Ok ==> c.after_add_v2_with_color(caller, color).v1() == c.v1()
            && c.after_add_v3_and_migrate(caller).v1() == c.v1(),
        c.versions.len() >= 2 ==> c.after_add_v2_with_color(caller, color).v2() == c.v2()
            && c.after_add_v3_and_migrate(caller).v2() == c.v2(),
        c.versions.len() >= 3 ==> c.after_add_v2_with_color(caller, color).v3() == c.v3()
            && c.after_add_v3_and_migrate(caller).v3() == c.v3(),
{
}

/// The state after the owner upserted every pair of `ops` in turn.
pub open spec fn after_entries(c: ContractView, ops: Entries) -> ContractView
    decreases ops.len(),
{
    if ops.len() == 0 {
        c
    } else {
        after_entries(c, ops.drop_last()).after_add_to_map(c.owner, ops.last().0, ops.last().1)
    }
}

/// Upserts by the owner change the map of the first generation and nothing
/// else: after the pairs of `ops`, the map is the old one with each pair
/// upserted in turn.
pub proof fn lemma_after_entries(c: ContractView, ops: Entries)
    requires
        c.v1() is Ok,
    ensures
        after_entries(c, ops) == c.with_v1(
            Version1View { map: upsert_each(c.v1()->Ok_0.map, ops), ..c.v1()->Ok_0 },
        ),
    decreases ops.len(),
{
    let v1 = c.v1()->Ok_0;
    if ops.len() == 0 {
        assert(c.with_v1(v1).versions =~= c.versions);
    } else {
        lemma_after_entries(c, ops.drop_last());
        let before = after_entries(c, ops.drop_last());
        let after = after_entries(c, ops);
        assert(after.versions =~= c.with_v1(
            Version1View { map: upsert_each(v1.map, ops), ..v1 },
        ).versions);
    }
}

/// After construction and any sequence of upserts by the owner, the map
/// holds exactly the pairs that are the last of their key, no key twice,
/// and its length is the number of distinct keys of the sequence.
pub proof fn law_map_after_entries(owner: Seq<char>, name: Seq<char>, ops: Entries)
    ensures
        ({
            let c = after_entries(ContractView::init(owner, name), ops);
            &&& c.v1() is Ok
            &&& c.name() == Ok::<Seq<char>, StoreError>(name)
            &&& distinct_keys(c.v1()->Ok_0.map)
            &&& forall|p: (Seq<char>, Seq<char>)|
                #[trigger] c.v1()->Ok_0.map.contains(p) <==> exists|i: int|
                    #[trigger] latest_at(ops, i) && ops[i] == p
            &&& c.map_len() == Ok::<nat, StoreError>(keys(ops).to_set().len())
        }),
{
    lemma_after_entries(ContractView::init(owner, name), ops);
    law_upsert_sequence(ops);
}

/// A bulk load by the owner on a map that only bulk loads have filled adds
/// `BLOAT_COUNT` entries, none of which meets a key that is there.
pub proof fn law_bloat_map_grows(c: ContractView)
    requires
        c.v1() is Ok,
        bulk_keyed(c.v1()->Ok_0.map),
    ensures
        ({
            let after = c.after_bloat_map(c.owner);
            &&& after.v1() is Ok
            &&& after.map_len() == Ok::<nat, StoreError>(c.v1()->Ok_0.map.len() + BLOAT_COUNT as nat)
            &&& bulk_keyed(after.v1()->Ok_0.map)
            &&& distinct_keys(after.v1()->Ok_0.map)
        }),
{
    law_bloat_grows(c.v1()->Ok_0.map, BLOAT_COUNT as nat);
}

/// From construction, one bulk load by the owner gives `BLOAT_COUNT`
/// entries and a second one twice as many, with no key twice.
pub proof fn law_bloat_map_twice(owner: Seq<char>, name: Seq<char>)
    ensures
        ({
            let once = ContractView::init(owner, name).after_bloat_map(owner);
            let twice = once.after_bloat_map(owner);
            &&& once.map_len() == Ok::<nat, StoreError>(BLOAT_COUNT as nat)
            &&& twice.map_len() == Ok::<nat, StoreError>(2 * BLOAT_COUNT as nat)
            &&& distinct_keys(twice.v1()->Ok_0.map)
        }),
{
    let c = ContractView::init(owner, name);
    law_bloat_map_grows(c);
    law_bloat_map_grows(c.after_bloat_map(owner));
}

/// After a removal that succeeded, slot 0 holds the record that was last,
/// which is of a later generation: every accessor of the first generation
/// signals `VersionMismatch`, for the owner too.
pub proof fn law_removal_breaks_v1_accessors(c: ContractView)
    requires
        c.wf(),
        c.remove_check(c.owner) is Ok,
    ensures
        ({
            let after = c.after_remove_v1(c.owner);
            &&& after.versions[0] == c.versions.last()
            &&& after.v1() == Err::<Version1View, StoreError>(StoreError::VersionMismatch)
            &&& after.name() == Err::<Seq<char>, StoreError>(StoreError::VersionMismatch)
            &&& after.map_len() == Err::<nat, StoreError>(StoreError::VersionMismatch)
            &&& after.write_v1(c.owner) == Err::<Version1View, StoreError>(
                StoreError::VersionMismatch,
            )
            &&& outcome(after.write_all(c.owner)) == Err::<(), StoreError>(
                StoreError::VersionMismatch,
            )
            &&& after.all_values() is Err && after.all_values()->Err_0
                == StoreError::VersionMismatch
        }),
{
    let after = c.after_remove_v1(c.owner);
    assert(!(c.versions[c.versions.len() - 1] is V1));
}

/// A store is never left empty, and its current slot always exists: in
/// every state that construction and the operations reach, the current
/// generation is reported, and the removal is refused exactly for a caller
/// other than the owner and for a store of one record.
pub proof fn law_never_empty(c: ContractView, caller: Seq<char>)
    requires
        c.wf(),
    ensures
        c.versions.len() >= 1,
        c.current_version() is Ok,
        c.after_remove_v1(caller).versions.len() >= 1,
        c.after_remove_v1(caller).current_version() is Ok,
        c.remove_check(caller) is Ok <==> caller == c.owner && c.versions.len() >= 2,
        caller == c.owner && c.versions.len() == 1 ==> c.remove_check(caller) == Err::<
            (),
            StoreError,
        >(StoreError::IndexOutOfRange) && c.after_remove_v1(caller) == c,
{
}

/// A log line is owed for exactly the slots that the store has.
pub proof fn law_log_record_range(c: ContractView, index: nat)
    ensures
        index >= c.versions.len() ==> c.log_record(index) == Err::<Seq<char>, StoreError>(
            StoreError::IndexOutOfRange,
        ),
        index < c.versions.len() ==> c.log_record(index) is Ok,
{
}

} // verus!
