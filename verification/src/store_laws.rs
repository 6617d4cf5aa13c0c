//! What holds of every store, whatever writes it has seen.

use vstd::prelude::*;
use crate::model::{fresh_action, record_for, HitLimitRecordView, LimitHitView, Text};
use crate::store::{mark_one, settled, StoreView};

verus! {

/// Registering a guild makes it known, forgets no guild, touches no other
/// table, and is idempotent: a second registration changes nothing.
pub proof fn registering_is_idempotent(store: StoreView, guild_id: u64)
    ensures
        store.with_guild(guild_id).has_guild(guild_id),
        forall|other: u64| store.has_guild(other) ==> store.with_guild(guild_id).has_guild(other),
        store.with_guild(guild_id).actions == store.actions,
        store.with_guild(guild_id).hits == store.hits,
        store.with_guild(guild_id).with_guild(guild_id) == store.with_guild(guild_id),
        store.has_guild(guild_id) ==> store.with_guild(guild_id) == store,
{
    let after = store.with_guild(guild_id);
    if !store.has_guild(guild_id) {
        assert(after.guilds[store.guilds.len() as int] == guild_id);
        assert forall|other: u64| store.has_guild(other) implies after.has_guild(other) by {
            let i = choose|i: int| 0 <= i < store.guilds.len() && store.guilds[i] == other;
            assert(after.guilds[i] == other);
        }
    }
}

/// Registering a guild keeps the store's constraints and its audit trail.
pub proof fn registering_keeps_constraints(store: StoreView, guild_id: u64)
    ensures
        store.wf() ==> store.with_guild(guild_id).wf(),
        store.audited() ==> store.with_guild(guild_id).audited(),
{
    registering_is_idempotent(store, guild_id);
}

/// An action is stored only for a guild that is registered at that moment,
/// and under an identifier that no stored action bears: such a write keeps
/// the store's constraints.
pub proof fn recording_keeps_constraints(
    store: StoreView,
    action_id: Text,
    guild_id: u64,
    user_id: u64,
    limit_type: Text,
    action_target: Text,
)
    requires
        store.wf(),
        store.has_guild(guild_id),
        !store.has_action(action_id),
    ensures
        store.with_action(
            fresh_action(action_id, guild_id, user_id, limit_type, action_target),
        ).wf(),
{
}

/// Storing a new action keeps the audit trail, provided no stored record
/// already cites the new identifier.
pub proof fn recording_keeps_audit(
    store: StoreView,
    action_id: Text,
    guild_id: u64,
    user_id: u64,
    limit_type: Text,
    action_target: Text,
)
    requires
        store.audited(),
        !store.cites(action_id),
    ensures
        store.with_action(
            fresh_action(action_id, guild_id, user_id, limit_type, action_target),
        ).audited(),
{
}

/// A mark only adds: whatever limit had consumed an action before still
/// has, and nothing but the list of limits changes.
pub proof fn marking_only_adds(store: StoreView, action_id: Text, limit_id: Text)
    ensures
        store.marked(action_id, limit_id).guilds == store.guilds,
        store.marked(action_id, limit_id).hits == store.hits,
        store.marked(action_id, limit_id).actions.len() == store.actions.len(),
        forall|i: int|
            #![trigger store.marked(action_id, limit_id).actions[i]]
            0 <= i < store.actions.len() ==> {
                let before = store.actions[i];
                let after = store.marked(action_id, limit_id).actions[i];
                &&& after.action_id == before.action_id
                &&& after.guild_id == before.guild_id
                &&& after.user_id == before.user_id
                &&& after.limit_type == before.limit_type
                &&& after.action_target == before.action_target
                &&& before.handled_for.is_prefix_of(after.handled_for)
                &&& forall|limit: Text|
                    before.handled_for.contains(limit) ==> after.handled_for.contains(limit)
                &&& before.action_id == action_id ==> after.handled_for.contains(limit_id)
            },
{
    let marked = store.marked(action_id, limit_id);
    assert forall|i: int| 0 <= i < store.actions.len() implies {
        let before = store.actions[i];
        let after = #[trigger] marked.actions[i];
        &&& before.handled_for.is_prefix_of(after.handled_for)
        &&& forall|limit: Text|
            before.handled_for.contains(limit) ==> after.handled_for.contains(limit)
        &&& before.action_id == action_id ==> after.handled_for.contains(limit_id)
    } by {
        let before = store.actions[i];
        let after = marked.actions[i];
        if before.action_id == action_id && !before.handled_for.contains(limit_id) {
            assert(after.handled_for[before.handled_for.len() as int] == limit_id);
            assert forall|limit: Text| before.handled_for.contains(limit) implies after.handled_for.contains(
                limit,
            ) by {
                let k = choose|k: int| 0 <= k < before.handled_for.len() && before.handled_for[k] == limit;
                assert(after.handled_for[k] == limit);
            }
        }
    }
}

/// Marking is idempotent: entering the same limit on the same action twice
/// leaves a single entry.
pub proof fn marking_is_idempotent(store: StoreView, action_id: Text, limit_id: Text)
    ensures
        store.marked(action_id, limit_id).marked(action_id, limit_id) == store.marked(
            action_id,
            limit_id,
        ),
{
    let once = store.marked(action_id, limit_id);
    let twice = once.marked(action_id, limit_id);
    marking_only_adds(store, action_id, limit_id);
    assert(twice.actions =~= once.actions);
}

/// A mark keeps the store's constraints and its audit trail.
pub proof fn marking_keeps_constraints(store: StoreView, action_id: Text, limit_id: Text)
    ensures
        store.wf() ==> store.marked(action_id, limit_id).wf(),
        store.audited() ==> store.marked(action_id, limit_id).audited(),
{
    let after = store.marked(action_id, limit_id);
    marking_only_adds(store, action_id, limit_id);
    if store.wf() {
        assert forall|i: int| 0 <= i < after.actions.len() implies (
        #[trigger] after.actions[i]).handled_for.no_duplicates() by {
        }
    }
    if store.audited() {
        assert forall|a: int, h: int|
            0 <= a < after.actions.len() && 0 <= h < after.hits.len() implies #[trigger] settled(
            after.actions[a],
            after.hits[h],
        ) by {
            assert(settled(store.actions[a], store.hits[h]));
        }
    }
}

/// Marking a run of actions changes neither the guilds nor the records,
/// keeps the constraints and the audit trail, and leaves the limit on every
/// stored action that the run names.
pub proof fn marking_all_settles(store: StoreView, action_ids: Seq<Text>, limit_id: Text, n: nat)
    requires
        n <= action_ids.len(),
    ensures
        store.marked_all(action_ids, limit_id, n).guilds == store.guilds,
        store.marked_all(action_ids, limit_id, n).hits == store.hits,
        store.marked_all(action_ids, limit_id, n).actions.len() == store.actions.len(),
        store.wf() ==> store.marked_all(action_ids, limit_id, n).wf(),
        store.audited() ==> store.marked_all(action_ids, limit_id, n).audited(),
        forall|a: int, k: int|
            #![trigger store.marked_all(action_ids, limit_id, n).actions[a], action_ids[k]]
            0 <= a < store.actions.len() && 0 <= k < n && store.actions[a].action_id
                == action_ids[k] ==> store.marked_all(action_ids, limit_id, n).actions[a].handled_for.contains(
                limit_id,
            ),
        forall|a: int|
            #![trigger store.marked_all(action_ids, limit_id, n).actions[a]]
            0 <= a < store.actions.len() ==> {
                &&& store.marked_all(action_ids, limit_id, n).actions[a].action_id
                    == store.actions[a].action_id
                &&& forall|limit: Text|
                    store.actions[a].handled_for.contains(limit) ==> store.marked_all(
                        action_ids,
                        limit_id,
                        n,
                    ).actions[a].handled_for.contains(limit)
            },
    decreases n,
{
    if n > 0 {
        let earlier = store.marked_all(action_ids, limit_id, (n - 1) as nat);
        let after = store.marked_all(action_ids, limit_id, n);
        marking_all_settles(store, action_ids, limit_id, (n - 1) as nat);
        marking_only_adds(earlier, action_ids[n - 1], limit_id);
        marking_keeps_constraints(earlier, action_ids[n - 1], limit_id);
        assert forall|a: int| 0 <= a < store.actions.len() implies {
            &&& (#[trigger] after.actions[a]).action_id == store.actions[a].action_id
            &&& forall|limit: Text|
                store.actions[a].handled_for.contains(limit) ==> after.actions[a].handled_for.contains(
                    limit,
                )
        } by {
        }
    }
}

/// Storing a record under an unused identifier keeps the store's
/// constraints.
pub proof fn filing_keeps_constraints(store: StoreView, record: HitLimitRecordView)
    requires
        store.wf(),
        !store.has_hit(record.id),
    ensures
        store.with_hit(record).wf(),
{
}

/// The store after one hit was audited under a fresh record identifier.
pub open spec fn audited_hit(
    store: StoreView,
    hit: LimitHitView,
    guild_id: u64,
    user_id: u64,
    id: Text,
) -> StoreView {
    store.marked_all(hit.cause_ids(), hit.limit.limit_id, hit.cause.len()).with_hit(
        record_for(id, guild_id, user_id, hit),
    )
}

/// Auditing a hit leaves the hit's limit on every stored action that the
/// new record cites, whatever the store held before; it keeps the audit
/// trail of the earlier records, and, under an unused record identifier, the
/// store's constraints.
pub proof fn audit_settles_every_cause(
    store: StoreView,
    hit: LimitHitView,
    guild_id: u64,
    user_id: u64,
    id: Text,
)
    ensures
        ({
            let after = audited_hit(store, hit, guild_id, user_id, id);
            let record = record_for(id, guild_id, user_id, hit);
            &&& after.hits == store.hits.push(record)
            &&& after.actions.len() == store.actions.len()
            &&& forall|a: int| 0 <= a < after.actions.len() ==> settled(#[trigger] after.actions[a], record)
            &&& store.audited() ==> after.audited()
            &&& store.wf() && !store.has_hit(id) ==> after.wf()
        }),
{
    let ids = hit.cause_ids();
    let limit_id = hit.limit.limit_id;
    let marked = store.marked_all(ids, limit_id, hit.cause.len());
    let record = record_for(id, guild_id, user_id, hit);
    let after = marked.with_hit(record);
    marking_all_settles(store, ids, limit_id, hit.cause.len());
    assert forall|a: int| 0 <= a < after.actions.len() implies settled(
        #[trigger] after.actions[a],
        record,
    ) by {
    }
    if store.wf() && !store.has_hit(id) {
        assert(after.guilds_known()) by {
        }
        assert(after.marks_distinct()) by {
        }
    }
}

} // verus!
