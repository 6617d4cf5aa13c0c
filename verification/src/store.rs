//! A model of the persistent store, held in memory: the three tables, the
//! constraints they keep, and the writes that the pipeline asks for.

use vstd::prelude::*;
use crate::model::{
    audit_record, copy_record, fresh_action, new_action, record_for, views_of, HitLimitRecord,
    HitLimitRecordView, LimitHit, Text, UserAction, UserActionView,
};
use crate::pipeline::{Command, CommandView, Reply, ReplyView};
use crate::store_laws::{
    audit_settles_every_cause, filing_keeps_constraints, marking_all_settles,
    marking_keeps_constraints, recording_keeps_constraints, registering_is_idempotent,
    registering_keeps_constraints,
};

verus! {

/// Why the store refused a write.
#[derive(Clone, Copy, Debug, PartialEq, Eq, Structural)]
pub enum StoreError {
    /// The action names a guild that is not registered.
    UnknownGuild,
    /// The identifier is already taken in its table.
    DuplicateId,
}

/// The three tables, rows in insertion order.
pub struct Store {
    guilds: Vec<u64>,
    actions: Vec<UserAction>,
    hits: Vec<HitLimitRecord>,
}

pub struct StoreView {
    pub guilds: Seq<u64>,
    pub actions: Seq<UserActionView>,
    pub hits: Seq<HitLimitRecordView>,
}

/// The action after `limit_id` consumed it, if it is the one named by
/// `action_id`; a limit is entered at most once.
pub open spec fn mark_one(action: UserActionView, action_id: Text, limit_id: Text)
    -> UserActionView {
    if action.action_id == action_id && !action.handled_for.contains(limit_id) {
        UserActionView { handled_for: action.handled_for.push(limit_id), ..action }
    } else {
        action
    }
}

/// Whether `action` bears the mark that `record` owes it: an action cited as
/// a cause has the record's limit among those that consumed it.
pub open spec fn settled(action: UserActionView, record: HitLimitRecordView) -> bool {
    record.cause.contains(action.action_id) ==> action.handled_for.contains(record.limit_id)
}

impl StoreView {
    pub open spec fn has_guild(self, guild_id: u64) -> bool {
        self.guilds.contains(guild_id)
    }

    pub open spec fn has_action(self, action_id: Text) -> bool {
        exists|i: int| 0 <= i < self.actions.len() && (#[trigger] self.actions[i]).action_id == action_id
    }

    pub open spec fn has_hit(self, id: Text) -> bool {
        exists|i: int| 0 <= i < self.hits.len() && (#[trigger] self.hits[i]).id == id
    }

    /// No identifier occurs twice in its table.
    pub open spec fn ids_unique(self) -> bool {
        &&& self.guilds.no_duplicates()
        &&& forall|i: int, j: int|
            0 <= i < j < self.actions.len() ==> (#[trigger] self.actions[i]).action_id != (
            #[trigger] self.actions[j]).action_id
        &&& forall|i: int, j: int|
            0 <= i < j < self.hits.len() ==> (#[trigger] self.hits[i]).id != (
            #[trigger] self.hits[j]).id
    }

    /// Every stored action belongs to a registered guild.
    pub open spec fn guilds_known(self) -> bool {
        forall|i: int|
            0 <= i < self.actions.len() ==> self.has_guild((#[trigger] self.actions[i]).guild_id)
    }

    /// No action lists a limit twice.
    pub open spec fn marks_distinct(self) -> bool {
        forall|i: int|
            0 <= i < self.actions.len() ==> (#[trigger] self.actions[i]).handled_for.no_duplicates()
    }

    /// Whether some stored record cites `action_id` as a cause.
    pub open spec fn cites(self, action_id: Text) -> bool {
        exists|h: int| 0 <= h < self.hits.len() && (#[trigger] self.hits[h]).cause.contains(action_id)
    }

    /// The constraints that every write keeps.
    pub open spec fn wf(self) -> bool {
        &&& self.ids_unique()
        &&& self.guilds_known()
        &&& self.marks_distinct()
    }

    /// Every stored action that a stored record cites bears that record's
    /// limit.
    pub open spec fn audited(self) -> bool {
        forall|a: int, h: int|
            0 <= a < self.actions.len() && 0 <= h < self.hits.len() ==> #[trigger] settled(
                self.actions[a],
                self.hits[h],
            )
    }

    /// The store with `guild_id` registered.
    pub open spec fn with_guild(self, guild_id: u64) -> StoreView {
        if self.has_guild(guild_id) {
            self
        } else {
            StoreView { guilds: self.guilds.push(guild_id), ..self }
        }
    }

    /// The store with one more action row.
    pub open spec fn with_action(self, action: UserActionView) -> StoreView {
        StoreView { actions: self.actions.push(action), ..self }
    }

    /// The store after `limit_id` consumed the action named `action_id`.
    pub open spec fn marked(self, action_id: Text, limit_id: Text) -> StoreView {
        StoreView {
            actions: Seq::new(
                self.actions.len(),
                |i: int| mark_one(self.actions[i], action_id, limit_id),
            ),
            ..self
        }
    }

    /// The store after `limit_id` consumed the first `n` of the actions
    /// named in `action_ids`, in order.
    pub open spec fn marked_all(self, action_ids: Seq<Text>, limit_id: Text, n: nat) -> StoreView
        decreases n,
    {
        if n == 0 {
            self
        } else {
            self.marked_all(action_ids, limit_id, (n - 1) as nat).marked(
                action_ids[n - 1],
                limit_id,
            )
        }
    }

    /// The store with one more audit record.
    pub open spec fn with_hit(self, record: HitLimitRecordView) -> StoreView {
        StoreView { hits: self.hits.push(record), ..self }
    }

    /// The store after a command of the pipeline was performed on it, and
    /// the answer that it gives. A command that is not for the store leaves
    /// it as it is and gets no answer.
    pub open spec fn perform(self, command: CommandView) -> (StoreView, Option<ReplyView>) {
        match command {
            CommandView::EnsureGuild { guild_id } => (
                self.with_guild(guild_id),
                Some(ReplyView::Done),
            ),
            CommandView::InsertAction {
                action_id,
                guild_id,
                user_id,
                limit_type,
                action_target,
            } => if self.has_guild(guild_id) && !self.has_action(action_id) {
                (
                    self.with_action(
                        fresh_action(action_id, guild_id, user_id, limit_type, action_target),
                    ),
                    Some(ReplyView::Done),
                )
            } else {
                (self, Some(ReplyView::Failed))
            },
            CommandView::MarkHandled { action_id, limit_id } => (
                self.marked(action_id, limit_id),
                Some(ReplyView::Done),
            ),
            CommandView::InsertHit { record } => if !self.has_hit(record.id) {
                (self.with_hit(record), Some(ReplyView::Done))
            } else {
                (self, Some(ReplyView::Failed))
            },
            _ => (self, None),
        }
    }
}

/// The view of an answer that may be missing.
pub open spec fn answer_view(reply: Option<Reply>) -> Option<ReplyView> {
    match reply {
        Some(reply) => Some(reply@),
        None => None,
    }
}

impl View for Store {
    type V = StoreView;

    closed spec fn view(&self) -> StoreView {
        StoreView {
            guilds: self.guilds@,
            actions: views_of(self.actions@),
            hits: views_of(self.hits@),
        }
    }
}

/// Whether `item` occurs in `list`.
fn lists(list: &Vec<String>, item: &String) -> (found: bool)
    ensures
        found == views_of(list@).contains(item@),
{
    let mut i: usize = 0;
    while i < list.len()
        invariant
            i <= list.len(),
            forall|j: int| 0 <= j < i ==> list[j]@ != item@,
        decreases list.len() - i,
    {
        if list[i] == *item {
            assert(views_of(list@)[i as int] == item@);
            return true;
        }
        i += 1;
    }
    false
}

impl Store {
    /// An empty store.
    pub fn new() -> (store: Store)
        ensures
            store@.guilds.len() == 0,
            store@.actions.len() == 0,
            store@.hits.len() == 0,
            store@.wf(),
            store@.audited(),
    {
        Store { guilds: Vec::new(), actions: Vec::new(), hits: Vec::new() }
    }

    /// The registered guilds, in order of registration.
    pub fn guilds(&self) -> (guilds: &Vec<u64>)
        ensures
            guilds@ == self@.guilds,
    {
        &self.guilds
    }

    /// The stored actions, in order of insertion.
    pub fn actions(&self) -> (actions: &Vec<UserAction>)
        ensures
            views_of(actions@) == self@.actions,
    {
        &self.actions
    }

    /// The stored audit records, in order of insertion.
    pub fn hits(&self) -> (hits: &Vec<HitLimitRecord>)
        ensures
            views_of(hits@) == self@.hits,
    {
        &self.hits
    }

    /// Whether the guild is registered.
    pub fn has_guild(&self, guild_id: u64) -> (found: bool)
        ensures
            found == self@.has_guild(guild_id),
    {
        let mut i: usize = 0;
        while i < self.guilds.len()
            invariant
                i <= self.guilds.len(),
                forall|j: int| 0 <= j < i ==> self.guilds[j] != guild_id,
            decreases self.guilds.len() - i,
        {
            if self.guilds[i] == guild_id {
                return true;
            }
            i += 1;
        }
        false
    }

    /// Whether an action with this identifier is stored.
    pub fn has_action(&self, action_id: &String) -> (found: bool)
        ensures
            found == self@.has_action(action_id@),
    {
        let mut i: usize = 0;
        while i < self.actions.len()
            invariant
                i <= self.actions.len(),
                forall|j: int| 0 <= j < i ==> self@.actions[j].action_id != action_id@,
            decreases self.actions.len() - i,
        {
            if self.actions[i].action_id == *action_id {
                assert(self@.actions[i as int].action_id == action_id@);
                return true;
            }
            i += 1;
        }
        false
    }

    /// Whether an audit record with this identifier is stored.
    pub fn has_hit(&self, id: &String) -> (found: bool)
        ensures
            found == self@.has_hit(id@),
    {
        let mut i: usize = 0;
        while i < self.hits.len()
            invariant
                i <= self.hits.len(),
                forall|j: int| 0 <= j < i ==> self@.hits[j].id != id@,
            decreases self.hits.len() - i,
        {
            if self.hits[i].id == *id {
                assert(self@.hits[i as int].id == id@);
                return true;
            }
            i += 1;
        }
        false
    }

    /// Registers a guild unless it is registered already.
    pub fn ensure_guild(&mut self, guild_id: u64)
        ensures
            final(self)@ == old(self)@.with_guild(guild_id),
            final(self)@.has_guild(guild_id),
            old(self)@.wf() ==> final(self)@.wf(),
            old(self)@.audited() ==> final(self)@.audited(),
    {
        proof {
            registering_is_idempotent(self@, guild_id);
            registering_keeps_constraints(self@, guild_id);
        }
        if !self.has_guild(guild_id) {
            self.guilds.push(guild_id);
        }
    }

    /// Stores a newly observed action, consumed by no limit yet. The guild
    /// must be registered and the identifier unused; otherwise nothing is
    /// written.
    pub fn record_action(
        &mut self,
        action_id: String,
        guild_id: u64,
        user_id: u64,
        limit_type: String,
        action_target: String,
    ) -> (result: Result<(), StoreError>)
        ensures
            result == if !old(self)@.has_guild(guild_id) {
                Err::<(), StoreError>(StoreError::UnknownGuild)
            } else if old(self)@.has_action(action_id@) {
                Err(StoreError::DuplicateId)
            } else {
                Ok(())
            },
            result is Ok ==> final(self)@ == old(self)@.with_action(
                fresh_action(action_id@, guild_id, user_id, limit_type@, action_target@),
            ),
            result is Err ==> final(self)@ == old(self)@,
            old(self)@.wf() ==> final(self)@.wf(),
    {
        if !self.has_guild(guild_id) {
            return Err(StoreError::UnknownGuild);
        }
        if self.has_action(&action_id) {
            return Err(StoreError::DuplicateId);
        }
        proof {
            if self@.wf() {
                recording_keeps_constraints(
                    self@,
                    action_id@,
                    guild_id,
                    user_id,
                    limit_type@,
                    action_target@,
                );
            }
        }
        let action = new_action(action_id, guild_id, user_id, limit_type, action_target);
        self.actions.push(action);
        assert(self@.actions =~= old(self)@.actions.push(action@));
        Ok(())
    }

    /// Enters `limit_id` among the limits that consumed the action named
    /// `action_id`, unless it is there already. An unknown action changes
    /// nothing.
    pub fn mark_handled(&mut self, action_id: &String, limit_id: &String)
        ensures
            final(self)@ == old(self)@.marked(action_id@, limit_id@),
            old(self)@.wf() ==> final(self)@.wf(),
            old(self)@.audited() ==> final(self)@.audited(),
    {
        proof {
            marking_keeps_constraints(self@, action_id@, limit_id@);
        }
        let mut i: usize = 0;
        while i < self.actions.len()
            invariant
                i <= self.actions.len(),
                self.actions.len() == old(self).actions.len(),
                self@.guilds == old(self)@.guilds,
                self@.hits == old(self)@.hits,
                forall|j: int|
                    0 <= j < i ==> self@.actions[j] == mark_one(
                        old(self)@.actions[j],
                        action_id@,
                        limit_id@,
                    ),
                forall|j: int| i <= j < self.actions.len() ==> self@.actions[j] == old(self)@.actions[j],
            decreases self.actions.len() - i,
        {
            let ghost before = self@;
            if self.actions[i].action_id == *action_id && !lists(
                &self.actions[i].handled_for,
                limit_id,
            ) {
                self.actions[i].handled_for.push(limit_id.clone());
                assert(self@.actions[i as int].handled_for =~= before.actions[i as int].handled_for.push(
                    limit_id@,
                ));
            }
            assert(self@.actions =~= before.actions.update(
                i as int,
                mark_one(before.actions[i as int], action_id@, limit_id@),
            ));
            i += 1;
        }
        assert(self@.actions =~= old(self)@.marked(action_id@, limit_id@).actions);
    }

    /// Stores an audit record. The identifier must be unused; otherwise
    /// nothing is written.
    pub fn insert_hit(&mut self, record: HitLimitRecord) -> (result: Result<(), StoreError>)
        ensures
            result == if old(self)@.has_hit(record.id@) {
                Err::<(), StoreError>(StoreError::DuplicateId)
            } else {
                Ok(())
            },
            result is Ok ==> final(self)@ == old(self)@.with_hit(record@),
            result is Err ==> final(self)@ == old(self)@,
            old(self)@.wf() ==> final(self)@.wf(),
    {
        if self.has_hit(&record.id) {
            return Err(StoreError::DuplicateId);
        }
        proof {
            if self@.wf() {
                filing_keeps_constraints(self@, record@);
            }
        }
        self.hits.push(record);
        assert(self@.hits =~= old(self)@.hits.push(record@));
        Ok(())
    }

    /// Audits one hit: enters the hit's limit on every causing action, in
    /// order, then stores the record under `id`. When the identifier is
    /// taken the marks stay and no record is written.
    pub fn record_hit(&mut self, hit: &LimitHit, guild_id: u64, user_id: u64, id: String) -> (result:
        Result<(), StoreError>)
        ensures
            result == if old(self)@.has_hit(id@) {
                Err::<(), StoreError>(StoreError::DuplicateId)
            } else {
                Ok(())
            },
            result is Ok ==> final(self)@ == old(self)@.marked_all(
                hit@.cause_ids(),
                hit@.limit.limit_id,
                hit@.cause.len(),
            ).with_hit(record_for(id@, guild_id, user_id, hit@)),
            result is Err ==> final(self)@ == old(self)@.marked_all(
                hit@.cause_ids(),
                hit@.limit.limit_id,
                hit@.cause.len(),
            ),
            old(self)@.wf() ==> final(self)@.wf(),
            old(self)@.audited() ==> final(self)@.audited(),
    {
        proof {
            audit_settles_every_cause(self@, hit@, guild_id, user_id, id@);
            marking_all_settles(self@, hit@.cause_ids(), hit@.limit.limit_id, hit@.cause.len());
        }
        let mut i: usize = 0;
        while i < hit.cause.len()
            invariant
                i <= hit.cause.len(),
                self@ == old(self)@.marked_all(hit@.cause_ids(), hit@.limit.limit_id, i as nat),
                self@.hits == old(self)@.hits,
            decreases hit.cause.len() - i,
        {
            self.mark_handled(&hit.cause[i].action_id, &hit.limit.limit_id);
            i += 1;
        }
        self.insert_hit(audit_record(id, guild_id, user_id, hit))
    }

    /// Performs a command of the pipeline on the store and answers it. A
    /// command that is not for the store changes nothing and gets no
    /// answer.
    pub fn perform(&mut self, command: &Command) -> (reply: Option<Reply>)
        ensures
            (final(self)@, answer_view(reply)) == old(self)@.perform(command@),
            old(self)@.wf() ==> final(self)@.wf(),
    {
        match command {
            Command::EnsureGuild { guild_id } => {
                self.ensure_guild(*guild_id);
                Some(Reply::Done)
            },
            Command::InsertAction { action_id, guild_id, user_id, limit_type, action_target } => {
                match self.record_action(
                    action_id.clone(),
                    *guild_id,
                    *user_id,
                    limit_type.clone(),
                    action_target.clone(),
                ) {
                    Ok(_) => Some(Reply::Done),
                    Err(_) => Some(Reply::Failed),
                }
            },
            Command::MarkHandled { action_id, limit_id } => {
                self.mark_handled(action_id, limit_id);
                Some(Reply::Done)
            },
            Command::InsertHit { record } => {
                match self.insert_hit(copy_record(record)) {
                    Ok(_) => Some(Reply::Done),
                    Err(_) => Some(Reply::Failed),
                }
            },
            _ => None,
        }
    }
}

} // verus!
