//! The records that the pipeline reads and writes, and their mathematical
//! views.

use vstd::prelude::*;

verus! {

/// Text as contracts see it.
pub type Text = Seq<char>;

/// The views of the elements of a sequence, in the same order.
pub open spec fn views_of<T: View>(items: Seq<T>) -> Seq<T::V> {
    Seq::new(items.len(), |i: int| items[i]@)
}

/// The remediation that a limit prescribes.
#[derive(Clone, Copy, Debug, PartialEq, Eq, Structural)]
pub enum LimitAction {
    /// Strip every role the member holds.
    RemoveAllRoles,
    /// Remove the member from the guild without a ban.
    KickUser,
    /// Remove the member from the guild with a permanent ban.
    BanUser,
}

/// A configured abuse threshold, as the evaluator hands it over.
#[derive(Clone, Debug, PartialEq, Eq)]
pub struct Limit {
    pub limit_id: String,
    pub limit_type: String,
    pub limit_action: LimitAction,
}

pub struct LimitView {
    pub limit_id: Text,
    pub limit_type: Text,
    pub limit_action: LimitAction,
}

impl View for Limit {
    type V = LimitView;

    open spec fn view(&self) -> LimitView {
        LimitView {
            limit_id: self.limit_id@,
            limit_type: self.limit_type@,
            limit_action: self.limit_action,
        }
    }
}

/// One observed user action.
#[derive(Clone, Debug, PartialEq, Eq)]
pub struct UserAction {
    pub action_id: String,
    pub guild_id: u64,
    pub user_id: u64,
    pub limit_type: String,
    pub action_target: String,
    /// The limits that have already consumed this action.
    pub handled_for: Vec<String>,
}

pub struct UserActionView {
    pub action_id: Text,
    pub guild_id: u64,
    pub user_id: u64,
    pub limit_type: Text,
    pub action_target: Text,
    pub handled_for: Seq<Text>,
}

impl View for UserAction {
    type V = UserActionView;

    open spec fn view(&self) -> UserActionView {
        UserActionView {
            action_id: self.action_id@,
            guild_id: self.guild_id,
            user_id: self.user_id,
            limit_type: self.limit_type@,
            action_target: self.action_target@,
            handled_for: views_of(self.handled_for@),
        }
    }
}

/// A freshly observed action: nothing has consumed it yet.
pub open spec fn fresh_action(
    action_id: Text,
    guild_id: u64,
    user_id: u64,
    limit_type: Text,
    action_target: Text,
) -> UserActionView {
    UserActionView {
        action_id,
        guild_id,
        user_id,
        limit_type,
        action_target,
        handled_for: Seq::empty(),
    }
}

/// The evidence for one breach: the limit and the actions that caused it.
#[derive(Clone, Debug, PartialEq, Eq)]
pub struct LimitHit {
    pub limit: Limit,
    pub cause: Vec<UserAction>,
}

pub struct LimitHitView {
    pub limit: LimitView,
    pub cause: Seq<UserActionView>,
}

impl View for LimitHit {
    type V = LimitHitView;

    open spec fn view(&self) -> LimitHitView {
        LimitHitView { limit: self.limit@, cause: views_of(self.cause@) }
    }
}

impl LimitHitView {
    /// The identifiers of the causing actions, in order.
    pub open spec fn cause_ids(self) -> Seq<Text> {
        Seq::new(self.cause.len(), |i: int| self.cause[i].action_id)
    }
}

/// The durable record of one processed hit.
#[derive(Clone, Debug, PartialEq, Eq)]
pub struct HitLimitRecord {
    pub id: String,
    pub guild_id: u64,
    pub user_id: u64,
    pub limit_id: String,
    pub cause: Vec<String>,
}

pub struct HitLimitRecordView {
    pub id: Text,
    pub guild_id: u64,
    pub user_id: u64,
    pub limit_id: Text,
    pub cause: Seq<Text>,
}

impl View for HitLimitRecord {
    type V = HitLimitRecordView;

    open spec fn view(&self) -> HitLimitRecordView {
        HitLimitRecordView {
            id: self.id@,
            guild_id: self.guild_id,
            user_id: self.user_id,
            limit_id: self.limit_id@,
            cause: views_of(self.cause@),
        }
    }
}

/// The record that audits `hit` for a guild and a user under identifier `id`.
pub open spec fn record_for(id: Text, guild_id: u64, user_id: u64, hit: LimitHitView)
    -> HitLimitRecordView {
    HitLimitRecordView {
        id,
        guild_id,
        user_id,
        limit_id: hit.limit.limit_id,
        cause: hit.cause_ids(),
    }
}

/// Builds the row for a newly observed action.
pub fn new_action(
    action_id: String,
    guild_id: u64,
    user_id: u64,
    limit_type: String,
    action_target: String,
) -> (action: UserAction)
    ensures
        action@ == fresh_action(action_id@, guild_id, user_id, limit_type@, action_target@),
{
    let action = UserAction {
        action_id,
        guild_id,
        user_id,
        limit_type,
        action_target,
        handled_for: Vec::new(),
    };
    assert(action@.handled_for =~= Seq::empty());
    action
}

/// Collects the identifiers of a hit's causing actions, in order.
pub fn cause_ids(hit: &LimitHit) -> (ids: Vec<String>)
    ensures
        views_of(ids@) == hit@.cause_ids(),
{
    let mut ids: Vec<String> = Vec::new();
    let mut i: usize = 0;
    while i < hit.cause.len()
        invariant
            i <= hit.cause.len(),
            ids.len() == i,
            forall|j: int| 0 <= j < i ==> ids[j]@ == hit.cause[j].action_id@,
        decreases hit.cause.len() - i,
    {
        ids.push(hit.cause[i].action_id.clone());
        i += 1;
    }
    ids
}

/// Copies a list of texts.
pub fn copy_texts(texts: &Vec<String>) -> (copy: Vec<String>)
    ensures
        views_of(copy@) == views_of(texts@),
{
    let mut copy: Vec<String> = Vec::new();
    let mut i: usize = 0;
    while i < texts.len()
        invariant
            i <= texts.len(),
            copy.len() == i,
            forall|j: int| 0 <= j < i ==> copy[j]@ == texts[j]@,
        decreases texts.len() - i,
    {
        copy.push(texts[i].clone());
        i += 1;
    }
    copy
}

/// Copies an audit record.
pub fn copy_record(record: &HitLimitRecord) -> (copy: HitLimitRecord)
    ensures
        copy@ == record@,
{
    HitLimitRecord {
        id: record.id.clone(),
        guild_id: record.guild_id,
        user_id: record.user_id,
        limit_id: record.limit_id.clone(),
        cause: copy_texts(&record.cause),
    }
}

/// Builds the audit record for a hit.
pub fn audit_record(id: String, guild_id: u64, user_id: u64, hit: &LimitHit) -> (record:
    HitLimitRecord)
    ensures
        record@ == record_for(id@, guild_id, user_id, hit@),
{
    HitLimitRecord {
        id,
        guild_id,
        user_id,
        limit_id: hit.limit.limit_id.clone(),
        cause: cause_ids(hit),
    }
}

} // verus!
