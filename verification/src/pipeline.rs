//! The enforcement pipeline as a state machine. Each step takes the answer
//! to the command that is pending and yields the next command; the caller
//! performs commands against the store, the evaluator and the platform.

use vstd::prelude::*;
use crate::gate::{can_enforce, permits, Hierarchy};
use crate::model::{
    audit_record, record_for, views_of, HitLimitRecord, HitLimitRecordView, LimitAction, LimitHit,
    LimitHitView, Text,
};

verus! {

/// Length in bytes of the identifier requested for a new action.
pub const ACTION_ID_BYTES: usize = 48;

/// Length in bytes of the identifier requested for a new audit record.
pub const HIT_ID_BYTES: usize = 16;

/// Days of messages purged with a ban: none.
pub const BAN_PURGE_DAYS: u8 = 0;

/// The step whose failure ended an invocation.
#[derive(Clone, Copy, Debug, PartialEq, Eq, Structural)]
pub enum Fault {
    /// Registering the guild failed.
    EnsureGuild,
    /// No identifier was supplied when one was requested.
    Identifier,
    /// Storing the observed action failed.
    RecordAction,
    /// The evaluator failed.
    Evaluation,
    /// Marking a causing action failed.
    MarkHandled,
    /// Storing the audit record failed.
    RecordHit,
}

/// Where an invocation stands: the command it is waiting on.
#[derive(Clone, Copy, Debug, PartialEq, Eq)]
pub enum Phase {
    EnsuringGuild,
    MintingActionId,
    RecordingAction,
    Evaluating,
    /// Waiting for the hierarchy comparison for a hit.
    Gating { hit: usize },
    /// Waiting for the target's roles.
    FetchingRoles { hit: usize },
    /// Waiting for the removal of one role.
    RemovingRoles { hit: usize, role: usize },
    /// Waiting for a kick or a ban.
    Expelling { hit: usize },
    /// Waiting for the mark on one causing action.
    Marking { hit: usize, cause: usize },
    MintingHitId { hit: usize },
    WritingHit { hit: usize },
    /// Ended in success.
    Completed,
    /// Ended on a failed step.
    Aborted(Fault),
}

pub enum PhaseView {
    EnsuringGuild,
    MintingActionId,
    RecordingAction,
    Evaluating,
    Gating { hit: nat },
    FetchingRoles { hit: nat },
    RemovingRoles { hit: nat, role: nat },
    Expelling { hit: nat },
    Marking { hit: nat, cause: nat },
    MintingHitId { hit: nat },
    WritingHit { hit: nat },
    Completed,
    Aborted(Fault),
}

impl View for Phase {
    type V = PhaseView;

    open spec fn view(&self) -> PhaseView {
        match *self {
            Phase::EnsuringGuild => PhaseView::EnsuringGuild,
            Phase::MintingActionId => PhaseView::MintingActionId,
            Phase::RecordingAction => PhaseView::RecordingAction,
            Phase::Evaluating => PhaseView::Evaluating,
            Phase::Gating { hit } => PhaseView::Gating { hit: hit as nat },
            Phase::FetchingRoles { hit } => PhaseView::FetchingRoles { hit: hit as nat },
            Phase::RemovingRoles { hit, role } => PhaseView::RemovingRoles {
                hit: hit as nat,
                role: role as nat,
            },
            Phase::Expelling { hit } => PhaseView::Expelling { hit: hit as nat },
            Phase::Marking { hit, cause } => PhaseView::Marking {
                hit: hit as nat,
                cause: cause as nat,
            },
            Phase::MintingHitId { hit } => PhaseView::MintingHitId { hit: hit as nat },
            Phase::WritingHit { hit } => PhaseView::WritingHit { hit: hit as nat },
            Phase::Completed => PhaseView::Completed,
            Phase::Aborted(fault) => PhaseView::Aborted(fault),
        }
    }
}

/// What the caller is asked to do next.
#[derive(Debug, PartialEq, Eq)]
pub enum Command {
    /// Register the guild unless it is registered.
    EnsureGuild { guild_id: u64 },
    /// Supply a fresh random identifier of this many bytes.
    FreshToken { n_bytes: usize },
    /// Store a new action, consumed by no limit yet.
    InsertAction {
        action_id: String,
        guild_id: u64,
        user_id: u64,
        limit_type: String,
        action_target: String,
    },
    /// Ask the evaluator which limits the user has breached.
    Evaluate { guild_id: u64, user_id: u64 },
    /// Ask the platform which of the two identities ranks higher.
    CompareHierarchy { guild_id: u64, enforcer_id: u64, target_id: u64 },
    /// Ask the platform for the roles the member holds.
    FetchRoles { guild_id: u64, user_id: u64 },
    RemoveRole { guild_id: u64, user_id: u64, role_id: u64 },
    Kick { guild_id: u64, user_id: u64 },
    Ban { guild_id: u64, user_id: u64, purge_days: u8 },
    /// Enter the limit among those that consumed the action.
    MarkHandled { action_id: String, limit_id: String },
    /// Store the audit record.
    InsertHit { record: HitLimitRecord },
    /// Nothing more to do; the invocation's result.
    Finish { result: Result<(), Fault> },
}

pub enum CommandView {
    EnsureGuild { guild_id: u64 },
    FreshToken { n_bytes: usize },
    InsertAction {
        action_id: Text,
        guild_id: u64,
        user_id: u64,
        limit_type: Text,
        action_target: Text,
    },
    Evaluate { guild_id: u64, user_id: u64 },
    CompareHierarchy { guild_id: u64, enforcer_id: u64, target_id: u64 },
    FetchRoles { guild_id: u64, user_id: u64 },
    RemoveRole { guild_id: u64, user_id: u64, role_id: u64 },
    Kick { guild_id: u64, user_id: u64 },
    Ban { guild_id: u64, user_id: u64, purge_days: u8 },
    MarkHandled { action_id: Text, limit_id: Text },
    InsertHit { record: HitLimitRecordView },
    Finish { result: Result<(), Fault> },
}

impl View for Command {
    type V = CommandView;

    open spec fn view(&self) -> CommandView {
        match *self {
            Command::EnsureGuild { guild_id } => CommandView::EnsureGuild { guild_id },
            Command::FreshToken { n_bytes } => CommandView::FreshToken { n_bytes },
            Command::InsertAction { action_id, guild_id, user_id, limit_type, action_target } => {
                CommandView::InsertAction {
                    action_id: action_id@,
                    guild_id,
                    user_id,
                    limit_type: limit_type@,
                    action_target: action_target@,
                }
            },
            Command::Evaluate { guild_id, user_id } => CommandView::Evaluate { guild_id, user_id },
            Command::CompareHierarchy { guild_id, enforcer_id, target_id } => {
                CommandView::CompareHierarchy { guild_id, enforcer_id, target_id }
            },
            Command::FetchRoles { guild_id, user_id } => CommandView::FetchRoles {
                guild_id,
                user_id,
            },
            Command::RemoveRole { guild_id, user_id, role_id } => CommandView::RemoveRole {
                guild_id,
                user_id,
                role_id,
            },
            Command::Kick { guild_id, user_id } => CommandView::Kick { guild_id, user_id },
            Command::Ban { guild_id, user_id, purge_days } => CommandView::Ban {
                guild_id,
                user_id,
                purge_days,
            },
            Command::MarkHandled { action_id, limit_id } => CommandView::MarkHandled {
                action_id: action_id@,
                limit_id: limit_id@,
            },
            Command::InsertHit { record } => CommandView::InsertHit { record: record@ },
            Command::Finish { result } => CommandView::Finish { result },
        }
    }
}

impl CommandView {
    /// Whether the command acts against a member on the platform.
    pub open spec fn is_remediation(self) -> bool {
        self is RemoveRole || self is Kick || self is Ban
    }

    /// Whether the command writes to the audit trail.
    pub open spec fn is_audit_write(self) -> bool {
        self is MarkHandled || self is InsertHit
    }
}

/// The answer to the pending command.
#[derive(Clone, Debug, PartialEq, Eq)]
pub enum Reply {
    /// The write or the platform call succeeded.
    Done,
    /// The command failed.
    Failed,
    /// The identifier that was requested.
    Token(String),
    /// The limits that the evaluator found breached, in order.
    Hits(Vec<LimitHit>),
    /// The result of the hierarchy comparison.
    Ranking(Hierarchy),
    /// The roles that the member holds.
    Roles(Vec<u64>),
}

pub enum ReplyView {
    Done,
    Failed,
    Token(Text),
    Hits(Seq<LimitHitView>),
    Ranking(Hierarchy),
    Roles(Seq<u64>),
}

impl View for Reply {
    type V = ReplyView;

    open spec fn view(&self) -> ReplyView {
        match *self {
            Reply::Done => ReplyView::Done,
            Reply::Failed => ReplyView::Failed,
            Reply::Token(token) => ReplyView::Token(token@),
            Reply::Hits(hits) => ReplyView::Hits(views_of(hits@)),
            Reply::Ranking(hierarchy) => ReplyView::Ranking(hierarchy),
            Reply::Roles(roles) => ReplyView::Roles(roles@),
        }
    }
}

/// One invocation in progress.
pub struct Pipeline {
    guild_id: u64,
    user_id: u64,
    enforcer_id: u64,
    limit_type: String,
    action_target: String,
    hits: Vec<LimitHit>,
    roles: Vec<u64>,
    phase: Phase,
}

pub struct PipelineView {
    pub guild_id: u64,
    pub user_id: u64,
    pub enforcer_id: u64,
    pub limit_type: Text,
    pub action_target: Text,
    /// The evaluator's hits, once it has answered.
    pub hits: Seq<LimitHitView>,
    /// The target's roles, once the platform has answered.
    pub roles: Seq<u64>,
    pub phase: PhaseView,
}

impl View for Pipeline {
    type V = PipelineView;

    closed spec fn view(&self) -> PipelineView {
        PipelineView {
            guild_id: self.guild_id,
            user_id: self.user_id,
            enforcer_id: self.enforcer_id,
            limit_type: self.limit_type@,
            action_target: self.action_target@,
            hits: views_of(self.hits@),
            roles: self.roles@,
            phase: self.phase@,
        }
    }
}

/// The state in which an invocation starts: waiting on the guild's
/// registration.
pub open spec fn initial(
    guild_id: u64,
    user_id: u64,
    enforcer_id: u64,
    limit_type: Text,
    action_target: Text,
) -> PipelineView {
    PipelineView {
        guild_id,
        user_id,
        enforcer_id,
        limit_type,
        action_target,
        hits: Seq::empty(),
        roles: Seq::empty(),
        phase: PhaseView::EnsuringGuild,
    }
}

impl PipelineView {
    /// The indices in the phase point into the hits, roles and causes held.
    pub open spec fn wf(self) -> bool {
        match self.phase {
            PhaseView::Gating { hit } => hit < self.hits.len(),
            PhaseView::FetchingRoles { hit } => hit < self.hits.len(),
            PhaseView::RemovingRoles { hit, role } => hit < self.hits.len() && role < self.roles.len(),
            PhaseView::Expelling { hit } => hit < self.hits.len(),
            PhaseView::Marking { hit, cause } => hit < self.hits.len() && cause
                < self.hits[hit as int].cause.len(),
            PhaseView::MintingHitId { hit } => hit < self.hits.len(),
            PhaseView::WritingHit { hit } => hit < self.hits.len(),
            _ => true,
        }
    }

    /// Whether the invocation has ended.
    pub open spec fn ended(self) -> bool {
        self.phase is Completed || self.phase is Aborted
    }

    pub open spec fn at(self, phase: PhaseView) -> PipelineView {
        PipelineView { phase, ..self }
    }

    /// Ends the invocation with `result`.
    pub open spec fn finish(self, result: Result<(), Fault>) -> (PipelineView, CommandView) {
        (
            self.at(
                match result {
                    Ok(_) => PhaseView::Completed,
                    Err(fault) => PhaseView::Aborted(fault),
                },
            ),
            CommandView::Finish { result },
        )
    }

    /// Turns to hit number `hit`: asks for the hierarchy comparison, or ends
    /// in success when no hit is left.
    pub open spec fn begin_hit(self, hit: nat) -> (PipelineView, CommandView) {
        if hit < self.hits.len() {
            (
                self.at(PhaseView::Gating { hit }),
                CommandView::CompareHierarchy {
                    guild_id: self.guild_id,
                    enforcer_id: self.enforcer_id,
                    target_id: self.user_id,
                },
            )
        } else {
            self.finish(Ok(()))
        }
    }

    /// Starts the remediation that the hit's limit prescribes.
    pub open spec fn begin_remedy(self, hit: nat) -> (PipelineView, CommandView) {
        match self.hits[hit as int].limit.limit_action {
            LimitAction::RemoveAllRoles => (
                self.at(PhaseView::FetchingRoles { hit }),
                CommandView::FetchRoles { guild_id: self.guild_id, user_id: self.user_id },
            ),
            LimitAction::KickUser => (
                self.at(PhaseView::Expelling { hit }),
                CommandView::Kick { guild_id: self.guild_id, user_id: self.user_id },
            ),
            LimitAction::BanUser => (
                self.at(PhaseView::Expelling { hit }),
                CommandView::Ban {
                    guild_id: self.guild_id,
                    user_id: self.user_id,
                    purge_days: BAN_PURGE_DAYS,
                },
            ),
        }
    }

    /// Turns to role number `role` of the roles held: asks for its removal,
    /// or moves on to the audit when none is left.
    pub open spec fn begin_role(self, hit: nat, role: nat) -> (PipelineView, CommandView) {
        if role < self.roles.len() {
            (
                self.at(PhaseView::RemovingRoles { hit, role }),
                CommandView::RemoveRole {
                    guild_id: self.guild_id,
                    user_id: self.user_id,
                    role_id: self.roles[role as int],
                },
            )
        } else {
            self.begin_audit(hit, 0)
        }
    }

    /// Turns to causing action number `cause` of the hit: asks for its mark,
    /// or for the record's identifier when every cause is marked.
    pub open spec fn begin_audit(self, hit: nat, cause: nat) -> (PipelineView, CommandView) {
        if cause < self.hits[hit as int].cause.len() {
            (
                self.at(PhaseView::Marking { hit, cause }),
                CommandView::MarkHandled {
                    action_id: self.hits[hit as int].cause[cause as int].action_id,
                    limit_id: self.hits[hit as int].limit.limit_id,
                },
            )
        } else {
            (
                self.at(PhaseView::MintingHitId { hit }),
                CommandView::FreshToken { n_bytes: HIT_ID_BYTES },
            )
        }
    }

    /// The state after `reply` answered the pending command, and the next
    /// command.
    ///
    /// A failed write, a failed evaluation or a missing identifier ends the
    /// invocation with that step's fault. Anything but a finding that the
    /// enforcer outranks the target ends it in success, with no further
    /// command. Whatever answers a remediation command, the audit follows.
    pub open spec fn step(self, reply: ReplyView) -> (PipelineView, CommandView) {
        match self.phase {
            PhaseView::EnsuringGuild => match reply {
                ReplyView::Done => (
                    self.at(PhaseView::MintingActionId),
                    CommandView::FreshToken { n_bytes: ACTION_ID_BYTES },
                ),
                _ => self.finish(Err(Fault::EnsureGuild)),
            },
            PhaseView::MintingActionId => match reply {
                ReplyView::Token(token) => (
                    self.at(PhaseView::RecordingAction),
                    CommandView::InsertAction {
                        action_id: token,
                        guild_id: self.guild_id,
                        user_id: self.user_id,
                        limit_type: self.limit_type,
                        action_target: self.action_target,
                    },
                ),
                _ => self.finish(Err(Fault::Identifier)),
            },
            PhaseView::RecordingAction => match reply {
                ReplyView::Done => (
                    self.at(PhaseView::Evaluating),
                    CommandView::Evaluate { guild_id: self.guild_id, user_id: self.user_id },
                ),
                _ => self.finish(Err(Fault::RecordAction)),
            },
            PhaseView::Evaluating => match reply {
                ReplyView::Hits(hits) => PipelineView { hits, ..self }.begin_hit(0),
                _ => self.finish(Err(Fault::Evaluation)),
            },
            PhaseView::Gating { hit } => match reply {
                ReplyView::Ranking(hierarchy) => if permits(
                    self.enforcer_id,
                    self.user_id,
                    hierarchy,
                ) {
                    self.begin_remedy(hit)
                } else {
                    self.finish(Ok(()))
                },
                _ => self.finish(Ok(())),
            },
            PhaseView::FetchingRoles { hit } => match reply {
                ReplyView::Roles(roles) => PipelineView { roles, ..self }.begin_role(hit, 0),
                _ => self.begin_audit(hit, 0),
            },
            PhaseView::RemovingRoles { hit, role } => self.begin_role(hit, role + 1),
            PhaseView::Expelling { hit } => self.begin_audit(hit, 0),
            PhaseView::Marking { hit, cause } => match reply {
                ReplyView::Done => self.begin_audit(hit, cause + 1),
                _ => self.finish(Err(Fault::MarkHandled)),
            },
            PhaseView::MintingHitId { hit } => match reply {
                ReplyView::Token(token) => (
                    self.at(PhaseView::WritingHit { hit }),
                    CommandView::InsertHit {
                        record: record_for(token, self.guild_id, self.user_id, self.hits[hit as int]),
                    },
                ),
                _ => self.finish(Err(Fault::Identifier)),
            },
            PhaseView::WritingHit { hit } => match reply {
                ReplyView::Done => self.begin_hit(hit + 1),
                _ => self.finish(Err(Fault::RecordHit)),
            },
            PhaseView::Completed => (self, CommandView::Finish { result: Ok(()) }),
            PhaseView::Aborted(fault) => (self, CommandView::Finish { result: Err(fault) }),
        }
    }
}

impl Pipeline {
    /// Every invocation in existence is well formed.
    #[verifier::type_invariant]
    spec fn sound(self) -> bool {
        self@.wf()
    }

    /// Starts an invocation for one observed action. The first command,
    /// the guild's registration, is pending.
    pub(crate) fn start(
        guild_id: u64,
        user_id: u64,
        enforcer_id: u64,
        limit_type: String,
        action_target: String,
    ) -> (pipeline: Pipeline)
        ensures
            pipeline@ == initial(guild_id, user_id, enforcer_id, limit_type@, action_target@),
            pipeline@.wf(),
    {
        let pipeline = Pipeline {
            guild_id,
            user_id,
            enforcer_id,
            limit_type,
            action_target,
            hits: Vec::new(),
            roles: Vec::new(),
            phase: Phase::EnsuringGuild,
        };
        assert(pipeline@.hits =~= Seq::empty());
        pipeline
    }

    /// Where the invocation stands.
    pub fn phase(&self) -> (phase: Phase)
        ensures
            phase@ == self@.phase,
    {
        self.phase
    }

    /// Whether the invocation has ended.
    pub fn ended(&self) -> (ended: bool)
        ensures
            ended == self@.ended(),
    {
        match self.phase {
            Phase::Completed => true,
            Phase::Aborted(_) => true,
            _ => false,
        }
    }

    fn finish(&mut self, result: Result<(), Fault>) -> (command: Command)
        ensures
            (final(self)@, command@) == old(self)@.finish(result),
            final(self)@.wf(),
    {
        self.phase = match result {
            Ok(_) => Phase::Completed,
            Err(fault) => Phase::Aborted(fault),
        };
        Command::Finish { result }
    }

    fn begin_hit(&mut self, hit: usize) -> (command: Command)
        ensures
            (final(self)@, command@) == old(self)@.begin_hit(hit as nat),
            final(self)@.wf(),
    {
        if hit < self.hits.len() {
            self.phase = Phase::Gating { hit };
            Command::CompareHierarchy {
                guild_id: self.guild_id,
                enforcer_id: self.enforcer_id,
                target_id: self.user_id,
            }
        } else {
            self.finish(Ok(()))
        }
    }

    fn begin_audit(&mut self, hit: usize, cause: usize) -> (command: Command)
        requires
            hit < old(self)@.hits.len(),
        ensures
            (final(self)@, command@) == old(self)@.begin_audit(hit as nat, cause as nat),
            final(self)@.wf(),
    {
        if cause < self.hits[hit].cause.len() {
            self.phase = Phase::Marking { hit, cause };
            Command::MarkHandled {
                action_id: self.hits[hit].cause[cause].action_id.clone(),
                limit_id: self.hits[hit].limit.limit_id.clone(),
            }
        } else {
            self.phase = Phase::MintingHitId { hit };
            Command::FreshToken { n_bytes: HIT_ID_BYTES }
        }
    }

    fn begin_role(&mut self, hit: usize, role: usize) -> (command: Command)
        requires
            hit < old(self)@.hits.len(),
        ensures
            (final(self)@, command@) == old(self)@.begin_role(hit as nat, role as nat),
            final(self)@.wf(),
    {
        if role < self.roles.len() {
            self.phase = Phase::RemovingRoles { hit, role };
            Command::RemoveRole {
                guild_id: self.guild_id,
                user_id: self.user_id,
                role_id: self.roles[role],
            }
        } else {
            self.begin_audit(hit, 0)
        }
    }

    fn begin_remedy(&mut self, hit: usize) -> (command: Command)
        requires
            hit < old(self)@.hits.len(),
        ensures
            (final(self)@, command@) == old(self)@.begin_remedy(hit as nat),
            final(self)@.wf(),
    {
        match self.hits[hit].limit.limit_action {
            LimitAction::RemoveAllRoles => {
                self.phase = Phase::FetchingRoles { hit };
                Command::FetchRoles { guild_id: self.guild_id, user_id: self.user_id }
            },
            LimitAction::KickUser => {
                self.phase = Phase::Expelling { hit };
                Command::Kick { guild_id: self.guild_id, user_id: self.user_id }
            },
            LimitAction::BanUser => {
                self.phase = Phase::Expelling { hit };
                Command::Ban {
                    guild_id: self.guild_id,
                    user_id: self.user_id,
                    purge_days: BAN_PURGE_DAYS,
                }
            },
        }
    }

    /// Takes the answer to the pending command and yields the next command.
    pub fn resume(&mut self, reply: Reply) -> (command: Command)
        ensures
            old(self)@.wf(),
            (final(self)@, command@) == old(self)@.step(reply@),
            final(self)@.wf(),
    {
        proof {
            use_type_invariant(&*self);
        }
        match self.phase {
            Phase::EnsuringGuild => match reply {
                Reply::Done => {
                    self.phase = Phase::MintingActionId;
                    Command::FreshToken { n_bytes: ACTION_ID_BYTES }
                },
                _ => self.finish(Err(Fault::EnsureGuild)),
            },
            Phase::MintingActionId => match reply {
                Reply::Token(token) => {
                    self.phase = Phase::RecordingAction;
                    Command::InsertAction {
                        action_id: token,
                        guild_id: self.guild_id,
                        user_id: self.user_id,
                        limit_type: self.limit_type.clone(),
                        action_target: self.action_target.clone(),
                    }
                },
                _ => self.finish(Err(Fault::Identifier)),
            },
            Phase::RecordingAction => match reply {
                Reply::Done => {
                    self.phase = Phase::Evaluating;
                    Command::Evaluate { guild_id: self.guild_id, user_id: self.user_id }
                },
                _ => self.finish(Err(Fault::RecordAction)),
            },
            Phase::Evaluating => match reply {
                Reply::Hits(hits) => {
                    self.hits = hits;
                    self.begin_hit(0)
                },
                _ => self.finish(Err(Fault::Evaluation)),
            },
            Phase::Gating { hit } => match reply {
                Reply::Ranking(hierarchy) => {
                    if can_enforce(self.enforcer_id, self.user_id, hierarchy) {
                        self.begin_remedy(hit)
                    } else {
                        self.finish(Ok(()))
                    }
                },
                _ => self.finish(Ok(())),
            },
            Phase::FetchingRoles { hit } => match reply {
                Reply::Roles(roles) => {
                    self.roles = roles;
                    self.begin_role(hit, 0)
                },
                _ => self.begin_audit(hit, 0),
            },
            Phase::RemovingRoles { hit, role } => {
                assert(role < self.roles.len());
                self.begin_role(hit, role + 1)
            },
            Phase::Expelling { hit } => self.begin_audit(hit, 0),
            Phase::Marking { hit, cause } => match reply {
                Reply::Done => {
                    assert(cause < self.hits[hit as int].cause.len());
                    self.begin_audit(hit, cause + 1)
                },
                _ => self.finish(Err(Fault::MarkHandled)),
            },
            Phase::MintingHitId { hit } => match reply {
                Reply::Token(token) => {
                    self.phase = Phase::WritingHit { hit };
                    Command::InsertHit {
                        record: audit_record(token, self.guild_id, self.user_id, &self.hits[hit]),
                    }
                },
                _ => self.finish(Err(Fault::Identifier)),
            },
            Phase::WritingHit { hit } => match reply {
                Reply::Done => {
                    assert(hit < self.hits.len());
                    self.begin_hit(hit + 1)
                },
                _ => self.finish(Err(Fault::RecordHit)),
            },
            Phase::Completed => Command::Finish { result: Ok(()) },
            Phase::Aborted(fault) => Command::Finish { result: Err(fault) },
        }
    }
}

} // verus!
