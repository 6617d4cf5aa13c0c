//! What holds of every run of the pipeline, whatever the outside answers.

use vstd::prelude::*;
use crate::gate::permits;
use crate::model::{record_for, LimitAction, LimitHitView, Text};
use crate::store::{settled, StoreView};
use crate::store_laws::{
    audit_settles_every_cause, audited_hit, filing_keeps_constraints, marking_all_settles,
    marking_keeps_constraints, marking_only_adds, recording_keeps_audit,
    recording_keeps_constraints, registering_keeps_constraints,
};
use crate::pipeline::{
    initial, CommandView, Fault, PhaseView, PipelineView, ReplyView, HIT_ID_BYTES,
};

verus! {

/// The state after the replies were taken in order.
pub open spec fn after(state: PipelineView, replies: Seq<ReplyView>) -> PipelineView
    decreases replies.len(),
{
    if replies.len() == 0 {
        state
    } else {
        after(state.step(replies.first()).0, replies.drop_first())
    }
}

/// The command issued in answer to the last of the replies.
pub open spec fn issued(state: PipelineView, replies: Seq<ReplyView>) -> CommandView
    recommends
        replies.len() > 0,
    decreases replies.len(),
{
    if replies.len() <= 1 {
        state.step(replies.first()).1
    } else {
        issued(state.step(replies.first()).0, replies.drop_first())
    }
}

/// The result that an ended invocation reports.
pub open spec fn result_of(state: PipelineView) -> Result<(), Fault> {
    match state.phase {
        PhaseView::Aborted(fault) => Err(fault),
        _ => Ok(()),
    }
}

/// `n` successes in a row.
pub open spec fn all_done(n: nat) -> Seq<ReplyView> {
    Seq::new(n, |i: int| ReplyView::Done)
}

/// Whether the reply lets enforcement proceed for this invocation.
pub open spec fn authorizes(state: PipelineView, reply: ReplyView) -> bool {
    reply matches ReplyView::Ranking(hierarchy) && permits(
        state.enforcer_id,
        state.user_id,
        hierarchy,
    )
}

/// A run of one reply is one step.
pub proof fn run_of_one(state: PipelineView, replies: Seq<ReplyView>)
    requires
        replies.len() == 1,
    ensures
        issued(state, replies) == state.step(replies[0]).1,
        after(state, replies) == state.step(replies[0]).0,
{
    reveal_with_fuel(after, 2);
}

/// A longer run is one step and then the run of the remaining replies.
pub proof fn run_of_many(state: PipelineView, replies: Seq<ReplyView>)
    requires
        replies.len() > 1,
    ensures
        issued(state, replies) == issued(state.step(replies[0]).0, replies.drop_first()),
        after(state, replies) == after(state.step(replies[0]).0, replies.drop_first()),
{
}

/// A run in two parts is the run of the second part from where the first
/// part ended.
pub proof fn run_in_two_parts(state: PipelineView, first: Seq<ReplyView>, second: Seq<ReplyView>)
    ensures
        after(state, first + second) == after(after(state, first), second),
        second.len() > 0 ==> issued(state, first + second) == issued(after(state, first), second),
    decreases first.len(),
{
    let whole = first + second;
    if first.len() == 0 {
    } else {
        assert(whole.drop_first() =~= first.drop_first() + second);
        run_in_two_parts(state.step(first[0]).0, first.drop_first(), second);
        if second.len() > 0 {
            run_of_many(state, whole);
        }
    }
}

/// A step keeps the state well formed and never changes whom the
/// invocation is about.
pub proof fn step_keeps_identity(state: PipelineView, reply: ReplyView)
    requires
        state.wf(),
    ensures
        state.step(reply).0.wf(),
        state.step(reply).0.guild_id == state.guild_id,
        state.step(reply).0.user_id == state.user_id,
        state.step(reply).0.enforcer_id == state.enforcer_id,
        state.step(reply).0.limit_type == state.limit_type,
        state.step(reply).0.action_target == state.action_target,
        !(state.phase is Evaluating) ==> state.step(reply).0.hits == state.hits,
{
}

/// How far an invocation is from its end, as four numbers compared in
/// order: the steps left before the first hit, the hits left, the steps
/// left within the hit, and the roles or causes left within the step.
pub open spec fn distance(state: PipelineView) -> (nat, nat, nat, nat) {
    match state.phase {
        PhaseView::EnsuringGuild => (4, 0, 0, 0),
        PhaseView::MintingActionId => (3, 0, 0, 0),
        PhaseView::RecordingAction => (2, 0, 0, 0),
        PhaseView::Evaluating => (1, 0, 0, 0),
        PhaseView::Gating { hit } => (0, (state.hits.len() - hit) as nat, 6, 0),
        PhaseView::FetchingRoles { hit } => (0, (state.hits.len() - hit) as nat, 5, 0),
        PhaseView::RemovingRoles { hit, role } => (
            0,
            (state.hits.len() - hit) as nat,
            4,
            (state.roles.len() - role) as nat,
        ),
        PhaseView::Expelling { hit } => (0, (state.hits.len() - hit) as nat, 4, 0),
        PhaseView::Marking { hit, cause } => (
            0,
            (state.hits.len() - hit) as nat,
            3,
            (state.hits[hit as int].cause.len() - cause) as nat,
        ),
        PhaseView::MintingHitId { hit } => (0, (state.hits.len() - hit) as nat, 2, 0),
        PhaseView::WritingHit { hit } => (0, (state.hits.len() - hit) as nat, 1, 0),
        PhaseView::Completed => (0, 0, 0, 0),
        PhaseView::Aborted(_) => (0, 0, 0, 0),
    }
}

/// Every step of a live invocation brings it closer to its end, whatever
/// the reply: an invocation ends after finitely many replies.
pub proof fn every_step_advances(state: PipelineView, reply: ReplyView)
    requires
        state.wf(),
        !state.ended(),
    ensures
        ({
            let before = distance(state);
            let after = distance(state.step(reply).0);
            decreases_to!(before.0, before.1, before.2, before.3 => after.0, after.1, after.2, after.3)
        }),
{
}

/// Once an invocation has ended it stays ended: every later reply leaves
/// the state as it is and is answered with the same result, so no further
/// command reaches the store or the platform.
pub proof fn ended_stays_ended(state: PipelineView, replies: Seq<ReplyView>)
    requires
        state.ended(),
    ensures
        after(state, replies) == state,
        replies.len() > 0 ==> issued(state, replies) == (CommandView::Finish {
            result: result_of(state),
        }),
    decreases replies.len(),
{
    if replies.len() > 0 {
        ended_stays_ended(state, replies.drop_first());
    }
}

/// When the comparison does not show that the enforcer outranks the target, the
/// invocation ends in success at once: the next command and every command
/// after it is the report of success, so neither a remediation nor an audit
/// write is issued for this hit or for any later one.
pub proof fn denial_ends_the_invocation(
    state: PipelineView,
    reply: ReplyView,
    later: Seq<ReplyView>,
)
    requires
        state.wf(),
        state.phase is Gating,
        !authorizes(state, reply),
    ensures
        state.step(reply) == state.finish(Ok(())),
        state.step(reply).1 == (CommandView::Finish { result: Ok(()) }),
        state.step(reply).0.phase == PhaseView::Completed,
        after(state.step(reply).0, later) == state.step(reply).0,
        later.len() > 0 ==> issued(state.step(reply).0, later) == (CommandView::Finish {
            result: Ok(()),
        }),
        later.len() > 0 ==> !issued(state.step(reply).0, later).is_remediation() && !issued(
            state.step(reply).0,
            later,
        ).is_audit_write(),
{
    ended_stays_ended(state.step(reply).0, later);
}

/// A denial anywhere in a run ends it: when the reply number `denied`
/// answers a hierarchy comparison and does not show that the enforcer
/// outranks the target, the command that answers it and every later one is
/// the report of success. No record is written and no remediation is
/// requested for that hit or for any hit after it.
pub proof fn denial_ends_every_run(state: PipelineView, replies: Seq<ReplyView>, denied: int)
    requires
        state.wf(),
        0 <= denied < replies.len(),
        after(state, replies.take(denied)).phase is Gating,
        !authorizes(after(state, replies.take(denied)), replies[denied]),
    ensures
        issued(state, replies) == (CommandView::Finish { result: Ok(()) }),
        after(state, replies).phase == PhaseView::Completed,
{
    let before = replies.take(denied);
    let from = replies.skip(denied);
    let at = after(state, before);
    assert(replies =~= before + from);
    run_in_two_parts(state, before, from);
    run_keeps_well_formed(state, before);
    denial_ends_the_invocation(at, from[0], from.drop_first());
    if from.len() == 1 {
        run_of_one(at, from);
    } else {
        run_of_many(at, from);
    }
}

/// A run keeps the state well formed.
pub proof fn run_keeps_well_formed(state: PipelineView, replies: Seq<ReplyView>)
    requires
        state.wf(),
    ensures
        after(state, replies).wf(),
    decreases replies.len(),
{
    if replies.len() > 0 {
        step_keeps_identity(state, replies[0]);
        run_keeps_well_formed(state.step(replies[0]).0, replies.drop_first());
    }
}

/// Whether the phase lies between a hit's authorization and the request to
/// write its record.
pub open spec fn enforcing(phase: PhaseView) -> bool {
    phase is FetchingRoles || phase is RemovingRoles || phase is Expelling || phase is Marking
        || phase is MintingHitId
}

/// Whether reply number `granted` of a run answered a hierarchy comparison
/// and showed that the enforcer outranks the target.
pub open spec fn authorized_at(state: PipelineView, replies: Seq<ReplyView>, granted: int) -> bool {
    &&& after(state, replies.take(granted)).phase is Gating
    &&& authorizes(after(state, replies.take(granted)), replies[granted])
}

/// Nothing is enforced or audited without authorization: in a run that
/// starts outside a hit's enforcement, a command that fetches or removes
/// roles, kicks, bans, marks an action or writes a record is issued only
/// after some reply of that run answered a hierarchy comparison and showed
/// that the enforcer outranks the target.
pub proof fn enforcement_needs_authorization(state: PipelineView, replies: Seq<ReplyView>)
    requires
        !enforcing(state.phase),
        replies.len() > 0,
        ({
            let command = issued(state, replies);
            command is FetchRoles || command.is_remediation() || command.is_audit_write()
        }),
    ensures
        exists|granted: int|
            0 <= granted < replies.len() && authorized_at(state, replies, granted),
    decreases replies.len(),
{
    let next = state.step(replies[0]).0;
    if state.phase is Gating && authorizes(state, replies[0]) {
        assert(authorized_at(state, replies, 0));
    } else {
        if replies.len() == 1 {
            run_of_one(state, replies);
        } else {
            let rest = replies.drop_first();
            run_of_many(state, replies);
            enforcement_needs_authorization(next, rest);
            let granted = choose|granted: int|
                0 <= granted < rest.len() && authorized_at(next, rest, granted);
            assert(replies.take(granted + 1).drop_first() =~= rest.take(granted));
            reveal_with_fuel(after, 2);
            assert(authorized_at(state, replies, granted + 1));
        }
    }
}

/// When the comparison shows that the enforcer outranks the target, the
/// remediation that the hit's limit prescribes is started.
pub proof fn authorization_starts_the_remedy(state: PipelineView, reply: ReplyView)
    requires
        state.wf(),
        state.phase is Gating,
        authorizes(state, reply),
    ensures
        ({
            let hit = state.phase->Gating_hit;
            let command = state.step(reply).1;
            match state.hits[hit as int].limit.limit_action {
                LimitAction::RemoveAllRoles => command == (CommandView::FetchRoles {
                    guild_id: state.guild_id,
                    user_id: state.user_id,
                }),
                LimitAction::KickUser => command == (CommandView::Kick {
                    guild_id: state.guild_id,
                    user_id: state.user_id,
                }),
                LimitAction::BanUser => command == (CommandView::Ban {
                    guild_id: state.guild_id,
                    user_id: state.user_id,
                    purge_days: 0,
                }),
            }
        }),
{
}

/// The outcome of a remediation call is ignored: success and failure lead
/// to the same state and the same next command, and that command never
/// ends the invocation.
pub proof fn remedy_outcome_is_ignored(state: PipelineView, one: ReplyView, other: ReplyView)
    requires
        state.wf(),
        state.phase is RemovingRoles || state.phase is Expelling,
    ensures
        state.step(one) == state.step(other),
        !(state.step(one).1 is Finish),
        !state.step(one).0.ended(),
{
}

/// When the member's roles cannot be fetched, no role is removed and the
/// audit begins at once.
pub proof fn missing_roles_skip_to_audit(state: PipelineView, reply: ReplyView)
    requires
        state.wf(),
        state.phase is FetchingRoles,
        !(reply is Roles),
    ensures
        state.step(reply) == state.begin_audit(state.phase->FetchingRoles_hit, 0),
        !(state.step(reply).1 is Finish),
        !state.step(reply).1.is_remediation(),
{
}

/// From the mark of causing action number `cause` on: when that mark and
/// every later one succeeds and an identifier is supplied, each remaining
/// cause is marked in order and then the record of the hit is written.
pub proof fn marks_lead_to_the_record(state: PipelineView, token: Text)
    requires
        state.wf(),
        state.phase is Marking,
    ensures
        ({
            let hit = state.phase->Marking_hit;
            let cause = state.phase->Marking_cause;
            let left = (state.hits[hit as int].cause.len() - cause) as nat;
            let replies = all_done(left).push(ReplyView::Token(token));
            &&& forall|i: int|
                #![trigger replies.take(i)]
                1 <= i < left ==> issued(state, replies.take(i)) == (CommandView::MarkHandled {
                    action_id: state.hits[hit as int].cause[cause + i].action_id,
                    limit_id: state.hits[hit as int].limit.limit_id,
                })
            &&& issued(state, replies.take(left as int)) == (CommandView::FreshToken {
                n_bytes: HIT_ID_BYTES,
            })
            &&& issued(state, replies) == (CommandView::InsertHit {
                record: record_for(token, state.guild_id, state.user_id, state.hits[hit as int]),
            })
            &&& after(state, replies) == state.at(PhaseView::WritingHit { hit })
        }),
    decreases state.hits[state.phase->Marking_hit as int].cause.len() - state.phase->Marking_cause,
{
    let hit = state.phase->Marking_hit;
    let cause = state.phase->Marking_cause;
    let left = (state.hits[hit as int].cause.len() - cause) as nat;
    let replies = all_done(left).push(ReplyView::Token(token));
    let next = state.step(ReplyView::Done).0;
    run_of_many(state, replies);
    run_of_one(state, replies.take(1));
    if left == 1 {
        run_of_one(next, replies.drop_first());
    } else {
        marks_lead_to_the_record(next, token);
        let rest = all_done((left - 1) as nat).push(ReplyView::Token(token));
        assert(replies.drop_first() =~= rest);
        assert forall|i: int| #![trigger replies.take(i)] 1 <= i < left implies issued(
            state,
            replies.take(i),
        ) == (CommandView::MarkHandled {
            action_id: state.hits[hit as int].cause[cause + i].action_id,
            limit_id: state.hits[hit as int].limit.limit_id,
        }) by {
            if i > 1 {
                assert(replies.take(i).drop_first() =~= rest.take(i - 1));
                run_of_many(state, replies.take(i));
            }
        }
        assert(replies.take(left as int).drop_first() =~= rest.take(left - 1));
        run_of_many(state, replies.take(left as int));
    }
}

/// From the start of a hit's audit: when every mark succeeds and an
/// identifier is supplied, the record of the hit is written.
pub proof fn record_follows_the_marks(state: PipelineView, hit: nat, token: Text)
    requires
        state.wf(),
        hit < state.hits.len(),
        state == state.begin_audit(hit, 0).0,
    ensures
        ({
            let marks = state.hits[hit as int].cause.len();
            let replies = all_done(marks).push(ReplyView::Token(token));
            &&& issued(state, replies) == (CommandView::InsertHit {
                record: record_for(token, state.guild_id, state.user_id, state.hits[hit as int]),
            })
            &&& after(state, replies) == state.at(PhaseView::WritingHit { hit })
        }),
{
    let marks = state.hits[hit as int].cause.len();
    let replies = all_done(marks).push(ReplyView::Token(token));
    if marks == 0 {
        run_of_one(state, replies);
    } else {
        marks_lead_to_the_record(state, token);
    }
}

/// A failed remediation does not keep the hit from being audited: whatever
/// answers a kick or a ban, once the marks succeed and an identifier is
/// supplied the record of the hit is written.
pub proof fn audit_follows_expulsion(state: PipelineView, outcome: ReplyView, token: Text)
    requires
        state.wf(),
        state.phase is Expelling,
    ensures
        ({
            let hit = state.phase->Expelling_hit;
            let marks = state.hits[hit as int].cause.len();
            let replies = seq![outcome] + all_done(marks).push(ReplyView::Token(token));
            &&& issued(state, replies) == (CommandView::InsertHit {
                record: record_for(token, state.guild_id, state.user_id, state.hits[hit as int]),
            })
            &&& after(state, replies) == state.at(PhaseView::WritingHit { hit })
        }),
{
    let hit = state.phase->Expelling_hit;
    let audit = all_done(state.hits[hit as int].cause.len()).push(ReplyView::Token(token));
    let turned = state.step(outcome).0;
    run_of_one(state, seq![outcome]);
    record_follows_the_marks(turned, hit, token);
    run_in_two_parts(state, seq![outcome], audit);
}

/// Every role is attempted: after the member's roles arrive, a removal is
/// requested for each of them in order, whatever answered the earlier
/// removals; after the last answer the audit begins.
pub proof fn every_role_is_attempted(
    state: PipelineView,
    roles: Seq<u64>,
    answers: Seq<ReplyView>,
)
    requires
        state.wf(),
        state.phase is FetchingRoles,
        answers.len() == roles.len(),
    ensures
        ({
            let hit = state.phase->FetchingRoles_hit;
            let replies = seq![ReplyView::Roles(roles)] + answers;
            let holding = PipelineView { roles, ..state };
            &&& forall|i: int|
                #![trigger replies.take(i + 1)]
                0 <= i < roles.len() ==> issued(state, replies.take(i + 1)) == (
                CommandView::RemoveRole {
                    guild_id: state.guild_id,
                    user_id: state.user_id,
                    role_id: roles[i],
                })
            &&& issued(state, replies) == holding.begin_role(hit, roles.len()).1
            &&& after(state, replies) == holding.begin_role(hit, roles.len()).0
            &&& roles.len() > 0 ==> issued(state, replies) == holding.begin_audit(hit, 0).1
        }),
{
    let first = ReplyView::Roles(roles);
    let replies = seq![first] + answers;
    assert(replies.drop_first() =~= answers);
    if roles.len() == 0 {
        run_of_one(state, replies);
    } else {
        let next = state.step(first).0;
        run_of_many(state, replies);
        removals_run_in_order(next, answers);
        assert forall|i: int| #![trigger replies.take(i + 1)] 0 <= i < roles.len() implies issued(
            state,
            replies.take(i + 1),
        ) == (CommandView::RemoveRole {
            guild_id: state.guild_id,
            user_id: state.user_id,
            role_id: roles[i],
        }) by {
            if i == 0 {
                run_of_one(state, replies.take(1));
            } else {
                assert(replies.take(i + 1).drop_first() =~= answers.take(i));
                run_of_many(state, replies.take(i + 1));
            }
        }
    }
}

/// Failed role removals do not keep the hit from being audited: whatever
/// answers the removals, once the marks succeed and an identifier is
/// supplied the record of the hit is written.
pub proof fn audit_follows_role_removal(
    state: PipelineView,
    roles: Seq<u64>,
    answers: Seq<ReplyView>,
    token: Text,
)
    requires
        state.wf(),
        state.phase is FetchingRoles,
        answers.len() == roles.len(),
    ensures
        ({
            let hit = state.phase->FetchingRoles_hit;
            let marks = state.hits[hit as int].cause.len();
            let replies = (seq![ReplyView::Roles(roles)] + answers) + all_done(marks).push(
                ReplyView::Token(token),
            );
            issued(state, replies) == (CommandView::InsertHit {
                record: record_for(token, state.guild_id, state.user_id, state.hits[hit as int]),
            })
        }),
{
    let hit = state.phase->FetchingRoles_hit;
    let removal = seq![ReplyView::Roles(roles)] + answers;
    let audit = all_done(state.hits[hit as int].cause.len()).push(ReplyView::Token(token));
    every_role_is_attempted(state, roles, answers);
    let turned = after(state, removal);
    record_follows_the_marks(turned, hit, token);
    run_in_two_parts(state, removal, audit);
}

/// A member whose roles cannot be fetched is still audited: once the marks
/// succeed and an identifier is supplied the record of the hit is written.
pub proof fn audit_follows_missing_roles(state: PipelineView, reply: ReplyView, token: Text)
    requires
        state.wf(),
        state.phase is FetchingRoles,
        !(reply is Roles),
    ensures
        ({
            let hit = state.phase->FetchingRoles_hit;
            let marks = state.hits[hit as int].cause.len();
            let replies = seq![reply] + all_done(marks).push(ReplyView::Token(token));
            issued(state, replies) == (CommandView::InsertHit {
                record: record_for(token, state.guild_id, state.user_id, state.hits[hit as int]),
            })
        }),
{
    let hit = state.phase->FetchingRoles_hit;
    let audit = all_done(state.hits[hit as int].cause.len()).push(ReplyView::Token(token));
    let turned = state.step(reply).0;
    run_of_one(state, seq![reply]);
    record_follows_the_marks(turned, hit, token);
    run_in_two_parts(state, seq![reply], audit);
}

/// From the removal of role number `role` on: each answer, whatever it is,
/// is followed by the request to remove the next role, and the last answer
/// by the start of the audit.
pub proof fn removals_run_in_order(state: PipelineView, answers: Seq<ReplyView>)
    requires
        state.wf(),
        state.phase is RemovingRoles,
        answers.len() == state.roles.len() - state.phase->RemovingRoles_role,
    ensures
        ({
            let hit = state.phase->RemovingRoles_hit;
            let role = state.phase->RemovingRoles_role;
            &&& forall|i: int|
                #![trigger answers.take(i)]
                1 <= i < answers.len() ==> issued(state, answers.take(i)) == (
                CommandView::RemoveRole {
                    guild_id: state.guild_id,
                    user_id: state.user_id,
                    role_id: state.roles[role + i],
                })
            &&& issued(state, answers) == state.begin_audit(hit, 0).1
            &&& after(state, answers) == state.begin_audit(hit, 0).0
        }),
    decreases answers.len(),
{
    let role = state.phase->RemovingRoles_role;
    let next = state.step(answers[0]).0;
    if answers.len() == 1 {
        run_of_one(state, answers);
    } else {
        run_of_many(state, answers);
        removals_run_in_order(next, answers.drop_first());
        assert forall|i: int| #![trigger answers.take(i)] 1 <= i < answers.len() implies issued(
            state,
            answers.take(i),
        ) == (CommandView::RemoveRole {
            guild_id: state.guild_id,
            user_id: state.user_id,
            role_id: state.roles[role + i],
        }) by {
            if i == 1 {
                run_of_one(state, answers.take(1));
            } else {
                assert(answers.take(i).drop_first() =~= answers.drop_first().take(i - 1));
                run_of_many(state, answers.take(i));
            }
        }
    }
}

/// An action is stored only after its guild was registered: in every run
/// from the start, the command that stores the action is the answer to the
/// second reply, it names the invocation's guild, and the first reply
/// confirmed that guild's registration.
pub proof fn action_follows_registration(
    guild_id: u64,
    user_id: u64,
    enforcer_id: u64,
    limit_type: Text,
    action_target: Text,
    replies: Seq<ReplyView>,
)
    requires
        replies.len() > 0,
        issued(initial(guild_id, user_id, enforcer_id, limit_type, action_target), replies)
            is InsertAction,
    ensures
        replies.len() == 2,
        replies[0] == ReplyView::Done,
        replies[1] is Token,
        issued(initial(guild_id, user_id, enforcer_id, limit_type, action_target), replies) == (
        CommandView::InsertAction {
            action_id: replies[1]->Token_0,
            guild_id,
            user_id,
            limit_type,
            action_target,
        }),
{
    let start = initial(guild_id, user_id, enforcer_id, limit_type, action_target);
    let second = start.step(replies[0]).0;
    if replies.len() == 1 {
        run_of_one(start, replies);
    } else {
        let rest = replies.drop_first();
        run_of_many(start, replies);
        if second.phase is MintingActionId {
            if rest.len() == 1 {
                run_of_one(second, rest);
            } else {
                run_of_many(second, rest);
                no_action_after_the_first(second.step(rest[0]).0, rest.drop_first());
            }
        } else {
            no_action_after_the_first(second, rest);
        }
    }
}

/// Past the point where the action is stored, no command stores an action
/// again.
pub proof fn no_action_after_the_first(state: PipelineView, replies: Seq<ReplyView>)
    requires
        !(state.phase is EnsuringGuild),
        !(state.phase is MintingActionId),
        replies.len() > 0,
    ensures
        !(issued(state, replies) is InsertAction),
    decreases replies.len(),
{
    let next = state.step(replies[0]).0;
    if replies.len() > 1 {
        run_of_many(state, replies);
        no_action_after_the_first(next, replies.drop_first());
    } else {
        run_of_one(state, replies);
    }
}

/// The store after each command issued along a run was performed on it, in
/// order.
pub open spec fn performed(store: StoreView, state: PipelineView, replies: Seq<ReplyView>)
    -> StoreView
    decreases replies.len(),
{
    if replies.len() == 0 {
        store
    } else {
        performed(
            store.perform(state.step(replies[0]).1).0,
            state.step(replies[0]).0,
            replies.drop_first(),
        )
    }
}

/// Performing a run in two parts is performing the second part on what the
/// first part left.
pub proof fn performed_in_two_parts(
    store: StoreView,
    state: PipelineView,
    first: Seq<ReplyView>,
    second: Seq<ReplyView>,
)
    ensures
        performed(store, state, first + second) == performed(
            performed(store, state, first),
            after(state, first),
            second,
        ),
    decreases first.len(),
{
    let whole = first + second;
    if first.len() == 0 {
        assert(whole =~= second);
    } else {
        assert(whole[0] == first[0]);
        assert(whole.drop_first() =~= first.drop_first() + second);
        performed_in_two_parts(
            store.perform(state.step(first[0]).1).0,
            state.step(first[0]).0,
            first.drop_first(),
            second,
        );
    }
}

/// An ended invocation writes nothing: whatever replies follow, the store
/// stays as it is.
pub proof fn ended_run_writes_nothing(
    store: StoreView,
    state: PipelineView,
    replies: Seq<ReplyView>,
)
    requires
        state.ended(),
    ensures
        performed(store, state, replies) == store,
    decreases replies.len(),
{
    if replies.len() > 0 {
        ended_run_writes_nothing(store, state, replies.drop_first());
    }
}

/// A denial freezes the store: when reply number `denied` of a run answers
/// a hierarchy comparison and does not show that the enforcer outranks the
/// target, the store after the whole run is the store as the replies before
/// the denial left it. The hits before the denied one keep what was written
/// for them; nothing is written for the denied hit or any later one.
pub proof fn denial_freezes_the_store(
    store: StoreView,
    state: PipelineView,
    replies: Seq<ReplyView>,
    denied: int,
)
    requires
        state.wf(),
        0 <= denied < replies.len(),
        after(state, replies.take(denied)).phase is Gating,
        !authorizes(after(state, replies.take(denied)), replies[denied]),
    ensures
        performed(store, state, replies) == performed(store, state, replies.take(denied)),
{
    let before = replies.take(denied);
    let from = replies.skip(denied);
    let at = after(state, before);
    let kept = performed(store, state, before);
    assert(replies =~= before + from);
    performed_in_two_parts(store, state, before, from);
    run_keeps_well_formed(state, before);
    assert(from[0] == replies[denied]);
    ended_run_writes_nothing(kept, at.step(from[0]).0, from.drop_first());
}

/// From the mark of causing action number `cause` on, with the earlier
/// marks and this one already in the store: the remaining marks and the
/// record arrive in the store as the audit of the whole hit.
proof fn marks_then_filing(base: StoreView, state: PipelineView, token: Text)
    requires
        state.wf(),
        state.phase is Marking,
    ensures
        ({
            let hit = state.phase->Marking_hit;
            let cause = state.phase->Marking_cause;
            let ids = state.hits[hit as int].cause_ids();
            let limit = state.hits[hit as int].limit.limit_id;
            let marks = state.hits[hit as int].cause.len();
            let replies = all_done((marks - cause) as nat).push(ReplyView::Token(token));
            let end = performed(base.marked_all(ids, limit, cause + 1), state, replies);
            &&& !base.has_hit(token) ==> end == audited_hit(
                base,
                state.hits[hit as int],
                state.guild_id,
                state.user_id,
                token,
            )
            &&& base.has_hit(token) ==> end == base.marked_all(ids, limit, marks)
        }),
    decreases state.hits[state.phase->Marking_hit as int].cause.len() - state.phase->Marking_cause,
{
    let hit = state.phase->Marking_hit;
    let cause = state.phase->Marking_cause;
    let ids = state.hits[hit as int].cause_ids();
    let limit = state.hits[hit as int].limit.limit_id;
    let marks = state.hits[hit as int].cause.len();
    let left = (marks - cause) as nat;
    let replies = all_done(left).push(ReplyView::Token(token));
    let here = base.marked_all(ids, limit, cause + 1);
    let next = state.step(ReplyView::Done).0;
    let rest = replies.drop_first();
    assert(replies[0] == ReplyView::Done);
    assert(state.step(ReplyView::Done) == state.begin_audit(hit, cause + 1));
    marking_all_settles(base, ids, limit, marks);
    if left == 1 {
        assert(rest =~= seq![ReplyView::Token(token)]);
        assert(rest.drop_first() =~= Seq::<ReplyView>::empty());
        assert(rest[0] == ReplyView::Token(token));
        reveal_with_fuel(performed, 3);
        assert(base.marked_all(ids, limit, marks).has_hit(token) == base.has_hit(token));
    } else {
        assert(rest =~= all_done((left - 1) as nat).push(ReplyView::Token(token)));
        assert(ids[cause as int + 1] == state.hits[hit as int].cause[cause as int + 1].action_id);
        assert(here.perform(state.step(ReplyView::Done).1).0 == base.marked_all(
            ids,
            limit,
            cause + 2,
        ));
        marks_then_filing(base, next, token);
    }
}

/// The audit commands of the pipeline amount to one audit of the store:
/// from the start of a hit's audit, when every mark succeeds and an
/// identifier is supplied, performing the commands in order leaves the
/// store with the hit's limit on every causing action and with the hit's
/// record, or without the record when the identifier is taken. Either way
/// the store keeps its constraints and its audit trail.
pub proof fn audit_commands_amount_to_an_audit(
    store: StoreView,
    state: PipelineView,
    hit: nat,
    token: Text,
)
    requires
        state.wf(),
        hit < state.hits.len(),
        state == state.begin_audit(hit, 0).0,
    ensures
        ({
            let pending = state.begin_audit(hit, 0).1;
            let ids = state.hits[hit as int].cause_ids();
            let limit = state.hits[hit as int].limit.limit_id;
            let marks = state.hits[hit as int].cause.len();
            let replies = all_done(marks).push(ReplyView::Token(token));
            let end = performed(store.perform(pending).0, state, replies);
            &&& !store.has_hit(token) ==> end == audited_hit(
                store,
                state.hits[hit as int],
                state.guild_id,
                state.user_id,
                token,
            )
            &&& store.has_hit(token) ==> end == store.marked_all(ids, limit, marks)
            &&& store.wf() ==> end.wf()
            &&& store.audited() ==> end.audited()
        }),
{
    let pending = state.begin_audit(hit, 0).1;
    let ids = state.hits[hit as int].cause_ids();
    let limit = state.hits[hit as int].limit.limit_id;
    let marks = state.hits[hit as int].cause.len();
    let replies = all_done(marks).push(ReplyView::Token(token));
    marking_all_settles(store, ids, limit, marks);
    audit_settles_every_cause(store, state.hits[hit as int], state.guild_id, state.user_id, token);
    if marks == 0 {
        assert(replies =~= seq![ReplyView::Token(token)]);
        assert(replies.drop_first() =~= Seq::<ReplyView>::empty());
        assert(replies[0] == ReplyView::Token(token));
        reveal_with_fuel(performed, 3);
    } else {
        assert(ids[0] == state.hits[hit as int].cause[0].action_id);
        assert(store.perform(pending).0 == store.marked_all(ids, limit, 1)) by {
            reveal_with_fuel(StoreView::marked_all, 3);
        }
        marks_then_filing(store, state, token);
    }
}

/// Performing a command keeps the store's constraints, whatever the
/// command: every stored action still has its guild, and no identifier
/// occurs twice.
pub proof fn command_keeps_constraints(store: StoreView, command: CommandView)
    requires
        store.wf(),
    ensures
        store.perform(command).0.wf(),
{
    match command {
        CommandView::EnsureGuild { guild_id } => {
            registering_keeps_constraints(store, guild_id);
        },
        CommandView::InsertAction { action_id, guild_id, user_id, limit_type, action_target } => {
            if store.has_guild(guild_id) && !store.has_action(action_id) {
                recording_keeps_constraints(
                    store,
                    action_id,
                    guild_id,
                    user_id,
                    limit_type,
                    action_target,
                );
            }
        },
        CommandView::MarkHandled { action_id, limit_id } => {
            marking_keeps_constraints(store, action_id, limit_id);
        },
        CommandView::InsertHit { record } => {
            if !store.has_hit(record.id) {
                filing_keeps_constraints(store, record);
            }
        },
        _ => {},
    }
}

/// A whole run keeps the store's constraints: whatever the replies, after
/// every command of the run was performed each stored action has its guild
/// registered and no identifier occurs twice.
pub proof fn run_keeps_constraints(store: StoreView, state: PipelineView, replies: Seq<ReplyView>)
    requires
        store.wf(),
    ensures
        performed(store, state, replies).wf(),
    decreases replies.len(),
{
    if replies.len() > 0 {
        command_keeps_constraints(store, state.step(replies[0]).1);
        run_keeps_constraints(
            store.perform(state.step(replies[0]).1).0,
            state.step(replies[0]).0,
            replies.drop_first(),
        );
    }
}

/// Whether every stored action among the first `n` causes of the hit bears
/// the hit's limit.
pub open spec fn marked_through(store: StoreView, hit: LimitHitView, n: nat) -> bool {
    forall|a: int, i: int|
        #![trigger store.actions[a], hit.cause[i]]
        0 <= a < store.actions.len() && 0 <= i < n && i < hit.cause.len()
            && store.actions[a].action_id == hit.cause[i].action_id
            ==> store.actions[a].handled_for.contains(hit.limit.limit_id)
}

/// Whether the store bears the marks that the invocation has asked for in
/// the audit it is in the middle of.
pub open spec fn marks_in_place(store: StoreView, state: PipelineView) -> bool {
    match state.phase {
        PhaseView::Marking { hit, cause } => marked_through(
            store,
            state.hits[hit as int],
            cause + 1,
        ),
        PhaseView::MintingHitId { hit } => marked_through(
            store,
            state.hits[hit as int],
            state.hits[hit as int].cause.len(),
        ),
        _ => true,
    }
}

/// One step keeps the audit trail: when the command issued is performed,
/// every stored action that a stored record cites still bears that record's
/// limit, and the marks asked for so far are in place. The one exception
/// is left out: an identifier for the new action that a stored record
/// already cites.
pub proof fn step_keeps_the_audit_trail(store: StoreView, state: PipelineView, reply: ReplyView)
    requires
        state.wf(),
        store.audited(),
        marks_in_place(store, state),
        state.phase is MintingActionId && reply is Token ==> !store.cites(reply->Token_0),
    ensures
        store.perform(state.step(reply).1).0.audited(),
        marks_in_place(store.perform(state.step(reply).1).0, state.step(reply).0),
{
    let next = state.step(reply).0;
    let command = state.step(reply).1;
    let written = store.perform(command).0;
    match command {
        CommandView::InsertAction { action_id, guild_id, user_id, limit_type, action_target } => {
            if store.has_guild(guild_id) && !store.has_action(action_id) {
                recording_keeps_audit(
                    store,
                    action_id,
                    guild_id,
                    user_id,
                    limit_type,
                    action_target,
                );
            }
        },
        CommandView::MarkHandled { action_id, limit_id } => {
            marking_keeps_constraints(store, action_id, limit_id);
            marking_only_adds(store, action_id, limit_id);
            let hit = next.phase->Marking_hit;
            let cause = next.phase->Marking_cause;
            let evidence = next.hits[hit as int];
            assert(next.hits == state.hits);
            assert forall|a: int, i: int|
                #![trigger written.actions[a], evidence.cause[i]]
                0 <= a < written.actions.len() && 0 <= i < cause + 1 && i < evidence.cause.len()
                    && written.actions[a].action_id
                    == evidence.cause[i].action_id implies written.actions[a].handled_for.contains(
                evidence.limit.limit_id,
            ) by {
                if i < cause {
                    assert(store.actions[a].handled_for.contains(evidence.limit.limit_id));
                }
            }
        },
        CommandView::InsertHit { record } => {
            if !store.has_hit(record.id) {
                let hit = state.phase->MintingHitId_hit;
                let evidence = state.hits[hit as int];
                assert forall|a: int, h: int|
                    0 <= a < written.actions.len() && 0 <= h < written.hits.len() implies #[trigger] settled(
                    written.actions[a],
                    written.hits[h],
                ) by {
                    if h < store.hits.len() {
                        assert(settled(store.actions[a], store.hits[h]));
                    } else if record.cause.contains(written.actions[a].action_id) {
                        let i = choose|i: int|
                            0 <= i < record.cause.len() && record.cause[i]
                                == written.actions[a].action_id;
                        assert(evidence.cause[i].action_id == store.actions[a].action_id);
                    }
                }
            }
        },
        _ => {},
    }
}

/// A run past the storing of the action keeps the audit trail: whatever the
/// replies, after every command of the run was performed, every stored
/// action that a stored record cites bears that record's limit.
pub proof fn run_keeps_the_audit_trail(
    store: StoreView,
    state: PipelineView,
    replies: Seq<ReplyView>,
)
    requires
        state.wf(),
        store.audited(),
        marks_in_place(store, state),
        !(state.phase is EnsuringGuild),
        !(state.phase is MintingActionId),
    ensures
        performed(store, state, replies).audited(),
    decreases replies.len(),
{
    if replies.len() > 0 {
        step_keeps_the_audit_trail(store, state, replies[0]);
        step_keeps_identity(state, replies[0]);
        run_keeps_the_audit_trail(
            store.perform(state.step(replies[0]).1).0,
            state.step(replies[0]).0,
            replies.drop_first(),
        );
    }
}

/// A whole invocation keeps the audit trail: from the registration of the
/// guild on, whatever the replies, after every command was performed every
/// stored action that a stored record cites bears that record's limit. The
/// one exception is left out: an identifier for the new action, the second
/// reply, that a stored record already cites.
pub proof fn invocation_keeps_the_audit_trail(
    store: StoreView,
    guild_id: u64,
    user_id: u64,
    enforcer_id: u64,
    limit_type: Text,
    action_target: Text,
    replies: Seq<ReplyView>,
)
    requires
        store.audited(),
        replies.len() > 1 && replies[1] is Token ==> !store.cites(replies[1]->Token_0),
    ensures
        performed(
            store.with_guild(guild_id),
            initial(guild_id, user_id, enforcer_id, limit_type, action_target),
            replies,
        ).audited(),
{
    let start = initial(guild_id, user_id, enforcer_id, limit_type, action_target);
    let registered = store.with_guild(guild_id);
    registering_keeps_constraints(store, guild_id);
    reveal_with_fuel(performed, 3);
    if replies.len() > 0 {
        let second = start.step(replies[0]).0;
        let first_written = registered.perform(start.step(replies[0]).1).0;
        step_keeps_the_audit_trail(registered, start, replies[0]);
        step_keeps_identity(start, replies[0]);
        let rest = replies.drop_first();
        assert(first_written == registered);
        if second.phase is MintingActionId {
            if rest.len() > 0 {
                assert(rest[0] == replies[1]);
                assert(registered.cites(replies[1]->Token_0) == store.cites(replies[1]->Token_0));
                step_keeps_the_audit_trail(first_written, second, rest[0]);
                step_keeps_identity(second, rest[0]);
                run_keeps_the_audit_trail(
                    first_written.perform(second.step(rest[0]).1).0,
                    second.step(rest[0]).0,
                    rest.drop_first(),
                );
            }
        } else {
            run_keeps_the_audit_trail(first_written, second, rest);
        }
    }
}

} // verus!
