use limit_enforcer::gate::Hierarchy;
use limit_enforcer::handler::handle_mod_action;
use limit_enforcer::model::{new_action, HitLimitRecord, Limit, LimitAction, LimitHit};
use limit_enforcer::pipeline::{
    Command, Fault, Phase, Pipeline, Reply, ACTION_ID_BYTES, BAN_PURGE_DAYS, HIT_ID_BYTES,
};
use limit_enforcer::store::Store;

const GUILD: u64 = 100;
const USER: u64 = 200;
const BOT: u64 = 300;

fn text(s: &str) -> String {
    s.to_string()
}

fn hit(limit_id: &str, kind: LimitAction, causes: &[&str]) -> LimitHit {
    LimitHit {
        limit: Limit { limit_id: text(limit_id), limit_type: text("Spam"), limit_action: kind },
        cause: causes
            .iter()
            .map(|id| new_action(text(id), GUILD, USER, text("Spam"), text("#general")))
            .collect(),
    }
}

/// Everything outside the pipeline, scripted.
struct World {
    store: Store,
    hits: Option<Vec<LimitHit>>,
    rankings: Vec<Hierarchy>,
    roles: Option<Vec<u64>>,
    failing_roles: Vec<u64>,
    expulsion_fails: bool,
    failing_command: Option<&'static str>,
    tokens_run_dry: bool,
    minted: u32,
    token_sizes: Vec<usize>,
    calls: Vec<String>,
    gate_checks: usize,
}

fn world(hits: Vec<LimitHit>, rankings: Vec<Hierarchy>) -> World {
    World {
        store: Store::new(),
        hits: Some(hits),
        rankings,
        roles: None,
        failing_roles: vec![],
        expulsion_fails: false,
        failing_command: None,
        tokens_run_dry: false,
        minted: 0,
        token_sizes: vec![],
        calls: vec![],
        gate_checks: 0,
    }
}

fn done(ok: bool) -> Reply {
    if ok {
        Reply::Done
    } else {
        Reply::Failed
    }
}

fn answer(w: &mut World, command: Command) -> Reply {
    let failing = match &command {
        Command::EnsureGuild { .. } => w.failing_command == Some("ensure"),
        Command::InsertAction { .. } => w.failing_command == Some("insert_action"),
        Command::MarkHandled { .. } => w.failing_command == Some("mark"),
        Command::InsertHit { .. } => w.failing_command == Some("insert_hit"),
        _ => false,
    };
    if failing {
        return Reply::Failed;
    }
    if let Some(reply) = w.store.perform(&command) {
        return reply;
    }
    match command {
        Command::FreshToken { n_bytes } => {
            w.token_sizes.push(n_bytes);
            if w.tokens_run_dry {
                return Reply::Failed;
            }
            w.minted += 1;
            Reply::Token(format!("token-{}", w.minted))
        }
        Command::Evaluate { guild_id, user_id } => {
            assert_eq!((guild_id, user_id), (GUILD, USER));
            match w.hits.take() {
                Some(hits) => Reply::Hits(hits),
                None => Reply::Failed,
            }
        }
        Command::CompareHierarchy { guild_id, enforcer_id, target_id } => {
            assert_eq!((guild_id, enforcer_id, target_id), (GUILD, BOT, USER));
            let ranking = w.rankings[w.gate_checks];
            w.gate_checks += 1;
            Reply::Ranking(ranking)
        }
        Command::FetchRoles { guild_id, user_id } => {
            assert_eq!((guild_id, user_id), (GUILD, USER));
            w.calls.push(text("member"));
            match w.roles.clone() {
                Some(roles) => Reply::Roles(roles),
                None => Reply::Failed,
            }
        }
        Command::RemoveRole { guild_id, user_id, role_id } => {
            assert_eq!((guild_id, user_id), (GUILD, USER));
            w.calls.push(format!("remove_role {}", role_id));
            done(!w.failing_roles.contains(&role_id))
        }
        Command::Kick { guild_id, user_id } => {
            assert_eq!((guild_id, user_id), (GUILD, USER));
            w.calls.push(text("kick"));
            done(!w.expulsion_fails)
        }
        Command::Ban { guild_id, user_id, purge_days } => {
            assert_eq!((guild_id, user_id), (GUILD, USER));
            w.calls.push(format!("ban {}", purge_days));
            done(!w.expulsion_fails)
        }
        _ => unreachable!(),
    }
}

fn run(w: &mut World) -> Result<(), Fault> {
    let (mut pipeline, mut command) =
        handle_mod_action(GUILD, USER, BOT, text("Spam"), text("#general"));
    let mut steps = 0;
    loop {
        if let Command::Finish { result } = command {
            assert!(pipeline.ended());
            return result;
        }
        assert!(!pipeline.ended());
        let reply = answer(w, command);
        command = pipeline.resume(reply);
        steps += 1;
        assert!(steps < 10_000);
    }
}

fn started(target: &str) -> Pipeline {
    handle_mod_action(GUILD, USER, BOT, text("Spam"), text(target)).0
}

fn record(id: &str, limit_id: &str, causes: &[&str]) -> HitLimitRecord {
    HitLimitRecord {
        id: text(id),
        guild_id: GUILD,
        user_id: USER,
        limit_id: text(limit_id),
        cause: causes.iter().map(|c| text(c)).collect(),
    }
}

#[test]
fn first_command_registers_the_guild() {
    let (pipeline, command) = handle_mod_action(GUILD, USER, BOT, text("Spam"), text("t"));
    assert_eq!(command, Command::EnsureGuild { guild_id: GUILD });
    assert_eq!(pipeline.phase(), Phase::EnsuringGuild);
    assert!(!pipeline.ended());
}

#[test]
fn action_is_stored_after_guild_and_token() {
    let mut p = started("#general");
    assert_eq!(p.resume(Reply::Done), Command::FreshToken { n_bytes: 48 });
    assert_eq!(ACTION_ID_BYTES, 48);
    assert_eq!(p.phase(), Phase::MintingActionId);
    assert_eq!(
        p.resume(Reply::Token(text("abc"))),
        Command::InsertAction {
            action_id: text("abc"),
            guild_id: GUILD,
            user_id: USER,
            limit_type: text("Spam"),
            action_target: text("#general"),
        }
    );
    assert_eq!(p.phase(), Phase::RecordingAction);
    assert_eq!(p.resume(Reply::Done), Command::Evaluate { guild_id: GUILD, user_id: USER });
    assert_eq!(p.phase(), Phase::Evaluating);
}

#[test]
fn no_hits_means_success_and_one_stored_action() {
    let mut w = world(vec![], vec![]);
    assert_eq!(run(&mut w), Ok(()));
    assert_eq!(w.store.guilds(), &vec![GUILD]);
    assert_eq!(w.store.actions().len(), 1);
    assert_eq!(
        w.store.actions()[0],
        new_action(text("token-1"), GUILD, USER, text("Spam"), text("#general"))
    );
    assert!(w.store.hits().is_empty());
    assert!(w.calls.is_empty());
    assert_eq!(w.token_sizes, vec![48]);
}

#[test]
fn kick_hit_is_enforced_and_audited() {
    let mut w = world(
        vec![hit("L1", LimitAction::KickUser, &["token-1"])],
        vec![Hierarchy::Higher(BOT)],
    );
    assert_eq!(run(&mut w), Ok(()));
    assert_eq!(w.calls, vec![text("kick")]);
    assert_eq!(w.store.hits(), &vec![record("token-2", "L1", &["token-1"])]);
    assert_eq!(w.store.actions()[0].handled_for, vec![text("L1")]);
    assert_eq!(w.token_sizes, vec![48, 16]);
    assert_eq!(HIT_ID_BYTES, 16);
}

#[test]
fn denied_hit_leaves_no_trace() {
    let mut w = world(
        vec![hit("L1", LimitAction::KickUser, &["token-1"])],
        vec![Hierarchy::Higher(USER)],
    );
    assert_eq!(run(&mut w), Ok(()));
    assert!(w.calls.is_empty());
    assert!(w.store.hits().is_empty());
    assert_eq!(w.store.actions().len(), 1);
    assert!(w.store.actions()[0].handled_for.is_empty());
}

#[test]
fn second_hit_denied_keeps_only_the_first_record() {
    let mut w = world(
        vec![
            hit("L1", LimitAction::KickUser, &["token-1"]),
            hit("L2", LimitAction::BanUser, &["token-1"]),
        ],
        vec![Hierarchy::Higher(BOT), Hierarchy::Higher(USER)],
    );
    assert_eq!(run(&mut w), Ok(()));
    assert_eq!(w.calls, vec![text("kick")]);
    assert_eq!(w.store.hits(), &vec![record("token-2", "L1", &["token-1"])]);
    assert_eq!(w.store.actions()[0].handled_for, vec![text("L1")]);
    assert_eq!(w.gate_checks, 2);
}

#[test]
fn denial_stops_all_later_hits() {
    let mut w = world(
        vec![
            hit("L1", LimitAction::KickUser, &["token-1"]),
            hit("L2", LimitAction::BanUser, &["token-1"]),
            hit("L3", LimitAction::RemoveAllRoles, &["token-1"]),
        ],
        vec![Hierarchy::Neither, Hierarchy::Higher(BOT), Hierarchy::Higher(BOT)],
    );
    assert_eq!(run(&mut w), Ok(()));
    assert_eq!(w.gate_checks, 1);
    assert!(w.calls.is_empty());
    assert!(w.store.hits().is_empty());
}

#[test]
fn failed_role_removal_does_not_stop_the_others() {
    let mut w = world(
        vec![hit("L1", LimitAction::RemoveAllRoles, &["token-1"])],
        vec![Hierarchy::Higher(BOT)],
    );
    w.roles = Some(vec![11, 12, 13]);
    w.failing_roles = vec![12];
    assert_eq!(run(&mut w), Ok(()));
    assert_eq!(
        w.calls,
        vec![text("member"), text("remove_role 11"), text("remove_role 12"), text("remove_role 13")]
    );
    assert_eq!(w.store.hits(), &vec![record("token-2", "L1", &["token-1"])]);
}

#[test]
fn member_without_roles_is_still_audited() {
    let mut w = world(
        vec![hit("L1", LimitAction::RemoveAllRoles, &["token-1"])],
        vec![Hierarchy::Higher(BOT)],
    );
    w.roles = Some(vec![]);
    assert_eq!(run(&mut w), Ok(()));
    assert_eq!(w.calls, vec![text("member")]);
    assert_eq!(w.store.hits().len(), 1);
}

#[test]
fn unfetchable_member_is_still_audited() {
    let mut w = world(
        vec![hit("L1", LimitAction::RemoveAllRoles, &["token-1"])],
        vec![Hierarchy::Higher(BOT)],
    );
    w.roles = None;
    assert_eq!(run(&mut w), Ok(()));
    assert_eq!(w.calls, vec![text("member")]);
    assert_eq!(w.store.hits(), &vec![record("token-2", "L1", &["token-1"])]);
}

#[test]
fn failed_kick_is_still_audited() {
    let mut w = world(
        vec![hit("L1", LimitAction::KickUser, &["token-1"])],
        vec![Hierarchy::Higher(BOT)],
    );
    w.expulsion_fails = true;
    assert_eq!(run(&mut w), Ok(()));
    assert_eq!(w.calls, vec![text("kick")]);
    assert_eq!(w.store.hits(), &vec![record("token-2", "L1", &["token-1"])]);
    assert_eq!(w.store.actions()[0].handled_for, vec![text("L1")]);
}

#[test]
fn ban_purges_no_messages() {
    let mut w = world(
        vec![hit("L1", LimitAction::BanUser, &["token-1"])],
        vec![Hierarchy::Higher(BOT)],
    );
    w.expulsion_fails = true;
    assert_eq!(run(&mut w), Ok(()));
    assert_eq!(w.calls, vec![text("ban 0")]);
    assert_eq!(BAN_PURGE_DAYS, 0);
    assert_eq!(w.store.hits().len(), 1);
}

#[test]
fn unavailable_guild_data_denies_without_error() {
    let mut w = world(
        vec![hit("L1", LimitAction::BanUser, &["token-1"])],
        vec![Hierarchy::Unavailable],
    );
    assert_eq!(run(&mut w), Ok(()));
    assert!(w.calls.is_empty());
    assert!(w.store.hits().is_empty());
}

#[test]
fn two_authorized_hits_are_both_audited_in_order() {
    let mut w = world(
        vec![
            hit("L1", LimitAction::KickUser, &["token-1"]),
            hit("L2", LimitAction::BanUser, &["token-1", "older"]),
        ],
        vec![Hierarchy::Higher(BOT), Hierarchy::Higher(BOT)],
    );
    assert_eq!(run(&mut w), Ok(()));
    assert_eq!(w.calls, vec![text("kick"), text("ban 0")]);
    assert_eq!(
        w.store.hits(),
        &vec![record("token-2", "L1", &["token-1"]), record("token-3", "L2", &["token-1", "older"])]
    );
    assert_eq!(w.store.actions()[0].handled_for, vec![text("L1"), text("L2")]);
    assert_eq!(w.token_sizes, vec![48, 16, 16]);
}

#[test]
fn failed_guild_registration_aborts() {
    let mut w = world(vec![hit("L1", LimitAction::KickUser, &["x"])], vec![Hierarchy::Higher(BOT)]);
    w.failing_command = Some("ensure");
    assert_eq!(run(&mut w), Err(Fault::EnsureGuild));
    assert!(w.store.guilds().is_empty());
    assert!(w.store.actions().is_empty());
    assert!(w.token_sizes.is_empty());
}

#[test]
fn missing_action_token_aborts() {
    let mut w = world(vec![], vec![]);
    w.tokens_run_dry = true;
    assert_eq!(run(&mut w), Err(Fault::Identifier));
    assert!(w.store.actions().is_empty());
}

#[test]
fn failed_action_insert_aborts_before_evaluation() {
    let mut w = world(vec![hit("L1", LimitAction::KickUser, &["x"])], vec![Hierarchy::Higher(BOT)]);
    w.failing_command = Some("insert_action");
    assert_eq!(run(&mut w), Err(Fault::RecordAction));
    assert!(w.hits.is_some());
    assert!(w.calls.is_empty());
}

#[test]
fn failed_evaluation_aborts() {
    let mut w = world(vec![], vec![]);
    w.hits = None;
    assert_eq!(run(&mut w), Err(Fault::Evaluation));
    assert_eq!(w.store.actions().len(), 1);
    assert!(w.store.hits().is_empty());
}

#[test]
fn failed_mark_aborts_after_remediation() {
    let mut w = world(
        vec![
            hit("L1", LimitAction::KickUser, &["token-1"]),
            hit("L2", LimitAction::BanUser, &["token-1"]),
        ],
        vec![Hierarchy::Higher(BOT), Hierarchy::Higher(BOT)],
    );
    w.failing_command = Some("mark");
    assert_eq!(run(&mut w), Err(Fault::MarkHandled));
    assert_eq!(w.calls, vec![text("kick")]);
    assert!(w.store.hits().is_empty());
    assert_eq!(w.gate_checks, 1);
}

#[test]
fn failed_record_insert_aborts_remaining_hits() {
    let mut w = world(
        vec![
            hit("L1", LimitAction::KickUser, &["token-1"]),
            hit("L2", LimitAction::BanUser, &["token-1"]),
        ],
        vec![Hierarchy::Higher(BOT), Hierarchy::Higher(BOT)],
    );
    w.failing_command = Some("insert_hit");
    assert_eq!(run(&mut w), Err(Fault::RecordHit));
    assert_eq!(w.calls, vec![text("kick")]);
    assert!(w.store.hits().is_empty());
    assert_eq!(w.store.actions()[0].handled_for, vec![text("L1")]);
}

#[test]
fn missing_record_token_aborts() {
    let mut p = started("t");
    p.resume(Reply::Done);
    p.resume(Reply::Token(text("a")));
    p.resume(Reply::Done);
    p.resume(Reply::Hits(vec![hit("L1", LimitAction::KickUser, &[])]));
    assert_eq!(p.phase(), Phase::Gating { hit: 0 });
    assert_eq!(
        p.resume(Reply::Ranking(Hierarchy::Higher(BOT))),
        Command::Kick { guild_id: GUILD, user_id: USER }
    );
    assert_eq!(p.phase(), Phase::Expelling { hit: 0 });
    assert_eq!(p.resume(Reply::Done), Command::FreshToken { n_bytes: 16 });
    assert_eq!(p.phase(), Phase::MintingHitId { hit: 0 });
    assert_eq!(p.resume(Reply::Failed), Command::Finish { result: Err(Fault::Identifier) });
    assert_eq!(p.phase(), Phase::Aborted(Fault::Identifier));
}

#[test]
fn duplicate_action_token_aborts() {
    let mut w = world(vec![], vec![]);
    w.store.ensure_guild(GUILD);
    assert_eq!(
        w.store.record_action(text("token-1"), GUILD, USER, text("Spam"), text("t")),
        Ok(())
    );
    assert_eq!(run(&mut w), Err(Fault::RecordAction));
    assert_eq!(w.store.actions().len(), 1);
}

#[test]
fn ended_invocation_repeats_its_result() {
    let mut p = started("t");
    assert_eq!(p.resume(Reply::Failed), Command::Finish { result: Err(Fault::EnsureGuild) });
    assert!(p.ended());
    assert_eq!(p.resume(Reply::Done), Command::Finish { result: Err(Fault::EnsureGuild) });
    assert_eq!(
        p.resume(Reply::Hits(vec![hit("L1", LimitAction::KickUser, &["x"])])),
        Command::Finish { result: Err(Fault::EnsureGuild) }
    );
    assert_eq!(p.phase(), Phase::Aborted(Fault::EnsureGuild));

    let mut q = started("t");
    q.resume(Reply::Done);
    q.resume(Reply::Token(text("a")));
    q.resume(Reply::Done);
    assert_eq!(q.resume(Reply::Hits(vec![])), Command::Finish { result: Ok(()) });
    assert_eq!(q.phase(), Phase::Completed);
    assert_eq!(q.resume(Reply::Ranking(Hierarchy::Higher(BOT))), Command::Finish { result: Ok(()) });
    assert_eq!(q.resume(Reply::Failed), Command::Finish { result: Ok(()) });
}

#[test]
fn wrong_kind_of_reply_to_the_comparison_denies() {
    let mut p = started("t");
    p.resume(Reply::Done);
    p.resume(Reply::Token(text("a")));
    p.resume(Reply::Done);
    assert_eq!(
        p.resume(Reply::Hits(vec![hit("L1", LimitAction::BanUser, &["a"])])),
        Command::CompareHierarchy { guild_id: GUILD, enforcer_id: BOT, target_id: USER }
    );
    assert_eq!(p.resume(Reply::Done), Command::Finish { result: Ok(()) });
}

#[test]
fn causes_are_marked_in_order_before_the_record() {
    let mut p = started("t");
    p.resume(Reply::Done);
    p.resume(Reply::Token(text("a")));
    p.resume(Reply::Done);
    p.resume(Reply::Hits(vec![hit("L9", LimitAction::BanUser, &["c2", "c1"])]));
    assert_eq!(
        p.resume(Reply::Ranking(Hierarchy::Higher(BOT))),
        Command::Ban { guild_id: GUILD, user_id: USER, purge_days: 0 }
    );
    assert_eq!(
        p.resume(Reply::Failed),
        Command::MarkHandled { action_id: text("c2"), limit_id: text("L9") }
    );
    assert_eq!(p.phase(), Phase::Marking { hit: 0, cause: 0 });
    assert_eq!(
        p.resume(Reply::Done),
        Command::MarkHandled { action_id: text("c1"), limit_id: text("L9") }
    );
    assert_eq!(p.phase(), Phase::Marking { hit: 0, cause: 1 });
    assert_eq!(p.resume(Reply::Done), Command::FreshToken { n_bytes: 16 });
    assert_eq!(
        p.resume(Reply::Token(text("r"))),
        Command::InsertHit { record: record("r", "L9", &["c2", "c1"]) }
    );
    assert_eq!(p.phase(), Phase::WritingHit { hit: 0 });
    assert_eq!(p.resume(Reply::Done), Command::Finish { result: Ok(()) });
}

#[test]
fn role_removal_walks_every_role() {
    let mut p = started("t");
    p.resume(Reply::Done);
    p.resume(Reply::Token(text("a")));
    p.resume(Reply::Done);
    p.resume(Reply::Hits(vec![hit("L1", LimitAction::RemoveAllRoles, &[])]));
    assert_eq!(
        p.resume(Reply::Ranking(Hierarchy::Higher(BOT))),
        Command::FetchRoles { guild_id: GUILD, user_id: USER }
    );
    assert_eq!(p.phase(), Phase::FetchingRoles { hit: 0 });
    assert_eq!(
        p.resume(Reply::Roles(vec![5, 6])),
        Command::RemoveRole { guild_id: GUILD, user_id: USER, role_id: 5 }
    );
    assert_eq!(p.phase(), Phase::RemovingRoles { hit: 0, role: 0 });
    assert_eq!(
        p.resume(Reply::Failed),
        Command::RemoveRole { guild_id: GUILD, user_id: USER, role_id: 6 }
    );
    assert_eq!(p.resume(Reply::Failed), Command::FreshToken { n_bytes: 16 });
}

#[test]
fn audit_commands_leave_the_store_as_one_audit_does() {
    let h = hit("L1", LimitAction::KickUser, &["a2", "a1", "zz"]);
    let mut by_commands = Store::new();
    by_commands.ensure_guild(GUILD);
    for id in ["a1", "a2", "a3"] {
        assert!(by_commands.record_action(text(id), GUILD, USER, text("Spam"), text("t")).is_ok());
    }
    let mut at_once = Store::new();
    at_once.ensure_guild(GUILD);
    for id in ["a1", "a2", "a3"] {
        assert!(at_once.record_action(text(id), GUILD, USER, text("Spam"), text("t")).is_ok());
    }

    let mut p = started("t");
    p.resume(Reply::Done);
    p.resume(Reply::Token(text("a4")));
    p.resume(Reply::Done);
    p.resume(Reply::Hits(vec![h.clone()]));
    p.resume(Reply::Ranking(Hierarchy::Higher(BOT)));
    let mut command = p.resume(Reply::Failed);
    let mut writes = 0;
    loop {
        match by_commands.perform(&command) {
            Some(reply) => {
                writes += 1;
                command = p.resume(reply);
            }
            None => match command {
                Command::FreshToken { n_bytes: 16 } => command = p.resume(Reply::Token(text("r1"))),
                Command::Finish { result } => {
                    assert_eq!(result, Ok(()));
                    break;
                }
                other => panic!("unexpected {:?}", other),
            },
        }
    }
    assert_eq!(writes, 4);
    assert_eq!(at_once.record_hit(&h, GUILD, USER, text("r1")), Ok(()));
    assert_eq!(by_commands.actions(), at_once.actions());
    assert_eq!(by_commands.hits(), at_once.hits());
    assert_eq!(by_commands.guilds(), at_once.guilds());
    assert_eq!(by_commands.hits()[0].cause, vec![text("a2"), text("a1"), text("zz")]);
}

#[test]
fn every_authorized_run_ends() {
    let hits: Vec<LimitHit> = (0..20)
        .map(|i| {
            let kind = match i % 3 {
                0 => LimitAction::RemoveAllRoles,
                1 => LimitAction::KickUser,
                _ => LimitAction::BanUser,
            };
            hit(&format!("L{}", i), kind, &["token-1", "x", "y"])
        })
        .collect();
    let mut w = world(hits, vec![Hierarchy::Higher(BOT); 20]);
    w.roles = Some(vec![1, 2, 3, 4]);
    w.failing_roles = vec![2, 4];
    w.expulsion_fails = true;
    assert_eq!(run(&mut w), Ok(()));
    assert_eq!(w.store.hits().len(), 20);
    assert_eq!(w.gate_checks, 20);
    assert_eq!(w.calls.iter().filter(|c| c.starts_with("remove_role")).count(), 7 * 4);
    assert_eq!(w.calls.iter().filter(|c| *c == "kick").count(), 7);
    assert_eq!(w.calls.iter().filter(|c| *c == "ban 0").count(), 6);
    assert_eq!(w.store.actions()[0].handled_for.len(), 20);
}
