use limit_enforcer::gate::{can_enforce, Hierarchy};
use limit_enforcer::platform::{compare_hierarchy, ranking};
use poise::serenity_prelude::{Cache, Guild, Member, Role, RoleId, UserId};

const OWNER: u64 = 1;
const BOT: u64 = 300;
const USER: u64 = 200;

fn member(user: u64, roles: &[u64]) -> Member {
    let mut m = Member::default();
    m.user.id = UserId::new(user);
    m.roles = roles.iter().map(|r| RoleId::new(*r)).collect();
    m
}

fn role(id: u64, position: u16) -> Role {
    let mut r = Role::default();
    r.id = RoleId::new(id);
    r.position = position;
    r
}

fn guild(owner: u64, members: Vec<Member>, roles: Vec<Role>) -> Guild {
    let mut g = Guild::default();
    g.owner_id = UserId::new(owner);
    for m in members {
        g.members.insert(m.user.id, m);
    }
    for r in roles {
        g.roles.insert(r.id, r);
    }
    g
}

fn ranked() -> Guild {
    guild(
        OWNER,
        vec![member(BOT, &[50]), member(USER, &[40]), member(77, &[50]), member(88, &[])],
        vec![role(50, 9), role(40, 3)],
    )
}

#[test]
fn ranking_names_the_user_found() {
    assert_eq!(ranking(Some(5)), Hierarchy::Higher(5));
    assert_eq!(ranking(Some(0)), Hierarchy::Higher(0));
    assert_eq!(ranking(None), Hierarchy::Neither);
}

#[test]
fn missing_guild_is_unavailable() {
    let cache = Cache::new();
    assert_eq!(compare_hierarchy(None, &cache, BOT, USER), Hierarchy::Unavailable);
    assert_eq!(compare_hierarchy(None, &cache, 0, 0), Hierarchy::Unavailable);
}

#[test]
fn higher_role_position_wins() {
    let cache = Cache::new();
    let g = ranked();
    assert_eq!(compare_hierarchy(Some(&g), &cache, BOT, USER), Hierarchy::Higher(BOT));
    assert_eq!(compare_hierarchy(Some(&g), &cache, USER, BOT), Hierarchy::Higher(BOT));
    assert!(can_enforce(BOT, USER, compare_hierarchy(Some(&g), &cache, BOT, USER)));
    assert!(!can_enforce(USER, BOT, compare_hierarchy(Some(&g), &cache, USER, BOT)));
}

#[test]
fn guild_owner_outranks_everyone() {
    let cache = Cache::new();
    let g = ranked();
    assert_eq!(compare_hierarchy(Some(&g), &cache, BOT, OWNER), Hierarchy::Higher(OWNER));
    assert_eq!(compare_hierarchy(Some(&g), &cache, OWNER, BOT), Hierarchy::Higher(OWNER));
    assert!(!can_enforce(BOT, OWNER, compare_hierarchy(Some(&g), &cache, BOT, OWNER)));
}

#[test]
fn same_top_role_names_nobody() {
    let cache = Cache::new();
    let g = ranked();
    assert_eq!(compare_hierarchy(Some(&g), &cache, BOT, 77), Hierarchy::Neither);
    assert!(!can_enforce(BOT, 77, compare_hierarchy(Some(&g), &cache, BOT, 77)));
}

#[test]
fn member_with_roles_outranks_member_without() {
    let cache = Cache::new();
    let g = ranked();
    assert_eq!(compare_hierarchy(Some(&g), &cache, BOT, 88), Hierarchy::Higher(BOT));
    assert_eq!(compare_hierarchy(Some(&g), &cache, 88, USER), Hierarchy::Higher(USER));
}

#[test]
fn absent_member_names_nobody() {
    let cache = Cache::new();
    let g = ranked();
    assert_eq!(compare_hierarchy(Some(&g), &cache, BOT, 999), Hierarchy::Neither);
    assert_eq!(compare_hierarchy(Some(&g), &cache, 999, USER), Hierarchy::Neither);
}

#[test]
fn same_user_names_nobody() {
    let cache = Cache::new();
    let g = ranked();
    assert_eq!(compare_hierarchy(Some(&g), &cache, BOT, BOT), Hierarchy::Neither);
    assert_eq!(compare_hierarchy(Some(&g), &cache, OWNER, OWNER), Hierarchy::Neither);
}

#[test]
fn zero_identifier_names_nobody() {
    let cache = Cache::new();
    let g = ranked();
    assert_eq!(compare_hierarchy(Some(&g), &cache, 0, USER), Hierarchy::Neither);
    assert_eq!(compare_hierarchy(Some(&g), &cache, BOT, 0), Hierarchy::Neither);
    assert_eq!(compare_hierarchy(Some(&g), &cache, 0, 0), Hierarchy::Neither);
}

#[test]
fn empty_guild_names_only_its_owner() {
    let cache = Cache::new();
    let g = guild(OWNER, vec![], vec![]);
    assert_eq!(compare_hierarchy(Some(&g), &cache, BOT, USER), Hierarchy::Neither);
    assert_eq!(compare_hierarchy(Some(&g), &cache, OWNER, USER), Hierarchy::Higher(OWNER));
}

#[test]
fn same_guild_and_users_give_the_same_answer() {
    let g = ranked();
    let other_cache = Cache::new();
    let cache = Cache::new();
    for (a, b) in [(BOT, USER), (USER, BOT), (BOT, 77), (88, USER), (OWNER, BOT), (BOT, 999)] {
        let first = compare_hierarchy(Some(&g), &cache, a, b);
        assert_eq!(compare_hierarchy(Some(&g), &cache, a, b), first);
        assert_eq!(compare_hierarchy(Some(&g), &other_cache, a, b), first);
        assert_eq!(compare_hierarchy(Some(&g.clone()), &cache, a, b), first);
    }
}
