//! The one question put to the platform's own data in the middle of a
//! decision: which of two members ranks higher in a guild.

use vstd::prelude::*;
use poise::serenity_prelude::{Cache, Guild, UserId};
use crate::gate::Hierarchy;

verus! {

/// serenity's `Guild`: a guild's cached data, carried through unread.
#[verifier::external_type_specification]
#[verifier::external_body]
pub struct ExGuild(Guild);

/// serenity's `Cache`, carried through unread.
#[verifier::external_type_specification]
#[verifier::external_body]
pub struct ExCache(Cache);

/// The user whom serenity's `Guild::greater_member_hierarchy` names for
/// two users in a guild, if it names one. It reads the guild's owner,
/// members and roles and nothing else, so the same guild and users always
/// give the same answer.
pub uninterp spec fn higher_member(guild: Guild, lhs: u64, rhs: u64) -> Option<u64>;

/// Calls serenity's `Guild::greater_member_hierarchy` on the two users.
///
/// Believed, not proved: the answer is the one that the guild's data gives
/// for these two users, whatever the cache holds; it names one of the two
/// users or nobody, and nobody when both are the same user. Zero is no user
/// identifier and is left out.
#[verifier::external_body]
fn greater_member(guild: &Guild, cache: &Cache, lhs: u64, rhs: u64) -> (found: Option<u64>)
    requires
        lhs != 0,
        rhs != 0,
    ensures
        found == higher_member(*guild, lhs, rhs),
        found matches Some(id) ==> id == lhs || id == rhs,
        lhs == rhs ==> found is None,
{
    match guild.greater_member_hierarchy(cache, UserId::new(lhs), UserId::new(rhs)) {
        Some(id) => Some(id.get()),
        None => None,
    }
}

/// What a comparison that ran and named `found` amounts to.
pub open spec fn ranking_of(found: Option<u64>) -> Hierarchy {
    match found {
        Some(id) => Hierarchy::Higher(id),
        None => Hierarchy::Neither,
    }
}

/// Turns the answer of a comparison that ran into a ranking.
pub fn ranking(found: Option<u64>) -> (hierarchy: Hierarchy)
    ensures
        hierarchy == ranking_of(found),
{
    match found {
        Some(id) => Hierarchy::Higher(id),
        None => Hierarchy::Neither,
    }
}

/// The ranking that a guild's data, where it is at hand, gives for the
/// enforcer and the target.
pub open spec fn hierarchy_of(guild: Option<&Guild>, enforcer_id: u64, target_id: u64)
    -> Hierarchy {
    match guild {
        None => Hierarchy::Unavailable,
        Some(data) => if enforcer_id == 0 || target_id == 0 {
            Hierarchy::Neither
        } else {
            ranking_of(higher_member(*data, enforcer_id, target_id))
        },
    }
}

/// Compares the enforcer and the target in the guild's role data.
///
/// Without the guild's data nothing is compared. Zero names no member, so
/// with a zero identifier the comparison names nobody. Otherwise the
/// guild's data decides, and names the enforcer, the target, or nobody.
pub fn compare_hierarchy(
    guild: Option<&Guild>,
    cache: &Cache,
    enforcer_id: u64,
    target_id: u64,
) -> (hierarchy: Hierarchy)
    ensures
        hierarchy == hierarchy_of(guild, enforcer_id, target_id),
        guild matches Some(data) ==> (enforcer_id != 0 && target_id != 0 ==> hierarchy
            == ranking_of(higher_member(*data, enforcer_id, target_id))),
        guild is None <==> hierarchy == Hierarchy::Unavailable,
        guild is Some ==> hierarchy == Hierarchy::Neither || hierarchy == Hierarchy::Higher(
            enforcer_id,
        ) || hierarchy == Hierarchy::Higher(target_id),
        guild is Some && (enforcer_id == 0 || target_id == 0 || enforcer_id == target_id)
            ==> hierarchy == Hierarchy::Neither,
{
    match guild {
        None => Hierarchy::Unavailable,
        Some(guild) => {
            if enforcer_id == 0 || target_id == 0 {
                Hierarchy::Neither
            } else {
                ranking(greater_member(guild, cache, enforcer_id, target_id))
            }
        },
    }
}

} // verus!
