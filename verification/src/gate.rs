//! The authorization gate: may the enforcing agent act against a target?

use vstd::prelude::*;

verus! {

/// What the platform's hierarchy comparison reported for two identities.
#[derive(Clone, Copy, Debug, PartialEq, Eq, Structural)]
pub enum Hierarchy {
    /// The guild's role data could not be obtained, so nothing was compared.
    Unavailable,
    /// The comparison ran and neither identity ranks above the other.
    Neither,
    /// The comparison ran and this identity holds the higher role.
    Higher(u64),
}

/// The three-valued answer on whether enforcement may proceed.
#[derive(Clone, Copy, Debug, PartialEq, Eq, Structural)]
pub enum Verdict {
    /// The enforcer outranks the target.
    Authorized,
    /// The comparison ran and the enforcer does not outrank the target.
    Denied,
    /// The comparison could not run; handled exactly as a denial.
    Unknown,
}

/// The verdict that follows from a comparison result.
pub open spec fn verdict_of(enforcer_id: u64, target_id: u64, hierarchy: Hierarchy) -> Verdict {
    match hierarchy {
        Hierarchy::Unavailable => Verdict::Unknown,
        Hierarchy::Neither => Verdict::Denied,
        Hierarchy::Higher(id) => if id == enforcer_id && enforcer_id != target_id {
            Verdict::Authorized
        } else {
            Verdict::Denied
        },
    }
}

/// Whether enforcement may proceed: only on a positive finding that the
/// enforcer ranks above the target.
pub open spec fn permits(enforcer_id: u64, target_id: u64, hierarchy: Hierarchy) -> bool {
    hierarchy == Hierarchy::Higher(enforcer_id) && enforcer_id != target_id
}

/// Classifies a comparison result.
pub fn assess(enforcer_id: u64, target_id: u64, hierarchy: Hierarchy) -> (verdict: Verdict)
    ensures
        verdict == verdict_of(enforcer_id, target_id, hierarchy),
        verdict == Verdict::Authorized <==> permits(enforcer_id, target_id, hierarchy),
        hierarchy == Hierarchy::Unavailable <==> verdict == Verdict::Unknown,
{
    match hierarchy {
        Hierarchy::Unavailable => Verdict::Unknown,
        Hierarchy::Neither => Verdict::Denied,
        Hierarchy::Higher(id) => {
            if id == enforcer_id && enforcer_id != target_id {
                Verdict::Authorized
            } else {
                Verdict::Denied
            }
        },
    }
}

/// Decides whether the enforcer may act against the target. Anything short
/// of a positive finding denies.
pub fn can_enforce(enforcer_id: u64, target_id: u64, hierarchy: Hierarchy) -> (allowed: bool)
    ensures
        allowed == permits(enforcer_id, target_id, hierarchy),
        allowed == (verdict_of(enforcer_id, target_id, hierarchy) == Verdict::Authorized),
{
    match assess(enforcer_id, target_id, hierarchy) {
        Verdict::Authorized => true,
        Verdict::Denied => false,
        Verdict::Unknown => false,
    }
}

} // verus!
