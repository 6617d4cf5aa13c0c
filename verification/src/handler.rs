//! Entry points: registering a guild, and starting the enforcement pipeline
//! for one observed action.

use vstd::prelude::*;
use crate::pipeline::{initial, Command, CommandView, Pipeline};
use crate::store::Store;

verus! {

/// Registers the guild in the store unless it is registered already. A
/// second call for the same guild changes nothing.
pub fn create_guild_if_not_exists(guild_id: u64, store: &mut Store)
    ensures
        final(store)@ == old(store)@.with_guild(guild_id),
        final(store)@.has_guild(guild_id),
        old(store)@.wf() ==> final(store)@.wf(),
        old(store)@.audited() ==> final(store)@.audited(),
{
    store.ensure_guild(guild_id)
}

/// Starts the enforcement pipeline for one observed action of `user_id` in
/// `guild_id`, to be enforced in the name of `enforcer_id`. Returns the
/// invocation and its first command: the guild is registered before
/// anything is stored for it.
pub fn handle_mod_action(
    guild_id: u64,
    user_id: u64,
    enforcer_id: u64,
    action: String,
    action_target: String,
) -> (started: (Pipeline, Command))
    ensures
        started.0@ == initial(guild_id, user_id, enforcer_id, action@, action_target@),
        started.0@.wf(),
        started.1@ == (CommandView::EnsureGuild { guild_id }),
{
    let pipeline = Pipeline::start(guild_id, user_id, enforcer_id, action, action_target);
    (pipeline, Command::EnsureGuild { guild_id })
}

} // verus!
