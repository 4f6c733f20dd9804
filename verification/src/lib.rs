//! Retroactive message editing for a chat platform: the eligibility rules,
//! the replay engine, the per-channel webhook cache and the interaction
//! pipeline, as pure verified logic that a thin runtime drives.

pub mod interaction;
pub mod message;
pub mod platform;
pub mod replay;
pub mod webhooks;

use crate::interaction::{Handler, Interaction};
use vstd::prelude::*;

verus! {

/// What every session of one running agent shares.
pub struct Context {
    /// The id of the application that this agent runs as.
    pub application_id: u64,
    /// The id of the user that this agent acts as.
    pub user_id: u64,
    /// The webhook of every channel that has been edited in.
    pub webhooks_cache: webhooks::Cache,
}

impl Context {
    /// The context of an agent that has cached nothing yet.
    pub fn new(application_id: u64, user_id: u64) -> (ctx: Context)
        ensures
            ctx.application_id == application_id,
            ctx.user_id == user_id,
            ctx.webhooks_cache@.webhooks.dom() == Set::<u64>::empty(),
            ctx.webhooks_cache@.pending.dom() == Set::<u64>::empty(),
            ctx.webhooks_cache@.failed.dom() == Set::<u64>::empty(),
            ctx.webhooks_cache@.next_ticket == 0,
    {
        Context { application_id, user_id, webhooks_cache: webhooks::Cache::new() }
    }

    /// Opens the session of `interaction`.
    pub fn interaction_handler(&self, interaction: Interaction) -> (handler: Handler)
        ensures
            handler@ == interaction::opened(self.application_id, interaction@),
    {
        Handler::new(self, interaction)
    }

    /// Says which commands to register, and where: in the test guild if
    /// there is one, else everywhere.
    pub fn create_commands(&self, test_guild_id: Option<u64>) -> (registration:
        interaction::Registration)
        ensures
            registration.application_id == self.application_id,
            registration.guild_id == test_guild_id,
            interaction::commands_view(registration.commands@) == interaction::known_commands(),
    {
        interaction::create_commands(self.application_id, test_guild_id)
    }
}

} // verus!

