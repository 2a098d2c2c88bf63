//! Dispatches incoming events onto framework commands.

pub mod event;
pub mod run;
pub mod slash;

use crate::string_map::StringMap;
use crate::structs::command_override::CommandOverride;
use crate::structs::command_storage::CommandStorage;
use crate::structs::updateable::{UpdateableArcSwapArc, UpdateableCommandStorageArc};
use serenity::gateway::ShardManager;
use std::collections::HashMap;
use std::sync::Arc;
use vstd::prelude::*;

verus! {

/// The manager of the connections to Discord.
#[verifier::external_type_specification]
#[verifier::external_body]
pub struct ExShardManager(ShardManager);

/// What the framework reads from the client's context.
#[derive(Debug)]
pub struct ClientContext<U> {
    /// The user ID of the bot.
    pub current_user_id: u64,
    /// The data of the bot.
    pub data: Arc<U>,
}

/// A view into data stored by the framework.
pub struct FrameworkContext<'a, U, O> {
    /// The client's context.
    pub serenity_context: &'a ClientContext<U>,
    /// Framework configuration.
    pub options: &'a O,
    /// Serenity shard manager. Can be used for example to shutdown the bot.
    pub shard_manager: &'a Arc<ShardManager>,
}

impl<U, O> Copy for FrameworkContext<'_, U, O> {

}

impl<U, O> Clone for FrameworkContext<'_, U, O> {
    fn clone(&self) -> (r: Self)
        ensures
            r == *self,
    {
        *self
    }
}

impl<'a, U, O> FrameworkContext<'a, U, O> {
    /// Returns the user ID of the bot.
    pub fn bot_id(&self) -> (r: u64)
        ensures
            r == self.serenity_context.current_user_id,
    {
        self.serenity_context.current_user_id
    }

    /// Returns the stored framework options, including commands.
    pub fn options(&self) -> (r: &'a O)
        ensures
            r == self.options,
    {
        self.options
    }

    /// Returns the serenity's client shard manager.
    pub fn shard_manager(&self) -> (r: Arc<ShardManager>)
        ensures
            r == *self.shard_manager,
    {
        self.shard_manager.clone()
    }

    /// Retrieves user data.
    pub fn user_data(&self) -> (r: Arc<U>)
        ensures
            r == self.serenity_context.data,
    {
        self.serenity_context.data.clone()
    }
}

/// The commands of a guild and their overrides.
pub type GuildCommands<H> = (
    UpdateableCommandStorageArc<H>,
    UpdateableArcSwapArc<StringMap<CommandOverride>>,
);

/// Finds what is stored for a guild. Where there is no guild, nothing is found.
pub fn find_guild<'a, G>(guilds: &'a HashMap<u64, G>, guild_id: &Option<u64>) -> (r: Option<&'a G>)
    ensures
        match r {
            Some(found) => *guild_id matches Some(id) && guilds@.contains_key(id) && *found
                == guilds@[id],
            None => *guild_id matches Some(id) ==> !guilds@.contains_key(id),
        },
{
    broadcast use vstd::std_specs::hash::group_hash_axioms;

    match guild_id {
        Some(id) => guilds.get(id),
        None => None,
    }
}

/// The commands of a guild and their overrides, as they are just now.
///
/// Both can be replaced at any time, so it is not said which data that is, but that it is what was
/// stored for this guild.
pub fn get_guild_commands<H>(
    guild_commands: &HashMap<u64, GuildCommands<H>>,
    guild_id: &Option<u64>,
) -> (r: Option<(Arc<CommandStorage<H>>, Arc<StringMap<CommandOverride>>)>)
    ensures
        r is Some <==> (*guild_id matches Some(id) && guild_commands@.contains_key(id)),
        r matches Some((commands, overrides)) ==> {
            let found = guild_commands@[guild_id->0];
            &&& found.0.0.cell().can_give(commands)
            &&& found.1.0.cell().can_give(overrides)
        },
{
    match find_guild(guild_commands, guild_id) {
        Some(found) => Some((found.0.0.deref_owned(), found.1.0.deref_owned())),
        None => None,
    }
}

/// Borrows both parts of an optional pair.
pub fn deref_optional_tuple<T, U>(lock: &Option<(T, U)>) -> (r: Option<(&T, &U)>)
    ensures
        r == (match *lock {
            None => None::<(&T, &U)>,
            Some((t, u)) => Some((&t, &u)),
        }),
{
    match lock {
        None => None,
        Some((t, u)) => Some((t, u)),
    }
}

} // verus!
