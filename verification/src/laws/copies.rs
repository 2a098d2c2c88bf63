//! Laws on copies of commands.

use crate::structs::cloning::{same_command, same_commands, same_parameter};
use crate::structs::command::{Command, CommandParameter};
use vstd::prelude::*;

verus! {

/// A copy of a parameter has all that the parameter has, with its choices in their order.
pub proof fn law_copy_of_parameter<H>(a: CommandParameter<H>, b: CommandParameter<H>, i: int)
    requires
        same_parameter(a, b),
    ensures
        a.name@ == b.name@,
        a.name_localizations@ == b.name_localizations@,
        a.description == b.description,
        a.description_localizations@ == b.description_localizations@,
        a.autocomplete_callback == b.autocomplete_callback,
        a.slash_option == b.slash_option,
        a.choices@.len() == b.choices@.len(),
        0 <= i < a.choices@.len() ==> {
            &&& a.choices@[i].name@ == b.choices@[i].name@
            &&& a.choices@[i].localizations@ == b.choices@[i].localizations@
        },
{
}

proof fn lemma_same_commands<H>(s: Seq<Command<H>>, t: Seq<Command<H>>, n: nat, i: int)
    requires
        same_commands(s, t, n),
        0 <= i < n <= s.len(),
    ensures
        same_command(s[i], t[i]),
    decreases n,
{
    if i < n - 1 {
        lemma_same_commands(s, t, (n - 1) as nat, i);
    }
}

/// A copy of a command has all that the command has: its callbacks, its names and texts, its flags
/// and permissions, its parameters and its subcommands in their order.
pub proof fn law_copy_of_command<H>(a: Command<H>, b: Command<H>, i: int)
    requires
        same_command(a, b),
    ensures
        a.prefix_action == b.prefix_action,
        a.slash_action == b.slash_action,
        a.context_menu_action == b.context_menu_action,
        a.on_error == b.on_error,
        a.checks@ == b.checks@,
        a.cooldowns == b.cooldowns,
        a.cooldown_config == b.cooldown_config,
        a.custom_data == b.custom_data,
        a.name == b.name,
        a.name_localizations@ == b.name_localizations@,
        a.qualified_name == b.qualified_name,
        a.identifying_name == b.identifying_name,
        a.source_code_name == b.source_code_name,
        a.category == b.category,
        a.description == b.description,
        a.description_localizations@ == b.description_localizations@,
        a.help_text == b.help_text,
        a.command_id == b.command_id,
        a.aliases@ == b.aliases@,
        a.context_menu_name == b.context_menu_name,
        a.subcommand_required == b.subcommand_required,
        a.hide_in_help == b.hide_in_help,
        a.manual_cooldowns == b.manual_cooldowns,
        a.reuse_response == b.reuse_response,
        a.owners_only == b.owners_only,
        a.guild_only == b.guild_only,
        a.dm_only == b.dm_only,
        a.nsfw_only == b.nsfw_only,
        a.invoke_on_edit == b.invoke_on_edit,
        a.track_deletion == b.track_deletion,
        a.broadcast_typing == b.broadcast_typing,
        a.ephemeral == b.ephemeral,
        a.default_member_permissions == b.default_member_permissions,
        a.required_permissions == b.required_permissions,
        a.required_bot_permissions == b.required_bot_permissions,
        a.install_context is Some <==> b.install_context is Some,
        a.install_context is Some ==> a.install_context->0@ == b.install_context->0@,
        a.interaction_context is Some <==> b.interaction_context is Some,
        a.interaction_context is Some ==> a.interaction_context->0@ == b.interaction_context->0@,
        a.parameters@.len() == b.parameters@.len(),
        0 <= i < a.parameters@.len() ==> same_parameter(a.parameters@[i], b.parameters@[i]),
        a.subcommands@.len() == b.subcommands@.len(),
        0 <= i < a.subcommands@.len() ==> same_command(a.subcommands@[i], b.subcommands@[i]),
{
    if 0 <= i < a.subcommands@.len() {
        lemma_same_commands(a.subcommands@, b.subcommands@, a.subcommands@.len(), i);
    }
}

/// A copy of stored commands has a copy of each of them, in its place.
pub proof fn law_copy_of_storage<H>(s: Seq<Command<H>>, t: Seq<Command<H>>, i: int)
    requires
        same_commands(s, t, s.len()),
        0 <= i < s.len(),
    ensures
        same_command(s[i], t[i]),
        s[i].name == t[i].name,
        s[i].slash_action == t[i].slash_action,
        s[i].interaction_context is Some <==> t[i].interaction_context is Some,
{
    lemma_same_commands(s, t, s.len(), i);
    law_copy_of_command(s[i], t[i], 0);
}

} // verus!
