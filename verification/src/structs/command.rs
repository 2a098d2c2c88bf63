//! The Command struct, which stores all information about a single framework command.

use crate::structs::command_storage::CommandStorage;
use serenity::builder::CreateCommandOption;
use serenity::model::application::{InstallationContext, InteractionContext};
use vstd::prelude::*;

verus! {

/// The action of a context menu command. The variant shows which Discord item it works on.
#[derive(Debug, Clone, Copy)]
pub enum ContextMenuCommandAction<H> {
    /// Works on a user.
    User(H),
    /// Works on a message.
    Message(H),
}

/// One of the values that a parameter can be restricted to.
#[derive(Debug)]
pub struct CommandParameterChoice {
    /// Label of this choice.
    pub name: String,
    /// Localized labels with the locale string as the key.
    pub localizations: Vec<(String, String)>,
}

/// A single parameter of a [`Command`].
#[derive(Debug)]
pub struct CommandParameter<H> {
    /// Name of this command parameter.
    pub name: String,
    /// Localized names with locale string as the key (slash-only).
    pub name_localizations: Vec<(String, String)>,
    /// Description of the command.
    pub description: Option<String>,
    /// Localized descriptions with locale string as the key (slash-only).
    pub description_localizations: Vec<(String, String)>,
    /// The values that this parameter is restricted to, if there are any.
    pub choices: Vec<CommandParameterChoice>,
    /// Proposes values while the user is still typing.
    pub autocomplete_callback: Option<H>,
    /// The option that this parameter is registered as, unless it is incompatible with slash
    /// commands.
    pub slash_option: Option<CreateCommandOption>,
}

/// All information about a single command. `H` is the type of the callbacks, and of the handles to
/// data that is kept elsewhere. A copy of a command shares that data.
#[derive(Debug)]
pub struct Command<H> {
    // ============= Callbacks
    /// Callback to execute when this command is invoked in a prefix context.
    pub prefix_action: Option<H>,
    /// Callback to execute when this command is invoked in a slash context.
    pub slash_action: Option<H>,
    /// Callback to execute when this command is invoked in a context menu context.
    pub context_menu_action: Option<ContextMenuCommandAction<H>>,
    // ============= Command type agnostic data
    /// Subcommands of this command, if any.
    pub subcommands: CommandStorage<H>,
    /// Require a subcommand to be invoked.
    pub subcommand_required: bool,
    /// Main name of the command. Aliases (prefix-only) can be set in [`Self::aliases`].
    pub name: String,
    /// Localized names with locale string as the key (slash-only).
    pub name_localizations: Vec<(String, String)>,
    /// Full name including parent command names.
    ///
    /// Initially set to just [`Self::name`]; see [`CommandStorage::set_qualified_names`].
    pub qualified_name: String,
    /// A string to identify this particular command within a list of commands.
    pub identifying_name: String,
    /// The name of the function that the command was made from.
    pub source_code_name: String,
    /// Identifier for the category that this command will be displayed in for help commands.
    pub category: Option<String>,
    /// Whether to hide this command in help menus.
    pub hide_in_help: bool,
    /// Short description of the command. Displayed inline in help menus and similar.
    pub description: Option<String>,
    /// Localized descriptions with locale string as the key (slash-only).
    pub description_localizations: Vec<(String, String)>,
    /// Multiline description with detailed usage instructions.
    pub help_text: Option<String>,
    /// If `true`, disables automatic cooldown handling before this commands invocation.
    pub manual_cooldowns: Option<bool>,
    /// Handle to what handles the command's cooldowns.
    pub cooldowns: Option<H>,
    /// Handle to the configuration of the cooldowns.
    pub cooldown_config: Option<H>,
    /// After the first response, whether to post subsequent responses as edits to the initial
    /// message.
    pub reuse_response: bool,
    /// Bits of the permissions which users must have to invoke this command. Used by Discord to
    /// set who can invoke this as a slash command.
    pub default_member_permissions: u64,
    /// Bits of the permissions which users must have to invoke this command.
    pub required_permissions: u64,
    /// Bits of the permissions without which command execution will fail.
    pub required_bot_permissions: u64,
    /// If true, only owners of the bot may use this command.
    pub owners_only: bool,
    /// If true, only people in guilds may use this command.
    pub guild_only: bool,
    /// If true, the command may only run in DMs.
    pub dm_only: bool,
    /// If true, the command may only run in NSFW channels.
    pub nsfw_only: bool,
    /// Command-specific error handler.
    pub on_error: Option<H>,
    /// If any of these callbacks returns false, this command will not be executed.
    pub checks: Vec<H>,
    /// List of parameters for this command.
    pub parameters: Vec<CommandParameter<H>>,
    /// Handle to arbitrary data, useful for storing custom metadata about your commands.
    pub custom_data: Option<H>,
    /// A unique ID for this command; can be used to identify this command in config files,
    /// databases, ...
    pub command_id: Option<String>,
    // ============= Prefix-specific data
    /// Alternative triggers for the command (prefix-only).
    pub aliases: Vec<String>,
    /// Whether to rerun the command if an existing invocation message is edited (prefix-only).
    pub invoke_on_edit: bool,
    /// Whether to delete the bot response if an existing invocation message is deleted
    /// (prefix-only).
    pub track_deletion: bool,
    /// Whether to broadcast a typing indicator while executing this command (prefix-only).
    pub broadcast_typing: bool,
    // ============= Application-specific data
    /// Context menu specific name for this command, displayed in Discord's context menu.
    pub context_menu_name: Option<String>,
    /// Whether responses to this command should be ephemeral by default (application-only).
    pub ephemeral: bool,
    /// List of installation contexts for this command (application-only).
    pub install_context: Option<Vec<InstallationContext>>,
    /// List of interaction contexts for this command (application-only).
    pub interaction_context: Option<Vec<InteractionContext>>,
}

} // verus!
