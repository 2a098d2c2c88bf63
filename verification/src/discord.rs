//! The builders of the `serenity` crate that application commands are registered with.
//!
//! What a builder holds is named by [`command_content`] and [`option_content`]. Each function
//! below hands its arguments to the builder method that its comment names.

use serenity::builder::{CreateCommand, CreateCommandOption};
use serenity::model::application::{
    CommandOptionType, CommandType, InstallationContext, InteractionContext,
};
use serenity::model::permissions::Permissions;
use vstd::prelude::*;

verus! {

/// What kind of application command something is.
#[verifier::external_type_specification]
pub struct ExCommandType(CommandType);

/// What kind of option of an application command something is.
#[verifier::external_type_specification]
pub struct ExCommandOptionType(CommandOptionType);

/// Where a command can be installed.
#[verifier::external_type_specification]
pub struct ExInstallationContext(InstallationContext);

/// Where a command can be used.
#[verifier::external_type_specification]
pub struct ExInteractionContext(InteractionContext);

/// The builder of an application command.
#[verifier::external_type_specification]
#[verifier::external_body]
pub struct ExCreateCommand(CreateCommand);

/// The builder of an option of an application command.
#[verifier::external_type_specification]
#[verifier::external_body]
pub struct ExCreateCommandOption(CreateCommandOption);

/// What the builder of an application command holds.
pub struct CommandContent {
    pub kind: Option<CommandType>,
    pub name: Seq<char>,
    pub name_localizations: Map<Seq<char>, Seq<char>>,
    pub description: Option<Seq<char>>,
    pub description_localizations: Map<Seq<char>, Seq<char>>,
    /// The bits of the permissions that a member needs to use the command.
    pub default_member_permissions: Option<u64>,
    pub integration_types: Option<Seq<InstallationContext>>,
    pub contexts: Option<Seq<InteractionContext>>,
    pub options: Seq<CreateCommandOption>,
}

/// What the builder of an option holds, as far as commands set it. A locale is in one of the two
/// maps if and only if the builder holds a text for it.
pub struct OptionContent {
    pub kind: CommandOptionType,
    pub name: Seq<char>,
    pub name_localizations: Map<Seq<char>, Seq<char>>,
    pub description: Seq<char>,
    pub description_localizations: Map<Seq<char>, Seq<char>>,
    pub options: Seq<CreateCommandOption>,
}

/// What the builder of an application command holds.
pub uninterp spec fn command_content(builder: CreateCommand) -> CommandContent;

/// What the builder of an option holds.
pub uninterp spec fn option_content(builder: CreateCommandOption) -> OptionContent;

/// `CreateCommand::new`: a builder that holds a name and nothing else.
#[verifier::external_body]
pub(crate) fn command_new(name: String) -> (r: CreateCommand)
    ensures
        command_content(r) == (CommandContent {
            kind: None,
            name: name@,
            name_localizations: Map::empty(),
            description: None,
            description_localizations: Map::empty(),
            default_member_permissions: None,
            integration_types: None,
            contexts: None,
            options: Seq::empty(),
        }),
{
    CreateCommand::new(name)
}

/// `CreateCommand::kind`: replaces the kind of the command.
#[verifier::external_body]
pub(crate) fn command_kind(builder: CreateCommand, kind: CommandType) -> (r: CreateCommand)
    ensures
        command_content(r) == (CommandContent { kind: Some(kind), ..command_content(builder) }),
{
    builder.kind(kind)
}

/// `CreateCommand::description`: replaces the description.
#[verifier::external_body]
pub(crate) fn command_description(builder: CreateCommand, description: String) -> (r: CreateCommand)
    ensures
        command_content(r) == (CommandContent {
            description: Some(description@),
            ..command_content(builder)
        }),
{
    builder.description(description)
}

/// `CreateCommand::name_localized`: sets the name for one locale, replacing an earlier one.
#[verifier::external_body]
pub(crate) fn command_name_localized(
    builder: CreateCommand,
    locale: String,
    name: String,
) -> (r: CreateCommand)
    ensures
        command_content(r) == (CommandContent {
            name_localizations: command_content(builder).name_localizations.insert(locale@, name@),
            ..command_content(builder)
        }),
{
    builder.name_localized(locale, name)
}

/// `CreateCommand::description_localized`: sets the description for one locale, replacing an
/// earlier one.
#[verifier::external_body]
pub(crate) fn command_description_localized(
    builder: CreateCommand,
    locale: String,
    description: String,
) -> (r: CreateCommand)
    ensures
        command_content(r) == (CommandContent {
            description_localizations: command_content(builder).description_localizations.insert(
                locale@,
                description@,
            ),
            ..command_content(builder)
        }),
{
    builder.description_localized(locale, description)
}

/// `CreateCommand::default_member_permissions`: replaces the permissions, given by their bits.
#[verifier::external_body]
pub(crate) fn command_default_member_permissions(builder: CreateCommand, bits: u64) -> (r:
    CreateCommand)
    ensures
        command_content(r) == (CommandContent {
            default_member_permissions: Some(bits),
            ..command_content(builder)
        }),
{
    builder.default_member_permissions(Permissions::from_bits_retain(bits))
}

/// `CreateCommand::integration_types`: replaces the list of installation contexts.
#[verifier::external_body]
pub(crate) fn command_integration_types(
    builder: CreateCommand,
    integration_types: Vec<InstallationContext>,
) -> (r: CreateCommand)
    ensures
        command_content(r) == (CommandContent {
            integration_types: Some(integration_types@),
            ..command_content(builder)
        }),
{
    builder.integration_types(integration_types)
}

/// `CreateCommand::contexts`: replaces the list of interaction contexts.
#[verifier::external_body]
pub(crate) fn command_contexts(builder: CreateCommand, contexts: Vec<InteractionContext>) -> (r:
    CreateCommand)
    ensures
        command_content(r) == (CommandContent {
            contexts: Some(contexts@),
            ..command_content(builder)
        }),
{
    builder.contexts(contexts)
}

/// `CreateCommand::add_option`: appends an option.
#[verifier::external_body]
pub(crate) fn command_add_option(builder: CreateCommand, option: CreateCommandOption) -> (r:
    CreateCommand)
    ensures
        command_content(r) == (CommandContent {
            options: command_content(builder).options.push(option),
            ..command_content(builder)
        }),
{
    builder.add_option(option)
}

/// `CreateCommandOption::new`: a builder that holds a kind, a name and a description only.
#[verifier::external_body]
pub(crate) fn option_new(kind: CommandOptionType, name: String, description: String) -> (r:
    CreateCommandOption)
    ensures
        option_content(r) == (OptionContent {
            kind,
            name: name@,
            name_localizations: Map::empty(),
            description: description@,
            description_localizations: Map::empty(),
            options: Seq::empty(),
        }),
{
    CreateCommandOption::new(kind, name, description)
}

/// `CreateCommandOption::name_localized`: sets the name for one locale, replacing an earlier one.
#[verifier::external_body]
pub(crate) fn option_name_localized(
    builder: CreateCommandOption,
    locale: String,
    name: String,
) -> (r: CreateCommandOption)
    ensures
        option_content(r) == (OptionContent {
            name_localizations: option_content(builder).name_localizations.insert(locale@, name@),
            ..option_content(builder)
        }),
{
    builder.name_localized(locale, name)
}

/// `CreateCommandOption::description_localized`: sets the description for one locale, replacing
/// an earlier one.
#[verifier::external_body]
pub(crate) fn option_description_localized(
    builder: CreateCommandOption,
    locale: String,
    description: String,
) -> (r: CreateCommandOption)
    ensures
        option_content(r) == (OptionContent {
            description_localizations: option_content(builder).description_localizations.insert(
                locale@,
                description@,
            ),
            ..option_content(builder)
        }),
{
    builder.description_localized(locale, description)
}

/// `CreateCommandOption::add_sub_option`: appends a nested option.
#[verifier::external_body]
pub(crate) fn option_add_sub_option(builder: CreateCommandOption, option: CreateCommandOption) -> (r:
    CreateCommandOption)
    ensures
        option_content(r) == (OptionContent {
            options: option_content(builder).options.push(option),
            ..option_content(builder)
        }),
{
    builder.add_sub_option(option)
}

/// `CreateCommandOption::clone`, which clones each field: the clone is the same option.
#[verifier::external_body]
pub(crate) fn option_clone(builder: &CreateCommandOption) -> (r: CreateCommandOption)
    ensures
        r == *builder,
{
    builder.clone()
}

} // verus!
