//! Laws on what commands are registered as.

use crate::discord::{command_content, option_content};
use crate::structs::command::{Command, ContextMenuCommandAction};
use crate::structs::registration::{
    are_options_of, are_subcommand_options, context_menu_content, context_menu_kind,
    is_allowed_locale, is_slash_command, is_subcommand_option, law_registered_locales,
    registered_texts, ALLOWED_LOCALES,
};
use crate::text::localized;
use serenity::builder::{CreateCommand, CreateCommandOption};
use serenity::model::application::{CommandType, InstallationContext, InteractionContext};
use vstd::prelude::*;

verus! {

/// The locales that Discord's reference lists.
pub open spec fn is_listed_locale(locale: Seq<char>) -> bool {
    ||| locale == "id"@
    ||| locale == "da"@
    ||| locale == "de"@
    ||| locale == "en-GB"@
    ||| locale == "en-US"@
    ||| locale == "es-ES"@
    ||| locale == "es-419"@
    ||| locale == "fr"@
    ||| locale == "hr"@
    ||| locale == "it"@
    ||| locale == "lt"@
    ||| locale == "hu"@
    ||| locale == "nl"@
    ||| locale == "no"@
    ||| locale == "pl"@
    ||| locale == "pt-BR"@
    ||| locale == "ro"@
    ||| locale == "fi"@
    ||| locale == "sv-SE"@
    ||| locale == "vi"@
    ||| locale == "tr"@
    ||| locale == "cs"@
    ||| locale == "el"@
    ||| locale == "bg"@
    ||| locale == "ru"@
    ||| locale == "uk"@
    ||| locale == "hi"@
    ||| locale == "th"@
    ||| locale == "zh-CN"@
    ||| locale == "ja"@
    ||| locale == "zh-TW"@
    ||| locale == "ko"@
}

/// The locales that are taken for known are the listed ones.
pub proof fn law_allowed_locales(locale: Seq<char>)
    ensures
        is_allowed_locale(locale) <==> is_listed_locale(locale),
{
    assert(ALLOWED_LOCALES@.len() == 32);
    assert(ALLOWED_LOCALES@[0] == "id");
    assert(ALLOWED_LOCALES@[1] == "da");
    assert(ALLOWED_LOCALES@[2] == "de");
    assert(ALLOWED_LOCALES@[3] == "en-GB");
    assert(ALLOWED_LOCALES@[4] == "en-US");
    assert(ALLOWED_LOCALES@[5] == "es-ES");
    assert(ALLOWED_LOCALES@[6] == "es-419");
    assert(ALLOWED_LOCALES@[7] == "fr");
    assert(ALLOWED_LOCALES@[8] == "hr");
    assert(ALLOWED_LOCALES@[9] == "it");
    assert(ALLOWED_LOCALES@[10] == "lt");
    assert(ALLOWED_LOCALES@[11] == "hu");
    assert(ALLOWED_LOCALES@[12] == "nl");
    assert(ALLOWED_LOCALES@[13] == "no");
    assert(ALLOWED_LOCALES@[14] == "pl");
    assert(ALLOWED_LOCALES@[15] == "pt-BR");
    assert(ALLOWED_LOCALES@[16] == "ro");
    assert(ALLOWED_LOCALES@[17] == "fi");
    assert(ALLOWED_LOCALES@[18] == "sv-SE");
    assert(ALLOWED_LOCALES@[19] == "vi");
    assert(ALLOWED_LOCALES@[20] == "tr");
    assert(ALLOWED_LOCALES@[21] == "cs");
    assert(ALLOWED_LOCALES@[22] == "el");
    assert(ALLOWED_LOCALES@[23] == "bg");
    assert(ALLOWED_LOCALES@[24] == "ru");
    assert(ALLOWED_LOCALES@[25] == "uk");
    assert(ALLOWED_LOCALES@[26] == "hi");
    assert(ALLOWED_LOCALES@[27] == "th");
    assert(ALLOWED_LOCALES@[28] == "zh-CN");
    assert(ALLOWED_LOCALES@[29] == "ja");
    assert(ALLOWED_LOCALES@[30] == "zh-TW");
    assert(ALLOWED_LOCALES@[31] == "ko");
}

/// Whether `texts` holds for each listed locale the last text that `given` has for it, and nothing
/// else.
pub open spec fn are_texts_of(
    given: Seq<(String, String)>,
    texts: Map<Seq<char>, Seq<char>>,
) -> bool {
    forall|locale: Seq<char>|
        {
            &&& #[trigger] texts.contains_key(locale) <==> is_listed_locale(locale) && exists|i: int|
                0 <= i < given.len() && (#[trigger] given[i]).0@ == locale
            &&& texts.contains_key(locale) ==> exists|i: int|
                {
                    &&& 0 <= i < given.len()
                    &&& (#[trigger] given[i]).0@ == locale
                    &&& given[i].1@ == texts[locale]
                    &&& forall|j: int| i < j < given.len() ==> (#[trigger] given[j]).0@ != locale
                }
        }
}

/// Registered are the texts for the listed locales, the last one for each.
pub proof fn law_registered_texts(given: Seq<(String, String)>)
    ensures
        are_texts_of(given, registered_texts(localized(given))),
{
    let v = localized(given);
    let texts = registered_texts(v);
    assert forall|locale: Seq<char>|
        {
            &&& #[trigger] texts.contains_key(locale) <==> is_listed_locale(locale) && exists|i: int|
                0 <= i < given.len() && (#[trigger] given[i]).0@ == locale
            &&& texts.contains_key(locale) ==> exists|i: int|
                {
                    &&& 0 <= i < given.len()
                    &&& (#[trigger] given[i]).0@ == locale
                    &&& given[i].1@ == texts[locale]
                    &&& forall|j: int| i < j < given.len() ==> (#[trigger] given[j]).0@ != locale
                }
        } by {
        law_allowed_locales(locale);
        law_registered_locales(v, locale);
        if exists|i: int| 0 <= i < given.len() && (#[trigger] given[i]).0@ == locale {
            let i = choose|i: int| 0 <= i < given.len() && (#[trigger] given[i]).0@ == locale;
            assert(v[i].0 == locale);
        }
        if texts.contains_key(locale) {
            let i = choose|i: int|
                {
                    &&& 0 <= i < v.len()
                    &&& (#[trigger] v[i]) == (locale, texts[locale])
                    &&& forall|j: int| i < j < v.len() ==> (#[trigger] v[j]).0 != locale
                };
            assert(given[i].0@ == locale && given[i].1@ == texts[locale]);
            assert forall|j: int| i < j < given.len() implies (#[trigger] given[j]).0@
                != locale by {
                assert(v[j].0 != locale);
            }
        }
    }
}

/// Whether a command can be used in exactly the contexts that are given for it, if any are. Else it
/// can be used in guilds if it is for guilds only, in direct messages with the bot if it is for
/// direct messages only, and if it is for neither, no contexts are told.
pub open spec fn are_contexts_of<H>(
    c: Command<H>,
    contexts: Option<Seq<InteractionContext>>,
) -> bool {
    if c.interaction_context is Some {
        contexts == Some(c.interaction_context->0@)
    } else {
        &&& c.guild_only ==> contexts == Some(seq![InteractionContext::Guild])
        &&& !c.guild_only && c.dm_only ==> contexts == Some(seq![InteractionContext::BotDm])
        &&& !c.guild_only && !c.dm_only ==> contexts is None
    }
}

/// Whether a command can be installed where it is told that it can, if that is told.
pub open spec fn are_installations_of<H>(
    c: Command<H>,
    installations: Option<Seq<InstallationContext>>,
) -> bool {
    if c.install_context is Some {
        installations == Some(c.install_context->0@)
    } else {
        installations is None
    }
}

/// The contexts that a slash command is registered with.
pub proof fn law_contexts_of_slash_command<H>(c: Command<H>, builder: CreateCommand)
    requires
        is_slash_command(c, builder),
    ensures
        are_contexts_of(c, command_content(builder).contexts),
        are_installations_of(c, command_content(builder).integration_types),
{
}

/// The contexts that a context menu command is registered with.
pub proof fn law_contexts_of_context_menu_command<H>(c: Command<H>, kind: CommandType)
    ensures
        are_contexts_of(c, context_menu_content(c, kind).contexts),
        are_installations_of(c, context_menu_content(c, kind).integration_types),
{
}

/// Two commands with the same interaction contexts are registered with the same contexts, whether or
/// not they are for guilds or for direct messages only, and whether they are slash commands or
/// context menu commands.
pub proof fn law_given_contexts_prevail<H>(
    c: Command<H>,
    d: Command<H>,
    builder: CreateCommand,
    kind: CommandType,
)
    requires
        is_slash_command(c, builder),
        c.interaction_context is Some,
        c.interaction_context == d.interaction_context,
    ensures
        command_content(builder).contexts == context_menu_content(d, kind).contexts,
        context_menu_content(c, kind).contexts == context_menu_content(d, kind).contexts,
{
}

/// A slash command is registered under its name and with its description, or "A slash command" if it
/// has none, with the texts for the listed locales, and with the permissions that members need by
/// default, unless it needs none. It is not told to be of another type.
pub proof fn law_slash_command<H>(c: Command<H>, builder: CreateCommand)
    requires
        is_slash_command(c, builder),
    ensures
        ({
            let content = command_content(builder);
            &&& content.kind is None
            &&& content.name == c.name@
            &&& are_texts_of(c.name_localizations@, content.name_localizations)
            &&& c.description matches Some(text) ==> content.description == Some(text@)
            &&& c.description is None ==> content.description == Some("A slash command"@)
            &&& are_texts_of(c.description_localizations@, content.description_localizations)
            &&& c.default_member_permissions == 0 ==> content.default_member_permissions is None
            &&& c.default_member_permissions != 0 ==> content.default_member_permissions == Some(
                c.default_member_permissions,
            )
        }),
{
    law_registered_texts(c.name_localizations@);
    law_registered_texts(c.description_localizations@);
}

/// A context menu command is registered under the name that it has in context menus, or else its
/// main name, for the type of item that it acts on. It has neither descriptions nor options.
pub proof fn law_context_menu_command<H>(c: Command<H>)
    ensures
        context_menu_kind(c) == Some(CommandType::User) <==> (
        c.context_menu_action matches Some(ContextMenuCommandAction::User(_))),
        context_menu_kind(c) == Some(CommandType::Message) <==> (
        c.context_menu_action matches Some(ContextMenuCommandAction::Message(_))),
        context_menu_kind(c) is None <==> c.context_menu_action is None,
        forall|kind: CommandType|
            {
                let content = #[trigger] context_menu_content(c, kind);
                &&& content.kind == Some(kind)
                &&& c.context_menu_name matches Some(name) ==> content.name == name@
                &&& c.context_menu_name is None ==> content.name == c.name@
                &&& content.name_localizations == Map::<Seq<char>, Seq<char>>::empty()
                &&& content.description is None
                &&& content.description_localizations == Map::<Seq<char>, Seq<char>>::empty()
                &&& content.default_member_permissions is None
                &&& content.options.len() == 0
            },
{
}

/// Whether `c` is a slash command, and either has subcommands or only parameters that can be
/// options.
pub open spec fn can_be_registered<H>(c: Command<H>) -> bool {
    c.slash_action is Some && (c.subcommands@.len() > 0 || forall|i: int|
        0 <= i < c.parameters@.len() ==> (#[trigger] c.parameters@[i]).slash_option is Some)
}

/// Which commands can be registered as slash commands.
pub proof fn law_registrable<H>(c: Command<H>)
    ensures
        c.is_registrable() <==> can_be_registered(c),
{
}

/// How many of the first `n` commands can be registered.
pub open spec fn registrable_before<H>(s: Seq<Command<H>>, n: int) -> int
    decreases n,
{
    if n <= 0 {
        0
    } else if can_be_registered(s[n - 1]) {
        registrable_before(s, n - 1) + 1
    } else {
        registrable_before(s, n - 1)
    }
}

proof fn lemma_registrable_before<H>(s: Seq<Command<H>>, i: int, n: int)
    requires
        0 <= i <= n,
    ensures
        0 <= registrable_before(s, i) <= registrable_before(s, n),
    decreases n,
{
    if i < n {
        lemma_registrable_before(s, i, n - 1);
    } else if n > 0 {
        lemma_registrable_before(s, n - 1, n - 1);
    }
}

proof fn lemma_subcommand_options<H>(
    s: Seq<Command<H>>,
    n: nat,
    options: Seq<CreateCommandOption>,
    i: int,
)
    requires
        n <= s.len(),
        are_subcommand_options(s, n, options),
        0 <= i <= n,
    ensures
        options.len() == registrable_before(s, n as int),
        i < n && can_be_registered(s[i]) ==> {
            &&& 0 <= registrable_before(s, i) < options.len()
            &&& is_subcommand_option(s[i], options[registrable_before(s, i)])
        },
    decreases n,
{
    if n > 0 {
        law_registrable(s[n - 1]);
        let front = if can_be_registered(s[n - 1]) {
            options.drop_last()
        } else {
            options
        };
        if i < n {
            lemma_subcommand_options(s, (n - 1) as nat, front, i);
        } else {
            lemma_subcommand_options(s, (n - 1) as nat, front, i - 1);
        }
        lemma_registrable_before(s, n - 1, n as int);
        if i < n - 1 && can_be_registered(s[i]) {
            assert(options[registrable_before(s, i)] == front[registrable_before(s, i)]);
        }
    }
}

/// A command without subcommands is registered with one option for each parameter, in the order of
/// the parameters. One with subcommands is registered with one option for each of those that can be
/// registered, in their order, and with none for its parameters.
pub proof fn law_options_of_command<H>(
    c: Command<H>,
    options: Seq<CreateCommandOption>,
    i: int,
)
    requires
        are_options_of(c, options),
    ensures
        c.subcommands@.len() == 0 ==> options.len() == c.parameters@.len(),
        c.subcommands@.len() == 0 && 0 <= i < c.parameters@.len()
            && c.parameters@[i].slash_option is Some ==> c.parameters@[i].slash_option == Some(
            options[i],
        ),
        c.subcommands@.len() > 0 ==> options.len() == registrable_before(
            c.subcommands@,
            c.subcommands@.len() as int,
        ),
        0 <= i < c.subcommands@.len() && can_be_registered(c.subcommands@[i]) ==> {
            let k = registrable_before(c.subcommands@, i);
            0 <= k < options.len() && is_subcommand_option(c.subcommands@[i], options[k])
        },
{
    let s = c.subcommands@;
    if s.len() > 0 {
        lemma_subcommand_options(s, s.len(), options, 0);
        if 0 <= i < s.len() {
            lemma_subcommand_options(s, s.len(), options, i);
        }
    }
}

/// Below another command a slash command is registered under its name and with its description, or
/// "A slash command" if it has none, and with the texts for the listed locales. It is a group if it
/// has subcommands.
pub proof fn law_subcommand_option<H>(c: Command<H>, option: CreateCommandOption)
    requires
        is_subcommand_option(c, option),
    ensures
        ({
            let content = option_content(option);
            &&& c.subcommands@.len() == 0 ==> content.kind is SubCommand
            &&& c.subcommands@.len() > 0 ==> content.kind is SubCommandGroup
            &&& content.name == c.name@
            &&& are_texts_of(c.name_localizations@, content.name_localizations)
            &&& c.description matches Some(text) ==> content.description == text@
            &&& c.description is None ==> content.description == "A slash command"@
            &&& are_texts_of(c.description_localizations@, content.description_localizations)
            &&& are_options_of(c, content.options)
        }),
{
    law_registered_texts(c.name_localizations@);
    law_registered_texts(c.description_localizations@);
}

/// The options of a slash command are those of the command.
pub proof fn law_options_of_slash_command<H>(c: Command<H>, builder: CreateCommand, i: int)
    requires
        is_slash_command(c, builder),
    ensures
        ({
            let options = command_content(builder).options;
            &&& are_options_of(c, options)
            &&& c.subcommands@.len() == 0 ==> options.len() == c.parameters@.len()
            &&& c.subcommands@.len() == 0 && 0 <= i < c.parameters@.len()
                && c.parameters@[i].slash_option is Some ==> c.parameters@[i].slash_option == Some(
                options[i],
            )
        }),
{
    law_options_of_command(c, command_content(builder).options, i);
}

} // verus!
