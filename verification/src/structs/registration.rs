//! How commands are registered on Discord's servers.

use crate::discord::{
    command_add_option, command_content, command_contexts, command_default_member_permissions,
    command_description, command_description_localized, command_integration_types, command_kind,
    command_name_localized, command_new, option_add_sub_option, option_clone, option_content,
    option_description_localized, option_name_localized, option_new, CommandContent,
    OptionContent,
};
use crate::seqs::lemma_filter_step;
use crate::structs::cloning::{clone_list, opt_list};
use crate::structs::command::{Command, CommandParameter, ContextMenuCommandAction};
use crate::text::{localized, opt_text};
use serenity::builder::{CreateCommand, CreateCommandOption};
use serenity::model::application::{
    CommandOptionType, CommandType, InstallationContext, InteractionContext,
};
use vstd::prelude::*;

verus! {

/// Default description given to commands.
pub const DEFAULT_DESCRIPTION: &'static str = "A slash command";

/// The locales that Discord knows.
// https://discord.com/developers/docs/reference#locales
pub const ALLOWED_LOCALES: [&'static str; 32] = [
    "id", "da", "de", "en-GB", "en-US", "es-ES", "es-419", "fr", "hr", "it", "lt", "hu", "nl",
    "no", "pl", "pt-BR", "ro", "fi", "sv-SE", "vi", "tr", "cs", "el", "bg", "ru", "uk", "hi", "th",
    "zh-CN", "ja", "zh-TW", "ko",
];

/// Whether Discord knows the locale.
pub open spec fn is_allowed_locale(locale: Seq<char>) -> bool {
    exists|i: int| 0 <= i < ALLOWED_LOCALES@.len() && (#[trigger] ALLOWED_LOCALES@[i])@ == locale
}

fn check_locale(locale: &String) -> (r: bool)
    ensures
        r == is_allowed_locale(locale@),
{
    let locales = ALLOWED_LOCALES;
    let mut i: usize = 0;
    while i < 32
        invariant
            i <= 32,
            locales == ALLOWED_LOCALES,
            forall|j: int| 0 <= j < i ==> (#[trigger] ALLOWED_LOCALES@[j])@ != locale@,
        decreases 32 - i,
    {
        if *locale == locales[i].to_owned() {
            return true;
        }
        i = i + 1;
    }
    false
}

/// The texts that are registered for the locales that Discord knows. A later text replaces an
/// earlier one for the same locale.
pub open spec fn registered_texts(v: Seq<(Seq<char>, Seq<char>)>) -> Map<Seq<char>, Seq<char>>
    decreases v.len(),
{
    if v.len() == 0 {
        Map::empty()
    } else if is_allowed_locale(v.last().0) {
        registered_texts(v.drop_last()).insert(v.last().0, v.last().1)
    } else {
        registered_texts(v.drop_last())
    }
}

impl<H> Command<H> {
    /// The description that the command is registered with.
    pub open spec fn registered_description(self) -> Seq<char> {
        match opt_text(self.description) {
            Some(description) => description,
            None => DEFAULT_DESCRIPTION@,
        }
    }

    /// The interaction contexts that the command is registered with.
    pub open spec fn registered_contexts(self) -> Option<Seq<InteractionContext>> {
        match self.interaction_context {
            Some(contexts) => Some(contexts@),
            None => if self.guild_only {
                Some(seq![InteractionContext::Guild])
            } else if self.dm_only {
                Some(seq![InteractionContext::BotDm])
            } else {
                None
            },
        }
    }

    /// The installation contexts that the command is registered with.
    pub open spec fn registered_integration_types(self) -> Option<Seq<InstallationContext>> {
        opt_list(self.install_context)
    }

    /// Whether the command can be registered as a slash command: it is one, and none of the
    /// parameters that would become its options is incompatible with slash commands.
    pub open spec fn is_registrable(self) -> bool {
        &&& self.slash_action is Some
        &&& self.subcommands@.len() == 0 ==> forall|i: int|
            0 <= i < self.parameters@.len() ==> (#[trigger] self.parameters@[i]).slash_option is Some
    }
}

/// The options that the first `n` parameters are registered as.
pub open spec fn parameter_options<H>(s: Seq<CommandParameter<H>>, n: nat) -> Seq<
    CreateCommandOption,
> {
    Seq::new(n, |i: int| s[i].slash_option->0)
}

/// Whether `options` are what `c` is registered with as its options: its parameters, or, if there
/// are any, its subcommands in place of them.
pub open spec fn are_options_of<H>(c: Command<H>, options: Seq<CreateCommandOption>) -> bool
    decreases c, 0nat,
{
    if c.subcommands@.len() == 0 {
        options == parameter_options(c.parameters@, c.parameters@.len())
    } else {
        are_subcommand_options(c.subcommands@, c.subcommands@.len(), options)
    }
}

/// Whether `option` is what `c` is registered as below another command.
pub open spec fn is_subcommand_option<H>(c: Command<H>, option: CreateCommandOption) -> bool
    decreases c, 1nat,
{
    let content = option_content(option);
    &&& content.kind == (if c.subcommands@.len() == 0 {
        CommandOptionType::SubCommand
    } else {
        CommandOptionType::SubCommandGroup
    })
    &&& content.name == c.name@
    &&& content.name_localizations == registered_texts(localized(c.name_localizations@))
    &&& content.description == c.registered_description()
    &&& content.description_localizations == registered_texts(
        localized(c.description_localizations@),
    )
    &&& are_options_of(c, content.options)
}

/// Whether `options` are what the first `n` commands of `s` are registered as below another
/// command. Those that cannot be registered are left out.
pub open spec fn are_subcommand_options<H>(
    s: Seq<Command<H>>,
    n: nat,
    options: Seq<CreateCommandOption>,
) -> bool
    decreases s, n,
{
    if n == 0 || n > s.len() {
        options.len() == 0
    } else if s[n - 1].is_registrable() {
        &&& options.len() > 0
        &&& are_subcommand_options(s, (n - 1) as nat, options.drop_last())
        &&& is_subcommand_option(s[n - 1], options.last())
    } else {
        are_subcommand_options(s, (n - 1) as nat, options)
    }
}

/// Whether `builder` is what `c` is registered as.
pub open spec fn is_slash_command<H>(c: Command<H>, builder: CreateCommand) -> bool {
    let content = command_content(builder);
    &&& content.kind is None
    &&& content.name == c.name@
    &&& content.name_localizations == registered_texts(localized(c.name_localizations@))
    &&& content.description == Some(c.registered_description())
    &&& content.description_localizations == registered_texts(
        localized(c.description_localizations@),
    )
    // Discord takes a command for which no permissions are required for one that only
    // administrators can use, hence it is not told so
    &&& content.default_member_permissions == (if c.default_member_permissions == 0 {
        None::<u64>
    } else {
        Some(c.default_member_permissions)
    })
    &&& content.integration_types == c.registered_integration_types()
    &&& content.contexts == c.registered_contexts()
    &&& are_options_of(c, content.options)
}

/// The content that `c` is registered with as a context menu command of type `kind`.
pub open spec fn context_menu_content<H>(c: Command<H>, kind: CommandType) -> CommandContent {
    CommandContent {
        kind: Some(kind),
        name: c.shown_context_name(),
        name_localizations: Map::empty(),
        description: None,
        description_localizations: Map::empty(),
        default_member_permissions: None,
        integration_types: c.registered_integration_types(),
        contexts: c.registered_contexts(),
        options: Seq::empty(),
    }
}

/// The type of context menu that the command is in, if it is in one.
pub open spec fn context_menu_kind<H>(c: Command<H>) -> Option<CommandType> {
    match c.context_menu_action {
        Some(ContextMenuCommandAction::User(_)) => Some(CommandType::User),
        Some(ContextMenuCommandAction::Message(_)) => Some(CommandType::Message),
        None => None,
    }
}

fn single_context(context: InteractionContext) -> (r: Vec<InteractionContext>)
    ensures
        r@ == seq![context],
{
    let mut r: Vec<InteractionContext> = Vec::new();
    r.push(context);
    r
}

impl<H> CommandParameter<H> {
    /// Generates a slash command parameter builder from this [`CommandParameter`] instance. This
    /// can be used to register the command on Discord's servers.
    ///
    /// Returns `None` if the parameter is incompatible with slash commands.
    pub fn create_as_slash_command_option(&self) -> (r: Option<CreateCommandOption>)
        ensures
            r == self.slash_option,
    {
        match &self.slash_option {
            Some(option) => Some(option_clone(option)),
            None => None,
        }
    }
}

impl<H> Command<H> {
    fn description_or_default(&self) -> (r: String)
        ensures
            r@ == self.registered_description(),
    {
        match &self.description {
            Some(description) => description.clone(),
            None => DEFAULT_DESCRIPTION.to_owned(),
        }
    }

    /// The options that the parameters are registered as. `None` if one of them is incompatible
    /// with slash commands: it cannot just be ignored.
    fn create_parameter_options(&self) -> (r: Option<Vec<CreateCommandOption>>)
        ensures
            r is Some <==> forall|i: int|
                0 <= i < self.parameters@.len() ==> (
                #[trigger] self.parameters@[i]).slash_option is Some,
            r matches Some(options) ==> options@ == parameter_options(
                self.parameters@,
                self.parameters@.len(),
            ),
    {
        let mut options: Vec<CreateCommandOption> = Vec::new();
        let mut i: usize = 0;
        while i < self.parameters.len()
            invariant
                i <= self.parameters@.len(),
                forall|j: int|
                    0 <= j < i ==> (#[trigger] self.parameters@[j]).slash_option is Some,
                options@ == parameter_options(self.parameters@, i as nat),
            decreases self.parameters@.len() - i,
        {
            match self.parameters[i].create_as_slash_command_option() {
                Some(option) => {
                    options.push(option);
                },
                None => {
                    return None;
                },
            }
            i = i + 1;
        }
        Some(options)
    }

    /// The options that this command is registered with: its subcommands if it has any, else its
    /// parameters.
    fn create_options(&self) -> (r: Option<Vec<CreateCommandOption>>)
        requires
            self.slash_action is Some,
        ensures
            r is Some <==> self.is_registrable(),
            r matches Some(options) ==> are_options_of(*self, options@),
        decreases *self, 0nat,
    {
        if self.subcommands.0.len() == 0 {
            return self.create_parameter_options();
        }
        let subcommands = &self.subcommands.0;
        let mut options: Vec<CreateCommandOption> = Vec::new();
        let mut i: usize = 0;
        while i < subcommands.len()
            invariant
                i <= subcommands@.len(),
                subcommands == self.subcommands.0,
                are_subcommand_options(subcommands@, i as nat, options@),
            decreases subcommands@.len() - i,
        {
            let ghost before = options@;
            if let Some(option) = subcommands[i].create_as_subcommand() {
                options.push(option);
                assert(options@.drop_last() =~= before);
            }
            i = i + 1;
        }
        Some(options)
    }

    /// Serializes this Command into an application command option, which is the form which Discord
    /// requires subcommands to be in.
    pub fn create_as_subcommand(&self) -> (r: Option<CreateCommandOption>)
        ensures
            r is Some <==> self.is_registrable(),
            r matches Some(option) ==> is_subcommand_option(*self, option),
        decreases *self, 1nat,
    {
        if self.slash_action.is_none() {
            return None;
        }
        let kind = if self.subcommands.0.len() == 0 {
            CommandOptionType::SubCommand
        } else {
            CommandOptionType::SubCommandGroup
        };
        let options = match self.create_options() {
            Some(options) => options,
            None => {
                return None;
            },
        };
        let builder = option_new(kind, self.name.clone(), self.description_or_default());
        let builder = add_option_localizations(
            builder,
            &self.name_localizations,
            &self.description_localizations,
        );
        Some(add_sub_options(builder, options))
    }

    /// Generates a slash command builder from this [`Command`] instance. This can be used
    /// to register this command on Discord's servers.
    pub fn create_as_slash_command(&self) -> (r: Option<CreateCommand>)
        ensures
            r is Some <==> self.is_registrable(),
            r matches Some(builder) ==> is_slash_command(*self, builder),
    {
        if self.slash_action.is_none() {
            return None;
        }
        let options = match self.create_options() {
            Some(options) => options,
            None => {
                return None;
            },
        };
        let mut builder = command_description(
            command_new(self.name.clone()),
            self.description_or_default(),
        );
        builder = add_command_localizations(
            builder,
            &self.name_localizations,
            &self.description_localizations,
        );

        // This check is needed because Discord special cases empty
        // default_member_permissions to mean "admin-only"
        if self.default_member_permissions != 0 {
            builder = command_default_member_permissions(builder, self.default_member_permissions);
        }
        builder = self.add_contexts(builder);
        Some(add_options(builder, options))
    }

    /// Generates a context menu command builder from this [`Command`] instance. This can be used
    /// to register this command on Discord's servers.
    pub fn create_as_context_menu_command(&self) -> (r: Option<CreateCommand>)
        ensures
            r is Some <==> self.context_menu_action is Some,
            r matches Some(builder) ==> command_content(builder) == context_menu_content(
                *self,
                context_menu_kind(*self)->0,
            ),
    {
        let kind = match &self.context_menu_action {
            Some(ContextMenuCommandAction::User(_)) => CommandType::User,
            Some(ContextMenuCommandAction::Message(_)) => CommandType::Message,
            None => {
                return None;
            },
        };
        let builder = command_kind(command_new(self.context_name().clone()), kind);
        Some(self.add_contexts(builder))
    }

    fn add_contexts(&self, builder: CreateCommand) -> (r: CreateCommand)
        requires
            command_content(builder).contexts is None,
            command_content(builder).integration_types is None,
        ensures
            command_content(r) == (CommandContent {
                integration_types: self.registered_integration_types(),
                contexts: self.registered_contexts(),
                ..command_content(builder)
            }),
    {
        let mut builder = builder;
        if self.guild_only {
            builder = command_contexts(builder, single_context(InteractionContext::Guild));
        } else if self.dm_only {
            builder = command_contexts(builder, single_context(InteractionContext::BotDm));
        }
        if let Some(install_context) = &self.install_context {
            builder = command_integration_types(
                builder,
                clone_list(install_context),
            );
        }
        if let Some(interaction_context) = &self.interaction_context {
            builder = command_contexts(builder, clone_list(interaction_context));
        }
        builder
    }
}

fn add_option_localizations(
    builder: CreateCommandOption,
    names: &Vec<(String, String)>,
    descriptions: &Vec<(String, String)>,
) -> (r: CreateCommandOption)
    requires
        option_content(builder).name_localizations == Map::<Seq<char>, Seq<char>>::empty(),
        option_content(builder).description_localizations == Map::<Seq<char>, Seq<char>>::empty(),
    ensures
        option_content(r) == (OptionContent {
            name_localizations: registered_texts(localized(names@)),
            description_localizations: registered_texts(localized(descriptions@)),
            ..option_content(builder)
        }),
{
    let ghost start = option_content(builder);
    let ghost ln = localized(names@);
    let ghost ld = localized(descriptions@);
    let mut builder = builder;
    let mut i: usize = 0;
    while i < names.len()
        invariant
            i <= names@.len(),
            ln == localized(names@),
            option_content(builder) == (OptionContent {
                name_localizations: registered_texts(ln.take(i as int)),
                ..start
            }),
        decreases names@.len() - i,
    {
        assert(ln.take(i + 1).drop_last() =~= ln.take(i as int));
        if check_locale(&names[i].0) {
            builder = option_name_localized(builder, names[i].0.clone(), names[i].1.clone());
        }
        i = i + 1;
    }
    assert(ln.take(i as int) =~= ln);
    let mut i: usize = 0;
    while i < descriptions.len()
        invariant
            i <= descriptions@.len(),
            ld == localized(descriptions@),
            option_content(builder) == (OptionContent {
                name_localizations: registered_texts(ln),
                description_localizations: registered_texts(ld.take(i as int)),
                ..start
            }),
        decreases descriptions@.len() - i,
    {
        assert(ld.take(i + 1).drop_last() =~= ld.take(i as int));
        if check_locale(&descriptions[i].0) {
            builder = option_description_localized(
                builder,
                descriptions[i].0.clone(),
                descriptions[i].1.clone(),
            );
        }
        i = i + 1;
    }
    assert(ld.take(i as int) =~= ld);
    builder
}

fn add_command_localizations(
    builder: CreateCommand,
    names: &Vec<(String, String)>,
    descriptions: &Vec<(String, String)>,
) -> (r: CreateCommand)
    requires
        command_content(builder).name_localizations == Map::<Seq<char>, Seq<char>>::empty(),
        command_content(builder).description_localizations == Map::<Seq<char>, Seq<char>>::empty(),
    ensures
        command_content(r) == (CommandContent {
            name_localizations: registered_texts(localized(names@)),
            description_localizations: registered_texts(localized(descriptions@)),
            ..command_content(builder)
        }),
{
    let ghost start = command_content(builder);
    let ghost ln = localized(names@);
    let ghost ld = localized(descriptions@);
    let mut builder = builder;
    let mut i: usize = 0;
    while i < names.len()
        invariant
            i <= names@.len(),
            ln == localized(names@),
            command_content(builder) == (CommandContent {
                name_localizations: registered_texts(ln.take(i as int)),
                ..start
            }),
        decreases names@.len() - i,
    {
        assert(ln.take(i + 1).drop_last() =~= ln.take(i as int));
        if check_locale(&names[i].0) {
            builder = command_name_localized(builder, names[i].0.clone(), names[i].1.clone());
        }
        i = i + 1;
    }
    assert(ln.take(i as int) =~= ln);
    let mut i: usize = 0;
    while i < descriptions.len()
        invariant
            i <= descriptions@.len(),
            ld == localized(descriptions@),
            command_content(builder) == (CommandContent {
                name_localizations: registered_texts(ln),
                description_localizations: registered_texts(ld.take(i as int)),
                ..start
            }),
        decreases descriptions@.len() - i,
    {
        assert(ld.take(i + 1).drop_last() =~= ld.take(i as int));
        if check_locale(&descriptions[i].0) {
            builder = command_description_localized(
                builder,
                descriptions[i].0.clone(),
                descriptions[i].1.clone(),
            );
        }
        i = i + 1;
    }
    assert(ld.take(i as int) =~= ld);
    builder
}

fn add_sub_options(builder: CreateCommandOption, options: Vec<CreateCommandOption>) -> (r:
    CreateCommandOption)
    requires
        option_content(builder).options.len() == 0,
    ensures
        option_content(r) == (OptionContent { options: options@, ..option_content(builder) }),
{
    let ghost start = option_content(builder);
    let mut builder = builder;
    let mut i: usize = 0;
    assert(options@.take(0) =~= start.options);
    while i < options.len()
        invariant
            i <= options@.len(),
            option_content(builder) == (OptionContent { options: options@.take(i as int), ..start }),
        decreases options@.len() - i,
    {
        assert(options@.take(i + 1) =~= options@.take(i as int).push(options@[i as int]));
        builder = option_add_sub_option(builder, option_clone(&options[i]));
        i = i + 1;
    }
    assert(options@.take(i as int) =~= options@);
    builder
}

fn add_options(builder: CreateCommand, options: Vec<CreateCommandOption>) -> (r: CreateCommand)
    requires
        command_content(builder).options.len() == 0,
    ensures
        command_content(r) == (CommandContent { options: options@, ..command_content(builder) }),
{
    let ghost start = command_content(builder);
    let mut builder = builder;
    let mut i: usize = 0;
    assert(options@.take(0) =~= start.options);
    while i < options.len()
        invariant
            i <= options@.len(),
            command_content(builder) == (CommandContent {
                options: options@.take(i as int),
                ..start
            }),
        decreases options@.len() - i,
    {
        assert(options@.take(i + 1) =~= options@.take(i as int).push(options@[i as int]));
        builder = command_add_option(builder, option_clone(&options[i]));
        i = i + 1;
    }
    assert(options@.take(i as int) =~= options@);
    builder
}

/// Locales that Discord does not know are removed, all others are kept: there is a text for a
/// locale if and only if Discord knows it and one was given for it. It is the last one given.
pub proof fn law_registered_locales(v: Seq<(Seq<char>, Seq<char>)>, locale: Seq<char>)
    ensures
        registered_texts(v).contains_key(locale) <==> is_allowed_locale(locale) && exists|i: int|
            0 <= i < v.len() && (#[trigger] v[i]).0 == locale,
        registered_texts(v).contains_key(locale) ==> exists|i: int|
            {
                &&& 0 <= i < v.len()
                &&& (#[trigger] v[i]) == (locale, registered_texts(v)[locale])
                &&& forall|j: int| i < j < v.len() ==> (#[trigger] v[j]).0 != locale
            },
    decreases v.len(),
{
    if v.len() > 0 {
        let init = v.drop_last();
        law_registered_locales(init, locale);
        if is_allowed_locale(locale) && v.last().0 == locale {
            assert(v[v.len() - 1] == (locale, registered_texts(v)[locale]));
        } else if registered_texts(init).contains_key(locale) {
            let i = choose|i: int|
                {
                    &&& 0 <= i < init.len()
                    &&& (#[trigger] init[i]) == (locale, registered_texts(init)[locale])
                    &&& forall|j: int| i < j < init.len() ==> (#[trigger] init[j]).0 != locale
                };
            assert(v[i] == (locale, registered_texts(v)[locale]));
            assert forall|j: int| i < j < v.len() implies (#[trigger] v[j]).0 != locale by {
                if j < init.len() {
                    assert(init[j].0 != locale);
                }
            }
        } else if exists|i: int| 0 <= i < v.len() && (#[trigger] v[i]).0 == locale {
            let i = choose|i: int| 0 <= i < v.len() && (#[trigger] v[i]).0 == locale;
            if i < init.len() {
                assert(init[i].0 == locale);
            }
        }
    }
}

/// Options of application commands with subcommands are ignored: two commands that differ in their
/// parameters only are registered alike if they have subcommands.
pub proof fn law_parameters_beside_subcommands_are_ignored<H>(
    c: Command<H>,
    parameters: Vec<CommandParameter<H>>,
    builder: CreateCommand,
    option: CreateCommandOption,
)
    requires
        c.subcommands@.len() > 0,
    ensures
        ({
            let other = Command { parameters, ..c };
            &&& other.is_registrable() == c.is_registrable()
            &&& is_slash_command(other, builder) == is_slash_command(c, builder)
            &&& is_subcommand_option(other, option) == is_subcommand_option(c, option)
        }),
{
}

/// There is one option for each subcommand that can be registered, and none for the others.
pub proof fn law_one_option_per_registrable_subcommand<H>(
    s: Seq<Command<H>>,
    n: nat,
    options: Seq<CreateCommandOption>,
)
    requires
        n <= s.len(),
        are_subcommand_options(s, n, options),
    ensures
        options.len() == s.take(n as int).filter(|c: Command<H>| c.is_registrable()).len(),
    decreases n,
{
    reveal(Seq::filter);
    if n > 0 {
        let p = |c: Command<H>| c.is_registrable();
        lemma_filter_step(s, n - 1, p);
        let m = (n - 1) as nat;
        if s[n - 1].is_registrable() {
            law_one_option_per_registrable_subcommand(s, m, options.drop_last());
        } else {
            law_one_option_per_registrable_subcommand(s, m, options);
        }
    }
}

} // verus!
