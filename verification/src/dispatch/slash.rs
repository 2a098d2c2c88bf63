//! Dispatches interactions onto framework commands.

use crate::string_map::StringMap;
use crate::structs::command::Command;
use crate::structs::command_override::CommandOverride;
use crate::structs::command_storage::{
    context_commands, is_context_command, is_within, law_context_commands_are_complete,
    CommandStorage, ContextMenuType,
};
use crate::structs::consistency::next_level;
use crate::structs::naming::{is_disabled, law_same_identifiers_collide, naming_collision};
use crate::structs::rules::{command_follows_rules, storage_follows_rules};
use serenity::model::application::CommandType;
use vstd::prelude::*;

verus! {

/// An option that an interaction came with. `V` is the type of the values that commands take.
#[derive(Debug)]
pub struct ResolvedOption<V> {
    /// The name of the option.
    pub name: String,
    /// What was given for it.
    pub value: ResolvedValue<V>,
}

/// What was given for an option.
#[derive(Debug)]
pub enum ResolvedValue<V> {
    /// The option is a subcommand, with options of its own.
    SubCommand(Vec<ResolvedOption<V>>),
    /// The option is a group of subcommands, with the subcommand as its option.
    SubCommandGroup(Vec<ResolvedOption<V>>),
    /// The user is still typing a value for this option.
    Autocomplete {
        /// What was typed so far.
        value: String,
    },
    /// A value that the command takes.
    Other(V),
}

impl<V> ResolvedOption<V> {
    /// The options below this one, if it is a subcommand or a group of them.
    pub open spec fn nested(self) -> Option<Seq<ResolvedOption<V>>> {
        match self.value {
            ResolvedValue::SubCommand(options) => Some(options@),
            ResolvedValue::SubCommandGroup(options) => Some(options@),
            _ => None,
        }
    }

    fn nested_options(&self) -> (r: Option<&Vec<ResolvedOption<V>>>)
        ensures
            match r {
                Some(options) => self.nested() == Some(options@),
                None => self.nested() is None,
            },
    {
        match &self.value {
            ResolvedValue::SubCommand(options) => Some(options),
            ResolvedValue::SubCommandGroup(options) => Some(options),
            _ => None,
        }
    }
}

/// The first subcommand among `options` from the `i`th on: its name and its options.
pub open spec fn first_subcommand<V>(options: Seq<ResolvedOption<V>>, i: nat) -> Option<
    (Seq<char>, Seq<ResolvedOption<V>>),
>
    decreases options.len() - i,
{
    if i >= options.len() {
        None
    } else {
        match options[i as int].nested() {
            Some(nested) => Some((options[i as int].name@, nested)),
            None => first_subcommand(options, i + 1),
        }
    }
}

fn find_subcommand<'b, V>(options: &'b Vec<ResolvedOption<V>>) -> (r: Option<
    (&'b String, &'b Vec<ResolvedOption<V>>),
>)
    ensures
        match r {
            Some((name, nested)) => first_subcommand(options@, 0) == Some((name@, nested@)),
            None => first_subcommand(options@, 0) is None,
        },
{
    let mut i: usize = 0;
    while i < options.len()
        invariant
            i <= options@.len(),
            first_subcommand(options@, 0) == first_subcommand(options@, i as nat),
        decreases options@.len() - i,
    {
        if let Some(nested) = options[i].nested_options() {
            return Some((&options[i].name, nested));
        }
        i = i + 1;
    }
    None
}

/// What a search for a command gives.
#[verifier::ext_equal]
pub struct SearchResult<H, V> {
    /// The command and the options that are meant for it.
    pub found: Option<(Command<H>, Seq<ResolvedOption<V>>)>,
    /// The commands below which the search went on, in this order.
    pub parents: Seq<Command<H>>,
}

/// Whether `c` answers to `name` as a slash command.
pub open spec fn answers_to<H>(
    c: Command<H>,
    name: Seq<char>,
    overrides: Map<Seq<char>, CommandOverride>,
) -> bool {
    !is_disabled(c, overrides) && c.slash_action is Some && c.name@ == name
}

/// Searches for a slash command among `s` from the `i`th on, and below those that answer to `name`
/// if the options ask for a subcommand.
pub open spec fn search_slash<H, V>(
    name: Seq<char>,
    options: Seq<ResolvedOption<V>>,
    s: Seq<Command<H>>,
    i: nat,
    overrides: Map<Seq<char>, CommandOverride>,
) -> SearchResult<H, V>
    decreases s, s.len() - i,
{
    if i >= s.len() {
        SearchResult { found: None, parents: Seq::empty() }
    } else if !answers_to(s[i as int], name, overrides) {
        search_slash(name, options, s, i + 1, overrides)
    } else {
        match first_subcommand(options, 0) {
            None => SearchResult { found: Some((s[i as int], options)), parents: Seq::empty() },
            Some((sub_name, sub_options)) => {
                let below = search_slash(
                    sub_name,
                    sub_options,
                    s[i as int].subcommands@,
                    0,
                    overrides,
                );
                let parents = seq![s[i as int]] + below.parents;
                if below.found is Some {
                    SearchResult { found: below.found, parents }
                } else {
                    let rest = search_slash(name, options, s, i + 1, overrides);
                    SearchResult { found: rest.found, parents: parents + rest.parents }
                }
            },
        }
    }
}

/// The first enabled command of `s` from the `i`th on that is shown as `name` in a context menu.
pub open spec fn search_context<H>(
    name: Seq<char>,
    s: Seq<Command<H>>,
    i: nat,
    overrides: Map<Seq<char>, CommandOverride>,
) -> Option<Command<H>>
    decreases s.len() - i,
{
    if i >= s.len() {
        None
    } else if !is_disabled(s[i as int], overrides) && s[i as int].shown_context_name() == name {
        Some(s[i as int])
    } else {
        search_context(name, s, i + 1, overrides)
    }
}

/// Searches for a context menu command of the given type, on whatever level.
pub open spec fn search_menu<H, V>(
    name: Seq<char>,
    menu: ContextMenuType,
    options: Seq<ResolvedOption<V>>,
    s: Seq<Command<H>>,
    overrides: Map<Seq<char>, CommandOverride>,
) -> SearchResult<H, V> {
    SearchResult {
        found: match search_context(name, context_commands(s, menu), 0, overrides) {
            Some(c) => Some((c, options)),
            None => None,
        },
        parents: Seq::empty(),
    }
}

/// Searches for the command that an interaction of type `kind` invokes.
pub open spec fn search<H, V>(
    name: Seq<char>,
    kind: CommandType,
    options: Seq<ResolvedOption<V>>,
    s: Seq<Command<H>>,
    overrides: Map<Seq<char>, CommandOverride>,
) -> SearchResult<H, V> {
    match kind {
        CommandType::PrimaryEntryPoint => SearchResult { found: None, parents: Seq::empty() },
        CommandType::User => search_menu(name, ContextMenuType::User, options, s, overrides),
        CommandType::Message => search_menu(name, ContextMenuType::Message, options, s, overrides),
        _ => search_slash(name, options, s, 0, overrides),
    }
}

/// The content of what a search found.
pub open spec fn found_content<H, V>(
    found: Option<(&Command<H>, &Vec<ResolvedOption<V>>)>,
) -> Option<(Command<H>, Seq<ResolvedOption<V>>)> {
    match found {
        Some((command, options)) => Some((*command, options@)),
        None => None,
    }
}

fn find_context_command<'a, H>(
    interaction_name: &String,
    commands: &Vec<&'a Command<H>>,
    overrides: &StringMap<CommandOverride>,
) -> (r: Option<&'a Command<H>>)
    ensures
        match r {
            Some(command) => search_context(interaction_name@, commands@.unref(), 0, overrides@)
                == Some(*command),
            None => search_context(interaction_name@, commands@.unref(), 0, overrides@) is None,
        },
{
    let ghost s = commands@.unref();
    let mut i: usize = 0;
    while i < commands.len()
        invariant
            i <= commands@.len(),
            s == commands@.unref(),
            search_context(interaction_name@, s, 0, overrides@) == search_context(
                interaction_name@,
                s,
                i as nat,
                overrides@,
            ),
        decreases commands@.len() - i,
    {
        if !commands[i].is_disabled_by(overrides) && *commands[i].context_name()
            == *interaction_name {
            return Some(commands[i]);
        }
        i = i + 1;
    }
    None
}

fn find_slash_command<'a, 'b, H, V>(
    interaction_name: &String,
    interaction_options: &'b Vec<ResolvedOption<V>>,
    commands: &'a CommandStorage<H>,
    overrides: &StringMap<CommandOverride>,
    parent_commands: &mut Vec<&'a Command<H>>,
) -> (r: Option<(&'a Command<H>, &'b Vec<ResolvedOption<V>>)>)
    ensures
        ({
            let result = search_slash(
                interaction_name@,
                interaction_options@,
                commands@,
                0,
                overrides@,
            );
            &&& found_content(r) == result.found
            &&& final(parent_commands)@.unref() == old(parent_commands)@.unref() + result.parents
        }),
    decreases *commands,
{
    let ghost s = commands@;
    let ghost name = interaction_name@;
    let ghost options = interaction_options@;
    let ghost start = parent_commands@.unref();
    let ghost whole = search_slash(name, options, s, 0, overrides@);
    let ghost mut tried: Seq<Command<H>> = Seq::empty();
    let subcommand = find_subcommand(interaction_options);
    let mut i: usize = 0;
    assert(whole.parents =~= tried + whole.parents);
    while i < commands.0.len()
        invariant
            i <= s.len(),
            s == commands.0@,
            name == interaction_name@,
            options == interaction_options@,
            start == old(parent_commands)@.unref(),
            whole == search_slash(name, options, s, 0, overrides@),
            match subcommand {
                Some((name, nested)) => first_subcommand(options, 0) == Some((name@, nested@)),
                None => first_subcommand(options, 0) is None,
            },
            parent_commands@.unref() == start + tried,
            whole.found == search_slash(name, options, s, i as nat, overrides@).found,
            whole.parents == tried + search_slash(name, options, s, i as nat, overrides@).parents,
        decreases s.len() - i,
    {
        let command = &commands.0[i];
        // do not match a command that has no slash action
        if !command.is_disabled_by(overrides) && command.slash_action.is_some() && command.name
            == *interaction_name {
            match subcommand {
                Some((sub_name, sub_options)) => {
                    let ghost before = parent_commands@;
                    parent_commands.push(command);
                    assert(parent_commands@.unref() =~= before.unref().push(*command));
                    let found = find_slash_command(
                        sub_name,
                        sub_options,
                        &command.subcommands,
                        overrides,
                        parent_commands,
                    );
                    let ghost below = search_slash(
                        sub_name@,
                        sub_options@,
                        command.subcommands@,
                        0,
                        overrides@,
                    );
                    proof {
                        tried = tried + (seq![*command] + below.parents);
                    }
                    assert(parent_commands@.unref() =~= start + tried);
                    if found.is_some() {
                        assert(whole.parents =~= tried);
                        return found;
                    }
                    assert(whole.parents =~= tried + search_slash(
                        name,
                        options,
                        s,
                        (i + 1) as nat,
                        overrides@,
                    ).parents);
                },
                None => {
                    assert(whole.parents =~= tried);
                    return Some((command, interaction_options));
                },
            }
        }
        i = i + 1;
    }
    assert(whole.parents =~= tried);
    None
}

/// Check if the interaction with the given name and arguments matches any framework command.
///
/// A command that is disabled by an override is ignored.
///
/// Context menu commands are searched for recursively. Slash commands are searched for by following
/// the subcommands that the options name; the commands on the way are added to `parent_commands`.
///
/// A slash command is not matched when a context menu command was executed, and vice versa.
pub fn find_matching_command<'a, 'b, H, V>(
    interaction_name: &String,
    command_kind: CommandType,
    interaction_options: &'b Vec<ResolvedOption<V>>,
    commands: &'a CommandStorage<H>,
    overrides: &StringMap<CommandOverride>,
    parent_commands: &mut Vec<&'a Command<H>>,
) -> (r: Option<(&'a Command<H>, &'b Vec<ResolvedOption<V>>)>)
    ensures
        ({
            let result = search(
                interaction_name@,
                command_kind,
                interaction_options@,
                commands@,
                overrides@,
            );
            &&& found_content(r) == result.found
            &&& final(parent_commands)@.unref() == old(parent_commands)@.unref() + result.parents
        }),
{
    let ghost start = parent_commands@.unref();
    assert(start =~= start + Seq::<Command<H>>::empty());
    match command_kind {
        CommandType::PrimaryEntryPoint => {
            return None;
        },
        // search for context menu commands recursively; we can not split the name in this case
        CommandType::User => {
            let (user, _) = commands.get_context_commands();
            return match find_context_command(interaction_name, &user, overrides) {
                Some(command) => Some((command, interaction_options)),
                None => None,
            };
        },
        CommandType::Message => {
            let (_, message) = commands.get_context_commands();
            return match find_context_command(interaction_name, &message, overrides) {
                Some(command) => Some((command, interaction_options)),
                None => None,
            };
        },
        _ => {},
    }
    find_slash_command(interaction_name, interaction_options, commands, overrides, parent_commands)
}

/// What an interaction wants from the command that it names.
#[derive(Debug, Clone, Copy)]
pub enum CommandInteractionType {
    /// The command shall run.
    Command,
    /// Values shall be proposed for an option of the command.
    Autocomplete,
}

/// The item that a context menu command was used on.
#[derive(Debug, Clone, Copy)]
pub enum ResolvedTarget {
    /// A user.
    User,
    /// A message.
    Message,
}

/// What the dispatch reads of an interaction with a command.
#[derive(Debug)]
pub struct CommandInteraction<V> {
    /// The guild that the command is registered in, if it is not a global one.
    pub guild_id: Option<u64>,
    /// The name of the command.
    pub name: String,
    /// The type of the command.
    pub kind: CommandType,
    /// The options that were given.
    pub options: Vec<ResolvedOption<V>>,
    /// The item that a context menu command was used on.
    pub target: Option<ResolvedTarget>,
}

/// Why an interaction could not be dispatched.
#[derive(Debug)]
pub enum FrameworkError {
    /// There is no command for the interaction.
    UnknownInteraction,
    /// The command is not made as the interaction says.
    CommandStructureMismatch {
        /// What is different.
        description: &'static str,
    },
}

/// Application command specific context passed to command invocations.
#[derive(Debug)]
pub struct ApplicationContext<'a, H, V> {
    /// The interaction which triggered this command execution.
    pub interaction: &'a CommandInteraction<V>,
    /// The type of the interaction.
    pub interaction_type: CommandInteractionType,
    /// Slash command arguments.
    pub args: &'a Vec<ResolvedOption<V>>,
    /// The command that was invoked.
    pub command: &'a Command<H>,
    /// The commands that the command was searched for below.
    pub parent_commands: Vec<&'a Command<H>>,
    /// The global commands.
    pub global_commands: &'a CommandStorage<H>,
    /// The commands of the guild and their overrides, if there are any.
    pub guild_commands: Option<(&'a CommandStorage<H>, &'a StringMap<CommandOverride>)>,
}

/// The commands and the overrides that an interaction is looked up in. Overrides apply to the
/// commands of a guild only.
pub open spec fn searched_commands<H, V>(
    interaction: CommandInteraction<V>,
    global_commands: Seq<Command<H>>,
    guild_commands: Option<(Seq<Command<H>>, Map<Seq<char>, CommandOverride>)>,
) -> Option<(Seq<Command<H>>, Map<Seq<char>, CommandOverride>)> {
    if interaction.guild_id is Some {
        guild_commands
    } else {
        Some((global_commands, Map::empty()))
    }
}

/// What the search for the command of an interaction gives.
pub open spec fn extracted<H, V>(
    interaction: CommandInteraction<V>,
    global_commands: Seq<Command<H>>,
    guild_commands: Option<(Seq<Command<H>>, Map<Seq<char>, CommandOverride>)>,
) -> SearchResult<H, V> {
    match searched_commands(interaction, global_commands, guild_commands) {
        Some((commands, overrides)) => search(
            interaction.name@,
            interaction.kind,
            interaction.options@,
            commands,
            overrides,
        ),
        None => SearchResult { found: None, parents: Seq::empty() },
    }
}

/// The content of the commands of a guild and of their overrides.
pub open spec fn guild_content<H>(
    guild_commands: Option<(&CommandStorage<H>, &StringMap<CommandOverride>)>,
) -> Option<(Seq<Command<H>>, Map<Seq<char>, CommandOverride>)> {
    match guild_commands {
        Some((commands, overrides)) => Some((commands@, overrides@)),
        None => None,
    }
}

/// Parses an interaction into an [`ApplicationContext`].
///
/// If the called command is registered in a guild, it is searched for in the commands of the
/// guild, else in the global commands.
///
/// After this, the [`ApplicationContext`] should be passed into [`command_step`] or
/// [`autocomplete_step`].
pub fn extract_command<'a, H, V>(
    global_commands: &'a CommandStorage<H>,
    guild_commands: Option<(&'a CommandStorage<H>, &'a StringMap<CommandOverride>)>,
    interaction: &'a CommandInteraction<V>,
    interaction_type: CommandInteractionType,
) -> (r: Result<ApplicationContext<'a, H, V>, FrameworkError>)
    ensures
        ({
            let result = extracted(*interaction, global_commands@, guild_content(guild_commands));
            match r {
                Ok(ctx) => {
                    &&& result.found == Some((*ctx.command, ctx.args@))
                    &&& ctx.parent_commands@.unref() == result.parents
                    &&& ctx.interaction == interaction
                    &&& ctx.interaction_type == interaction_type
                    &&& ctx.global_commands == global_commands
                    &&& ctx.guild_commands == guild_commands
                },
                Err(error) => result.found is None && error is UnknownInteraction,
            }
        }),
{
    let empty_map: StringMap<CommandOverride> = StringMap::new();
    let searched = if interaction.guild_id.is_some() {
        guild_commands
    } else {
        Some((global_commands, &empty_map))
    };
    let mut parent_commands: Vec<&'a Command<H>> = Vec::new();
    let found = match searched {
        Some((commands, overrides)) => find_matching_command(
            &interaction.name,
            interaction.kind,
            &interaction.options,
            commands,
            overrides,
            &mut parent_commands,
        ),
        None => None,
    };
    match found {
        Some((command, args)) => Ok(
            ApplicationContext {
                interaction,
                interaction_type,
                args,
                command,
                parent_commands,
                global_commands,
                guild_commands,
            },
        ),
        None => Err(FrameworkError::UnknownInteraction),
    }
}

/// The options of a subcommand are part of the options that hold it.
pub proof fn lemma_subcommand_is_smaller<V>(options: Seq<ResolvedOption<V>>, i: nat)
    ensures
        first_subcommand(options, i) matches Some((_, nested)) ==> decreases_to!(options => nested),
    decreases options.len() - i,
{
    if i < options.len() {
        let option = options[i as int];
        assert(decreases_to!(options => option));
        match option.value {
            ResolvedValue::SubCommand(nested) => {
                assert(decreases_to!(option => option.value));
                assert(decreases_to!(option.value => nested));
                assert(decreases_to!(nested => nested@));
            },
            ResolvedValue::SubCommandGroup(nested) => {
                assert(decreases_to!(option => option.value));
                assert(decreases_to!(option.value => nested));
                assert(decreases_to!(nested => nested@));
            },
            _ => {
                lemma_subcommand_is_smaller(options, i + 1);
            },
        }
    }
}

/// The name and the options of the innermost subcommand that an interaction asks for.
pub open spec fn innermost<V>(name: Seq<char>, options: Seq<ResolvedOption<V>>) -> (
    Seq<char>,
    Seq<ResolvedOption<V>>,
)
    decreases options,
{
    proof {
        lemma_subcommand_is_smaller(options, 0);
    }
    match first_subcommand(options, 0) {
        None => (name, options),
        Some((sub_name, sub_options)) => innermost(sub_name, sub_options),
    }
}

/// A slash command that is found is enabled, has the name of the innermost subcommand that the
/// interaction asks for, and gets the options of that subcommand, among which is no further
/// subcommand.
pub proof fn law_found_slash_command_is_meant<H, V>(
    name: Seq<char>,
    options: Seq<ResolvedOption<V>>,
    s: Seq<Command<H>>,
    i: nat,
    overrides: Map<Seq<char>, CommandOverride>,
)
    ensures
        search_slash(name, options, s, i, overrides).found matches Some((c, args)) ==> {
            &&& answers_to(c, innermost(name, options).0, overrides)
            &&& args == innermost(name, options).1
            &&& first_subcommand(args, 0) is None
        },
    decreases s, s.len() - i,
{
    if i < s.len() {
        law_found_slash_command_is_meant(name, options, s, i + 1, overrides);
        if let Some((sub_name, sub_options)) = first_subcommand(options, 0) {
            law_found_slash_command_is_meant(
                sub_name,
                sub_options,
                s[i as int].subcommands@,
                0,
                overrides,
            );
        }
    }
}

/// A slash command that is found is one of the searched commands if no subcommand was asked for,
/// and then there are no parent commands. Else the last parent command is the one that it is a
/// subcommand of.
pub proof fn law_found_slash_command_is_below_its_parent<H, V>(
    name: Seq<char>,
    options: Seq<ResolvedOption<V>>,
    s: Seq<Command<H>>,
    i: nat,
    overrides: Map<Seq<char>, CommandOverride>,
)
    ensures
        ({
            let result = search_slash(name, options, s, i, overrides);
            result.found matches Some((c, _)) ==> if first_subcommand(options, 0) is None {
                result.parents.len() == 0 && s.contains(c)
            } else {
                result.parents.len() > 0 && result.parents.last().subcommands@.contains(c)
            }
        }),
    decreases s, s.len() - i,
{
    if i < s.len() {
        law_found_slash_command_is_below_its_parent(name, options, s, i + 1, overrides);
        if let Some((sub_name, sub_options)) = first_subcommand(options, 0) {
            law_found_slash_command_is_below_its_parent(
                sub_name,
                sub_options,
                s[i as int].subcommands@,
                0,
                overrides,
            );
        }
    }
}

/// Whether `c` is reached from `s` by going down from one command of `parents` to the next.
pub open spec fn are_ancestors<H>(
    parents: Seq<Command<H>>,
    c: Command<H>,
    s: Seq<Command<H>>,
) -> bool
    decreases parents.len(),
{
    if parents.len() == 0 {
        s.contains(c)
    } else {
        s.contains(parents[0]) && are_ancestors(parents.skip(1), c, parents[0].subcommands@)
    }
}

proof fn lemma_nothing_answers<H, V>(
    name: Seq<char>,
    options: Seq<ResolvedOption<V>>,
    s: Seq<Command<H>>,
    i: nat,
    overrides: Map<Seq<char>, CommandOverride>,
)
    requires
        forall|j: int| i <= j < s.len() ==> !answers_to(#[trigger] s[j], name, overrides),
    ensures
        search_slash(name, options, s, i, overrides).found is None,
    decreases s.len() - i,
{
    if i < s.len() {
        lemma_nothing_answers(name, options, s, i + 1, overrides);
    }
}

/// Whether, on every level, no two enabled slash commands have the same name.
pub open spec fn slash_names_differ<H>(
    s: Seq<Command<H>>,
    overrides: Map<Seq<char>, CommandOverride>,
) -> bool
    decreases s,
{
    &&& forall|i: int, j: int|
        #![trigger s[i], s[j]]
        0 <= i < j < s.len() && answers_to(s[i], s[i].name@, overrides) ==> !answers_to(
            s[j],
            s[i].name@,
            overrides,
        )
    &&& forall|i: int|
        0 <= i < s.len() ==> slash_names_differ((#[trigger] s[i]).subcommands@, overrides)
}

/// Where no two enabled slash commands on one level have the same name, the search goes straight to
/// the command: the parent commands of what is found are exactly the commands above it.
pub proof fn law_parents_are_ancestors<H, V>(
    name: Seq<char>,
    options: Seq<ResolvedOption<V>>,
    s: Seq<Command<H>>,
    i: nat,
    overrides: Map<Seq<char>, CommandOverride>,
)
    requires
        slash_names_differ(s, overrides),
    ensures
        ({
            let result = search_slash(name, options, s, i, overrides);
            result.found matches Some((c, _)) ==> are_ancestors(result.parents, c, s)
        }),
    decreases s, s.len() - i,
{
    if i < s.len() {
        let c = s[i as int];
        law_parents_are_ancestors(name, options, s, i + 1, overrides);
        if answers_to(c, name, overrides) {
            if let Some((sub_name, sub_options)) = first_subcommand(options, 0) {
                law_parents_are_ancestors(sub_name, sub_options, c.subcommands@, 0, overrides);
                let below = search_slash(sub_name, sub_options, c.subcommands@, 0, overrides);
                assert((seq![c] + below.parents).skip(1) =~= below.parents);
                assert forall|j: int| i + 1 <= j < s.len() implies !answers_to(
                    #[trigger] s[j],
                    name,
                    overrides,
                ) by {
                    assert(s[i as int] == c);
                }
                lemma_nothing_answers(name, options, s, i + 1, overrides);
            }
        }
    }
}

/// Among commands that follow the rules no two enabled slash commands on one level have the same
/// name, so [`law_parents_are_ancestors`] holds of them.
pub proof fn law_consistent_slash_names_differ<H>(
    s: Seq<Command<H>>,
    level: u8,
    parent: Option<Command<H>>,
    case_insensitive: bool,
    overrides: Map<Seq<char>, CommandOverride>,
)
    requires
        storage_follows_rules(s, level, parent, case_insensitive, overrides),
    ensures
        slash_names_differ(s, overrides),
    decreases s,
{
    assert forall|i: int, j: int|
        #![trigger s[i], s[j]]
        0 <= i < j < s.len() && answers_to(s[i], s[i].name@, overrides) implies !answers_to(
        s[j],
        s[i].name@,
        overrides,
    ) by {
        if answers_to(s[j], s[i].name@, overrides) {
            law_same_identifiers_collide(s[i], s[j], case_insensitive, overrides, -1, -1);
            assert(naming_collision(s[i], s[j], case_insensitive, overrides).len() == 0);
        }
    }
    assert forall|i: int| 0 <= i < s.len() implies slash_names_differ(
        (#[trigger] s[i]).subcommands@,
        overrides,
    ) by {
        assert(command_follows_rules(s[i], level, parent, case_insensitive, overrides));
        law_consistent_slash_names_differ(
            s[i].subcommands@,
            next_level(level),
            Some(s[i]),
            case_insensitive,
            overrides,
        );
    }
}

/// If no subcommand is asked for, the first enabled slash command with the name of the interaction
/// is found, and nothing if there is none.
pub proof fn law_first_slash_command_is_found<H, V>(
    name: Seq<char>,
    options: Seq<ResolvedOption<V>>,
    s: Seq<Command<H>>,
    i: nat,
    overrides: Map<Seq<char>, CommandOverride>,
)
    requires
        first_subcommand(options, 0) is None,
    ensures
        match search_slash(name, options, s, i, overrides).found {
            Some((c, args)) => args == options && exists|k: int|
                {
                    &&& i <= k < s.len()
                    &&& #[trigger] s[k] == c
                    &&& answers_to(c, name, overrides)
                    &&& forall|j: int| i <= j < k ==> !answers_to(#[trigger] s[j], name, overrides)
                },
            None => forall|j: int|
                i <= j < s.len() ==> !answers_to(#[trigger] s[j], name, overrides),
        },
    decreases s.len() - i,
{
    if i < s.len() {
        if answers_to(s[i as int], name, overrides) {
            assert(s[i as int] == s[i as int]);
        } else {
            law_first_slash_command_is_found(name, options, s, i + 1, overrides);
        }
    }
}

proof fn lemma_search_context<H>(
    name: Seq<char>,
    s: Seq<Command<H>>,
    i: nat,
    overrides: Map<Seq<char>, CommandOverride>,
)
    ensures
        match search_context(name, s, i, overrides) {
            Some(c) => s.contains(c) && !is_disabled(c, overrides) && c.shown_context_name()
                == name,
            None => forall|j: int|
                i <= j < s.len() ==> is_disabled(#[trigger] s[j], overrides)
                    || s[j].shown_context_name() != name,
        },
    decreases s.len() - i,
{
    if i < s.len() {
        lemma_search_context(name, s, i + 1, overrides);
    }
}

/// Whether `result` holds an enabled context menu command of type `menu` that is stored somewhere
/// in `s` and shown as `name`, with all the options, or nothing if there is no such command.
pub open spec fn is_menu_search_exact<H, V>(
    result: SearchResult<H, V>,
    name: Seq<char>,
    menu: ContextMenuType,
    options: Seq<ResolvedOption<V>>,
    s: Seq<Command<H>>,
    overrides: Map<Seq<char>, CommandOverride>,
) -> bool {
    &&& result.parents.len() == 0
    &&& match result.found {
        Some((c, args)) => {
            &&& is_context_command(c, menu)
            &&& is_within(c, s)
            &&& !is_disabled(c, overrides)
            &&& c.shown_context_name() == name
            &&& args == options
        },
        None => forall|c: Command<H>| #[trigger]
            is_context_command(c, menu) && is_within(c, s) && !is_disabled(c, overrides)
                ==> c.shown_context_name() != name,
    }
}

proof fn lemma_menu_search<H, V>(
    name: Seq<char>,
    menu: ContextMenuType,
    options: Seq<ResolvedOption<V>>,
    s: Seq<Command<H>>,
    overrides: Map<Seq<char>, CommandOverride>,
)
    ensures
        is_menu_search_exact(
            search_menu(name, menu, options, s, overrides),
            name,
            menu,
            options,
            s,
            overrides,
        ),
{
    let commands = context_commands(s, menu);
    lemma_search_context(name, commands, 0, overrides);
    match search_context(name, commands, 0, overrides) {
        Some(c) => {
            law_context_commands_are_complete(s, menu, c);
        },
        None => {
            assert forall|c: Command<H>| #[trigger]
                is_context_command(c, menu) && is_within(c, s) && !is_disabled(
                    c,
                    overrides,
                ) implies c.shown_context_name() != name by {
                law_context_commands_are_complete(s, menu, c);
                let k = commands.index_of(c);
                assert(commands[k] == c);
            }
        },
    }
}

/// The command that is found for an interaction with a context menu command on users is an enabled
/// one of that type, on whatever level, and is shown under the name of the interaction. If there
/// is one, something is found. Nothing else is ever found, and there are no parent commands.
pub proof fn law_found_user_command_is_meant<H, V>(
    name: Seq<char>,
    options: Seq<ResolvedOption<V>>,
    s: Seq<Command<H>>,
    overrides: Map<Seq<char>, CommandOverride>,
)
    ensures
        is_menu_search_exact(
            search(name, CommandType::User, options, s, overrides),
            name,
            ContextMenuType::User,
            options,
            s,
            overrides,
        ),
{
    lemma_menu_search(name, ContextMenuType::User, options, s, overrides);
}

/// The command that is found for an interaction with a context menu command on messages is an enabled
/// one of that type, on whatever level, and is shown under the name of the interaction. If there
/// is one, something is found. Nothing else is ever found, and there are no parent commands.
pub proof fn law_message_command_is_found<H, V>(
    name: Seq<char>,
    options: Seq<ResolvedOption<V>>,
    s: Seq<Command<H>>,
    overrides: Map<Seq<char>, CommandOverride>,
)
    ensures
        is_menu_search_exact(
            search(name, CommandType::Message, options, s, overrides),
            name,
            ContextMenuType::Message,
            options,
            s,
            overrides,
        ),
{
    lemma_menu_search(name, ContextMenuType::Message, options, s, overrides);
}

/// A disabled command is never found, whatever the interaction is.
pub proof fn law_disabled_commands_are_ignored<H, V>(
    name: Seq<char>,
    kind: CommandType,
    options: Seq<ResolvedOption<V>>,
    s: Seq<Command<H>>,
    overrides: Map<Seq<char>, CommandOverride>,
)
    ensures
        search(name, kind, options, s, overrides).found matches Some((c, _)) ==> !is_disabled(
            c,
            overrides,
        ),
{
    law_found_slash_command_is_meant(name, options, s, 0, overrides);
    lemma_search_context(name, context_commands(s, ContextMenuType::User), 0, overrides);
    lemma_search_context(name, context_commands(s, ContextMenuType::Message), 0, overrides);
}

/// A command that is registered in a guild is searched for in the commands of the guild only, any
/// other in the global commands only.
pub proof fn law_guild_and_global_commands_are_apart<H, V>(
    interaction: CommandInteraction<V>,
    global: Seq<Command<H>>,
    other_global: Seq<Command<H>>,
    guild: Option<(Seq<Command<H>>, Map<Seq<char>, CommandOverride>)>,
    other_guild: Option<(Seq<Command<H>>, Map<Seq<char>, CommandOverride>)>,
)
    ensures
        interaction.guild_id is Some ==> extracted(interaction, global, guild) == extracted(
            interaction,
            other_global,
            guild,
        ),
        interaction.guild_id is None ==> extracted(interaction, global, guild) == extracted(
            interaction,
            global,
            other_guild,
        ),
{
}

} // verus!
