//! The rules of Discord and of this crate that commands have to follow.

use crate::names::{is_compliant_context_menu_name, NamePatterns};
use crate::seqs::{concat_range, lemma_filter_step, only_if};
use crate::string_map::StringMap;
use crate::structs::command::Command;
use crate::structs::command_override::CommandOverride;
use crate::structs::command_storage::{context_commands, CommandStorage, ContextMenuType};
use crate::structs::errors::{
    command_fault, command_faults, lemma_command_faults_add, lemma_command_faults_len,
    lemma_command_faults_push, lemma_storage_faults_add, lemma_storage_faults_len,
    lemma_storage_faults_push, storage_fault, storage_faults, CommandConsistencyError,
    CommandFault, CommandStorageConsistencyError, StorageFault,
};
use crate::structs::length::command_length;
use crate::structs::naming::{is_disabled, naming_collision, shared_aliases, shared_names};
use crate::structs::options::{
    all_opt_texts, all_texts, bad_names, bad_texts, collect_bad_names, collect_bad_texts,
    collect_texts,
};
use crate::text::{opt_text, texts};
use vstd::prelude::*;

verus! {

/// How many characters an application command can have, with all that belongs to it.
pub const MAX_COMMAND_LENGTH: u16 = 8000;

/// How deep a slash command can be in the hierarchy; top level commands are on level 1.
pub const MAX_LEVEL: u8 = 3;

/// How many slash commands there can be on the top level.
pub const MAX_TOP_LEVEL_SLASH_COMMANDS: u16 = 100;

/// How many slash commands a command can have as its subcommands.
pub const MAX_SLASH_SUBCOMMANDS: u16 = 25;

/// How many context menu commands there can be of each type.
pub const MAX_CONTEXT_COMMANDS: usize = 5;

/// The level below `level`. There is none below the last one that can be counted.
pub open spec fn next_level(level: u8) -> u8 {
    if level < u8::MAX {
        (level + 1) as u8
    } else {
        u8::MAX
    }
}

/// The slash commands among `s`.
pub open spec fn slash_commands<H>(s: Seq<Command<H>>) -> Seq<Command<H>> {
    s.filter(|c: Command<H>| c.slash_action is Some)
}

impl<H> Command<H> {
    /// The names of the application command that break a rule. A name of a slash command has to
    /// follow stricter rules than one of a context menu command.
    pub open spec fn bad_command_names(self) -> Seq<Seq<char>> {
        bad_names(
            all_texts(self.name_localizations@, self.name@),
            self.slash_action is None,
        ) + (match self.context_menu_name {
            Some(name) => only_if(!is_compliant_context_menu_name(name@), name@),
            None => Seq::empty(),
        })
    }

    /// The descriptions of the slash command that break a rule.
    pub open spec fn bad_command_descriptions(self) -> Seq<Seq<char>> {
        bad_texts(all_opt_texts(self.description_localizations@, opt_text(self.description)))
    }

    /// Whether the command has more characters than Discord allows.
    pub open spec fn is_too_long(self, level: u8) -> bool {
        &&& self.slash_action is Some && level == 1 || self.context_menu_action is Some
        &&& command_length(self, self.slash_action is Some) > MAX_COMMAND_LENGTH
    }

    /// Whether the command is of a type that `parent` is not of.
    pub open spec fn mismatches(self, parent: Self) -> bool {
        ||| self.prefix_action is Some && parent.prefix_action is None
        ||| self.slash_action is Some && parent.slash_action is None
    }

    /// What is wrong with the command, its subcommands aside.
    pub open spec fn own_faults(self, level: u8, parent: Option<Self>) -> Seq<CommandFault<H>> {
        let is_slash = self.slash_action is Some;
        let is_context = self.context_menu_action is Some;
        only_if(self.is_too_long(level), CommandFault::MaxLengthExceeded(self)) + only_if(
            parent is Some && self.mismatches(parent->0),
            CommandFault::ParentCommandTypeWrong(self),
        ) + only_if(
            is_slash && level > MAX_LEVEL,
            CommandFault::HierarchyLevelExceeded(self),
        ) + only_if(
            is_context && self.parameters@.len() > 0,
            CommandFault::ContextMenuWithOptions(self),
        ) + only_if(
            (is_slash || is_context) && self.bad_command_names().len() > 0,
            CommandFault::NameNotCompliant { cmd: self, names: self.bad_command_names() },
        ) + only_if(
            is_slash && self.bad_command_descriptions().len() > 0,
            CommandFault::DescriptionNotCompliant {
                cmd: self,
                descriptions: self.bad_command_descriptions(),
            },
        ) + (if is_slash {
            self.all_option_faults()
        } else {
            Seq::empty()
        })
    }
}

/// What is wrong with `c` as a command on `level` below `parent`.
pub open spec fn faults_of_command<H>(
    c: Command<H>,
    level: u8,
    parent: Option<Command<H>>,
    case_insensitive: bool,
    overrides: Map<Seq<char>, CommandOverride>,
) -> Seq<CommandFault<H>>
    decreases c, 0nat,
{
    let below = faults_of_storage(
        c.subcommands@,
        next_level(level),
        Some(c),
        case_insensitive,
        overrides,
    );
    c.own_faults(level, parent) + only_if(
        below.len() > 0,
        CommandFault::Subcommands { cmd: c, storage: below },
    )
}

/// What is wrong with `s` as the commands on `level` below `parent`.
pub open spec fn faults_of_storage<H>(
    s: Seq<Command<H>>,
    level: u8,
    parent: Option<Command<H>>,
    case_insensitive: bool,
    overrides: Map<Seq<char>, CommandOverride>,
) -> Seq<StorageFault<H>>
    decreases s, s.len() + 1,
{
    only_if(
        level > 1 && slash_commands(s).len() > MAX_SLASH_SUBCOMMANDS,
        StorageFault::TooManySlashCommands(MAX_SLASH_SUBCOMMANDS),
    ) + faults_of_first(s, s.len(), level, parent, case_insensitive, overrides)
}

/// What is wrong with the first `n` commands of `s`, and with the names that they share with
/// later ones.
pub open spec fn faults_of_first<H>(
    s: Seq<Command<H>>,
    n: nat,
    level: u8,
    parent: Option<Command<H>>,
    case_insensitive: bool,
    overrides: Map<Seq<char>, CommandOverride>,
) -> Seq<StorageFault<H>>
    decreases s, n,
{
    if n == 0 || n > s.len() {
        Seq::empty()
    } else {
        let own = faults_of_command(s[n - 1], level, parent, case_insensitive, overrides);
        faults_of_first(s, (n - 1) as nat, level, parent, case_insensitive, overrides) + faults_at(
            s,
            n - 1,
            own,
            case_insensitive,
            overrides,
        )
    }
}

/// What is wrong with the `i`th command of `s`, given what is wrong with it on its own.
pub open spec fn faults_at<H>(
    s: Seq<Command<H>>,
    i: int,
    own: Seq<CommandFault<H>>,
    case_insensitive: bool,
    overrides: Map<Seq<char>, CommandOverride>,
) -> Seq<StorageFault<H>> {
    only_if(own.len() > 0, StorageFault::Commands(own)) + collisions_after(
        s,
        i,
        case_insensitive,
        overrides,
    )
}

/// The identifiers that the commands `a` and `b` share, as a fault.
pub open spec fn collision_fault<H>(
    a: Command<H>,
    b: Command<H>,
    case_insensitive: bool,
    overrides: Map<Seq<char>, CommandOverride>,
) -> Seq<StorageFault<H>> {
    let identifiers = naming_collision(a, b, case_insensitive, overrides);
    only_if(
        identifiers.len() > 0,
        StorageFault::DuplicatedCommandIdentifier { cmds: (a, b), identifiers },
    )
}

/// The identifiers that the `i`th command of `s` shares with a later one.
pub open spec fn collisions_after<H>(
    s: Seq<Command<H>>,
    i: int,
    case_insensitive: bool,
    overrides: Map<Seq<char>, CommandOverride>,
) -> Seq<StorageFault<H>> {
    concat_range(
        i + 1,
        s.len() as int,
        |j: int| collision_fault(s[i], s[j], case_insensitive, overrides),
    )
}

/// The identifiers that any two commands of `s` share.
pub open spec fn all_collisions<H>(
    s: Seq<Command<H>>,
    case_insensitive: bool,
    overrides: Map<Seq<char>, CommandOverride>,
) -> Seq<StorageFault<H>> {
    concat_range(0, s.len() as int, |i: int| collisions_after(s, i, case_insensitive, overrides))
}

/// What is wrong with the context menu commands `s`, all of one type.
pub open spec fn faults_of_context_commands<H>(
    s: Seq<Command<H>>,
    case_insensitive: bool,
    overrides: Map<Seq<char>, CommandOverride>,
) -> Seq<StorageFault<H>> {
    all_collisions(s, case_insensitive, overrides) + only_if(
        s.len() > MAX_CONTEXT_COMMANDS,
        StorageFault::TooManyContextCommands(s),
    )
}

/// What is wrong with `s` as the top level commands of a bot.
pub open spec fn faults_of_top_level<H>(
    s: Seq<Command<H>>,
    case_insensitive: bool,
    overrides: Map<Seq<char>, CommandOverride>,
) -> Seq<StorageFault<H>> {
    only_if(
        slash_commands(s).len() > MAX_TOP_LEVEL_SLASH_COMMANDS,
        StorageFault::TooManySlashCommands(MAX_TOP_LEVEL_SLASH_COMMANDS),
    ) + faults_of_context_commands(
        context_commands(s, ContextMenuType::User),
        case_insensitive,
        overrides,
    ) + faults_of_context_commands(
        context_commands(s, ContextMenuType::Message),
        case_insensitive,
        overrides,
    ) + faults_of_storage(s, 1, None, case_insensitive, overrides)
}

/// The identifiers that the prefix commands `a` and `b` share, as a fault. Disabled commands and
/// commands without a prefix action share nothing.
pub open spec fn prefix_collision_fault<H>(
    a: Command<H>,
    b: Command<H>,
    case_insensitive: bool,
    overrides: Map<Seq<char>, CommandOverride>,
) -> Seq<StorageFault<H>> {
    let identifiers = shared_names(a, b, case_insensitive) + shared_aliases(
        a,
        b,
        case_insensitive,
        overrides,
    );
    only_if(
        a.prefix_action is Some && b.prefix_action is Some && !is_disabled(a, overrides)
            && !is_disabled(b, overrides) && identifiers.len() > 0,
        StorageFault::DuplicatedCommandIdentifier { cmds: (a, b), identifiers },
    )
}

/// The identifiers that prefix commands of `s` and of `t` share.
pub open spec fn collisions_with_other<H>(
    s: Seq<Command<H>>,
    t: Seq<Command<H>>,
    case_insensitive: bool,
    overrides: Map<Seq<char>, CommandOverride>,
) -> Seq<StorageFault<H>> {
    concat_range(
        0,
        s.len() as int,
        |i: int|
            concat_range(
                0,
                t.len() as int,
                |j: int| prefix_collision_fault(s[i], t[j], case_insensitive, overrides),
            ),
    )
}

fn push_command_error<'a, H>(
    errors: &mut Vec<CommandConsistencyError<'a, H>>,
    applies: bool,
    error: CommandConsistencyError<'a, H>,
)
    ensures
        command_faults(final(errors)@, final(errors)@.len()) == command_faults(
            old(errors)@,
            old(errors)@.len(),
        ) + only_if(applies, command_fault(error)),
{
    if applies {
        proof {
            lemma_command_faults_push(errors@, error);
        }
        errors.push(error);
    }
}

fn push_storage_error<'a, H>(
    errors: &mut Vec<CommandStorageConsistencyError<'a, H>>,
    applies: bool,
    error: CommandStorageConsistencyError<'a, H>,
)
    ensures
        storage_faults(final(errors)@, final(errors)@.len()) == storage_faults(
            old(errors)@,
            old(errors)@.len(),
        ) + only_if(applies, storage_fault(error)),
{
    if applies {
        proof {
            lemma_storage_faults_push(errors@, error);
        }
        errors.push(error);
    }
}

fn push_collisions_after<'a, H>(
    v: &Vec<&'a Command<H>>,
    i: usize,
    case_insensitive: bool,
    overrides: &StringMap<CommandOverride>,
    errors: &mut Vec<CommandStorageConsistencyError<'a, H>>,
)
    requires
        i < v@.len(),
    ensures
        storage_faults(final(errors)@, final(errors)@.len()) == storage_faults(
            old(errors)@,
            old(errors)@.len(),
        ) + collisions_after(v@.unref(), i as int, case_insensitive, overrides@),
{
    let ghost s = v@.unref();
    let ghost before = storage_faults(errors@, errors@.len());
    let ghost f = |j: int| collision_fault(s[i as int], s[j], case_insensitive, overrides@);
    let n: usize = v.len();
    let mut j: usize = i + 1;
    assert(before =~= before + concat_range(i + 1, j as int, f));
    while j < n
        invariant
            i < j <= n,
            n == v@.len(),
            s == v@.unref(),
            f == (|j: int| collision_fault(s[i as int], s[j], case_insensitive, overrides@)),
            storage_faults(errors@, errors@.len()) == before + concat_range(i + 1, j as int, f),
        decreases n - j,
    {
        let identifiers = v[i].check_naming_collision(v[j], case_insensitive, overrides);
        push_storage_error(
            errors,
            identifiers.len() > 0,
            CommandStorageConsistencyError::DuplicatedCommandIdentifier {
                cmds: (v[i], v[j]),
                identifiers,
            },
        );
        assert(storage_faults(errors@, errors@.len()) =~= before + concat_range(i + 1, j + 1, f));
        j = j + 1;
    }
}

fn push_faults_at<'a, H>(
    v: &Vec<&'a Command<H>>,
    i: usize,
    own: Vec<CommandConsistencyError<'a, H>>,
    case_insensitive: bool,
    overrides: &StringMap<CommandOverride>,
    errors: &mut Vec<CommandStorageConsistencyError<'a, H>>,
)
    requires
        i < v@.len(),
    ensures
        storage_faults(final(errors)@, final(errors)@.len()) == storage_faults(
            old(errors)@,
            old(errors)@.len(),
        ) + faults_at(
            v@.unref(),
            i as int,
            command_faults(own@, own@.len()),
            case_insensitive,
            overrides@,
        ),
{
    proof {
        lemma_command_faults_len(own@, own@.len());
    }
    push_storage_error(
        errors,
        own.len() > 0,
        CommandStorageConsistencyError::CommandConsistencyError(own),
    );
    push_collisions_after(v, i, case_insensitive, overrides, errors);
}

/// What is found at the next command comes after what was found before it.
proof fn lemma_first_step<H>(
    s: Seq<Command<H>>,
    i: nat,
    level: u8,
    parent: Option<Command<H>>,
    case_insensitive: bool,
    overrides: Map<Seq<char>, CommandOverride>,
    before: Seq<StorageFault<H>>,
)
    requires
        i < s.len(),
    ensures
        before + faults_of_first(s, i + 1, level, parent, case_insensitive, overrides) == before
            + faults_of_first(s, i, level, parent, case_insensitive, overrides) + faults_at(
            s,
            i as int,
            faults_of_command(s[i as int], level, parent, case_insensitive, overrides),
            case_insensitive,
            overrides,
        ),
{
    let first = faults_of_first(s, i, level, parent, case_insensitive, overrides);
    let own = faults_of_command(s[i as int], level, parent, case_insensitive, overrides);
    let here = faults_at(s, i as int, own, case_insensitive, overrides);
    assert(faults_of_first(s, i + 1, level, parent, case_insensitive, overrides) == first + here);
    assert(before + (first + here) =~= before + first + here);
}

fn push_context_errors<'a, H>(
    v: Vec<&'a Command<H>>,
    case_insensitive: bool,
    overrides: &StringMap<CommandOverride>,
    errors: &mut Vec<CommandStorageConsistencyError<'a, H>>,
)
    ensures
        storage_faults(final(errors)@, final(errors)@.len()) == storage_faults(
            old(errors)@,
            old(errors)@.len(),
        ) + faults_of_context_commands(v@.unref(), case_insensitive, overrides@),
{
    let ghost s = v@.unref();
    let ghost before = storage_faults(errors@, errors@.len());
    let ghost f = |i: int| collisions_after(s, i, case_insensitive, overrides@);
    let mut i: usize = 0;
    assert(before =~= before + concat_range(0, 0, f));
    while i < v.len()
        invariant
            i <= v@.len(),
            s == v@.unref(),
            f == (|i: int| collisions_after(s, i, case_insensitive, overrides@)),
            storage_faults(errors@, errors@.len()) == before + concat_range(0, i as int, f),
        decreases v@.len() - i,
    {
        push_collisions_after(&v, i, case_insensitive, overrides, errors);
        assert(storage_faults(errors@, errors@.len()) =~= before + concat_range(0, i + 1, f));
        i = i + 1;
    }
    push_storage_error(
        errors,
        v.len() > MAX_CONTEXT_COMMANDS,
        CommandStorageConsistencyError::TooManyContextCommands(v),
    );
    assert(storage_faults(errors@, errors@.len()) =~= before + faults_of_context_commands(
        s,
        case_insensitive,
        overrides@,
    ));
}

impl<H> Command<H> {
    fn collect_bad_command_names(&self, patterns: &NamePatterns) -> (r: Vec<String>)
        ensures
            texts(r@) == self.bad_command_names(),
    {
        let mut names = collect_bad_names(
            patterns,
            &collect_texts(&self.name_localizations, Some(&self.name)),
            self.slash_action.is_none(),
        );
        if let Some(name) = &self.context_menu_name {
            if !patterns.check_context_menu_name(name) {
                names.push(name.clone());
            }
        }
        assert(texts(names@) =~= self.bad_command_names());
        names
    }

    fn check_own_consistency<'a>(
        &'a self,
        patterns: &NamePatterns,
        command_level: u8,
        parent_command: Option<&Self>,
    ) -> (r: Vec<CommandConsistencyError<'a, H>>)
        ensures
            command_faults(r@, r@.len()) == self.own_faults(
                command_level,
                match parent_command {
                    Some(parent) => Some(*parent),
                    None => None,
                },
            ),
    {
        let is_slash = self.slash_action.is_some();
        let is_context = self.context_menu_action.is_some();
        let mut errors: Vec<CommandConsistencyError<'a, H>> = Vec::new();

        // If this command is an application command and has no parent (i.e. a top level command),
        // calculate and check length
        let too_long = (is_slash && command_level == 1 || is_context)
            && self.calculate_command_length(is_slash) > MAX_COMMAND_LENGTH;
        push_command_error(
            &mut errors,
            too_long,
            CommandConsistencyError::MaxLengthExceeded(self),
        );

        // Check type of parent command if exists
        let mismatch = match parent_command {
            Some(parent) => self.prefix_action.is_some() && parent.prefix_action.is_none()
                || is_slash && parent.slash_action.is_none(),
            None => false,
        };
        push_command_error(
            &mut errors,
            mismatch,
            CommandConsistencyError::ParentCommandTypeWrong(self),
        );

        // Check command hierarchy level if slash command
        push_command_error(
            &mut errors,
            is_slash && command_level > MAX_LEVEL,
            CommandConsistencyError::HierarchyLevelExceeded(self),
        );

        // Check if context menu command has options
        push_command_error(
            &mut errors,
            is_context && self.parameters.len() > 0,
            CommandConsistencyError::ContextMenuWithOptions(self),
        );

        // Check all (localised) names, ignore prefix only commands
        let names = self.collect_bad_command_names(patterns);
        let bad_names = (is_slash || is_context) && names.len() > 0;
        push_command_error(
            &mut errors,
            bad_names,
            CommandConsistencyError::NameNotCompliant { cmd: self, names },
        );

        // Check length of all (localised) descriptions.
        // Descriptions of context menu commands are ignored by Discord anyway, no need to check.
        let descriptions = collect_bad_texts(
            &collect_texts(&self.description_localizations, self.description.as_ref()),
        );
        let bad_descriptions = is_slash && descriptions.len() > 0;
        push_command_error(
            &mut errors,
            bad_descriptions,
            CommandConsistencyError::DescriptionNotCompliant { cmd: self, descriptions },
        );

        // Check options if slash command and has no subcommands
        if is_slash {
            let mut option_errors = self.check_options_with(patterns);
            proof {
                lemma_command_faults_add(errors@, option_errors@);
            }
            errors.append(&mut option_errors);
        }
        errors
    }

    /// This method checks for any inconsistencies of this command:
    ///
    /// * if this is a top level application command or a context menu command,
    ///   max total length is 8000 chars, which includes:
    ///   * everything, which has a length (i.e. is a String; names, descriptions, options, ...)
    ///   * for localised Strings, only the longest localisation (or the default if longest) counts
    ///   * for slash commands: all subcommands recursively, non slash subcommands are ignored
    /// * if this is a prefix / slash subcommand: this command must have a parent command of the
    ///   same type (or no parent)
    /// * if this is a slash subcommand: the "hierarchy level" of this command can not be greater
    ///   than 3
    /// * if this is a context menu command: this command can not have any options
    /// * application command: (localised) name: see below
    /// * slash command: (localised) description: 1-100 chars
    /// * check the command options for slash commands:
    ///   * if command has subcommands: max 25 subcommands
    ///   * if command no has subcommands: see [`Command::check_options`]
    /// * check all subcommands for inconsistencies (recursion)
    ///
    /// Rules for (localised) names of application commands and options:
    /// > `CHAT_INPUT` command names and command option names
    /// > must match the following regex
    /// > `^[-_\p{L}\p{N}\p{sc=Deva}\p{sc=Thai}]{1,32}$`
    /// > with the Unicode flag set. If there is a lowercase variant of any letters used, you must
    /// > use those.
    /// > Characters with no lowercase variants and/or uncased letters are still allowed.
    /// > `USER` and `MESSAGE` commands may be mixed case and can include spaces.
    ///
    /// Prefix and slash commands (with subcommands) can have options. If this command is also a
    /// slash command and has subcommands, the options are ignored when creating the slash command.
    ///
    /// The rules are listed here:
    /// https://discord.com/developers/docs/interactions/application-commands
    ///
    /// `command_level` is the level, which this command is located in the "command hierarchy".
    /// Top level commands have a value of 1.
    ///
    /// `prefix_names_case_insensitive` if true, the names (and aliases)
    /// of prefix commands are checked case-insensitive.
    pub fn check_consistency(
        &self,
        command_level: u8,
        prefix_names_case_insensitive: bool,
        parent_command: Option<&Self>,
        overrides: &StringMap<CommandOverride>,
    ) -> (r: Vec<CommandConsistencyError<'_, H>>)
        ensures
            command_faults(r@, r@.len()) == faults_of_command(
                *self,
                command_level,
                match parent_command {
                    Some(parent) => Some(*parent),
                    None => None,
                },
                prefix_names_case_insensitive,
                overrides@,
            ),
    {
        self.check_consistency_with(
            &NamePatterns::new(),
            command_level,
            prefix_names_case_insensitive,
            parent_command,
            overrides,
        )
    }

    /// See [`Command::check_consistency`].
    fn check_consistency_with<'a>(
        &'a self,
        patterns: &NamePatterns,
        command_level: u8,
        prefix_names_case_insensitive: bool,
        parent_command: Option<&Self>,
        overrides: &StringMap<CommandOverride>,
    ) -> (r: Vec<CommandConsistencyError<'a, H>>)
        ensures
            command_faults(r@, r@.len()) == faults_of_command(
                *self,
                command_level,
                match parent_command {
                    Some(parent) => Some(*parent),
                    None => None,
                },
                prefix_names_case_insensitive,
                overrides@,
            ),
        decreases *self, 0nat,
    {
        let mut errors = self.check_own_consistency(patterns, command_level, parent_command);

        // Recurse, increase level by 1,
        // because our subcommands are one level deeper than this command
        let subcommand_errors = self.subcommands.check_simple_consistency_with(
            patterns,
            command_level.saturating_add(1),
            prefix_names_case_insensitive,
            Some(self),
            overrides,
        );
        proof {
            lemma_storage_faults_len(subcommand_errors@, subcommand_errors@.len());
        }
        push_command_error(
            &mut errors,
            subcommand_errors.len() > 0,
            CommandConsistencyError::SubcommandStorageConsistencyErrors {
                cmd: self,
                errors: subcommand_errors,
            },
        );
        errors
    }
}

impl<H> CommandStorage<H> {
    fn count_slash_commands(&self) -> (r: usize)
        ensures
            r == slash_commands(self@).len(),
    {
        let ghost s = self@;
        let ghost is_slash = |c: Command<H>| c.slash_action is Some;
        let mut count: usize = 0;
        let mut i: usize = 0;
        proof {
            reveal(Seq::filter);
        }
        while i < self.0.len()
            invariant
                i <= s.len(),
                s == self.0@,
                is_slash == (|c: Command<H>| c.slash_action is Some),
                count == s.take(i as int).filter(is_slash).len(),
                count <= i,
            decreases s.len() - i,
        {
            proof {
                lemma_filter_step(s, i as int, is_slash);
            }
            if self.0[i].slash_action.is_some() {
                count = count + 1;
            }
            i = i + 1;
        }
        assert(s.take(i as int) =~= s);
        count
    }

    /// This method checks, if the stored (sub)commands comply to Discord's rules.
    ///
    /// This will NOT check things, which only make sense for top level commands
    /// (e.g. max 100 slash commands on the first level), see
    /// [`CommandStorage::check_top_level_consistency`].
    ///
    /// To fulfill the rules for (sub)commands, the following conditions must be true:
    ///
    /// * no two slash commands on the same "level" can have the same (localised) name
    /// * no two prefix commands on the same "level" can have the same (localised) name or alias
    /// * not more than 25 slash commands in this storage, if the storage is not "level" 1
    /// * every command must pass its own [consistency check](`Command::check_consistency`)
    ///
    /// `storage_level` is the level in the command hierarchy, which this storage is located at.
    /// Top level storage is 1.
    ///
    /// if `prefix_names_case_insensitive` is true, the names (and aliases)
    /// of prefix commands are checked case-insensitive.
    ///
    /// If violations are found, they are returned as errors.
    pub fn check_simple_consistency(
        &self,
        storage_level: u8,
        prefix_names_case_insensitive: bool,
        parent_command: Option<&Command<H>>,
        overrides: &StringMap<CommandOverride>,
    ) -> (r: Vec<CommandStorageConsistencyError<'_, H>>)
        ensures
            storage_faults(r@, r@.len()) == faults_of_storage(
                self@,
                storage_level,
                match parent_command {
                    Some(parent) => Some(*parent),
                    None => None,
                },
                prefix_names_case_insensitive,
                overrides@,
            ),
    {
        self.check_simple_consistency_with(
            &NamePatterns::new(),
            storage_level,
            prefix_names_case_insensitive,
            parent_command,
            overrides,
        )
    }

    /// See [`CommandStorage::check_simple_consistency`].
    fn check_simple_consistency_with<'a>(
        &'a self,
        patterns: &NamePatterns,
        storage_level: u8,
        prefix_names_case_insensitive: bool,
        parent_command: Option<&Command<H>>,
        overrides: &StringMap<CommandOverride>,
    ) -> (r: Vec<CommandStorageConsistencyError<'a, H>>)
        ensures
            storage_faults(r@, r@.len()) == faults_of_storage(
                self@,
                storage_level,
                match parent_command {
                    Some(parent) => Some(*parent),
                    None => None,
                },
                prefix_names_case_insensitive,
                overrides@,
            ),
        decreases *self, 0nat,
    {
        let ci = prefix_names_case_insensitive;
        let ghost parent = match parent_command {
            Some(parent) => Some(*parent),
            None => None,
        };
        let ghost s = self@;
        let mut errors: Vec<CommandStorageConsistencyError<'a, H>> = Vec::new();
        push_storage_error(
            &mut errors,
            storage_level > 1 && self.count_slash_commands() > MAX_SLASH_SUBCOMMANDS as usize,
            CommandStorageConsistencyError::TooManySlashCommands(MAX_SLASH_SUBCOMMANDS),
        );
        let ghost part = only_if(
            storage_level > 1 && slash_commands(s).len() > MAX_SLASH_SUBCOMMANDS,
            StorageFault::TooManySlashCommands(MAX_SLASH_SUBCOMMANDS),
        );
        assert(storage_faults(errors@, errors@.len()) =~= part);
        let refs = self.refs();
        let mut i: usize = 0;
        assert(part =~= part + faults_of_first(s, 0, storage_level, parent, ci, overrides@));
        while i < self.0.len()
            invariant
                i <= s.len(),
                s == self.0@,
                refs@.unref() == s,
                parent == (match parent_command {
                    Some(parent) => Some(*parent),
                    None => None,
                }),
                storage_faults(errors@, errors@.len()) == part + faults_of_first(
                    s,
                    i as nat,
                    storage_level,
                    parent,
                    ci,
                    overrides@,
                ),
            decreases s.len() - i,
        {
            let consistency_errors = self.0[i].check_consistency_with(
                patterns,
                storage_level,
                ci,
                parent_command,
                overrides,
            );
            proof {
                lemma_first_step(s, i as nat, storage_level, parent, ci, overrides@, part);
            }
            push_faults_at(&refs, i, consistency_errors, ci, overrides, &mut errors);
            i = i + 1;
        }
        errors
    }

    /// This method checks, if the stored commands comply to Discord's rules.
    ///
    /// Because the rules are different for top level commands and their subcommands,
    /// this method should only be used to check the top level commands of a bot.
    /// It will automatically check all subcommands recursively.
    ///
    /// To fulfill the rules, the following conditions must be true:
    ///
    /// * max 100 top level slash commands
    /// * max 5 context menu commands per type (message / user)
    /// * no two context menu commands can have the same (localised) name (if they are of the same
    ///   type)
    /// * no two slash commands on the same "level" can have the same (localised) name
    /// * no two prefix commands on the same "level" can have the same (localised) name or alias
    /// * every command must pass its own [consistency check](`Command::check_consistency`)
    ///
    /// Because rules for guild specific and global commands are the same,
    /// this method can be used to check both variants.
    /// However, this method can not differentiate between guild specific and global commands,
    /// so the given CommandStorage must not contain global and guild specific commands at the same
    /// time.
    ///
    /// if `prefix_names_case_insensitive` is true, the names (and aliases)
    /// of prefix commands are checked case-insensitive.
    ///
    /// If violations are found, they are returned as errors.
    pub fn check_top_level_consistency(
        &self,
        prefix_names_case_insensitive: bool,
        overrides: &StringMap<CommandOverride>,
    ) -> (r: Vec<CommandStorageConsistencyError<'_, H>>)
        ensures
            storage_faults(r@, r@.len()) == faults_of_top_level(
                self@,
                prefix_names_case_insensitive,
                overrides@,
            ),
    {
        let ci = prefix_names_case_insensitive;
        let mut errors: Vec<CommandStorageConsistencyError<'_, H>> = Vec::new();
        push_storage_error(
            &mut errors,
            self.count_slash_commands() > MAX_TOP_LEVEL_SLASH_COMMANDS as usize,
            CommandStorageConsistencyError::TooManySlashCommands(MAX_TOP_LEVEL_SLASH_COMMANDS),
        );
        let (user, message) = self.get_context_commands();
        push_context_errors(user, ci, overrides, &mut errors);
        push_context_errors(message, ci, overrides, &mut errors);
        let mut simple = self.check_simple_consistency(1, ci, None, overrides);
        proof {
            lemma_storage_faults_add(errors@, simple@);
        }
        errors.append(&mut simple);
        errors
    }

    /// Returns all collisions between all prefix commands on the top level of `self` and `other`
    /// for
    ///
    /// * name
    /// * name_localizations
    /// * aliases.
    ///
    /// `prefix_names_case_insensitive` if true, the names (and aliases)
    /// of prefix commands are checked case-insensitive.
    ///
    /// This method will return a Vec of
    /// [`CommandStorageConsistencyError::DuplicatedCommandIdentifier`].
    pub fn check_collision_with_other<'a>(
        &'a self,
        other: &'a Self,
        prefix_names_case_insensitive: bool,
        overrides: &StringMap<CommandOverride>,
    ) -> (r: Vec<CommandStorageConsistencyError<'a, H>>)
        ensures
            storage_faults(r@, r@.len()) == collisions_with_other(
                self@,
                other@,
                prefix_names_case_insensitive,
                overrides@,
            ),
    {
        let ci = prefix_names_case_insensitive;
        let ghost s = self@;
        let ghost t = other@;
        let mut errors: Vec<CommandStorageConsistencyError<'a, H>> = Vec::new();
        let ghost f = |i: int|
            concat_range(
                0,
                t.len() as int,
                |j: int| prefix_collision_fault(s[i], t[j], ci, overrides@),
            );
        let mut i: usize = 0;
        while i < self.0.len()
            invariant
                i <= s.len(),
                s == self.0@,
                t == other.0@,
                f == (|i: int|
                    concat_range(
                        0,
                        t.len() as int,
                        |j: int| prefix_collision_fault(s[i], t[j], ci, overrides@),
                    )),
                storage_faults(errors@, errors@.len()) == concat_range(0, i as int, f),
            decreases s.len() - i,
        {
            let command = &self.0[i];
            let ghost before = storage_faults(errors@, errors@.len());
            let ghost g = |j: int| prefix_collision_fault(s[i as int], t[j], ci, overrides@);
            let considered = command.prefix_action.is_some() && !command.is_disabled_by(overrides);
            let mut j: usize = 0;
            assert(before =~= before + concat_range(0, 0, g));
            while j < other.0.len()
                invariant
                    i < s.len(),
                    j <= t.len(),
                    s == self.0@,
                    t == other.0@,
                    *command == s[i as int],
                    considered == (command.prefix_action is Some && !is_disabled(
                        *command,
                        overrides@,
                    )),
                    g == (|j: int| prefix_collision_fault(s[i as int], t[j], ci, overrides@)),
                    storage_faults(errors@, errors@.len()) == before + concat_range(
                        0,
                        j as int,
                        g,
                    ),
                decreases t.len() - j,
            {
                let ghost prev = errors@;
                let other_command = &other.0[j];
                if considered && other_command.prefix_action.is_some()
                    && !other_command.is_disabled_by(overrides) {
                    let mut identifiers: Vec<String> = Vec::new();
                    assert(texts(identifiers@) =~= Seq::empty());
                    command.push_shared_names(other_command, ci, &mut identifiers);
                    command.push_shared_aliases(other_command, ci, overrides, &mut identifiers);
                    assert(texts(identifiers@) =~= shared_names(*command, *other_command, ci)
                        + shared_aliases(*command, *other_command, ci, overrides@));
                    push_storage_error(
                        &mut errors,
                        identifiers.len() > 0,
                        CommandStorageConsistencyError::DuplicatedCommandIdentifier {
                            cmds: (command, other_command),
                            identifiers,
                        },
                    );
                }
                assert(storage_faults(errors@, errors@.len()) =~= storage_faults(prev, prev.len())
                    + g(j as int));
                assert(storage_faults(errors@, errors@.len()) =~= before + concat_range(
                    0,
                    j + 1,
                    g,
                ));
                j = j + 1;
            }
            assert(f(i as int) == concat_range(0, t.len() as int, g));
            i = i + 1;
        }
        errors
    }
}

} // verus!
