//! What is reported about commands that break a rule.

use crate::structs::command::{Command, CommandParameter, CommandParameterChoice};
use crate::text::texts;
use vstd::prelude::*;

verus! {

/// Possible errors found when checking command option choices for consistency.
///
/// These enum variants should always be wrapped in
/// [`CommandOptionError::CommandOptionChoiceError`] to provide more context.
pub enum CommandOptionChoiceError<'a> {
    /// `choice` has non-compliant `names`.
    NameNotCompliant {
        /// The choice which is affected
        choice: &'a CommandParameterChoice,
        /// Which choice names of this choice are non-compliant
        names: Vec<String>,
    },
}

/// Possible errors when checking each command option (parameter) for consistency.
///
/// These enum variants should always be wrapped in
/// [`CommandConsistencyError::CommandOptionError`] to provide more context.
pub enum CommandOptionError<'a, H> {
    /// Parameter `param` has non-compliant `names`.
    NameNotCompliant {
        /// Which param is affected
        param: &'a CommandParameter<H>,
        /// Which parameter names of this parameter are non-compliant
        names: Vec<String>,
    },
    /// Parameter `param` has non-compliant `descriptions`.
    DescriptionNotCompliant {
        /// Which param is affected
        param: &'a CommandParameter<H>,
        /// Which parameter descriptions of this parameter are non-compliant
        descriptions: Vec<String>,
    },
    /// Parameter `param` has too many choices.
    TooManyChoices {
        /// Which param is affected
        param: &'a CommandParameter<H>,
    },
    /// Parameter `param` has non-compliant choices.
    CommandOptionChoiceError {
        /// Which param is affected
        param: &'a CommandParameter<H>,
        /// List of choice errors
        errs: Vec<CommandOptionChoiceError<'a>>,
    },
}

/// Possible errors produced by [`Command::check_consistency`].
pub enum CommandConsistencyError<'a, H> {
    /// This prefix or slash command is a subcommand,
    /// but is missing a parent command of the same type (prefix or slash).
    ParentCommandTypeWrong(&'a Command<H>),
    /// This slash command is a subcommand, which has three (or more) "levels" of parents above it.
    HierarchyLevelExceeded(&'a Command<H>),
    /// This command has more characters than allowed by Discord.
    MaxLengthExceeded(&'a Command<H>),
    /// This command is a context menu command with options, this is not allowed.
    ContextMenuWithOptions(&'a Command<H>),
    /// This `cmd` has non-compliant `names`.
    NameNotCompliant {
        /// Which command is affected
        cmd: &'a Command<H>,
        /// Which command names are non-compliant
        names: Vec<String>,
    },
    /// `cmd` has non-compliant `descriptions`.
    DescriptionNotCompliant {
        /// Which command is affected
        cmd: &'a Command<H>,
        /// Which command descriptions are non-compliant
        descriptions: Vec<String>,
    },
    /// The command has too many options / parameters
    /// (not too many subcommands, see [`CommandStorageConsistencyError::TooManySlashCommands`]).
    TooManyOptions {
        /// Which command is affected
        cmd: &'a Command<H>,
    },
    /// `cmd` has two different `params` (options),
    /// which share one or multiple `names` (or localised names).
    ///
    /// These `params` are actually parameters, never subcommands. For subcommands sharing names
    /// see [`CommandStorageConsistencyError::DuplicatedCommandIdentifier`].
    OptionNameDuplicated {
        /// Which command is affected
        cmd: &'a Command<H>,
        /// Which two params have conflicting option names
        params: (&'a CommandParameter<H>, &'a CommandParameter<H>),
        /// Which names are in conflict
        names: Vec<String>,
    },
    /// One or multiple options of `cmd` failed their own consistency check.
    CommandOptionError {
        /// Which command is affected
        cmd: &'a Command<H>,
        /// List of option errors
        errs: Vec<CommandOptionError<'a, H>>,
    },
    /// The command storage for subcommands of `cmd` failed its consistency check.
    SubcommandStorageConsistencyErrors {
        /// Which command is affected
        cmd: &'a Command<H>,
        /// List of errors for this subcommand storage
        errors: Vec<CommandStorageConsistencyError<'a, H>>,
    },
}

/// These are errors, which can be found when a whole command storage is checked.
pub enum CommandStorageConsistencyError<'a, H> {
    /// The checked command storage contains more slash commands than allowed.
    ///
    /// The current limit is 100 for top level commands and 25 for the subcommands of a command.
    TooManySlashCommands(u16),
    /// The checked command storage contains more context menu commands (of any type) than allowed.
    /// This includes all "levels", because context menu commands can not be subcommands,
    /// and they are searched for recursively.
    ///
    /// The found commands are given as a Vec.
    TooManyContextCommands(Vec<&'a Command<H>>),
    /// Two commands in the checked storage have the same identifier, this is not allowed.
    ///
    /// This can be the default name, a localised name or an alias.
    DuplicatedCommandIdentifier {
        /// Which commands have conflicting identifiers
        cmds: (&'a Command<H>, &'a Command<H>),
        /// `identifiers` will contain all the duplicated identifiers for these two commands.
        identifiers: Vec<String>,
    },
    /// Contains commands of the checked storage, which failed their own consistency check.
    CommandConsistencyError(Vec<CommandConsistencyError<'a, H>>),
}

/// The content of a [`CommandOptionChoiceError`].
pub enum ChoiceFault {
    NameNotCompliant { choice: CommandParameterChoice, names: Seq<Seq<char>> },
}

/// The content of a [`CommandOptionError`].
pub enum OptionFault<H> {
    NameNotCompliant { param: CommandParameter<H>, names: Seq<Seq<char>> },
    DescriptionNotCompliant { param: CommandParameter<H>, descriptions: Seq<Seq<char>> },
    TooManyChoices { param: CommandParameter<H> },
    Choices { param: CommandParameter<H>, faults: Seq<ChoiceFault> },
}

/// The content of a [`CommandConsistencyError`].
pub enum CommandFault<H> {
    ParentCommandTypeWrong(Command<H>),
    HierarchyLevelExceeded(Command<H>),
    MaxLengthExceeded(Command<H>),
    ContextMenuWithOptions(Command<H>),
    NameNotCompliant { cmd: Command<H>, names: Seq<Seq<char>> },
    DescriptionNotCompliant { cmd: Command<H>, descriptions: Seq<Seq<char>> },
    TooManyOptions { cmd: Command<H> },
    OptionNameDuplicated {
        cmd: Command<H>,
        params: (CommandParameter<H>, CommandParameter<H>),
        names: Seq<Seq<char>>,
    },
    Options { cmd: Command<H>, faults: Seq<OptionFault<H>> },
    Subcommands { cmd: Command<H>, storage: Seq<StorageFault<H>> },
}

/// The content of a [`CommandStorageConsistencyError`].
pub enum StorageFault<H> {
    TooManySlashCommands(u16),
    TooManyContextCommands(Seq<Command<H>>),
    DuplicatedCommandIdentifier {
        cmds: (Command<H>, Command<H>),
        identifiers: Seq<Seq<char>>,
    },
    Commands(Seq<CommandFault<H>>),
}

impl<'a> View for CommandOptionChoiceError<'a> {
    type V = ChoiceFault;

    open spec fn view(&self) -> ChoiceFault {
        match *self {
            CommandOptionChoiceError::NameNotCompliant { choice, names } =>
                ChoiceFault::NameNotCompliant { choice: *choice, names: texts(names@) },
        }
    }
}

/// The contents of several errors.
pub open spec fn choice_faults<'a>(s: Seq<CommandOptionChoiceError<'a>>) -> Seq<ChoiceFault> {
    s.map_values(|e: CommandOptionChoiceError<'a>| e@)
}

impl<'a, H> View for CommandOptionError<'a, H> {
    type V = OptionFault<H>;

    open spec fn view(&self) -> OptionFault<H> {
        match *self {
            CommandOptionError::NameNotCompliant { param, names } => OptionFault::NameNotCompliant {
                param: *param,
                names: texts(names@),
            },
            CommandOptionError::DescriptionNotCompliant { param, descriptions } =>
                OptionFault::DescriptionNotCompliant {
                    param: *param,
                    descriptions: texts(descriptions@),
                },
            CommandOptionError::TooManyChoices { param } => OptionFault::TooManyChoices {
                param: *param,
            },
            CommandOptionError::CommandOptionChoiceError { param, errs } => OptionFault::Choices {
                param: *param,
                faults: choice_faults(errs@),
            },
        }
    }
}

/// The contents of several errors.
pub open spec fn option_faults<'a, H>(s: Seq<CommandOptionError<'a, H>>) -> Seq<OptionFault<H>> {
    s.map_values(|e: CommandOptionError<'a, H>| e@)
}

/// The content of an error.
pub open spec fn command_fault<'a, H>(e: CommandConsistencyError<'a, H>) -> CommandFault<H>
    decreases e, 0nat,
{
    match e {
        CommandConsistencyError::ParentCommandTypeWrong(cmd) =>
            CommandFault::ParentCommandTypeWrong(*cmd),
        CommandConsistencyError::HierarchyLevelExceeded(cmd) =>
            CommandFault::HierarchyLevelExceeded(*cmd),
        CommandConsistencyError::MaxLengthExceeded(cmd) => CommandFault::MaxLengthExceeded(*cmd),
        CommandConsistencyError::ContextMenuWithOptions(cmd) =>
            CommandFault::ContextMenuWithOptions(*cmd),
        CommandConsistencyError::NameNotCompliant { cmd, names } => CommandFault::NameNotCompliant {
            cmd: *cmd,
            names: texts(names@),
        },
        CommandConsistencyError::DescriptionNotCompliant { cmd, descriptions } =>
            CommandFault::DescriptionNotCompliant {
                cmd: *cmd,
                descriptions: texts(descriptions@),
            },
        CommandConsistencyError::TooManyOptions { cmd } => CommandFault::TooManyOptions {
            cmd: *cmd,
        },
        CommandConsistencyError::OptionNameDuplicated { cmd, params, names } =>
            CommandFault::OptionNameDuplicated {
                cmd: *cmd,
                params: (*params.0, *params.1),
                names: texts(names@),
            },
        CommandConsistencyError::CommandOptionError { cmd, errs } => CommandFault::Options {
            cmd: *cmd,
            faults: option_faults(errs@),
        },
        CommandConsistencyError::SubcommandStorageConsistencyErrors { cmd, errors } =>
            CommandFault::Subcommands {
                cmd: *cmd,
                storage: storage_faults(errors@, errors@.len()),
            },
    }
}

/// The contents of the first `n` of several errors.
pub open spec fn command_faults<'a, H>(s: Seq<CommandConsistencyError<'a, H>>, n: nat) -> Seq<
    CommandFault<H>,
>
    decreases s, n,
{
    if n == 0 || n > s.len() {
        Seq::empty()
    } else {
        command_faults(s, (n - 1) as nat).push(command_fault(s[n - 1]))
    }
}

/// The content of an error.
pub open spec fn storage_fault<'a, H>(e: CommandStorageConsistencyError<'a, H>) -> StorageFault<H>
    decreases e, 0nat,
{
    match e {
        CommandStorageConsistencyError::TooManySlashCommands(limit) =>
            StorageFault::TooManySlashCommands(limit),
        CommandStorageConsistencyError::TooManyContextCommands(cmds) =>
            StorageFault::TooManyContextCommands(cmds@.unref()),
        CommandStorageConsistencyError::DuplicatedCommandIdentifier { cmds, identifiers } =>
            StorageFault::DuplicatedCommandIdentifier {
                cmds: (*cmds.0, *cmds.1),
                identifiers: texts(identifiers@),
            },
        CommandStorageConsistencyError::CommandConsistencyError(errors) => StorageFault::Commands(
            command_faults(errors@, errors@.len()),
        ),
    }
}

/// The contents of the first `n` of several errors.
pub open spec fn storage_faults<'a, H>(
    s: Seq<CommandStorageConsistencyError<'a, H>>,
    n: nat,
) -> Seq<StorageFault<H>>
    decreases s, n,
{
    if n == 0 || n > s.len() {
        Seq::empty()
    } else {
        storage_faults(s, (n - 1) as nat).push(storage_fault(s[n - 1]))
    }
}

/// The contents of the first `n` errors depend on these errors only.
pub proof fn lemma_command_faults_prefix<'a, H>(
    s: Seq<CommandConsistencyError<'a, H>>,
    t: Seq<CommandConsistencyError<'a, H>>,
    n: nat,
)
    requires
        n <= s.len(),
        n <= t.len(),
        forall|i: int| 0 <= i < n ==> s[i] == t[i],
    ensures
        command_faults(s, n) == command_faults(t, n),
    decreases n,
{
    if n > 0 {
        lemma_command_faults_prefix(s, t, (n - 1) as nat);
    }
}

/// The contents of errors to which one was added.
pub proof fn lemma_command_faults_push<'a, H>(
    s: Seq<CommandConsistencyError<'a, H>>,
    e: CommandConsistencyError<'a, H>,
)
    ensures
        command_faults(s.push(e), s.push(e).len()) == command_faults(s, s.len()).push(
            command_fault(e),
        ),
{
    lemma_command_faults_prefix(s.push(e), s, s.len());
}

/// The contents of two lists of errors, one after the other.
pub proof fn lemma_command_faults_add<'a, H>(
    s: Seq<CommandConsistencyError<'a, H>>,
    t: Seq<CommandConsistencyError<'a, H>>,
)
    ensures
        command_faults(s + t, (s + t).len()) == command_faults(s, s.len()) + command_faults(
            t,
            t.len(),
        ),
    decreases t.len(),
{
    if t.len() == 0 {
        assert(s + t =~= s);
        assert(command_faults(s, s.len()) + Seq::empty() =~= command_faults(s, s.len()));
    } else {
        let init = t.drop_last();
        let e = t.last();
        lemma_command_faults_add(s, init);
        lemma_command_faults_push(s + init, e);
        lemma_command_faults_push(init, e);
        assert(s + t =~= (s + init).push(e));
        assert(t =~= init.push(e));
        assert(command_faults(s + t, (s + t).len()) =~= command_faults(s, s.len())
            + command_faults(t, t.len()));
    }
}

/// The contents of the first `n` errors depend on these errors only.
pub proof fn lemma_storage_faults_prefix<'a, H>(
    s: Seq<CommandStorageConsistencyError<'a, H>>,
    t: Seq<CommandStorageConsistencyError<'a, H>>,
    n: nat,
)
    requires
        n <= s.len(),
        n <= t.len(),
        forall|i: int| 0 <= i < n ==> s[i] == t[i],
    ensures
        storage_faults(s, n) == storage_faults(t, n),
    decreases n,
{
    if n > 0 {
        lemma_storage_faults_prefix(s, t, (n - 1) as nat);
    }
}

/// The contents of errors to which one was added.
pub proof fn lemma_storage_faults_push<'a, H>(
    s: Seq<CommandStorageConsistencyError<'a, H>>,
    e: CommandStorageConsistencyError<'a, H>,
)
    ensures
        storage_faults(s.push(e), s.push(e).len()) == storage_faults(s, s.len()).push(
            storage_fault(e),
        ),
{
    lemma_storage_faults_prefix(s.push(e), s, s.len());
}

/// The contents of two lists of errors, one after the other.
pub proof fn lemma_storage_faults_add<'a, H>(
    s: Seq<CommandStorageConsistencyError<'a, H>>,
    t: Seq<CommandStorageConsistencyError<'a, H>>,
)
    ensures
        storage_faults(s + t, (s + t).len()) == storage_faults(s, s.len()) + storage_faults(
            t,
            t.len(),
        ),
    decreases t.len(),
{
    if t.len() == 0 {
        assert(s + t =~= s);
        assert(storage_faults(s, s.len()) + Seq::empty() =~= storage_faults(s, s.len()));
    } else {
        let init = t.drop_last();
        let e = t.last();
        lemma_storage_faults_add(s, init);
        lemma_storage_faults_push(s + init, e);
        lemma_storage_faults_push(init, e);
        assert(s + t =~= (s + init).push(e));
        assert(t =~= init.push(e));
        assert(storage_faults(s + t, (s + t).len()) =~= storage_faults(s, s.len())
            + storage_faults(t, t.len()));
    }
}

/// There are as many contents as there are errors.
pub proof fn lemma_command_faults_len<'a, H>(s: Seq<CommandConsistencyError<'a, H>>, n: nat)
    requires
        n <= s.len(),
    ensures
        command_faults(s, n).len() == n,
    decreases n,
{
    if n > 0 {
        lemma_command_faults_len(s, (n - 1) as nat);
    }
}

/// There are as many contents as there are errors.
pub proof fn lemma_storage_faults_len<'a, H>(s: Seq<CommandStorageConsistencyError<'a, H>>, n: nat)
    requires
        n <= s.len(),
    ensures
        storage_faults(s, n).len() == n,
    decreases n,
{
    if n > 0 {
        lemma_storage_faults_len(s, (n - 1) as nat);
    }
}

} // verus!
