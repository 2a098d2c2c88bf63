//! Laws on the errors that the checks return.

use crate::structs::errors::{
    command_fault, command_faults, storage_fault, storage_faults, ChoiceFault,
    CommandConsistencyError, CommandFault, CommandOptionChoiceError, CommandOptionError,
    CommandStorageConsistencyError, OptionFault, StorageFault,
};
use vstd::prelude::*;

verus! {

/// Whether `texts` are what the strings say, in their order.
pub open spec fn are_said(v: Seq<String>, texts: Seq<Seq<char>>) -> bool {
    v.len() == texts.len() && forall|i: int| 0 <= i < v.len() ==> #[trigger] texts[i] == v[i]@
}

/// Each error tells the command, the options, the names and the further errors that it holds, and
/// what is wrong is what it is named after.
pub proof fn law_content_of_command_error<'a, H>(e: CommandConsistencyError<'a, H>)
    ensures
        match e {
            CommandConsistencyError::ParentCommandTypeWrong(c) => command_fault(e)
                == CommandFault::ParentCommandTypeWrong(*c),
            CommandConsistencyError::HierarchyLevelExceeded(c) => command_fault(e)
                == CommandFault::HierarchyLevelExceeded(*c),
            CommandConsistencyError::MaxLengthExceeded(c) => command_fault(e)
                == CommandFault::MaxLengthExceeded(*c),
            CommandConsistencyError::ContextMenuWithOptions(c) => command_fault(e)
                == CommandFault::ContextMenuWithOptions(*c),
            CommandConsistencyError::NameNotCompliant { cmd: c, names: v } => command_fault(
                e,
            ) matches CommandFault::NameNotCompliant { cmd, names } && cmd == *c && are_said(
                v@,
                names,
            ),
            CommandConsistencyError::DescriptionNotCompliant { cmd: c, descriptions: v } =>
                command_fault(e) matches CommandFault::DescriptionNotCompliant { cmd, descriptions }
                    && cmd == *c && are_said(v@, descriptions),
            CommandConsistencyError::TooManyOptions { cmd: c } => command_fault(e)
                == (CommandFault::TooManyOptions { cmd: *c }),
            CommandConsistencyError::OptionNameDuplicated { cmd: c, params: p, names: v } =>
                command_fault(e) matches CommandFault::OptionNameDuplicated { cmd, params, names }
                    && cmd == *c && params.0 == *p.0 && params.1 == *p.1 && are_said(v@, names),
            CommandConsistencyError::CommandOptionError { cmd: c, errs } => command_fault(
                e,
            ) matches CommandFault::Options { cmd, faults } && cmd == *c && faults.len()
                == errs@.len() && forall|i: int|
                0 <= i < faults.len() ==> #[trigger] faults[i] == errs@[i]@,
            CommandConsistencyError::SubcommandStorageConsistencyErrors { cmd: c, errors } =>
                command_fault(e) matches CommandFault::Subcommands { cmd, storage } && cmd == *c
                    && storage == storage_faults(errors@, errors@.len()),
        },
{
}

/// The same holds of the errors of options and of choices.
pub proof fn law_content_of_option_error<'a, H>(
    e: CommandOptionError<'a, H>,
    f: CommandOptionChoiceError<'a>,
)
    ensures
        match e {
            CommandOptionError::NameNotCompliant { param: p, names: v } => e@ matches
                OptionFault::NameNotCompliant { param, names } && param == *p && are_said(v@, names),
            CommandOptionError::DescriptionNotCompliant { param: p, descriptions: v } => e@ matches
                OptionFault::DescriptionNotCompliant { param, descriptions } && param == *p
                && are_said(v@, descriptions),
            CommandOptionError::TooManyChoices { param: p } => e@ == (OptionFault::TooManyChoices {
                param: *p,
            }),
            CommandOptionError::CommandOptionChoiceError { param: p, errs } => e@ matches
                OptionFault::Choices { param, faults } && param == *p && faults.len() == errs@.len()
                && forall|i: int| 0 <= i < faults.len() ==> #[trigger] faults[i] == errs@[i]@,
        },
        match f {
            CommandOptionChoiceError::NameNotCompliant { choice: c, names: v } => f@ matches
                ChoiceFault::NameNotCompliant { choice, names } && choice == *c && are_said(
                v@,
                names,
            ),
        },
{
}

/// The same holds of the errors of stored commands.
pub proof fn law_content_of_storage_error<'a, H>(e: CommandStorageConsistencyError<'a, H>)
    ensures
        match e {
            CommandStorageConsistencyError::TooManySlashCommands(n) => storage_fault(e)
                == StorageFault::<H>::TooManySlashCommands(n),
            CommandStorageConsistencyError::TooManyContextCommands(v) => storage_fault(e) matches
                StorageFault::TooManyContextCommands(s) && s.len() == v@.len() && forall|i: int|
                0 <= i < s.len() ==> #[trigger] s[i] == *v@[i],
            CommandStorageConsistencyError::DuplicatedCommandIdentifier {
                cmds: c,
                identifiers: v,
            } => storage_fault(e) matches StorageFault::DuplicatedCommandIdentifier {
                cmds,
                identifiers,
            } && cmds.0 == *c.0 && cmds.1 == *c.1 && are_said(v@, identifiers),
            CommandStorageConsistencyError::CommandConsistencyError(errors) => storage_fault(e)
                == StorageFault::Commands(command_faults(errors@, errors@.len())),
        },
{
}

/// Several errors tell what each of them tells, in their order.
pub proof fn law_contents_of_command_errors<'a, H>(
    s: Seq<CommandConsistencyError<'a, H>>,
    n: nat,
    i: int,
)
    requires
        0 <= i < n <= s.len(),
    ensures
        command_faults(s, n).len() == n,
        command_faults(s, n)[i] == command_fault(s[i]),
    decreases n,
{
    reveal_with_fuel(command_faults, 2);
    if i < n - 1 {
        law_contents_of_command_errors(s, (n - 1) as nat, i);
    } else if n > 1 {
        law_contents_of_command_errors(s, (n - 1) as nat, i - 1);
    }
}

/// Several errors tell what each of them tells, in their order.
pub proof fn law_contents_of_storage_errors<'a, H>(
    s: Seq<CommandStorageConsistencyError<'a, H>>,
    n: nat,
    i: int,
)
    requires
        0 <= i < n <= s.len(),
    ensures
        storage_faults(s, n).len() == n,
        storage_faults(s, n)[i] == storage_fault(s[i]),
    decreases n,
{
    reveal_with_fuel(storage_faults, 2);
    if i < n - 1 {
        law_contents_of_storage_errors(s, (n - 1) as nat, i);
    } else if n > 1 {
        law_contents_of_storage_errors(s, (n - 1) as nat, i - 1);
    }
}

} // verus!
