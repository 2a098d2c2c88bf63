//! What is done with an interaction once its command is known.
//!
//! Running a command and proposing values both alternate decisions and work that is done
//! elsewhere. Each is a sequence of steps: [`command_step`] and [`autocomplete_step`] take the
//! step that was reached and whether the task of that step succeeded, and give the next step and
//! its task.

use crate::dispatch::slash::{
    ApplicationContext, FrameworkError, ResolvedOption, ResolvedTarget, ResolvedValue,
};
use crate::structs::command::{Command, CommandParameter, ContextMenuCommandAction};
use serenity::model::application::CommandType;
use vstd::prelude::*;

verus! {

/// Why a command cannot be run by an interaction that names it.
pub const MISSING_ACTION: &'static str =
    "received interaction type but command contained no matching action or interaction contained no matching context menu object";

/// Why no values can be proposed for an option.
pub const UNKNOWN_PARAMETER: &'static str = "focused autocomplete parameter name not recognized";

/// Which action of a command an interaction is for.
#[derive(Debug, Clone, Copy)]
pub enum ActionChoice<H> {
    /// The slash action.
    Slash(H),
    /// The context menu action, on the user that it was used on.
    User(H),
    /// The context menu action, on the message that it was used on.
    Message(H),
    /// The command has no such action, or the interaction has no such target.
    Mismatch,
    /// The interaction is of a type that is not known.
    UnknownType,
}

/// The action of `command` that an interaction of type `kind` on `target` is for.
pub open spec fn action_for<H>(
    kind: CommandType,
    command: Command<H>,
    target: Option<ResolvedTarget>,
) -> ActionChoice<H> {
    match kind {
        CommandType::ChatInput => match command.slash_action {
            Some(action) => ActionChoice::Slash(action),
            None => ActionChoice::Mismatch,
        },
        CommandType::User => match (command.context_menu_action, target) {
            (
                Some(ContextMenuCommandAction::User(action)),
                Some(ResolvedTarget::User),
            ) => ActionChoice::User(action),
            _ => ActionChoice::Mismatch,
        },
        CommandType::Message => match (command.context_menu_action, target) {
            (
                Some(ContextMenuCommandAction::Message(action)),
                Some(ResolvedTarget::Message),
            ) => ActionChoice::Message(action),
            _ => ActionChoice::Mismatch,
        },
        _ => ActionChoice::UnknownType,
    }
}

/// Checks which interaction type we received and grabs the command action.
///
/// A context menu action has to fit the item that it was used on.
pub fn choose_action<H: Copy>(
    kind: CommandType,
    command: &Command<H>,
    target: Option<ResolvedTarget>,
) -> (r: ActionChoice<H>)
    ensures
        r == action_for(kind, *command, target),
{
    match kind {
        CommandType::ChatInput => match command.slash_action {
            Some(action) => ActionChoice::Slash(action),
            None => ActionChoice::Mismatch,
        },
        CommandType::User => match (command.context_menu_action, target) {
            (Some(ContextMenuCommandAction::User(action)), Some(ResolvedTarget::User)) => {
                ActionChoice::User(action)
            },
            _ => ActionChoice::Mismatch,
        },
        CommandType::Message => match (command.context_menu_action, target) {
            (Some(ContextMenuCommandAction::Message(action)), Some(ResolvedTarget::Message)) => {
                ActionChoice::Message(action)
            },
            _ => ActionChoice::Mismatch,
        },
        _ => ActionChoice::UnknownType,
    }
}

/// How far the run of a command has got.
#[derive(Debug, Clone, Copy)]
pub enum CommandStep {
    /// Permissions and cooldowns are being checked.
    Checking,
    /// The callback that runs before every command is running.
    BeforeCommand,
    /// The action of the command is running.
    Running,
    /// The callback that runs after every command is running.
    AfterCommand,
    /// There is nothing left to do.
    Finished,
}

/// What is to be done next for a command.
#[derive(Debug)]
pub enum CommandTask<H> {
    /// Check permissions and cooldowns.
    CheckPermissions,
    /// Run the callback that runs before every command.
    RunPreCommand,
    /// Run this slash action.
    RunSlash(H),
    /// Run this context menu action on the user that it was used on.
    RunUser(H),
    /// Run this context menu action on the message that it was used on.
    RunMessage(H),
    /// Run the callback that runs after every command.
    RunPostCommand,
    /// Stop, with this outcome.
    Finish(CommandOutcome),
}

/// How the run of a command ends.
#[derive(Debug)]
pub enum CommandOutcome {
    /// The command has run.
    Completed,
    /// The interaction is of a type that is not known: a warning is due, but it is no error.
    UnknownType,
    /// The error of the check is the error of the run.
    CheckFailed,
    /// The error of the action is the error of the run.
    ActionFailed,
    /// This is the error of the run.
    Error(FrameworkError),
}

/// The step and the task that a run starts with.
pub open spec fn first_command_step<H>() -> (CommandStep, CommandTask<H>) {
    (CommandStep::Checking, CommandTask::CheckPermissions)
}

/// The step and the task that follow `step`, if its task succeeded or not.
pub open spec fn next_command_step<H>(
    step: CommandStep,
    succeeded: bool,
    choice: ActionChoice<H>,
) -> (CommandStep, CommandTask<H>) {
    match step {
        CommandStep::Checking => if succeeded {
            (CommandStep::BeforeCommand, CommandTask::RunPreCommand)
        } else {
            (CommandStep::Finished, CommandTask::Finish(CommandOutcome::CheckFailed))
        },
        CommandStep::BeforeCommand => match choice {
            ActionChoice::Slash(action) => (CommandStep::Running, CommandTask::RunSlash(action)),
            ActionChoice::User(action) => (CommandStep::Running, CommandTask::RunUser(action)),
            ActionChoice::Message(action) => (
                CommandStep::Running,
                CommandTask::RunMessage(action),
            ),
            ActionChoice::Mismatch => (
                CommandStep::Finished,
                CommandTask::Finish(
                    CommandOutcome::Error(
                        FrameworkError::CommandStructureMismatch { description: MISSING_ACTION },
                    ),
                ),
            ),
            ActionChoice::UnknownType => (
                CommandStep::Finished,
                CommandTask::Finish(CommandOutcome::UnknownType),
            ),
        },
        CommandStep::Running => if succeeded {
            (CommandStep::AfterCommand, CommandTask::RunPostCommand)
        } else {
            (CommandStep::Finished, CommandTask::Finish(CommandOutcome::ActionFailed))
        },
        _ => (CommandStep::Finished, CommandTask::Finish(CommandOutcome::Completed)),
    }
}

/// The first step of the run of a command.
pub fn start_command<H>() -> (r: (CommandStep, CommandTask<H>))
    ensures
        r == first_command_step::<H>(),
{
    (CommandStep::Checking, CommandTask::CheckPermissions)
}

/// Given the extracted application command data, decides how the run of the command goes on after
/// `step`, whose task succeeded or not. The callbacks that run before and after every command
/// always succeed. A finished run stays finished.
pub fn command_step<H: Copy, V>(
    ctx: &ApplicationContext<'_, H, V>,
    step: CommandStep,
    succeeded: bool,
) -> (r: (CommandStep, CommandTask<H>))
    ensures
        r == next_command_step(
            step,
            succeeded,
            action_for(ctx.interaction.kind, *ctx.command, ctx.interaction.target),
        ),
{
    match step {
        CommandStep::Checking => if succeeded {
            (CommandStep::BeforeCommand, CommandTask::RunPreCommand)
        } else {
            (CommandStep::Finished, CommandTask::Finish(CommandOutcome::CheckFailed))
        },
        CommandStep::BeforeCommand => match choose_action(
            ctx.interaction.kind,
            ctx.command,
            ctx.interaction.target,
        ) {
            ActionChoice::Slash(action) => (CommandStep::Running, CommandTask::RunSlash(action)),
            ActionChoice::User(action) => (CommandStep::Running, CommandTask::RunUser(action)),
            ActionChoice::Message(action) => {
                (CommandStep::Running, CommandTask::RunMessage(action))
            },
            ActionChoice::Mismatch => {
                let error = FrameworkError::CommandStructureMismatch {
                    description: MISSING_ACTION,
                };
                (CommandStep::Finished, CommandTask::Finish(CommandOutcome::Error(error)))
            },
            ActionChoice::UnknownType => {
                (CommandStep::Finished, CommandTask::Finish(CommandOutcome::UnknownType))
            },
        },
        CommandStep::Running => if succeeded {
            (CommandStep::AfterCommand, CommandTask::RunPostCommand)
        } else {
            (CommandStep::Finished, CommandTask::Finish(CommandOutcome::ActionFailed))
        },
        _ => (CommandStep::Finished, CommandTask::Finish(CommandOutcome::Completed)),
    }
}

/// How many steps can still follow.
pub open spec fn command_steps_left(step: CommandStep) -> nat {
    match step {
        CommandStep::Checking => 4,
        CommandStep::BeforeCommand => 3,
        CommandStep::Running => 2,
        CommandStep::AfterCommand => 1,
        CommandStep::Finished => 0,
    }
}

/// All the tasks from `task` on, if each one succeeds or not as `succeeds` says.
pub open spec fn command_tasks<H>(
    step: CommandStep,
    task: CommandTask<H>,
    succeeds: spec_fn(CommandTask<H>) -> bool,
    choice: ActionChoice<H>,
) -> Seq<CommandTask<H>>
    decreases command_steps_left(step),
{
    if step is Finished {
        seq![task]
    } else {
        let next = next_command_step(step, succeeds(task), choice);
        seq![task] + command_tasks(next.0, next.1, succeeds, choice)
    }
}

/// The task that runs an action.
pub open spec fn action_task<H>(choice: ActionChoice<H>) -> Option<CommandTask<H>> {
    match choice {
        ActionChoice::Slash(action) => Some(CommandTask::RunSlash(action)),
        ActionChoice::User(action) => Some(CommandTask::RunUser(action)),
        ActionChoice::Message(action) => Some(CommandTask::RunMessage(action)),
        _ => None,
    }
}

/// The tasks of a run: a command whose check fails does nothing else. Else the callback before the
/// command runs, then the action that the interaction is for, if there is one, and only if that
/// succeeded the callback after the command; each of them once.
pub open spec fn expected_command_tasks<H>(
    succeeds: spec_fn(CommandTask<H>) -> bool,
    choice: ActionChoice<H>,
) -> Seq<CommandTask<H>> {
    let check = CommandTask::CheckPermissions;
    if !succeeds(check) {
        seq![check, CommandTask::Finish(CommandOutcome::CheckFailed)]
    } else {
        let outcome = match action_task(choice) {
            Some(action) => if succeeds(action) {
                seq![
                    action,
                    CommandTask::RunPostCommand,
                    CommandTask::Finish(CommandOutcome::Completed),
                ]
            } else {
                seq![action, CommandTask::Finish(CommandOutcome::ActionFailed)]
            },
            None => if choice is UnknownType {
                seq![CommandTask::Finish(CommandOutcome::UnknownType)]
            } else {
                let error = FrameworkError::CommandStructureMismatch {
                    description: MISSING_ACTION,
                };
                seq![CommandTask::Finish(CommandOutcome::Error(error))]
            },
        };
        seq![check, CommandTask::RunPreCommand] + outcome
    }
}

/// Whatever succeeds and whatever action an interaction is for, the tasks of a run come in the
/// order of [`expected_command_tasks`].
pub proof fn law_order_of_command_tasks<H>(
    succeeds: spec_fn(CommandTask<H>) -> bool,
    choice: ActionChoice<H>,
)
    ensures
        command_tasks(
            first_command_step::<H>().0,
            first_command_step::<H>().1,
            succeeds,
            choice,
        ) == expected_command_tasks(succeeds, choice),
{
    reveal_with_fuel(command_tasks, 6);
}

/// The first option from the `i`th on that the user is still typing a value for: its name and
/// what was typed so far.
pub open spec fn focused_option<V>(options: Seq<ResolvedOption<V>>, i: nat) -> Option<
    (String, String),
>
    decreases options.len() - i,
{
    if i >= options.len() {
        None
    } else {
        match options[i as int].value {
            ResolvedValue::Autocomplete { value } => Some((options[i as int].name, value)),
            _ => focused_option(options, i + 1),
        }
    }
}

/// The first parameter from the `i`th on with the given name.
pub open spec fn parameter_named<H>(
    parameters: Seq<CommandParameter<H>>,
    name: Seq<char>,
    i: nat,
) -> Option<CommandParameter<H>>
    decreases parameters.len() - i,
{
    if i >= parameters.len() {
        None
    } else if parameters[i as int].name@ == name {
        Some(parameters[i as int])
    } else {
        parameter_named(parameters, name, i + 1)
    }
}

/// What an autocompletion is for.
#[derive(Debug, Clone, Copy)]
pub enum AutocompleteChoice<'a, H> {
    /// This callback proposes values for what was typed so far.
    Run(H, &'a String),
    /// No option is focused.
    NothingFocused,
    /// The command has no parameter of the name of the focused option.
    UnknownParameter,
    /// The parameter does not support autocompletion.
    NoCallback,
}

/// What an autocompletion of `command` with the options `args` is for.
pub open spec fn autocomplete_for<'a, H, V>(
    args: Seq<ResolvedOption<V>>,
    command: Command<H>,
) -> AutocompleteChoice<'a, H> {
    match focused_option(args, 0) {
        None => AutocompleteChoice::NothingFocused,
        Some((name, partial_input)) => match parameter_named(command.parameters@, name@, 0) {
            None => AutocompleteChoice::UnknownParameter,
            Some(parameter) => match parameter.autocomplete_callback {
                None => AutocompleteChoice::NoCallback,
                Some(callback) => AutocompleteChoice::Run(callback, &partial_input),
            },
        },
    }
}

fn find_focused_option<'a, V>(options: &'a Vec<ResolvedOption<V>>) -> (r: Option<
    (&'a String, &'a String),
>)
    ensures
        match r {
            Some((name, value)) => focused_option(options@, 0) == Some((*name, *value)),
            None => focused_option(options@, 0) is None,
        },
{
    let mut i: usize = 0;
    while i < options.len()
        invariant
            i <= options@.len(),
            focused_option(options@, 0) == focused_option(options@, i as nat),
        decreases options@.len() - i,
    {
        if let ResolvedValue::Autocomplete { value } = &options[i].value {
            return Some((&options[i].name, value));
        }
        i = i + 1;
    }
    None
}

fn find_parameter<'a, H>(parameters: &'a Vec<CommandParameter<H>>, name: &String) -> (r: Option<
    &'a CommandParameter<H>,
>)
    ensures
        match r {
            Some(parameter) => parameter_named(parameters@, name@, 0) == Some(*parameter),
            None => parameter_named(parameters@, name@, 0) is None,
        },
{
    let mut i: usize = 0;
    while i < parameters.len()
        invariant
            i <= parameters@.len(),
            parameter_named(parameters@, name@, 0) == parameter_named(
                parameters@,
                name@,
                i as nat,
            ),
        decreases parameters@.len() - i,
    {
        if parameters[i].name == *name {
            return Some(&parameters[i]);
        }
        i = i + 1;
    }
    None
}

/// Finds which parameter is focused by the user, and the callback that proposes values for it.
pub fn choose_autocomplete<'a, H: Copy, V>(
    args: &'a Vec<ResolvedOption<V>>,
    command: &Command<H>,
) -> (r: AutocompleteChoice<'a, H>)
    ensures
        r == autocomplete_for::<H, V>(args@, *command),
{
    match find_focused_option(args) {
        None => AutocompleteChoice::NothingFocused,
        Some((name, partial_input)) => match find_parameter(&command.parameters, name) {
            None => AutocompleteChoice::UnknownParameter,
            Some(parameter) => match parameter.autocomplete_callback {
                None => AutocompleteChoice::NoCallback,
                Some(callback) => AutocompleteChoice::Run(callback, partial_input),
            },
        },
    }
}

/// How far an autocompletion has got.
#[derive(Debug, Clone, Copy)]
pub enum AutocompleteStep {
    /// Permissions and cooldowns are being checked.
    Checking,
    /// The callback is proposing values.
    Proposing,
    /// The proposed values are being sent.
    Sending,
    /// There is nothing left to do.
    Finished,
}

/// What is to be done next for an autocompletion.
#[derive(Debug)]
pub enum AutocompleteTask<'a, H> {
    /// Check permissions and cooldowns.
    CheckPermissions,
    /// Run the callback on what was typed so far.
    RunCallback(H, &'a String),
    /// Send what the callback proposed.
    SendResponse,
    /// Stop, with this outcome.
    Finish(AutocompleteOutcome),
}

/// How an autocompletion ends.
#[derive(Debug)]
pub enum AutocompleteOutcome {
    /// There is nothing left to do.
    Completed,
    /// No option is focused: a warning is due, but it is no error.
    NothingFocused,
    /// The proposed values could not be sent: a warning is due, but it is no error.
    SendFailed,
    /// The error of the check is the error of the autocompletion.
    CheckFailed,
    /// This is the error of the autocompletion.
    Error(FrameworkError),
}

/// The step and the task that follow `step`, if its task succeeded or not.
pub open spec fn next_autocomplete_step<'a, H>(
    step: AutocompleteStep,
    succeeded: bool,
    choice: AutocompleteChoice<'a, H>,
) -> (AutocompleteStep, AutocompleteTask<'a, H>) {
    match step {
        AutocompleteStep::Checking => if !succeeded {
            (AutocompleteStep::Finished, AutocompleteTask::Finish(AutocompleteOutcome::CheckFailed))
        } else {
            match choice {
                AutocompleteChoice::Run(callback, partial_input) => (
                    AutocompleteStep::Proposing,
                    AutocompleteTask::RunCallback(callback, partial_input),
                ),
                AutocompleteChoice::NothingFocused => (
                    AutocompleteStep::Finished,
                    AutocompleteTask::Finish(AutocompleteOutcome::NothingFocused),
                ),
                AutocompleteChoice::UnknownParameter => (
                    AutocompleteStep::Finished,
                    AutocompleteTask::Finish(
                        AutocompleteOutcome::Error(
                            FrameworkError::CommandStructureMismatch {
                                description: UNKNOWN_PARAMETER,
                            },
                        ),
                    ),
                ),
                AutocompleteChoice::NoCallback => (
                    AutocompleteStep::Finished,
                    AutocompleteTask::Finish(AutocompleteOutcome::Completed),
                ),
            }
        },
        AutocompleteStep::Proposing => (AutocompleteStep::Sending, AutocompleteTask::SendResponse),
        AutocompleteStep::Sending => (
            AutocompleteStep::Finished,
            AutocompleteTask::Finish(
                if succeeded {
                    AutocompleteOutcome::Completed
                } else {
                    AutocompleteOutcome::SendFailed
                },
            ),
        ),
        AutocompleteStep::Finished => (
            AutocompleteStep::Finished,
            AutocompleteTask::Finish(AutocompleteOutcome::Completed),
        ),
    }
}

/// The first step of an autocompletion.
pub fn start_autocomplete<'a, H>() -> (r: (AutocompleteStep, AutocompleteTask<'a, H>))
    ensures
        r.0 is Checking,
        r.1 is CheckPermissions,
{
    (AutocompleteStep::Checking, AutocompleteTask::CheckPermissions)
}

/// Given the extracted application command data, decides how the autocompletion goes on after
/// `step`, whose task succeeded or not.
pub fn autocomplete_step<'a, H: Copy, V>(
    ctx: &ApplicationContext<'a, H, V>,
    step: AutocompleteStep,
    succeeded: bool,
) -> (r: (AutocompleteStep, AutocompleteTask<'a, H>))
    ensures
        r == next_autocomplete_step(
            step,
            succeeded,
            autocomplete_for::<H, V>(ctx.args@, *ctx.command),
        ),
{
    match step {
        AutocompleteStep::Checking => if !succeeded {
            (AutocompleteStep::Finished, AutocompleteTask::Finish(AutocompleteOutcome::CheckFailed))
        } else {
            match choose_autocomplete(ctx.args, ctx.command) {
                AutocompleteChoice::Run(callback, partial_input) => {
                    let task = AutocompleteTask::RunCallback(callback, partial_input);
                    (AutocompleteStep::Proposing, task)
                },
                AutocompleteChoice::NothingFocused => {
                    let task = AutocompleteTask::Finish(AutocompleteOutcome::NothingFocused);
                    (AutocompleteStep::Finished, task)
                },
                AutocompleteChoice::UnknownParameter => {
                    let error = FrameworkError::CommandStructureMismatch {
                        description: UNKNOWN_PARAMETER,
                    };
                    let task = AutocompleteTask::Finish(AutocompleteOutcome::Error(error));
                    (AutocompleteStep::Finished, task)
                },
                AutocompleteChoice::NoCallback => {
                    let task = AutocompleteTask::Finish(AutocompleteOutcome::Completed);
                    (AutocompleteStep::Finished, task)
                },
            }
        },
        AutocompleteStep::Proposing => (AutocompleteStep::Sending, AutocompleteTask::SendResponse),
        AutocompleteStep::Sending => {
            let outcome = if succeeded {
                AutocompleteOutcome::Completed
            } else {
                AutocompleteOutcome::SendFailed
            };
            (AutocompleteStep::Finished, AutocompleteTask::Finish(outcome))
        },
        AutocompleteStep::Finished => {
            let task = AutocompleteTask::Finish(AutocompleteOutcome::Completed);
            (AutocompleteStep::Finished, task)
        },
    }
}

/// How many steps can still follow.
pub open spec fn autocomplete_steps_left(step: AutocompleteStep) -> nat {
    match step {
        AutocompleteStep::Checking => 3,
        AutocompleteStep::Proposing => 2,
        AutocompleteStep::Sending => 1,
        AutocompleteStep::Finished => 0,
    }
}

/// All the tasks from `task` on, if each one succeeds or not as `succeeds` says.
pub open spec fn autocomplete_tasks<'a, H>(
    step: AutocompleteStep,
    task: AutocompleteTask<'a, H>,
    succeeds: spec_fn(AutocompleteTask<'a, H>) -> bool,
    choice: AutocompleteChoice<'a, H>,
) -> Seq<AutocompleteTask<'a, H>>
    decreases autocomplete_steps_left(step),
{
    if step is Finished {
        seq![task]
    } else {
        let next = next_autocomplete_step(step, succeeds(task), choice);
        seq![task] + autocomplete_tasks(next.0, next.1, succeeds, choice)
    }
}

/// The tasks of an autocompletion. If the check fails or there is no callback to run, nothing is
/// sent. Else the callback runs and what it proposed is sent right after it.
pub open spec fn expected_autocomplete_tasks<'a, H>(
    succeeds: spec_fn(AutocompleteTask<'a, H>) -> bool,
    choice: AutocompleteChoice<'a, H>,
) -> Seq<AutocompleteTask<'a, H>> {
    let check = AutocompleteTask::CheckPermissions;
    let send = AutocompleteTask::SendResponse;
    let end = |outcome: AutocompleteOutcome| seq![check, AutocompleteTask::Finish(outcome)];
    if !succeeds(check) {
        end(AutocompleteOutcome::CheckFailed)
    } else {
        match choice {
            AutocompleteChoice::Run(callback, partial_input) => seq![
                check,
                AutocompleteTask::RunCallback(callback, partial_input),
                send,
                AutocompleteTask::Finish(
                    if succeeds(send) {
                        AutocompleteOutcome::Completed
                    } else {
                        AutocompleteOutcome::SendFailed
                    },
                ),
            ],
            AutocompleteChoice::NothingFocused => end(AutocompleteOutcome::NothingFocused),
            AutocompleteChoice::UnknownParameter => end(
                AutocompleteOutcome::Error(
                    FrameworkError::CommandStructureMismatch { description: UNKNOWN_PARAMETER },
                ),
            ),
            AutocompleteChoice::NoCallback => end(AutocompleteOutcome::Completed),
        }
    }
}

/// Whatever succeeds and whatever an autocompletion is for, its tasks come in the order of
/// [`expected_autocomplete_tasks`].
pub proof fn law_order_of_autocomplete_tasks<'a, H>(
    succeeds: spec_fn(AutocompleteTask<'a, H>) -> bool,
    choice: AutocompleteChoice<'a, H>,
)
    ensures
        autocomplete_tasks(
            AutocompleteStep::Checking,
            AutocompleteTask::CheckPermissions,
            succeeds,
            choice,
        ) == expected_autocomplete_tasks(succeeds, choice),
{
    reveal_with_fuel(autocomplete_tasks, 5);
}

} // verus!
