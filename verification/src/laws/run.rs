//! Laws on what is done with an interaction once its command is known.

use crate::dispatch::run::{
    action_for, autocomplete_for, autocomplete_tasks, command_tasks, focused_option,
    next_autocomplete_step, next_command_step, parameter_named, ActionChoice, AutocompleteChoice, AutocompleteOutcome, AutocompleteStep,
    AutocompleteTask, CommandOutcome, CommandStep, CommandTask,
};
use crate::dispatch::slash::{FrameworkError, ResolvedOption, ResolvedTarget, ResolvedValue};
use crate::structs::command::{Command, CommandParameter, ContextMenuCommandAction};
use serenity::model::application::CommandType;
use vstd::prelude::*;

verus! {

/// An interaction with a slash command is for the slash action of the command. One with a context
/// menu command is for its context menu action, if that works on the kind of item that the command
/// was used on. It is a mismatch if there is no such action or item, and only then.
pub proof fn law_chosen_action<H>(
    kind: CommandType,
    command: Command<H>,
    target: Option<ResolvedTarget>,
    a: H,
)
    ensures
        ({
            let choice = action_for(kind, command, target);
            let menu = command.context_menu_action;
            let on_user = target == Some(ResolvedTarget::User);
            let on_message = target == Some(ResolvedTarget::Message);
            &&& choice == ActionChoice::Slash(a) <==> kind is ChatInput && command.slash_action
                == Some(a)
            &&& choice == ActionChoice::User(a) <==> kind is User && on_user && menu == Some(
                ContextMenuCommandAction::User(a),
            )
            &&& choice == ActionChoice::Message(a) <==> kind is Message && on_message && menu
                == Some(ContextMenuCommandAction::Message(a))
            &&& choice is UnknownType <==> !(kind is ChatInput || kind is User || kind is Message)
            &&& choice is Mismatch <==> {
                ||| kind is ChatInput && command.slash_action is None
                ||| kind is User && !(on_user && menu is Some && menu->0 is User)
                ||| kind is Message && !(on_message && menu is Some && menu->0 is Message)
            }
        }),
{
}

/// No other field of a command has a part in which of its actions is run.
pub proof fn law_choice_depends_on_actions_only<H>(
    kind: CommandType,
    a: Command<H>,
    b: Command<H>,
    target: Option<ResolvedTarget>,
)
    requires
        a.slash_action == b.slash_action,
        a.context_menu_action == b.context_menu_action,
    ensures
        action_for(kind, a, target) == action_for(kind, b, target),
{
}

/// All that is done for an interaction with a command. If the check fails, nothing else is. Else the
/// callback before the command runs. Then the action of the command runs: the slash action for a
/// slash command, the context menu action for a context menu command that was used on an item of
/// its kind. If it succeeds, the callback after the command runs. Where there is no such action,
/// this is an error, but for an interaction of a type that is not known.
pub proof fn law_tasks_of_interaction<H>(
    kind: CommandType,
    command: Command<H>,
    target: Option<ResolvedTarget>,
    succeeds: spec_fn(CommandTask<H>) -> bool,
)
    ensures
        ({
            let check = CommandTask::CheckPermissions;
            let choice = action_for(kind, command, target);
            let tasks = command_tasks(CommandStep::Checking, check, succeeds, choice);
            let before = seq![check, CommandTask::RunPreCommand];
            let menu = command.context_menu_action;
            let action: Option<CommandTask<H>> = if kind is ChatInput && command.slash_action is Some {
                Some(CommandTask::RunSlash(command.slash_action->0))
            } else if kind is User && target == Some(ResolvedTarget::User) && menu is Some
                && menu->0 is User {
                Some(CommandTask::RunUser(menu->0->User_0))
            } else if kind is Message && target == Some(ResolvedTarget::Message) && menu is Some
                && menu->0 is Message {
                Some(CommandTask::RunMessage(menu->0->Message_0))
            } else {
                None
            };
            if !succeeds(check) {
                tasks == seq![check, CommandTask::Finish(CommandOutcome::CheckFailed)]
            } else if action is Some {
                if succeeds(action->0) {
                    tasks == before + seq![
                        action->0,
                        CommandTask::RunPostCommand,
                        CommandTask::Finish(CommandOutcome::Completed),
                    ]
                } else {
                    tasks == before + seq![
                        action->0,
                        CommandTask::Finish(CommandOutcome::ActionFailed),
                    ]
                }
            } else if kind is ChatInput || kind is User || kind is Message {
                tasks == before + seq![
                    CommandTask::Finish(
                        CommandOutcome::Error(
                            FrameworkError::CommandStructureMismatch {
                                description:
                                    "received interaction type but command contained no matching action or interaction contained no matching context menu object",
                            },
                        ),
                    ),
                ]
            } else {
                tasks == before + seq![CommandTask::Finish(CommandOutcome::UnknownType)]
            }
        }),
{
    reveal_with_fuel(command_tasks, 6);
}

/// Whether the `i`th option is the first that the user is still typing a value for.
pub open spec fn is_focused<V>(args: Seq<ResolvedOption<V>>, i: int) -> bool {
    &&& 0 <= i < args.len()
    &&& args[i].value is Autocomplete
    &&& forall|j: int| 0 <= j < i ==> !((#[trigger] args[j]).value is Autocomplete)
}

/// Whether the `k`th parameter is the first with the given name.
pub open spec fn is_first_named<H>(
    parameters: Seq<CommandParameter<H>>,
    name: Seq<char>,
    k: int,
) -> bool {
    &&& 0 <= k < parameters.len()
    &&& parameters[k].name@ == name
    &&& forall|j: int| 0 <= j < k ==> (#[trigger] parameters[j]).name@ != name
}

proof fn lemma_focused<V>(args: Seq<ResolvedOption<V>>, i: nat)
    requires
        i <= args.len(),
        forall|j: int| 0 <= j < i ==> !((#[trigger] args[j]).value is Autocomplete),
    ensures
        match focused_option(args, i) {
            None => forall|j: int|
                0 <= j < args.len() ==> !((#[trigger] args[j]).value is Autocomplete),
            Some((name, value)) => exists|k: int| #[trigger]
                is_focused(args, k) && args[k].name == name && args[k].value
                    == (ResolvedValue::<V>::Autocomplete { value }),
        },
    decreases args.len() - i,
{
    if i < args.len() {
        if args[i as int].value is Autocomplete {
            assert(is_focused(args, i as int));
        } else {
            lemma_focused(args, i + 1);
        }
    }
}

proof fn lemma_parameter_named<H>(parameters: Seq<CommandParameter<H>>, name: Seq<char>, i: nat)
    requires
        i <= parameters.len(),
        forall|j: int| 0 <= j < i ==> (#[trigger] parameters[j]).name@ != name,
    ensures
        match parameter_named(parameters, name, i) {
            None => forall|j: int|
                0 <= j < parameters.len() ==> (#[trigger] parameters[j]).name@ != name,
            Some(p) => exists|k: int| #[trigger]
                is_first_named(parameters, name, k) && parameters[k] == p,
        },
    decreases parameters.len() - i,
{
    if i < parameters.len() {
        if parameters[i as int].name@ == name {
            assert(is_first_named(parameters, name, i as int));
        } else {
            lemma_parameter_named(parameters, name, i + 1);
        }
    }
}

/// An autocompletion is for the first option that the user is still typing a value for, and for the
/// first parameter of the same name: the callback of that parameter is run on what was typed so
/// far.
pub proof fn law_autocompleted_parameter<H, V>(
    args: Seq<ResolvedOption<V>>,
    command: Command<H>,
    i: int,
    k: int,
)
    requires
        is_focused(args, i),
        is_first_named(command.parameters@, args[i].name@, k),
    ensures
        ({
            let choice = autocomplete_for::<H, V>(args, command);
            match command.parameters@[k].autocomplete_callback {
                Some(callback) => choice matches AutocompleteChoice::Run(c, input) && c == callback
                    && args[i].value == (ResolvedValue::<V>::Autocomplete { value: *input }),
                None => choice is NoCallback,
            }
        }),
{
    lemma_focused(args, 0);
    let (name, value) = focused_option(args, 0)->0;
    let f = choose|f: int| #[trigger]
        is_focused(args, f) && args[f].name == name && args[f].value
            == (ResolvedValue::<V>::Autocomplete { value });
    assert(f == i) by {
        if f < i {
            assert(!(args[f].value is Autocomplete));
        } else if i < f {
            assert(!(args[i].value is Autocomplete));
        }
    }
    lemma_parameter_named(command.parameters@, name@, 0);
    let p = parameter_named(command.parameters@, name@, 0)->0;
    let n = choose|n: int| #[trigger]
        is_first_named(command.parameters@, name@, n) && command.parameters@[n] == p;
    assert(n == k) by {
        if n < k {
            assert(command.parameters@[n].name@ != name@);
        } else if k < n {
            assert(command.parameters@[k].name@ != name@);
        }
    }
}

/// Nothing is focused if and only if the user is typing a value for no option. The parameter is
/// unknown if and only if the command has none of the name of the focused option.
pub proof fn law_no_autocompleted_parameter<H, V>(args: Seq<ResolvedOption<V>>, command: Command<H>)
    ensures
        ({
            let choice = autocomplete_for::<H, V>(args, command);
            &&& choice is NothingFocused <==> forall|j: int|
                0 <= j < args.len() ==> !((#[trigger] args[j]).value is Autocomplete)
            &&& choice is UnknownParameter <==> exists|i: int| #[trigger]
                is_focused(args, i) && forall|k: int|
                    0 <= k < command.parameters@.len() ==> (
                    #[trigger] command.parameters@[k]).name@ != args[i].name@
        }),
{
    lemma_focused(args, 0);
    if let Some((name, value)) = focused_option(args, 0) {
        let f = choose|f: int| #[trigger]
            is_focused(args, f) && args[f].name == name && args[f].value
                == (ResolvedValue::<V>::Autocomplete { value });
        lemma_parameter_named(command.parameters@, name@, 0);
        assert forall|i: int| #[trigger] is_focused(args, i) implies i == f by {
            if f < i {
                assert(!(args[f].value is Autocomplete));
            } else if i < f {
                assert(!(args[i].value is Autocomplete));
            }
        }
    }
}

/// All that is done for an autocompletion: nothing but the check if that fails. Else the callback is
/// run and what it proposed is sent, if there is a callback; that sending fails is no error. It is
/// an error if the command has no parameter of the name of the focused option.
pub proof fn law_tasks_of_autocompletion<'a, H, V>(
    args: Seq<ResolvedOption<V>>,
    command: Command<H>,
    succeeds: spec_fn(AutocompleteTask<'a, H>) -> bool,
)
    ensures
        ({
            let check = AutocompleteTask::CheckPermissions;
            let choice = autocomplete_for::<H, V>(args, command);
            let tasks = autocomplete_tasks(AutocompleteStep::Checking, check, succeeds, choice);
            &&& tasks[0] == check
            &&& !succeeds(check) ==> tasks == seq![
                check,
                AutocompleteTask::Finish(AutocompleteOutcome::CheckFailed),
            ]
            &&& succeeds(check) ==> match choice {
                AutocompleteChoice::Run(callback, input) => tasks == seq![
                    check,
                    AutocompleteTask::RunCallback(callback, input),
                    AutocompleteTask::SendResponse,
                    AutocompleteTask::Finish(
                        if succeeds(AutocompleteTask::SendResponse) {
                            AutocompleteOutcome::Completed
                        } else {
                            AutocompleteOutcome::SendFailed
                        },
                    ),
                ],
                AutocompleteChoice::NothingFocused => tasks == seq![
                    check,
                    AutocompleteTask::Finish(AutocompleteOutcome::NothingFocused),
                ],
                AutocompleteChoice::UnknownParameter => tasks == seq![
                    check,
                    AutocompleteTask::Finish(
                        AutocompleteOutcome::Error(
                            FrameworkError::CommandStructureMismatch {
                                description: "focused autocomplete parameter name not recognized",
                            },
                        ),
                    ),
                ],
                AutocompleteChoice::NoCallback => tasks == seq![
                    check,
                    AutocompleteTask::Finish(AutocompleteOutcome::Completed),
                ],
            }
        }),
{
    reveal_with_fuel(autocomplete_tasks, 5);
}

/// What is finished stays finished, and succeeds.
pub proof fn law_finished_runs_stay_finished<'a, H>(
    succeeded: bool,
    choice: ActionChoice<H>,
    autocompletion: AutocompleteChoice<'a, H>,
)
    ensures
        next_command_step(CommandStep::Finished, succeeded, choice) == (
            CommandStep::Finished,
            CommandTask::<H>::Finish(CommandOutcome::Completed),
        ),
        next_autocomplete_step(AutocompleteStep::Finished, succeeded, autocompletion) == (
            AutocompleteStep::Finished,
            AutocompleteTask::<'a, H>::Finish(AutocompleteOutcome::Completed),
        ),
{
}

} // verus!
