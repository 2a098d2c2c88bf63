use poise_commands::dispatch::event::{
    event_step, EditOptions, EventKind, EventReply, EventStep, EventTask, MessageDispatchTrigger,
};
use poise_commands::dispatch::run::{
    autocomplete_step, choose_action, choose_autocomplete, command_step, start_autocomplete,
    start_command, ActionChoice, AutocompleteChoice, AutocompleteOutcome, AutocompleteStep,
    AutocompleteTask, CommandOutcome, CommandStep, CommandTask, MISSING_ACTION, UNKNOWN_PARAMETER,
};
use poise_commands::dispatch::slash::{
    extract_command, find_matching_command, ApplicationContext, CommandInteraction,
    CommandInteractionType, FrameworkError, ResolvedOption, ResolvedTarget, ResolvedValue,
};
use poise_commands::dispatch::{
    deref_optional_tuple, find_guild, get_guild_commands, ClientContext, FrameworkContext,
};
use poise_commands::string_map::StringMap;
use poise_commands::structs::command::{Command, CommandParameter, ContextMenuCommandAction};
use poise_commands::structs::command_override::CommandOverride;
use poise_commands::structs::command_storage::CommandStorage;
use poise_commands::structs::updateable::UpdateableArcSwapArc;
use serenity::cache::Cache;
use serenity::gateway::{ShardManager, ShardManagerOptions};
use serenity::http::Http;
use serenity::model::application::CommandType;
use serenity::model::gateway::GatewayIntents;
use serenity::prelude::{Mutex, RwLock, TypeMap};
use std::collections::HashMap;
use std::sync::Arc;

fn slash(name: &str) -> Command<u32> {
    Command { slash_action: Some(2), name: name.to_string(), ..Command::default() }
}

fn context(name: &str, menu_name: Option<&str>, on_user: bool) -> Command<u32> {
    Command {
        context_menu_action: Some(if on_user {
            ContextMenuCommandAction::User(3)
        } else {
            ContextMenuCommandAction::Message(4)
        }),
        name: name.to_string(),
        context_menu_name: menu_name.map(|s| s.to_string()),
        ..Command::default()
    }
}

fn option(name: &str, value: ResolvedValue<i64>) -> ResolvedOption<i64> {
    ResolvedOption { name: name.to_string(), value }
}

fn below(mut c: Command<u32>, v: Vec<Command<u32>>) -> Command<u32> {
    c.subcommands = CommandStorage::from(v);
    c
}

fn disabling(id: &str) -> StringMap<CommandOverride> {
    let mut overrides = StringMap::new();
    overrides.insert(
        id.to_string(),
        CommandOverride { disabled: true, ..CommandOverride::default() },
    );
    overrides
}

#[test]
fn slash_command_is_found_by_name() {
    let commands = CommandStorage::from(vec![context("ping", None, true), slash("ping")]);
    let options = vec![option("n", ResolvedValue::Other(5))];
    let mut parents = vec![];
    let (command, args) = find_matching_command(
        &"ping".to_string(),
        CommandType::ChatInput,
        &options,
        &commands,
        &StringMap::new(),
        &mut parents,
    )
    .unwrap();
    assert!(command == &commands[1]);
    assert_eq!(args.len(), 1);
    assert!(parents.is_empty());
    assert!(find_matching_command(
        &"pong".to_string(),
        CommandType::ChatInput,
        &options,
        &commands,
        &StringMap::new(),
        &mut parents,
    )
    .is_none());
}

#[test]
fn subcommands_are_followed() {
    let commands = CommandStorage::from(vec![
        slash("other"),
        below(slash("a"), vec![below(slash("b"), vec![slash("x"), slash("c")])]),
    ]);
    let leaf = vec![option("n", ResolvedValue::Other(1)), option("m", ResolvedValue::Other(2))];
    let group = vec![option("c", ResolvedValue::SubCommand(leaf))];
    let options = vec![option("b", ResolvedValue::SubCommandGroup(group))];
    let mut parents = vec![];
    let (command, args) = find_matching_command(
        &"a".to_string(),
        CommandType::ChatInput,
        &options,
        &commands,
        &StringMap::new(),
        &mut parents,
    )
    .unwrap();
    assert_eq!(command.name, "c");
    assert_eq!(args.len(), 2);
    assert_eq!(args[1].name, "m");
    assert_eq!(parents.len(), 2);
    assert_eq!(parents[0].name, "a");
    assert_eq!(parents[1].name, "b");
}

#[test]
fn search_goes_on_after_a_dead_end() {
    let commands = CommandStorage::from(vec![
        below(slash("a"), vec![slash("x")]),
        below(slash("a"), vec![slash("b")]),
    ]);
    let options = vec![option("b", ResolvedValue::SubCommand(vec![]))];
    let mut parents = vec![];
    let (command, _) = find_matching_command(
        &"a".to_string(),
        CommandType::ChatInput,
        &options,
        &commands,
        &StringMap::new(),
        &mut parents,
    )
    .unwrap();
    assert!(command == &commands[1].subcommands[0]);
    assert_eq!(parents.len(), 2);
    assert!(parents[1] == &commands[1]);
}

#[test]
fn disabled_commands_are_ignored() {
    let mut first = slash("ping");
    first.command_id = Some("one".to_string());
    let mut menu = context("menu", None, true);
    menu.command_id = Some("one".to_string());
    let commands = CommandStorage::from(vec![first, slash("ping"), menu]);
    let options: Vec<ResolvedOption<i64>> = vec![];
    let mut parents = vec![];
    let overrides = disabling("one");
    let (command, _) = find_matching_command(
        &"ping".to_string(),
        CommandType::ChatInput,
        &options,
        &commands,
        &overrides,
        &mut parents,
    )
    .unwrap();
    assert!(command == &commands[1]);
    assert!(find_matching_command(
        &"menu".to_string(),
        CommandType::User,
        &options,
        &commands,
        &overrides,
        &mut parents,
    )
    .is_none());
}

#[test]
fn context_menu_commands_are_found_on_all_levels() {
    let commands = CommandStorage::from(vec![
        below(slash("a"), vec![context("u", Some("Show User"), true)]),
        context("m", None, false),
        slash("s"),
    ]);
    let options: Vec<ResolvedOption<i64>> = vec![];
    let mut parents = vec![];
    let mut find = |name: &str, kind: CommandType| {
        find_matching_command(
            &name.to_string(),
            kind,
            &options,
            &commands,
            &StringMap::new(),
            &mut parents,
        )
        .map(|(c, _)| c.name.clone())
    };
    assert_eq!(find("Show User", CommandType::User), Some("u".to_string()));
    assert_eq!(find("u", CommandType::User), None);
    assert_eq!(find("Show User", CommandType::Message), None);
    assert_eq!(find("m", CommandType::Message), Some("m".to_string()));
    assert_eq!(find("m", CommandType::ChatInput), None);
    assert_eq!(find("s", CommandType::User), None);
    assert_eq!(find("s", CommandType::Message), None);
    assert_eq!(find("s", CommandType::PrimaryEntryPoint), None);
    assert_eq!(find("s", CommandType::ChatInput), Some("s".to_string()));
}

fn interaction(name: &str, guild_id: Option<u64>) -> CommandInteraction<i64> {
    CommandInteraction {
        guild_id,
        name: name.to_string(),
        kind: CommandType::ChatInput,
        options: vec![],
        target: None,
    }
}

#[test]
fn guild_and_global_commands_are_apart() {
    let global = CommandStorage::from(vec![slash("g")]);
    let mut in_guild = slash("l");
    in_guild.command_id = Some("l".to_string());
    let guild = CommandStorage::from(vec![in_guild]);
    let none = StringMap::new();
    let extract = |i: &CommandInteraction<i64>, overrides: &StringMap<CommandOverride>| {
        extract_command(&global, Some((&guild, overrides)), i, CommandInteractionType::Command)
            .map(|ctx| ctx.command.name.clone())
    };
    assert_eq!(extract(&interaction("g", None), &none).ok(), Some("g".to_string()));
    assert_eq!(extract(&interaction("l", Some(1)), &none).ok(), Some("l".to_string()));
    assert!(matches!(
        extract(&interaction("l", None), &none),
        Err(FrameworkError::UnknownInteraction)
    ));
    assert!(extract(&interaction("g", Some(1)), &none).is_err());
    assert!(extract(&interaction("l", Some(1)), &disabling("l")).is_err());
    let unknown = interaction("l", Some(1));
    assert!(extract_command(&global, None, &unknown, CommandInteractionType::Command).is_err());
}

#[test]
fn overrides_do_not_apply_to_global_commands() {
    let mut c = slash("g");
    c.command_id = Some("g".to_string());
    let global = CommandStorage::from(vec![c]);
    let guild = CommandStorage::new_empty();
    let overrides = disabling("g");
    let i = interaction("g", None);
    let ctx = extract_command(
        &global,
        Some((&guild, &overrides)),
        &i,
        CommandInteractionType::Autocomplete,
    )
    .unwrap();
    assert_eq!(ctx.command.name, "g");
    assert!(matches!(ctx.interaction_type, CommandInteractionType::Autocomplete));
    assert!(ctx.parent_commands.is_empty());
    assert!(ctx.guild_commands.is_some());
}

#[test]
fn action_fits_type_and_target() {
    let s = slash("s");
    let u = context("u", None, true);
    let m = context("m", None, false);
    let user = Some(ResolvedTarget::User);
    let message = Some(ResolvedTarget::Message);
    assert!(matches!(choose_action(CommandType::ChatInput, &s, None), ActionChoice::Slash(2)));
    assert!(matches!(choose_action(CommandType::ChatInput, &u, user), ActionChoice::Mismatch));
    assert!(matches!(choose_action(CommandType::User, &u, user), ActionChoice::User(3)));
    assert!(matches!(choose_action(CommandType::User, &u, message), ActionChoice::Mismatch));
    assert!(matches!(choose_action(CommandType::User, &m, user), ActionChoice::Mismatch));
    assert!(matches!(choose_action(CommandType::User, &u, None), ActionChoice::Mismatch));
    assert!(matches!(choose_action(CommandType::Message, &m, message), ActionChoice::Message(4)));
    assert!(matches!(choose_action(CommandType::Message, &s, message), ActionChoice::Mismatch));
    assert!(matches!(choose_action(CommandType::Unknown(9), &s, None), ActionChoice::UnknownType));
}

fn run(kind: CommandType, check_ok: bool, action_ok: bool) -> Vec<String> {
    let global = CommandStorage::from(vec![slash("s")]);
    let i = CommandInteraction { kind, ..interaction("s", None) };
    let ctx = ApplicationContext {
        interaction: &i,
        interaction_type: CommandInteractionType::Command,
        args: &i.options,
        command: &global[0],
        parent_commands: vec![],
        global_commands: &global,
        guild_commands: None,
    };
    let mut tasks = vec![];
    let (mut step, mut task) = start_command::<u32>();
    loop {
        let ok = match &task {
            CommandTask::CheckPermissions => check_ok,
            CommandTask::RunSlash(2) => action_ok,
            CommandTask::Finish(outcome) => {
                tasks.push(match outcome {
                    CommandOutcome::Error(FrameworkError::CommandStructureMismatch {
                        description,
                    }) => description.to_string(),
                    other => format!("{other:?}"),
                });
                break;
            }
            _ => true,
        };
        tasks.push(format!("{task:?}"));
        (step, task) = command_step(&ctx, step, ok);
    }
    assert!(matches!(step, CommandStep::Finished));
    assert!(matches!(
        command_step(&ctx, step, false),
        (CommandStep::Finished, CommandTask::Finish(CommandOutcome::Completed))
    ));
    tasks
}

#[test]
fn command_runs_in_order() {
    assert_eq!(
        run(CommandType::ChatInput, true, true),
        vec!["CheckPermissions", "RunPreCommand", "RunSlash(2)", "RunPostCommand", "Completed"]
    );
    assert_eq!(
        run(CommandType::ChatInput, true, false),
        vec!["CheckPermissions", "RunPreCommand", "RunSlash(2)", "ActionFailed"]
    );
    assert_eq!(run(CommandType::ChatInput, false, true), vec!["CheckPermissions", "CheckFailed"]);
    assert_eq!(
        run(CommandType::User, true, true),
        vec!["CheckPermissions", "RunPreCommand", MISSING_ACTION]
    );
    assert_eq!(
        run(CommandType::Unknown(77), true, true),
        vec!["CheckPermissions", "RunPreCommand", "UnknownType"]
    );
}

fn autocompleted() -> Command<u32> {
    let parameter = |name: &str, callback: Option<u32>| CommandParameter {
        name: name.to_string(),
        name_localizations: vec![],
        description: None,
        description_localizations: vec![],
        choices: vec![],
        autocomplete_callback: callback,
        slash_option: None,
    };
    let mut c = slash("s");
    c.parameters = vec![parameter("a", None), parameter("b", Some(6))];
    c
}

fn typing(name: &str, value: &str) -> ResolvedOption<i64> {
    option(name, ResolvedValue::Autocomplete { value: value.to_string() })
}

#[test]
fn focused_parameter_is_found() {
    let c = autocompleted();
    let args = vec![option("a", ResolvedValue::Other(1)), typing("b", "par")];
    assert!(matches!(
        choose_autocomplete(&args, &c),
        AutocompleteChoice::Run(6, s) if s == "par"
    ));
    assert!(matches!(
        choose_autocomplete(&vec![typing("a", "par")], &c),
        AutocompleteChoice::NoCallback
    ));
    assert!(matches!(
        choose_autocomplete(&vec![typing("z", "par"), typing("b", "x")], &c),
        AutocompleteChoice::UnknownParameter
    ));
    assert!(matches!(
        choose_autocomplete(&vec![option("b", ResolvedValue::Other(1))], &c),
        AutocompleteChoice::NothingFocused
    ));
}

fn autocomplete(args: Vec<ResolvedOption<i64>>, check_ok: bool, send_ok: bool) -> Vec<String> {
    let global = CommandStorage::from(vec![autocompleted()]);
    let mut i = interaction("s", None);
    i.options = args;
    let ctx = extract_command(&global, None, &i, CommandInteractionType::Autocomplete).unwrap();
    let mut tasks = vec![];
    let (mut step, mut task) = start_autocomplete::<u32>();
    loop {
        let ok = match &task {
            AutocompleteTask::CheckPermissions => check_ok,
            AutocompleteTask::SendResponse => send_ok,
            AutocompleteTask::RunCallback(..) => true,
            AutocompleteTask::Finish(outcome) => {
                tasks.push(match outcome {
                    AutocompleteOutcome::Error(FrameworkError::CommandStructureMismatch {
                        description,
                    }) => description.to_string(),
                    other => format!("{other:?}"),
                });
                break;
            }
        };
        tasks.push(format!("{task:?}"));
        (step, task) = autocomplete_step(&ctx, step, ok);
    }
    assert!(matches!(step, AutocompleteStep::Finished));
    assert!(matches!(
        autocomplete_step(&ctx, step, false),
        (AutocompleteStep::Finished, AutocompleteTask::Finish(AutocompleteOutcome::Completed))
    ));
    tasks
}

#[test]
fn autocompletion_runs_in_order() {
    let run = "RunCallback(6, \"par\")";
    assert_eq!(
        autocomplete(vec![typing("b", "par")], true, true),
        vec!["CheckPermissions", run, "SendResponse", "Completed"]
    );
    assert_eq!(
        autocomplete(vec![typing("b", "par")], true, false),
        vec!["CheckPermissions", run, "SendResponse", "SendFailed"]
    );
    assert_eq!(
        autocomplete(vec![typing("b", "par")], false, true),
        vec!["CheckPermissions", "CheckFailed"]
    );
    assert_eq!(autocomplete(vec![], true, true), vec!["CheckPermissions", "NothingFocused"]);
    assert_eq!(
        autocomplete(vec![typing("a", "par")], true, true),
        vec!["CheckPermissions", "Completed"]
    );
    assert_eq!(
        autocomplete(vec![typing("z", "par")], true, true),
        vec!["CheckPermissions", UNKNOWN_PARAMETER]
    );
}

fn handle(kind: EventKind, tracks_edits: bool, replies: &[EventReply]) -> Vec<EventTask> {
    let options = EditOptions { tracks_edits, ignore_edits_if_not_yet_responded: true };
    let (mut step, mut task) = event_step(EventStep::Received(kind), EventReply::Done, options);
    let mut tasks = vec![];
    let mut next = replies.iter();
    while !matches!(task, EventTask::Finish) {
        tasks.push(task);
        let reply = next.next().copied().unwrap_or(EventReply::Done);
        (step, task) = event_step(step, reply, options);
    }
    assert!(matches!(step, EventStep::Finished));
    tasks
}

#[test]
fn every_event_ends_with_the_event_handler() {
    let tasks = handle(EventKind::Other, true, &[]);
    assert_eq!(tasks.len(), 1);
    assert!(matches!(tasks[0], EventTask::RunEventHandler));
    let tasks = handle(EventKind::Other, true, &[EventReply::Failed]);
    assert_eq!(tasks.len(), 2);
    assert!(matches!(tasks[1], EventTask::ReportError));
}

#[test]
fn messages_and_interactions_are_dispatched() {
    let tasks = handle(EventKind::Message { guild_id: Some(7) }, false, &[]);
    assert_eq!(tasks.len(), 2);
    assert!(matches!(
        tasks[0],
        EventTask::DispatchMessage {
            guild_id: Some(7),
            trigger: MessageDispatchTrigger::MessageCreate,
        }
    ));
    let tasks = handle(EventKind::Command { guild_id: None }, false, &[EventReply::Failed]);
    assert_eq!(tasks.len(), 3);
    assert!(matches!(tasks[0], EventTask::DispatchInteraction { guild_id: None }));
    assert!(matches!(tasks[1], EventTask::HandleError));
    assert!(matches!(tasks[2], EventTask::RunEventHandler));
    let tasks = handle(EventKind::Autocomplete { guild_id: Some(1) }, false, &[]);
    assert!(matches!(tasks[0], EventTask::DispatchAutocomplete { guild_id: Some(1) }));
}

#[test]
fn edits_are_dispatched_if_tracked() {
    let edit = EventKind::MessageUpdate { guild_id: Some(2) };
    let tasks = handle(edit, true, &[EventReply::Edited(true), EventReply::Failed]);
    assert_eq!(tasks.len(), 4);
    assert!(matches!(
        tasks[0],
        EventTask::ProcessMessageUpdate { ignore_edits_if_not_yet_responded: true }
    ));
    assert!(matches!(
        tasks[1],
        EventTask::DispatchMessage {
            guild_id: Some(2),
            trigger: MessageDispatchTrigger::MessageEdit,
        }
    ));
    assert!(matches!(tasks[2], EventTask::HandleError));
    let tasks = handle(edit, true, &[EventReply::Edited(false)]);
    assert!(matches!(
        tasks[1],
        EventTask::DispatchMessage {
            trigger: MessageDispatchTrigger::MessageEditFromInvalid,
            ..
        }
    ));
    assert_eq!(handle(edit, true, &[EventReply::Nothing]).len(), 2);
    assert_eq!(handle(edit, false, &[]).len(), 1);
}

#[test]
fn responses_to_deleted_messages_are_deleted_if_tracked() {
    let deletion = EventKind::MessageDelete { deleted_message_id: 5 };
    let tasks = handle(deletion, true, &[EventReply::Response, EventReply::Failed]);
    assert_eq!(tasks.len(), 3);
    assert!(matches!(tasks[0], EventTask::ProcessMessageDelete { deleted_message_id: 5 }));
    assert!(matches!(tasks[1], EventTask::DeleteResponse));
    assert!(matches!(tasks[2], EventTask::RunEventHandler));
    assert_eq!(handle(deletion, true, &[EventReply::Nothing]).len(), 2);
    assert_eq!(handle(deletion, false, &[]).len(), 1);
}

#[test]
fn commands_of_a_guild_are_looked_up() {
    let mut guilds = HashMap::new();
    guilds.insert(
        4u64,
        (
            UpdateableArcSwapArc::from(vec![slash("a")]),
            UpdateableArcSwapArc::from(disabling("a")),
        ),
    );
    let (commands, overrides) = get_guild_commands(&guilds, &Some(4)).unwrap();
    assert_eq!(commands[0].name, "a");
    assert!(overrides.get(&"a".to_string()).unwrap().disabled);
    assert!(get_guild_commands(&guilds, &Some(5)).is_none());
    assert!(get_guild_commands(&guilds, &None).is_none());
    assert!(find_guild(&guilds, &Some(4)).is_some());
}

#[test]
fn optional_tuple_is_borrowed() {
    assert_eq!(deref_optional_tuple(&Some((1, "a"))), Some((&1, &"a")));
    assert_eq!(deref_optional_tuple::<u8, u8>(&None), None);
}

#[test]
fn framework_context_is_a_view() {
    let runtime = tokio::runtime::Builder::new_current_thread().build().unwrap();
    let _guard = runtime.enter();
    let (manager, _receiver) = ShardManager::new(ShardManagerOptions {
        data: Arc::new(RwLock::new(TypeMap::new())),
        event_handlers: vec![],
        raw_event_handlers: vec![],
        shard_index: 0,
        shard_init: 0,
        shard_total: 0,
        ws_url: Arc::new(Mutex::new(String::new())),
        cache: Arc::new(Cache::new()),
        http: Arc::new(Http::new("")),
        intents: GatewayIntents::empty(),
        presence: None,
    });
    let client = ClientContext { current_user_id: 42, data: Arc::new("data") };
    let options = 7u32;
    let framework = FrameworkContext {
        serenity_context: &client,
        options: &options,
        shard_manager: &manager,
    };
    let copy = framework;
    assert_eq!(copy.bot_id(), 42);
    assert_eq!(framework.clone().options(), &7);
    assert_eq!(*framework.user_data(), "data");
    assert!(Arc::ptr_eq(&framework.shard_manager(), &manager));
}
