use poise_commands::structs::command::{Command, CommandParameter, ContextMenuCommandAction};
use poise_commands::structs::command_storage::CommandStorage;
use serenity::builder::CreateCommandOption;
use serenity::model::application::{
    CommandOptionType, InstallationContext, InteractionContext,
};

fn slash(name: &str) -> Command<u32> {
    Command {
        slash_action: Some(2),
        name: name.to_string(),
        ..Command::default()
    }
}

fn parameter(name: &str, compatible: bool) -> CommandParameter<u32> {
    CommandParameter {
        name: name.to_string(),
        name_localizations: vec![],
        description: None,
        description_localizations: vec![],
        choices: vec![],
        autocomplete_callback: None,
        slash_option: if compatible {
            Some(CreateCommandOption::new(CommandOptionType::Integer, name, "number"))
        } else {
            None
        },
    }
}

fn pairs(v: &[(&str, &str)]) -> Vec<(String, String)> {
    v.iter().map(|(a, b)| (a.to_string(), b.to_string())).collect()
}

fn json(command: &Command<u32>) -> serde_json::Value {
    serde_json::to_value(command.create_as_slash_command().unwrap()).unwrap()
}

#[test]
fn name_and_description_are_registered() {
    let mut command = slash("ping");
    let value = json(&command);
    assert_eq!(value["name"], "ping");
    assert_eq!(value["description"], "A slash command");
    assert!(value.get("type").is_none());
    assert!(value.get("default_member_permissions").is_none());
    assert!(value.get("contexts").is_none());
    assert!(value.get("integration_types").is_none());
    command.description = Some("Pong".to_string());
    assert_eq!(json(&command)["description"], "Pong");
}

#[test]
fn unknown_locales_are_removed() {
    let mut command = slash("test_command");
    command.name_localizations =
        pairs(&[("eng-test", "eng-test"), ("de", "eins"), ("zh-TW", "x"), ("de", "zwei")]);
    command.description_localizations = pairs(&[("ko", "y"), ("xx", "z")]);
    let value = json(&command);
    assert_eq!(value["name_localizations"].as_object().unwrap().len(), 2);
    assert_eq!(value["name_localizations"]["de"], "zwei");
    assert_eq!(value["name_localizations"]["zh-TW"], "x");
    assert_eq!(value["description_localizations"].as_object().unwrap().len(), 1);
    assert_eq!(value["description_localizations"]["ko"], "y");
}

#[test]
fn commands_without_slash_action_are_not_registered() {
    let mut command = slash("ping");
    command.slash_action = None;
    command.prefix_action = Some(1);
    assert!(command.create_as_slash_command().is_none());
    assert!(command.create_as_subcommand().is_none());
}

#[test]
fn permissions_and_contexts_are_registered() {
    let mut command = slash("ping");
    command.default_member_permissions = 8;
    command.dm_only = true;
    command.install_context = Some(vec![InstallationContext::Guild, InstallationContext::User]);
    let value = json(&command);
    assert_eq!(value["default_member_permissions"], "8");
    assert_eq!(value["contexts"], serde_json::to_value(vec![1]).unwrap());
    assert_eq!(value["integration_types"], serde_json::to_value(vec![0, 1]).unwrap());
    command.guild_only = true;
    assert_eq!(json(&command)["contexts"], serde_json::to_value(vec![0]).unwrap());
    command.interaction_context =
        Some(vec![InteractionContext::PrivateChannel, InteractionContext::BotDm]);
    assert_eq!(json(&command)["contexts"], serde_json::to_value(vec![2, 1]).unwrap());
}

#[test]
fn parameters_become_options() {
    let mut command = slash("ping");
    command.parameters = vec![parameter("a", true), parameter("b", true)];
    let value = json(&command);
    let options = value["options"].as_array().unwrap();
    assert_eq!(options.len(), 2);
    assert_eq!(options[0]["name"], "a");
    assert_eq!(options[1]["name"], "b");
    assert_eq!(options[1]["type"], 4);
    assert!(command.parameters[0].create_as_slash_command_option().is_some());
    command.parameters.push(parameter("c", false));
    assert!(command.parameters[2].create_as_slash_command_option().is_none());
    assert!(command.create_as_slash_command().is_none());
    assert!(command.create_as_subcommand().is_none());
}

#[test]
fn subcommands_take_the_place_of_parameters() {
    let mut inner = slash("inner");
    inner.description = Some("in".to_string());
    inner.name_localizations = pairs(&[("fr", "dedans"), ("french", "no")]);
    inner.description_localizations = pairs(&[("it", "dentro")]);
    inner.parameters = vec![parameter("p", true)];
    let mut broken = slash("broken");
    broken.parameters = vec![parameter("q", false)];
    let mut hidden = slash("hidden");
    hidden.slash_action = None;
    let mut group = slash("group");
    group.subcommands = CommandStorage::from(vec![inner, broken]);
    let mut command = slash("ping");
    command.parameters = vec![parameter("ignored", false)];
    command.subcommands = CommandStorage::from(vec![hidden, group, slash("plain")]);
    let value = json(&command);
    let options = value["options"].as_array().unwrap();
    assert_eq!(options.len(), 2);
    assert_eq!(options[0]["name"], "group");
    assert_eq!(options[0]["type"], 2);
    assert_eq!(options[0]["description"], "A slash command");
    assert_eq!(options[1]["name"], "plain");
    assert_eq!(options[1]["type"], 1);
    let nested = options[0]["options"].as_array().unwrap();
    assert_eq!(nested.len(), 1);
    assert_eq!(nested[0]["name"], "inner");
    assert_eq!(nested[0]["type"], 1);
    assert_eq!(nested[0]["description"], "in");
    assert_eq!(nested[0]["name_localizations"].as_object().unwrap().len(), 1);
    assert_eq!(nested[0]["name_localizations"]["fr"], "dedans");
    assert_eq!(nested[0]["description_localizations"]["it"], "dentro");
    assert_eq!(nested[0]["options"][0]["name"], "p");
}

#[test]
fn context_menu_commands_are_registered() {
    let mut command: Command<u32> = Command {
        context_menu_action: Some(ContextMenuCommandAction::User(1)),
        name: "ping".to_string(),
        description: Some("ignored".to_string()),
        guild_only: true,
        ..Command::default()
    };
    let value = serde_json::to_value(command.create_as_context_menu_command().unwrap()).unwrap();
    assert_eq!(value["name"], "ping");
    assert_eq!(value["type"], 2);
    assert!(value.get("description").is_none());
    assert_eq!(value["contexts"], serde_json::to_value(vec![0]).unwrap());
    command.context_menu_action = Some(ContextMenuCommandAction::Message(1));
    command.context_menu_name = Some("Show Ping".to_string());
    let value = serde_json::to_value(command.create_as_context_menu_command().unwrap()).unwrap();
    assert_eq!(value["name"], "Show Ping");
    assert_eq!(value["type"], 3);
    command.context_menu_action = None;
    assert!(command.create_as_context_menu_command().is_none());
}
