use poise_commands::string_map::StringMap;
use poise_commands::structs::command::{
    Command, CommandParameter, CommandParameterChoice, ContextMenuCommandAction,
};
use poise_commands::structs::command_override::CommandOverride;
use poise_commands::structs::command_storage::CommandStorage;
use poise_commands::structs::errors::{
    CommandConsistencyError, CommandOptionChoiceError, CommandOptionError,
    CommandStorageConsistencyError,
};

fn slash(name: &str) -> Command<u32> {
    Command {
        slash_action: Some(2),
        name: name.to_string(),
        description: Some("d".to_string()),
        ..Command::default()
    }
}

fn with_subcommands(mut command: Command<u32>, v: Vec<Command<u32>>) -> Command<u32> {
    command.subcommands = CommandStorage::from(v);
    command
}

fn parameter(name: &str) -> CommandParameter<u32> {
    CommandParameter {
        name: name.to_string(),
        name_localizations: vec![],
        description: Some("d".to_string()),
        description_localizations: vec![],
        choices: vec![],
        autocomplete_callback: None,
        slash_option: None,
    }
}

fn choice(name: &str) -> CommandParameterChoice {
    CommandParameterChoice { name: name.to_string(), localizations: vec![] }
}

fn pairs(v: &[(&str, &str)]) -> Vec<(String, String)> {
    v.iter().map(|(a, b)| (a.to_string(), b.to_string())).collect()
}

fn no_overrides() -> StringMap<CommandOverride> {
    StringMap::new()
}

#[test]
fn good_command_has_no_faults() {
    let overrides = no_overrides();
    let mut command = slash("ping");
    command.parameters = vec![parameter("a"), parameter("b")];
    assert!(command.check_consistency(1, false, None, &overrides).is_empty());
    let storage = CommandStorage::from(vec![command, slash("pong")]);
    assert!(storage.check_top_level_consistency(false, &overrides).is_empty());
}

#[test]
fn length_counts_characters_of_the_longest_texts() {
    let mut command = slash("ab");
    assert_eq!(command.calculate_command_length(true), 3);
    command.name_localizations = pairs(&[("de", "\u{e4}\u{e4}\u{e4}\u{e4}"), ("fr", "x")]);
    assert_eq!(command.calculate_command_length(true), 5);
    command.description_localizations = pairs(&[("de", "1234567890")]);
    assert_eq!(command.calculate_command_length(true), 14);
    let mut param = parameter("pp");
    param.choices = vec![choice("xyz"), choice("x")];
    command.parameters = vec![param];
    assert_eq!(command.calculate_command_length(true), 14 + 4 + 2 + 1);
    assert_eq!(command.calculate_command_length(false), 0);
}

#[test]
fn length_of_subcommands_counts_for_slash_commands() {
    let mut prefix_only = slash("ignored");
    prefix_only.slash_action = None;
    let mut parent = with_subcommands(slash("ab"), vec![slash("c"), prefix_only, slash("de")]);
    parent.parameters = vec![parameter("ignored")];
    assert_eq!(parent.calculate_command_length(true), 3 + 2 + 3);
    parent.context_menu_action = Some(ContextMenuCommandAction::User(1));
    assert_eq!(parent.calculate_command_length(false), 3);
}

#[test]
fn length_is_capped() {
    let command = slash(&"x".repeat(70_000));
    assert_eq!(command.calculate_command_length(true), u16::MAX);
}

#[test]
fn too_long_command_is_reported() {
    let overrides = no_overrides();
    let mut command = slash("ping");
    let mut param = parameter("p");
    param.choices = (0..25).map(|_| choice(&"x".repeat(100))).collect();
    command.parameters = (0..4).map(|_| param.clone()).collect();
    assert!(command.calculate_command_length(true) > 8000);
    let errors = command.check_consistency(1, false, None, &overrides);
    assert!(matches!(errors[0], CommandConsistencyError::MaxLengthExceeded(c) if c == &command));
    let errors = command.check_consistency(2, false, None, &overrides);
    assert!(!matches!(errors[0], CommandConsistencyError::MaxLengthExceeded(_)));
}

#[test]
fn length_of_exactly_the_limit_is_fine() {
    let overrides = no_overrides();
    let mut command = slash("a");
    // name and description of the command, of three parameters, and their choices
    let mut params = vec![parameter("b"), parameter("c"), parameter("e"), parameter("f")];
    for p in params.iter_mut().take(3) {
        p.choices = (0..25).map(|_| choice(&"x".repeat(100))).collect();
    }
    params[3].choices = (0..4).map(|_| choice(&"x".repeat(100))).collect();
    params[3].choices.push(choice(&"x".repeat(90)));
    command.parameters = params;
    assert_eq!(command.calculate_command_length(true), 8000);
    assert!(command.check_consistency(1, false, None, &overrides).is_empty());
    command.description = Some("dd".to_string());
    let errors = command.check_consistency(1, false, None, &overrides);
    assert_eq!(errors.len(), 1);
    assert!(matches!(errors[0], CommandConsistencyError::MaxLengthExceeded(_)));
}

#[test]
fn parent_has_to_be_of_the_same_type() {
    let overrides = no_overrides();
    let mut parent = slash("parent");
    parent.slash_action = None;
    parent.prefix_action = Some(1);
    let child = slash("child");
    let errors = child.check_consistency(2, false, Some(&parent), &overrides);
    assert_eq!(errors.len(), 1);
    assert!(matches!(errors[0], CommandConsistencyError::ParentCommandTypeWrong(_)));
    assert!(child.check_consistency(2, false, Some(&slash("p")), &overrides).is_empty());
    assert!(child.check_consistency(2, false, None, &overrides).is_empty());
}

#[test]
fn hierarchy_has_three_levels() {
    let overrides = no_overrides();
    let three = with_subcommands(slash("a"), vec![with_subcommands(slash("b"), vec![slash("c")])]);
    assert!(three.check_consistency(1, false, None, &overrides).is_empty());
    let four = with_subcommands(slash("x"), vec![three]);
    let errors = four.check_consistency(1, false, None, &overrides);
    assert_eq!(errors.len(), 1);
    let mut command_errors = &errors;
    for _ in 0..3 {
        let CommandConsistencyError::SubcommandStorageConsistencyErrors { errors, .. } =
            &command_errors[0]
        else {
            panic!("wrong error");
        };
        let CommandStorageConsistencyError::CommandConsistencyError(errors) = &errors[0] else {
            panic!("wrong error");
        };
        command_errors = errors;
    }
    assert!(matches!(
        command_errors[0],
        CommandConsistencyError::HierarchyLevelExceeded(c) if c.name == "c"
    ));
    assert_eq!(slash("a").check_consistency(255, false, None, &overrides).len(), 1);
}

#[test]
fn context_menu_commands_have_no_options() {
    let overrides = no_overrides();
    let mut command: Command<u32> = Command {
        context_menu_action: Some(ContextMenuCommandAction::Message(1)),
        name: "Show it".to_string(),
        parameters: vec![parameter("p")],
        ..Command::default()
    };
    let errors = command.check_consistency(1, false, None, &overrides);
    assert_eq!(errors.len(), 1);
    assert!(matches!(errors[0], CommandConsistencyError::ContextMenuWithOptions(_)));
    command.parameters = vec![];
    assert!(command.check_consistency(1, false, None, &overrides).is_empty());
}

#[test]
fn names_that_are_not_compliant_are_listed() {
    let overrides = no_overrides();
    let mut command = slash("Ping");
    command.name_localizations = pairs(&[("de", "gut"), ("fr", "pas bien")]);
    command.context_menu_action = Some(ContextMenuCommandAction::User(1));
    command.context_menu_name = Some("What?".to_string());
    let errors = command.check_consistency(1, false, None, &overrides);
    assert_eq!(errors.len(), 1);
    match &errors[0] {
        CommandConsistencyError::NameNotCompliant { names, .. } => {
            assert_eq!(names, &vec!["pas bien", "Ping", "What?"]);
        }
        _ => panic!("wrong error"),
    }
    command.slash_action = None;
    command.context_menu_action = None;
    command.prefix_action = Some(1);
    assert!(command.check_consistency(1, false, None, &overrides).is_empty());
}

#[test]
fn descriptions_have_one_to_a_hundred_characters() {
    let overrides = no_overrides();
    let mut command = slash("ping");
    command.description = Some("\u{e4}".repeat(100));
    assert!(command.check_consistency(1, false, None, &overrides).is_empty());
    command.description = Some("x".repeat(101));
    command.description_localizations = pairs(&[("de", "")]);
    let errors = command.check_consistency(1, false, None, &overrides);
    match &errors[0] {
        CommandConsistencyError::DescriptionNotCompliant { descriptions, .. } => {
            assert_eq!(descriptions, &vec!["".to_string(), "x".repeat(101)]);
        }
        _ => panic!("wrong error"),
    }
    command.description = None;
    command.description_localizations = vec![];
    assert!(command.check_consistency(1, false, None, &overrides).is_empty());
}

#[test]
fn options_are_counted() {
    let mut command = slash("ping");
    command.parameters = (0..25).map(|i| parameter(&format!("p{i}"))).collect();
    assert!(command.check_options().is_empty());
    command.parameters.push(parameter("last"));
    let errors = command.check_options();
    assert_eq!(errors.len(), 1);
    assert!(matches!(errors[0], CommandConsistencyError::TooManyOptions { .. }));
    command.subcommands = CommandStorage::from(vec![slash("sub")]);
    assert!(command.check_options().is_empty());
}

#[test]
fn options_do_not_share_names() {
    let mut command = slash("ping");
    let mut a = parameter("a");
    a.name_localizations = pairs(&[("de", "x"), ("fr", "y")]);
    let mut b = parameter("x");
    b.name_localizations = pairs(&[("de", "y"), ("fr", "a")]);
    command.parameters = vec![a, parameter("other"), b];
    let errors = command.check_options();
    assert_eq!(errors.len(), 1);
    match &errors[0] {
        CommandConsistencyError::OptionNameDuplicated { params, names, .. } => {
            assert_eq!(params.0.name, "a");
            assert_eq!(params.1.name, "x");
            assert_eq!(names, &vec!["x", "a"]);
        }
        _ => panic!("wrong error"),
    }
    // the same text for another locale is no conflict
    command.parameters[2].name = "b".to_string();
    command.parameters[2].name_localizations = pairs(&[("de", "y")]);
    assert!(command.check_options().is_empty());
}

#[test]
fn faults_of_single_options_are_listed() {
    let mut command = slash("ping");
    command.description = Some("x".repeat(101));
    let mut a = parameter("Bad");
    a.description = Some("".to_string());
    a.description_localizations = pairs(&[("de", "gut")]);
    a.choices = (0..26).map(|i| choice(&format!("c{i}"))).collect();
    a.choices[3] = choice("");
    a.choices[3].localizations = pairs(&[("de", "gut")]);
    command.parameters = vec![parameter("good"), a];
    let errors = command.check_options();
    assert_eq!(errors.len(), 1);
    let CommandConsistencyError::CommandOptionError { errs, .. } = &errors[0] else {
        panic!("wrong error");
    };
    assert_eq!(errs.len(), 4);
    assert!(matches!(
        &errs[0],
        CommandOptionError::NameNotCompliant { names, .. } if names == &vec!["Bad"]
    ));
    assert!(matches!(
        &errs[1],
        CommandOptionError::DescriptionNotCompliant { descriptions, .. }
            if descriptions == &vec![""]
    ));
    assert!(matches!(&errs[2], CommandOptionError::TooManyChoices { param } if param.name == "Bad"));
    let CommandOptionError::CommandOptionChoiceError { errs, .. } = &errs[3] else {
        panic!("wrong error");
    };
    assert_eq!(errs.len(), 1);
    let CommandOptionChoiceError::NameNotCompliant { choice, names } = &errs[0];
    assert_eq!(choice.name, "");
    assert_eq!(names, &vec![""]);
}

#[test]
fn slash_commands_are_counted() {
    let overrides = no_overrides();
    let many = |n: usize| CommandStorage::from((0..n).map(|i| slash(&format!("c{i}"))).collect::<Vec<_>>());
    assert!(many(100).check_top_level_consistency(false, &overrides).is_empty());
    let storage = many(101);
    let errors = storage.check_top_level_consistency(false, &overrides);
    assert_eq!(errors.len(), 1);
    assert!(matches!(errors[0], CommandStorageConsistencyError::TooManySlashCommands(100)));
    assert!(many(26).check_simple_consistency(1, false, None, &overrides).is_empty());
    assert!(many(25).check_simple_consistency(2, false, None, &overrides).is_empty());
    let storage = many(26);
    let errors = storage.check_simple_consistency(2, false, None, &overrides);
    assert_eq!(errors.len(), 1);
    assert!(matches!(errors[0], CommandStorageConsistencyError::TooManySlashCommands(25)));
}

#[test]
fn every_pair_of_commands_is_compared() {
    let overrides = no_overrides();
    let storage = CommandStorage::from(vec![slash("a"), slash("a"), slash("b"), slash("a")]);
    let errors = storage.check_simple_consistency(1, false, None, &overrides);
    assert_eq!(errors.len(), 3);
    for e in &errors {
        match e {
            CommandStorageConsistencyError::DuplicatedCommandIdentifier { cmds, identifiers } => {
                assert!(cmds.0 != cmds.1);
                assert_eq!(identifiers, &vec!["a"]);
            }
            _ => panic!("wrong error"),
        }
    }
}

#[test]
fn faults_of_commands_come_with_their_storage() {
    let overrides = no_overrides();
    let storage = CommandStorage::from(vec![slash("ok"), slash("Bad"), slash("ok")]);
    let errors = storage.check_simple_consistency(1, false, None, &overrides);
    assert_eq!(errors.len(), 2);
    assert!(matches!(
        errors[0],
        CommandStorageConsistencyError::DuplicatedCommandIdentifier { .. }
    ));
    match &errors[1] {
        CommandStorageConsistencyError::CommandConsistencyError(errors) => {
            assert_eq!(errors.len(), 1);
            assert!(matches!(errors[0], CommandConsistencyError::NameNotCompliant { .. }));
        }
        _ => panic!("wrong error"),
    }
}

fn context(name: &str, on_user: bool) -> Command<u32> {
    Command {
        context_menu_action: Some(if on_user {
            ContextMenuCommandAction::User(1)
        } else {
            ContextMenuCommandAction::Message(1)
        }),
        name: name.to_string(),
        ..Command::default()
    }
}

#[test]
fn context_menu_commands_are_counted_on_all_levels() {
    let overrides = no_overrides();
    let inner: Vec<Command<u32>> = (0..3).map(|i| context(&format!("i{i}"), true)).collect();
    let mut outer = vec![with_subcommands(context("a", true), inner), context("b", true)];
    outer.push(context("c", false));
    let storage = CommandStorage::from(outer);
    assert!(storage.check_top_level_consistency(false, &overrides).is_empty());
    let mut outer = storage.clone();
    outer.push(context("d", true));
    let errors = outer.check_top_level_consistency(false, &overrides);
    assert_eq!(errors.len(), 1);
    match &errors[0] {
        CommandStorageConsistencyError::TooManyContextCommands(cmds) => {
            let names: Vec<&str> = cmds.iter().map(|c| c.name.as_str()).collect();
            assert_eq!(names, vec!["a", "b", "d", "i0", "i1", "i2"]);
        }
        _ => panic!("wrong error"),
    }
}

#[test]
fn context_menu_commands_of_one_type_do_not_share_names() {
    let overrides = no_overrides();
    let nested = with_subcommands(context("a", true), vec![context("x", true), context("y", false)]);
    let storage = CommandStorage::from(vec![nested, context("x", true)]);
    let errors = storage.check_top_level_consistency(false, &overrides);
    assert_eq!(errors.len(), 1);
    match &errors[0] {
        CommandStorageConsistencyError::DuplicatedCommandIdentifier { identifiers, .. } => {
            assert_eq!(identifiers, &vec!["x"]);
        }
        _ => panic!("wrong error"),
    }
}

#[test]
fn context_commands_are_found_recursively() {
    let nested = with_subcommands(slash("a"), vec![context("u", true), context("m", false)]);
    let storage = CommandStorage::from(vec![nested, context("top", false)]);
    let (user, message) = storage.get_context_commands();
    assert_eq!(user.len(), 1);
    assert_eq!(user[0].name, "u");
    assert_eq!(message.len(), 2);
    assert_eq!(message[0].name, "top");
    assert_eq!(message[1].name, "m");
}
