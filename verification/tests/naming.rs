use poise_commands::names::{check_context_menu_name, check_name, judge_name};
use poise_commands::string_map::StringMap;
use poise_commands::structs::command::{Command, ContextMenuCommandAction};
use poise_commands::structs::command_override::CommandOverride;
use poise_commands::structs::command_storage::CommandStorage;
use poise_commands::structs::errors::CommandStorageConsistencyError;
use poise_commands::text::{eq_ignore_ascii_case, text_equal};

fn prefix(name: &str) -> Command<u32> {
    Command {
        prefix_action: Some(1),
        name: name.to_string(),
        ..Command::default()
    }
}

fn slash(name: &str) -> Command<u32> {
    Command {
        slash_action: Some(2),
        name: name.to_string(),
        ..Command::default()
    }
}

fn context(name: &str, menu_name: Option<&str>) -> Command<u32> {
    Command {
        context_menu_action: Some(ContextMenuCommandAction::User(3)),
        name: name.to_string(),
        context_menu_name: menu_name.map(|s| s.to_string()),
        ..Command::default()
    }
}

fn pairs(v: &[(&str, &str)]) -> Vec<(String, String)> {
    v.iter().map(|(a, b)| (a.to_string(), b.to_string())).collect()
}

fn no_overrides() -> StringMap<CommandOverride> {
    StringMap::new()
}

#[test]
fn ascii_case_is_ignored_only_for_ascii() {
    let s = |x: &str| x.to_string();
    assert!(eq_ignore_ascii_case(&s("Ping"), &s("pING")));
    assert!(!eq_ignore_ascii_case(&s("\u{c4}"), &s("\u{e4}")));
    assert!(!eq_ignore_ascii_case(&s("ping"), &s("pings")));
    assert!(!eq_ignore_ascii_case(&s("["), &s("{")));
    assert!(text_equal(&s("A"), &s("a"), true));
    assert!(!text_equal(&s("A"), &s("a"), false));
    assert!(text_equal(&s("A"), &s("A"), false));
}

#[test]
fn slash_names_are_lower_case() {
    let s = |x: &str| x.to_string();
    assert!(check_name(&s("ping"), false));
    assert!(check_name(&s("ping-2_x"), false));
    assert!(check_name(&s("\u{e4}pfel"), false));
    assert!(check_name(&s("\u{e01}\u{e34}\u{e19}"), false));
    assert!(!check_name(&s("Ping"), false));
    assert!(!check_name(&s("\u{c4}pfel"), false));
    assert!(!check_name(&s(""), false));
    assert!(!check_name(&s("two words"), false));
    assert!(!check_name(&s("ping!"), false));
    assert!(check_name(&"a".repeat(32), false));
    assert!(!check_name(&"a".repeat(33), false));
}

#[test]
fn mixed_case_can_be_allowed() {
    let s = |x: &str| x.to_string();
    assert!(check_name(&s("Ping"), true));
    assert!(!check_name(&s("Two Words"), true));
    assert!(check_context_menu_name(&s("Ping")));
    assert!(check_context_menu_name(&s("Two Words")));
    assert!(!check_context_menu_name(&s("")));
    assert!(!check_context_menu_name(&s("What?")));
    assert!(!check_context_menu_name(&"a".repeat(33)));
}

#[test]
fn names_are_judged_by_match_and_case() {
    let s = |x: &str| x.to_string();
    assert!(judge_name(true, &s("ping"), &s("ping"), false));
    assert!(!judge_name(true, &s("ping"), &s("Ping"), false));
    assert!(judge_name(true, &s("ping"), &s("Ping"), true));
    assert!(!judge_name(false, &s("ping"), &s("ping"), true));
}

#[test]
fn same_names_collide() {
    let overrides = no_overrides();
    assert_eq!(prefix("a").check_naming_collision(&prefix("a"), false, &overrides), vec!["a"]);
    assert_eq!(slash("a").check_naming_collision(&slash("a"), false, &overrides), vec!["a"]);
    assert!(prefix("a").check_naming_collision(&prefix("b"), false, &overrides).is_empty());
    assert!(prefix("a").check_naming_collision(&slash("a"), false, &overrides).is_empty());
}

#[test]
fn case_matters_unless_told_otherwise() {
    let overrides = no_overrides();
    assert!(prefix("Ping").check_naming_collision(&prefix("ping"), false, &overrides).is_empty());
    assert_eq!(
        prefix("Ping").check_naming_collision(&prefix("ping"), true, &overrides),
        vec!["Ping"]
    );
}

#[test]
fn case_of_application_command_names_always_matters() {
    let overrides = no_overrides();
    let report = context("a", Some("Report"));
    let other = context("b", Some("report"));
    assert!(report.check_naming_collision(&other, true, &overrides).is_empty());
    assert!(slash("Ping").check_naming_collision(&slash("ping"), true, &overrides).is_empty());
    let mut upper = slash("x");
    upper.name_localizations = pairs(&[("de", "Hallo")]);
    let mut lower = slash("y");
    lower.name_localizations = pairs(&[("de", "hallo")]);
    assert!(upper.check_naming_collision(&lower, true, &overrides).is_empty());
    upper.prefix_action = Some(1);
    lower.prefix_action = Some(1);
    assert_eq!(upper.check_naming_collision(&lower, true, &overrides), vec!["Hallo"]);
    assert!(upper.check_naming_collision(&lower, false, &overrides).is_empty());
}

#[test]
fn context_menus_of_users_and_messages_are_apart() {
    let overrides = no_overrides();
    let user = context("same", None);
    let mut message = context("same", None);
    message.context_menu_action = Some(ContextMenuCommandAction::Message(4));
    assert!(user.check_naming_collision(&message, false, &overrides).is_empty());
    assert_eq!(
        message.check_naming_collision(&message.clone(), false, &overrides),
        vec!["same"]
    );
    let storage = CommandStorage::from(vec![user, message]);
    assert!(storage.check_top_level_consistency(false, &overrides).is_empty());
}

#[test]
fn localized_names_of_context_menu_commands_collide() {
    let overrides = no_overrides();
    let mut a = context("a", None);
    a.name_localizations = pairs(&[("de", "Melden"), ("fr", "Signaler")]);
    let mut b = context("b", None);
    b.name_localizations = pairs(&[("de", "Melden"), ("fr", "signaler")]);
    assert_eq!(a.check_naming_collision(&b, true, &overrides), vec!["Melden"]);
    b.context_menu_action = Some(ContextMenuCommandAction::Message(4));
    assert!(a.check_naming_collision(&b, true, &overrides).is_empty());
    // each name is listed once, also if the commands share another type
    b.context_menu_action = a.context_menu_action;
    a.slash_action = Some(2);
    b.slash_action = Some(2);
    assert_eq!(a.check_naming_collision(&b, true, &overrides), vec!["Melden"]);
}

#[test]
fn localized_names_collide_for_the_same_locale() {
    let overrides = no_overrides();
    let mut a = slash("a");
    a.name_localizations = pairs(&[("de", "hallo"), ("fr", "salut")]);
    let mut b = slash("b");
    b.name_localizations = pairs(&[("fr", "hallo"), ("de", "hallo")]);
    assert_eq!(a.check_naming_collision(&b, false, &overrides), vec!["hallo"]);
    b.name_localizations = pairs(&[("fr", "hallo")]);
    assert!(a.check_naming_collision(&b, false, &overrides).is_empty());
}

#[test]
fn aliases_collide_for_prefix_commands() {
    let overrides = no_overrides();
    let mut a = prefix("a");
    a.aliases = vec!["x".to_string(), "y".to_string()];
    let mut b = prefix("b");
    b.aliases = vec!["y".to_string(), "z".to_string()];
    assert_eq!(a.check_naming_collision(&b, false, &overrides), vec!["y"]);
    assert_eq!(b.check_naming_collision(&a, false, &overrides), vec!["y"]);
    a.prefix_action = None;
    a.slash_action = Some(2);
    b.slash_action = Some(2);
    assert!(a.check_naming_collision(&b, false, &overrides).is_empty());
}

#[test]
fn context_menu_names_collide() {
    let overrides = no_overrides();
    let a = context("a", Some("Show"));
    let b = context("Show", None);
    assert_eq!(a.check_naming_collision(&b, false, &overrides), vec!["Show"]);
    assert_eq!(b.check_naming_collision(&a, false, &overrides), vec!["Show"]);
    assert!(a.check_naming_collision(&context("a", None), false, &overrides).is_empty());
    assert_eq!(a.context_name(), "Show");
    assert_eq!(b.context_name(), "Show");
}

#[test]
fn disabled_commands_do_not_collide() {
    let mut overrides = no_overrides();
    overrides.insert(
        "id".to_string(),
        CommandOverride { group_disabled: true, ..CommandOverride::default() },
    );
    let mut a = prefix("a");
    a.command_id = Some("id".to_string());
    assert!(a.check_naming_collision(&prefix("a"), false, &overrides).is_empty());
    assert!(prefix("a").check_naming_collision(&a, false, &overrides).is_empty());
    a.command_id = Some("other".to_string());
    assert_eq!(a.check_naming_collision(&prefix("a"), false, &overrides), vec!["a"]);
}

#[test]
fn overrides_add_and_remove_aliases() {
    let mut changed = CommandOverride::default();
    changed.changed_aliases.insert("x".to_string(), false);
    changed.changed_aliases.insert("new".to_string(), true);
    let mut overrides = no_overrides();
    overrides.insert("id".to_string(), changed);
    let mut a = prefix("a");
    a.command_id = Some("id".to_string());
    a.aliases = vec!["x".to_string(), "y".to_string()];
    let mut b = prefix("b");
    b.aliases = vec!["x".to_string(), "y".to_string(), "new".to_string()];
    assert_eq!(a.check_naming_collision(&b, false, &overrides), vec!["y", "new"]);
    assert_eq!(b.check_naming_collision(&a, false, &overrides), vec!["y", "new"]);
}

#[test]
fn storages_are_compared_with_each_other() {
    let overrides = no_overrides();
    let mut a = prefix("a");
    a.aliases = vec!["x".to_string()];
    let s = CommandStorage::from(vec![a, slash("c")]);
    let mut b = prefix("b");
    b.aliases = vec!["X".to_string()];
    let t = CommandStorage::from(vec![slash("c"), b, prefix("a")]);
    let errors = s.check_collision_with_other(&t, true, &overrides);
    assert_eq!(errors.len(), 2);
    match &errors[0] {
        CommandStorageConsistencyError::DuplicatedCommandIdentifier { cmds, identifiers } => {
            assert_eq!(cmds.0.name, "a");
            assert_eq!(cmds.1.name, "b");
            assert_eq!(identifiers, &vec!["x".to_string()]);
        }
        _ => panic!("wrong error"),
    }
    match &errors[1] {
        CommandStorageConsistencyError::DuplicatedCommandIdentifier { cmds, identifiers } => {
            assert_eq!(cmds.1.name, "a");
            assert_eq!(identifiers, &vec!["a".to_string()]);
        }
        _ => panic!("wrong error"),
    }
    assert_eq!(t.check_collision_with_other(&s, true, &overrides).len(), 2);
    assert_eq!(s.check_collision_with_other(&t, false, &overrides).len(), 1);
}

#[test]
fn string_map_keeps_places_and_values() {
    let mut map: StringMap<u32> = StringMap::default();
    assert_eq!(map.len(), 0);
    map.insert("a".to_string(), 1);
    map.insert("b".to_string(), 2);
    map.insert("a".to_string(), 3);
    assert_eq!(map.len(), 2);
    assert_eq!(map.get(&"a".to_string()), Some(&3));
    assert_eq!(map.get(&"b".to_string()), Some(&2));
    assert_eq!(map.get(&"c".to_string()), None);
    assert_eq!(map.entry(0), (&"a".to_string(), &3));
    assert_eq!(map.clone().entry(1), (&"b".to_string(), &2));
}
