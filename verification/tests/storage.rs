use poise_commands::structs::command::{Command, CommandParameter, CommandParameterChoice};
use poise_commands::structs::command_storage::CommandStorage;
use poise_commands::structs::updateable::{
    SwapCell, UpdateableArcSwap, UpdateableArcSwapArc, UpdateableCommandStorage,
    UpdateableCommandStorageArc,
};
use serenity::builder::CreateCommandOption;
use serenity::model::application::CommandOptionType;
use std::sync::Arc;

fn command(name: &str) -> Command<u32> {
    Command {
        name: name.to_string(),
        qualified_name: name.to_string(),
        ..Command::default()
    }
}

fn tree() -> CommandStorage<u32> {
    let mut b = command("b");
    b.subcommands = CommandStorage::from(vec![command("c"), command("d")]);
    let mut a = command("a");
    a.subcommands = CommandStorage::from(vec![b]);
    CommandStorage::from(vec![a, command("e")])
}

#[test]
fn qualified_names_are_paths() {
    let mut storage = tree();
    storage.set_qualified_names(None);
    assert_eq!(storage[0].qualified_name, "a");
    assert_eq!(storage[0].subcommands[0].qualified_name, "a b");
    assert_eq!(storage[0].subcommands[0].subcommands[0].qualified_name, "a b c");
    assert_eq!(storage[0].subcommands[0].subcommands[1].qualified_name, "a b d");
    assert_eq!(storage[1].qualified_name, "e");
    assert_eq!(storage[0].name, "a");
    storage.set_qualified_names(None);
    assert_eq!(storage[0].subcommands[0].subcommands[0].qualified_name, "a b c");
}

#[test]
fn qualified_names_start_with_the_parent() {
    let mut storage = tree();
    storage.set_qualified_names(Some(&"root".to_string()));
    assert_eq!(storage[0].qualified_name, "root a");
    assert_eq!(storage[0].subcommands[0].qualified_name, "root a b");
    let mut single = command("x");
    single.qualified_name = "given".to_string();
    single.subcommands = CommandStorage::from(vec![command("y")]);
    single.set_qualified_names_recursively(&None);
    assert_eq!(single.qualified_name, "given");
    assert_eq!(single.subcommands[0].qualified_name, "given y");
}

#[test]
fn copies_have_the_same_content() {
    let mut first = command("a");
    first.slash_action = Some(7);
    first.aliases = vec!["x".to_string()];
    first.checks = vec![1, 2];
    first.custom_data = Some(11);
    first.cooldowns = Some(12);
    first.cooldown_config = Some(13);
    first.parameters = vec![CommandParameter {
        name: "p".to_string(),
        name_localizations: vec![("de".to_string(), "q".to_string())],
        description: Some("d".to_string()),
        description_localizations: vec![],
        choices: vec![CommandParameterChoice { name: "c".to_string(), localizations: vec![] }],
        autocomplete_callback: Some(9),
        slash_option: Some(CreateCommandOption::new(CommandOptionType::String, "p", "d")),
    }];
    first.subcommands = tree();
    let copy = first.clone();
    assert_eq!(copy.name, "a");
    assert_eq!(copy.slash_action, Some(7));
    assert_eq!(copy.aliases, vec!["x"]);
    assert_eq!(copy.checks, vec![1, 2]);
    assert_eq!(copy.custom_data, Some(11));
    assert_eq!(copy.cooldowns, Some(12));
    assert_eq!(copy.cooldown_config, Some(13));
    assert_eq!(copy.parameters[0].name_localizations[0].1, "q");
    assert_eq!(copy.parameters[0].choices[0].name, "c");
    assert_eq!(copy.parameters[0].autocomplete_callback, Some(9));
    let option = copy.parameters[0].create_as_slash_command_option().unwrap();
    assert_eq!(serde_json::to_value(option).unwrap()["name"], "p");
    assert_eq!(copy.subcommands[0].subcommands[0].subcommands[1].name, "d");
}

#[test]
fn a_command_equals_itself_only() {
    let a = command("a");
    let b = a.clone();
    assert!(a == a);
    assert!(a != b);
}

#[test]
fn default_command_is_empty() {
    let c: Command<u32> = Command::default();
    assert_eq!(c.name, "");
    assert!(c.slash_action.is_none());
    assert!(c.subcommands.is_empty());
    assert!(!c.guild_only);
    assert_eq!(c.default_member_permissions, 0);
    assert!(CommandStorage::<u32>::new_empty().is_empty());
    assert_eq!(CommandStorage::<u32>::new_empty().capacity(), 0);
    assert!(CommandStorage::<u32>::default().is_empty());
}

#[test]
fn storage_is_a_list() {
    let mut storage = tree();
    assert_eq!(storage.len(), 2);
    storage.push(command("f"));
    assert_eq!(storage[2].name, "f");
}

#[test]
fn stored_data_can_be_replaced() {
    let cell: UpdateableArcSwap<Vec<u32>> = UpdateableArcSwap::from(vec![1]);
    let before = cell.deref_owned();
    cell.store(vec![2, 3]);
    assert_eq!(*before, vec![1]);
    assert_eq!(*cell.deref_owned(), vec![2, 3]);
    let lock = cell.write_mutex().try_lock().unwrap();
    assert!(cell.write_mutex().try_lock().is_err());
    let mut data = (*cell.deref_owned()).clone();
    data.push(4);
    cell.update(lock, data);
    assert_eq!(*cell.deref_owned(), vec![2, 3, 4]);
    assert!(cell.write_mutex().try_lock().is_ok());
    cell.get_raw_arc().store(Arc::new(vec![5]));
    assert_eq!(*cell.get_raw_arc().load_full(), vec![5]);
    assert_eq!(*cell.deref_owned(), vec![5]);
    let empty: UpdateableArcSwap<Vec<u32>> = UpdateableArcSwap::default();
    assert!(empty.deref_owned().is_empty());
}

#[test]
fn place_starts_out_with_its_value() {
    let value = Arc::new(1u32);
    let cell = SwapCell::new(value.clone());
    assert!(Arc::ptr_eq(&cell.load_full(), &value));
    cell.store(Arc::new(2));
    assert_eq!(*cell.load_full(), 2);
    assert_eq!(*value, 1);
}

#[test]
fn shared_storage_can_be_made_from_commands() {
    let shared: UpdateableCommandStorageArc<u32> =
        UpdateableArcSwapArc::from(vec![command("a"), command("b")]);
    assert_eq!(shared.deref_owned().len(), 2);
    let other = UpdateableArcSwapArc(shared.0.clone());
    other.store(CommandStorage::new_empty());
    assert!(shared.deref_owned().is_empty());
    let plain: UpdateableCommandStorage<u32> = UpdateableArcSwap::from(tree());
    let wrapped: UpdateableCommandStorageArc<u32> = UpdateableArcSwapArc::from(plain);
    assert_eq!(wrapped.deref_owned()[1].name, "e");
    let direct: UpdateableArcSwapArc<u32> = UpdateableArcSwapArc::from(5u32);
    assert_eq!(*direct.deref_owned(), 5);
}
