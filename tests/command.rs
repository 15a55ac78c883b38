use todo_list::command::{join_from, parse_command, Command, UsageError};

fn args(list: &[&str]) -> Vec<String> {
    list.iter().map(|s| s.to_string()).collect()
}

#[test]
fn add_joins_remaining_words() {
    assert_eq!(
        parse_command(&args(&["add", "buy", "milk"])),
        Ok(Command::Add { category: None, text: "buy milk".to_string() })
    );
    assert_eq!(
        parse_command(&args(&["add", "--cat", "errands", "buy", "milk"])),
        Ok(Command::Add { category: Some("errands".to_string()), text: "buy milk".to_string() })
    );
}

#[test]
fn add_usage_errors() {
    assert_eq!(parse_command(&args(&["add"])), Err(UsageError::AddText));
    assert_eq!(parse_command(&args(&["add", "--cat", "work"])), Err(UsageError::AddCategory));
}

#[test]
fn simple_commands() {
    assert_eq!(parse_command(&args(&["list"])), Ok(Command::List));
    assert_eq!(parse_command(&args(&["list", "extra"])), Ok(Command::List));
    assert_eq!(parse_command(&args(&["category", "list"])), Ok(Command::CategoryList));
    assert_eq!(
        parse_command(&args(&["category", "add", "Errands"])),
        Ok(Command::CategoryAdd("Errands".to_string()))
    );
}

#[test]
fn identifiers_are_parsed() {
    assert_eq!(parse_command(&args(&["done", "12"])), Ok(Command::Done(12)));
    assert_eq!(parse_command(&args(&["remove", "+3"])), Ok(Command::Remove(3)));
    assert_eq!(parse_command(&args(&["done", "4294967295"])), Ok(Command::Done(4294967295)));
    assert_eq!(
        parse_command(&args(&["done", "4294967296"])),
        Err(UsageError::InvalidId("4294967296".to_string()))
    );
    assert_eq!(parse_command(&args(&["remove", "-1"])), Err(UsageError::InvalidId("-1".to_string())));
    assert_eq!(parse_command(&args(&["done", "x"])), Err(UsageError::InvalidId("x".to_string())));
    assert_eq!(parse_command(&args(&["done"])), Err(UsageError::DoneId));
    assert_eq!(parse_command(&args(&["remove"])), Err(UsageError::RemoveId));
}

#[test]
fn unknown_and_missing_commands() {
    assert_eq!(parse_command(&[]), Err(UsageError::Missing));
    assert_eq!(parse_command(&args(&["edit"])), Err(UsageError::UnknownCommand("edit".to_string())));
    assert_eq!(parse_command(&args(&["category"])), Err(UsageError::CategorySub));
    assert_eq!(parse_command(&args(&["category", "add"])), Err(UsageError::CategoryName));
    assert_eq!(
        parse_command(&args(&["category", "drop"])),
        Err(UsageError::UnknownSubcommand("drop".to_string()))
    );
}

#[test]
fn usage_messages() {
    assert_eq!(UsageError::InvalidId("x".to_string()).message(), "Invalid id: x");
    assert_eq!(UsageError::UnknownCommand("edit".to_string()).message(), "Unknown command: edit");
    assert_eq!(
        UsageError::UnknownSubcommand("drop".to_string()).message(),
        "Unknown subcommand: category drop"
    );
    assert_eq!(UsageError::DoneId.message(), "Usage: todo done <id>");
}

#[test]
fn join_from_separates_by_single_spaces() {
    let a = args(&["add", "a", "b", "c"]);
    assert_eq!(join_from(&a, 1), "a b c");
    assert_eq!(join_from(&a, 3), "c");
    assert_eq!(join_from(&a, 4), "");
}
