use todo_list::category::{
    add_category, builtin_category, from_name, find_folded, parse_category, parse_category_folded,
    Category, RegisterError,
};

fn names(list: &[&str]) -> Vec<String> {
    list.iter().map(|s| s.to_string()).collect()
}

#[test]
fn builtins_parse_in_any_casing() {
    assert_eq!(parse_category("work", &[]), Ok(Category::Work));
    assert_eq!(parse_category("WORK", &[]), Ok(Category::Work));
    assert_eq!(parse_category("Personal", &[]), Ok(Category::Personal));
    assert_eq!(parse_category("sHoPpInG", &[]), Ok(Category::Shopping));
    assert_eq!(parse_category("HEALTH", &[]), Ok(Category::Health));
}

#[test]
fn custom_parse_keeps_registered_casing() {
    let cats = names(&["Errands", "Garden"]);
    assert_eq!(parse_category("errands", &cats), Ok(Category::Custom("Errands".to_string())));
    assert_eq!(parse_category("GARDEN", &cats), Ok(Category::Custom("Garden".to_string())));
}

#[test]
fn unknown_category_is_an_error() {
    let cats = names(&["Errands"]);
    assert_eq!(parse_category("Chores", &cats), Err("Unknown category: Chores".to_string()));
    assert_eq!(parse_category("", &[]), Err("Unknown category: ".to_string()));
}

#[test]
fn builtin_category_takes_lowercase_names() {
    assert_eq!(builtin_category("work"), Some(Category::Work));
    assert_eq!(builtin_category("health"), Some(Category::Health));
    assert_eq!(builtin_category("Work"), None);
    assert_eq!(builtin_category("errands"), None);
}

#[test]
fn find_folded_gives_first_position() {
    let folded = names(&["a", "b", "b"]);
    assert_eq!(find_folded("b", &folded), Some(1));
    assert_eq!(find_folded("a", &folded), Some(0));
    assert_eq!(find_folded("c", &folded), None);
    assert_eq!(find_folded("a", &[]), None);
}

#[test]
fn parse_folded_uses_given_forms() {
    let custom = names(&["Errands"]);
    let folded = names(&["errands"]);
    assert_eq!(
        parse_category_folded("ERRANDS", "errands", &custom, &folded),
        Ok(Category::Custom("Errands".to_string()))
    );
    assert_eq!(parse_category_folded("Work", "work", &custom, &folded), Ok(Category::Work));
    assert_eq!(
        parse_category_folded("Gym", "gym", &custom, &folded),
        Err("Unknown category: Gym".to_string())
    );
}

#[test]
fn builtin_names_are_refused_in_any_casing() {
    for name in ["work", "WORK", "Work", "wOrK"] {
        let mut cats = names(&["Errands", "work2"]);
        assert_eq!(add_category(&mut cats, name.to_string()), Err(RegisterError::BuiltIn));
        assert_eq!(cats, names(&["Errands", "work2"]));
    }
    let mut empty: Vec<String> = Vec::new();
    assert_eq!(add_category(&mut empty, "Health".to_string()), Err(RegisterError::BuiltIn));
    assert!(empty.is_empty());
}

#[test]
fn duplicate_names_are_refused_ignoring_case() {
    let mut cats = names(&["Errands"]);
    assert_eq!(add_category(&mut cats, "ERRANDS".to_string()), Err(RegisterError::Duplicate));
    assert_eq!(cats, names(&["Errands"]));
}

#[test]
fn registered_name_resolves_in_stored_casing() {
    let mut cats: Vec<String> = Vec::new();
    assert_eq!(add_category(&mut cats, "Errands".to_string()), Ok(()));
    assert_eq!(cats, names(&["Errands"]));
    let c = parse_category("errands", &cats).unwrap();
    assert_eq!(c.name(), "Errands");
}

#[test]
fn category_display_names() {
    assert_eq!(Category::Work.name(), "work");
    assert_eq!(Category::Personal.name(), "personal");
    assert_eq!(Category::Shopping.name(), "shopping");
    assert_eq!(Category::Health.name(), "health");
    assert_eq!(Category::Custom("Garden".to_string()).name(), "Garden");
    let c = Category::Custom("X".to_string());
    assert_eq!(c.duplicate(), c);
}

#[test]
fn register_error_messages() {
    assert_eq!(RegisterError::BuiltIn.message("Work"), "'Work' is a built-in category.");
    assert_eq!(RegisterError::Duplicate.message("Errands"), "Category 'Errands' already exists.");
}

#[test]
fn stored_names_read_back() {
    assert_eq!(from_name("work".to_string()), Category::Work);
    assert_eq!(from_name("health".to_string()), Category::Health);
    assert_eq!(from_name("Errands".to_string()), Category::Custom("Errands".to_string()));
    assert_eq!(from_name("Work".to_string()), Category::Custom("Work".to_string()));
    for c in [
        Category::Work,
        Category::Personal,
        Category::Shopping,
        Category::Health,
        Category::Custom("Errands".to_string()),
    ] {
        assert_eq!(from_name(c.name()), c);
    }
}
