use todo_list::category::Category;
use todo_list::render::{
    added_message, category_added_message, category_list_lines, done_message, list_lines,
    not_found_message, removed_message, todo_line,
};
use todo_list::todo::Todo;

fn todo(id: u32, text: &str, done: bool, category: Option<Category>) -> Todo {
    Todo { id, text: text.to_string(), done, category }
}

#[test]
fn line_shows_mark_id_tag_and_text() {
    assert_eq!(todo_line(&todo(1, "buy milk", false, None)), "[ ] #1: buy milk");
    assert_eq!(todo_line(&todo(12, "run", true, Some(Category::Health))), "[x] #12 [health]: run");
    assert_eq!(
        todo_line(&todo(305, "weed", false, Some(Category::Custom("Garden".to_string())))),
        "[ ] #305 [Garden]: weed"
    );
    assert_eq!(todo_line(&todo(4294967295, "", true, None)), "[x] #4294967295: ");
}

#[test]
fn empty_listing_says_no_todos() {
    assert_eq!(list_lines(&[]), vec!["No todos.".to_string()]);
}

#[test]
fn listing_keeps_stored_order() {
    let todos = vec![todo(2, "b", false, None), todo(1, "a", true, Some(Category::Work))];
    assert_eq!(list_lines(&todos), vec!["[ ] #2: b".to_string(), "[x] #1 [work]: a".to_string()]);
}

#[test]
fn messages_name_the_identifier() {
    assert_eq!(added_message(7, "call mom", &None), "Added todo #7: call mom");
    assert_eq!(
        added_message(10, "milk", &Some(Category::Shopping)),
        "Added todo #10 [shopping]: milk"
    );
    assert_eq!(done_message(3), "Marked #3 as done.");
    assert_eq!(removed_message(40), "Removed #40.");
    assert_eq!(not_found_message(0), "Todo #0 not found.");
    assert_eq!(category_added_message("Errands"), "Added category: Errands");
}

#[test]
fn category_listing_without_custom() {
    let lines = category_list_lines(&[]);
    assert_eq!(lines, vec!["Built-in:", "  work", "  personal", "  shopping", "  health"]);
}

#[test]
fn category_listing_with_custom() {
    let cats = vec!["Errands".to_string(), "Garden".to_string()];
    let lines = category_list_lines(&cats);
    assert_eq!(
        lines,
        vec![
            "Built-in:", "  work", "  personal", "  shopping", "  health", "Custom:", "  Errands",
            "  Garden"
        ]
    );
}
