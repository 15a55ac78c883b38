use todo_list::paths::{categories_path, todos_path};

#[test]
fn files_live_under_home() {
    assert_eq!(todos_path("/home/ann"), "/home/ann/.todos.json");
    assert_eq!(categories_path("/home/ann"), "/home/ann/.todo_categories.json");
    assert_eq!(todos_path("."), "./.todos.json");
    assert_eq!(todos_path("/root/"), "/root/.todos.json");
    assert_eq!(categories_path(""), ".todo_categories.json");
}
