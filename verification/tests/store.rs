use rust_todo::location::PointerFile;
use rust_todo::manager::{Save, TodoManager};
use rust_todo::todo::{Todo, TodoCollection};

fn manager_at(path: &str) -> TodoManager {
    let mut pointer = PointerFile::new(String::new());
    TodoManager::with_path(&mut pointer, &path.to_string())
}

fn todo(name: &str, done: bool, important: bool) -> Todo {
    Todo { name: name.to_string(), done, important }
}

fn collection(todos: Vec<Todo>) -> TodoCollection {
    TodoCollection { todos }
}

#[test]
fn add_to_empty_file_then_list_shows_one_line() {
    let mut manager = manager_at("/data/todos.json");
    let save = manager.add_todo(None, "buy milk".to_string());
    assert_eq!(save.todos.todos, vec![todo("buy milk", false, false)]);
    let lines = manager.list_todos(Some(save.todos));
    assert_eq!(lines, vec!["name: \"buy milk\" is_done: false is_important: false".to_string()]);
}

#[test]
fn add_two_remove_first_lists_the_second() {
    let mut manager = manager_at("/data/todos.json");
    let first = manager.add_todo(None, "a".to_string());
    let second = manager.add_todo(Some(first.todos), "b".to_string());
    let third = manager.remove_todo(Some(second.todos), "a".to_string()).unwrap();
    assert_eq!(third.todos.todos, vec![todo("b", false, false)]);
    let lines = manager.list_todos(Some(third.todos));
    assert_eq!(lines, vec!["name: \"b\" is_done: false is_important: false".to_string()]);
}

#[test]
fn add_then_mark_done_and_important_sets_both_flags() {
    let mut manager = manager_at("/data/todos.json");
    let added = manager.add_todo(None, "x".to_string());
    let done = manager.mark_done_todo(Some(added.todos), "x".to_string()).unwrap();
    assert_eq!(done.todos.todos, vec![todo("x", true, false)]);
    let important = manager.mark_important_todo(Some(done.todos), "x".to_string()).unwrap();
    assert_eq!(important.todos.todos, vec![todo("x", true, true)]);
    let lines = manager.list_todos(Some(important.todos));
    assert_eq!(lines, vec!["name: \"x\" is_done: true is_important: true".to_string()]);
}

#[test]
fn remove_of_unknown_name_on_empty_collection_saves_nothing() {
    let mut manager = manager_at("/data/todos.json");
    assert_eq!(manager.remove_todo(None, "nonexistent".to_string()), None);
    assert_eq!(manager.remove_todo(Some(collection(vec![])), "nonexistent".to_string()), None);
    assert_eq!(TodoCollection::load(None).todos, vec![]);
}

#[test]
fn add_after_change_of_path_is_saved_at_the_new_path() {
    let mut pointer = PointerFile::new(String::new());
    let mut manager = TodoManager::with_path(&mut pointer, &"/old/todos.json".to_string());
    let before = manager.add_todo(None, "kept".to_string());
    assert_eq!(before.path, "/old/todos.json");
    manager.change_dir(&mut pointer, "/new/todos.json".to_string());
    assert_eq!(manager.path(), "/new/todos.json");
    assert_eq!(pointer.contents, "/new/todos.json");
    let after = manager.add_todo(None, "moved".to_string());
    assert_eq!(
        after,
        Save { path: "/new/todos.json".to_string(), todos: collection(vec![todo("moved", false, false)]) }
    );
}

#[test]
fn add_appends_after_the_existing_entries() {
    let mut manager = manager_at("/data/todos.json");
    let stored = collection(vec![todo("z", true, false), todo("a", false, true)]);
    let save = manager.add_todo(Some(stored), "m".to_string());
    assert_eq!(save.path, "/data/todos.json");
    assert_eq!(
        save.todos.todos,
        vec![todo("z", true, false), todo("a", false, true), todo("m", false, false)]
    );
}

#[test]
fn add_keeps_a_name_that_is_already_there() {
    let mut manager = manager_at("/data/todos.json");
    let stored = collection(vec![todo("a", true, true)]);
    let save = manager.add_todo(Some(stored), "a".to_string());
    assert_eq!(save.todos.todos, vec![todo("a", true, true), todo("a", false, false)]);
}

#[test]
fn marking_done_twice_changes_nothing_more() {
    let mut manager = manager_at("/data/todos.json");
    let stored = collection(vec![todo("a", false, false), todo("b", false, true)]);
    let once = manager.mark_done_todo(Some(stored), "b".to_string()).unwrap();
    assert_eq!(once.todos.todos, vec![todo("a", false, false), todo("b", true, true)]);
    let twice = manager.mark_done_todo(Some(once.todos.clone()), "b".to_string()).unwrap();
    assert_eq!(twice, once);
}

#[test]
fn marking_important_twice_changes_nothing_more() {
    let mut manager = manager_at("/data/todos.json");
    let stored = collection(vec![todo("a", true, false)]);
    let once = manager.mark_important_todo(Some(stored), "a".to_string()).unwrap();
    assert_eq!(once.todos.todos, vec![todo("a", true, true)]);
    let twice = manager.mark_important_todo(Some(once.todos.clone()), "a".to_string()).unwrap();
    assert_eq!(twice, once);
}

#[test]
fn unknown_name_saves_nothing_and_leaves_the_collection() {
    let mut manager = manager_at("/data/todos.json");
    let stored = collection(vec![todo("a", false, false), todo("b", true, false)]);
    assert_eq!(manager.remove_todo(Some(stored.clone()), "c".to_string()), None);
    assert_eq!(manager.mark_done_todo(Some(stored.clone()), "c".to_string()), None);
    assert_eq!(manager.mark_important_todo(Some(stored.clone()), "c".to_string()), None);
    let mut same = stored.clone();
    assert!(!same.remove(&"c".to_string()));
    assert!(!same.mark_done(&"c".to_string()));
    assert!(!same.mark_important(&"c".to_string()));
    assert_eq!(same, stored);
}

#[test]
fn names_are_matched_exactly() {
    let mut manager = manager_at("/data/todos.json");
    let stored = collection(vec![todo("Task", false, false)]);
    assert_eq!(manager.remove_todo(Some(stored.clone()), "task".to_string()), None);
    assert_eq!(manager.remove_todo(Some(stored.clone()), "Task ".to_string()), None);
    assert_eq!(manager.remove_todo(Some(stored.clone()), "".to_string()), None);
    let removed = manager.remove_todo(Some(stored), "Task".to_string()).unwrap();
    assert_eq!(removed.todos.todos, vec![]);
}

#[test]
fn duplicate_names_first_match_wins() {
    let mut manager = manager_at("/data/todos.json");
    let stored = collection(vec![
        todo("other", false, false),
        todo("dup", false, false),
        todo("dup", false, true),
    ]);
    assert_eq!(stored.position(&"dup".to_string()), Some(1));
    assert_eq!(stored.position(&"none".to_string()), None);
    let done = manager.mark_done_todo(Some(stored.clone()), "dup".to_string()).unwrap();
    assert_eq!(
        done.todos.todos,
        vec![todo("other", false, false), todo("dup", true, false), todo("dup", false, true)]
    );
    let important = manager.mark_important_todo(Some(stored.clone()), "dup".to_string()).unwrap();
    assert_eq!(
        important.todos.todos,
        vec![todo("other", false, false), todo("dup", false, true), todo("dup", false, true)]
    );
    let removed = manager.remove_todo(Some(stored), "dup".to_string()).unwrap();
    assert_eq!(removed.todos.todos, vec![todo("other", false, false), todo("dup", false, true)]);
}

#[test]
fn unparsed_file_behaves_as_empty_collection() {
    let mut manager = manager_at("/data/todos.json");
    assert_eq!(TodoCollection::load(None), TodoCollection::new());
    assert_eq!(TodoCollection::new().todos, vec![]);
    let from_nothing = manager.add_todo(None, "t".to_string());
    let from_empty = manager.add_todo(Some(collection(vec![])), "t".to_string());
    assert_eq!(from_nothing, from_empty);
    assert_eq!(manager.mark_done_todo(None, "t".to_string()), None);
    assert_eq!(manager.mark_important_todo(None, "t".to_string()), None);
}

#[test]
fn loading_what_was_saved_gives_it_back() {
    let mut manager = manager_at("/data/todos.json");
    let stored = collection(vec![todo("b", true, false), todo("a", false, true)]);
    let save = manager.add_todo(Some(stored), "c".to_string());
    let reloaded = TodoCollection::load(Some(save.todos.clone()));
    assert_eq!(reloaded, save.todos);
    assert_eq!(
        reloaded.todos,
        vec![todo("b", true, false), todo("a", false, true), todo("c", false, false)]
    );
}

#[test]
fn listing_of_unparsed_file_is_the_notice() {
    let mut manager = manager_at("/data/todos.json");
    assert_eq!(manager.list_todos(None), vec!["no todos found".to_string()]);
    assert_eq!(rust_todo::listing::NO_TODOS, "no todos found");
}

#[test]
fn listing_of_empty_collection_has_no_lines() {
    let mut manager = manager_at("/data/todos.json");
    assert_eq!(manager.list_todos(Some(collection(vec![]))), Vec::<String>::new());
}

#[test]
fn listing_keeps_stored_order_and_quotes_names() {
    let mut manager = manager_at("/data/todos.json");
    let stored = collection(vec![
        todo("say \"hi\"", true, false),
        todo("tab\there", false, true),
        todo("", false, false),
    ]);
    assert_eq!(
        manager.list_todos(Some(stored.clone())),
        vec![
            "name: \"say \\\"hi\\\"\" is_done: true is_important: false".to_string(),
            "name: \"tab\\there\" is_done: false is_important: true".to_string(),
            "name: \"\" is_done: false is_important: false".to_string(),
        ]
    );
    assert_eq!(stored.lines(), manager.list_todos(Some(stored.clone())));
    assert_eq!(stored.todos[0].line(), "name: \"say \\\"hi\\\"\" is_done: true is_important: false");
}

#[test]
fn render_line_joins_the_given_parts() {
    assert_eq!(
        rust_todo::listing::render_line(&"<n>".to_string(), true, false),
        "name: <n> is_done: true is_important: false"
    );
    assert_eq!(
        rust_todo::listing::render_line(&String::new(), false, true),
        "name:  is_done: false is_important: true"
    );
}

#[test]
fn operations_leave_the_manager_as_it_was() {
    let mut manager = manager_at("/data/todos.json");
    let before = manager.clone();
    manager.add_todo(None, "a".to_string());
    manager.remove_todo(None, "a".to_string());
    manager.mark_done_todo(None, "a".to_string());
    manager.mark_important_todo(None, "a".to_string());
    manager.list_todos(None);
    assert_eq!(manager, before);
}

#[test]
fn new_todo_has_both_flags_cleared() {
    assert_eq!(Todo::new("n".to_string()), todo("n", false, false));
}

#[test]
fn collection_methods_change_in_place() {
    let mut todos = TodoCollection::new();
    todos.add("a".to_string());
    todos.add("b".to_string());
    assert!(todos.mark_done(&"b".to_string()));
    assert!(todos.mark_important(&"a".to_string()));
    assert_eq!(todos.todos, vec![todo("a", false, true), todo("b", true, false)]);
    assert!(todos.remove(&"a".to_string()));
    assert_eq!(todos.todos, vec![todo("b", true, false)]);
}
