use todo_list::command::{execute_command, execute_on, Command, Outcome};
use todo_list::date::Date;
use todo_list::error::{TaskError, ValidationError};
use todo_list::notification::Notification;
use todo_list::store::TaskStore;
use todo_list::sync::Direction;
use todo_list::task::Task;

fn task(id: u64, description: &str, done: bool, due_date: &str) -> Task {
    Task { id, description: description.to_string(), done, due_date: due_date.to_string() }
}

fn today() -> Date {
    Date { year: 2024, month: 5, day: 17 }
}

fn add(description: &str, due_date: Option<&str>) -> Command {
    Command::Add { description: description.to_string(), due_date: due_date.map(|d| d.to_string()) }
}

fn done(task: &str) -> Command {
    Command::Done { task: task.to_string() }
}

#[test]
fn from_parts_recognises_every_subcommand() {
    assert_eq!(
        Command::from_parts(Some("add"), Some("Buy milk"), Some("2099-01-01")),
        add("Buy milk", Some("2099-01-01"))
    );
    assert_eq!(Command::from_parts(Some("add"), Some("Buy milk"), None), add("Buy milk", None));
    assert_eq!(Command::from_parts(Some("delete"), None, None), Command::Delete);
    assert_eq!(Command::from_parts(Some("done"), Some("3"), None), done("3"));
    assert_eq!(Command::from_parts(Some("sync-local"), None, None), Command::SyncLocal);
    assert_eq!(Command::from_parts(Some("sync-cloud"), None, None), Command::SyncCloud);
    assert_eq!(Command::from_parts(Some("list"), None, None), Command::List);
}

#[test]
fn from_parts_leaves_anything_else_unmatched() {
    assert_eq!(Command::from_parts(None, None, None), Command::Unmatched);
    assert_eq!(Command::from_parts(None, Some("Buy milk"), Some("x")), Command::Unmatched);
    assert_eq!(Command::from_parts(Some("remove"), None, None), Command::Unmatched);
    assert_eq!(Command::from_parts(Some("ADD"), Some("x"), None), Command::Unmatched);
    assert_eq!(Command::from_parts(Some(""), None, None), Command::Unmatched);
}

#[test]
fn from_parts_takes_a_missing_argument_as_empty() {
    assert_eq!(Command::from_parts(Some("add"), None, None), add("", None));
    assert_eq!(Command::from_parts(Some("done"), None, None), done(""));
    assert_eq!(Command::from_parts(Some("delete"), Some("x"), Some("y")), Command::Delete);
}

#[test]
fn add_creates_a_task() {
    let mut store = TaskStore::new();
    let outcome = execute_on(&mut store, &add("Buy milk", Some("2099-01-01")), today());
    assert_eq!(outcome, Ok(Outcome::Added { id: 1 }));
    assert_eq!(store.list(), vec![task(1, "Buy milk", false, "2099-01-01")]);
    let outcome = execute_on(&mut store, &add("Pay rent", None), today());
    assert_eq!(outcome, Ok(Outcome::Added { id: 2 }));
    assert_eq!(store.list()[1], task(2, "Pay rent", false, "2024-05-17"));
}

#[test]
fn add_fails_on_invalid_input_and_changes_nothing() {
    let mut store = TaskStore::new();
    assert_eq!(
        execute_on(&mut store, &add("", Some("2099-01-01")), today()),
        Err(TaskError::Validation(ValidationError::EmptyDescription))
    );
    assert_eq!(
        execute_on(&mut store, &add("Buy milk", Some("tomorrow")), today()),
        Err(TaskError::Validation(ValidationError::MalformedDate))
    );
    assert_eq!(
        execute_command(&mut store, &add("Buy milk", Some("2024-13-40"))),
        Err(TaskError::Validation(ValidationError::MalformedDate))
    );
    assert!(store.list().is_empty());
    assert_eq!(store.next_id(), 1);
}

#[test]
fn done_completes_the_task_with_the_id() {
    let mut store = TaskStore::new();
    store.create("one", Some("2030-01-01")).unwrap();
    store.create("two", Some("2030-01-01")).unwrap();
    assert_eq!(execute_on(&mut store, &done("2"), today()), Ok(Outcome::Completed { id: Some(2) }));
    assert_eq!(
        store.list(),
        vec![task(1, "one", false, "2030-01-01"), task(2, "two", true, "2030-01-01")]
    );
    assert_eq!(execute_on(&mut store, &done("01"), today()), Ok(Outcome::Completed { id: Some(1) }));
    assert!(store.list()[0].done);
}

#[test]
fn done_with_an_unknown_id_or_no_number_changes_nothing() {
    let mut store = TaskStore::new();
    store.create("Buy milk", Some("2099-01-01")).unwrap();
    let before = store.list();
    assert_eq!(
        execute_command(&mut store, &done("999")),
        Ok(Outcome::Completed { id: Some(999) })
    );
    assert_eq!(store.list(), before);
    for no_number in ["", "one", "1x", "-1", "99999999999999999999999"] {
        assert_eq!(
            execute_on(&mut store, &done(no_number), today()),
            Ok(Outcome::Completed { id: None })
        );
        assert_eq!(store.list(), before);
    }
}

#[test]
fn delete_clears_the_store() {
    let mut store = TaskStore::new();
    store.create("one", Some("2030-01-01")).unwrap();
    assert_eq!(execute_on(&mut store, &Command::Delete, today()), Ok(Outcome::Deleted));
    assert!(store.list().is_empty());
    assert_eq!(store.next_id(), 2);
}

#[test]
fn list_displays_the_tasks_and_changes_nothing() {
    console::set_colors_enabled(false);
    let mut store = TaskStore::new();
    store.create("one", Some("2024-05-16")).unwrap();
    store.create("two", Some("2024-05-17")).unwrap();
    store.create("three", Some("2024-05-01")).unwrap();
    store.complete(3);
    let before = store.list();
    assert_eq!(
        execute_on(&mut store, &Command::List, today()),
        Ok(Outcome::Listed {
            lines: vec![
                "\u{26a0}\u{fe0f} Task is overdue!".to_string(),
                "2: two".to_string(),
                "3: three".to_string(),
            ]
        })
    );
    assert_eq!(store.list(), before);
    let mut empty = TaskStore::new();
    assert_eq!(execute_command(&mut empty, &Command::List), Ok(Outcome::Listed { lines: Vec::new() }));
}

#[test]
fn list_fails_on_a_stored_date_that_is_no_date() {
    let mut store = TaskStore::new();
    store.insert("one", "soon").unwrap();
    assert_eq!(
        execute_on(&mut store, &Command::List, today()),
        Err(TaskError::Validation(ValidationError::MalformedDate))
    );
    assert_eq!(
        execute_command(&mut store, &Command::List),
        Err(TaskError::Validation(ValidationError::MalformedDate))
    );
    assert_eq!(store.list().len(), 1);
}

#[test]
fn the_other_commands_leave_the_store_alone() {
    let mut store = TaskStore::new();
    store.create("one", Some("2030-01-01")).unwrap();
    let before = store.list();
    assert_eq!(
        execute_on(&mut store, &Command::SyncLocal, today()),
        Ok(Outcome::Sync(Direction::ToLocal))
    );
    assert_eq!(
        execute_on(&mut store, &Command::SyncCloud, today()),
        Ok(Outcome::Sync(Direction::ToCloud))
    );
    assert_eq!(execute_on(&mut store, &Command::Unmatched, today()), Ok(Outcome::Unmatched));
    assert_eq!(store.list(), before);
    assert_eq!(store.next_id(), 2);
}

#[test]
fn changes_are_followed_by_a_notification() {
    let note = |body: &'static str| Some(Notification { summary: "TODO List Updated", body });
    assert_eq!(Outcome::Added { id: 1 }.notification(), note("You added item successfully."));
    assert_eq!(Outcome::Deleted.notification(), note("You delete item successfully."));
    assert_eq!(
        Outcome::Completed { id: Some(1) }.notification(),
        note("You update the item succesfully.")
    );
    assert_eq!(
        Outcome::Completed { id: None }.notification(),
        note("You update the item succesfully.")
    );
    assert_eq!(Outcome::Listed { lines: Vec::new() }.notification(), None);
    assert_eq!(Outcome::Sync(Direction::ToCloud).notification(), None);
    assert_eq!(Outcome::Unmatched.notification(), None);
}

#[test]
fn deletion_and_unmatched_commands_are_announced() {
    console::set_colors_enabled(true);
    assert_eq!(
        Outcome::Deleted.announcement(),
        Some("\u{1b}[31mAll tasks deleted!\u{1b}[0m".to_string())
    );
    assert_eq!(Outcome::Unmatched.announcement(), Some("No matches".to_string()));
    assert_eq!(Outcome::Added { id: 1 }.announcement(), None);
    assert_eq!(Outcome::Completed { id: Some(1) }.announcement(), None);
    assert_eq!(Outcome::Listed { lines: Vec::new() }.announcement(), None);
    assert_eq!(Outcome::Sync(Direction::ToLocal).announcement(), None);
}

#[test]
fn only_the_commands_on_tasks_need_the_store() {
    assert!(add("x", None).needs_store());
    assert!(Command::Delete.needs_store());
    assert!(done("1").needs_store());
    assert!(Command::List.needs_store());
    assert!(!Command::SyncLocal.needs_store());
    assert!(!Command::SyncCloud.needs_store());
    assert!(!Command::Unmatched.needs_store());
}
