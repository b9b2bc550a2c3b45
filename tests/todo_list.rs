use rust_days::task_manager::Status;
use rust_days::todo::{Priority, Task, TodoApp, TodoError};

fn sample() -> TodoApp {
    let mut app = TodoApp::new();
    app.add_task("Learn Rust basics", Priority::High, "learning");
    app.add_task("Complete Day 21 project", Priority::High, "learning");
    app.add_task("Review ownership concepts", Priority::Medium, "learning");
    app.add_task("Exercise", Priority::Low, "health");
    app.add_task("Read a book", Priority::Low, "personal");
    app
}

#[test]
fn todo_ids_count_up_from_one() {
    let mut app = TodoApp::new();
    assert_eq!(app.add_task("a", Priority::Low, ""), 1);
    assert_eq!(app.add_task("b", Priority::Low, "x"), 2);
    assert_eq!(app.next_id(), 3);
    let all = app.list_all();
    assert!(all[0].tags.is_empty());
    assert_eq!(all[1].tags, vec![String::from("x")]);
}

#[test]
fn todo_complete_and_list_by_status() {
    let mut app = sample();
    assert!(app.complete_task(1).is_ok());
    assert!(app.complete_task(4).is_ok());
    assert!(matches!(app.complete_task(4), Err(TodoError::AlreadyCompleted(4))));
    let done: Vec<u32> = app.list_by_status(Status::Completed).iter().map(|t| t.id).collect();
    assert_eq!(done, vec![1, 4]);
    let pending: Vec<u32> = app.list_by_status(Status::Pending).iter().map(|t| t.id).collect();
    assert_eq!(pending, vec![2, 3, 5]);
}

#[test]
fn todo_complete_unknown() {
    let mut app = sample();
    assert!(matches!(app.complete_task(99), Err(TodoError::TaskNotFound(99))));
    assert_eq!(TodoError::TaskNotFound(99).message(), "Task #99 not found");
    assert_eq!(TodoError::AlreadyCompleted(4).message(), "Task #4 is already completed");
    assert_eq!(TodoError::IoError(String::from("disk full")).message(), "IO error: disk full");
}

#[test]
fn todo_search_ignores_case() {
    let app = sample();
    let found: Vec<u32> = app.search("rust").iter().map(|t| t.id).collect();
    assert_eq!(found, vec![1]);
    let found: Vec<u32> = app.search("RE").iter().map(|t| t.id).collect();
    assert_eq!(found, vec![3, 5]);
    assert_eq!(app.search("zebra").len(), 0);
    assert_eq!(app.search("").len(), 5);
}

#[test]
fn todo_stats() {
    let mut app = sample();
    app.complete_task(1).unwrap();
    app.complete_task(4).unwrap();
    let s = app.stats();
    assert_eq!((s.total, s.completed, s.pending), (5, 2, 3));
    let empty = TodoApp::new().stats();
    assert_eq!((empty.total, empty.completed, empty.pending), (0, 0, 0));
}

#[test]
fn todo_saved_lines() {
    let mut app = TodoApp::new();
    app.add_task("Exercise", Priority::Low, "health");
    app.add_task("Plan", Priority::High, "");
    app.complete_task(2).unwrap();
    assert_eq!(
        app.saved_lines(),
        vec![String::from("1|Exercise|Low|Pending|health"), String::from("2|Plan|High|Completed|")]
    );
}

#[test]
fn todo_render() {
    let t = Task::new(3, "Read", Priority::Medium, vec![String::from("a"), String::from("b")]);
    assert_eq!(t.render(), "[ ] #3: Read [Medium] [a, b]");
    let mut app = TodoApp::new();
    app.add_task("Run", Priority::High, "");
    app.complete_task(1).unwrap();
    assert_eq!(app.list_all()[0].render(), "[x] #1: Run [High]");
    assert_eq!(Priority::Medium.label(), "Medium");
}
