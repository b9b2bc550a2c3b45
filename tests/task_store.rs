use rust_days::task_manager::{Category, Priority, Status, TaskError, TaskManager};

#[test]
fn buy_milk_lifecycle() {
    let mut m = TaskManager::new();
    let id = m.add_task(String::from("Buy milk"), Priority::Low, Category::Personal);
    assert_eq!(id, 1);
    assert!(m.complete_task(1).is_ok());
    assert!(matches!(m.complete_task(1), Err(TaskError::AlreadyCompleted(1))));
    let deleted = m.delete_task(1).unwrap();
    assert_eq!(deleted.status, Status::Completed);
    assert_eq!(deleted.title, "Buy milk");
    assert!(m.get_task(1).is_none());
}

#[test]
fn add_returns_increasing_ids() {
    let mut m = TaskManager::new();
    let a = m.add_task(String::from("a"), Priority::Low, Category::Work);
    let b = m.add_task(String::from("b"), Priority::High, Category::Work);
    m.delete_task(b).unwrap();
    let c = m.add_task(String::from("c"), Priority::Medium, Category::Health);
    assert_eq!((a, b, c), (1, 2, 3));
    assert_eq!(m.next_id(), 4);
}

#[test]
fn get_after_add_is_pending_with_fields() {
    let mut m = TaskManager::new();
    let id = m.add_task(String::from("Read"), Priority::Urgent, Category::Learning);
    let t = m.get_task(id).unwrap();
    assert_eq!(t.id, id);
    assert_eq!(t.title, "Read");
    assert_eq!(t.priority, Priority::Urgent);
    assert_eq!(t.category, Category::Learning);
    assert_eq!(t.status, Status::Pending);
    assert!(t.description.is_none());
}

#[test]
fn complete_marks_completed() {
    let mut m = TaskManager::new();
    let id = m.add_task(String::from("Run"), Priority::Medium, Category::Health);
    assert!(m.complete_task(id).is_ok());
    assert_eq!(m.get_task(id).unwrap().status, Status::Completed);
}

#[test]
fn complete_unknown_is_not_found() {
    let mut m = TaskManager::new();
    assert!(matches!(m.complete_task(7), Err(TaskError::NotFound(7))));
    assert_eq!(m.count(), 0);
}

#[test]
fn delete_then_everything_not_found() {
    let mut m = TaskManager::new();
    let id = m.add_task(String::from("x"), Priority::Low, Category::Finance);
    let other = m.add_task(String::from("y"), Priority::Low, Category::Finance);
    assert!(m.delete_task(id).is_ok());
    assert!(m.get_task(id).is_none());
    assert!(matches!(m.complete_task(id), Err(TaskError::NotFound(1))));
    assert!(matches!(m.delete_task(id), Err(TaskError::NotFound(1))));
    assert_eq!(m.count(), 1);
    assert_eq!(m.get_task(other).unwrap().title, "y");
}

#[test]
fn filter_by_priority_selects_exactly() {
    let mut m = TaskManager::new();
    m.add_task(String::from("a"), Priority::High, Category::Work);
    m.add_task(String::from("b"), Priority::Low, Category::Work);
    m.add_task(String::from("c"), Priority::High, Category::Personal);
    let high = m.filter_by(Priority::High);
    let titles: Vec<&str> = high.iter().map(|t| t.title.as_str()).collect();
    assert_eq!(titles, vec!["a", "c"]);
    assert_eq!(m.filter_by(Priority::Urgent).len(), 0);
    assert_eq!(m.filter_by(Category::Work).len(), 2);
    m.complete_task(2).unwrap();
    let done = m.filter_by(Status::Completed);
    assert_eq!(done.len(), 1);
    assert_eq!(done[0].id, 2);
}

#[test]
fn statistics_totals_agree() {
    let mut m = TaskManager::new();
    m.add_task(String::from("a"), Priority::High, Category::Work);
    m.add_task(String::from("b"), Priority::Low, Category::Work);
    m.add_task(String::from("c"), Priority::High, Category::Personal);
    m.complete_task(1).unwrap();
    let s = m.statistics();
    assert_eq!(s.total, 3);
    assert_eq!(s.total, m.list_all().len());
    assert_eq!(s.completed, 1);
    assert_eq!(s.pending, 2);
    assert_eq!(s.in_progress, 0);
    assert_eq!(s.total, s.completed + s.pending + s.in_progress);
    assert_eq!(s.by_priority.get(Priority::High), 2);
    assert_eq!(s.by_priority.get(Priority::Low), 1);
    assert_eq!(s.by_priority.get(Priority::Urgent), 0);
    assert_eq!(s.by_category.get(Category::Work), 2);
    assert_eq!(s.by_category.get(Category::Personal), 1);
}

#[test]
fn empty_store_statistics() {
    let m = TaskManager::new();
    let s = m.statistics();
    assert_eq!(s.total, 0);
    assert_eq!(m.list_all().len(), 0);
}

#[test]
fn list_all_in_id_order() {
    let mut m = TaskManager::new();
    for title in ["one", "two", "three"] {
        m.add_task(String::from(title), Priority::Medium, Category::Work);
    }
    m.delete_task(2).unwrap();
    let ids: Vec<u32> = m.list_all().iter().map(|t| t.id).collect();
    assert_eq!(ids, vec![1, 3]);
}

#[test]
fn task_rendering() {
    let mut m = TaskManager::new();
    let id = m.add_task(String::from("Write"), Priority::Urgent, Category::Work);
    assert_eq!(m.get_task(id).unwrap().render(), "[ ] #1: Write [URGENT] [Work]");
    assert_eq!(m.get_task(id).unwrap().summary(), "#1: Write (Pending)");
    m.complete_task(id).unwrap();
    assert_eq!(m.get_task(id).unwrap().render(), "[✓] #1: Write [URGENT] [Work]");
}

#[test]
fn task_with_description_renders_second_line() {
    let t = rust_days::task_manager::Task::new(12, String::from("Plan"), Priority::Low, Category::Finance)
        .with_description(String::from("budget"));
    assert_eq!(t.description.as_deref(), Some("budget"));
    assert_eq!(t.render(), "[ ] #12: Plan [Low] [Finance]\n      budget");
}

#[test]
fn task_complete_twice_on_task() {
    let mut t = rust_days::task_manager::Task::new(5, String::from("t"), Priority::Low, Category::Work);
    assert!(t.complete().is_ok());
    assert!(matches!(t.complete(), Err(TaskError::AlreadyCompleted(5))));
}

#[test]
fn error_messages() {
    assert_eq!(TaskError::NotFound(42).message(), "Task #42 not found");
    assert_eq!(TaskError::AlreadyCompleted(7).message(), "Task #7 is already completed");
    assert_eq!(
        TaskError::InvalidInput(String::from("abc")).message(),
        "Invalid input: abc"
    );
}

#[test]
fn labels() {
    assert_eq!(Priority::Urgent.label(), "URGENT");
    assert_eq!(Status::InProgress.label(), "In Progress");
    assert_eq!(Category::Finance.label(), "Finance");
}

#[test]
fn deleted_id_stays_missing_after_later_calls() {
    let mut m = TaskManager::new();
    let id = m.add_task(String::from("gone"), Priority::Low, Category::Work);
    m.delete_task(id).unwrap();
    let a = m.add_task(String::from("a"), Priority::High, Category::Work);
    m.complete_task(a).unwrap();
    let b = m.add_task(String::from("b"), Priority::Low, Category::Health);
    m.delete_task(b).unwrap();
    assert!(m.get_task(id).is_none());
    assert!(matches!(m.complete_task(id), Err(TaskError::NotFound(1))));
    assert!(matches!(m.delete_task(id), Err(TaskError::NotFound(1))));
    assert_eq!(m.count(), 1);
}
