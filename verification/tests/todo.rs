use phone_agent::agent::todo::{TodoItem, TodoList, TodoStatus};

#[test]
fn test_todo_item_lifecycle() {
    let mut item = TodoItem::new("test_1", "Test task", "general");
    assert_eq!(item.status, TodoStatus::Pending);

    item.start();
    assert_eq!(item.status, TodoStatus::Running);

    item.complete();
    assert_eq!(item.status, TodoStatus::Done);
    assert!(item.is_terminal());
}

#[test]
fn test_todo_item_retry() {
    let mut item = TodoItem::new("test_1", "Test task", "general").with_max_retries(2);

    item.fail("Error 1");
    assert_eq!(item.status, TodoStatus::Failed);

    assert!(item.retry());
    assert_eq!(item.status, TodoStatus::Pending);

    item.fail("Error 2");
    assert!(item.retry());
    assert_eq!(item.status, TodoStatus::Pending);

    item.fail("Error 3");
    assert!(!item.retry());
    assert_eq!(item.status, TodoStatus::Failed);
    assert!(item.is_terminal());
}

#[test]
fn test_todo_list_operations() {
    let mut list = TodoList::new();

    list.add("Task 1", "type_a");
    list.add("Task 2", "type_b");
    list.add("Task 3", "type_a");

    assert_eq!(list.items().len(), 3);
    assert_eq!(list.pending_tasks().len(), 3);

    if let Some(task) = list.get_mut("task_1") {
        task.start();
    }
    assert!(list.current_running().is_some());
    assert_eq!(list.pending_tasks().len(), 2);

    if let Some(task) = list.get_mut("task_1") {
        task.complete();
    }
    assert_eq!(list.completed_tasks().len(), 1);

    let stats = list.stats();
    assert_eq!(stats.total, 3);
    assert_eq!(stats.done, 1);
    assert_eq!(stats.pending, 2);
}

#[test]
fn three_failures_exhaust_a_budget_of_two() {
    let mut item = TodoItem::new("t", "d", "k").with_max_retries(2);
    assert_eq!(item.max_retries, 2);
    for _ in 0..3 {
        item.start();
        item.fail("broken");
        item.retry();
    }
    assert_eq!(item.status, TodoStatus::Failed);
    assert_eq!(item.retry_count, 3);
    assert!(item.is_terminal());
    assert!(!item.can_retry());
    assert_eq!(item.error, Some("broken".to_string()));

    let mut other = TodoItem::new("t", "d", "k").with_max_retries(2);
    for _ in 0..2 {
        other.start();
        other.fail("broken");
        assert!(other.retry());
    }
    other.start();
    other.complete();
    assert_eq!(other.status, TodoStatus::Done);
    assert_eq!(other.retry_count, 2);
    assert!(other.is_terminal());
}

#[test]
fn a_failed_task_with_budget_left_is_not_terminal() {
    let mut item = TodoItem::new("t", "d", "k");
    assert_eq!(item.max_retries, 3);
    assert_eq!(item.created_at, item.updated_at);
    item.fail("x");
    assert!(!item.is_terminal());
    item.skip();
    assert!(item.is_terminal());
    item.add_note("seen");
    assert_eq!(item.notes, vec!["seen".to_string()]);
    assert_eq!(TodoStatus::default(), TodoStatus::Pending);
}

#[test]
fn retry_count_stops_at_the_largest_number() {
    let mut item = TodoItem::new("t", "d", "k").with_max_retries(u32::MAX);
    item.retry_count = u32::MAX;
    assert!(!item.retry());
    assert_eq!(item.retry_count, u32::MAX);
    assert_eq!(item.status, TodoStatus::Failed);
}

#[test]
fn identifiers_count_up_and_lookups_find_the_first() {
    let mut list = TodoList::new();
    assert_eq!(list.add("a", "k"), "task_1");
    assert_eq!(list.add("b", "k"), "task_2");
    assert_eq!(list.add_with_id("mine", "c", "k"), "mine");
    assert_eq!(list.add("d", "k"), "task_3");
    assert_eq!(list.len(), 4);
    assert_eq!(list.position("mine"), Some(2));
    assert_eq!(list.position("none"), None);
    assert_eq!(list.get("task_2").unwrap().description, "b");
    assert!(list.get("task_9").is_none());
    assert_eq!(list.next_pending().unwrap().id, "task_1");
    assert!(list.current_running().is_none());
    assert!(!list.is_all_done());

    assert!(list.reorder("task_1", 2));
    let ids: Vec<&str> = list.items().iter().map(|t| t.id.as_str()).collect();
    assert_eq!(ids, vec!["task_2", "task_1", "mine", "task_3"]);
    assert!(list.reorder("task_3", 0));
    let ids: Vec<&str> = list.items().iter().map(|t| t.id.as_str()).collect();
    assert_eq!(ids, vec!["task_3", "task_2", "task_1", "mine"]);
    assert!(!list.reorder("task_3", 0));
    assert!(!list.reorder("task_3", 4));
    assert!(!list.reorder("nobody", 1));

    let removed = list.remove("task_2").unwrap();
    assert_eq!(removed.description, "b");
    assert!(list.remove("task_2").is_none());
    assert_eq!(list.len(), 3);

    for id in ["task_3", "task_1", "mine"] {
        list.get_mut(id).unwrap().skip();
    }
    assert!(list.is_all_done());
    assert_eq!(list.stats().skipped, 3);
    assert!(list.failed_tasks().is_empty());
    list.clear();
    assert_eq!(list.len(), 0);
    assert!(list.is_all_done());
    assert_eq!(list.add("e", "k"), "task_4");
}

#[test]
fn the_task_completed_last_is_found() {
    let mut list = TodoList::new();
    list.add("a", "k");
    list.add("b", "k");
    list.add("c", "k");
    assert!(list.last_completed().is_none());
    list.get_mut("task_2").unwrap().complete();
    assert_eq!(list.last_completed().unwrap().id, "task_2");
    list.get_mut("task_1").unwrap().complete();
    list.get_mut("task_1").unwrap().updated_at = u64::MAX;
    assert_eq!(list.last_completed().unwrap().id, "task_1");
    list.get_mut("task_3").unwrap().complete();
    list.get_mut("task_3").unwrap().updated_at = u64::MAX;
    assert_eq!(list.last_completed().unwrap().id, "task_3");
}
