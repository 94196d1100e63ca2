use zeroclaw_gateway::store::{CancelError, TaskStore};
use zeroclaw_gateway::types::{Message, MessageRole, Part, TaskState};

fn test_message(text: &str) -> Message {
    Message {
        role: MessageRole::User,
        parts: vec![Part::Text {
            text: text.to_string(),
        }],
    }
}

fn text_of(part: &Part) -> &str {
    match part {
        Part::Text { text } => text.as_str(),
        Part::Data { .. } => panic!("expected a text part"),
    }
}

#[test]
fn test_create_and_get_task() {
    let mut store = TaskStore::new(10, 3600);
    let task = store
        .create_task(None, None, test_message("hello"))
        .unwrap();
    assert_eq!(task.status.state, TaskState::Submitted);
    assert_eq!(task.history.len(), 1);

    let fetched = store.get_task(&task.id, None).unwrap();
    assert_eq!(fetched.id, task.id);
}

#[test]
fn test_task_lifecycle() {
    let mut store = TaskStore::new(10, 3600);
    let task = store
        .create_task(None, None, test_message("hello"))
        .unwrap();

    store.mark_working(&task.id);
    let t = store.get_task(&task.id, None).unwrap();
    assert_eq!(t.status.state, TaskState::Working);

    store.complete_task(&task.id, "world");
    let t = store.get_task(&task.id, None).unwrap();
    assert_eq!(t.status.state, TaskState::Completed);
    assert_eq!(t.history.len(), 2);
    assert_eq!(t.artifacts.len(), 1);
}

#[test]
fn test_capacity_limit() {
    let mut store = TaskStore::new(2, 3600);
    store
        .create_task(None, None, test_message("one"))
        .unwrap();
    store
        .create_task(None, None, test_message("two"))
        .unwrap();
    assert!(store
        .create_task(None, None, test_message("three"))
        .is_none());
}

#[test]
fn test_ttl_eviction() {
    let mut store = TaskStore::new(10, 0); // 0s TTL = immediate expiry
    store
        .create_task_at(1_000, "ephemeral".to_string(), None, test_message("ephemeral"))
        .unwrap();

    // A later creation evicts the expired task first.
    let task = store
        .create_task_at(2_000, "new".to_string(), None, test_message("new"))
        .unwrap();
    assert!(store.get_task(&task.id, None).is_some());
    assert!(store.get_task("ephemeral", None).is_none());
    assert_eq!(store.len(), 1);
}

#[test]
fn test_cancel_task() {
    let mut store = TaskStore::new(10, 3600);
    let task = store
        .create_task(None, None, test_message("cancel me"))
        .unwrap();

    store.mark_working(&task.id);
    let canceled = store.cancel_task(&task.id).unwrap();
    assert_eq!(canceled.status.state, TaskState::Canceled);

    // Can't cancel again
    assert!(store.cancel_task(&task.id).is_err());
}

#[test]
fn test_cancel_not_found() {
    let mut store = TaskStore::new(10, 3600);
    assert!(matches!(
        store.cancel_task("nonexistent"),
        Err(CancelError::NotFound)
    ));
}

#[test]
fn test_fail_task() {
    let mut store = TaskStore::new(10, 3600);
    let task = store
        .create_task(None, None, test_message("fail me"))
        .unwrap();

    store.fail_task(&task.id, "something went wrong");
    let t = store.get_task(&task.id, None).unwrap();
    assert_eq!(t.status.state, TaskState::Failed);
    assert_eq!(t.history.len(), 2);
}

#[test]
fn test_custom_task_id() {
    let mut store = TaskStore::new(10, 3600);
    let task = store
        .create_task(
            Some("my-custom-id".into()),
            Some("session-1".into()),
            test_message("hello"),
        )
        .unwrap();
    assert_eq!(task.id, "my-custom-id");
    assert_eq!(task.session_id.as_deref(), Some("session-1"));
}

#[test]
fn test_history_truncation() {
    let mut store = TaskStore::new(10, 3600);
    let task = store
        .create_task(None, None, test_message("msg1"))
        .unwrap();
    store.complete_task(&task.id, "reply1");

    let full = store.get_task(&task.id, None).unwrap();
    assert_eq!(full.history.len(), 2);

    let truncated = store.get_task(&task.id, Some(1)).unwrap();
    assert_eq!(truncated.history.len(), 1);
}

// ── Further scenarios ───────────────────────────────────────────

#[test]
fn generated_ids_are_uuids() {
    let mut store = TaskStore::new(10, 3600);
    let a = store.create_task(None, None, test_message("a")).unwrap();
    let b = store.create_task(None, None, test_message("b")).unwrap();
    assert_eq!(a.id.len(), 36);
    assert_eq!(a.id.matches('-').count(), 4);
    assert_ne!(a.id, b.id);
    assert_eq!(store.len(), 2);
}

#[test]
fn created_task_is_read_back() {
    let mut store = TaskStore::new(10, 3600);
    let t = store
        .create_task_at(5, "t1".to_string(), Some("s".to_string()), test_message("hi"))
        .unwrap();
    assert_eq!(t.created_at, 5);
    let back = store.get_task("t1", None).unwrap();
    assert_eq!(back.id, "t1");
    assert_eq!(back.session_id.as_deref(), Some("s"));
    assert_eq!(back.status.state, TaskState::Submitted);
    assert!(back.status.message.is_none());
    assert!(back.artifacts.is_empty());
    assert_eq!(back.history.len(), 1);
    assert_eq!(back.history[0].role, MessageRole::User);
    assert_eq!(text_of(&back.history[0].parts[0]), "hi");
}

#[test]
fn reusing_an_id_replaces_the_task() {
    let mut store = TaskStore::new(2, 3600);
    store.create_task_at(1, "a".to_string(), None, test_message("first")).unwrap();
    store.create_task_at(2, "b".to_string(), None, test_message("other")).unwrap();
    // The store is full, so even a replacement is refused.
    assert!(store.create_task_at(3, "a".to_string(), None, test_message("second")).is_none());

    let mut store = TaskStore::new(3, 3600);
    store.create_task_at(1, "a".to_string(), None, test_message("first")).unwrap();
    store.complete_task("a", "done");
    store.create_task_at(2, "a".to_string(), None, test_message("second")).unwrap();
    assert_eq!(store.len(), 1);
    let t = store.get_task("a", None).unwrap();
    assert_eq!(t.status.state, TaskState::Submitted);
    assert_eq!(t.history.len(), 1);
    assert_eq!(text_of(&t.history[0].parts[0]), "second");
}

#[test]
fn eviction_keeps_live_tasks_and_frees_capacity() {
    let mut store = TaskStore::new(2, 10);
    let s = 1_000_000_000u128;
    store.create_task_at(0, "old".to_string(), None, test_message("x")).unwrap();
    store.create_task_at(5 * s, "young".to_string(), None, test_message("y")).unwrap();
    // At 10 s the first task is exactly 10 s old: expired; the second is live.
    let t = store.create_task_at(10 * s, "new".to_string(), None, test_message("z"));
    assert!(t.is_some());
    assert!(store.get_task("old", None).is_none());
    assert!(store.get_task("young", None).is_some());
    assert_eq!(store.len(), 2);
    // A task stamped in the future is never evicted.
    let mut store = TaskStore::new(5, 0);
    store.create_task_at(100, "future".to_string(), None, test_message("f")).unwrap();
    store.evict_expired(50);
    assert!(store.get_task("future", None).is_some());
    store.evict_expired(100);
    assert!(store.get_task("future", None).is_none());
}

#[test]
fn complete_records_response_everywhere() {
    let mut store = TaskStore::new(10, 3600);
    store.create_task_at(1, "t".to_string(), None, test_message("q")).unwrap();
    store.complete_task("t", "answer");
    let t = store.get_task("t", None).unwrap();
    let status_message = t.status.message.as_ref().unwrap();
    assert_eq!(status_message.role, MessageRole::Agent);
    assert_eq!(text_of(&status_message.parts[0]), "answer");
    assert_eq!(t.history[1].role, MessageRole::Agent);
    assert_eq!(text_of(&t.history[1].parts[0]), "answer");
    assert_eq!(t.artifacts[0].name, "response");
    assert_eq!(t.artifacts[0].index, Some(0));
    assert_eq!(text_of(&t.artifacts[0].parts[0]), "answer");
}

#[test]
fn updates_on_unknown_ids_change_nothing() {
    let mut store = TaskStore::new(10, 3600);
    store.create_task_at(1, "t".to_string(), None, test_message("q")).unwrap();
    store.mark_working("nope");
    store.complete_task("nope", "x");
    store.fail_task("nope", "x");
    assert_eq!(store.len(), 1);
    let t = store.get_task("t", None).unwrap();
    assert_eq!(t.status.state, TaskState::Submitted);
    assert_eq!(t.history.len(), 1);
}

#[test]
fn terminal_tasks_are_not_cancelable() {
    let mut store = TaskStore::new(10, 3600);
    store.create_task_at(1, "done".to_string(), None, test_message("q")).unwrap();
    store.complete_task("done", "a");
    assert_eq!(
        store.cancel_task("done").unwrap_err(),
        CancelError::NotCancelable(TaskState::Completed)
    );
    store.create_task_at(1, "bad".to_string(), None, test_message("q")).unwrap();
    store.fail_task("bad", "e");
    assert_eq!(
        store.cancel_task("bad").unwrap_err(),
        CancelError::NotCancelable(TaskState::Failed)
    );
    store.create_task_at(1, "c".to_string(), None, test_message("q")).unwrap();
    let canceled = store.cancel_task("c").unwrap();
    assert_eq!(
        text_of(&canceled.status.message.as_ref().unwrap().parts[0]),
        "Task canceled by client"
    );
    assert_eq!(
        store.cancel_task("c").unwrap_err(),
        CancelError::NotCancelable(TaskState::Canceled)
    );
}

#[test]
fn history_limit_keeps_the_latest_messages() {
    let mut store = TaskStore::new(10, 3600);
    store.create_task_at(1, "t".to_string(), None, test_message("m1")).unwrap();
    store.fail_task("t", "m2");
    let t = store.get_task("t", Some(1)).unwrap();
    assert_eq!(text_of(&t.history[0].parts[0]), "m2");
    let t = store.get_task("t", Some(0)).unwrap();
    assert!(t.history.is_empty());
    let t = store.get_task("t", Some(5)).unwrap();
    assert_eq!(t.history.len(), 2);
    // The stored history is untouched by a limited read.
    assert_eq!(store.get_task("t", None).unwrap().history.len(), 2);
}

#[test]
fn listing_pages_through_a_session() {
    let mut store = TaskStore::new(10, 3600);
    for (id, session) in [("a", "s1"), ("b", "s2"), ("c", "s1"), ("d", "s1"), ("e", "s1")] {
        store
            .create_task_at(1, id.to_string(), Some(session.to_string()), test_message(id))
            .unwrap();
    }
    let (page, next) = store.list_tasks(Some("s1"), None, 2);
    let ids: Vec<&str> = page.iter().map(|t| t.id.as_str()).collect();
    assert_eq!(ids, vec!["a", "c"]);
    assert_eq!(next.as_deref(), Some("c"));
    let (page, next) = store.list_tasks(Some("s1"), next.as_deref(), 2);
    let ids: Vec<&str> = page.iter().map(|t| t.id.as_str()).collect();
    assert_eq!(ids, vec!["d", "e"]);
    assert_eq!(next, None);
    let (page, next) = store.list_tasks(None, None, 10);
    assert_eq!(page.len(), 5);
    assert_eq!(next, None);
    let (page, next) = store.list_tasks(None, Some("unknown"), 10);
    assert!(page.is_empty());
    assert_eq!(next, None);
    let (page, next) = store.list_tasks(None, None, 0);
    assert!(page.is_empty());
    assert_eq!(next, None);
}
