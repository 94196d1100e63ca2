use serde_json::Value;
use zeroclaw_gateway::handlers::{
    begin_message_send, finish_message_send, handle_tasks_cancel, handle_tasks_get,
    message_text, method_not_found, route_method, validate_request, Method,
};
use zeroclaw_gateway::handlers_v1;
use zeroclaw_gateway::jsonrpc::{
    JsonRpcRequest, JsonRpcResponse, CAPACITY_EXCEEDED, INTERNAL_ERROR, INVALID_PARAMS,
    INVALID_REQUEST, METHOD_NOT_FOUND, TASK_NOT_CANCELABLE, TASK_NOT_FOUND,
};
use zeroclaw_gateway::store::TaskStore;
use zeroclaw_gateway::types::{
    Message, MessageRole, MessageSendParams, Part, TaskCancelParams, TaskGetParams, TaskState,
};
use zeroclaw_gateway::v1;

fn user(parts: Vec<Part>) -> Message {
    Message { role: MessageRole::User, parts }
}

fn text(t: &str) -> Part {
    Part::Text { text: t.to_string() }
}

fn send(id: Option<&str>, msg: Message) -> MessageSendParams {
    MessageSendParams { message: msg, id: id.map(|s| s.to_string()), session_id: None }
}

#[test]
fn response_constructors() {
    let ok = JsonRpcResponse::success(Some(Value::from(7)), Value::from("r"));
    assert_eq!(ok.jsonrpc, "2.0");
    assert_eq!(ok.id, Some(Value::from(7)));
    assert_eq!(ok.result, Some(Value::from("r")));
    assert!(ok.error.is_none());

    let err = JsonRpcResponse::error(None, TASK_NOT_FOUND, "Task not found: x".to_string());
    assert_eq!(err.jsonrpc, "2.0");
    assert!(err.result.is_none());
    let e = err.error.unwrap();
    assert_eq!(e.code, -32001);
    assert_eq!(e.message, "Task not found: x");
    assert!(e.data.is_none());
}

#[test]
fn request_version_is_checked() {
    let req = JsonRpcRequest {
        jsonrpc: "2.0".to_string(),
        id: Some(Value::from(1)),
        method: "tasks/get".to_string(),
        params: Value::Null,
    };
    assert!(validate_request(req).is_ok());
    let req = JsonRpcRequest {
        jsonrpc: "1.0".to_string(),
        id: Some(Value::from(1)),
        method: "tasks/get".to_string(),
        params: Value::Null,
    };
    let resp = validate_request(req).unwrap_err();
    assert_eq!(resp.id, Some(Value::from(1)));
    let e = resp.error.unwrap();
    assert_eq!(e.code, INVALID_REQUEST);
    assert_eq!(e.message, "Invalid JSON-RPC version, expected \"2.0\"");
}

#[test]
fn methods_are_routed() {
    assert_eq!(route_method("message/send"), Method::MessageSend);
    assert_eq!(route_method("tasks/get"), Method::TasksGet);
    assert_eq!(route_method("tasks/cancel"), Method::TasksCancel);
    assert_eq!(route_method("SendMessage"), Method::Unknown);
    assert_eq!(handlers_v1::route_method("SendMessage"), handlers_v1::Method::SendMessage);
    assert_eq!(handlers_v1::route_method("GetTask"), handlers_v1::Method::GetTask);
    assert_eq!(handlers_v1::route_method("CancelTask"), handlers_v1::Method::CancelTask);
    assert_eq!(handlers_v1::route_method("ListTasks"), handlers_v1::Method::ListTasks);
    assert_eq!(handlers_v1::route_method("tasks/get"), handlers_v1::Method::Unknown);
    let e = method_not_found("foo/bar");
    assert_eq!(e.code, METHOD_NOT_FOUND);
    assert_eq!(e.message, "Method not found: foo/bar");
}

#[test]
fn message_text_joins_text_parts() {
    let parts = vec![text("a"), Part::Data { data: Value::from("k") }, text("b"), text("")];
    assert_eq!(message_text(&parts), "a\nb\n");
    assert_eq!(message_text(&vec![]), "");
    assert_eq!(message_text(&vec![Part::Data { data: Value::Null }]), "");
}

#[test]
fn message_send_round_trip() {
    let mut store = Some(TaskStore::new(10, 3600));
    let pending = begin_message_send(&mut store, send(Some("t1"), user(vec![text("hi"), text("there")])))
        .unwrap();
    assert_eq!(pending.task_id, "t1");
    assert_eq!(pending.user_text, "hi\nthere");
    let working = store.as_ref().unwrap().get_task("t1", None).unwrap();
    assert_eq!(working.status.state, TaskState::Working);

    let s = store.as_mut().unwrap();
    let done = finish_message_send(s, "t1", Ok("hello!".to_string())).unwrap();
    assert_eq!(done.status.state, TaskState::Completed);
    assert_eq!(done.artifacts.len(), 1);

    begin_message_send(&mut store, send(Some("t2"), user(vec![text("x")]))).unwrap();
    let s = store.as_mut().unwrap();
    let failed = finish_message_send(s, "t2", Err("boom".to_string())).unwrap();
    assert_eq!(failed.status.state, TaskState::Failed);
    match &failed.status.message.as_ref().unwrap().parts[0] {
        Part::Text { text } => assert_eq!(text, "Agent error: boom"),
        _ => panic!("expected text"),
    }

    let e = finish_message_send(s, "gone", Ok("x".to_string())).unwrap_err();
    assert_eq!(e.code, INTERNAL_ERROR);
    assert_eq!(e.message, "Task disappeared unexpectedly");
}

#[test]
fn message_send_refusals() {
    let mut store = Some(TaskStore::new(1, 3600));
    let e = begin_message_send(&mut store, send(None, user(vec![text("  \n\t")]))).unwrap_err();
    assert_eq!(e.code, INVALID_PARAMS);
    assert_eq!(e.message, "Message contains no text parts");
    assert_eq!(store.as_ref().unwrap().len(), 0);

    let e = begin_message_send(&mut store, send(None, user(vec![Part::Data { data: Value::from(1) }])))
        .unwrap_err();
    assert_eq!(e.code, INVALID_PARAMS);

    let mut none: Option<TaskStore> = None;
    let e = begin_message_send(&mut none, send(None, user(vec![text("hi")]))).unwrap_err();
    assert_eq!(e.code, INTERNAL_ERROR);
    assert_eq!(e.message, "A2A not initialized");

    begin_message_send(&mut store, send(None, user(vec![text("one")]))).unwrap();
    let e = begin_message_send(&mut store, send(None, user(vec![text("two")]))).unwrap_err();
    assert_eq!(e.code, CAPACITY_EXCEEDED);
    assert_eq!(e.message, "Task capacity exceeded, try again later");
}

#[test]
fn get_and_cancel_handlers() {
    let mut store = Some(TaskStore::new(10, 3600));
    begin_message_send(&mut store, send(Some("t"), user(vec![text("q")]))).unwrap();
    let got = handle_tasks_get(&store, &TaskGetParams { id: "t".to_string(), history_length: None })
        .unwrap();
    assert_eq!(got.id, "t");
    let e = handle_tasks_get(&store, &TaskGetParams { id: "zz".to_string(), history_length: None })
        .unwrap_err();
    assert_eq!(e.code, TASK_NOT_FOUND);
    assert_eq!(e.message, "Task not found: zz");

    let canceled = handle_tasks_cancel(&mut store, &TaskCancelParams { id: "t".to_string() }).unwrap();
    assert_eq!(canceled.status.state, TaskState::Canceled);
    let e = handle_tasks_cancel(&mut store, &TaskCancelParams { id: "t".to_string() }).unwrap_err();
    assert_eq!(e.code, TASK_NOT_CANCELABLE);
    assert_eq!(e.message, "Task t is in terminal state Canceled and cannot be canceled");
    let e = handle_tasks_cancel(&mut store, &TaskCancelParams { id: "no".to_string() }).unwrap_err();
    assert_eq!(e.code, TASK_NOT_FOUND);

    let mut none: Option<TaskStore> = None;
    let e = handle_tasks_cancel(&mut none, &TaskCancelParams { id: "t".to_string() }).unwrap_err();
    assert_eq!(e.code, INTERNAL_ERROR);
    let e = handle_tasks_get(&none, &TaskGetParams { id: "t".to_string(), history_length: None })
        .unwrap_err();
    assert_eq!(e.code, INTERNAL_ERROR);
}

fn v1_text(t: &str) -> v1::Part {
    v1::Part::Text { kind: None, text: t.to_string(), metadata: None }
}

fn v1_send(id: &str, session: Option<&str>, parts: Vec<v1::Part>) -> v1::SendMessageParams {
    v1::SendMessageParams {
        message: v1::Message { role: v1::MessageRole::User, parts, metadata: None },
        id: Some(id.to_string()),
        session_id: session.map(|s| s.to_string()),
        metadata: None,
    }
}

#[test]
fn v1_send_get_cancel_list() {
    let mut store = Some(TaskStore::new(10, 3600));
    let file = v1::Part::File {
        kind: None,
        file: v1::FileContent { name: None, mime_type: None, bytes: None, uri: Some("u".to_string()) },
        metadata: None,
    };
    let p = handlers_v1::begin_send_message(&mut store, v1_send("a", Some("s"), vec![v1_text("hi"), file]))
        .unwrap();
    assert_eq!(p.user_text, "hi");
    let t = handlers_v1::finish_send_message(store.as_mut().unwrap(), "a", Ok("yo".to_string())).unwrap();
    assert_eq!(t.status.state, v1::TaskState::Completed);
    assert_eq!(t.history.as_ref().unwrap().len(), 2);
    assert_eq!(t.artifacts.as_ref().unwrap()[0].artifact_id.as_deref(), Some("artifact-0"));

    handlers_v1::begin_send_message(&mut store, v1_send("b", Some("s"), vec![v1_text("x")])).unwrap();
    handlers_v1::begin_send_message(&mut store, v1_send("c", None, vec![v1_text("y")])).unwrap();

    let got = handlers_v1::handle_get_task(
        &store,
        &v1::GetTaskParams { id: "a".to_string(), history_length: Some(1) },
    )
    .unwrap();
    assert_eq!(got.history.as_ref().unwrap().len(), 1);

    let canceled =
        handlers_v1::handle_cancel_task(&mut store, &v1::CancelTaskParams { id: "b".to_string() })
            .unwrap();
    assert_eq!(canceled.status.state, v1::TaskState::Canceled);

    let page = handlers_v1::handle_list_tasks(
        &store,
        &v1::ListTasksParams { session_id: Some("s".to_string()), cursor: None, limit: Some(1) },
    )
    .unwrap();
    assert_eq!(page.tasks.len(), 1);
    assert_eq!(page.tasks[0].id, "a");
    assert_eq!(page.next_cursor.as_deref(), Some("a"));
    let page = handlers_v1::handle_list_tasks(
        &store,
        &v1::ListTasksParams { session_id: None, cursor: None, limit: None },
    )
    .unwrap();
    assert_eq!(page.tasks.len(), 3);
    assert_eq!(page.next_cursor, None);
}

#[test]
fn v1_list_limit_is_capped() {
    let mut store = Some(TaskStore::new(200, 3600));
    for i in 0..120 {
        handlers_v1::begin_send_message(&mut store, v1_send(&format!("t{i}"), None, vec![v1_text("x")]))
            .unwrap();
    }
    let page = handlers_v1::handle_list_tasks(
        &store,
        &v1::ListTasksParams { session_id: None, cursor: None, limit: Some(1000) },
    )
    .unwrap();
    assert_eq!(page.tasks.len(), 100);
    assert_eq!(page.next_cursor.as_deref(), Some("t99"));
    let page = handlers_v1::handle_list_tasks(
        &store,
        &v1::ListTasksParams { session_id: None, cursor: None, limit: None },
    )
    .unwrap();
    assert_eq!(page.tasks.len(), 20);
}
