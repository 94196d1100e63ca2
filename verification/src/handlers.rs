//! JSON-RPC request handling for the task methods: envelope validation,
//! method routing, and the work behind `message/send`, `tasks/get` and
//! `tasks/cancel`. Each handler answers with the task or with the JSON-RPC
//! error object to send back.

use crate::jsonrpc::{
    is_error, is_error_response, JsonRpcError, JsonRpcRequest, JsonRpcResponse,
    CAPACITY_EXCEEDED, INTERNAL_ERROR, INVALID_PARAMS, INVALID_REQUEST, METHOD_NOT_FOUND, PARSE_ERROR,
    TASK_NOT_CANCELABLE, TASK_NOT_FOUND,
};
use crate::store::{
    cancel_outcome, complete_outcome, create_outcome, fail_outcome, get_outcome, working_outcome,
    CancelError, StoreModel, TaskStore,
};
use crate::text::{chars_of, concat_str, is_blank, join_lines, str_eq, trim};
use crate::types::{
    opt_text, part_models, state_name, text_parts, A2ATask, Message, MessageModel,
    MessageSendParams, Part, PartModel, TaskCancelParams, TaskGetParams,
};
use vstd::prelude::*;

verus! {

/// The model of an optional store.
pub open spec fn store_model(s: Option<TaskStore>) -> Option<StoreModel> {
    match s {
        Some(s) => Some(s@),
        None => None,
    }
}

/// `r` is the error `code` / `message`.
pub open spec fn fails_with<T>(r: Result<T, JsonRpcError>, code: i64, message: Seq<char>) -> bool {
    r matches Err(e) && is_error(e, code, message)
}

/// An error object.
pub fn rpc_error(code: i64, message: String) -> (r: JsonRpcError)
    ensures
        is_error(r, code, message@),
{
    JsonRpcError { code, message, data: None }
}

// ── Envelope and routing ────────────────────────────────────────

/// The message answered to a request that is not JSON-RPC 2.0.
pub open spec fn bad_version_message() -> Seq<char> {
    "Invalid JSON-RPC version, expected \"2.0\""@
}

/// Accept a JSON-RPC 2.0 request; any other version is answered with an
/// `INVALID_REQUEST` error for the request's id.
pub fn validate_request(req: JsonRpcRequest) -> (r: Result<JsonRpcRequest, JsonRpcResponse>)
    ensures
        r is Ok <==> req.jsonrpc@ == "2.0"@,
        r matches Ok(x) ==> x == req,
        r matches Err(resp) ==> is_error_response(resp, req.id, INVALID_REQUEST, bad_version_message()),
{
    if str_eq(req.jsonrpc.as_str(), "2.0") {
        Ok(req)
    } else {
        Err(
            JsonRpcResponse::error(
                req.id,
                INVALID_REQUEST,
                "Invalid JSON-RPC version, expected \"2.0\"".to_owned(),
            ),
        )
    }
}

/// The task methods of the legacy protocol.
#[derive(Debug, Clone, Copy, PartialEq, Eq, Structural)]
pub enum Method {
    MessageSend,
    TasksGet,
    TasksCancel,
    Unknown,
}

/// The method a name selects.
pub open spec fn method_of(name: Seq<char>) -> Method {
    if name == "message/send"@ {
        Method::MessageSend
    } else if name == "tasks/get"@ {
        Method::TasksGet
    } else if name == "tasks/cancel"@ {
        Method::TasksCancel
    } else {
        Method::Unknown
    }
}

/// The method a JSON-RPC method name selects.
pub fn route_method(name: &str) -> (r: Method)
    ensures
        r == method_of(name@),
{
    if str_eq(name, "message/send") {
        Method::MessageSend
    } else if str_eq(name, "tasks/get") {
        Method::TasksGet
    } else if str_eq(name, "tasks/cancel") {
        Method::TasksCancel
    } else {
        Method::Unknown
    }
}

/// The error answered to a body that is not a JSON-RPC request:
/// `Parse error: {detail}`.
pub fn parse_error(detail: &str) -> (r: JsonRpcError)
    ensures
        is_error(r, PARSE_ERROR, "Parse error: "@ + detail@),
{
    rpc_error(PARSE_ERROR, concat_str("Parse error: ", detail))
}

/// The error answered to parameters that do not fit the method:
/// `Invalid params: {detail}`.
pub fn invalid_params(detail: &str) -> (r: JsonRpcError)
    ensures
        is_error(r, INVALID_PARAMS, "Invalid params: "@ + detail@),
{
    rpc_error(INVALID_PARAMS, concat_str("Invalid params: ", detail))
}

/// The error answered to an unknown method: `Method not found: {name}`.
pub fn method_not_found(name: &str) -> (r: JsonRpcError)
    ensures
        is_error(r, METHOD_NOT_FOUND, "Method not found: "@ + name@),
{
    rpc_error(METHOD_NOT_FOUND, concat_str("Method not found: ", name))
}

// ── message/send ────────────────────────────────────────────────

/// The text of a message: its text parts joined by newlines.
pub fn message_text(parts: &Vec<Part>) -> (r: String)
    ensures
        r@ == join_lines(text_parts(part_models(parts@))),
{
    let ghost pm = part_models(parts@);
    let mut out = String::new();
    let mut first = true;
    let mut i: usize = 0;
    while i < parts.len()
        invariant
            i <= parts@.len(),
            pm == part_models(parts@),
            out@ == join_lines(text_parts(pm.take(i as int))),
            first == (text_parts(pm.take(i as int)).len() == 0),
        decreases parts@.len() - i,
    {
        assert(pm.take(i + 1).drop_last() =~= pm.take(i as int));
        assert(pm.take(i + 1).last() == pm[i as int]);
        let ghost ts = text_parts(pm.take(i as int));
        match &parts[i] {
            Part::Text { text } => {
                assert(pm[i as int] == PartModel::Text(text@));
                assert(text_parts(pm.take(i + 1)) == ts.push(text@));
                assert(ts.push(text@).drop_last() =~= ts);
                let ghost before = out@;
                if !first {
                    out.append("\n");
                    proof {
                        reveal_strlit("\n");
                    }
                    out.append(text.as_str());
                    assert(join_lines(ts.push(text@)) == join_lines(ts) + seq!['\n'] + text@);
                    assert(out@ =~= before + seq!['\n'] + text@);
                } else {
                    out.append(text.as_str());
                    assert(ts.push(text@).len() == 1);
                    assert(join_lines(ts.push(text@)) == ts.push(text@)[0]);
                    assert(out@ =~= text@);
                }
                first = false;
            },
            Part::Data { data } => {
                assert(pm[i as int] == PartModel::Data(*data));
                assert(text_parts(pm.take(i + 1)) == ts);
            },
        }
        i += 1;
    }
    assert(pm.take(parts@.len() as int) =~= pm);
    out
}

/// A task accepted for processing: its id, the user's text for the agent,
/// and its session.
#[derive(Debug, Clone)]
pub struct PendingTask {
    pub task_id: String,
    pub user_text: String,
    pub session_id: Option<String>,
}

/// What opening a task does, at clock reading `now` and with id `task_id`:
/// a blank text is refused, then a missing store, then a full one; otherwise
/// the task is created and marked working.
pub open spec fn open_outcome(
    store: Option<StoreModel>,
    text: Seq<char>,
    now: u128,
    task_id: Seq<char>,
    session_id: Option<Seq<char>>,
    message: MessageModel,
) -> (Option<StoreModel>, Result<Seq<char>, (i64, Seq<char>)>) {
    if trim(text).len() == 0 {
        (store, Err((INVALID_PARAMS, "Message contains no text parts"@)))
    } else {
        match store {
            None => (store, Err((INTERNAL_ERROR, "A2A not initialized"@))),
            Some(s) => {
                let (s1, t) = create_outcome(s, now, task_id, session_id, message);
                match t {
                    None => (Some(s1), Err((CAPACITY_EXCEEDED, "Task capacity exceeded, try again later"@))),
                    Some(t) => (Some(working_outcome(s1, t.id)), Ok(t.id)),
                }
            },
        }
    }
}

/// The id a new task takes: the requested one, or a fresh 36-character one.
pub open spec fn id_for(requested: Option<String>, task_id: Seq<char>) -> bool {
    match requested {
        Some(i) => task_id == i@,
        None => task_id.len() == 36,
    }
}

/// Create the task for a message whose text is `user_text` and mark it
/// working; refused for a blank text, a missing store, or a full store.
pub fn open_task(
    store: &mut Option<TaskStore>,
    id: Option<String>,
    session_id: Option<String>,
    message: Message,
    user_text: String,
) -> (r: Result<PendingTask, JsonRpcError>)
    ensures
        exists|now: u128, task_id: Seq<char>|
            #![trigger open_outcome(store_model(*old(store)), user_text@, now, task_id, opt_text(session_id), message@)]
            {
                let (s, out) = open_outcome(
                    store_model(*old(store)),
                    user_text@,
                    now,
                    task_id,
                    opt_text(session_id),
                    message@,
                );
                &&& id_for(id, task_id)
                &&& store_model(*final(store)) == s
                &&& match out {
                    Ok(tid) => r matches Ok(p) && p.task_id@ == tid && p.user_text@ == user_text@
                        && opt_text(p.session_id) == opt_text(session_id),
                    Err((code, msg)) => fails_with(r, code, msg),
                }
            },
{
    let ghost sid = opt_text(session_id);
    let ghost msg = message@;
    let ghost idv = id;
    let ghost placeholder: Seq<char> = match idv {
        Some(i) => i@,
        None => Seq::new(36, |k: int| 'x'),
    };
    if is_blank(&chars_of(user_text.as_str())) {
        proof {
            reveal_strlit("Message contains no text parts");
        }
        let e = rpc_error(INVALID_PARAMS, "Message contains no text parts".to_owned());
        assert(id_for(idv, placeholder));
        assert(open_outcome(store_model(*old(store)), user_text@, 0, placeholder, sid, msg)
            == (store_model(*old(store)), Err::<Seq<char>, (i64, Seq<char>)>((INVALID_PARAMS, "Message contains no text parts"@))));
        return Err(e);
    }
    match store {
        None => {
            proof {
                reveal_strlit("A2A not initialized");
            }
            let e = rpc_error(INTERNAL_ERROR, "A2A not initialized".to_owned());
            assert(id_for(idv, placeholder));
            assert(open_outcome(store_model(*old(store)), user_text@, 0, placeholder, sid, msg)
                == (store_model(*old(store)), Err::<Seq<char>, (i64, Seq<char>)>((INTERNAL_ERROR, "A2A not initialized"@))));
            Err(e)
        },
        Some(s) => {
            let ghost s0 = s@;
            let created = s.create_task(id, session_id, message);
            let ghost s1 = s@;
            let ghost pick = choose|now: u128, task_id: Seq<char>|
                {
                    &&& (s1, crate::store::opt_task(created)) == create_outcome(s0, now, task_id, sid, msg)
                    &&& id_for(idv, task_id)
                };
            assert(open_outcome(Some(s0), user_text@, pick.0, pick.1, sid, msg).0 is Some);
            match created {
                None => {
                    proof {
                        reveal_strlit("Task capacity exceeded, try again later");
                    }
                    let e = rpc_error(
                        CAPACITY_EXCEEDED,
                        "Task capacity exceeded, try again later".to_owned(),
                    );
                    Err(e)
                },
                Some(task) => {
                    s.mark_working(task.id.as_str());
                    Ok(PendingTask { task_id: task.id, user_text, session_id: task.session_id })
                },
            }
        },
    }
}

} // verus!

verus! {

/// Accept a `message/send` request: the text of the message (its text
/// parts joined by newlines) must not be blank; the task is then created
/// from the message and marked working.
pub fn begin_message_send(store: &mut Option<TaskStore>, params: MessageSendParams) -> (r: Result<
    PendingTask,
    JsonRpcError,
>)
    ensures
        exists|now: u128, task_id: Seq<char>|
            #![trigger open_outcome(store_model(*old(store)), join_lines(text_parts(params.message@.parts)), now, task_id, opt_text(params.session_id), params.message@)]
            {
                let (s, out) = open_outcome(
                    store_model(*old(store)),
                    join_lines(text_parts(params.message@.parts)),
                    now,
                    task_id,
                    opt_text(params.session_id),
                    params.message@,
                );
                &&& id_for(params.id, task_id)
                &&& store_model(*final(store)) == s
                &&& match out {
                    Ok(tid) => r matches Ok(p) && p.task_id@ == tid && p.user_text@ == join_lines(
                        text_parts(params.message@.parts),
                    ) && opt_text(p.session_id) == opt_text(params.session_id),
                    Err((code, msg)) => fails_with(r, code, msg),
                }
            },
{
    let text = message_text(&params.message.parts);
    let ghost msg = params.message@;
    let ghost sid = opt_text(params.session_id);
    let ghost idv = params.id;
    let ghost st0 = store_model(*store);
    let ghost tv = text@;
    let r = open_task(store, params.id, params.session_id, params.message, text);
    let ghost pick = choose|now: u128, task_id: Seq<char>|
        #![trigger open_outcome(st0, tv, now, task_id, sid, msg)]
        {
            let (s, out) = open_outcome(st0, tv, now, task_id, sid, msg);
            &&& id_for(idv, task_id)
            &&& store_model(*store) == s
            &&& match out {
                Ok(tid) => r matches Ok(p) && p.task_id@ == tid && p.user_text@ == tv
                    && opt_text(p.session_id) == sid,
                Err((code, m)) => fails_with(r, code, m),
            }
        };
    assert(open_outcome(st0, tv, pick.0, pick.1, sid, msg).0 == store_model(*store));
    assert(tv == join_lines(text_parts(params.message@.parts)));
    assert(msg == params.message@);
    assert(st0 == store_model(*old(store)));
    assert(sid == opt_text(params.session_id));
    assert(idv == params.id);
    r
}

/// The text a failed task records for the agent error `e`.
pub open spec fn agent_error_text(e: Seq<char>) -> Seq<char> {
    "Agent error: "@ + e
}

/// The store after the agent answered task `id` with `reply`: the response
/// completes the task, an error fails it.
pub open spec fn reply_outcome(s: StoreModel, id: Seq<char>, reply: Result<String, String>) -> StoreModel {
    match reply {
        Ok(response) => complete_outcome(s, id, response@),
        Err(e) => fail_outcome(s, id, agent_error_text(e@)),
    }
}

/// Record the agent's reply for task `id` (its response, or the text of its
/// error) and read the task back; answer an internal error when the task is
/// gone.
pub fn finish_message_send(store: &mut TaskStore, task_id: &str, reply: Result<String, String>) -> (r:
    Result<A2ATask, JsonRpcError>)
    ensures
        final(store)@ == reply_outcome(old(store)@, task_id@, reply),
        match get_outcome(final(store)@, task_id@, None) {
            Some(t) => r matches Ok(x) && x@ == t,
            None => fails_with(r, INTERNAL_ERROR, "Task disappeared unexpectedly"@),
        },
{
    record_reply(store, task_id, reply);
    match store.get_task(task_id, None) {
        Some(task) => Ok(task),
        None => {
            proof {
                reveal_strlit("Task disappeared unexpectedly");
            }
            Err(rpc_error(INTERNAL_ERROR, "Task disappeared unexpectedly".to_owned()))
        },
    }
}

/// Record the agent's reply for task `id`.
pub fn record_reply(store: &mut TaskStore, task_id: &str, reply: Result<String, String>)
    ensures
        final(store)@ == reply_outcome(old(store)@, task_id@, reply),
{
    match reply {
        Ok(response) => store.complete_task(task_id, response.as_str()),
        Err(e) => {
            let text = concat_str("Agent error: ", e.as_str());
            store.fail_task(task_id, text.as_str());
        },
    }
}

// ── tasks/get ───────────────────────────────────────────────────

/// The error answered for an unknown task: `Task not found: {id}`.
pub fn task_not_found(id: &str) -> (r: JsonRpcError)
    ensures
        is_error(r, TASK_NOT_FOUND, "Task not found: "@ + id@),
{
    rpc_error(TASK_NOT_FOUND, concat_str("Task not found: ", id))
}

/// The error answered when no task store is set up.
pub fn not_initialized() -> (r: JsonRpcError)
    ensures
        is_error(r, INTERNAL_ERROR, "A2A not initialized"@),
{
    proof {
        reveal_strlit("A2A not initialized");
    }
    rpc_error(INTERNAL_ERROR, "A2A not initialized".to_owned())
}

/// Handle `tasks/get`: the task with its history cut to the requested
/// length, or `TASK_NOT_FOUND`.
pub fn handle_tasks_get(store: &Option<TaskStore>, params: &TaskGetParams) -> (r: Result<
    A2ATask,
    JsonRpcError,
>)
    ensures
        match store_model(*store) {
            None => fails_with(r, INTERNAL_ERROR, "A2A not initialized"@),
            Some(s) => match get_outcome(s, params.id@, params.history_length) {
                Some(t) => r matches Ok(x) && x@ == t,
                None => fails_with(r, TASK_NOT_FOUND, "Task not found: "@ + params.id@),
            },
        },
{
    match store {
        None => Err(not_initialized()),
        Some(s) => match s.get_task(params.id.as_str(), params.history_length) {
            Some(task) => Ok(task),
            None => Err(task_not_found(params.id.as_str())),
        },
    }
}

// ── tasks/cancel ────────────────────────────────────────────────

/// The message answered when canceling a task in a terminal state.
pub open spec fn not_cancelable_text(id: Seq<char>, state: crate::types::TaskState) -> Seq<char> {
    "Task "@ + id + " is in terminal state "@ + state_name(state) + " and cannot be canceled"@
}

/// The error answered for a failed cancellation.
pub open spec fn cancel_error_is(e: JsonRpcError, id: Seq<char>, err: CancelError) -> bool {
    match err {
        CancelError::NotFound => is_error(e, TASK_NOT_FOUND, "Task not found: "@ + id),
        CancelError::NotCancelable(st) => is_error(e, TASK_NOT_CANCELABLE, not_cancelable_text(id, st)),
    }
}

/// The JSON-RPC error for a refused cancellation of task `id`.
pub fn cancel_error(id: &str, err: CancelError) -> (r: JsonRpcError)
    ensures
        cancel_error_is(r, id@, err),
{
    match err {
        CancelError::NotFound => task_not_found(id),
        CancelError::NotCancelable(state) => {
            let mut m = concat_str("Task ", id);
            m.append(" is in terminal state ");
            m.append(state.debug_name());
            m.append(" and cannot be canceled");
            rpc_error(TASK_NOT_CANCELABLE, m)
        },
    }
}

/// Handle `tasks/cancel`: the canceled task, or `TASK_NOT_FOUND` /
/// `TASK_NOT_CANCELABLE`.
pub fn handle_tasks_cancel(store: &mut Option<TaskStore>, params: &TaskCancelParams) -> (r: Result<
    A2ATask,
    JsonRpcError,
>)
    ensures
        match store_model(*old(store)) {
            None => store_model(*final(store)) is None && fails_with(
                r,
                INTERNAL_ERROR,
                "A2A not initialized"@,
            ),
            Some(s) => {
                let (s1, out) = cancel_outcome(s, params.id@);
                &&& store_model(*final(store)) == Some(s1)
                &&& match out {
                    Ok(t) => r matches Ok(x) && x@ == t,
                    Err(err) => r matches Err(e) && cancel_error_is(e, params.id@, err),
                }
            },
        },
{
    match store {
        None => Err(not_initialized()),
        Some(s) => match s.cancel_task(params.id.as_str()) {
            Ok(task) => Ok(task),
            Err(err) => Err(cancel_error(params.id.as_str(), err)),
        },
    }
}

} // verus!
