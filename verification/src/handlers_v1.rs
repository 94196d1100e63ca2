//! JSON-RPC request handling for the v1.0.0-rc methods `SendMessage`,
//! `GetTask`, `CancelTask` and `ListTasks`; tasks are answered in the v1
//! wire format.

use crate::handlers::{
    cancel_error, cancel_error_is, fails_with, id_for, not_initialized, open_outcome, open_task,
    record_reply, reply_outcome, rpc_error, store_model, task_not_found, PendingTask,
};
use crate::jsonrpc::{JsonRpcError, INTERNAL_ERROR, TASK_NOT_FOUND};
use crate::store::{
    cancel_outcome, get_outcome, holds, index_of, list_outcome, opt_str, page_start,
    session_tasks, task_models, TaskStore,
};
use crate::text::{join_lines, str_eq};
use crate::types::{opt_text, Message, MessageModel, MessageRole, PartModel, TaskModel};
use crate::v1;
use vstd::prelude::*;

verus! {

/// The v1 task methods.
#[derive(Debug, Clone, Copy, PartialEq, Eq, Structural)]
pub enum Method {
    SendMessage,
    GetTask,
    CancelTask,
    ListTasks,
    Unknown,
}

/// The v1 method a name selects.
pub open spec fn method_of(name: Seq<char>) -> Method {
    if name == "SendMessage"@ {
        Method::SendMessage
    } else if name == "GetTask"@ {
        Method::GetTask
    } else if name == "CancelTask"@ {
        Method::CancelTask
    } else if name == "ListTasks"@ {
        Method::ListTasks
    } else {
        Method::Unknown
    }
}

/// The v1 method a JSON-RPC method name selects.
pub fn route_method(name: &str) -> (r: Method)
    ensures
        r == method_of(name@),
{
    if str_eq(name, "SendMessage") {
        Method::SendMessage
    } else if str_eq(name, "GetTask") {
        Method::GetTask
    } else if str_eq(name, "CancelTask") {
        Method::CancelTask
    } else if str_eq(name, "ListTasks") {
        Method::ListTasks
    } else {
        Method::Unknown
    }
}

// ── SendMessage ─────────────────────────────────────────────────

/// The texts of the v1 text parts, in order.
pub open spec fn text_parts(parts: Seq<v1::PartModel>) -> Seq<Seq<char>>
    decreases parts.len(),
{
    if parts.len() == 0 {
        seq![]
    } else {
        let rest = text_parts(parts.drop_last());
        match parts.last() {
            v1::PartModel::Text { text, .. } => rest.push(text),
            _ => rest,
        }
    }
}

/// The text of a v1 message: its text parts joined by newlines.
pub fn message_text(parts: &Vec<v1::Part>) -> (r: String)
    ensures
        r@ == join_lines(text_parts(v1::part_models(parts@))),
{
    let ghost pm = v1::part_models(parts@);
    let mut out = String::new();
    let mut first = true;
    let mut i: usize = 0;
    while i < parts.len()
        invariant
            i <= parts@.len(),
            pm == v1::part_models(parts@),
            out@ == join_lines(text_parts(pm.take(i as int))),
            first == (text_parts(pm.take(i as int)).len() == 0),
        decreases parts@.len() - i,
    {
        assert(pm.take(i + 1).drop_last() =~= pm.take(i as int));
        assert(pm.take(i + 1).last() == pm[i as int]);
        let ghost ts = text_parts(pm.take(i as int));
        match &parts[i] {
            v1::Part::Text { text, .. } => {
                assert(pm[i as int] matches v1::PartModel::Text { text: t, .. } && t == text@);
                assert(text_parts(pm.take(i + 1)) == ts.push(text@));
                assert(ts.push(text@).drop_last() =~= ts);
                let ghost before = out@;
                if !first {
                    out.append("\n");
                    proof {
                        reveal_strlit("\n");
                    }
                    out.append(text.as_str());
                    assert(join_lines(ts.push(text@)) == join_lines(ts) + seq!['\n'] + text@);
                    assert(out@ =~= before + seq!['\n'] + text@);
                } else {
                    out.append(text.as_str());
                    assert(ts.push(text@).len() == 1);
                    assert(join_lines(ts.push(text@)) == ts.push(text@)[0]);
                    assert(out@ =~= text@);
                }
                first = false;
            },
            _ => {
                assert(!(pm[i as int] is Text));
                assert(text_parts(pm.take(i + 1)) == ts);
            },
        }
        i += 1;
    }
    assert(pm.take(parts@.len() as int) =~= pm);
    out
}

/// The stored message for a v1 request: the user's text as one text part.
pub open spec fn user_message(text: Seq<char>) -> MessageModel {
    MessageModel { role: MessageRole::User, parts: seq![PartModel::Text(text)] }
}

/// Accept a `SendMessage` request: the text of the message must not be
/// blank; the task is then created from that text and marked working.
pub fn begin_send_message(store: &mut Option<TaskStore>, params: v1::SendMessageParams) -> (r: Result<
    PendingTask,
    JsonRpcError,
>)
    ensures
        exists|now: u128, task_id: Seq<char>|
            #![trigger open_outcome(store_model(*old(store)), join_lines(text_parts(params.message@.parts)), now, task_id, opt_text(params.session_id), user_message(join_lines(text_parts(params.message@.parts))))]
            {
                let text = join_lines(text_parts(params.message@.parts));
                let (s, out) = open_outcome(
                    store_model(*old(store)),
                    text,
                    now,
                    task_id,
                    opt_text(params.session_id),
                    user_message(text),
                );
                &&& id_for(params.id, task_id)
                &&& store_model(*final(store)) == s
                &&& match out {
                    Ok(tid) => r matches Ok(p) && p.task_id@ == tid && p.user_text@ == text
                        && opt_text(p.session_id) == opt_text(params.session_id),
                    Err((code, msg)) => fails_with(r, code, msg),
                }
            },
{
    let text = message_text(&params.message.parts);
    let message = Message::user_text(text.as_str());
    let ghost msg = message@;
    let ghost sid = opt_text(params.session_id);
    let ghost idv = params.id;
    let ghost st0 = store_model(*store);
    let ghost tv = text@;
    let r = open_task(store, params.id, params.session_id, message, text);
    let ghost pick = choose|now: u128, task_id: Seq<char>|
        #![trigger open_outcome(st0, tv, now, task_id, sid, msg)]
        {
            let (s, out) = open_outcome(st0, tv, now, task_id, sid, msg);
            &&& id_for(idv, task_id)
            &&& store_model(*store) == s
            &&& match out {
                Ok(tid) => r matches Ok(p) && p.task_id@ == tid && p.user_text@ == tv
                    && opt_text(p.session_id) == sid,
                Err((code, m)) => fails_with(r, code, m),
            }
        };
    assert(open_outcome(st0, tv, pick.0, pick.1, sid, msg).0 == store_model(*store));
    assert(tv == join_lines(text_parts(params.message@.parts)));
    assert(msg == user_message(tv));
    assert(st0 == store_model(*old(store)));
    assert(sid == opt_text(params.session_id));
    assert(idv == params.id);
    r
}

/// Record the agent's reply for task `id` and answer the task in v1 form;
/// answer an internal error when the task is gone.
pub fn finish_send_message(store: &mut TaskStore, task_id: &str, reply: Result<String, String>) -> (r:
    Result<v1::A2ATask, JsonRpcError>)
    ensures
        final(store)@ == reply_outcome(old(store)@, task_id@, reply),
        match get_outcome(final(store)@, task_id@, None) {
            Some(t) => r matches Ok(x) && x@ == v1::task_of(t),
            None => fails_with(r, INTERNAL_ERROR, "Task disappeared unexpectedly"@),
        },
{
    record_reply(store, task_id, reply);
    match store.get_task(task_id, None) {
        Some(task) => Ok(v1::A2ATask::from_store(&task)),
        None => {
            proof {
                reveal_strlit("Task disappeared unexpectedly");
            }
            Err(rpc_error(INTERNAL_ERROR, "Task disappeared unexpectedly".to_owned()))
        },
    }
}

// ── GetTask / CancelTask ────────────────────────────────────────

/// Handle `GetTask`: the task in v1 form with its history cut to the
/// requested length, or `TASK_NOT_FOUND`.
pub fn handle_get_task(store: &Option<TaskStore>, params: &v1::GetTaskParams) -> (r: Result<
    v1::A2ATask,
    JsonRpcError,
>)
    ensures
        match store_model(*store) {
            None => fails_with(r, INTERNAL_ERROR, "A2A not initialized"@),
            Some(s) => match get_outcome(s, params.id@, params.history_length) {
                Some(t) => r matches Ok(x) && x@ == v1::task_of(t),
                None => fails_with(r, TASK_NOT_FOUND, "Task not found: "@ + params.id@),
            },
        },
{
    match store {
        None => Err(not_initialized()),
        Some(s) => match s.get_task(params.id.as_str(), params.history_length) {
            Some(task) => Ok(v1::A2ATask::from_store(&task)),
            None => Err(task_not_found(params.id.as_str())),
        },
    }
}

/// Handle `CancelTask`: the canceled task in v1 form, or
/// `TASK_NOT_FOUND` / `TASK_NOT_CANCELABLE`.
pub fn handle_cancel_task(store: &mut Option<TaskStore>, params: &v1::CancelTaskParams) -> (r:
    Result<v1::A2ATask, JsonRpcError>)
    ensures
        match store_model(*old(store)) {
            None => store_model(*final(store)) is None && fails_with(
                r,
                INTERNAL_ERROR,
                "A2A not initialized"@,
            ),
            Some(s) => {
                let (s1, out) = cancel_outcome(s, params.id@);
                &&& store_model(*final(store)) == Some(s1)
                &&& match out {
                    Ok(t) => r matches Ok(x) && x@ == v1::task_of(t),
                    Err(err) => r matches Err(e) && cancel_error_is(e, params.id@, err),
                }
            },
        },
{
    match store {
        None => Err(not_initialized()),
        Some(s) => match s.cancel_task(params.id.as_str()) {
            Ok(task) => Ok(v1::A2ATask::from_store(&task)),
            Err(err) => Err(cancel_error(params.id.as_str(), err)),
        },
    }
}

// ── ListTasks ───────────────────────────────────────────────────

/// The page size asked for: 20 by default, never more than 100.
pub open spec fn page_limit(requested: Option<usize>) -> usize {
    let n = match requested {
        Some(n) => n,
        None => 20,
    };
    if n < 100 {
        n
    } else {
        100
    }
}

/// The size of a `ListTasks` page: `min(n, 100)` tasks for a requested limit
/// `n`, 20 when none is requested, or all that remain after the cursor when
/// fewer remain. The page is the tasks that follow the cursor, in order, and
/// a next cursor (the id of the page's last task) is given exactly when tasks
/// remain after the page.
pub proof fn law_page_size(
    tasks: Seq<TaskModel>,
    session: Option<Seq<char>>,
    cursor: Option<Seq<char>>,
    limit: Option<usize>,
)
    ensures
        ({
            let listing = session_tasks(tasks, session);
            let start = page_start(listing, cursor);
            let want: int = match limit {
                Some(n) => if n <= 100 {
                    n as int
                } else {
                    100
                },
                None => 20,
            };
            let remaining = listing.len() - start;
            let (page, next) = list_outcome(tasks, session, cursor, page_limit(limit));
            &&& 0 <= start <= listing.len()
            &&& page.len() == if remaining >= want {
                want
            } else {
                remaining
            }
            &&& page == listing.subrange(start, start + page.len())
            &&& (next is Some <==> (0 < want && start + want < listing.len()))
            &&& next matches Some(c) ==> c == listing[start + want - 1].id
        }),
{
    let listing = session_tasks(tasks, session);
    if let Some(c) = cursor {
        if holds(listing, c) {
            let k = index_of(listing, c);
            assert(0 <= k < listing.len());
        }
    }
}

/// Handle `ListTasks`: one page of the tasks of the requested session (all
/// tasks when none is given) in v1 form, and the cursor of the next page.
pub fn handle_list_tasks(store: &Option<TaskStore>, params: &v1::ListTasksParams) -> (r: Result<
    v1::TaskListResult,
    JsonRpcError,
>)
    ensures
        match store_model(*store) {
            None => fails_with(r, INTERNAL_ERROR, "A2A not initialized"@),
            Some(s) => {
                let (page, next) = list_outcome(
                    s.tasks,
                    opt_text(params.session_id),
                    opt_text(params.cursor),
                    page_limit(params.limit),
                );
                r matches Ok(res) && res.tasks@.map_values(|t: v1::A2ATask| t@) == page.map_values(
                    |t: TaskModel| v1::task_of(t),
                ) && opt_text(res.next_cursor) == next
            },
        },
{
    match store {
        None => Err(not_initialized()),
        Some(s) => {
            let requested = match params.limit {
                Some(n) => n,
                None => 20,
            };
            let limit = if requested < 100 {
                requested
            } else {
                100
            };
            let session: Option<&str> = match &params.session_id {
                Some(x) => Some(x.as_str()),
                None => None,
            };
            let cursor: Option<&str> = match &params.cursor {
                Some(x) => Some(x.as_str()),
                None => None,
            };
            assert(opt_str(session) == opt_text(params.session_id));
            assert(opt_str(cursor) == opt_text(params.cursor));
            let (tasks, next_cursor) = s.list_tasks(session, cursor, limit);
            let ghost pm = task_models(tasks@);
            let mut out: Vec<v1::A2ATask> = Vec::new();
            let mut i: usize = 0;
            while i < tasks.len()
                invariant
                    i <= tasks@.len(),
                    pm == task_models(tasks@),
                    out@.map_values(|t: v1::A2ATask| t@) =~= pm.map_values(
                        |t: TaskModel| v1::task_of(t),
                    ).take(i as int),
                decreases tasks@.len() - i,
            {
                let converted = v1::A2ATask::from_store(&tasks[i]);
                let ghost before = out@;
                out.push(converted);
                assert(out@.map_values(|t: v1::A2ATask| t@) =~= before.map_values(
                    |t: v1::A2ATask| t@,
                ).push(converted@));
                i += 1;
            }
            assert(pm.map_values(|t: TaskModel| v1::task_of(t)).take(tasks@.len() as int)
                =~= pm.map_values(|t: TaskModel| v1::task_of(t)));
            Ok(v1::TaskListResult { tasks: out, next_cursor })
        },
    }
}

} // verus!
