//! In-memory A2A task store with a capacity limit and TTL eviction.

use crate::text::str_eq;
use crate::types::{
    agent_text_message, artifact_models, is_terminal, message_models,
    opt_text, A2ATask, Artifact, ArtifactModel, Message, MessageModel, Part, PartModel,
    StatusModel, TaskModel, TaskState, TaskStatus,
};
use std::time::SystemTime;
use std::time::UNIX_EPOCH;
use vstd::prelude::*;

verus! {

#[verifier::external_type_specification]
#[verifier::external_body]
pub struct ExSystemTime(SystemTime);

/// Reads the system clock (`SystemTime::now`).
#[verifier::external_body]
fn system_now() -> SystemTime {
    SystemTime::now()
}

/// `SystemTime::duration_since(UNIX_EPOCH)` as a count of nanoseconds
/// (`Duration::as_nanos`); `None` when `t` lies before the epoch.
#[verifier::external_body]
fn nanos_since_epoch(t: &SystemTime) -> Option<u128> {
    t.duration_since(UNIX_EPOCH).ok().map(|d| d.as_nanos())
}

/// A fresh random task id: `uuid::Uuid::new_v4()` rendered by its `Display`
/// impl, which writes the hyphenated form, 36 characters long.
#[verifier::external_body]
fn random_task_id() -> (r: String)
    ensures
        r@.len() == 36,
{
    uuid::Uuid::new_v4().to_string()
}

/// The current time in nanoseconds since the Unix epoch; a clock set before
/// the epoch reads as 0.
fn now_nanos() -> u128 {
    match nanos_since_epoch(&system_now()) {
        Some(n) => n,
        None => 0,
    }
}

// ── Model ───────────────────────────────────────────────────────

/// Errors from cancel operations.
#[derive(Debug, Clone, Copy, PartialEq, Eq, Structural)]
pub enum CancelError {
    NotFound,
    NotCancelable(TaskState),
}

/// The models of a sequence of tasks.
pub open spec fn task_models(tasks: Seq<A2ATask>) -> Seq<TaskModel> {
    tasks.map_values(|t: A2ATask| t@)
}

/// The model of an optional task.
pub open spec fn opt_task(t: Option<A2ATask>) -> Option<TaskModel> {
    match t {
        Some(t) => Some(t@),
        None => None,
    }
}

/// Some task of `tasks` has id `id`.
pub open spec fn holds(tasks: Seq<TaskModel>, id: Seq<char>) -> bool {
    exists|i: int| 0 <= i < tasks.len() && (#[trigger] tasks[i]).id == id
}

/// The position of the task with id `id` (meaningful when `holds`).
pub open spec fn index_of(tasks: Seq<TaskModel>, id: Seq<char>) -> int {
    choose|i: int| 0 <= i < tasks.len() && (#[trigger] tasks[i]).id == id
}

/// No two tasks share an id.
pub open spec fn ids_unique(tasks: Seq<TaskModel>) -> bool {
    forall|i: int, j: int|
        0 <= i < tasks.len() && 0 <= j < tasks.len() && (#[trigger] tasks[i]).id == (#[trigger] tasks[j]).id
            ==> i == j
}

/// The task with id `id`, if any.
pub open spec fn lookup(tasks: Seq<TaskModel>, id: Seq<char>) -> Option<TaskModel> {
    if holds(tasks, id) {
        Some(tasks[index_of(tasks, id)])
    } else {
        None
    }
}

/// A task is live at `now` unless it was created at or before `now` and is at
/// least `ttl_secs` seconds old.
pub open spec fn is_live(t: TaskModel, now: u128, ttl_secs: u64) -> bool {
    now < t.created_at || (now - t.created_at) < ttl_secs * 1_000_000_000
}

/// The tasks of `tasks` that satisfy `p`, in order.
pub open spec fn keep(tasks: Seq<TaskModel>, p: spec_fn(TaskModel) -> bool) -> Seq<TaskModel>
    decreases tasks.len(),
{
    if tasks.len() == 0 {
        tasks
    } else {
        let rest = keep(tasks.drop_last(), p);
        if p(tasks.last()) {
            rest.push(tasks.last())
        } else {
            rest
        }
    }
}

/// The live tasks of `tasks`, in order.
pub open spec fn retain_live(tasks: Seq<TaskModel>, now: u128, ttl_secs: u64) -> Seq<TaskModel> {
    keep(tasks, |t: TaskModel| is_live(t, now, ttl_secs))
}

/// `tasks` with `t` stored under its id: it replaces the task that has that
/// id, or is appended when there is none.
pub open spec fn upsert(tasks: Seq<TaskModel>, t: TaskModel) -> Seq<TaskModel> {
    if holds(tasks, t.id) {
        tasks.update(index_of(tasks, t.id), t)
    } else {
        tasks.push(t)
    }
}

/// A newly submitted task whose history is the user's message.
pub open spec fn new_task(
    id: Seq<char>,
    session_id: Option<Seq<char>>,
    message: MessageModel,
    now: u128,
) -> TaskModel {
    TaskModel {
        id,
        session_id,
        status: StatusModel { state: TaskState::Submitted, message: None },
        artifacts: seq![],
        history: seq![message],
        created_at: now,
    }
}

/// `t` moved to the working state.
pub open spec fn working(t: TaskModel) -> TaskModel {
    TaskModel { status: StatusModel { state: TaskState::Working, message: t.status.message }, ..t }
}

/// The artifact recording the agent's response.
pub open spec fn response_artifact(text: Seq<char>) -> ArtifactModel {
    ArtifactModel { name: "response"@, parts: seq![PartModel::Text(text)], index: Some(0) }
}

/// `t` completed with the agent's response `text`.
pub open spec fn completed(t: TaskModel, text: Seq<char>) -> TaskModel {
    TaskModel {
        history: t.history.push(agent_text_message(text)),
        artifacts: t.artifacts.push(response_artifact(text)),
        status: StatusModel {
            state: TaskState::Completed,
            message: Some(agent_text_message(text)),
        },
        ..t
    }
}

/// `t` failed with the error text `text`.
pub open spec fn failed(t: TaskModel, text: Seq<char>) -> TaskModel {
    TaskModel {
        history: t.history.push(agent_text_message(text)),
        status: StatusModel { state: TaskState::Failed, message: Some(agent_text_message(text)) },
        ..t
    }
}

/// The note attached to a task the client canceled.
pub open spec fn cancel_note() -> Seq<char> {
    "Task canceled by client"@
}

/// `t` canceled by the client.
pub open spec fn canceled(t: TaskModel) -> TaskModel {
    TaskModel {
        status: StatusModel {
            state: TaskState::Canceled,
            message: Some(agent_text_message(cancel_note())),
        },
        ..t
    }
}

/// `t` with its history cut to the last `limit` messages when a limit is given
/// and the history is longer.
pub open spec fn limit_history(t: TaskModel, limit: Option<usize>) -> TaskModel {
    match limit {
        Some(n) => if t.history.len() > n {
            TaskModel { history: t.history.skip(t.history.len() - n), ..t }
        } else {
            t
        },
        None => t,
    }
}

/// What a task store holds.
pub struct StoreModel {
    pub tasks: Seq<TaskModel>,
    pub max_tasks: usize,
    pub ttl_secs: u64,
}

/// What every task store satisfies: ids are unique and the store holds no
/// more than `max_tasks` tasks.
pub open spec fn store_invariant(s: StoreModel) -> bool {
    ids_unique(s.tasks) && s.tasks.len() <= s.max_tasks
}

/// The store `s` with its task list replaced.
pub open spec fn with_tasks(s: StoreModel, tasks: Seq<TaskModel>) -> StoreModel {
    StoreModel { tasks, ..s }
}

/// `s` with task `id` replaced by `t` when present.
pub open spec fn replace_task(s: StoreModel, id: Seq<char>, t: TaskModel) -> StoreModel {
    with_tasks(s, s.tasks.update(index_of(s.tasks, id), t))
}

/// Creating a task at time `now`: expired tasks are evicted first; when the
/// live tasks fill the capacity nothing is created, otherwise the new task is
/// stored under its id.
pub open spec fn create_outcome(
    s: StoreModel,
    now: u128,
    id: Seq<char>,
    session_id: Option<Seq<char>>,
    message: MessageModel,
) -> (StoreModel, Option<TaskModel>) {
    let live = retain_live(s.tasks, now, s.ttl_secs);
    if live.len() >= s.max_tasks {
        (with_tasks(s, live), None)
    } else {
        let t = new_task(id, session_id, message, now);
        (with_tasks(s, upsert(live, t)), Some(t))
    }
}

/// A task belongs to the listing of `session` (every task belongs when no
/// session is given).
pub open spec fn in_session(t: TaskModel, session: Option<Seq<char>>) -> bool {
    match session {
        Some(s) => t.session_id == Some(s),
        None => true,
    }
}

/// The tasks of the listing of `session`, in store order.
pub open spec fn session_tasks(tasks: Seq<TaskModel>, session: Option<Seq<char>>) -> Seq<TaskModel> {
    keep(tasks, |t: TaskModel| in_session(t, session))
}

/// Where a page starts in a listing: at the beginning without a cursor, just
/// after the task named by the cursor, or at the end when the cursor names no
/// task of the listing.
pub open spec fn page_start(listing: Seq<TaskModel>, cursor: Option<Seq<char>>) -> int {
    match cursor {
        None => 0,
        Some(c) => if holds(listing, c) {
            index_of(listing, c) + 1
        } else {
            listing.len() as int
        },
    }
}

/// Where a page of at most `limit` tasks that starts at `start` ends.
pub open spec fn page_end(len: int, start: int, limit: usize) -> int {
    if start + limit < len {
        start + limit
    } else {
        len
    }
}

/// One page of the listing of `session`: the tasks after `cursor`, at most
/// `limit` of them, and the cursor of the next page (the id of the page's
/// last task) when the page is not empty and tasks remain after it.
pub open spec fn list_outcome(
    tasks: Seq<TaskModel>,
    session: Option<Seq<char>>,
    cursor: Option<Seq<char>>,
    limit: usize,
) -> (Seq<TaskModel>, Option<Seq<char>>) {
    let listing = session_tasks(tasks, session);
    let start = page_start(listing, cursor);
    let end = page_end(listing.len() as int, start, limit);
    (
        listing.subrange(start, end),
        if start < end && end < listing.len() {
            Some(listing[end - 1].id)
        } else {
            None
        },
    )
}

/// The text of an optional string slice.
pub open spec fn opt_str(s: Option<&str>) -> Option<Seq<char>> {
    match s {
        Some(s) => Some(s@),
        None => None,
    }
}

/// Marking task `id` working; no effect when it is absent.
pub open spec fn working_outcome(s: StoreModel, id: Seq<char>) -> StoreModel {
    match lookup(s.tasks, id) {
        Some(t) => replace_task(s, id, working(t)),
        None => s,
    }
}

/// Completing task `id` with the response `text`; no effect when it is absent.
pub open spec fn complete_outcome(s: StoreModel, id: Seq<char>, text: Seq<char>) -> StoreModel {
    match lookup(s.tasks, id) {
        Some(t) => replace_task(s, id, completed(t, text)),
        None => s,
    }
}

/// Failing task `id` with the error `text`; no effect when it is absent.
pub open spec fn fail_outcome(s: StoreModel, id: Seq<char>, text: Seq<char>) -> StoreModel {
    match lookup(s.tasks, id) {
        Some(t) => replace_task(s, id, failed(t, text)),
        None => s,
    }
}

/// Reading task `id`, its history cut to `limit` messages.
pub open spec fn get_outcome(s: StoreModel, id: Seq<char>, limit: Option<usize>) -> Option<TaskModel> {
    match lookup(s.tasks, id) {
        Some(t) => Some(limit_history(t, limit)),
        None => None,
    }
}

/// Canceling task `id`: refused when it is absent or already terminal.
pub open spec fn cancel_outcome(s: StoreModel, id: Seq<char>) -> (StoreModel, Result<TaskModel, CancelError>) {
    match lookup(s.tasks, id) {
        None => (s, Err(CancelError::NotFound)),
        Some(t) => if is_terminal(t.status.state) {
            (s, Err(CancelError::NotCancelable(t.status.state)))
        } else {
            (replace_task(s, id, canceled(t)), Ok(canceled(t)))
        },
    }
}

/// The model of a cancel result.
pub open spec fn cancel_result(r: Result<A2ATask, CancelError>) -> Result<TaskModel, CancelError> {
    match r {
        Ok(t) => Ok(t@),
        Err(e) => Err(e),
    }
}

// ── Lemmas ──────────────────────────────────────────────────────

/// In a store with unique ids, the task at position `i` is the one found by
/// its id.
pub proof fn lemma_lookup_at(tasks: Seq<TaskModel>, i: int)
    requires
        ids_unique(tasks),
        0 <= i < tasks.len(),
    ensures
        holds(tasks, tasks[i].id),
        index_of(tasks, tasks[i].id) == i,
        lookup(tasks, tasks[i].id) == Some(tasks[i]),
{
    assert(holds(tasks, tasks[i].id));
    let j = index_of(tasks, tasks[i].id);
    assert(tasks[j].id == tasks[i].id);
}

/// Replacing a task by one with the same id keeps ids unique.
pub proof fn lemma_update_same_id(tasks: Seq<TaskModel>, i: int, t: TaskModel)
    requires
        ids_unique(tasks),
        0 <= i < tasks.len(),
        t.id == tasks[i].id,
    ensures
        ids_unique(tasks.update(i, t)),
        forall|id: Seq<char>| holds(tasks.update(i, t), id) == holds(tasks, id),
{
    let u = tasks.update(i, t);
    assert forall|a: int, b: int|
        0 <= a < u.len() && 0 <= b < u.len() && (#[trigger] u[a]).id == (#[trigger] u[b]).id implies a
        == b by {
        assert(u[a].id == tasks[a].id);
        assert(u[b].id == tasks[b].id);
    }
    assert forall|id: Seq<char>| holds(u, id) == holds(tasks, id) by {
        if holds(u, id) {
            let k = choose|k: int| 0 <= k < u.len() && (#[trigger] u[k]).id == id;
            assert(tasks[k].id == id);
        }
        if holds(tasks, id) {
            let k = choose|k: int| 0 <= k < tasks.len() && (#[trigger] tasks[k]).id == id;
            assert(u[k].id == id);
        }
    }
}

/// Appending a task whose id is not held keeps ids unique.
pub proof fn lemma_push_fresh(tasks: Seq<TaskModel>, t: TaskModel)
    requires
        ids_unique(tasks),
        !holds(tasks, t.id),
    ensures
        ids_unique(tasks.push(t)),
{
    let u = tasks.push(t);
    assert forall|a: int, b: int|
        0 <= a < u.len() && 0 <= b < u.len() && (#[trigger] u[a]).id == (#[trigger] u[b]).id implies a
        == b by {
        if a < tasks.len() && b == tasks.len() {
            assert(tasks[a].id == t.id);
        }
        if b < tasks.len() && a == tasks.len() {
            assert(tasks[b].id == t.id);
        }
    }
}

/// Storing a task keeps ids unique, holds the task under its id, and leaves
/// every other id as it was.
pub proof fn lemma_upsert(tasks: Seq<TaskModel>, t: TaskModel)
    requires
        ids_unique(tasks),
    ensures
        ids_unique(upsert(tasks, t)),
        lookup(upsert(tasks, t), t.id) == Some(t),
        forall|id: Seq<char>| id != t.id ==> lookup(upsert(tasks, t), id) == lookup(tasks, id),
        upsert(tasks, t).len() == if holds(tasks, t.id) {
            tasks.len()
        } else {
            tasks.len() + 1
        },
{
    let u = upsert(tasks, t);
    if holds(tasks, t.id) {
        let i = index_of(tasks, t.id);
        lemma_update_same_id(tasks, i, t);
        lemma_lookup_at(u, i);
        assert forall|id: Seq<char>| id != t.id implies lookup(u, id) == lookup(tasks, id) by {
            if holds(tasks, id) {
                let j = index_of(tasks, id);
                lemma_lookup_at(tasks, j);
                assert(j != i);
                assert(u[j] == tasks[j]);
                lemma_lookup_at(u, j);
            }
        }
    } else {
        lemma_push_fresh(tasks, t);
        lemma_lookup_at(u, tasks.len() as int);
        assert forall|id: Seq<char>| id != t.id implies lookup(u, id) == lookup(tasks, id) by {
            if holds(tasks, id) {
                let j = index_of(tasks, id);
                lemma_lookup_at(tasks, j);
                assert(u[j] == tasks[j]);
                lemma_lookup_at(u, j);
            }
            if holds(u, id) {
                let j = index_of(u, id);
                assert(j < tasks.len());
                assert(tasks[j] == u[j]);
            }
        }
    }
}

/// The kept tasks are exactly the members that satisfy `p`; keeping tasks
/// keeps ids unique.
pub proof fn lemma_keep(tasks: Seq<TaskModel>, p: spec_fn(TaskModel) -> bool)
    ensures
        keep(tasks, p).len() <= tasks.len(),
        forall|x: TaskModel|
            keep(tasks, p).contains(x) <==> (tasks.contains(x) && p(x)),
        ids_unique(tasks) ==> ids_unique(keep(tasks, p)),
    decreases tasks.len(),
{
    if tasks.len() > 0 {
        let d = tasks.drop_last();
        let l = tasks.last();
        lemma_keep(d, p);
        let rd = keep(d, p);
        let r = keep(tasks, p);
        assert forall|x: TaskModel| tasks.contains(x) <==> (d.contains(x) || x == l) by {
            if tasks.contains(x) {
                let k = choose|k: int| 0 <= k < tasks.len() && tasks[k] == x;
                if k < d.len() {
                    assert(d[k] == x);
                }
            }
            if d.contains(x) {
                let k = choose|k: int| 0 <= k < d.len() && d[k] == x;
                assert(tasks[k] == x);
            }
            if x == l {
                assert(tasks[tasks.len() - 1] == x);
            }
        }
        if p(l) {
            assert forall|x: TaskModel| r.contains(x) <==> (rd.contains(x) || x == l) by {
                if r.contains(x) {
                    let k = choose|k: int| 0 <= k < r.len() && r[k] == x;
                    if k < rd.len() {
                        assert(rd[k] == x);
                    }
                }
                if rd.contains(x) {
                    let k = choose|k: int| 0 <= k < rd.len() && rd[k] == x;
                    assert(r[k] == x);
                }
                if x == l {
                    assert(r[r.len() - 1] == x);
                }
            }
        }
        if ids_unique(tasks) {
            assert(ids_unique(d)) by {
                assert forall|a: int, b: int|
                    0 <= a < d.len() && 0 <= b < d.len() && (#[trigger] d[a]).id == (#[trigger] d[b]).id
                        implies a == b by {
                    assert(tasks[a] == d[a]);
                    assert(tasks[b] == d[b]);
                }
            }
            if p(l) {
                assert(!holds(rd, l.id)) by {
                    if holds(rd, l.id) {
                        let k = choose|k: int| 0 <= k < rd.len() && (#[trigger] rd[k]).id == l.id;
                        assert(rd.contains(rd[k]));
                        assert(d.contains(rd[k]));
                        let m = choose|m: int| 0 <= m < d.len() && d[m] == rd[k];
                        assert(tasks[m] == d[m]);
                        assert(l == tasks[tasks.len() - 1]);
                        assert(tasks[m].id == tasks[tasks.len() - 1].id);
                    }
                }
                lemma_push_fresh(rd, l);
            }
        }
    }
}

/// Eviction keeps exactly the live tasks: a task is found after eviction
/// precisely when it was found before and is live.
pub proof fn lemma_lookup_after_eviction(
    tasks: Seq<TaskModel>,
    now: u128,
    ttl_secs: u64,
    id: Seq<char>,
)
    requires
        ids_unique(tasks),
    ensures
        lookup(retain_live(tasks, now, ttl_secs), id) == match lookup(tasks, id) {
            Some(t) => if is_live(t, now, ttl_secs) {
                Some(t)
            } else {
                None
            },
            None => None,
        },
{
    lemma_keep(tasks, |t: TaskModel| is_live(t, now, ttl_secs));
    let r = retain_live(tasks, now, ttl_secs);
    if holds(r, id) {
        let k = index_of(r, id);
        assert(r.contains(r[k]));
        assert(tasks.contains(r[k]));
        let m = choose|m: int| 0 <= m < tasks.len() && tasks[m] == r[k];
        lemma_lookup_at(tasks, m);
    }
    if holds(tasks, id) {
        let m = index_of(tasks, id);
        if is_live(tasks[m], now, ttl_secs) {
            assert(tasks.contains(tasks[m]));
            assert(r.contains(tasks[m]));
            let k = choose|k: int| 0 <= k < r.len() && r[k] == tasks[m];
            lemma_lookup_at(r, k);
        }
    }
}

// ── Laws ────────────────────────────────────────────────────────

/// A created task is then found under its id, and every other task is the
/// one that was live before.
pub proof fn law_create_then_lookup(
    s: StoreModel,
    now: u128,
    id: Seq<char>,
    session_id: Option<Seq<char>>,
    message: MessageModel,
    other: Seq<char>,
)
    requires
        store_invariant(s),
        create_outcome(s, now, id, session_id, message).1 is Some,
    ensures
        lookup(create_outcome(s, now, id, session_id, message).0.tasks, id) == create_outcome(
            s,
            now,
            id,
            session_id,
            message,
        ).1,
        other != id ==> lookup(create_outcome(s, now, id, session_id, message).0.tasks, other)
            == lookup(retain_live(s.tasks, now, s.ttl_secs), other),
        store_invariant(create_outcome(s, now, id, session_id, message).0),
{
    let live = retain_live(s.tasks, now, s.ttl_secs);
    lemma_keep(s.tasks, |t: TaskModel| is_live(t, now, s.ttl_secs));
    lemma_upsert(live, new_task(id, session_id, message, now));
}

/// Creation is refused exactly when the live tasks fill the capacity, and a
/// refused creation only evicts.
pub proof fn law_create_refused_when_full(
    s: StoreModel,
    now: u128,
    id: Seq<char>,
    session_id: Option<Seq<char>>,
    message: MessageModel,
)
    ensures
        (create_outcome(s, now, id, session_id, message).1 is None) == (retain_live(
            s.tasks,
            now,
            s.ttl_secs,
        ).len() >= s.max_tasks),
        create_outcome(s, now, id, session_id, message).1 is None ==> create_outcome(
            s,
            now,
            id,
            session_id,
            message,
        ).0 == with_tasks(s, retain_live(s.tasks, now, s.ttl_secs)),
{
}

/// Replacing task `id` changes that task only: every other id finds what it
/// found before, and the number of tasks stays the same.
pub proof fn law_replace_touches_one_task(s: StoreModel, id: Seq<char>, t: TaskModel, other: Seq<char>)
    requires
        store_invariant(s),
        holds(s.tasks, id),
        t.id == id,
    ensures
        store_invariant(replace_task(s, id, t)),
        lookup(replace_task(s, id, t).tasks, id) == Some(t),
        other != id ==> lookup(replace_task(s, id, t).tasks, other) == lookup(s.tasks, other),
        replace_task(s, id, t).tasks.len() == s.tasks.len(),
{
    let i = index_of(s.tasks, id);
    lemma_update_same_id(s.tasks, i, t);
    let u = replace_task(s, id, t).tasks;
    lemma_lookup_at(u, i);
    if holds(s.tasks, other) && other != id {
        let j = index_of(s.tasks, other);
        lemma_lookup_at(s.tasks, j);
        lemma_lookup_at(u, j);
    }
    if holds(u, other) && other != id {
        let j = index_of(u, other);
        lemma_lookup_at(s.tasks, j);
    }
}

/// A canceled task is in a terminal state, so a second cancellation is
/// refused with `NotCancelable(Canceled)`; the updates keep the task's id;
/// completing adds one message and one artifact, failing one message.
pub proof fn law_task_updates(t: TaskModel, text: Seq<char>)
    ensures
        is_terminal(canceled(t).status.state),
        canceled(t).status.state == TaskState::Canceled,
        completed(t, text).id == t.id && failed(t, text).id == t.id && working(t).id == t.id,
        completed(t, text).history.len() == t.history.len() + 1,
        completed(t, text).artifacts.len() == t.artifacts.len() + 1,
        failed(t, text).history.len() == t.history.len() + 1,
        failed(t, text).artifacts == t.artifacts,
{
}

/// Canceling twice: once a cancellation succeeds, canceling the same task
/// again is refused with `NotCancelable(Canceled)` and changes nothing.
pub proof fn law_cancel_twice(s: StoreModel, id: Seq<char>)
    requires
        store_invariant(s),
        cancel_outcome(s, id).1 is Ok,
    ensures
        cancel_outcome(cancel_outcome(s, id).0, id) == (
            cancel_outcome(s, id).0,
            Err::<TaskModel, CancelError>(CancelError::NotCancelable(TaskState::Canceled)),
        ),
{
    let t = lookup(s.tasks, id)->0;
    law_replace_touches_one_task(s, id, canceled(t), id);
}

/// Reading a task back after the agent's response or error was recorded
/// gives the completed or failed task.
pub proof fn law_reply_then_get(s: StoreModel, id: Seq<char>, text: Seq<char>)
    requires
        store_invariant(s),
        holds(s.tasks, id),
    ensures
        get_outcome(complete_outcome(s, id, text), id, None) == Some(
            completed(lookup(s.tasks, id)->0, text),
        ),
        get_outcome(fail_outcome(s, id, text), id, None) == Some(
            failed(lookup(s.tasks, id)->0, text),
        ),
        get_outcome(working_outcome(s, id), id, None) == Some(working(lookup(s.tasks, id)->0)),
{
    let t = lookup(s.tasks, id)->0;
    law_replace_touches_one_task(s, id, completed(t, text), id);
    law_replace_touches_one_task(s, id, failed(t, text), id);
    law_replace_touches_one_task(s, id, working(t), id);
}

/// A history limit keeps the last `min(n, len)` messages of the history, and
/// no limit keeps all of them.
pub proof fn law_history_limit(t: TaskModel, n: usize)
    ensures
        limit_history(t, None) == t,
        limit_history(t, Some(n)).history.len() == if t.history.len() > n {
            n as nat
        } else {
            t.history.len()
        },
        limit_history(t, Some(n)).history == t.history.skip(
            t.history.len() - limit_history(t, Some(n)).history.len(),
        ),
        limit_history(t, Some(n)).id == t.id && limit_history(t, Some(n)).status == t.status,
        limit_history(t, Some(n)) == (TaskModel { history: limit_history(t, Some(n)).history, ..t }),
{
    if t.history.len() <= n {
        assert(t.history.skip(0) =~= t.history);
    }
}

/// Reading a task returns the stored task: only its history may be cut, to
/// its last `min(n, len)` messages when a limit `n` is given; its id,
/// session, status, artifacts and creation time are the stored ones.
pub proof fn law_get_returns_stored_task(s: StoreModel, id: Seq<char>, limit: Option<usize>)
    requires
        store_invariant(s),
    ensures
        match lookup(s.tasks, id) {
            None => get_outcome(s, id, limit) is None,
            Some(t) => get_outcome(s, id, limit) matches Some(r) && {
                &&& r.id == id && t.id == id
                &&& r.session_id == t.session_id
                &&& r.status == t.status
                &&& r.artifacts == t.artifacts
                &&& r.created_at == t.created_at
                &&& r.history == t.history.skip(t.history.len() - r.history.len())
                &&& match limit {
                    None => r == t,
                    Some(n) => r.history.len() == if t.history.len() > n {
                        n as nat
                    } else {
                        t.history.len()
                    },
                }
            },
        },
{
    if holds(s.tasks, id) {
        let t = lookup(s.tasks, id)->0;
        if let Some(n) = limit {
            law_history_limit(t, n);
        } else {
            assert(t.history.skip(0) =~= t.history);
        }
    }
}

/// Canceling a task that is not terminal only changes its status: the
/// returned task, which is then the stored one, keeps the id, session,
/// history, artifacts and creation time, and is canceled with the note
/// "Task canceled by client". Any other cancellation leaves the store as it
/// was.
pub proof fn law_cancel_keeps_conversation(s: StoreModel, id: Seq<char>)
    requires
        store_invariant(s),
    ensures
        match lookup(s.tasks, id) {
            Some(t) => if !is_terminal(t.status.state) {
                let (s1, r) = cancel_outcome(s, id);
                r matches Ok(c) && {
                    &&& c.id == t.id && c.session_id == t.session_id
                    &&& c.history == t.history && c.artifacts == t.artifacts
                    &&& c.created_at == t.created_at
                    &&& c.status.state == TaskState::Canceled
                    &&& c.status.message == Some(
                        MessageModel {
                            role: crate::types::MessageRole::Agent,
                            parts: seq![PartModel::Text("Task canceled by client"@)],
                        },
                    )
                    &&& lookup(s1.tasks, id) == Some(c)
                    &&& s1.tasks.len() == s.tasks.len()
                }
            } else {
                cancel_outcome(s, id).0 == s
            },
            None => cancel_outcome(s, id).0 == s,
        },
{
    if holds(s.tasks, id) {
        let t = lookup(s.tasks, id)->0;
        if !is_terminal(t.status.state) {
            law_replace_touches_one_task(s, id, canceled(t), id);
        }
    }
}

/// What each update does to a task: marking working changes only the state;
/// completing appends the response to the history and as the `response`
/// artifact and sets the completed status; failing appends the error to the
/// history and sets the failed status. Id, session and creation time stay.
pub proof fn law_update_effects(t: TaskModel, text: Seq<char>)
    ensures
        working(t) == (TaskModel {
            status: StatusModel { state: TaskState::Working, message: t.status.message },
            ..t
        }),
        completed(t, text).id == t.id && completed(t, text).session_id == t.session_id
            && completed(t, text).created_at == t.created_at,
        completed(t, text).history == t.history.push(
            MessageModel {
                role: crate::types::MessageRole::Agent,
                parts: seq![PartModel::Text(text)],
            },
        ),
        completed(t, text).artifacts == t.artifacts.push(
            ArtifactModel { name: "response"@, parts: seq![PartModel::Text(text)], index: Some(0) },
        ),
        completed(t, text).status.state == TaskState::Completed,
        failed(t, text).id == t.id && failed(t, text).session_id == t.session_id
            && failed(t, text).created_at == t.created_at,
        failed(t, text).history == t.history.push(
            MessageModel {
                role: crate::types::MessageRole::Agent,
                parts: seq![PartModel::Text(text)],
            },
        ),
        failed(t, text).artifacts == t.artifacts,
        failed(t, text).status.state == TaskState::Failed,
        canceled(t) == (TaskModel { status: canceled(t).status, ..t }),
{
}

/// Following the next-page cursor continues the listing exactly where the
/// previous page ended.
pub proof fn law_next_page_follows(
    tasks: Seq<TaskModel>,
    session: Option<Seq<char>>,
    cursor: Option<Seq<char>>,
    limit: usize,
)
    requires
        ids_unique(tasks),
        list_outcome(tasks, session, cursor, limit).1 is Some,
    ensures
        ({
            let listing = session_tasks(tasks, session);
            let start = page_start(listing, cursor);
            let end = page_end(listing.len() as int, start, limit);
            &&& page_start(listing, list_outcome(tasks, session, cursor, limit).1) == end
            &&& end == start + limit
        }),
{
    let listing = session_tasks(tasks, session);
    lemma_keep(tasks, |t: TaskModel| in_session(t, session));
    let start = page_start(listing, cursor);
    let end = page_end(listing.len() as int, start, limit);
    if start < end && end < listing.len() {
        lemma_lookup_at(listing, end - 1);
    }
}

} // verus!

verus! {


/// In-memory task store with a capacity limit and a time-to-live.
pub struct TaskStore {
    tasks: Vec<A2ATask>,
    max_tasks: usize,
    task_ttl_secs: u64,
}

impl View for TaskStore {
    type V = StoreModel;

    closed spec fn view(&self) -> StoreModel {
        StoreModel {
            tasks: task_models(self.tasks@),
            max_tasks: self.max_tasks,
            ttl_secs: self.task_ttl_secs,
        }
    }
}

/// Position of the task with id `id`.
fn position(tasks: &Vec<A2ATask>, id: &str) -> (r: Option<usize>)
    ensures
        match r {
            Some(i) => i < tasks@.len() && tasks@[i as int]@.id == id@,
            None => !holds(task_models(tasks@), id@),
        },
{
    let mut i: usize = 0;
    while i < tasks.len()
        invariant
            i <= tasks@.len(),
            forall|j: int| 0 <= j < i ==> (#[trigger] tasks@[j])@.id != id@,
        decreases tasks@.len() - i,
    {
        if str_eq(tasks[i].id.as_str(), id) {
            return Some(i);
        }
        i += 1;
    }
    proof {
        let m = task_models(tasks@);
        if holds(m, id@) {
            let k = choose|k: int| 0 <= k < m.len() && (#[trigger] m[k]).id == id@;
            assert(tasks@[k]@.id == id@);
        }
    }
    None
}

/// Whether a task is live at `now` for a time-to-live of `ttl_secs` seconds.
fn task_is_live(t: &A2ATask, now: u128, ttl_secs: u64) -> (r: bool)
    ensures
        r == is_live(t@, now, ttl_secs),
{
    now < t.created_at || now - t.created_at < (ttl_secs as u128) * 1_000_000_000
}

/// The messages of `msgs` from position `start` on.
fn tail_messages(msgs: &Vec<Message>, start: usize) -> (r: Vec<Message>)
    requires
        start <= msgs@.len(),
    ensures
        message_models(r@) == message_models(msgs@).skip(start as int),
{
    let mut out: Vec<Message> = Vec::new();
    let mut i: usize = start;
    while i < msgs.len()
        invariant
            start <= i <= msgs@.len(),
            message_models(out@) =~= message_models(msgs@).subrange(start as int, i as int),
        decreases msgs@.len() - i,
    {
        let m = msgs[i].duplicate();
        let ghost before = out@;
        out.push(m);
        assert(message_models(out@) =~= message_models(before).push(m@));
        i += 1;
    }
    out
}

impl TaskStore {
    #[verifier::type_invariant]
    spec fn inv(&self) -> bool {
        store_invariant(self@)
    }

    /// Create a new task store with the given capacity and TTL (seconds).
    pub fn new(max_tasks: usize, task_ttl_secs: u64) -> (r: Self)
        ensures
            r@ == (StoreModel { tasks: seq![], max_tasks, ttl_secs: task_ttl_secs }),
    {
        let r = TaskStore { tasks: Vec::new(), max_tasks, task_ttl_secs };
        assert(task_models(r.tasks@) =~= seq![]);
        r
    }

    /// The number of tasks held.
    pub fn len(&self) -> (r: usize)
        ensures
            r == self@.tasks.len(),
    {
        self.tasks.len()
    }

    /// Evict the tasks that are expired at `now` (nanoseconds since the epoch).
    pub fn evict_expired(&mut self, now: u128)
        ensures
            final(self)@ == with_tasks(old(self)@, retain_live(old(self)@.tasks, now, old(self)@.ttl_secs)),
            store_invariant(final(self)@),
    {
        proof {
            use_type_invariant(&*self);
        }
        let ghost orig = self@.tasks;
        let ttl = self.task_ttl_secs;
        let mut rest: Vec<A2ATask> = Vec::new();
        std::mem::swap(&mut rest, &mut self.tasks);
        assert(task_models(rest@) == orig);
        let mut kept: Vec<A2ATask> = Vec::new();
        let ghost mut done: int = 0;
        while rest.len() > 0
            invariant
                0 <= done <= orig.len(),
                task_models(rest@) == orig.skip(done),
                task_models(kept@) == retain_live(orig.take(done), now, ttl),
            decreases rest@.len(),
        {
            let ghost before = kept@;
            let ghost r0 = rest@;
            assert(task_models(r0).len() == orig.len() - done);
            assert(task_models(r0)[0] == orig[done]);
            let t = rest.remove(0);
            assert(t == r0[0]);
            assert(t@ == orig[done]);
            assert(orig.take(done + 1).drop_last() =~= orig.take(done));
            assert(orig.take(done + 1).last() == orig[done]);
            if task_is_live(&t, now, ttl) {
                kept.push(t);
                assert(task_models(kept@) =~= task_models(before).push(orig[done]));
            }
            assert forall|k: int| 0 <= k < rest@.len() implies task_models(rest@)[k] == orig.skip(
                done + 1,
            )[k] by {
                assert(rest@[k] == r0[k + 1]);
                assert(task_models(r0)[k + 1] == orig.skip(done)[k + 1]);
            }
            assert(task_models(rest@) =~= orig.skip(done + 1));
            proof {
                done = done + 1;
            }
        }
        assert(orig.skip(done).len() == 0);
        assert(orig.take(done) =~= orig);
        proof {
            lemma_keep(orig, |t: TaskModel| is_live(t, now, ttl));
        }
        self.tasks = kept;
    }

    /// Create a task at time `now` under the id `task_id`.
    ///
    /// Evicts expired tasks first, then checks capacity: returns `None` when
    /// the store is full after eviction. A task already stored under the
    /// same id is replaced.
    pub fn create_task_at(
        &mut self,
        now: u128,
        task_id: String,
        session_id: Option<String>,
        message: Message,
    ) -> (r: Option<A2ATask>)
        ensures
            (final(self)@, opt_task(r)) == create_outcome(
                old(self)@,
                now,
                task_id@,
                opt_text(session_id),
                message@,
            ),
            store_invariant(final(self)@),
    {
        self.evict_expired(now);
        proof {
            use_type_invariant(&*self);
        }
        if self.tasks.len() >= self.max_tasks {
            return None;
        }
        let task = A2ATask {
            id: task_id,
            session_id,
            status: TaskStatus { state: TaskState::Submitted, message: None },
            artifacts: Vec::new(),
            history: vec![message],
            created_at: now,
        };
        assert(artifact_models(task.artifacts@) =~= seq![]);
        assert(message_models(task.history@) =~= seq![message@]);
        let copy = task.duplicate();
        let ghost live = self@.tasks;
        proof {
            lemma_upsert(live, task@);
        }
        let mut tasks: Vec<A2ATask> = Vec::new();
        std::mem::swap(&mut tasks, &mut self.tasks);
        match position(&tasks, task.id.as_str()) {
            Some(i) => {
                proof {
                    lemma_lookup_at(live, i as int);
                }
                let ghost before = tasks@;
                tasks.remove(i);
                tasks.insert(i, task);
                assert(tasks@ =~= before.update(i as int, task));
                assert(task_models(tasks@) =~= live.update(i as int, task@));
            },
            None => {
                let ghost before = tasks@;
                tasks.push(task);
                assert(task_models(tasks@) =~= live.push(task@));
            },
        }
        self.tasks = tasks;
        Some(copy)
    }

    /// Create a new task from a user message, stamped with the current time.
    /// The task takes the given id, or a fresh random one when none is given.
    ///
    /// Evicts expired tasks first, then checks capacity.
    /// Returns `None` if capacity is exceeded after eviction.
    pub fn create_task(
        &mut self,
        id: Option<String>,
        session_id: Option<String>,
        message: Message,
    ) -> (r: Option<A2ATask>)
        ensures
            exists|now: u128, task_id: Seq<char>|
                {
                    &&& (final(self)@, opt_task(r)) == create_outcome(
                        old(self)@,
                        now,
                        task_id,
                        opt_text(session_id),
                        message@,
                    )
                    &&& match id {
                        Some(i) => task_id == i@,
                        None => task_id.len() == 36,
                    }
                },
            store_invariant(final(self)@),
    {
        let now = now_nanos();
        let task_id = match id {
            Some(i) => i,
            None => random_task_id(),
        };
        let ghost tid = task_id@;
        self.create_task_at(now, task_id, session_id, message)
    }

    /// Get a task by id, keeping only the last `history_length` messages of
    /// its history when a length is given.
    pub fn get_task(&self, id: &str, history_length: Option<usize>) -> (r: Option<A2ATask>)
        ensures
            opt_task(r) == get_outcome(self@, id@, history_length),
    {
        proof {
            use_type_invariant(self);
        }
        match position(&self.tasks, id) {
            Some(i) => {
                proof {
                    lemma_lookup_at(self@.tasks, i as int);
                }
                let mut task = self.tasks[i].duplicate();
                if let Some(max_len) = history_length {
                    let len = task.history.len();
                    if len > max_len {
                        task.history = tail_messages(&task.history, len - max_len);
                    }
                }
                Some(task)
            },
            None => None,
        }
    }

    /// Replace the task at position `i` by `t`, which has the same id.
    fn put_back(&mut self, i: usize, t: A2ATask)
        requires
            i < old(self)@.tasks.len(),
            t@.id == old(self)@.tasks[i as int].id,
        ensures
            final(self)@ == with_tasks(old(self)@, old(self)@.tasks.update(i as int, t@)),
            store_invariant(final(self)@),
    {
        proof {
            use_type_invariant(&*self);
            lemma_update_same_id(self@.tasks, i as int, t@);
        }
        let ghost live = self@.tasks;
        let mut tasks: Vec<A2ATask> = Vec::new();
        std::mem::swap(&mut tasks, &mut self.tasks);
        let ghost before = tasks@;
        tasks.remove(i);
        tasks.insert(i, t);
        assert(tasks@ =~= before.update(i as int, t));
        assert(task_models(tasks@) =~= live.update(i as int, t@));
        self.tasks = tasks;
    }

    /// Update the state of task `id` to Working; no effect when absent.
    pub fn mark_working(&mut self, id: &str)
        ensures
            final(self)@ == working_outcome(old(self)@, id@),
            store_invariant(final(self)@),
    {
        proof {
            use_type_invariant(&*self);
        }
        if let Some(i) = position(&self.tasks, id) {
            proof {
                lemma_lookup_at(self@.tasks, i as int);
            }
            let mut t = self.tasks[i].duplicate();
            t.status.state = TaskState::Working;
            self.put_back(i, t);
        }
    }

    /// Complete task `id` with the agent's response: the response joins the
    /// history, becomes the status message and is recorded as an artifact.
    /// No effect when the task is absent.
    pub fn complete_task(&mut self, id: &str, response_text: &str)
        ensures
            final(self)@ == complete_outcome(old(self)@, id@, response_text@),
            store_invariant(final(self)@),
    {
        proof {
            use_type_invariant(&*self);
        }
        if let Some(i) = position(&self.tasks, id) {
            proof {
                lemma_lookup_at(self@.tasks, i as int);
            }
            let mut t = self.tasks[i].duplicate();
            let agent_message = Message::agent_text(response_text);
            let ghost h = t.history@;
            let ghost a = t.artifacts@;
            t.history.push(agent_message.duplicate());
            assert(message_models(t.history@) =~= message_models(h).push(agent_message@));
            let artifact = Artifact {
                name: "response".to_owned(),
                parts: vec![Part::Text { text: response_text.to_owned() }],
                index: Some(0),
            };
            proof {
                reveal_strlit("response");
                assert(crate::types::part_models(artifact.parts@) =~= seq![
                    PartModel::Text(response_text@),
                ]);
                assert(artifact@ =~= response_artifact(response_text@));
            }
            t.artifacts.push(artifact);
            assert(artifact_models(t.artifacts@) =~= artifact_models(a).push(
                response_artifact(response_text@),
            ));
            t.status = TaskStatus { state: TaskState::Completed, message: Some(agent_message) };
            self.put_back(i, t);
        }
    }

    /// Fail task `id` with an error message: the message joins the history and
    /// becomes the status message. No effect when the task is absent.
    pub fn fail_task(&mut self, id: &str, error: &str)
        ensures
            final(self)@ == fail_outcome(old(self)@, id@, error@),
            store_invariant(final(self)@),
    {
        proof {
            use_type_invariant(&*self);
        }
        if let Some(i) = position(&self.tasks, id) {
            proof {
                lemma_lookup_at(self@.tasks, i as int);
            }
            let mut t = self.tasks[i].duplicate();
            let error_message = Message::agent_text(error);
            let ghost h = t.history@;
            t.history.push(error_message.duplicate());
            assert(message_models(t.history@) =~= message_models(h).push(error_message@));
            t.status = TaskStatus { state: TaskState::Failed, message: Some(error_message) };
            self.put_back(i, t);
        }
    }

    /// Cancel task `id`: `NotFound` when absent, `NotCancelable` when it is
    /// already completed, canceled or failed; otherwise the canceled task.
    pub fn cancel_task(&mut self, id: &str) -> (r: Result<A2ATask, CancelError>)
        ensures
            (final(self)@, cancel_result(r)) == cancel_outcome(old(self)@, id@),
            store_invariant(final(self)@),
    {
        proof {
            use_type_invariant(&*self);
        }
        match position(&self.tasks, id) {
            None => Err(CancelError::NotFound),
            Some(i) => {
                proof {
                    lemma_lookup_at(self@.tasks, i as int);
                }
                let state = self.tasks[i].status.state;
                match state {
                    TaskState::Completed | TaskState::Canceled | TaskState::Failed => {
                        Err(CancelError::NotCancelable(state))
                    },
                    _ => {
                        let mut t = self.tasks[i].duplicate();
                        let note = Message::agent_text("Task canceled by client");
                        proof {
                            reveal_strlit("Task canceled by client");
                        }
                        t.status = TaskStatus { state: TaskState::Canceled, message: Some(note) };
                        let copy = t.duplicate();
                        self.put_back(i, t);
                        Ok(copy)
                    },
                }
            },
        }
    }

    /// One page of the tasks of a session (or of all tasks), in store order:
    /// at most `limit` tasks following the task named by `cursor`, and the
    /// cursor for the next page when more tasks follow.
    pub fn list_tasks(&self, session_id: Option<&str>, cursor: Option<&str>, limit: usize) -> (r: (
        Vec<A2ATask>,
        Option<String>,
    ))
        ensures
            (task_models(r.0@), opt_text(r.1)) == list_outcome(
                self@.tasks,
                opt_str(session_id),
                opt_str(cursor),
                limit,
            ),
    {
        proof {
            use_type_invariant(self);
        }
        let ghost all = self@.tasks;
        let ghost session = opt_str(session_id);
        let ghost listing = session_tasks(all, session);
        let mut idx: Vec<usize> = Vec::new();
        let mut i: usize = 0;
        while i < self.tasks.len()
            invariant
                i <= all.len(),
                all == task_models(self.tasks@),
                session == opt_str(session_id),
                forall|k: int| 0 <= k < idx@.len() ==> (#[trigger] idx@[k]) < all.len(),
                idx@.map_values(|j: usize| all[j as int]) == session_tasks(all.take(i as int), session),
            decreases all.len() - i,
        {
            let member = match session_id {
                None => true,
                Some(s) => match &self.tasks[i].session_id {
                    Some(x) => str_eq(x.as_str(), s),
                    None => false,
                },
            };
            assert(member == in_session(all[i as int], session));
            let ghost before = idx@;
            assert(all.take(i + 1).drop_last() =~= all.take(i as int));
            assert(all.take(i + 1).last() == all[i as int]);
            if member {
                idx.push(i);
                assert(idx@.map_values(|j: usize| all[j as int]) =~= before.map_values(
                    |j: usize| all[j as int],
                ).push(all[i as int]));
            }
            i += 1;
        }
        assert(all.take(all.len() as int) =~= all);
        assert(idx@.map_values(|j: usize| all[j as int]) == listing);
        assert forall|k: int| 0 <= k < idx@.len() implies listing[k] == all[idx@[k] as int] by {
            assert(idx@.map_values(|j: usize| all[j as int])[k] == all[idx@[k] as int]);
        }
        proof {
            lemma_keep(all, |t: TaskModel| in_session(t, session));
        }
        let n = idx.len();
        let start: usize = match cursor {
            None => 0,
            Some(c) => {
                let mut k: usize = 0;
                let mut found: Option<usize> = None;
                while k < n
                    invariant
                        k <= n,
                        n == listing.len(),
                        n == idx@.len(),
                        all == task_models(self.tasks@),
                        forall|q: int| 0 <= q < idx@.len() ==> (#[trigger] idx@[q]) < all.len(),
                        forall|q: int| 0 <= q < idx@.len() ==> listing[q] == all[(#[trigger] idx@[q]) as int],
                        found is None ==> forall|q: int| 0 <= q < k ==> (#[trigger] listing[q]).id != c@,
                        found matches Some(f) ==> f < n && listing[f as int].id == c@,
                    decreases n - k,
                {
                    if found.is_none() && str_eq(self.tasks[idx[k]].id.as_str(), c) {
                        found = Some(k);
                    }
                    k += 1;
                }
                match found {
                    Some(f) => {
                        proof {
                            lemma_lookup_at(listing, f as int);
                        }
                        f + 1
                    },
                    None => {
                        proof {
                            if holds(listing, c@) {
                                let q = choose|q: int| 0 <= q < listing.len() && (#[trigger] listing[q]).id == c@;
                                assert(listing[q].id != c@);
                            }
                        }
                        n
                    },
                }
            },
        };
        assert(start as int == page_start(listing, opt_str(cursor)));
        let end: usize = if limit < n - start {
            start + limit
        } else {
            n
        };
        let mut page: Vec<A2ATask> = Vec::new();
        let mut k: usize = start;
        while k < end
            invariant
                start <= k <= end <= n,
                n == listing.len(),
                n == idx@.len(),
                all == task_models(self.tasks@),
                forall|q: int| 0 <= q < idx@.len() ==> (#[trigger] idx@[q]) < all.len(),
                forall|q: int| 0 <= q < idx@.len() ==> listing[q] == all[(#[trigger] idx@[q]) as int],
                task_models(page@) =~= listing.subrange(start as int, k as int),
            decreases end - k,
        {
            let t = self.tasks[idx[k]].duplicate();
            let ghost before = page@;
            page.push(t);
            assert(task_models(page@) =~= task_models(before).push(t@));
            k += 1;
        }
        let next = if start < end && end < n {
            Some(self.tasks[idx[end - 1]].id.clone())
        } else {
            None
        };
        (page, next)
    }
}

} // verus!
