//! A2A v1.0.0-rc wire types and the conversion from stored tasks.
//!
//! v1 adds `supportedInterfaces` to the Agent Card, untagged parts (text,
//! file or data, told apart by their fields), `createdAt` / `lastModified`
//! timestamps, and the methods `SendMessage`, `GetTask`, `CancelTask` and
//! `ListTasks`.

use crate::text::{concat_str, decimal, decimal_string};
use crate::types;
use serde_json::Value;
use vstd::prelude::*;

verus! {

/// What `chrono::DateTime::<Utc>::from_timestamp(secs, nsecs)` followed by
/// `to_rfc3339()` gives: `None` when chrono rejects the timestamp.
pub uninterp spec fn rfc3339_timestamp(secs: i64, nsecs: u32) -> Option<Seq<char>>;

/// Calls `chrono::DateTime::<Utc>::from_timestamp(secs, nsecs)` and renders
/// the instant it gives with `DateTime::to_rfc3339`. `from_timestamp` accepts
/// every number of seconds from 0 to 8_000_000_000_000 (its dates reach the
/// year 262142) with a sub-second part below one second; where it returns
/// `None` this does too. The text is given a name, not described.
#[verifier::external_body]
fn rfc3339(secs: i64, nsecs: u32) -> (r: Option<String>)
    ensures
        types::opt_text(r) == rfc3339_timestamp(secs, nsecs),
        0 <= secs <= 8_000_000_000_000 && nsecs < 1_000_000_000 ==> r is Some,
{
    chrono::DateTime::from_timestamp(secs, nsecs).map(|dt| dt.to_rfc3339())
}

/// The RFC 3339 text of a time given in nanoseconds since the epoch; empty
/// when chrono cannot represent it.
pub open spec fn timestamp_text(nanos: u128) -> Seq<char> {
    let secs = nanos / 1_000_000_000;
    if secs <= i64::MAX {
        match rfc3339_timestamp(secs as i64, (nanos % 1_000_000_000) as u32) {
            Some(t) => t,
            None => seq![],
        }
    } else {
        seq![]
    }
}

/// The RFC 3339 text of a time given in nanoseconds since the epoch.
pub fn format_timestamp(nanos: u128) -> (r: String)
    ensures
        r@ == timestamp_text(nanos),
{
    let secs = nanos / 1_000_000_000;
    let sub = (nanos % 1_000_000_000) as u32;
    if secs <= i64::MAX as u128 {
        match rfc3339(secs as i64, sub) {
            Some(t) => t,
            None => String::new(),
        }
    } else {
        String::new()
    }
}

// ── Agent Card (v1) ─────────────────────────────────────────────

/// Agent Card served at `/.well-known/agent-card.json` (v1.0.0-rc): the
/// agent's capabilities, skills and supported interfaces.
#[derive(Debug, Clone)]
pub struct AgentCard {
    pub name: String,
    pub description: Option<String>,
    pub protocol_version: String,
    pub supported_interfaces: Vec<SupportedInterface>,
    pub capabilities: AgentCapabilities,
    pub skills: Vec<AgentSkill>,
    pub default_input_modes: Option<Vec<String>>,
    pub default_output_modes: Option<Vec<String>>,
}

/// Supported interface (transport) in the v1 Agent Card.
#[derive(Debug, Clone)]
pub struct SupportedInterface {
    pub interface_type: String,
    pub url: String,
}

/// Capabilities advertised in the v1 Agent Card.
#[derive(Debug, Clone, Copy, PartialEq, Eq, Structural)]
pub struct AgentCapabilities {
    pub streaming: bool,
    pub push_notifications: bool,
    pub multi_turn: Option<bool>,
}

/// Skill definition in the v1 Agent Card.
#[derive(Debug, Clone)]
pub struct AgentSkill {
    pub id: String,
    pub name: String,
    pub description: Option<String>,
    pub tags: Option<Vec<String>>,
    pub input_modes: Option<Vec<String>>,
    pub output_modes: Option<Vec<String>>,
}

// ── Task Types (v1) ─────────────────────────────────────────────

/// Task state per the A2A v1.0.0-rc specification.
#[derive(Debug, Clone, Copy, PartialEq, Eq, Structural)]
pub enum TaskState {
    Submitted,
    Working,
    InputRequired,
    Completed,
    Canceled,
    Failed,
    Rejected,
    AuthRequired,
    Unknown,
}

/// The v1 state of a stored state: the same state.
pub open spec fn state_of(s: types::TaskState) -> TaskState {
    match s {
        types::TaskState::Submitted => TaskState::Submitted,
        types::TaskState::Working => TaskState::Working,
        types::TaskState::InputRequired => TaskState::InputRequired,
        types::TaskState::Completed => TaskState::Completed,
        types::TaskState::Canceled => TaskState::Canceled,
        types::TaskState::Failed => TaskState::Failed,
    }
}

impl From<types::TaskState> for TaskState {
    fn from(s: types::TaskState) -> (r: Self) {
        match s {
            types::TaskState::Submitted => TaskState::Submitted,
            types::TaskState::Working => TaskState::Working,
            types::TaskState::InputRequired => TaskState::InputRequired,
            types::TaskState::Completed => TaskState::Completed,
            types::TaskState::Canceled => TaskState::Canceled,
            types::TaskState::Failed => TaskState::Failed,
        }
    }
}

impl vstd::std_specs::convert::FromSpecImpl<types::TaskState> for TaskState {
    open spec fn obeys_from_spec() -> bool {
        true
    }

    open spec fn from_spec(s: types::TaskState) -> TaskState {
        state_of(s)
    }
}

/// Message role (v1: lowercase per spec).
#[derive(Debug, Clone, Copy, PartialEq, Eq, Structural)]
pub enum MessageRole {
    User,
    Agent,
}

/// The v1 role of a stored role.
pub open spec fn role_of(r: types::MessageRole) -> MessageRole {
    match r {
        types::MessageRole::User => MessageRole::User,
        types::MessageRole::Agent => MessageRole::Agent,
    }
}

/// File content in a file part (v1).
#[derive(Debug, Clone)]
pub struct FileContent {
    pub name: Option<String>,
    pub mime_type: Option<String>,
    /// Inline bytes (base64-encoded).
    pub bytes: Option<String>,
    /// URI reference to the file.
    pub uri: Option<String>,
}

/// What file content holds.
pub struct FileModel {
    pub name: Option<Seq<char>>,
    pub mime_type: Option<Seq<char>>,
    pub bytes: Option<Seq<char>>,
    pub uri: Option<Seq<char>>,
}

impl View for FileContent {
    type V = FileModel;

    open spec fn view(&self) -> FileModel {
        FileModel {
            name: types::opt_text(self.name),
            mime_type: types::opt_text(self.mime_type),
            bytes: types::opt_text(self.bytes),
            uri: types::opt_text(self.uri),
        }
    }
}

/// Message part (v1), told apart by which of `text`, `file` or `data` it has.
#[derive(Debug, Clone)]
pub enum Part {
    Text { kind: Option<String>, text: String, metadata: Option<Value> },
    File { kind: Option<String>, file: FileContent, metadata: Option<Value> },
    Data { kind: Option<String>, data: Value, metadata: Option<Value> },
}

/// What a v1 part holds.
pub enum PartModel {
    Text { kind: Option<Seq<char>>, text: Seq<char>, metadata: Option<Value> },
    File { kind: Option<Seq<char>>, file: FileModel, metadata: Option<Value> },
    Data { kind: Option<Seq<char>>, data: Value, metadata: Option<Value> },
}

impl View for Part {
    type V = PartModel;

    open spec fn view(&self) -> PartModel {
        match self {
            Part::Text { kind, text, metadata } => PartModel::Text {
                kind: types::opt_text(*kind),
                text: text@,
                metadata: *metadata,
            },
            Part::File { kind, file, metadata } => PartModel::File {
                kind: types::opt_text(*kind),
                file: file@,
                metadata: *metadata,
            },
            Part::Data { kind, data, metadata } => PartModel::Data {
                kind: types::opt_text(*kind),
                data: *data,
                metadata: *metadata,
            },
        }
    }
}

/// The v1 form of a stored part: marked with its kind, without metadata.
pub open spec fn part_of(p: types::PartModel) -> PartModel {
    match p {
        types::PartModel::Text(t) => PartModel::Text { kind: Some("text"@), text: t, metadata: None },
        types::PartModel::Data(d) => PartModel::Data { kind: Some("data"@), data: d, metadata: None },
    }
}

/// The models of a sequence of v1 parts.
pub open spec fn part_models(parts: Seq<Part>) -> Seq<PartModel> {
    parts.map_values(|p: Part| p@)
}

/// The v1 form of stored parts.
pub open spec fn parts_of(parts: Seq<types::PartModel>) -> Seq<PartModel> {
    parts.map_values(|p: types::PartModel| part_of(p))
}

/// A2A Message (v1).
#[derive(Debug, Clone)]
pub struct Message {
    pub role: MessageRole,
    pub parts: Vec<Part>,
    pub metadata: Option<Value>,
}

/// What a v1 message holds.
pub struct MessageModel {
    pub role: MessageRole,
    pub parts: Seq<PartModel>,
    pub metadata: Option<Value>,
}

impl View for Message {
    type V = MessageModel;

    open spec fn view(&self) -> MessageModel {
        MessageModel { role: self.role, parts: part_models(self.parts@), metadata: self.metadata }
    }
}

/// The v1 form of a stored message.
pub open spec fn message_of(m: types::MessageModel) -> MessageModel {
    MessageModel { role: role_of(m.role), parts: parts_of(m.parts), metadata: None }
}

/// The models of a sequence of v1 messages.
pub open spec fn message_models(msgs: Seq<Message>) -> Seq<MessageModel> {
    msgs.map_values(|m: Message| m@)
}

/// Artifact produced by a task (v1).
#[derive(Debug, Clone)]
pub struct Artifact {
    pub artifact_id: Option<String>,
    pub name: Option<String>,
    pub parts: Vec<Part>,
    pub metadata: Option<Value>,
}

/// What a v1 artifact holds.
pub struct ArtifactModel {
    pub artifact_id: Option<Seq<char>>,
    pub name: Option<Seq<char>>,
    pub parts: Seq<PartModel>,
    pub metadata: Option<Value>,
}

impl View for Artifact {
    type V = ArtifactModel;

    open spec fn view(&self) -> ArtifactModel {
        ArtifactModel {
            artifact_id: types::opt_text(self.artifact_id),
            name: types::opt_text(self.name),
            parts: part_models(self.parts@),
            metadata: self.metadata,
        }
    }
}

/// The models of a sequence of v1 artifacts.
pub open spec fn artifact_models(arts: Seq<Artifact>) -> Seq<ArtifactModel> {
    arts.map_values(|a: Artifact| a@)
}

/// The v1 form of the `i`-th stored artifact, identified as `artifact-{i}`.
pub open spec fn artifact_of(i: int, a: types::ArtifactModel) -> ArtifactModel {
    ArtifactModel {
        artifact_id: Some("artifact-"@ + decimal(i as nat)),
        name: Some(a.name),
        parts: parts_of(a.parts),
        metadata: None,
    }
}

/// Task status (v1).
#[derive(Debug, Clone)]
pub struct TaskStatus {
    pub state: TaskState,
    pub message: Option<Message>,
    pub timestamp: Option<String>,
}

/// A2A Task (v1 wire format).
#[derive(Debug, Clone)]
pub struct A2ATask {
    pub id: String,
    pub session_id: Option<String>,
    pub status: TaskStatus,
    pub artifacts: Option<Vec<Artifact>>,
    pub history: Option<Vec<Message>>,
    pub created_at: Option<String>,
    pub last_modified: Option<String>,
}

/// What a v1 task holds.
pub struct TaskModel {
    pub id: Seq<char>,
    pub session_id: Option<Seq<char>>,
    pub state: TaskState,
    pub status_message: Option<MessageModel>,
    pub status_timestamp: Option<Seq<char>>,
    pub artifacts: Option<Seq<ArtifactModel>>,
    pub history: Option<Seq<MessageModel>>,
    pub created_at: Option<Seq<char>>,
    pub last_modified: Option<Seq<char>>,
}

impl View for A2ATask {
    type V = TaskModel;

    open spec fn view(&self) -> TaskModel {
        TaskModel {
            id: self.id@,
            session_id: types::opt_text(self.session_id),
            state: self.status.state,
            status_message: match self.status.message {
                Some(m) => Some(m@),
                None => None,
            },
            status_timestamp: types::opt_text(self.status.timestamp),
            artifacts: match self.artifacts {
                Some(a) => Some(artifact_models(a@)),
                None => None,
            },
            history: match self.history {
                Some(h) => Some(message_models(h@)),
                None => None,
            },
            created_at: types::opt_text(self.created_at),
            last_modified: types::opt_text(self.last_modified),
        }
    }
}

/// The v1 wire form of a stored task. Empty artifact and history lists are
/// left out; `createdAt` is the creation time in RFC 3339. The store keeps
/// no modification time, so `lastModified` and the status timestamp are
/// left out.
pub open spec fn task_of(t: types::TaskModel) -> TaskModel {
    TaskModel {
        id: t.id,
        session_id: t.session_id,
        state: state_of(t.status.state),
        status_message: match t.status.message {
            Some(m) => Some(message_of(m)),
            None => None,
        },
        status_timestamp: None,
        artifacts: if t.artifacts.len() == 0 {
            None
        } else {
            Some(Seq::new(t.artifacts.len(), |i: int| artifact_of(i, t.artifacts[i])))
        },
        history: if t.history.len() == 0 {
            None
        } else {
            Some(t.history.map_values(|m: types::MessageModel| message_of(m)))
        },
        created_at: Some(timestamp_text(t.created_at)),
        last_modified: None,
    }
}

/// The v1 form keeps what identifies a stored task: its id and session, its
/// state (distinct stored states give distinct v1 states), one message per
/// stored message with the same role and text parts, one artifact per stored
/// artifact with the same name, a status message exactly when there is one,
/// and a creation time; empty histories and artifact lists are left out.
pub proof fn law_wire_task_keeps_task(t: types::TaskModel)
    ensures
        task_of(t).id == t.id,
        task_of(t).session_id == t.session_id,
        task_of(t).state == state_of(t.status.state),
        forall|a: types::TaskState, b: types::TaskState| state_of(a) == state_of(b) ==> a == b,
        (task_of(t).history is None) == (t.history.len() == 0),
        task_of(t).history matches Some(h) ==> {
            &&& h.len() == t.history.len()
            &&& forall|i: int|
                0 <= i < h.len() ==> {
                    &&& (#[trigger] h[i]).role == role_of(t.history[i].role)
                    &&& h[i].parts.len() == t.history[i].parts.len()
                    &&& forall|j: int|
                        0 <= j < h[i].parts.len() ==> (t.history[i].parts[j] matches types::PartModel::Text(x)
                            ==> (#[trigger] h[i].parts[j]) == (PartModel::Text {
                            kind: Some("text"@),
                            text: x,
                            metadata: None,
                        }))
                }
        },
        (task_of(t).artifacts is None) == (t.artifacts.len() == 0),
        task_of(t).artifacts matches Some(a) ==> a.len() == t.artifacts.len() && forall|i: int|
            0 <= i < a.len() ==> (#[trigger] a[i]).name == Some(t.artifacts[i].name),
        (task_of(t).status_message is Some) == (t.status.message is Some),
        task_of(t).created_at is Some,
{
}

// ── Conversions from store types ────────────────────────────────

fn convert_part(p: &types::Part) -> (r: Part)
    ensures
        r@ == part_of(p@),
{
    proof {
        reveal_strlit("text");
        reveal_strlit("data");
    }
    match p {
        types::Part::Text { text } => Part::Text {
            kind: Some("text".to_owned()),
            text: text.clone(),
            metadata: None,
        },
        types::Part::Data { data } => Part::Data {
            kind: Some("data".to_owned()),
            data: data.clone(),
            metadata: None,
        },
    }
}

fn convert_parts(parts: &Vec<types::Part>) -> (r: Vec<Part>)
    ensures
        part_models(r@) == parts_of(types::part_models(parts@)),
{
    let mut out: Vec<Part> = Vec::new();
    let mut i: usize = 0;
    while i < parts.len()
        invariant
            i <= parts@.len(),
            part_models(out@) =~= parts_of(types::part_models(parts@)).take(i as int),
        decreases parts@.len() - i,
    {
        let p = convert_part(&parts[i]);
        let ghost before = out@;
        out.push(p);
        assert(part_models(out@) =~= part_models(before).push(p@));
        i += 1;
    }
    out
}

fn convert_message(m: &types::Message) -> (r: Message)
    ensures
        r@ == message_of(m@),
{
    let role = match m.role {
        types::MessageRole::User => MessageRole::User,
        types::MessageRole::Agent => MessageRole::Agent,
    };
    Message { role, parts: convert_parts(&m.parts), metadata: None }
}

/// The identifier of the `i`-th artifact: `artifact-{i}`.
fn artifact_id(i: usize) -> (r: String)
    ensures
        r@ == "artifact-"@ + decimal(i as nat),
{
    let digits = decimal_string(i as u64);
    concat_str("artifact-", digits.as_str())
}

impl A2ATask {
    /// Convert a stored task to the v1 wire format.
    pub fn from_store(task: &types::A2ATask) -> (r: Self)
        ensures
            r@ == task_of(task@),
    {
        let ghost tm = task@;
        let created_at = format_timestamp(task.created_at);
        let artifacts = if task.artifacts.len() == 0 {
            None
        } else {
            let mut out: Vec<Artifact> = Vec::new();
            let mut i: usize = 0;
            while i < task.artifacts.len()
                invariant
                    i <= task.artifacts@.len(),
                    tm == task@,
                    artifact_models(out@) =~= Seq::new(
                        tm.artifacts.len(),
                        |k: int| artifact_of(k, tm.artifacts[k]),
                    ).take(i as int),
                decreases task.artifacts@.len() - i,
            {
                let a = &task.artifacts[i];
                let converted = Artifact {
                    artifact_id: Some(artifact_id(i)),
                    name: Some(a.name.clone()),
                    parts: convert_parts(&a.parts),
                    metadata: None,
                };
                let ghost before = out@;
                out.push(converted);
                assert(artifact_models(out@) =~= artifact_models(before).push(converted@));
                i += 1;
            }
            assert(artifact_models(out@) =~= Seq::new(
                tm.artifacts.len(),
                |k: int| artifact_of(k, tm.artifacts[k]),
            ));
            Some(out)
        };
        let history = if task.history.len() == 0 {
            None
        } else {
            let mut out: Vec<Message> = Vec::new();
            let mut j: usize = 0;
            while j < task.history.len()
                invariant
                    j <= task.history@.len(),
                    tm == task@,
                    message_models(out@) =~= tm.history.map_values(
                        |m: types::MessageModel| message_of(m),
                    ).take(j as int),
                decreases task.history@.len() - j,
            {
                let m = convert_message(&task.history[j]);
                let ghost before = out@;
                out.push(m);
                assert(message_models(out@) =~= message_models(before).push(m@));
                j += 1;
            }
            assert(message_models(out@) =~= tm.history.map_values(
                |m: types::MessageModel| message_of(m),
            ));
            Some(out)
        };
        let message = match &task.status.message {
            Some(m) => Some(convert_message(m)),
            None => None,
        };
        let state = TaskState::from(task.status.state);
        assert(state == state_of(task.status.state));
        A2ATask {
            id: task.id.clone(),
            session_id: types::duplicate_opt_string(&task.session_id),
            status: TaskStatus { state, message, timestamp: None },
            artifacts,
            history,
            created_at: Some(created_at),
            last_modified: None,
        }
    }
}

// ── RPC Params (v1) ─────────────────────────────────────────────

/// Parameters for `SendMessage` (v1).
#[derive(Debug, Clone)]
pub struct SendMessageParams {
    pub message: Message,
    pub id: Option<String>,
    pub session_id: Option<String>,
    pub metadata: Option<Value>,
}

/// Parameters for `GetTask` (v1).
#[derive(Debug, Clone)]
pub struct GetTaskParams {
    pub id: String,
    pub history_length: Option<usize>,
}

/// Parameters for `CancelTask` (v1).
#[derive(Debug, Clone)]
pub struct CancelTaskParams {
    pub id: String,
}

/// Parameters for `ListTasks` (v1).
#[derive(Debug, Clone)]
pub struct ListTasksParams {
    pub session_id: Option<String>,
    pub cursor: Option<String>,
    pub limit: Option<usize>,
}

/// Paginated task list response (v1).
#[derive(Debug, Clone)]
pub struct TaskListResult {
    pub tasks: Vec<A2ATask>,
    pub next_cursor: Option<String>,
}

} // verus!
