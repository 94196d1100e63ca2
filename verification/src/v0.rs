//! A2A v0.x (draft/0.2.x) wire types and the conversion from stored tasks.
//!
//! v0 uses lowercase enum values and a `Part` tagged by a `type` field; its
//! methods are `message/send`, `tasks/get` and `tasks/cancel`, and its Agent
//! Card is served at `/.well-known/agent.json`.

use crate::types;
use serde_json::Value;
use vstd::prelude::*;

verus! {

// ── Agent Card (v0) ─────────────────────────────────────────────

/// Agent Card served at `/.well-known/agent.json` (v0.x).
#[derive(Debug, Clone)]
pub struct AgentCard {
    pub name: String,
    pub description: String,
    pub url: String,
    pub version: String,
    pub capabilities: AgentCapabilities,
    pub skills: Vec<AgentSkill>,
}

/// Capabilities advertised in the v0 Agent Card.
#[derive(Debug, Clone, Copy, PartialEq, Eq, Structural)]
pub struct AgentCapabilities {
    pub streaming: bool,
    pub push_notifications: bool,
    pub state_transition_history: bool,
}

/// Skill definition in the v0 Agent Card.
#[derive(Debug, Clone)]
pub struct AgentSkill {
    pub id: String,
    pub name: String,
    pub description: String,
    pub tags: Vec<String>,
}

// ── Task Types (v0) ─────────────────────────────────────────────

/// Task state per the A2A v0 specification.
#[derive(Debug, Clone, Copy, PartialEq, Eq, Structural)]
pub enum TaskState {
    Submitted,
    Working,
    InputRequired,
    Completed,
    Canceled,
    Failed,
}

/// The v0 state of a stored state: the same state.
pub open spec fn state_of(s: types::TaskState) -> TaskState {
    match s {
        types::TaskState::Submitted => TaskState::Submitted,
        types::TaskState::Working => TaskState::Working,
        types::TaskState::InputRequired => TaskState::InputRequired,
        types::TaskState::Completed => TaskState::Completed,
        types::TaskState::Canceled => TaskState::Canceled,
        types::TaskState::Failed => TaskState::Failed,
    }
}

impl From<types::TaskState> for TaskState {
    fn from(s: types::TaskState) -> (r: Self) {
        match s {
            types::TaskState::Submitted => TaskState::Submitted,
            types::TaskState::Working => TaskState::Working,
            types::TaskState::InputRequired => TaskState::InputRequired,
            types::TaskState::Completed => TaskState::Completed,
            types::TaskState::Canceled => TaskState::Canceled,
            types::TaskState::Failed => TaskState::Failed,
        }
    }
}

impl vstd::std_specs::convert::FromSpecImpl<types::TaskState> for TaskState {
    open spec fn obeys_from_spec() -> bool {
        true
    }

    open spec fn from_spec(s: types::TaskState) -> TaskState {
        state_of(s)
    }
}

/// Message role (v0: lowercase).
#[derive(Debug, Clone, Copy, PartialEq, Eq, Structural)]
pub enum MessageRole {
    User,
    Agent,
}

/// The v0 role of a stored role.
pub open spec fn role_of(r: types::MessageRole) -> MessageRole {
    match r {
        types::MessageRole::User => MessageRole::User,
        types::MessageRole::Agent => MessageRole::Agent,
    }
}

/// Message part, tagged with a `type` discriminator (v0).
#[derive(Debug, Clone)]
pub enum Part {
    Text { text: String },
    Data { data: Value },
}

/// What a v0 part holds.
pub enum PartModel {
    Text(Seq<char>),
    Data(Value),
}

impl View for Part {
    type V = PartModel;

    open spec fn view(&self) -> PartModel {
        match self {
            Part::Text { text } => PartModel::Text(text@),
            Part::Data { data } => PartModel::Data(*data),
        }
    }
}

/// The v0 form of a stored part.
pub open spec fn part_of(p: types::PartModel) -> PartModel {
    match p {
        types::PartModel::Text(t) => PartModel::Text(t),
        types::PartModel::Data(d) => PartModel::Data(d),
    }
}

/// The models of a sequence of v0 parts.
pub open spec fn part_models(parts: Seq<Part>) -> Seq<PartModel> {
    parts.map_values(|p: Part| p@)
}

/// The v0 form of stored parts.
pub open spec fn parts_of(parts: Seq<types::PartModel>) -> Seq<PartModel> {
    parts.map_values(|p: types::PartModel| part_of(p))
}

/// A2A Message (v0).
#[derive(Debug, Clone)]
pub struct Message {
    pub role: MessageRole,
    pub parts: Vec<Part>,
}

/// What a v0 message holds.
pub struct MessageModel {
    pub role: MessageRole,
    pub parts: Seq<PartModel>,
}

impl View for Message {
    type V = MessageModel;

    open spec fn view(&self) -> MessageModel {
        MessageModel { role: self.role, parts: part_models(self.parts@) }
    }
}

/// The v0 form of a stored message.
pub open spec fn message_of(m: types::MessageModel) -> MessageModel {
    MessageModel { role: role_of(m.role), parts: parts_of(m.parts) }
}

/// The models of a sequence of v0 messages.
pub open spec fn message_models(msgs: Seq<Message>) -> Seq<MessageModel> {
    msgs.map_values(|m: Message| m@)
}

/// Artifact produced by a task (v0).
#[derive(Debug, Clone)]
pub struct Artifact {
    pub name: String,
    pub parts: Vec<Part>,
    pub index: Option<u32>,
}

/// What a v0 artifact holds.
pub struct ArtifactModel {
    pub name: Seq<char>,
    pub parts: Seq<PartModel>,
    pub index: Option<u32>,
}

impl View for Artifact {
    type V = ArtifactModel;

    open spec fn view(&self) -> ArtifactModel {
        ArtifactModel { name: self.name@, parts: part_models(self.parts@), index: self.index }
    }
}

/// The models of a sequence of v0 artifacts.
pub open spec fn artifact_models(arts: Seq<Artifact>) -> Seq<ArtifactModel> {
    arts.map_values(|a: Artifact| a@)
}

/// The v0 form of the `i`-th stored artifact: it is numbered by its position.
pub open spec fn artifact_of(i: int, a: types::ArtifactModel) -> ArtifactModel {
    ArtifactModel { name: a.name, parts: parts_of(a.parts), index: Some(i as u32) }
}

/// Task status (v0).
#[derive(Debug, Clone)]
pub struct TaskStatus {
    pub state: TaskState,
    pub message: Option<Message>,
}

/// A2A Task (v0 wire format).
#[derive(Debug, Clone)]
pub struct A2ATask {
    pub id: String,
    pub session_id: Option<String>,
    pub status: TaskStatus,
    pub artifacts: Vec<Artifact>,
    pub history: Vec<Message>,
}

/// What a v0 task holds.
pub struct TaskModel {
    pub id: Seq<char>,
    pub session_id: Option<Seq<char>>,
    pub state: TaskState,
    pub status_message: Option<MessageModel>,
    pub artifacts: Seq<ArtifactModel>,
    pub history: Seq<MessageModel>,
}

impl View for A2ATask {
    type V = TaskModel;

    open spec fn view(&self) -> TaskModel {
        TaskModel {
            id: self.id@,
            session_id: types::opt_text(self.session_id),
            state: self.status.state,
            status_message: match self.status.message {
                Some(m) => Some(m@),
                None => None,
            },
            artifacts: artifact_models(self.artifacts@),
            history: message_models(self.history@),
        }
    }
}

/// The v0 wire form of a stored task.
pub open spec fn task_of(t: types::TaskModel) -> TaskModel {
    TaskModel {
        id: t.id,
        session_id: t.session_id,
        state: state_of(t.status.state),
        status_message: match t.status.message {
            Some(m) => Some(message_of(m)),
            None => None,
        },
        artifacts: Seq::new(t.artifacts.len(), |i: int| artifact_of(i, t.artifacts[i])),
        history: t.history.map_values(|m: types::MessageModel| message_of(m)),
    }
}

/// The v0 form keeps the stored task: its id, session and state (distinct
/// stored states give distinct v0 states), one message per stored message
/// with the same role and parts, and one artifact per stored artifact with
/// the same name and parts, numbered by position.
pub proof fn law_wire_task_keeps_task(t: types::TaskModel)
    ensures
        task_of(t).id == t.id,
        task_of(t).session_id == t.session_id,
        task_of(t).state == state_of(t.status.state),
        forall|a: types::TaskState, b: types::TaskState| state_of(a) == state_of(b) ==> a == b,
        task_of(t).history.len() == t.history.len(),
        forall|i: int|
            0 <= i < t.history.len() ==> {
                &&& (#[trigger] task_of(t).history[i]).role == role_of(t.history[i].role)
                &&& task_of(t).history[i].parts.len() == t.history[i].parts.len()
            },
        task_of(t).artifacts.len() == t.artifacts.len(),
        forall|i: int|
            0 <= i < t.artifacts.len() ==> {
                &&& (#[trigger] task_of(t).artifacts[i]).name == t.artifacts[i].name
                &&& task_of(t).artifacts[i].parts.len() == t.artifacts[i].parts.len()
                &&& task_of(t).artifacts[i].index == Some(i as u32)
            },
        (task_of(t).status_message is Some) == (t.status.message is Some),
{
}

// ── Conversions from store types ────────────────────────────────

fn convert_part(p: &types::Part) -> (r: Part)
    ensures
        r@ == part_of(p@),
{
    match p {
        types::Part::Text { text } => Part::Text { text: text.clone() },
        types::Part::Data { data } => Part::Data { data: data.clone() },
    }
}

fn convert_parts(parts: &Vec<types::Part>) -> (r: Vec<Part>)
    ensures
        part_models(r@) == parts_of(types::part_models(parts@)),
{
    let mut out: Vec<Part> = Vec::new();
    let mut i: usize = 0;
    while i < parts.len()
        invariant
            i <= parts@.len(),
            part_models(out@) =~= parts_of(types::part_models(parts@)).take(i as int),
        decreases parts@.len() - i,
    {
        let p = convert_part(&parts[i]);
        let ghost before = out@;
        out.push(p);
        assert(part_models(out@) =~= part_models(before).push(p@));
        i += 1;
    }
    out
}

fn convert_message(m: &types::Message) -> (r: Message)
    ensures
        r@ == message_of(m@),
{
    let role = match m.role {
        types::MessageRole::User => MessageRole::User,
        types::MessageRole::Agent => MessageRole::Agent,
    };
    Message { role, parts: convert_parts(&m.parts) }
}

impl A2ATask {
    /// Convert a stored task to the v0 wire format. Artifacts are numbered
    /// by their position.
    pub fn from_store(task: &types::A2ATask) -> (r: Self)
        ensures
            r@ == task_of(task@),
    {
        let ghost tm = task@;
        let mut artifacts: Vec<Artifact> = Vec::new();
        let mut i: usize = 0;
        while i < task.artifacts.len()
            invariant
                i <= task.artifacts@.len(),
                tm == task@,
                artifact_models(artifacts@) =~= Seq::new(
                    tm.artifacts.len(),
                    |k: int| artifact_of(k, tm.artifacts[k]),
                ).take(i as int),
            decreases task.artifacts@.len() - i,
        {
            let a = &task.artifacts[i];
            let converted = Artifact {
                name: a.name.clone(),
                parts: convert_parts(&a.parts),
                index: Some(i as u32),
            };
            let ghost before = artifacts@;
            artifacts.push(converted);
            assert(artifact_models(artifacts@) =~= artifact_models(before).push(converted@));
            i += 1;
        }
        assert(artifact_models(artifacts@) =~= task_of(tm).artifacts);
        let mut history: Vec<Message> = Vec::new();
        let mut j: usize = 0;
        while j < task.history.len()
            invariant
                j <= task.history@.len(),
                tm == task@,
                message_models(history@) =~= tm.history.map_values(
                    |m: types::MessageModel| message_of(m),
                ).take(j as int),
            decreases task.history@.len() - j,
        {
            let m = convert_message(&task.history[j]);
            let ghost before = history@;
            history.push(m);
            assert(message_models(history@) =~= message_models(before).push(m@));
            j += 1;
        }
        assert(message_models(history@) =~= task_of(tm).history);
        let message = match &task.status.message {
            Some(m) => Some(convert_message(m)),
            None => None,
        };
        let state = TaskState::from(task.status.state);
        assert(state == state_of(task.status.state));
        A2ATask {
            id: task.id.clone(),
            session_id: types::duplicate_opt_string(&task.session_id),
            status: TaskStatus { state, message },
            artifacts,
            history,
        }
    }
}

// ── RPC Params (v0) ─────────────────────────────────────────────

/// Parameters for `message/send` (v0).
#[derive(Debug, Clone)]
pub struct MessageSendParams {
    pub message: Message,
    pub id: Option<String>,
    pub session_id: Option<String>,
}

/// Parameters for `tasks/get` (v0).
#[derive(Debug, Clone)]
pub struct TaskGetParams {
    pub id: String,
    pub history_length: Option<usize>,
}

/// Parameters for `tasks/cancel` (v0).
#[derive(Debug, Clone)]
pub struct TaskCancelParams {
    pub id: String,
}

} // verus!
