//! A2A protocol types shared by the task store and the request handlers:
//! the agent card, tasks, messages, parts and artifacts, and RPC parameters.

use serde_json::Value;
use vstd::prelude::*;

verus! {

#[verifier::external_type_specification]
#[verifier::external_body]
pub struct ExJsonValue(Value);

/// `<serde_json::Value as Clone>::clone` (derived) copies the JSON value: the
/// copy is the same value.
pub assume_specification[ <Value as Clone>::clone ](v: &Value) -> (r: Value)
    ensures
        r == *v,
;

// ── Agent Card ──────────────────────────────────────────────────

/// Agent Card served at `/.well-known/agent.json`.
#[derive(Debug, Clone)]
pub struct AgentCard {
    pub name: String,
    pub description: String,
    pub url: String,
    pub version: String,
    pub capabilities: AgentCapabilities,
    pub skills: Vec<AgentSkill>,
}

/// Capabilities advertised in the Agent Card.
#[derive(Debug, Clone, Copy, PartialEq, Eq, Structural)]
pub struct AgentCapabilities {
    pub streaming: bool,
    pub push_notifications: bool,
    pub state_transition_history: bool,
}

/// Skill definition in the Agent Card.
#[derive(Debug, Clone)]
pub struct AgentSkill {
    pub id: String,
    pub name: String,
    pub description: String,
    pub tags: Vec<String>,
}

// ── Task Types ──────────────────────────────────────────────────

/// Task state machine per the A2A specification.
#[derive(Debug, Clone, Copy, PartialEq, Eq, Structural)]
pub enum TaskState {
    Submitted,
    Working,
    InputRequired,
    Completed,
    Canceled,
    Failed,
}

/// The states a task does not leave by cancellation.
pub open spec fn is_terminal(s: TaskState) -> bool {
    s == TaskState::Completed || s == TaskState::Canceled || s == TaskState::Failed
}

/// Message role.
#[derive(Debug, Clone, Copy, PartialEq, Eq, Structural)]
pub enum MessageRole {
    User,
    Agent,
}

/// Message part: text or data.
#[derive(Debug, Clone)]
pub enum Part {
    Text { text: String },
    Data { data: Value },
}

/// What a part holds.
pub enum PartModel {
    Text(Seq<char>),
    Data(Value),
}

impl View for Part {
    type V = PartModel;

    open spec fn view(&self) -> PartModel {
        match self {
            Part::Text { text } => PartModel::Text(text@),
            Part::Data { data } => PartModel::Data(*data),
        }
    }
}

/// The models of a sequence of parts.
pub open spec fn part_models(parts: Seq<Part>) -> Seq<PartModel> {
    parts.map_values(|p: Part| p@)
}

impl Part {
    /// A copy of this part.
    pub fn duplicate(&self) -> (r: Part)
        ensures
            r@ == self@,
    {
        match self {
            Part::Text { text } => Part::Text { text: text.clone() },
            Part::Data { data } => Part::Data { data: data.clone() },
        }
    }
}

/// A copy of a list of parts.
pub fn duplicate_parts(parts: &Vec<Part>) -> (r: Vec<Part>)
    ensures
        part_models(r@) == part_models(parts@),
{
    let mut out: Vec<Part> = Vec::new();
    let mut i: usize = 0;
    while i < parts.len()
        invariant
            i <= parts@.len(),
            part_models(out@) =~= part_models(parts@.take(i as int)),
        decreases parts@.len() - i,
    {
        let p = parts[i].duplicate();
        let ghost before = out@;
        out.push(p);
        assert(part_models(out@) =~= part_models(before).push(p@));
        assert(part_models(parts@.take(i + 1)) =~= part_models(parts@.take(i as int)).push(parts@[i as int]@));
        i += 1;
    }
    assert(parts@.take(parts@.len() as int) =~= parts@);
    out
}

/// A2A Message: a conversation turn.
#[derive(Debug, Clone)]
pub struct Message {
    pub role: MessageRole,
    pub parts: Vec<Part>,
}

/// What a message holds.
pub struct MessageModel {
    pub role: MessageRole,
    pub parts: Seq<PartModel>,
}

impl View for Message {
    type V = MessageModel;

    open spec fn view(&self) -> MessageModel {
        MessageModel { role: self.role, parts: part_models(self.parts@) }
    }
}

/// The models of a sequence of messages.
pub open spec fn message_models(msgs: Seq<Message>) -> Seq<MessageModel> {
    msgs.map_values(|m: Message| m@)
}

/// The model of an optional message.
pub open spec fn opt_message(m: Option<Message>) -> Option<MessageModel> {
    match m {
        Some(m) => Some(m@),
        None => None,
    }
}

/// The text of an optional string.
pub open spec fn opt_text(s: Option<String>) -> Option<Seq<char>> {
    match s {
        Some(s) => Some(s@),
        None => None,
    }
}

/// A message from the agent holding a single text part.
pub open spec fn agent_text_message(text: Seq<char>) -> MessageModel {
    MessageModel { role: MessageRole::Agent, parts: seq![PartModel::Text(text)] }
}

impl Message {
    /// A copy of this message.
    pub fn duplicate(&self) -> (r: Message)
        ensures
            r@ == self@,
    {
        Message { role: self.role, parts: duplicate_parts(&self.parts) }
    }

    /// A message from the agent holding `text` as its single text part.
    pub fn agent_text(text: &str) -> (r: Message)
        ensures
            r@ == agent_text_message(text@),
    {
        let parts = vec![Part::Text { text: text.to_owned() }];
        let r = Message { role: MessageRole::Agent, parts };
        assert(part_models(r.parts@) =~= seq![PartModel::Text(text@)]);
        r
    }

    /// A message from the user holding `text` as its single text part.
    pub fn user_text(text: &str) -> (r: Message)
        ensures
            r@ == (MessageModel { role: MessageRole::User, parts: seq![PartModel::Text(text@)] }),
    {
        let parts = vec![Part::Text { text: text.to_owned() }];
        let r = Message { role: MessageRole::User, parts };
        assert(part_models(r.parts@) =~= seq![PartModel::Text(text@)]);
        r
    }
}

/// A copy of an optional message.
pub fn duplicate_opt_message(m: &Option<Message>) -> (r: Option<Message>)
    ensures
        opt_message(r) == opt_message(*m),
{
    match m {
        Some(m) => Some(m.duplicate()),
        None => None,
    }
}

/// A copy of a list of messages.
pub fn duplicate_messages(msgs: &Vec<Message>) -> (r: Vec<Message>)
    ensures
        message_models(r@) == message_models(msgs@),
{
    let mut out: Vec<Message> = Vec::new();
    let mut i: usize = 0;
    while i < msgs.len()
        invariant
            i <= msgs@.len(),
            message_models(out@) =~= message_models(msgs@.take(i as int)),
        decreases msgs@.len() - i,
    {
        let m = msgs[i].duplicate();
        let ghost before = out@;
        out.push(m);
        assert(message_models(out@) =~= message_models(before).push(m@));
        assert(message_models(msgs@.take(i + 1)) =~= message_models(msgs@.take(i as int)).push(msgs@[i as int]@));
        i += 1;
    }
    assert(msgs@.take(msgs@.len() as int) =~= msgs@);
    out
}

/// Artifact produced by a task.
#[derive(Debug, Clone)]
pub struct Artifact {
    pub name: String,
    pub parts: Vec<Part>,
    pub index: Option<u32>,
}

/// What an artifact holds.
pub struct ArtifactModel {
    pub name: Seq<char>,
    pub parts: Seq<PartModel>,
    pub index: Option<u32>,
}

impl View for Artifact {
    type V = ArtifactModel;

    open spec fn view(&self) -> ArtifactModel {
        ArtifactModel { name: self.name@, parts: part_models(self.parts@), index: self.index }
    }
}

/// The models of a sequence of artifacts.
pub open spec fn artifact_models(arts: Seq<Artifact>) -> Seq<ArtifactModel> {
    arts.map_values(|a: Artifact| a@)
}

impl Artifact {
    /// A copy of this artifact.
    pub fn duplicate(&self) -> (r: Artifact)
        ensures
            r@ == self@,
    {
        Artifact { name: self.name.clone(), parts: duplicate_parts(&self.parts), index: self.index }
    }
}

/// A copy of a list of artifacts.
pub fn duplicate_artifacts(arts: &Vec<Artifact>) -> (r: Vec<Artifact>)
    ensures
        artifact_models(r@) == artifact_models(arts@),
{
    let mut out: Vec<Artifact> = Vec::new();
    let mut i: usize = 0;
    while i < arts.len()
        invariant
            i <= arts@.len(),
            artifact_models(out@) =~= artifact_models(arts@.take(i as int)),
        decreases arts@.len() - i,
    {
        let a = arts[i].duplicate();
        let ghost before = out@;
        out.push(a);
        assert(artifact_models(out@) =~= artifact_models(before).push(a@));
        assert(artifact_models(arts@.take(i + 1)) =~= artifact_models(arts@.take(i as int)).push(arts@[i as int]@));
        i += 1;
    }
    assert(arts@.take(arts@.len() as int) =~= arts@);
    out
}

/// Task status with state and optional message.
#[derive(Debug, Clone)]
pub struct TaskStatus {
    pub state: TaskState,
    pub message: Option<Message>,
}

/// What a task status holds.
pub struct StatusModel {
    pub state: TaskState,
    pub message: Option<MessageModel>,
}

impl View for TaskStatus {
    type V = StatusModel;

    open spec fn view(&self) -> StatusModel {
        StatusModel { state: self.state, message: opt_message(self.message) }
    }
}

/// A2A Task: the core unit of work.
///
/// `created_at` is the creation time in nanoseconds since the Unix epoch.
#[derive(Debug, Clone)]
pub struct A2ATask {
    pub id: String,
    pub session_id: Option<String>,
    pub status: TaskStatus,
    pub artifacts: Vec<Artifact>,
    pub history: Vec<Message>,
    pub created_at: u128,
}

/// What a task holds.
pub struct TaskModel {
    pub id: Seq<char>,
    pub session_id: Option<Seq<char>>,
    pub status: StatusModel,
    pub artifacts: Seq<ArtifactModel>,
    pub history: Seq<MessageModel>,
    pub created_at: u128,
}

impl View for A2ATask {
    type V = TaskModel;

    open spec fn view(&self) -> TaskModel {
        TaskModel {
            id: self.id@,
            session_id: opt_text(self.session_id),
            status: self.status@,
            artifacts: artifact_models(self.artifacts@),
            history: message_models(self.history@),
            created_at: self.created_at,
        }
    }
}

/// A copy of an optional string.
pub fn duplicate_opt_string(s: &Option<String>) -> (r: Option<String>)
    ensures
        opt_text(r) == opt_text(*s),
{
    match s {
        Some(s) => Some(s.clone()),
        None => None,
    }
}

impl A2ATask {
    /// A duplicate of the task, field by field.
    pub fn duplicate(&self) -> (r: A2ATask)
        ensures
            r@ == self@,
    {
        A2ATask {
            id: self.id.clone(),
            session_id: duplicate_opt_string(&self.session_id),
            status: TaskStatus {
                state: self.status.state,
                message: duplicate_opt_message(&self.status.message),
            },
            artifacts: duplicate_artifacts(&self.artifacts),
            history: duplicate_messages(&self.history),
            created_at: self.created_at,
        }
    }
}

// ── RPC Params ──────────────────────────────────────────────────

/// Parameters for `message/send`.
#[derive(Debug, Clone)]
pub struct MessageSendParams {
    pub message: Message,
    pub id: Option<String>,
    pub session_id: Option<String>,
}

/// Parameters for `tasks/get`.
#[derive(Debug, Clone)]
pub struct TaskGetParams {
    pub id: String,
    pub history_length: Option<usize>,
}

/// Parameters for `tasks/cancel`.
#[derive(Debug, Clone)]
pub struct TaskCancelParams {
    pub id: String,
}

} // verus!

verus! {

/// The texts of a sequence of strings.
pub open spec fn text_models(v: Seq<String>) -> Seq<Seq<char>> {
    v.map_values(|s: String| s@)
}

/// A copy of a list of strings.
pub fn duplicate_strings(v: &Vec<String>) -> (r: Vec<String>)
    ensures
        text_models(r@) == text_models(v@),
{
    let mut out: Vec<String> = Vec::new();
    let mut i: usize = 0;
    while i < v.len()
        invariant
            i <= v@.len(),
            text_models(out@) =~= text_models(v@).take(i as int),
        decreases v@.len() - i,
    {
        let s = v[i].clone();
        let ghost before = out@;
        out.push(s);
        assert(text_models(out@) =~= text_models(before).push(s@));
        i += 1;
    }
    out
}

} // verus!

verus! {

/// The `Debug` name of a task state.
pub open spec fn state_name(s: TaskState) -> Seq<char> {
    match s {
        TaskState::Submitted => "Submitted"@,
        TaskState::Working => "Working"@,
        TaskState::InputRequired => "InputRequired"@,
        TaskState::Completed => "Completed"@,
        TaskState::Canceled => "Canceled"@,
        TaskState::Failed => "Failed"@,
    }
}

impl TaskState {
    /// The name of the state, as `{:?}` writes it.
    pub fn debug_name(&self) -> (r: &'static str)
        ensures
            r@ == state_name(*self),
    {
        match self {
            TaskState::Submitted => "Submitted",
            TaskState::Working => "Working",
            TaskState::InputRequired => "InputRequired",
            TaskState::Completed => "Completed",
            TaskState::Canceled => "Canceled",
            TaskState::Failed => "Failed",
        }
    }
}

/// The texts of the text parts, in order.
pub open spec fn text_parts(parts: Seq<PartModel>) -> Seq<Seq<char>>
    decreases parts.len(),
{
    if parts.len() == 0 {
        seq![]
    } else {
        let rest = text_parts(parts.drop_last());
        match parts.last() {
            PartModel::Text(t) => rest.push(t),
            PartModel::Data(_) => rest,
        }
    }
}

} // verus!
