use serde_json::Value;
use zeroclaw_gateway::agent_card::{agent_card, agent_card_v1, base_url, A2aConfig, A2aSkillConfig};
use zeroclaw_gateway::text::{decimal_string, is_blank, chars_of};
use zeroclaw_gateway::types::{
    A2ATask, Artifact, Message, MessageRole, Part, TaskState, TaskStatus,
};
use zeroclaw_gateway::{v0, v1};

fn stored_task() -> A2ATask {
    A2ATask {
        id: "t".to_string(),
        session_id: Some("s".to_string()),
        status: TaskStatus {
            state: TaskState::Completed,
            message: Some(Message {
                role: MessageRole::Agent,
                parts: vec![Part::Text { text: "done".to_string() }],
            }),
        },
        artifacts: vec![
            Artifact {
                name: "response".to_string(),
                parts: vec![Part::Text { text: "done".to_string() }],
                index: Some(0),
            },
            Artifact {
                name: "extra".to_string(),
                parts: vec![Part::Data { data: Value::from(3) }],
                index: Some(7),
            },
        ],
        history: vec![
            Message { role: MessageRole::User, parts: vec![Part::Text { text: "q".to_string() }] },
            Message { role: MessageRole::Agent, parts: vec![Part::Text { text: "done".to_string() }] },
        ],
        created_at: 1_431_648_000_000_000_000,
    }
}

#[test]
fn v0_conversion() {
    let t = v0::A2ATask::from_store(&stored_task());
    assert_eq!(t.id, "t");
    assert_eq!(t.session_id.as_deref(), Some("s"));
    assert_eq!(t.status.state, v0::TaskState::Completed);
    assert_eq!(t.status.message.as_ref().unwrap().role, v0::MessageRole::Agent);
    assert_eq!(t.artifacts.len(), 2);
    assert_eq!(t.artifacts[1].index, Some(1));
    assert_eq!(t.artifacts[1].name, "extra");
    match &t.artifacts[1].parts[0] {
        v0::Part::Data { data } => assert_eq!(data, &Value::from(3)),
        _ => panic!("expected data"),
    }
    assert_eq!(t.history.len(), 2);
    assert_eq!(t.history[0].role, v0::MessageRole::User);
    assert_eq!(v0::TaskState::from(TaskState::InputRequired), v0::TaskState::InputRequired);
}

#[test]
fn v1_conversion() {
    let t = v1::A2ATask::from_store(&stored_task());
    assert_eq!(t.id, "t");
    assert_eq!(t.status.state, v1::TaskState::Completed);
    assert_eq!(t.created_at.as_deref(), Some("2015-05-15T00:00:00+00:00"));
    assert_eq!(t.last_modified, None);
    let arts = t.artifacts.as_ref().unwrap();
    assert_eq!(arts[0].artifact_id.as_deref(), Some("artifact-0"));
    assert_eq!(arts[1].artifact_id.as_deref(), Some("artifact-1"));
    assert_eq!(arts[1].name.as_deref(), Some("extra"));
    match &arts[0].parts[0] {
        v1::Part::Text { kind, text, metadata } => {
            assert_eq!(kind.as_deref(), Some("text"));
            assert_eq!(text, "done");
            assert!(metadata.is_none());
        }
        _ => panic!("expected text"),
    }
    match &arts[1].parts[0] {
        v1::Part::Data { kind, .. } => assert_eq!(kind.as_deref(), Some("data")),
        _ => panic!("expected data"),
    }
    assert_eq!(t.history.as_ref().unwrap().len(), 2);

    let mut empty = stored_task();
    empty.artifacts.clear();
    empty.history.clear();
    empty.created_at = 1_500_000_000;
    let t = v1::A2ATask::from_store(&empty);
    assert!(t.artifacts.is_none());
    assert!(t.history.is_none());
    assert_eq!(t.created_at.as_deref(), Some("1970-01-01T00:00:01.500+00:00"));
    assert_eq!(v1::TaskState::from(TaskState::Failed), v1::TaskState::Failed);
}

fn config(public_url: Option<&str>, skills: Vec<A2aSkillConfig>) -> A2aConfig {
    A2aConfig {
        name: "Zero".to_string(),
        description: "An agent".to_string(),
        version: "1.2.3".to_string(),
        public_url: public_url.map(|s| s.to_string()),
        skills,
    }
}

#[test]
fn agent_cards() {
    assert_eq!(base_url(&config(None, vec![]), "127.0.0.1", 42617), "http://127.0.0.1:42617");
    assert_eq!(base_url(&config(Some("https://x.io"), vec![]), "h", 1), "https://x.io");

    let card = agent_card(&config(None, vec![]), "localhost", 8080);
    assert_eq!(card.url, "http://localhost:8080/a2a");
    assert_eq!(card.name, "Zero");
    assert_eq!(card.version, "1.2.3");
    assert!(card.capabilities.state_transition_history);
    assert!(!card.capabilities.streaming);
    assert_eq!(card.skills.len(), 1);
    assert_eq!(card.skills[0].id, "general");
    assert_eq!(card.skills[0].tags, vec!["general".to_string(), "chat".to_string()]);

    let skills = vec![
        A2aSkillConfig { id: "s".into(), name: "S".into(), description: "".into(), tags: vec![] },
        A2aSkillConfig { id: "t".into(), name: "T".into(), description: "d".into(), tags: vec!["x".into()] },
    ];
    let card = agent_card(&config(Some("https://x.io"), skills.clone()), "h", 1);
    assert_eq!(card.url, "https://x.io/a2a");
    assert_eq!(card.skills.len(), 2);
    assert_eq!(card.skills[1].tags, vec!["x".to_string()]);

    let v1card = agent_card_v1(&config(None, skills), "h", 0);
    assert_eq!(v1card.protocol_version, "1.0.0-rc");
    assert_eq!(v1card.supported_interfaces[0].interface_type, "jsonrpc");
    assert_eq!(v1card.supported_interfaces[0].url, "http://h:0/a2a");
    assert_eq!(v1card.capabilities.multi_turn, Some(true));
    assert_eq!(v1card.skills[0].description, None);
    assert_eq!(v1card.skills[0].tags, None);
    assert_eq!(v1card.skills[1].description.as_deref(), Some("d"));
    assert_eq!(v1card.skills[1].input_modes, Some(vec!["text/plain".to_string()]));
    assert_eq!(v1card.default_output_modes, Some(vec!["text/plain".to_string()]));

    let v1card = agent_card_v1(&config(None, vec![]), "h", 65535);
    assert_eq!(v1card.supported_interfaces[0].url, "http://h:65535/a2a");
    assert_eq!(v1card.skills[0].description.as_deref(), Some("General-purpose AI assistant"));
}

#[test]
fn text_helpers() {
    assert_eq!(decimal_string(0), "0");
    assert_eq!(decimal_string(907), "907");
    assert_eq!(decimal_string(u64::MAX), u64::MAX.to_string());
    assert!(is_blank(&chars_of(" \t\n\u{a0}\u{2003}")));
    assert!(is_blank(&chars_of("")));
    assert!(!is_blank(&chars_of(" x ")));
}
