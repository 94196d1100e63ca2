//! Agent Card discovery: the card that describes this agent, built from the
//! gateway's A2A settings, in the legacy and the v1.0.0-rc shapes.

use crate::text::{concat_str, decimal, decimal_string};
use crate::types::{
    duplicate_strings, opt_text, text_models, AgentCapabilities, AgentCard, AgentSkill,
};
use crate::v1;
use vstd::prelude::*;

verus! {

/// A skill as configured for the agent.
#[derive(Debug, Clone)]
pub struct A2aSkillConfig {
    pub id: String,
    pub name: String,
    pub description: String,
    pub tags: Vec<String>,
}

/// The gateway's A2A settings.
#[derive(Debug, Clone)]
pub struct A2aConfig {
    pub name: String,
    pub description: String,
    pub version: String,
    /// Public base URL of the gateway, when it differs from `http://host:port`.
    pub public_url: Option<String>,
    pub skills: Vec<A2aSkillConfig>,
}

/// What a skill holds: id, name, description and tags.
pub struct SkillModel {
    pub id: Seq<char>,
    pub name: Seq<char>,
    pub description: Seq<char>,
    pub tags: Seq<Seq<char>>,
}

/// The model of a configured skill.
pub open spec fn config_skill(s: A2aSkillConfig) -> SkillModel {
    SkillModel { id: s.id@, name: s.name@, description: s.description@, tags: text_models(s.tags@) }
}

/// The model of a card skill.
pub open spec fn card_skill(s: AgentSkill) -> SkillModel {
    SkillModel { id: s.id@, name: s.name@, description: s.description@, tags: text_models(s.tags@) }
}

/// The skill advertised when none is configured.
pub open spec fn default_skill() -> SkillModel {
    SkillModel {
        id: "general"@,
        name: "General Assistant"@,
        description: "General-purpose AI assistant"@,
        tags: seq!["general"@, "chat"@],
    }
}

/// The skills advertised for the configured ones: the default skill when
/// none is configured, otherwise the configured skills.
pub open spec fn advertised_skills(configured: Seq<A2aSkillConfig>) -> Seq<SkillModel> {
    if configured.len() == 0 {
        seq![default_skill()]
    } else {
        configured.map_values(|s: A2aSkillConfig| config_skill(s))
    }
}

/// The base URL of the gateway: the public URL when set, else
/// `http://{host}:{port}`.
pub open spec fn base_url_text(public_url: Option<Seq<char>>, host: Seq<char>, port: u16) -> Seq<char> {
    match public_url {
        Some(u) => u,
        None => "http://"@ + host + ":"@ + decimal(port as nat),
    }
}

/// The URL of the JSON-RPC endpoint under a base URL.
pub open spec fn endpoint_url(base: Seq<char>) -> Seq<char> {
    base + "/a2a"@
}

/// The base URL of the gateway: the public URL when set, else
/// `http://{host}:{port}`.
pub fn base_url(config: &A2aConfig, host: &str, port: u16) -> (r: String)
    ensures
        r@ == base_url_text(opt_text(config.public_url), host@, port),
{
    match &config.public_url {
        Some(u) => u.clone(),
        None => {
            let digits = decimal_string(port as u64);
            let mut s = concat_str("http://", host);
            s.append(":");
            s.append(digits.as_str());
            s
        },
    }
}

/// The legacy Agent Card: name, description and version from the settings,
/// the JSON-RPC endpoint under the base URL, no streaming or push
/// notifications, state transition history, and the advertised skills.
pub fn agent_card(config: &A2aConfig, host: &str, port: u16) -> (r: AgentCard)
    ensures
        r.name@ == config.name@,
        r.description@ == config.description@,
        r.url@ == endpoint_url(base_url_text(opt_text(config.public_url), host@, port)),
        r.version@ == config.version@,
        r.capabilities == (AgentCapabilities {
            streaming: false,
            push_notifications: false,
            state_transition_history: true,
        }),
        r.skills@.map_values(|s: AgentSkill| card_skill(s)) == advertised_skills(config.skills@),
{
    let base = base_url(config, host, port);
    let skills: Vec<AgentSkill> = if config.skills.len() == 0 {
        proof {
            reveal_strlit("general");
            reveal_strlit("General Assistant");
            reveal_strlit("General-purpose AI assistant");
            reveal_strlit("chat");
        }
        let tags = vec!["general".to_owned(), "chat".to_owned()];
        assert(text_models(tags@) =~= seq!["general"@, "chat"@]);
        let v = vec![
            AgentSkill {
                id: "general".to_owned(),
                name: "General Assistant".to_owned(),
                description: "General-purpose AI assistant".to_owned(),
                tags,
            },
        ];
        assert(v@.map_values(|s: AgentSkill| card_skill(s)) =~= seq![default_skill()]);
        v
    } else {
        let mut out: Vec<AgentSkill> = Vec::new();
        let mut i: usize = 0;
        while i < config.skills.len()
            invariant
                i <= config.skills@.len(),
                out@.map_values(|s: AgentSkill| card_skill(s)) =~= config.skills@.map_values(
                    |s: A2aSkillConfig| config_skill(s),
                ).take(i as int),
            decreases config.skills@.len() - i,
        {
            let s = &config.skills[i];
            let skill = AgentSkill {
                id: s.id.clone(),
                name: s.name.clone(),
                description: s.description.clone(),
                tags: duplicate_strings(&s.tags),
            };
            let ghost before = out@;
            out.push(skill);
            assert(out@.map_values(|s: AgentSkill| card_skill(s)) =~= before.map_values(
                |s: AgentSkill| card_skill(s),
            ).push(card_skill(skill)));
            i += 1;
        }
        out
    };
    AgentCard {
        name: config.name.clone(),
        description: config.description.clone(),
        url: concat_str(base.as_str(), "/a2a"),
        version: config.version.clone(),
        capabilities: AgentCapabilities {
            streaming: false,
            push_notifications: false,
            state_transition_history: true,
        },
        skills,
    }
}

// ── v1.0.0-rc ───────────────────────────────────────────────────

/// What a v1 skill holds.
pub struct V1SkillModel {
    pub id: Seq<char>,
    pub name: Seq<char>,
    pub description: Option<Seq<char>>,
    pub tags: Option<Seq<Seq<char>>>,
    pub input_modes: Option<Seq<Seq<char>>>,
    pub output_modes: Option<Seq<Seq<char>>>,
}

/// The texts of an optional list of strings.
pub open spec fn opt_texts(v: Option<Vec<String>>) -> Option<Seq<Seq<char>>> {
    match v {
        Some(v) => Some(text_models(v@)),
        None => None,
    }
}

/// The model of a v1 card skill.
pub open spec fn v1_skill(s: v1::AgentSkill) -> V1SkillModel {
    V1SkillModel {
        id: s.id@,
        name: s.name@,
        description: opt_text(s.description),
        tags: opt_texts(s.tags),
        input_modes: opt_texts(s.input_modes),
        output_modes: opt_texts(s.output_modes),
    }
}

/// The modes every v1 skill and the card accept and produce: plain text.
pub open spec fn text_modes() -> Option<Seq<Seq<char>>> {
    Some(seq!["text/plain"@])
}

/// The v1 form of a skill: an empty description or tag list is left out,
/// and the skill works on plain text.
pub open spec fn v1_skill_of(s: SkillModel) -> V1SkillModel {
    V1SkillModel {
        id: s.id,
        name: s.name,
        description: if s.description.len() == 0 {
            None
        } else {
            Some(s.description)
        },
        tags: if s.tags.len() == 0 {
            None
        } else {
            Some(s.tags)
        },
        input_modes: text_modes(),
        output_modes: text_modes(),
    }
}

/// The plain-text mode list.
fn text_mode_list() -> (r: Vec<String>)
    ensures
        Some(text_models(r@)) == text_modes(),
{
    let v = vec!["text/plain".to_owned()];
    assert(text_models(v@) =~= seq!["text/plain"@]);
    v
}

/// The v1 Agent Card: name and description from the settings, protocol
/// version `1.0.0-rc`, one JSON-RPC interface at the endpoint under the base
/// URL, multi-turn but no streaming or push notifications, plain-text modes,
/// and the advertised skills in v1 form.
pub fn agent_card_v1(config: &A2aConfig, host: &str, port: u16) -> (r: v1::AgentCard)
    ensures
        r.name@ == config.name@,
        opt_text(r.description) == Some(config.description@),
        r.protocol_version@ == "1.0.0-rc"@,
        r.supported_interfaces@.len() == 1,
        r.supported_interfaces@[0].interface_type@ == "jsonrpc"@,
        r.supported_interfaces@[0].url@ == endpoint_url(
            base_url_text(opt_text(config.public_url), host@, port),
        ),
        r.capabilities == (v1::AgentCapabilities {
            streaming: false,
            push_notifications: false,
            multi_turn: Some(true),
        }),
        r.skills@.map_values(|s: v1::AgentSkill| v1_skill(s)) == advertised_skills(
            config.skills@,
        ).map_values(|s: SkillModel| v1_skill_of(s)),
        opt_texts(r.default_input_modes) == text_modes(),
        opt_texts(r.default_output_modes) == text_modes(),
{
    let base = base_url(config, host, port);
    let ghost advertised = advertised_skills(config.skills@).map_values(|s: SkillModel| v1_skill_of(s));
    let skills: Vec<v1::AgentSkill> = if config.skills.len() == 0 {
        proof {
            reveal_strlit("general");
            reveal_strlit("General Assistant");
            reveal_strlit("General-purpose AI assistant");
            reveal_strlit("chat");
        }
        let tags = vec!["general".to_owned(), "chat".to_owned()];
        assert(text_models(tags@) =~= seq!["general"@, "chat"@]);
        let v = vec![
            v1::AgentSkill {
                id: "general".to_owned(),
                name: "General Assistant".to_owned(),
                description: Some("General-purpose AI assistant".to_owned()),
                tags: Some(tags),
                input_modes: Some(text_mode_list()),
                output_modes: Some(text_mode_list()),
            },
        ];
        assert(v@.map_values(|s: v1::AgentSkill| v1_skill(s)) =~= advertised);
        v
    } else {
        let mut out: Vec<v1::AgentSkill> = Vec::new();
        let mut i: usize = 0;
        while i < config.skills.len()
            invariant
                i <= config.skills@.len(),
                config.skills@.len() > 0,
                advertised == advertised_skills(config.skills@).map_values(
                    |s: SkillModel| v1_skill_of(s),
                ),
                out@.map_values(|s: v1::AgentSkill| v1_skill(s)) =~= advertised.take(i as int),
            decreases config.skills@.len() - i,
        {
            let s = &config.skills[i];
            let description = if s.description.as_str().is_empty() {
                None
            } else {
                Some(s.description.clone())
            };
            let tags = if s.tags.len() == 0 {
                None
            } else {
                Some(duplicate_strings(&s.tags))
            };
            let skill = v1::AgentSkill {
                id: s.id.clone(),
                name: s.name.clone(),
                description,
                tags,
                input_modes: Some(text_mode_list()),
                output_modes: Some(text_mode_list()),
            };
            assert(v1_skill(skill) == advertised[i as int]);
            let ghost before = out@;
            out.push(skill);
            assert(out@.map_values(|s: v1::AgentSkill| v1_skill(s)) =~= before.map_values(
                |s: v1::AgentSkill| v1_skill(s),
            ).push(v1_skill(skill)));
            i += 1;
        }
        out
    };
    proof {
        reveal_strlit("1.0.0-rc");
        reveal_strlit("jsonrpc");
    }
    v1::AgentCard {
        name: config.name.clone(),
        description: Some(config.description.clone()),
        protocol_version: "1.0.0-rc".to_owned(),
        supported_interfaces: vec![
            v1::SupportedInterface {
                interface_type: "jsonrpc".to_owned(),
                url: concat_str(base.as_str(), "/a2a"),
            },
        ],
        capabilities: v1::AgentCapabilities {
            streaming: false,
            push_notifications: false,
            multi_turn: Some(true),
        },
        skills,
        default_input_modes: Some(text_mode_list()),
        default_output_modes: Some(text_mode_list()),
    }
}

} // verus!
