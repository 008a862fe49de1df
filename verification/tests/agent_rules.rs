use chat::agent::{
    db_id, plan_create, plan_update, AdapterType, AgentType, AgentUpdate, AppError, CreateAgent,
    UpdateAgent,
};
use chat::text::decimal_text;
use serde_json::Value;

fn empty_object() -> Value {
    Value::Object(serde_json::Map::new())
}

fn object_k_v() -> Value {
    let mut m = serde_json::Map::new();
    m.insert("k".to_string(), Value::String("v".to_string()));
    Value::Object(m)
}

fn create_input() -> CreateAgent {
    CreateAgent::new(
        "test",
        AgentType::Proxy,
        AdapterType::Ollama,
        "llama3.2",
        "You are a helpful assistant.",
        empty_object(),
    )
}

#[test]
fn create_agent_request_fields() {
    let input = create_input();
    assert_eq!(input.name, "test");
    assert_eq!(input.agent_type, AgentType::Proxy);
    assert_eq!(input.adapter, AdapterType::Ollama);
    assert_eq!(input.model, "llama3.2");
    assert_eq!(input.prompt, "You are a helpful assistant.");
    assert_eq!(input.args, empty_object());
}

#[test]
fn create_with_free_name_gives_row() {
    let row = plan_create(create_input(), 1, false).expect("create refused");
    assert_eq!(row.chat_id, 1);
    assert_eq!(row.name, "test");
    assert_eq!(row.agent_type, AgentType::Proxy);
    assert_eq!(row.adapter, AdapterType::Ollama);
    assert_eq!(row.model, "llama3.2");
    assert_eq!(row.prompt, "You are a helpful assistant.");
    assert_eq!(row.args, empty_object());
}

#[test]
fn create_with_taken_name_is_refused() {
    match plan_create(create_input(), 1, true) {
        Err(AppError::CreateAgentError(msg)) => assert_eq!(msg, "agent test already exists "),
        other => panic!("unexpected {:?}", other),
    }
}

#[test]
fn update_of_missing_agent_is_refused() {
    let input = UpdateAgent::new(12, "Can you tell me your name?", empty_object());
    match plan_update(input, 3, false) {
        Err(AppError::UpdateAgentError(msg)) => {
            assert_eq!(msg, "agent 12 does not exist in chat 3")
        }
        other => panic!("unexpected {:?}", other),
    }
}

#[test]
fn update_with_prompt_changes_prompt_and_args() {
    let input = UpdateAgent::new(7, "Can you tell me your name?", object_k_v());
    match plan_update(input, 1, true) {
        Ok(AgentUpdate::PromptAndArgs { prompt, args, chat_id, id }) => {
            assert_eq!(prompt, "Can you tell me your name?");
            assert_eq!(args, object_k_v());
            assert_eq!(chat_id, 1);
            assert_eq!(id, 7);
        }
        other => panic!("unexpected {:?}", other),
    }
}

#[test]
fn update_with_empty_prompt_changes_only_args() {
    let input = UpdateAgent::new(7, "", empty_object());
    match plan_update(input, 1, true) {
        Ok(AgentUpdate::Args { args, chat_id, id }) => {
            assert_eq!(args, empty_object());
            assert_eq!(chat_id, 1);
            assert_eq!(id, 7);
        }
        other => panic!("unexpected {:?}", other),
    }
}

#[test]
fn default_requests() {
    let c = CreateAgent::default();
    assert_eq!(c.agent_type, AgentType::Proxy);
    assert_eq!(c.adapter, AdapterType::Openai);
    assert_eq!(c.args, serde_json::Value::Null);
    let u = UpdateAgent::default();
    assert_eq!(u.id, 0);
    assert_eq!(u.prompt, "");
}

#[test]
fn db_id_keeps_the_bits() {
    assert_eq!(db_id(0), 0);
    assert_eq!(db_id(42), 42);
    assert_eq!(db_id(u64::MAX), -1);
    assert_eq!(db_id(1 << 63), i64::MIN);
    for id in [0u64, 1, 99, u64::MAX, 1 << 63] {
        assert_eq!(db_id(id) as u64, id);
    }
}

#[test]
fn decimal_rendering() {
    assert_eq!(decimal_text(0), "0");
    assert_eq!(decimal_text(7), "7");
    assert_eq!(decimal_text(10), "10");
    assert_eq!(decimal_text(1234567890), "1234567890");
    assert_eq!(decimal_text(u64::MAX), u64::MAX.to_string());
}

#[test]
fn name_taken_in_other_chat_is_accepted() {
    // "test" exists in chat 1, so the check for chat 2 answers false.
    assert!(plan_create(create_input(), 1, true).is_err());
    let row = plan_create(create_input(), 2, false).expect("create refused");
    assert_eq!(row.chat_id, 2);
    assert_eq!(row.name, "test");
}
