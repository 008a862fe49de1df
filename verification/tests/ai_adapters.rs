use chat::ai::{
    CompletionError, Message, OllamaAdapter, OllamaChatCompletionResponse, OllamaMessage,
    OpenAIAdapter, OpenAIChatCompletionResponse, OpenAIChoice, OpenAICompletionTokensDetails,
    OpenAIMessage, OpenAIUsage, Role,
};

fn conversation() -> Vec<Message> {
    vec![
        Message { role: Role::System, content: "Be brief.".to_string() },
        Message { role: Role::User, content: "Hello, world!".to_string() },
        Message { role: Role::Assistant, content: "Hi.".to_string() },
    ]
}

#[test]
fn role_wire_names() {
    assert_eq!(Role::User.to_string(), "user");
    assert_eq!(Role::Assistant.to_string(), "assistant");
    assert_eq!(Role::System.to_string(), "system");
}

#[test]
fn ollama_message_from_borrowed_and_owned() {
    let m = Message { role: Role::User, content: "Hello, world!".to_string() };
    let a: OllamaMessage = (&m).into();
    assert_eq!(a.role, "user");
    assert_eq!(a.content, "Hello, world!");
    let b: OllamaMessage = m.into();
    assert_eq!(b.role, "user");
    assert_eq!(b.content, "Hello, world!");
}

#[test]
fn openai_message_from_borrowed_and_owned() {
    let m = Message { role: Role::Assistant, content: "42".to_string() };
    let a: OpenAIMessage = (&m).into();
    assert_eq!(a.role, "assistant");
    assert_eq!(a.content, "42");
    let b = OpenAIMessage::from(m);
    assert_eq!(b.role, "assistant");
    assert_eq!(b.content, "42");
}

#[test]
fn ollama_adapter_constructors() {
    let a = OllamaAdapter::new("http://gpu-box:11434", "qwen2");
    assert_eq!(a.host, "http://gpu-box:11434");
    assert_eq!(a.model, "qwen2");
    let l = OllamaAdapter::new_local("llama3.2");
    assert_eq!(l.host, "http://localhost:11434");
    assert_eq!(l.model, "llama3.2");
    let d = OllamaAdapter::default();
    assert_eq!(d.host, "http://localhost:11434");
    assert_eq!(d.model, "llama3.2");
}

#[test]
fn ollama_chat_url_and_request() {
    let a = OllamaAdapter::new_local("llama3.2");
    assert_eq!(a.chat_url(), "http://localhost:11434/api/chat");
    let req = a.chat_request(&conversation());
    assert_eq!(req.model, "llama3.2");
    assert!(!req.stream);
    let pairs: Vec<(&str, &str)> =
        req.messages.iter().map(|m| (m.role.as_str(), m.content.as_str())).collect();
    assert_eq!(
        pairs,
        vec![("system", "Be brief."), ("user", "Hello, world!"), ("assistant", "Hi.")]
    );
}

#[test]
fn ollama_request_of_empty_conversation() {
    let a = OllamaAdapter::new_local("llama3.2");
    let req = a.chat_request(&[]);
    assert!(req.messages.is_empty());
    assert!(!req.stream);
}

#[test]
fn ollama_reply_is_message_content() {
    let resp = OllamaChatCompletionResponse {
        model: "llama3.2".to_string(),
        created_at: "2024-10-01T00:00:00Z".to_string(),
        message: OllamaMessage { role: "assistant".to_string(), content: "The Nile.".to_string() },
        done: true,
        total_duration: 10,
        load_duration: 1,
        prompt_eval_count: 5,
        prompt_eval_duration: 2,
        eval_count: 3,
        eval_duration: 4,
    };
    assert_eq!(resp.into_reply(), "The Nile.");
}

#[test]
fn openai_adapter_url_headers_request() {
    let a = OpenAIAdapter::new("sk-test", "gpt-3.5-turbo");
    assert_eq!(a.host, "https://api.openai.com/v1");
    assert_eq!(a.api_key, "sk-test");
    assert_eq!(a.model, "gpt-3.5-turbo");
    assert_eq!(a.chat_url(), "https://api.openai.com/v1/chat/completions");
    assert_eq!(
        a.request_headers(),
        vec![
            ("Authorization".to_string(), "Bearer sk-test".to_string()),
            ("Content-Type".to_string(), "application/json".to_string()),
        ]
    );
    let req = a.chat_request(&conversation());
    assert_eq!(req.model, "gpt-3.5-turbo");
    assert_eq!(req.messages.len(), 3);
    assert_eq!(req.messages[1].role, "user");
    assert_eq!(req.messages[1].content, "Hello, world!");
}

fn completion(contents: &[&str]) -> OpenAIChatCompletionResponse {
    OpenAIChatCompletionResponse {
        id: "chatcmpl-1".to_string(),
        object: "chat.completion".to_string(),
        created: 1_700_000_000,
        model: "gpt-3.5-turbo".to_string(),
        system_fingerprint: "fp".to_string(),
        choices: contents
            .iter()
            .enumerate()
            .map(|(i, c)| OpenAIChoice {
                index: i as i32,
                message: OpenAIMessage { role: "assistant".to_string(), content: c.to_string() },
                finish_reason: "stop".to_string(),
            })
            .collect(),
        usage: OpenAIUsage {
            prompt_tokens: 1,
            completion_tokens: 2,
            total_tokens: 3,
            completion_tokens_details: OpenAICompletionTokensDetails {
                reasoning_tokens: 0,
                accepted_prediction_tokens: 0,
                rejected_prediction_tokens: 0,
            },
        },
    }
}

#[test]
fn openai_reply_is_last_choice() {
    assert_eq!(completion(&["first", "second"]).into_reply(), Ok("second".to_string()));
    assert_eq!(completion(&["only"]).into_reply(), Ok("only".to_string()));
}

#[test]
fn openai_reply_without_choices_is_no_response() {
    let r = completion(&[]).into_reply();
    assert_eq!(r, Err(CompletionError::NoResponse));
    assert_eq!(CompletionError::NoResponse.to_string(), "No response");
}

#[test]
fn both_adapters_send_the_same_conversation() {
    let msgs = conversation();
    let o = OllamaAdapter::new_local("m").chat_request(&msgs);
    let a = OpenAIAdapter::new("k", "m").chat_request(&msgs);
    for (x, y) in o.messages.iter().zip(a.messages.iter()) {
        assert_eq!(x.role, y.role);
        assert_eq!(x.content, y.content);
    }
    assert_eq!(o.messages.len(), a.messages.len());
}
