//! The chat-completion adapters: the conversation model, the request bodies
//! sent to Ollama and OpenAI, and what is taken out of their replies.
use vstd::prelude::*;

verus! {

/// Who wrote a message of a conversation.
#[derive(Clone, Copy, Debug, PartialEq, Eq, Structural)]
pub enum Role {
    User,
    Assistant,
    System,
}

impl Role {
    /// The name under which the role goes over the wire.
    pub open spec fn name(self) -> Seq<char> {
        match self {
            Role::User => "user"@,
            Role::Assistant => "assistant"@,
            Role::System => "system"@,
        }
    }

    /// The role's wire name.
    pub fn to_string(&self) -> (s: String)
        ensures
            s@ == self.name(),
    {
        match self {
            Role::User => {
                String::from_str("user")
            },
            Role::Assistant => {
                String::from_str("assistant")
            },
            Role::System => {
                String::from_str("system")
            },
        }
    }
}

/// One message of a conversation.
#[derive(Debug)]
pub struct Message {
    pub role: Role,
    pub content: String,
}

/// A message in the shape that Ollama's chat endpoint takes and gives back.
#[derive(Debug)]
pub struct OllamaMessage {
    pub role: String,
    pub content: String,
}

/// `message` as Ollama's chat endpoint receives it: the role by its wire
/// name, the content unchanged.
pub open spec fn ollama_carries(om: OllamaMessage, message: Message) -> bool {
    &&& om.role@ == message.role.name()
    &&& om.content == message.content
}

impl<'a> From<&'a Message> for OllamaMessage {
    fn from(message: &'a Message) -> (om: Self)
        ensures
            ollama_carries(om, *message),
    {
        OllamaMessage { role: message.role.to_string(), content: message.content.clone() }
    }
}

// The conversion builds a fresh role string, which no spec value can name, so
// the generic `from_spec` equation is not claimed; each `from` states what it
// returns in its own `ensures`.
impl<'a> vstd::std_specs::convert::FromSpecImpl<&'a Message> for OllamaMessage {
    open spec fn obeys_from_spec() -> bool {
        false
    }

    open spec fn from_spec(message: &'a Message) -> Self {
        arbitrary()
    }
}

impl vstd::std_specs::convert::FromSpecImpl<Message> for OllamaMessage {
    open spec fn obeys_from_spec() -> bool {
        false
    }

    open spec fn from_spec(message: Message) -> Self {
        arbitrary()
    }
}

impl From<Message> for OllamaMessage {
    fn from(message: Message) -> (om: Self)
        ensures
            ollama_carries(om, message),
    {
        OllamaMessage { role: message.role.to_string(), content: message.content }
    }
}

/// The body of a request to Ollama's chat endpoint.
#[derive(Debug)]
pub struct OllamaChatCompletionRequest {
    pub model: String,
    pub messages: Vec<OllamaMessage>,
    pub stream: bool,
}

/// The reply of Ollama's chat endpoint.
#[derive(Debug)]
pub struct OllamaChatCompletionResponse {
    pub model: String,
    pub created_at: String,
    pub message: OllamaMessage,
    pub done: bool,
    pub total_duration: u64,
    pub load_duration: u64,
    pub prompt_eval_count: u32,
    pub prompt_eval_duration: u64,
    pub eval_count: u32,
    pub eval_duration: u64,
}

/// A chat-completion adapter for an Ollama server: where it is and which
/// model it asks. The HTTP client that carries the requests is the caller's.
#[derive(Debug)]
pub struct OllamaAdapter {
    pub host: String,
    pub model: String,
}

/// The address of an Ollama server on this machine.
pub open spec fn local_ollama_host() -> Seq<char> {
    "http://localhost:11434"@
}

/// The model that a default Ollama adapter talks to.
pub open spec fn default_ollama_model() -> Seq<char> {
    "llama3.2"@
}

/// The path of Ollama's chat endpoint below the host.
pub open spec fn ollama_chat_path() -> Seq<char> {
    "/api/chat"@
}

impl OllamaAdapter {
    /// An adapter for the Ollama server at `host`, using `model`.
    pub fn new(host: &str, model: &str) -> (adapter: Self)
        ensures
            adapter.host@ == host@,
            adapter.model@ == model@,
    {
        OllamaAdapter { host: String::from_str(host), model: String::from_str(model) }
    }

    /// An adapter for the Ollama server on this machine, using `model`.
    pub fn new_local(model: &str) -> (adapter: Self)
        ensures
            adapter.host@ == local_ollama_host(),
            adapter.model@ == model@,
    {
        Self::new("http://localhost:11434", model)
    }

    /// The URL that chat requests are posted to: the host followed by
    /// `/api/chat`.
    pub fn chat_url(&self) -> (url: String)
        ensures
            url@ == self.host@ + ollama_chat_path(),
    {
        self.host.clone().concat("/api/chat")
    }

    /// The request body that asks for one non-streamed completion of
    /// `messages` from this adapter's model.
    pub fn chat_request(&self, messages: &[Message]) -> (request: OllamaChatCompletionRequest)
        ensures
            request.model == self.model,
            !request.stream,
            request.messages@.len() == messages@.len(),
            forall|i: int|
                0 <= i < messages@.len() ==> ollama_carries(
                    #[trigger] request.messages@[i],
                    messages@[i],
                ),
    {
        let mut converted: Vec<OllamaMessage> = Vec::new();
        let mut i: usize = 0;
        while i < messages.len()
            invariant
                i <= messages@.len(),
                converted@.len() == i,
                forall|j: int|
                    0 <= j < i ==> ollama_carries(#[trigger] converted@[j], messages@[j]),
            decreases messages@.len() - i,
        {
            converted.push(OllamaMessage::from(&messages[i]));
            i = i + 1;
        }
        OllamaChatCompletionRequest { model: self.model.clone(), messages: converted, stream: false }
    }
}

impl Default for OllamaAdapter {
    /// The adapter for the `llama3.2` model on the local Ollama server.
    fn default() -> (adapter: Self)
        ensures
            adapter.host@ == local_ollama_host(),
            adapter.model@ == default_ollama_model(),
    {
        Self::new_local("llama3.2")
    }
}

impl OllamaChatCompletionResponse {
    /// The text of the completion: the content of the reply's message.
    pub fn into_reply(self) -> (content: String)
        ensures
            content == self.message.content,
    {
        self.message.content
    }
}

/// A message in the shape that OpenAI's chat-completions endpoint takes and
/// gives back.
#[derive(Debug)]
pub struct OpenAIMessage {
    pub role: String,
    pub content: String,
}

/// `message` as OpenAI's endpoint receives it: the role by its wire name,
/// the content unchanged.
pub open spec fn openai_carries(om: OpenAIMessage, message: Message) -> bool {
    &&& om.role@ == message.role.name()
    &&& om.content == message.content
}

impl<'a> From<&'a Message> for OpenAIMessage {
    fn from(message: &'a Message) -> (om: Self)
        ensures
            openai_carries(om, *message),
    {
        OpenAIMessage { role: message.role.to_string(), content: message.content.clone() }
    }
}

// As for `OllamaMessage`: the role string is built afresh, so each `from`
// states its result in its own `ensures` in place of `from_spec`.
impl<'a> vstd::std_specs::convert::FromSpecImpl<&'a Message> for OpenAIMessage {
    open spec fn obeys_from_spec() -> bool {
        false
    }

    open spec fn from_spec(message: &'a Message) -> Self {
        arbitrary()
    }
}

impl vstd::std_specs::convert::FromSpecImpl<Message> for OpenAIMessage {
    open spec fn obeys_from_spec() -> bool {
        false
    }

    open spec fn from_spec(message: Message) -> Self {
        arbitrary()
    }
}

impl From<Message> for OpenAIMessage {
    fn from(message: Message) -> (om: Self)
        ensures
            openai_carries(om, message),
    {
        OpenAIMessage { role: message.role.to_string(), content: message.content }
    }
}

/// The body of a request to OpenAI's chat-completions endpoint.
#[derive(Debug)]
pub struct OpenAIChatCompletionRequest {
    pub model: String,
    pub messages: Vec<OpenAIMessage>,
}

/// Token counts of a completion beyond prompt and answer.
#[derive(Debug)]
pub struct OpenAICompletionTokensDetails {
    pub reasoning_tokens: i32,
    pub accepted_prediction_tokens: i32,
    pub rejected_prediction_tokens: i32,
}

/// The token usage that OpenAI reports for a completion.
#[derive(Debug)]
pub struct OpenAIUsage {
    pub prompt_tokens: i32,
    pub completion_tokens: i32,
    pub total_tokens: i32,
    pub completion_tokens_details: OpenAICompletionTokensDetails,
}

/// One candidate answer of a completion.
#[derive(Debug)]
pub struct OpenAIChoice {
    pub index: i32,
    pub message: OpenAIMessage,
    pub finish_reason: String,
}

/// The reply of OpenAI's chat-completions endpoint.
#[derive(Debug)]
pub struct OpenAIChatCompletionResponse {
    pub id: String,
    pub object: String,
    pub created: i64,
    pub model: String,
    pub system_fingerprint: String,
    pub choices: Vec<OpenAIChoice>,
    pub usage: OpenAIUsage,
}

/// Why a completion reply carried no answer.
#[derive(Debug, PartialEq, Eq, Structural)]
pub enum CompletionError {
    /// The reply held no choice at all.
    NoResponse,
}

impl CompletionError {
    /// The text of the error.
    pub open spec fn text(self) -> Seq<char> {
        "No response"@
    }

    /// The error's message.
    pub fn to_string(&self) -> (s: String)
        ensures
            s@ == self.text(),
    {
        String::from_str("No response")
    }
}

/// A chat-completion adapter for OpenAI's API: the base URL, the key and the
/// model it asks. The HTTP client that carries the requests is the caller's.
#[derive(Debug)]
pub struct OpenAIAdapter {
    pub host: String,
    pub api_key: String,
    pub model: String,
}

/// The base URL of OpenAI's API.
pub open spec fn openai_host() -> Seq<char> {
    "https://api.openai.com/v1"@
}

/// The path of the chat-completions endpoint below the base URL.
pub open spec fn openai_chat_path() -> Seq<char> {
    "/chat/completions"@
}

/// The headers that a chat-completions request carries: the bearer token
/// made of `api_key`, and the JSON content type.
pub open spec fn openai_headers(api_key: Seq<char>) -> Seq<(Seq<char>, Seq<char>)> {
    seq![
        ("Authorization"@, "Bearer "@ + api_key),
        ("Content-Type"@, "application/json"@),
    ]
}

impl OpenAIAdapter {
    /// An adapter for OpenAI's API with `api_key`, using `model`.
    pub fn new(api_key: &str, model: &str) -> (adapter: Self)
        ensures
            adapter.host@ == openai_host(),
            adapter.api_key@ == api_key@,
            adapter.model@ == model@,
    {
        OpenAIAdapter {
            host: String::from_str("https://api.openai.com/v1"),
            api_key: String::from_str(api_key),
            model: String::from_str(model),
        }
    }

    /// The URL that chat requests are posted to: the host followed by
    /// `/chat/completions`.
    pub fn chat_url(&self) -> (url: String)
        ensures
            url@ == self.host@ + openai_chat_path(),
    {
        self.host.clone().concat("/chat/completions")
    }

    /// The headers of a chat request, as (name, value) pairs in the order
    /// in which they are set.
    pub fn request_headers(&self) -> (headers: Vec<(String, String)>)
        ensures
            headers@.len() == 2,
            forall|i: int|
                0 <= i < 2 ==> (#[trigger] headers@[i]).0@ == openai_headers(self.api_key@)[i].0
                    && headers@[i].1@ == openai_headers(self.api_key@)[i].1,
            headers@[0].0@ == "Authorization"@,
            headers@[0].1@ == "Bearer "@ + self.api_key@,
            headers@[1].0@ == "Content-Type"@,
            headers@[1].1@ == "application/json"@,
    {
        let bearer = String::from_str("Bearer ").concat(self.api_key.as_str());
        let mut headers: Vec<(String, String)> = Vec::new();
        headers.push((String::from_str("Authorization"), bearer));
        headers.push((String::from_str("Content-Type"), String::from_str("application/json")));
        headers
    }

    /// The request body that asks this adapter's model to complete
    /// `messages`.
    pub fn chat_request(&self, messages: &[Message]) -> (request: OpenAIChatCompletionRequest)
        ensures
            request.model == self.model,
            request.messages@.len() == messages@.len(),
            forall|i: int|
                0 <= i < messages@.len() ==> openai_carries(
                    #[trigger] request.messages@[i],
                    messages@[i],
                ),
    {
        let mut converted: Vec<OpenAIMessage> = Vec::new();
        let mut i: usize = 0;
        while i < messages.len()
            invariant
                i <= messages@.len(),
                converted@.len() == i,
                forall|j: int|
                    0 <= j < i ==> openai_carries(#[trigger] converted@[j], messages@[j]),
            decreases messages@.len() - i,
        {
            converted.push(OpenAIMessage::from(&messages[i]));
            i = i + 1;
        }
        OpenAIChatCompletionRequest { model: self.model.clone(), messages: converted }
    }
}

impl OpenAIChatCompletionResponse {
    /// The text of the completion: the content of the last choice, or
    /// `NoResponse` when the reply holds no choice.
    pub fn into_reply(self) -> (content: Result<String, CompletionError>)
        ensures
            self.choices@.len() == 0 <==> content is Err,
            content matches Err(e) ==> e == CompletionError::NoResponse,
            content matches Ok(c) ==> c == self.choices@.last().message.content,
    {
        let mut choices = self.choices;
        match choices.pop() {
            Some(choice) => Ok(choice.message.content),
            None => Err(CompletionError::NoResponse),
        }
    }
}

/// For the same conversation, the Ollama and the OpenAI request bodies
/// carry the same messages: role by role and content by content.
pub proof fn lemma_adapters_send_same_conversation(
    messages: Seq<Message>,
    ollama: Seq<OllamaMessage>,
    openai: Seq<OpenAIMessage>,
)
    requires
        ollama.len() == messages.len(),
        openai.len() == messages.len(),
        forall|i: int| 0 <= i < messages.len() ==> ollama_carries(#[trigger] ollama[i], messages[i]),
        forall|i: int| 0 <= i < messages.len() ==> openai_carries(#[trigger] openai[i], messages[i]),
    ensures
        forall|i: int|
            0 <= i < messages.len() ==> (#[trigger] ollama[i]).role@ == openai[i].role@ && ollama[i].content
                == openai[i].content,
{
    assert forall|i: int| 0 <= i < messages.len() implies (#[trigger] ollama[i]).role@ == openai[i].role@
        && ollama[i].content == openai[i].content by {
        assert(ollama_carries(ollama[i], messages[i]));
        assert(openai_carries(openai[i], messages[i]));
    }
}

/// The bearer token carries the whole API key: the Authorization value is
/// "Bearer " followed by every character of the key, so two keys give the
/// same token only if they are the same key.
pub proof fn lemma_bearer_carries_whole_key(k1: Seq<char>, k2: Seq<char>)
    ensures
        openai_headers(k1).len() == 2,
        openai_headers(k1)[0].0 == "Authorization"@,
        openai_headers(k1)[0].1.len() == "Bearer "@.len() + k1.len(),
        openai_headers(k1)[0].1.subrange("Bearer "@.len() as int, openai_headers(k1)[0].1.len() as int)
            == k1,
        openai_headers(k1)[0].1 == openai_headers(k2)[0].1 ==> k1 == k2,
        openai_headers(k1)[1] == ("Content-Type"@, "application/json"@),
{
    let b = "Bearer "@;
    assert((b + k1).subrange(b.len() as int, (b + k1).len() as int) =~= k1);
    assert((b + k2).subrange(b.len() as int, (b + k2).len() as int) =~= k2);
}

} // verus!
