//! The rules by which a chat's agents are created and updated. The database
//! round trips stay with the caller: each rule takes what the database
//! answered and says which row to write, or which error to give back.
use vstd::prelude::*;

use crate::text::{decimal, decimal_text};

verus! {

/// A JSON value of the `serde_json` crate. The library carries an agent's
/// arguments through unchanged and never looks inside them.
#[verifier::external_type_specification]
#[verifier::external_body]
pub struct ExJsonValue(serde_json::Value);

/// How an agent takes part in a chat.
#[derive(Clone, Copy, Debug, PartialEq, Eq, Structural, Default)]
pub enum AgentType {
    #[default]
    Proxy,
    Reply,
    Tap,
}

/// The completion service behind an agent.
#[derive(Clone, Copy, Debug, PartialEq, Eq, Structural, Default)]
pub enum AdapterType {
    #[default]
    Openai,
    Ollama,
}

/// A request to add an agent to a chat.
#[derive(Debug, Default)]
pub struct CreateAgent {
    pub name: String,
    pub agent_type: AgentType,
    pub adapter: AdapterType,
    pub model: String,
    pub prompt: String,
    pub args: serde_json::Value,
}

/// A request to change an agent's prompt and arguments.
#[derive(Debug, Default)]
pub struct UpdateAgent {
    pub id: u64,
    pub prompt: String,
    pub args: serde_json::Value,
}

impl CreateAgent {
    /// A creation request with the given fields.
    pub fn new(
        name: &str,
        agent_type: AgentType,
        adapter: AdapterType,
        model: &str,
        prompt: &str,
        args: serde_json::Value,
    ) -> (input: Self)
        ensures
            input.name@ == name@,
            input.agent_type == agent_type,
            input.adapter == adapter,
            input.model@ == model@,
            input.prompt@ == prompt@,
            input.args == args,
    {
        CreateAgent {
            name: String::from_str(name),
            agent_type,
            adapter,
            model: String::from_str(model),
            prompt: String::from_str(prompt),
            args,
        }
    }
}

impl UpdateAgent {
    /// An update request for the agent `id`.
    pub fn new(id: u64, prompt: &str, args: serde_json::Value) -> (input: Self)
        ensures
            input.id == id,
            input.prompt@ == prompt@,
            input.args == args,
    {
        UpdateAgent { id, prompt: String::from_str(prompt), args }
    }
}

/// Why an agent request was refused.
#[derive(Debug)]
pub enum AppError {
    CreateAgentError(String),
    UpdateAgentError(String),
}

/// The message of a refused creation: the agent's name is taken.
pub open spec fn name_taken_message(name: Seq<char>) -> Seq<char> {
    "agent "@ + name + " already exists "@
}

/// The message of a refused update: no agent `id` in chat `chat_id`.
pub open spec fn missing_agent_message(id: nat, chat_id: nat) -> Seq<char> {
    "agent "@ + decimal(id) + " does not exist in chat "@ + decimal(chat_id)
}

/// The signed key under which the database stores an unsigned id: the same
/// 64 bits, read as two's complement.
pub fn db_id(id: u64) -> (key: i64)
    ensures
        key == id as i64,
{
    id as i64
}

/// An id kept under its signed key reads back unchanged, so distinct ids
/// never share a key.
pub proof fn lemma_db_id_round_trip(id: u64)
    ensures
        (id as i64) as u64 == id,
{
    assert((id as i64) as u64 == id) by (bit_vector);
}

/// The row that creating an agent inserts.
#[derive(Debug)]
pub struct NewAgentRow {
    pub chat_id: i64,
    pub name: String,
    pub agent_type: AgentType,
    pub adapter: AdapterType,
    pub model: String,
    pub prompt: String,
    pub args: serde_json::Value,
}

/// What deciding a creation request for chat `chat_id` gives, when an agent
/// of that name exists there or not: a refusal with `CreateAgentError` if it
/// does, else the row to insert, which holds the request unchanged.
pub open spec fn create_outcome(
    input: CreateAgent,
    chat_id: u64,
    name_exists: bool,
    r: Result<NewAgentRow, AppError>,
) -> bool {
    &&& (name_exists <==> r is Err)
    &&& (r matches Err(e) ==> e matches AppError::CreateAgentError(msg) && msg@ == name_taken_message(
        input.name@,
    ))
    &&& (r matches Ok(row) ==> {
        &&& row.chat_id == chat_id as i64
        &&& row.name == input.name
        &&& row.agent_type == input.agent_type
        &&& row.adapter == input.adapter
        &&& row.model == input.model
        &&& row.prompt == input.prompt
        &&& row.args == input.args
    })
}

/// Decides a creation request for chat `chat_id`, given whether an agent of
/// that name already exists there: refused with `CreateAgentError` if it
/// does, else the row to insert, which holds the request unchanged.
pub fn plan_create(input: CreateAgent, chat_id: u64, name_exists: bool) -> (r: Result<NewAgentRow, AppError>)
    ensures
        create_outcome(input, chat_id, name_exists, r),
        r matches Ok(row) ==> row.agent_type == input.agent_type && row.adapter == input.adapter,
{
    if name_exists {
        let msg = String::from_str("agent ").concat(input.name.as_str()).concat(" already exists ");
        return Err(AppError::CreateAgentError(msg));
    }
    Ok(NewAgentRow {
        chat_id: db_id(chat_id),
        name: input.name,
        agent_type: input.agent_type,
        adapter: input.adapter,
        model: input.model,
        prompt: input.prompt,
        args: input.args,
    })
}

/// The write that an accepted update makes to agent `id` of chat `chat_id`.
#[derive(Debug)]
pub enum AgentUpdate {
    /// Only the arguments change; the prompt stays as it is.
    Args { args: serde_json::Value, chat_id: i64, id: i64 },
    /// Both the prompt and the arguments change.
    PromptAndArgs { prompt: String, args: serde_json::Value, chat_id: i64, id: i64 },
}

/// Decides an update request for chat `chat_id`, given whether the agent
/// exists there: refused with `UpdateAgentError` if it does not; else an
/// empty prompt only replaces the arguments, and any other prompt replaces
/// both the prompt and the arguments.
pub fn plan_update(input: UpdateAgent, chat_id: u64, id_exists: bool) -> (r: Result<AgentUpdate, AppError>)
    ensures
        !id_exists <==> r is Err,
        r matches Err(e) ==> e matches AppError::UpdateAgentError(msg) && msg@
            == missing_agent_message(input.id as nat, chat_id as nat),
        r matches Ok(u) ==> match u {
            AgentUpdate::Args { args, chat_id: c, id } => {
                &&& input.prompt@.len() == 0
                &&& args == input.args
                &&& c == chat_id as i64
                &&& id == input.id as i64
            },
            AgentUpdate::PromptAndArgs { prompt, args, chat_id: c, id } => {
                &&& input.prompt@.len() != 0
                &&& prompt == input.prompt
                &&& args == input.args
                &&& c == chat_id as i64
                &&& id == input.id as i64
            },
        },
{
    if !id_exists {
        let id_text = decimal_text(input.id);
        let chat_text = decimal_text(chat_id);
        let msg = String::from_str("agent ").concat(id_text.as_str()).concat(
            " does not exist in chat ",
        ).concat(chat_text.as_str());
        return Err(AppError::UpdateAgentError(msg));
    }
    if input.prompt.as_str().is_empty() {
        Ok(AgentUpdate::Args { args: input.args, chat_id: db_id(chat_id), id: db_id(input.id) })
    } else {
        Ok(
            AgentUpdate::PromptAndArgs {
                prompt: input.prompt,
                args: input.args,
                chat_id: db_id(chat_id),
                id: db_id(input.id),
            },
        )
    }
}

/// A row of the agents table as the creation rule sees it: the chat's key,
/// the agent's id, and the agent's name.
pub type AgentKey = (i64, i64, Seq<char>);

/// No chat of `table` has two agents of one name.
pub open spec fn names_unique_per_chat(table: Seq<AgentKey>) -> bool {
    forall|i: int, j: int|
        0 <= i < table.len() && 0 <= j < table.len() && i != j && #[trigger] table[i].0
            == #[trigger] table[j].0 ==> table[i].2 != table[j].2
}

/// No two rows of `table` share a chat and an id.
pub open spec fn ids_unique_per_chat(table: Seq<AgentKey>) -> bool {
    forall|i: int, j: int|
        0 <= i < table.len() && 0 <= j < table.len() && i != j && #[trigger] table[i].0
            == #[trigger] table[j].0 ==> table[i].1 != table[j].1
}

/// Chat `chat` of `table` holds an agent called `name`: what the name check
/// answers when it reads the table.
pub open spec fn name_taken(table: Seq<AgentKey>, chat: i64, name: Seq<char>) -> bool {
    exists|i: int| 0 <= i < table.len() && #[trigger] table[i].0 == chat && table[i].2 == name
}

/// Chat `chat` of `table` holds an agent with id `id`.
pub open spec fn id_taken(table: Seq<AgentKey>, chat: i64, id: i64) -> bool {
    exists|i: int| 0 <= i < table.len() && #[trigger] table[i].0 == chat && table[i].1 == id
}

/// The table after a creation decided as `r`: the new row, under the id
/// `new_id` that the database gives it, is added when accepted; a refusal
/// leaves the table as it was.
pub open spec fn table_after_create(
    table: Seq<AgentKey>,
    r: Result<NewAgentRow, AppError>,
    new_id: i64,
) -> Seq<AgentKey> {
    match r {
        Ok(row) => table.push((row.chat_id, new_id, row.name@)),
        Err(_) => table,
    }
}

/// A creation decided on a truthful name check keeps every chat's agent
/// names distinct, whether it is accepted or refused, and whatever id the
/// new row gets. The check and the insert are two statements, so this holds
/// where no other creation runs between them.
pub proof fn lemma_create_keeps_names_unique(
    table: Seq<AgentKey>,
    input: CreateAgent,
    chat_id: u64,
    r: Result<NewAgentRow, AppError>,
    new_id: i64,
)
    requires
        names_unique_per_chat(table),
        create_outcome(input, chat_id, name_taken(table, chat_id as i64, input.name@), r),
    ensures
        names_unique_per_chat(table_after_create(table, r, new_id)),
{
    match r {
        Ok(row) => {
            let t2 = table.push((row.chat_id, new_id, row.name@));
            assert forall|i: int, j: int|
                0 <= i < t2.len() && 0 <= j < t2.len() && i != j && #[trigger] t2[i].0
                    == #[trigger] t2[j].0 implies t2[i].2 != t2[j].2 by {
                if i == table.len() {
                    assert(t2[j] == table[j]);
                    if t2[j].2 == t2[i].2 {
                        assert(name_taken(table, chat_id as i64, input.name@));
                    }
                } else if j == table.len() {
                    assert(t2[i] == table[i]);
                    if t2[j].2 == t2[i].2 {
                        assert(name_taken(table, chat_id as i64, input.name@));
                    }
                } else {
                    assert(t2[i] == table[i] && t2[j] == table[j]);
                }
            }
        },
        Err(_) => {},
    }
}

/// A creation whose new row gets an id not yet used in its chat keeps every
/// chat's ids distinct, whether it is accepted or refused.
pub proof fn lemma_create_keeps_ids_unique(
    table: Seq<AgentKey>,
    input: CreateAgent,
    chat_id: u64,
    name_exists: bool,
    r: Result<NewAgentRow, AppError>,
    new_id: i64,
)
    requires
        ids_unique_per_chat(table),
        create_outcome(input, chat_id, name_exists, r),
        !id_taken(table, chat_id as i64, new_id),
    ensures
        ids_unique_per_chat(table_after_create(table, r, new_id)),
{
    match r {
        Ok(row) => {
            let t2 = table.push((row.chat_id, new_id, row.name@));
            assert forall|i: int, j: int|
                0 <= i < t2.len() && 0 <= j < t2.len() && i != j && #[trigger] t2[i].0
                    == #[trigger] t2[j].0 implies t2[i].1 != t2[j].1 by {
                if i == table.len() {
                    assert(t2[j] == table[j]);
                    if t2[j].1 == t2[i].1 {
                        assert(id_taken(table, chat_id as i64, new_id));
                    }
                } else if j == table.len() {
                    assert(t2[i] == table[i]);
                    if t2[j].1 == t2[i].1 {
                        assert(id_taken(table, chat_id as i64, new_id));
                    }
                } else {
                    assert(t2[i] == table[i] && t2[j] == table[j]);
                }
            }
        },
        Err(_) => {},
    }
}

/// The name check is per chat: a name that is free in chat `chat_id` is
/// accepted there, whatever other chats hold, and the new row belongs to
/// that chat.
pub proof fn lemma_name_of_other_chat_is_no_refusal(
    table: Seq<AgentKey>,
    input: CreateAgent,
    chat_id: u64,
    r: Result<NewAgentRow, AppError>,
)
    requires
        create_outcome(input, chat_id, name_taken(table, chat_id as i64, input.name@), r),
        !name_taken(table, chat_id as i64, input.name@),
    ensures
        r matches Ok(row) && row.chat_id == chat_id as i64 && row.name == input.name,
{
}

/// An accepted creation writes exactly the request, in the chat asked for:
/// its name, agent type, adapter, model, prompt and arguments, for every
/// value of each; and it is accepted exactly when the name is free.
pub proof fn lemma_create_writes_the_request(
    input: CreateAgent,
    chat_id: u64,
    name_exists: bool,
    r: Result<NewAgentRow, AppError>,
)
    requires
        create_outcome(input, chat_id, name_exists, r),
    ensures
        r is Ok <==> !name_exists,
        r matches Ok(row) ==> row.chat_id == chat_id as i64 && row.name == input.name
            && row.agent_type == input.agent_type && row.adapter == input.adapter && row.model
            == input.model && row.prompt == input.prompt && row.args == input.args,
        r matches Err(e) ==> e matches AppError::CreateAgentError(msg) && msg@ == "agent "@
            + input.name@ + " already exists "@,
{
}

} // verus!
