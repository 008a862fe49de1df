//! Verified core of a chat service: the request and reply shapes that the
//! chat-completion adapters exchange with Ollama and OpenAI, the rules that
//! decide how agents are created and updated, the routing of new chat
//! messages to bot users, the settings of a pgvector store, and the greeting
//! command of the desktop client.
use vstd::prelude::*;

pub mod agent;
pub mod ai;
pub mod commands;
pub mod notif;
pub mod pgvector;
pub mod text;

verus! {

} // verus!
