//! Routing of database notifications to bot users: when a message is posted
//! to a chat whose only other member is a bot, that bot is asked to answer.
use std::collections::HashSet;
use vstd::prelude::*;
use vstd::std_specs::iter::IteratorSpec;

verus! {

broadcast use vstd::std_specs::hash::group_hash_axioms;

/// A chat message, with the fields that the routing reads.
#[derive(Debug)]
pub struct ChatMessage {
    pub id: i64,
    pub chat_id: i64,
    pub sender_id: i64,
    pub content: String,
}

/// The payload of a `chat_message_created` notification: the new message
/// and the ids of the chat's members.
#[derive(Debug)]
pub struct ChatMessageCreated {
    pub message: ChatMessage,
    pub members: HashSet<i64>,
}

/// A message that a bot should answer.
#[derive(Debug)]
pub struct Notification {
    /// The bot that is asked to answer.
    pub user_id: i64,
    /// The message it answers.
    pub event: ChatMessage,
}

/// The channel on which new chat messages are announced.
pub open spec fn message_channel() -> Seq<char> {
    "chat_message_created"@
}

/// `bot` should answer a message sent by `sender` to a chat with `members`:
/// it is the one member besides the sender, and it is among `bots`.
pub open spec fn addressed(members: Set<i64>, sender: i64, bots: Set<i64>, bot: i64) -> bool {
    &&& members.remove(sender) == set![bot]
    &&& bots.contains(bot)
}

/// The single element of a set that holds exactly one.
fn only_member(set: &HashSet<i64>) -> (x: i64)
    requires
        set@.len() == 1,
    ensures
        set@ == set![x],
{
    let iter = set.iter();
    let ghost keys = iter.remaining();
    assert(keys.unref().to_set() == set@);
    assert(keys.len() == 1);
    let mut found: i64 = 0;
    for m in it: iter
        invariant
            it.seq() == keys,
            keys.len() == 1,
            it.index() > 0 ==> found == *keys[0],
    {
        found = *m;
    }
    assert(keys.unref()[0] == found);
    assert(keys.unref().to_set() =~= set![found]) by {
        assert(keys.unref().contains(found));
    }
    found
}

/// A decoded new-message payload names a bot that should answer.
pub open spec fn calls_for_bot(payload: Option<ChatMessageCreated>, bots: Set<i64>) -> bool {
    match payload {
        Some(p) => exists|b: i64| #[trigger] addressed(p.members@, p.message.sender_id, bots, b),
        None => false,
    }
}

impl Notification {
    /// The bot notification that a database notification on channel `kind`
    /// with the decoded `payload` calls for, if any. Only new chat messages
    /// are routed; a payload that could not be decoded is `None`. The message
    /// goes to the one member of the chat other than its sender, provided
    /// that member is a bot.
    pub fn load(kind: &str, payload: Option<ChatMessageCreated>, bots: &HashSet<i64>) -> (r: Option<Notification>)
        ensures
            r is Some <==> kind@ == message_channel() && calls_for_bot(payload, bots@),
            r matches Some(n) ==> payload matches Some(p) && addressed(
                p.members@,
                p.message.sender_id,
                bots@,
                n.user_id,
            ) && n.event == p.message,
            r matches Some(n) ==> payload matches Some(p) && p.members@.remove(p.message.sender_id)
                == set![n.user_id] && bots@.contains(n.user_id),
    {
        if kind.to_owned() != String::from_str("chat_message_created") {
            return None;
        }
        let payload = match payload {
            Some(p) => p,
            None => return None,
        };
        let ghost members0 = payload.members@;
        let ghost sender = payload.message.sender_id;
        let mut members = payload.members;
        members.remove(&payload.message.sender_id);
        assert(members@ == members0.remove(sender));
        if members.len() == 1 {
            let bot_id = only_member(&members);
            if bots.contains(&bot_id) {
                assert(addressed(members0, sender, bots@, bot_id));
                return Some(Notification { user_id: bot_id, event: payload.message });
            }
            assert forall|b: i64| !addressed(members0, sender, bots@, b) by {
                if members0.remove(sender) == set![b] {
                    assert(set![b].contains(b));
                    assert(set![bot_id].contains(b));
                }
            }
        } else {
            assert forall|b: i64| !addressed(members0, sender, bots@, b) by {
                if members0.remove(sender) == set![b] {
                    assert(set![b].len() == 1);
                }
            }
        }
        None
    }
}

/// The message that a bot posts as its answer.
#[derive(Debug)]
pub struct ReplyRow {
    pub chat_id: i64,
    pub sender_id: i64,
    pub content: String,
}

impl Notification {
    /// The row that posts `answer` as the bot's reply: in the chat of the
    /// message answered, sent by the notified bot.
    pub fn reply(&self, answer: String) -> (row: ReplyRow)
        ensures
            row.chat_id == self.event.chat_id,
            row.sender_id == self.user_id,
            row.content == answer,
    {
        ReplyRow { chat_id: self.event.chat_id, sender_id: self.user_id, content: answer }
    }
}

/// The ids of the bot users, from the rows of the query that selects them:
/// exactly the ids that some row holds.
pub fn bot_ids(rows: Vec<(i64,)>) -> (bots: HashSet<i64>)
    ensures
        forall|id: i64| bots@.contains(id) <==> exists|j: int| 0 <= j < rows@.len() && (#[trigger] rows@[j]).0 == id,
{
    let mut bots: HashSet<i64> = HashSet::new();
    let mut i: usize = 0;
    while i < rows.len()
        invariant
            i <= rows@.len(),
            forall|id: i64| bots@.contains(id) <==> exists|j: int| 0 <= j < i && (#[trigger] rows@[j]).0 == id,
        decreases rows@.len() - i,
    {
        let id = rows[i].0;
        bots.insert(id);
        assert forall|x: i64| bots@.contains(x) <==> exists|j: int| 0 <= j < i + 1 && (#[trigger] rows@[j]).0 == x by {
            if x == id {
                assert(rows@[i as int].0 == x);
            }
        }
        i = i + 1;
    }
    bots
}

/// At most one bot answers a message, and it is a bot of the chat other
/// than the message's sender.
pub proof fn lemma_addressed_bot_unique(members: Set<i64>, sender: i64, bots: Set<i64>, b1: i64, b2: i64)
    requires
        addressed(members, sender, bots, b1),
        addressed(members, sender, bots, b2),
    ensures
        b1 == b2,
        members.contains(b1),
        b1 != sender,
        bots.contains(b1),
{
    assert(set![b1].contains(b1));
    assert(members.remove(sender).contains(b1));
    assert(set![b2].contains(b1));
}

/// A message is routed to a bot only when that bot is the one and only
/// member of the chat besides the sender, and it is a bot.
pub proof fn lemma_routed_bot_is_sole_other_member(members: Set<i64>, sender: i64, bots: Set<i64>, b: i64)
    requires
        addressed(members, sender, bots, b),
    ensures
        members.remove(sender) == set![b],
        members.contains(b),
        b != sender,
        bots.contains(b),
        forall|x: i64| members.contains(x) && x != sender ==> x == b,
{
    assert(set![b].contains(b));
    assert(members.remove(sender).contains(b));
    assert forall|x: i64| members.contains(x) && x != sender implies x == b by {
        assert(members.remove(sender).contains(x));
        assert(set![b].contains(x));
    }
}

/// A message in a chat with two or more members besides its sender is
/// routed to no bot, whether those members are bots or not.
pub proof fn lemma_group_chat_is_not_routed(p: ChatMessageCreated, bots: Set<i64>, x: i64, y: i64)
    requires
        x != y,
        p.members@.contains(x),
        p.members@.contains(y),
        x != p.message.sender_id,
        y != p.message.sender_id,
    ensures
        !calls_for_bot(Some(p), bots),
{
    assert forall|b: i64| !addressed(p.members@, p.message.sender_id, bots, b) by {
        if addressed(p.members@, p.message.sender_id, bots, b) {
            lemma_routed_bot_is_sole_other_member(p.members@, p.message.sender_id, bots, b);
        }
    }
}

} // verus!
