use chat::notif::{bot_ids, ChatMessage, ChatMessageCreated, Notification};
use std::collections::HashSet;

fn message(sender: i64) -> ChatMessage {
    ChatMessage { id: 10, chat_id: 4, sender_id: sender, content: "what is rust?".to_string() }
}

fn payload(sender: i64, members: &[i64]) -> Option<ChatMessageCreated> {
    Some(ChatMessageCreated { message: message(sender), members: members.iter().copied().collect() })
}

fn bots(ids: &[i64]) -> HashSet<i64> {
    ids.iter().copied().collect()
}

#[test]
fn message_to_a_bot_is_routed_to_it() {
    let n = Notification::load("chat_message_created", payload(1, &[1, 7]), &bots(&[7, 9]))
        .expect("no notification");
    assert_eq!(n.user_id, 7);
    assert_eq!(n.event.id, 10);
    assert_eq!(n.event.chat_id, 4);
    assert_eq!(n.event.sender_id, 1);
    assert_eq!(n.event.content, "what is rust?");
}

#[test]
fn other_channels_are_ignored() {
    assert!(Notification::load("chat_updated", payload(1, &[1, 7]), &bots(&[7])).is_none());
}

#[test]
fn undecodable_payload_is_ignored() {
    assert!(Notification::load("chat_message_created", None, &bots(&[7])).is_none());
}

#[test]
fn member_that_is_no_bot_is_not_routed() {
    assert!(Notification::load("chat_message_created", payload(1, &[1, 2]), &bots(&[7])).is_none());
}

#[test]
fn group_chat_is_not_routed() {
    assert!(
        Notification::load("chat_message_created", payload(1, &[1, 7, 9]), &bots(&[7, 9]))
            .is_none()
    );
}

#[test]
fn message_of_a_lone_member_is_not_routed() {
    assert!(Notification::load("chat_message_created", payload(7, &[7]), &bots(&[7])).is_none());
}

#[test]
fn sender_outside_members_with_one_bot_member() {
    let n = Notification::load("chat_message_created", payload(1, &[7]), &bots(&[7]))
        .expect("no notification");
    assert_eq!(n.user_id, 7);
}

#[test]
fn bot_sending_to_a_bot_is_routed_to_the_other_bot() {
    let n = Notification::load("chat_message_created", payload(7, &[7, 9]), &bots(&[7, 9]))
        .expect("no notification");
    assert_eq!(n.user_id, 9);
}

#[test]
fn reply_goes_to_the_same_chat_from_the_bot() {
    let n = Notification { user_id: 7, event: message(1) };
    let row = n.reply("Rust is a language.".to_string());
    assert_eq!(row.chat_id, 4);
    assert_eq!(row.sender_id, 7);
    assert_eq!(row.content, "Rust is a language.");
}

#[test]
fn bot_ids_collects_every_row() {
    let ids = bot_ids(vec![(3,), (5,), (3,)]);
    assert_eq!(ids, bots(&[3, 5]));
    assert!(bot_ids(vec![]).is_empty());
}
