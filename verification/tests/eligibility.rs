use message_editor::message::{message_is_weird, Author, MessageKind, ReplicaMessage};

fn plain(id: u64) -> ReplicaMessage {
    ReplicaMessage {
        id,
        author: Author { id: 7, name: "someone".to_owned(), nick: None, bot: false },
        content: "hi".to_owned(),
        attachments: Vec::new(),
        kind: MessageKind::Regular,
        pinned: false,
        has_activity: false,
        has_application: false,
        has_application_id: false,
        has_components: false,
        has_embeds: false,
        has_interaction: false,
        has_reactions: false,
        has_stickers: false,
        from_webhook: false,
    }
}

#[test]
fn plain_message_is_replicable() {
    assert!(!message_is_weird(&plain(1)));
}

#[test]
fn reply_is_replicable() {
    let mut message = plain(1);
    message.kind = MessageKind::Reply;
    assert!(!message_is_weird(&message));
}

#[test]
fn attachments_and_long_text_do_not_make_a_message_weird() {
    let mut message = plain(1);
    message.attachments.push("https://cdn.example/a.png".to_owned());
    message.content = "x".repeat(5000);
    assert!(!message_is_weird(&message));
}

#[test]
fn activity_payload_is_weird() {
    let mut message = plain(1);
    message.has_activity = true;
    assert!(message_is_weird(&message));
}

#[test]
fn application_payload_is_weird() {
    let mut message = plain(1);
    message.has_application = true;
    assert!(message_is_weird(&message));
}

#[test]
fn application_id_is_weird() {
    let mut message = plain(1);
    message.has_application_id = true;
    assert!(message_is_weird(&message));
}

#[test]
fn bot_author_is_weird() {
    let mut message = plain(1);
    message.author.bot = true;
    assert!(message_is_weird(&message));
}

#[test]
fn components_are_weird() {
    let mut message = plain(1);
    message.has_components = true;
    assert!(message_is_weird(&message));
}

#[test]
fn embeds_are_weird() {
    let mut message = plain(1);
    message.has_embeds = true;
    assert!(message_is_weird(&message));
}

#[test]
fn interaction_reference_is_weird() {
    let mut message = plain(1);
    message.has_interaction = true;
    assert!(message_is_weird(&message));
}

#[test]
fn systemic_type_is_weird() {
    let mut message = plain(1);
    message.kind = MessageKind::Other;
    assert!(message_is_weird(&message));
}

#[test]
fn pinned_message_is_weird() {
    let mut message = plain(1);
    message.pinned = true;
    assert!(message_is_weird(&message));
}

#[test]
fn reactions_are_weird() {
    let mut message = plain(1);
    message.has_reactions = true;
    assert!(message_is_weird(&message));
}

#[test]
fn stickers_are_weird() {
    let mut message = plain(1);
    message.has_stickers = true;
    assert!(message_is_weird(&message));
}

#[test]
fn webhook_origin_is_weird() {
    let mut message = plain(1);
    message.from_webhook = true;
    assert!(message_is_weird(&message));
}

#[test]
fn equal_messages_get_equal_answers() {
    let mut first = plain(3);
    first.has_reactions = true;
    let mut second = plain(3);
    second.has_reactions = true;
    assert_eq!(first, second);
    assert_eq!(message_is_weird(&first), message_is_weird(&second));
    assert_eq!(message_is_weird(&first), message_is_weird(&first));
    assert_eq!(message_is_weird(&plain(4)), message_is_weird(&plain(4)));
}

#[test]
fn asking_leaves_the_message_as_it_was() {
    let message = plain(9);
    let before = plain(9);
    let _ = message_is_weird(&message);
    assert_eq!(message, before);
}
