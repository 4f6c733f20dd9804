//! Snapshots of channel messages and the rule that decides which of them can
//! be faithfully re-created.

use vstd::prelude::*;

verus! {

/// The structural type of a message, as far as replay cares about it.
#[derive(Clone, Copy, Debug, PartialEq, Eq, Structural)]
pub enum MessageKind {
    /// An ordinary message.
    Regular,
    /// An inline reply to another message.
    Reply,
    /// Any systemic message type (joins, pins, boosts, command results, ...).
    Other,
}

/// Who sent a message, and how they are shown in the guild.
#[derive(Debug, PartialEq, Eq)]
pub struct Author {
    pub id: u64,
    /// The account's user name.
    pub name: String,
    /// The guild nickname, if one is set.
    pub nick: Option<String>,
    pub bot: bool,
}

/// A read-only snapshot of one message of the channel history.
#[derive(Debug, PartialEq, Eq)]
pub struct ReplicaMessage {
    pub id: u64,
    pub author: Author,
    pub content: String,
    /// The URL of each attachment, in the order they were attached.
    pub attachments: Vec<String>,
    pub kind: MessageKind,
    pub pinned: bool,
    /// The message carries a platform activity payload.
    pub has_activity: bool,
    /// The message carries an application payload.
    pub has_application: bool,
    /// The message names the application that sent it.
    pub has_application_id: bool,
    pub has_components: bool,
    pub has_embeds: bool,
    /// The message is the response to an interaction.
    pub has_interaction: bool,
    pub has_reactions: bool,
    pub has_stickers: bool,
    /// The message was itself sent through a webhook.
    pub from_webhook: bool,
}

/// The mathematical value of an [`Author`].
pub struct AuthorView {
    pub id: u64,
    pub name: Seq<char>,
    pub nick: Option<Seq<char>>,
    pub bot: bool,
}

/// The mathematical value of a [`ReplicaMessage`].
pub struct MessageView {
    pub id: u64,
    pub author: AuthorView,
    pub content: Seq<char>,
    pub attachments: Seq<Seq<char>>,
    pub kind: MessageKind,
    pub pinned: bool,
    pub has_activity: bool,
    pub has_application: bool,
    pub has_application_id: bool,
    pub has_components: bool,
    pub has_embeds: bool,
    pub has_interaction: bool,
    pub has_reactions: bool,
    pub has_stickers: bool,
    pub from_webhook: bool,
}

/// The views of a sequence of strings, element by element.
pub open spec fn strings_view(strings: Seq<String>) -> Seq<Seq<char>> {
    Seq::new(strings.len(), |i: int| strings[i]@)
}

impl View for Author {
    type V = AuthorView;

    open spec fn view(&self) -> AuthorView {
        AuthorView {
            id: self.id,
            name: self.name@,
            nick: match self.nick {
                Some(nick) => Some(nick@),
                None => None,
            },
            bot: self.bot,
        }
    }
}

impl View for ReplicaMessage {
    type V = MessageView;

    open spec fn view(&self) -> MessageView {
        MessageView {
            id: self.id,
            author: self.author@,
            content: self.content@,
            attachments: strings_view(self.attachments@),
            kind: self.kind,
            pinned: self.pinned,
            has_activity: self.has_activity,
            has_application: self.has_application,
            has_application_id: self.has_application_id,
            has_components: self.has_components,
            has_embeds: self.has_embeds,
            has_interaction: self.has_interaction,
            has_reactions: self.has_reactions,
            has_stickers: self.has_stickers,
            from_webhook: self.from_webhook,
        }
    }
}

/// The views of a channel history, message by message.
pub open spec fn history_view(history: Seq<ReplicaMessage>) -> Seq<MessageView> {
    Seq::new(history.len(), |i: int| history[i]@)
}

/// A message is weird when it holds anything that re-posting its text under
/// its author's name would lose: an activity or application payload, the id
/// of a sending application, a bot author, components, embeds, an interaction
/// reference, a systemic type, a pin, reactions, stickers, or a webhook origin.
pub open spec fn is_weird(message: MessageView) -> bool {
    ||| message.has_activity
    ||| message.has_application
    ||| message.has_application_id
    ||| message.author.bot
    ||| message.has_components
    ||| message.has_embeds
    ||| message.has_interaction
    ||| !(message.kind == MessageKind::Regular || message.kind == MessageKind::Reply)
    ||| message.pinned
    ||| message.has_reactions
    ||| message.has_stickers
    ||| message.from_webhook
}

/// Decides whether `message` is weird. The answer depends on nothing but the
/// message's own fields.
pub fn message_is_weird(message: &ReplicaMessage) -> (weird: bool)
    ensures
        weird == is_weird(message@),
{
    message.has_activity || message.has_application || message.has_application_id
        || message.author.bot
        || message.has_components || message.has_embeds || message.has_interaction || !(
    message.kind == MessageKind::Regular || message.kind == MessageKind::Reply) || message.pinned
        || message.has_reactions || message.has_stickers || message.from_webhook
}

} // verus!
