//! The interaction pipeline: one session per inbound interaction, from its
//! receipt to the single terminal update that answers it.

pub mod edit;

use crate::message::{history_view, MessageView, ReplicaMessage};
use crate::platform::{
    format_permissions, lowercase, permission_names, space_underscores, to_lowercase,
    underscores_spaced,
};
use crate::replay::{Replication, ReplicationOutcome, ReplicationView};
use crate::Context;
use vstd::string::StringExecFns;
use vstd::prelude::*;

verus! {

/// The permission to delete other members' messages.
pub const MANAGE_MESSAGES: u64 = 0x2000;

/// The permission to create and use webhooks.
pub const MANAGE_WEBHOOKS: u64 = 0x2000_0000;

/// The most characters a single message may hold.
pub const MAX_MESSAGE_LENGTH: usize = 2000;

/// The most messages a picker offers.
pub const MAX_PICKER_OPTIONS: usize = 25;

/// Why an interaction could not be understood or carried out, for the operator.
#[derive(Clone, Copy, Debug, PartialEq, Eq, Structural)]
pub enum Fault {
    /// The interaction is of a type this agent does not answer.
    UnknownInteraction,
    /// The command's name is not one of this agent's.
    UnknownCommand,
    /// The command is of a type that `edit` is not registered as.
    UnknownCommandType,
    /// The form is not one this agent opened.
    UnknownModal,
    /// The selection is not from a picker this agent showed.
    UnknownSelection,
    /// The command names no target message.
    MissingMessage,
    /// The channel is not in the read model.
    ChannelNotCached,
    /// The channel is a thread whose parent is unknown.
    ThreadWithoutParent,
    /// The form came back without its text input.
    MissingComponents,
    /// The form's input does not name a message id.
    InvalidMessageId,
    /// The interaction does not say who triggered it.
    MissingMember,
    /// The interaction names a member without their account.
    MissingUser,
    /// The permission oracle could not tell what is held in the channel.
    PermissionsUnknown,
    /// The history window lists a message that the read model does not hold.
    MessagesNotCached,
    /// A remote call failed.
    Transport,
}

/// Everything that can end a session without success.
#[derive(Clone, Copy, Debug, PartialEq, Eq, Structural)]
pub enum Error {
    /// The edit was refused for a reason the user can act on.
    Edit(edit::Error),
    /// The agent lacks the given permission bits in the channel.
    SelfMissingPermissions(u64),
    /// The user lacks the given permission bits in the channel.
    UserMissingPermissions(u64),
    /// The channel's webhook could be neither found nor created.
    ResourceUnavailable,
    /// Anything else; the operator is told.
    Unrecognized(Fault),
}

/// What the user is told when something went wrong that they cannot mend.
pub open spec fn apology() -> Seq<char> {
    "an error happened :( i let my developer know hopefully they'll fix it soon!"@
}

/// How a set of permission bits is shown to the user: the flags' names as the
/// platform's model prints them, in lowercase, with spaces for underscores.
pub open spec fn permissions_text(bits: u64) -> Seq<char> {
    underscores_spaced(lowercase(permission_names(bits)))
}

/// What the user is told when an edit has run its course.
pub open spec fn outcome_text(outcome: ReplicationOutcome) -> Seq<char> {
    match outcome {
        ReplicationOutcome::Full => "done!"@,
        ReplicationOutcome::Partial => "done! there was a weird message sent after the message to edit so i left it alone"@,
        ReplicationOutcome::NotApplicable => "i couldnt get to that message, it has something i cant recreate or i dont know it anymore.. sorry"@,
    }
}

impl Error {
    /// Whether the user is told what went wrong. Otherwise they get an
    /// apology and the operator gets the error.
    pub open spec fn is_user_facing(self) -> bool {
        self is Edit || self is SelfMissingPermissions || self is UserMissingPermissions
    }

    /// What the user is told.
    pub open spec fn text(self) -> Seq<char> {
        match self {
            Error::Edit(error) => error.text(),
            Error::SelfMissingPermissions(missing) => "please give me these permissions first:\n**"@
                + permissions_text(missing) + "**"@,
            Error::UserMissingPermissions(missing) => "you need these permissions first:\n**"@
                + permissions_text(missing) + "**"@,
            Error::ResourceUnavailable => apology(),
            Error::Unrecognized(_) => apology(),
        }
    }

    /// Whether the user is told what went wrong.
    pub fn user_facing(&self) -> (facing: bool)
        ensures
            facing == self.is_user_facing(),
    {
        match self {
            Error::Edit(_) => true,
            Error::SelfMissingPermissions(_) => true,
            Error::UserMissingPermissions(_) => true,
            Error::ResourceUnavailable => false,
            Error::Unrecognized(_) => false,
        }
    }

    /// What the user is told.
    pub fn message(&self) -> (message: String)
        ensures
            message@ == self.text(),
    {
        match self {
            Error::Edit(error) => error.message(),
            Error::SelfMissingPermissions(missing) => {
                let mut message = "please give me these permissions first:\n**".to_owned();
                message.append(permissions_message(*missing).as_str());
                message.append("**");
                message
            },
            Error::UserMissingPermissions(missing) => {
                let mut message = "you need these permissions first:\n**".to_owned();
                message.append(permissions_message(*missing).as_str());
                message.append("**");
                message
            },
            Error::ResourceUnavailable => apology_message(),
            Error::Unrecognized(_) => apology_message(),
        }
    }
}

/// How the permission bits of `bits` are shown to the user.
pub fn permissions_message(bits: u64) -> (message: String)
    ensures
        message@ == permissions_text(bits),
{
    let names = format_permissions(bits);
    let lower = to_lowercase(names.as_str());
    space_underscores(lower.as_str())
}

/// What the user is told when something went wrong that they cannot mend.
pub fn apology_message() -> (message: String)
    ensures
        message@ == apology(),
{
    "an error happened :( i let my developer know hopefully they'll fix it soon!".to_owned()
}

/// What the user is told when an edit has run its course.
pub fn outcome_message(outcome: ReplicationOutcome) -> (message: String)
    ensures
        message@ == outcome_text(outcome),
{
    match outcome {
        ReplicationOutcome::Full => "done!".to_owned(),
        ReplicationOutcome::Partial => "done! there was a weird message sent after the message to edit so i left it alone".to_owned(),
        ReplicationOutcome::NotApplicable => "i couldnt get to that message, it has something i cant recreate or i dont know it anymore.. sorry".to_owned(),
    }
}

/// The guild member who triggered an interaction.
#[derive(Debug, PartialEq, Eq)]
pub struct Member {
    pub nick: Option<String>,
    /// The account's user name, where the interaction includes the account.
    pub user_name: Option<String>,
}

/// The mathematical value of a [`Member`].
pub struct MemberView {
    pub nick: Option<Seq<char>>,
    pub user_name: Option<Seq<char>>,
}

/// The view of a string that may be absent.
pub open spec fn text_view(text: Option<String>) -> Option<Seq<char>> {
    match text {
        Some(text) => Some(text@),
        None => None,
    }
}

impl View for Member {
    type V = MemberView;

    open spec fn view(&self) -> MemberView {
        MemberView { nick: text_view(self.nick), user_name: text_view(self.user_name) }
    }
}

/// The view of a member who may be absent.
pub open spec fn member_view(member: Option<Member>) -> Option<MemberView> {
    match member {
        Some(member) => Some(member@),
        None => None,
    }
}

/// The type under which a command is registered.
#[derive(Clone, Copy, Debug, PartialEq, Eq, Structural)]
pub enum CommandType {
    /// A slash command typed into the chat.
    ChatInput,
    /// A command in a user's context menu.
    User,
    /// A command in a message's context menu.
    Message,
}

/// A command invocation.
#[derive(Debug, PartialEq, Eq)]
pub struct ApplicationCommand {
    pub id: u64,
    pub token: String,
    pub channel_id: u64,
    /// The user who triggered the interaction, where the platform says who.
    pub user_id: Option<u64>,
    pub name: String,
    pub kind: CommandType,
    /// The message the command was invoked on, for a message command.
    pub target: Option<ReplicaMessage>,
    pub member: Option<Member>,
}

/// The mathematical value of an [`ApplicationCommand`].
pub struct ApplicationCommandView {
    pub id: u64,
    pub token: Seq<char>,
    pub channel_id: u64,
    pub user_id: Option<u64>,
    pub name: Seq<char>,
    pub kind: CommandType,
    pub target: Option<MessageView>,
    pub member: Option<MemberView>,
}

impl View for ApplicationCommand {
    type V = ApplicationCommandView;

    open spec fn view(&self) -> ApplicationCommandView {
        ApplicationCommandView {
            id: self.id,
            token: self.token@,
            channel_id: self.channel_id,
            user_id: self.user_id,
            name: self.name@,
            kind: self.kind,
            target: match self.target {
                Some(message) => Some(message@),
                None => None,
            },
            member: member_view(self.member),
        }
    }
}

/// A choice made in a picker.
#[derive(Debug, PartialEq, Eq)]
pub struct MessageComponent {
    pub id: u64,
    pub token: String,
    pub channel_id: u64,
    /// The user who triggered the interaction, where the platform says who.
    pub user_id: Option<u64>,
    pub custom_id: String,
    /// The values of the chosen options.
    pub values: Vec<String>,
    pub member: Option<Member>,
}

/// The mathematical value of a [`MessageComponent`].
pub struct MessageComponentView {
    pub id: u64,
    pub token: Seq<char>,
    pub channel_id: u64,
    pub user_id: Option<u64>,
    pub custom_id: Seq<char>,
    pub values: Seq<Seq<char>>,
    pub member: Option<MemberView>,
}

impl View for MessageComponent {
    type V = MessageComponentView;

    open spec fn view(&self) -> MessageComponentView {
        MessageComponentView {
            id: self.id,
            token: self.token@,
            channel_id: self.channel_id,
            user_id: self.user_id,
            custom_id: self.custom_id@,
            values: crate::message::strings_view(self.values@),
            member: member_view(self.member),
        }
    }
}

/// One filled-in input of a submitted form.
#[derive(Debug, PartialEq, Eq)]
pub struct ModalInput {
    pub custom_id: String,
    pub value: String,
}

/// The mathematical value of a [`ModalInput`].
pub struct ModalInputView {
    pub custom_id: Seq<char>,
    pub value: Seq<char>,
}

impl View for ModalInput {
    type V = ModalInputView;

    open spec fn view(&self) -> ModalInputView {
        ModalInputView { custom_id: self.custom_id@, value: self.value@ }
    }
}

/// The views of the rows of a form, input by input.
pub open spec fn rows_view(rows: Seq<Vec<ModalInput>>) -> Seq<Seq<ModalInputView>> {
    Seq::new(rows.len(), |i: int| Seq::new(rows[i]@.len(), |j: int| rows[i]@[j]@))
}

/// A submitted form.
#[derive(Debug, PartialEq, Eq)]
pub struct ModalSubmit {
    pub id: u64,
    pub token: String,
    pub channel_id: u64,
    /// The user who triggered the interaction, where the platform says who.
    pub user_id: Option<u64>,
    pub custom_id: String,
    /// The form's rows, each with its inputs, in the order they were laid out.
    pub rows: Vec<Vec<ModalInput>>,
    pub member: Option<Member>,
}

/// The mathematical value of a [`ModalSubmit`].
pub struct ModalSubmitView {
    pub id: u64,
    pub token: Seq<char>,
    pub channel_id: u64,
    pub user_id: Option<u64>,
    pub custom_id: Seq<char>,
    pub rows: Seq<Seq<ModalInputView>>,
    pub member: Option<MemberView>,
}

impl View for ModalSubmit {
    type V = ModalSubmitView;

    open spec fn view(&self) -> ModalSubmitView {
        ModalSubmitView {
            id: self.id,
            token: self.token@,
            channel_id: self.channel_id,
            user_id: self.user_id,
            custom_id: self.custom_id@,
            rows: rows_view(self.rows@),
            member: member_view(self.member),
        }
    }
}

/// An interaction of a type that this agent does not answer.
#[derive(Debug, PartialEq, Eq)]
pub struct UnknownInteraction {
    pub id: u64,
    pub token: String,
    /// The channel the interaction came from, where it came from one.
    pub channel_id: Option<u64>,
    /// The user who triggered the interaction, where the platform says who.
    pub user_id: Option<u64>,
}

/// The mathematical value of an [`UnknownInteraction`].
pub struct UnknownInteractionView {
    pub id: u64,
    pub token: Seq<char>,
    pub channel_id: Option<u64>,
    pub user_id: Option<u64>,
}

impl View for UnknownInteraction {
    type V = UnknownInteractionView;

    open spec fn view(&self) -> UnknownInteractionView {
        UnknownInteractionView {
            id: self.id,
            token: self.token@,
            channel_id: self.channel_id,
            user_id: self.user_id,
        }
    }
}

/// An inbound interaction, by what triggered it.
#[derive(Debug, PartialEq, Eq)]
pub enum Interaction {
    /// A command was invoked.
    ApplicationCommand(ApplicationCommand),
    /// A choice was made in a picker.
    MessageComponent(MessageComponent),
    /// A form was submitted.
    ModalSubmit(ModalSubmit),
    /// Anything this agent does not answer. It still needs its acknowledgment
    /// and its terminal update.
    Other(UnknownInteraction),
}

/// The mathematical value of an [`Interaction`].
pub enum InteractionView {
    ApplicationCommand(ApplicationCommandView),
    MessageComponent(MessageComponentView),
    ModalSubmit(ModalSubmitView),
    Other(UnknownInteractionView),
}

impl View for Interaction {
    type V = InteractionView;

    open spec fn view(&self) -> InteractionView {
        match self {
            Interaction::ApplicationCommand(command) => InteractionView::ApplicationCommand(
                command@,
            ),
            Interaction::MessageComponent(component) => InteractionView::MessageComponent(
                component@,
            ),
            Interaction::ModalSubmit(modal) => InteractionView::ModalSubmit(modal@),
            Interaction::Other(unknown) => InteractionView::Other(unknown@),
        }
    }
}

/// What the read model knows of a channel.
#[derive(Clone, Copy, Debug, PartialEq, Eq, Structural)]
pub struct Channel {
    pub id: u64,
    pub is_thread: bool,
    pub parent_id: Option<u64>,
}

/// What the read model and the permission oracle say at the time an
/// interaction is dispatched.
#[derive(Debug, PartialEq, Eq)]
pub struct Snapshot {
    /// The permission bits that the triggering user holds in the channel,
    /// where the permission oracle can tell.
    pub actor_permissions: Option<u64>,
    /// The permission bits that this agent holds in the channel, where the
    /// permission oracle can tell.
    pub self_permissions: Option<u64>,
    /// The interaction's channel, if it is known.
    pub channel: Option<Channel>,
    /// The channel's recent messages, newest first: empty where none is
    /// known, absent where one is listed that the read model does not hold.
    pub history: Option<Vec<ReplicaMessage>>,
}

/// The mathematical value of a [`Snapshot`].
pub struct SnapshotView {
    pub actor_permissions: Option<u64>,
    pub self_permissions: Option<u64>,
    pub channel: Option<Channel>,
    pub history: Option<Seq<MessageView>>,
}

impl View for Snapshot {
    type V = SnapshotView;

    open spec fn view(&self) -> SnapshotView {
        SnapshotView {
            actor_permissions: self.actor_permissions,
            self_permissions: self.self_permissions,
            channel: self.channel,
            history: match self.history {
                Some(history) => Some(history_view(history@)),
                None => None,
            },
        }
    }
}

/// What triggered a session.
#[derive(Clone, Copy, Debug, PartialEq, Eq, Structural)]
pub enum InteractionKind {
    /// A fresh command.
    Command,
    /// A choice made in a picker that an earlier command showed.
    Selection,
    /// A submitted form.
    FormSubmit,
    /// Nothing this agent answers.
    Other,
}

/// How far a session has come. Sessions only move forward.
#[derive(Clone, Copy, Debug, PartialEq, Eq, Structural)]
pub enum Stage {
    /// The interaction has arrived and nothing has been sent.
    Received,
    /// The acknowledgment has been sent.
    Acknowledged,
    /// A replication is running.
    Dispatched,
    /// The terminal update has been sent.
    Resolved,
}

/// How a session is acknowledged.
#[derive(Clone, Copy, Debug, PartialEq, Eq, Structural)]
pub enum AckKind {
    /// Deferred: a new visible reply will follow.
    DeferredReply,
    /// Deferred: the message that holds the picker will be updated in place.
    DeferredUpdate,
}

/// What a session's terminal update shows.
#[derive(Debug, PartialEq, Eq)]
pub enum Reply {
    /// A line of text.
    Text(String),
    /// The form that takes the replacement text.
    Form(edit::EditForm),
    /// The picker from which the message to edit is chosen.
    Picker(Vec<edit::PickerOption>),
}

/// The mathematical value of a [`Reply`].
pub enum ReplyView {
    Text(Seq<char>),
    Form(edit::EditFormView),
    Picker(Seq<edit::PickerOptionView>),
}

impl View for Reply {
    type V = ReplyView;

    open spec fn view(&self) -> ReplyView {
        match self {
            Reply::Text(text) => ReplyView::Text(text@),
            Reply::Form(form) => ReplyView::Form(form@),
            Reply::Picker(options) => ReplyView::Picker(edit::options_view(options@)),
        }
    }
}

/// What the runtime reports back to a session.
#[derive(Debug, PartialEq, Eq)]
pub enum Event {
    /// The interaction has arrived.
    Received,
    /// The acknowledgment went out; this is what the read model says now.
    Acknowledged(Snapshot),
    /// The acknowledgment could not be sent.
    AcknowledgeFailed,
    /// The replication ended, with an outcome or an error.
    Replicated(Result<ReplicationOutcome, Error>),
    /// The terminal update went out.
    Written,
    /// The terminal update could not be sent.
    WriteFailed,
}

/// The mathematical value of an [`Event`].
pub enum EventView {
    Received,
    Acknowledged(SnapshotView),
    AcknowledgeFailed,
    Replicated(Result<ReplicationOutcome, Error>),
    Written,
    WriteFailed,
}

impl View for Event {
    type V = EventView;

    open spec fn view(&self) -> EventView {
        match self {
            Event::Received => EventView::Received,
            Event::Acknowledged(snapshot) => EventView::Acknowledged(snapshot@),
            Event::AcknowledgeFailed => EventView::AcknowledgeFailed,
            Event::Replicated(result) => EventView::Replicated(*result),
            Event::Written => EventView::Written,
            Event::WriteFailed => EventView::WriteFailed,
        }
    }
}

/// What a session asks the runtime to do next.
pub enum Directive {
    /// Send the acknowledgment.
    Acknowledge(AckKind),
    /// Run this replication to its end and report how it ended.
    Replicate(Replication),
    /// Send the terminal update, and hand `report` to the operator if there is one.
    Resolve { reply: Reply, report: Option<Error> },
    /// The session is over: nothing is sent any more, whatever happened to
    /// the terminal update.
    Finish,
}

/// The mathematical value of a [`Directive`].
pub enum DirectiveView {
    Acknowledge(AckKind),
    Replicate(ReplicationView),
    Resolve { reply: ReplyView, report: Option<Error> },
    Finish,
}

impl View for Directive {
    type V = DirectiveView;

    open spec fn view(&self) -> DirectiveView {
        match self {
            Directive::Acknowledge(kind) => DirectiveView::Acknowledge(*kind),
            Directive::Replicate(replication) => DirectiveView::Replicate(replication@),
            Directive::Resolve { reply, report } => DirectiveView::Resolve {
                reply: reply@,
                report: *report,
            },
            Directive::Finish => DirectiveView::Finish,
        }
    }
}

/// What the handler of an interaction came to: a reply to show at once, or
/// a replication to run first.
pub enum Dispatch {
    Reply(Reply),
    Replicate(Replication),
}

/// The mathematical value of a [`Dispatch`].
pub enum DispatchView {
    Reply(ReplyView),
    Replicate(ReplicationView),
}

impl View for Dispatch {
    type V = DispatchView;

    open spec fn view(&self) -> DispatchView {
        match self {
            Dispatch::Reply(reply) => DispatchView::Reply(reply@),
            Dispatch::Replicate(replication) => DispatchView::Replicate(replication@),
        }
    }
}

/// What triggered an interaction.
pub open spec fn kind_of(interaction: InteractionView) -> InteractionKind {
    match interaction {
        InteractionView::ApplicationCommand(_) => InteractionKind::Command,
        InteractionView::MessageComponent(_) => InteractionKind::Selection,
        InteractionView::ModalSubmit(_) => InteractionKind::FormSubmit,
        InteractionView::Other(_) => InteractionKind::Other,
    }
}

/// The channel an interaction came from, where it came from one.
pub open spec fn channel_of(interaction: InteractionView) -> Option<u64> {
    match interaction {
        InteractionView::ApplicationCommand(command) => Some(command.channel_id),
        InteractionView::MessageComponent(component) => Some(component.channel_id),
        InteractionView::ModalSubmit(modal) => Some(modal.channel_id),
        InteractionView::Other(unknown) => unknown.channel_id,
    }
}

/// The user who triggered an interaction, where the platform says who.
pub open spec fn user_of(interaction: InteractionView) -> Option<u64> {
    match interaction {
        InteractionView::ApplicationCommand(command) => command.user_id,
        InteractionView::MessageComponent(component) => component.user_id,
        InteractionView::ModalSubmit(modal) => modal.user_id,
        InteractionView::Other(unknown) => unknown.user_id,
    }
}

/// How a session of this kind is acknowledged: a selection will be answered
/// by an update of the picker's message, anything else by a new reply.
pub open spec fn acknowledgment(kind: InteractionKind) -> AckKind {
    match kind {
        InteractionKind::Command => AckKind::DeferredReply,
        InteractionKind::FormSubmit => AckKind::DeferredReply,
        InteractionKind::Selection => AckKind::DeferredUpdate,
        InteractionKind::Other => AckKind::DeferredReply,
    }
}

/// What a command answers: `edit` as a message command opens the form for
/// its target, `edit` as a slash command shows the picker.
pub open spec fn command_dispatch(
    command: ApplicationCommandView,
    snapshot: SnapshotView,
) -> Result<ReplyView, Error> {
    if command.name == "edit"@ {
        match command.kind {
            CommandType::Message => match edit::command_verdict(command.target, snapshot) {
                Ok(form) => Ok(ReplyView::Form(form)),
                Err(error) => Err(error),
            },
            CommandType::ChatInput => match edit::picker_verdict(snapshot) {
                Ok(options) => Ok(ReplyView::Picker(options)),
                Err(error) => Err(error),
            },
            CommandType::User => Err(Error::Unrecognized(Fault::UnknownCommandType)),
        }
    } else {
        Err(Error::Unrecognized(Fault::UnknownCommand))
    }
}

/// What a selection answers: a choice in the `edit` picker opens the form.
pub open spec fn selection_dispatch(
    component: MessageComponentView,
    snapshot: SnapshotView,
) -> Result<ReplyView, Error> {
    if component.custom_id == edit::picker_id() {
        match edit::selection_verdict(component.values, snapshot) {
            Ok(form) => Ok(ReplyView::Form(form)),
            Err(error) => Err(error),
        }
    } else {
        Err(Error::Unrecognized(Fault::UnknownSelection))
    }
}

/// What a submitted form answers: the `edit` form plans a replication.
pub open spec fn modal_dispatch(modal: ModalSubmitView, snapshot: SnapshotView) -> Result<
    ReplicationView,
    Error,
> {
    if modal.custom_id == "edit_modal"@ {
        edit::submit_verdict(modal, snapshot)
    } else {
        Err(Error::Unrecognized(Fault::UnknownModal))
    }
}

/// What the handler that an interaction selects comes to.
pub open spec fn dispatch_of(interaction: InteractionView, snapshot: SnapshotView) -> Result<
    DispatchView,
    Error,
> {
    match interaction {
        InteractionView::ApplicationCommand(command) => match command_dispatch(command, snapshot) {
            Ok(reply) => Ok(DispatchView::Reply(reply)),
            Err(error) => Err(error),
        },
        InteractionView::MessageComponent(component) => match selection_dispatch(
            component,
            snapshot,
        ) {
            Ok(reply) => Ok(DispatchView::Reply(reply)),
            Err(error) => Err(error),
        },
        InteractionView::ModalSubmit(modal) => match modal_dispatch(modal, snapshot) {
            Ok(replication) => Ok(DispatchView::Replicate(replication)),
            Err(error) => Err(error),
        },
        InteractionView::Other(_) => Err(Error::Unrecognized(Fault::UnknownInteraction)),
    }
}

/// The terminal update for a session that failed with `error`: the error's
/// own words where the user can act on them, else an apology to the user and
/// the error to the operator.
pub open spec fn failure(error: Error) -> DirectiveView {
    DirectiveView::Resolve {
        reply: ReplyView::Text(error.text()),
        report: if error.is_user_facing() {
            None
        } else {
            Some(error)
        },
    }
}

/// The terminal update for a session whose replication ended with `outcome`.
pub open spec fn success(outcome: ReplicationOutcome) -> DirectiveView {
    DirectiveView::Resolve { reply: ReplyView::Text(outcome_text(outcome)), report: None }
}

impl HandlerView {
    /// This session at another stage.
    pub open spec fn at(self, stage: Stage) -> HandlerView {
        HandlerView { stage, ..self }
    }

    /// The session's transition: the state and the directive that follow
    /// when the runtime reports `event`.
    ///
    /// The acknowledgment comes first, whatever is reported. Every later
    /// path, failed ones included, leads to one terminal update, after which
    /// nothing is sent.
    pub open spec fn step(self, event: EventView) -> (HandlerView, DirectiveView) {
        match self.stage {
            Stage::Received => (
                self.at(Stage::Acknowledged),
                DirectiveView::Acknowledge(acknowledgment(kind_of(self.interaction))),
            ),
            Stage::Acknowledged => match event {
                EventView::Acknowledged(snapshot) => match dispatch_of(self.interaction, snapshot) {
                    Ok(DispatchView::Reply(reply)) => (
                        self.at(Stage::Resolved),
                        DirectiveView::Resolve { reply, report: None },
                    ),
                    Ok(DispatchView::Replicate(replication)) => (
                        self.at(Stage::Dispatched),
                        DirectiveView::Replicate(replication),
                    ),
                    Err(error) => (self.at(Stage::Resolved), failure(error)),
                },
                _ => (self.at(Stage::Resolved), failure(Error::Unrecognized(Fault::Transport))),
            },
            Stage::Dispatched => match event {
                EventView::Replicated(Ok(outcome)) => (self.at(Stage::Resolved), success(outcome)),
                EventView::Replicated(Err(error)) => (self.at(Stage::Resolved), failure(error)),
                _ => (self.at(Stage::Resolved), failure(Error::Unrecognized(Fault::Transport))),
            },
            Stage::Resolved => (self, DirectiveView::Finish),
        }
    }
}

/// One session: an interaction in need of an acknowledgment and of one
/// terminal update.
pub struct Handler {
    application_id: u64,
    id: u64,
    token: String,
    interaction: Interaction,
    stage: Stage,
}

/// The mathematical value of a [`Handler`].
pub struct HandlerView {
    pub application_id: u64,
    pub id: u64,
    pub token: Seq<char>,
    pub interaction: InteractionView,
    pub stage: Stage,
}

impl View for Handler {
    type V = HandlerView;

    closed spec fn view(&self) -> HandlerView {
        HandlerView {
            application_id: self.application_id,
            id: self.id,
            token: self.token@,
            interaction: self.interaction@,
            stage: self.stage,
        }
    }
}

/// The session of `interaction` as it is opened: nothing has been sent, and
/// the interaction's id and token are at hand for what will be.
pub open spec fn opened(application_id: u64, interaction: InteractionView) -> HandlerView {
    HandlerView {
        application_id,
        id: match interaction {
            InteractionView::ApplicationCommand(command) => command.id,
            InteractionView::MessageComponent(component) => component.id,
            InteractionView::ModalSubmit(modal) => modal.id,
            InteractionView::Other(unknown) => unknown.id,
        },
        token: match interaction {
            InteractionView::ApplicationCommand(command) => command.token,
            InteractionView::MessageComponent(component) => component.token,
            InteractionView::ModalSubmit(modal) => modal.token,
            InteractionView::Other(unknown) => unknown.token,
        },
        interaction,
        stage: Stage::Received,
    }
}

/// Which commands to register for an application, and where.
#[derive(Debug, PartialEq, Eq)]
pub struct Registration {
    pub application_id: u64,
    /// The one guild to register in; everywhere if there is none.
    pub guild_id: Option<u64>,
    pub commands: Vec<edit::CommandDescriptor>,
}

/// The views of a list of commands, command by command.
pub open spec fn commands_view(commands: Seq<edit::CommandDescriptor>) -> Seq<
    edit::CommandDescriptorView,
> {
    Seq::new(commands.len(), |i: int| commands[i]@)
}

/// The commands of this agent: `edit` in the context menu of messages, and
/// `edit` as a slash command.
pub open spec fn known_commands() -> Seq<edit::CommandDescriptorView> {
    seq![
        edit::CommandDescriptorView {
            name: "edit"@,
            description: ""@,
            kind: CommandType::Message,
            default_member_permissions: Some(MANAGE_MESSAGES),
        },
        edit::CommandDescriptorView {
            name: "edit"@,
            description: "edit any message you select"@,
            kind: CommandType::ChatInput,
            default_member_permissions: None,
        },
    ]
}

/// Says which commands to register for the application, and where: in the
/// test guild if there is one, else everywhere.
pub fn create_commands(application_id: u64, test_guild_id: Option<u64>) -> (registration:
    Registration)
    ensures
        registration.application_id == application_id,
        registration.guild_id == test_guild_id,
        commands_view(registration.commands@) == known_commands(),
{
    let mut commands: Vec<edit::CommandDescriptor> = Vec::new();
    commands.push(edit::build());
    commands.push(edit::ChatInput::create_command());
    proof {
        assert(commands_view(commands@) =~= known_commands());
    }
    Registration { application_id, guild_id: test_guild_id, commands }
}

/// Whether two texts are the same.
fn same_text(left: &str, right: &str) -> (same: bool)
    ensures
        same == (left@ == right@),
{
    left.to_owned() == right.to_owned()
}

/// The terminal update for a session that failed with `error`.
fn fail(error: Error) -> (directive: Directive)
    ensures
        directive@ == failure(error),
{
    Directive::Resolve {
        reply: Reply::Text(error.message()),
        report: if error.user_facing() {
            None
        } else {
            Some(error)
        },
    }
}

impl Handler {
    /// Opens the session of `interaction`. Every interaction gets one, also
    /// one of a type that this agent does not answer: it is acknowledged and
    /// resolved like any other.
    pub fn new(ctx: &Context, interaction: Interaction) -> (handler: Handler)
        ensures
            handler@ == opened(ctx.application_id, interaction@),
    {
        let (id, token) = match &interaction {
            Interaction::ApplicationCommand(command) => (command.id, command.token.clone()),
            Interaction::MessageComponent(component) => (component.id, component.token.clone()),
            Interaction::ModalSubmit(modal) => (modal.id, modal.token.clone()),
            Interaction::Other(unknown) => (unknown.id, unknown.token.clone()),
        };
        Handler { application_id: ctx.application_id, id, token, interaction, stage: Stage::Received }
    }

    /// The id of the interaction, which the acknowledgment must name.
    pub fn id(&self) -> (id: u64)
        ensures
            id == self@.id,
    {
        self.id
    }

    /// The continuation token, which every response must carry.
    pub fn token(&self) -> (token: &String)
        ensures
            token@ == self@.token,
    {
        &self.token
    }

    /// The application that the responses are sent as.
    pub fn application_id(&self) -> (application_id: u64)
        ensures
            application_id == self@.application_id,
    {
        self.application_id
    }

    /// How far the session has come.
    pub fn stage(&self) -> (stage: Stage)
        ensures
            stage == self@.stage,
    {
        self.stage
    }

    /// What triggered the session.
    pub fn kind(&self) -> (kind: InteractionKind)
        ensures
            kind == kind_of(self@.interaction),
    {
        match &self.interaction {
            Interaction::ApplicationCommand(_) => InteractionKind::Command,
            Interaction::MessageComponent(_) => InteractionKind::Selection,
            Interaction::ModalSubmit(_) => InteractionKind::FormSubmit,
            Interaction::Other(_) => InteractionKind::Other,
        }
    }

    /// The channel that the interaction came from, where it came from one.
    pub fn channel_id(&self) -> (channel_id: Option<u64>)
        ensures
            channel_id == channel_of(self@.interaction),
    {
        match &self.interaction {
            Interaction::ApplicationCommand(command) => Some(command.channel_id),
            Interaction::MessageComponent(component) => Some(component.channel_id),
            Interaction::ModalSubmit(modal) => Some(modal.channel_id),
            Interaction::Other(unknown) => unknown.channel_id,
        }
    }

    /// The user who triggered the interaction, where the platform says who.
    pub fn user_id(&self) -> (user_id: Option<u64>)
        ensures
            user_id == user_of(self@.interaction),
    {
        match &self.interaction {
            Interaction::ApplicationCommand(command) => command.user_id,
            Interaction::MessageComponent(component) => component.user_id,
            Interaction::ModalSubmit(modal) => modal.user_id,
            Interaction::Other(unknown) => unknown.user_id,
        }
    }

    /// How this session is acknowledged. Every acknowledgment defers: the
    /// work that follows may take longer than the platform waits.
    pub fn defer(&self) -> (kind: AckKind)
        ensures
            kind == acknowledgment(kind_of(self@.interaction)),
    {
        match self.kind() {
            InteractionKind::Command => AckKind::DeferredReply,
            InteractionKind::FormSubmit => AckKind::DeferredReply,
            InteractionKind::Selection => AckKind::DeferredUpdate,
            InteractionKind::Other => AckKind::DeferredReply,
        }
    }

    /// Takes the runtime's report and says what to do next.
    pub fn handle(&mut self, event: Event) -> (directive: Directive)
        ensures
            (final(self)@, directive@) == old(self)@.step(event@),
    {
        match self.stage {
            Stage::Received => {
                let kind = self.defer();
                self.stage = Stage::Acknowledged;
                Directive::Acknowledge(kind)
            },
            Stage::Acknowledged => match event {
                Event::Acknowledged(snapshot) => {
                    let dispatched = match &self.interaction {
                        Interaction::ApplicationCommand(command) => match self.handle_command(
                            command,
                            &snapshot,
                        ) {
                            Ok(reply) => Ok(Dispatch::Reply(reply)),
                            Err(error) => Err(error),
                        },
                        Interaction::MessageComponent(component) => match self.handle_selection(
                            component,
                            &snapshot,
                        ) {
                            Ok(reply) => Ok(Dispatch::Reply(reply)),
                            Err(error) => Err(error),
                        },
                        Interaction::ModalSubmit(modal) => match self.handle_modal_submit(
                            modal,
                            &snapshot,
                        ) {
                            Ok(replication) => Ok(Dispatch::Replicate(replication)),
                            Err(error) => Err(error),
                        },
                        Interaction::Other(_) => Err(
                            Error::Unrecognized(Fault::UnknownInteraction),
                        ),
                    };
                    match dispatched {
                        Ok(Dispatch::Reply(reply)) => {
                            self.stage = Stage::Resolved;
                            Directive::Resolve { reply, report: None }
                        },
                        Ok(Dispatch::Replicate(replication)) => {
                            self.stage = Stage::Dispatched;
                            Directive::Replicate(replication)
                        },
                        Err(error) => {
                            self.stage = Stage::Resolved;
                            fail(error)
                        },
                    }
                },
                _ => {
                    self.stage = Stage::Resolved;
                    fail(Error::Unrecognized(Fault::Transport))
                },
            },
            Stage::Dispatched => {
                self.stage = Stage::Resolved;
                match event {
                    Event::Replicated(Ok(outcome)) => Directive::Resolve {
                        reply: Reply::Text(outcome_message(outcome)),
                        report: None,
                    },
                    Event::Replicated(Err(error)) => fail(error),
                    _ => fail(Error::Unrecognized(Fault::Transport)),
                }
            },
            Stage::Resolved => Directive::Finish,
        }
    }

    /// Answers a command: only `edit` is known, as a message command and as
    /// a slash command.
    pub fn handle_command(&self, command: &ApplicationCommand, snapshot: &Snapshot) -> (answer:
        Result<Reply, Error>)
        ensures
            match answer {
                Ok(reply) => command_dispatch(command@, snapshot@) == Ok::<ReplyView, Error>(
                    reply@,
                ),
                Err(error) => command_dispatch(command@, snapshot@) == Err::<ReplyView, Error>(
                    error,
                ),
            },
    {
        if same_text(command.name.as_str(), "edit") {
            match command.kind {
                CommandType::Message => match self.edit().command(command, snapshot) {
                    Ok(form) => Ok(Reply::Form(form)),
                    Err(error) => Err(error),
                },
                CommandType::ChatInput => match self.edit().chat_input_command(snapshot) {
                    Ok(options) => Ok(Reply::Picker(options)),
                    Err(error) => Err(error),
                },
                CommandType::User => Err(Error::Unrecognized(Fault::UnknownCommandType)),
            }
        } else {
            Err(Error::Unrecognized(Fault::UnknownCommand))
        }
    }

    /// Answers a selection: only the `edit` picker is known.
    pub fn handle_selection(&self, component: &MessageComponent, snapshot: &Snapshot) -> (answer:
        Result<Reply, Error>)
        ensures
            match answer {
                Ok(reply) => selection_dispatch(component@, snapshot@) == Ok::<ReplyView, Error>(
                    reply@,
                ),
                Err(error) => selection_dispatch(component@, snapshot@) == Err::<ReplyView, Error>(
                    error,
                ),
            },
    {
        if same_text(component.custom_id.as_str(), edit::picker_custom_id().as_str()) {
            match self.edit().selection(component, snapshot) {
                Ok(form) => Ok(Reply::Form(form)),
                Err(error) => Err(error),
            }
        } else {
            Err(Error::Unrecognized(Fault::UnknownSelection))
        }
    }

    /// Answers a submitted form: only the `edit` form is known.
    pub fn handle_modal_submit(&self, modal: &ModalSubmit, snapshot: &Snapshot) -> (answer: Result<
        Replication,
        Error,
    >)
        ensures
            match answer {
                Ok(replication) => modal_dispatch(modal@, snapshot@) == Ok::<
                    ReplicationView,
                    Error,
                >(replication@),
                Err(error) => modal_dispatch(modal@, snapshot@) == Err::<ReplicationView, Error>(
                    error,
                ),
            },
    {
        if same_text(modal.custom_id.as_str(), "edit_modal") {
            self.edit().modal_submit(modal, snapshot)
        } else {
            Err(Error::Unrecognized(Fault::UnknownModal))
        }
    }

    /// Checks that this agent holds every permission bit of `required` among
    /// those it was `granted` in the channel.
    pub fn check_self_permissions(&self, granted: u64, required: u64) -> (verdict: Result<(), Error>)
        ensures
            verdict == (if edit::missing_permissions(required, granted) == 0 {
                Ok::<(), Error>(())
            } else {
                Err::<(), Error>(
                    Error::SelfMissingPermissions(edit::missing_permissions(required, granted)),
                )
            }),
    {
        let missing = required & !granted;
        if missing == 0 {
            Ok(())
        } else {
            Err(Error::SelfMissingPermissions(missing))
        }
    }

    /// Checks that the user holds every permission bit of `required` among
    /// those they were `granted` in the channel.
    pub fn check_user_permissions(&self, granted: u64, required: u64) -> (verdict: Result<(), Error>)
        ensures
            verdict == (if edit::missing_permissions(required, granted) == 0 {
                Ok::<(), Error>(())
            } else {
                Err::<(), Error>(
                    Error::UserMissingPermissions(edit::missing_permissions(required, granted)),
                )
            }),
    {
        let missing = required & !granted;
        if missing == 0 {
            Ok(())
        } else {
            Err(Error::UserMissingPermissions(missing))
        }
    }

    /// The `edit` command's side of this session.
    pub fn edit(&self) -> (handler: edit::Handler<'_>)
        ensures
            handler.session() == *self,
    {
        edit::Handler::new(self)
    }
}

/// The state of a session once the runtime has reported the first `count` of `events`.
pub open spec fn session_after(start: HandlerView, events: Seq<EventView>, count: nat) -> HandlerView
    decreases count,
{
    if count == 0 {
        start
    } else {
        session_after(start, events, (count - 1) as nat).step(events[count - 1]).0
    }
}

/// The directive that a session gives in answer to the event at `index`.
pub open spec fn directive_at(start: HandlerView, events: Seq<EventView>, index: nat) -> DirectiveView {
    session_after(start, events, index).step(events[index as int]).1
}

/// The stages in their order.
pub open spec fn stage_rank(stage: Stage) -> nat {
    match stage {
        Stage::Received => 0,
        Stage::Acknowledged => 1,
        Stage::Dispatched => 2,
        Stage::Resolved => 3,
    }
}

/// The index of the event that a session answers with its terminal update:
/// the second event where no replication is run, else the third.
pub open spec fn resolving_index(start: HandlerView, events: Seq<EventView>) -> nat {
    if session_after(start, events, 2).stage == Stage::Resolved {
        1
    } else {
        2
    }
}

/// A session never returns to an earlier stage, whatever is reported to it.
pub proof fn lemma_session_moves_forward(
    start: HandlerView,
    events: Seq<EventView>,
    earlier: nat,
    later: nat,
)
    requires
        earlier <= later,
    ensures
        stage_rank(session_after(start, events, earlier).stage) <= stage_rank(
            session_after(start, events, later).stage,
        ),
    decreases later,
{
    if earlier < later {
        lemma_session_moves_forward(start, events, earlier, (later - 1) as nat);
    }
}

/// Every session is acknowledged exactly once and resolved exactly once,
/// whatever is reported to it and whichever step fails: the first directive,
/// and no other, is the acknowledgment; the terminal update is the answer to
/// the second report or, where a replication is run, to the third, and to no
/// other; and from the third report on the session is resolved for good.
pub proof fn lemma_session_resolves_once(start: HandlerView, events: Seq<EventView>)
    requires
        start.stage == Stage::Received,
    ensures
        forall|index: nat|
            index < events.len() ==> (#[trigger] directive_at(start, events, index) is Acknowledge
                <==> index == 0),
        forall|index: nat|
            index < events.len() ==> (#[trigger] directive_at(start, events, index) is Resolve
                <==> index == resolving_index(start, events)),
        forall|count: nat|
            3 <= count <= events.len() ==> (#[trigger] session_after(start, events, count)).stage
                == Stage::Resolved,
{
    assert forall|count: nat| count <= events.len() implies ({
        let stage = (#[trigger] session_after(start, events, count)).stage;
        &&& count == 0 <==> stage == Stage::Received
        &&& count == 1 <==> stage == Stage::Acknowledged
        &&& stage == Stage::Dispatched ==> count == 2
        &&& count >= 3 ==> stage == Stage::Resolved
    }) by {
        lemma_session_stage(start, events, count);
    }
    assert(session_after(start, events, 2) == session_after(start, events, 1).step(events[1]).0);
    assert(session_after(start, events, 3) == session_after(start, events, 2).step(events[2]).0);
}

proof fn lemma_session_stage(start: HandlerView, events: Seq<EventView>, count: nat)
    requires
        start.stage == Stage::Received,
    ensures
        count == 0 <==> session_after(start, events, count).stage == Stage::Received,
        count == 1 <==> session_after(start, events, count).stage == Stage::Acknowledged,
        session_after(start, events, count).stage == Stage::Dispatched ==> count == 2,
        count >= 3 ==> session_after(start, events, count).stage == Stage::Resolved,
    decreases count,
{
    if count > 0 {
        lemma_session_stage(start, events, (count - 1) as nat);
    }
}

/// An interaction of a type that this agent does not answer is resolved like
/// any other: it is acknowledged first, and the answer to the next report is
/// the terminal update, which apologizes to the user and hands the operator
/// the reason, that the interaction is unknown where the acknowledgment went out.
pub proof fn lemma_unknown_interaction_is_resolved(start: HandlerView, events: Seq<EventView>)
    requires
        start.stage == Stage::Received,
        start.interaction is Other,
        events.len() >= 2,
    ensures
        directive_at(start, events, 0) == DirectiveView::Acknowledge(AckKind::DeferredReply),
        directive_at(start, events, 1) matches DirectiveView::Resolve { reply, report }
            && reply == ReplyView::Text(apology()) && report is Some,
        events[1] is Acknowledged ==> directive_at(start, events, 1) == failure(
            Error::Unrecognized(Fault::UnknownInteraction),
        ),
        session_after(start, events, 2).stage == Stage::Resolved,
{
    assert(session_after(start, events, 1) == session_after(start, events, 0).step(events[0]).0);
    assert(session_after(start, events, 2) == session_after(start, events, 1).step(events[1]).0);
}

/// On an empty history window a command is answered with
/// `NoCachedMessages`, whether it asks for the picker or names a target, and
/// the session is resolved with that error's words at once: no replication is
/// planned, so nothing remote is changed.
pub proof fn lemma_empty_history_is_no_cached_messages(
    start: HandlerView,
    command: ApplicationCommandView,
    snapshot: SnapshotView,
)
    requires
        start.stage == Stage::Acknowledged,
        start.interaction == InteractionView::ApplicationCommand(command),
        command.name == "edit"@,
        command.kind == CommandType::ChatInput || (command.kind == CommandType::Message
            && command.target is Some),
        edit::permission_verdict(snapshot) is None,
        snapshot.history == Some(Seq::<MessageView>::empty()),
    ensures
        command_dispatch(command, snapshot) == Err::<ReplyView, Error>(
            Error::Edit(edit::Error::NoCachedMessages),
        ),
        start.step(EventView::Acknowledged(snapshot)) == (
            start.at(Stage::Resolved),
            DirectiveView::Resolve {
                reply: ReplyView::Text(edit::Error::NoCachedMessages.text()),
                report: None,
            },
        ),
{
}

} // verus!
