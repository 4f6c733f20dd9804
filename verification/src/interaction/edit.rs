//! The `edit` command: its entry points and what each of them decides.

use crate::interaction;
use crate::interaction::{
    ApplicationCommand, Channel, CommandType, Fault, Member, MemberView, MessageComponent,
    ModalInputView, ModalSubmit, ModalSubmitView, Snapshot, SnapshotView, MANAGE_MESSAGES,
    MANAGE_WEBHOOKS, MAX_MESSAGE_LENGTH, MAX_PICKER_OPTIONS,
};
use crate::message::{history_view, is_weird, message_is_weird, MessageView, ReplicaMessage};
use crate::platform::{format_message_id, message_id_text, parse_message_id, parsed_message_id};
use crate::replay::{
    outcome_of, planned, replication_outcome, Replication, ReplicationOutcome, ReplicationView,
};
use vstd::prelude::*;
use vstd::string::StrSliceExecFns;

verus! {

/// Why a message cannot be edited, in terms the user can act on.
#[derive(Clone, Copy, Debug, PartialEq, Eq, Structural)]
pub enum Error {
    /// The message holds something that cannot be re-created.
    MessageWeird,
    /// The text is longer than a message may be.
    MessageTooLong,
    /// The channel's history window holds nothing to work on.
    NoCachedMessages,
}

impl Error {
    /// What the user is told.
    pub open spec fn text(self) -> Seq<char> {
        match self {
            Error::MessageWeird => "this message is weird, it has something i cant recreate like a reaction.. sorry"@,
            Error::MessageTooLong => "this message is too long, someone with nitro sent it but bots dont have nitro sadly"@,
            Error::NoCachedMessages => "i dont know any messages here yet, i can only see messages sent after i joined or got updated.. sorry"@,
        }
    }

    /// What the user is told.
    pub fn message(&self) -> (message: String)
        ensures
            message@ == self.text(),
    {
        match self {
            Error::MessageWeird => "this message is weird, it has something i cant recreate like a reaction.. sorry".to_owned(),
            Error::MessageTooLong => "this message is too long, someone with nitro sent it but bots dont have nitro sadly".to_owned(),
            Error::NoCachedMessages => "i dont know any messages here yet, i can only see messages sent after i joined or got updated.. sorry".to_owned(),
        }
    }
}

/// What the platform is told of a command when it is registered.
#[derive(Debug, PartialEq, Eq)]
pub struct CommandDescriptor {
    pub name: String,
    pub description: String,
    pub kind: CommandType,
    /// The permission bits a member needs for the command to be offered to them.
    pub default_member_permissions: Option<u64>,
}

/// The mathematical value of a [`CommandDescriptor`].
pub struct CommandDescriptorView {
    pub name: Seq<char>,
    pub description: Seq<char>,
    pub kind: CommandType,
    pub default_member_permissions: Option<u64>,
}

impl View for CommandDescriptor {
    type V = CommandDescriptorView;

    open spec fn view(&self) -> CommandDescriptorView {
        CommandDescriptorView {
            name: self.name@,
            description: self.description@,
            kind: self.kind,
            default_member_permissions: self.default_member_permissions,
        }
    }
}

/// The slash command `edit`, which takes no options.
#[derive(Clone, Copy, Debug, PartialEq, Eq, Structural)]
pub struct ChatInput {}

impl ChatInput {
    /// The slash command as it is registered.
    pub fn create_command() -> (command: CommandDescriptor)
        ensures
            command@ == (CommandDescriptorView {
                name: "edit"@,
                description: "edit any message you select"@,
                kind: CommandType::ChatInput,
                default_member_permissions: None,
            }),
    {
        CommandDescriptor {
            name: "edit".to_owned(),
            description: "edit any message you select".to_owned(),
            kind: CommandType::ChatInput,
            default_member_permissions: None,
        }
    }
}

/// The message command `edit` as it is registered: offered in a message's
/// context menu to members who may manage messages.
pub fn build() -> (command: CommandDescriptor)
    ensures
        command@ == (CommandDescriptorView {
            name: "edit"@,
            description: ""@,
            kind: CommandType::Message,
            default_member_permissions: Some(MANAGE_MESSAGES),
        }),
{
    CommandDescriptor {
        name: "edit".to_owned(),
        description: "".to_owned(),
        kind: CommandType::Message,
        default_member_permissions: Some(MANAGE_MESSAGES),
    }
}

/// The form in which the user writes the replacement text.
#[derive(Debug, PartialEq, Eq)]
pub struct EditForm {
    pub title: String,
    pub custom_id: String,
    /// The id of the form's one input, which names the message to edit.
    pub input_id: String,
    pub label: String,
    /// The text the input starts with: the message as it is.
    pub value: String,
    pub max_length: usize,
}

/// The mathematical value of an [`EditForm`].
pub struct EditFormView {
    pub title: Seq<char>,
    pub custom_id: Seq<char>,
    pub input_id: Seq<char>,
    pub label: Seq<char>,
    pub value: Seq<char>,
    pub max_length: usize,
}

impl View for EditForm {
    type V = EditFormView;

    open spec fn view(&self) -> EditFormView {
        EditFormView {
            title: self.title@,
            custom_id: self.custom_id@,
            input_id: self.input_id@,
            label: self.label@,
            value: self.value@,
            max_length: self.max_length,
        }
    }
}

/// One message offered in a picker.
#[derive(Debug, PartialEq, Eq)]
pub struct PickerOption {
    pub message_id: u64,
    /// What the platform hands back when the option is chosen: the id as text.
    pub value: String,
    /// What the user reads: the message's text.
    pub label: String,
}

/// The mathematical value of a [`PickerOption`].
pub struct PickerOptionView {
    pub message_id: u64,
    pub value: Seq<char>,
    pub label: Seq<char>,
}

impl View for PickerOption {
    type V = PickerOptionView;

    open spec fn view(&self) -> PickerOptionView {
        PickerOptionView { message_id: self.message_id, value: self.value@, label: self.label@ }
    }
}

/// The id under which the picker is shown and its choices come back.
pub open spec fn picker_id() -> Seq<char> {
    "edit_select"@
}

/// The id under which the picker is shown and its choices come back.
pub fn picker_custom_id() -> (id: String)
    ensures
        id@ == picker_id(),
{
    "edit_select".to_owned()
}

/// The views of a picker's options, option by option.
pub open spec fn options_view(options: Seq<PickerOption>) -> Seq<PickerOptionView> {
    Seq::new(options.len(), |i: int| options[i]@)
}

/// The permission bits of `required` that `granted` lacks.
pub open spec fn missing_permissions(required: u64, granted: u64) -> u64 {
    required & !granted
}

/// What the user must hold to edit messages.
pub open spec fn user_requirements() -> u64 {
    MANAGE_MESSAGES
}

/// What this agent must hold to edit messages.
pub open spec fn self_requirements() -> u64 {
    MANAGE_MESSAGES | MANAGE_WEBHOOKS
}

/// Whether the user, then this agent, hold what editing takes. Where the
/// permission oracle cannot tell, nobody is taken to hold anything.
pub open spec fn permission_verdict(snapshot: SnapshotView) -> Option<interaction::Error> {
    match snapshot.actor_permissions {
        None => Some(interaction::Error::Unrecognized(Fault::PermissionsUnknown)),
        Some(actor) => if missing_permissions(user_requirements(), actor) != 0 {
            Some(
                interaction::Error::UserMissingPermissions(
                    missing_permissions(user_requirements(), actor),
                ),
            )
        } else {
            match snapshot.self_permissions {
                None => Some(interaction::Error::Unrecognized(Fault::PermissionsUnknown)),
                Some(own) => if missing_permissions(self_requirements(), own) != 0 {
                    Some(
                        interaction::Error::SelfMissingPermissions(
                            missing_permissions(self_requirements(), own),
                        ),
                    )
                } else {
                    None
                },
            }
        },
    }
}

/// The first thing every entry point asks: permissions must be in order,
/// and the read model must hold every message of the history window. The
/// window is what the rest of the entry point works on.
pub open spec fn entry_verdict(snapshot: SnapshotView) -> Result<
    Seq<MessageView>,
    interaction::Error,
> {
    match permission_verdict(snapshot) {
        Some(error) => Err(error),
        None => match snapshot.history {
            Some(history) => Ok(history),
            None => Err(interaction::Error::Unrecognized(Fault::MessagesNotCached)),
        },
    }
}

/// Whether the history window holds a message with this id.
pub open spec fn is_cached(history: Seq<MessageView>, id: u64) -> bool {
    exists|i: int| 0 <= i < history.len() && (#[trigger] history[i]).id == id
}

/// Whether `message` may be loaded into the form: short enough, first of
/// all, and then not weird. Its id must be one that can be written into the form.
pub open spec fn form_verdict(message: MessageView) -> Result<EditFormView, interaction::Error> {
    if message.content.len() > MAX_MESSAGE_LENGTH {
        Err(interaction::Error::Edit(Error::MessageTooLong))
    } else if is_weird(message) {
        Err(interaction::Error::Edit(Error::MessageWeird))
    } else if message.id == 0 {
        Err(interaction::Error::Unrecognized(Fault::InvalidMessageId))
    } else {
        Ok(
            EditFormView {
                title: "edit message"@,
                custom_id: "edit_modal"@,
                input_id: message_id_text(message.id),
                label: "what to edit the message to"@,
                value: message.content,
                max_length: MAX_MESSAGE_LENGTH,
            },
        )
    }
}

/// What a message command answers: the form for its target, unless the
/// entry is refused, the command names no message, the message is not in the
/// history window, or it cannot be loaded into the form.
pub open spec fn command_verdict(
    target: Option<MessageView>,
    snapshot: SnapshotView,
) -> Result<EditFormView, interaction::Error> {
    match entry_verdict(snapshot) {
        Err(error) => Err(error),
        Ok(history) => match target {
            None => Err(interaction::Error::Unrecognized(Fault::MissingMessage)),
            Some(message) => if !is_cached(history, message.id) {
                Err(interaction::Error::Edit(Error::NoCachedMessages))
            } else {
                form_verdict(message)
            },
        },
    }
}

/// Where the first message with this id stands in the history, if there is one.
pub open spec fn position_of(history: Seq<MessageView>, id: u64) -> Option<int> {
    if is_cached(history, id) {
        Some(choose|i: int| is_first_with_id(history, id, i))
    } else {
        None
    }
}

/// `index` is where the first message with this id stands in the history.
pub open spec fn is_first_with_id(history: Seq<MessageView>, id: u64, index: int) -> bool {
    &&& 0 <= index < history.len()
    &&& history[index].id == id
    &&& forall|j: int| 0 <= j < index ==> (#[trigger] history[j]).id != id
}

/// What a selection answers: the form for the chosen message, unless the
/// entry is refused, nothing was chosen, the choice names no message of the
/// history window, or that message cannot be loaded into the form.
pub open spec fn selection_verdict(
    values: Seq<Seq<char>>,
    snapshot: SnapshotView,
) -> Result<EditFormView, interaction::Error> {
    match entry_verdict(snapshot) {
        Err(error) => Err(error),
        Ok(history) => if values.len() == 0 {
            Err(interaction::Error::Unrecognized(Fault::MissingComponents))
        } else {
            match parsed_message_id(values[0]) {
                None => Err(interaction::Error::Unrecognized(Fault::InvalidMessageId)),
                Some(id) => match position_of(history, id) {
                    None => Err(interaction::Error::Edit(Error::NoCachedMessages)),
                    Some(index) => form_verdict(history[index]),
                },
            }
        },
    }
}

/// A message can be offered in a picker when it is not weird and its id can
/// be written into an option.
pub open spec fn can_be_offered(message: MessageView) -> bool {
    !is_weird(message) && message.id != 0
}

/// The messages a picker offers: the newest that can be offered, at most
/// [`MAX_PICKER_OPTIONS`] of them, newest first.
pub open spec fn offered(history: Seq<MessageView>) -> Seq<MessageView> {
    let eligible = history.filter(|message: MessageView| can_be_offered(message));
    if eligible.len() <= MAX_PICKER_OPTIONS {
        eligible
    } else {
        eligible.take(MAX_PICKER_OPTIONS as int)
    }
}

/// The option that offers `message`.
pub open spec fn option_for(message: MessageView) -> PickerOptionView {
    PickerOptionView {
        message_id: message.id,
        value: message_id_text(message.id),
        label: message.content,
    }
}

/// What a slash command answers: a picker over the history window, unless
/// the entry is refused or the window is empty.
pub open spec fn picker_verdict(snapshot: SnapshotView) -> Result<
    Seq<PickerOptionView>,
    interaction::Error,
> {
    match entry_verdict(snapshot) {
        Err(error) => Err(error),
        Ok(history) => if history.len() == 0 {
            Err(interaction::Error::Edit(Error::NoCachedMessages))
        } else {
            Ok(Seq::new(offered(history).len(), |i: int| option_for(offered(history)[i])))
        },
    }
}

/// Where messages are posted for a channel: into the channel itself, or for
/// a thread through its parent's webhook into the thread.
pub open spec fn resolved_channel(channel: Option<Channel>) -> Result<
    (u64, Option<u64>),
    interaction::Error,
> {
    match channel {
        None => Err(interaction::Error::Unrecognized(Fault::ChannelNotCached)),
        Some(channel) => if channel.is_thread {
            match channel.parent_id {
                Some(parent_id) => Ok((parent_id, Some(channel.id))),
                None => Err(interaction::Error::Unrecognized(Fault::ThreadWithoutParent)),
            }
        } else {
            Ok((channel.id, None))
        },
    }
}

/// The input that a submitted form is read from: the last input of its last row.
pub open spec fn submitted_input(rows: Seq<Seq<ModalInputView>>) -> Option<ModalInputView> {
    if rows.len() == 0 || rows.last().len() == 0 {
        None
    } else {
        Some(rows.last().last())
    }
}

/// The name under which the editor is credited: the nickname where one is
/// set. The interaction must say who the member is and include their account.
pub open spec fn editor_of(member: Option<MemberView>) -> Result<Seq<char>, interaction::Error> {
    match member {
        None => Err(interaction::Error::Unrecognized(Fault::MissingMember)),
        Some(member) => match member.user_name {
            None => Err(interaction::Error::Unrecognized(Fault::MissingUser)),
            Some(user_name) => match member.nick {
                Some(nick) => Ok(nick),
                None => Ok(user_name),
            },
        },
    }
}

/// What a submitted form answers: the planned replication, unless the
/// entry is refused, the channel cannot be resolved, the form lacks its
/// input or the input names no message, the new text is too long, or the
/// target is to be replayed and nobody can be credited with the edit.
pub open spec fn submit_verdict(modal: ModalSubmitView, snapshot: SnapshotView) -> Result<
    ReplicationView,
    interaction::Error,
> {
    match entry_verdict(snapshot) {
        Err(error) => Err(error),
        Ok(history) => match resolved_channel(snapshot.channel) {
            Err(error) => Err(error),
            Ok((webhook_channel_id, thread_id)) => match submitted_input(modal.rows) {
                None => Err(interaction::Error::Unrecognized(Fault::MissingComponents)),
                Some(input) => match parsed_message_id(input.custom_id) {
                    None => Err(interaction::Error::Unrecognized(Fault::InvalidMessageId)),
                    Some(target) => if input.value.len() > MAX_MESSAGE_LENGTH {
                        Err(interaction::Error::Edit(Error::MessageTooLong))
                    } else if outcome_of(history, target) == ReplicationOutcome::Full {
                        match editor_of(modal.member) {
                            Err(error) => Err(error),
                            Ok(editor) => Ok(
                                planned(
                                    modal.channel_id,
                                    webhook_channel_id,
                                    thread_id,
                                    history,
                                    target,
                                    input.value,
                                    editor,
                                ),
                            ),
                        }
                    } else {
                        Ok(
                            planned(
                                modal.channel_id,
                                webhook_channel_id,
                                thread_id,
                                history,
                                target,
                                input.value,
                                Seq::empty(),
                            ),
                        )
                    },
                },
            },
        }
    }
}

/// The last input of the last row of a submitted form.
fn last_input(modal: &ModalSubmit) -> (input: Option<&interaction::ModalInput>)
    ensures
        match input {
            Some(input) => submitted_input(modal@.rows) == Some(input@),
            None => submitted_input(modal@.rows) is None,
        },
{
    if modal.rows.len() == 0 {
        return None;
    }
    let row = &modal.rows[modal.rows.len() - 1];
    if row.len() == 0 {
        return None;
    }
    Some(&row[row.len() - 1])
}

/// Where to post for `channel`: the webhook's channel, and the thread if there is one.
pub fn resolve_channel(channel: Option<Channel>) -> (resolved: Result<
    (u64, Option<u64>),
    interaction::Error,
>)
    ensures
        resolved == resolved_channel(channel),
{
    match channel {
        None => Err(interaction::Error::Unrecognized(Fault::ChannelNotCached)),
        Some(channel) => if channel.is_thread {
            match channel.parent_id {
                Some(parent_id) => Ok((parent_id, Some(channel.id))),
                None => Err(interaction::Error::Unrecognized(Fault::ThreadWithoutParent)),
            }
        } else {
            Ok((channel.id, None))
        },
    }
}

/// The name under which `member` is credited with an edit.
pub fn editor_name(member: &Option<Member>) -> (name: Result<String, interaction::Error>)
    ensures
        match name {
            Ok(name) => editor_of(interaction::member_view(*member)) == Ok::<
                Seq<char>,
                interaction::Error,
            >(name@),
            Err(error) => editor_of(interaction::member_view(*member)) == Err::<
                Seq<char>,
                interaction::Error,
            >(error),
        },
{
    match member {
        None => Err(interaction::Error::Unrecognized(Fault::MissingMember)),
        Some(member) => match &member.user_name {
            None => Err(interaction::Error::Unrecognized(Fault::MissingUser)),
            Some(user_name) => match &member.nick {
                Some(nick) => Ok(nick.clone()),
                None => Ok(user_name.clone()),
            },
        },
    }
}

/// Where the first message with this id stands in `history`.
pub fn find_message(history: &Vec<ReplicaMessage>, id: u64) -> (position: Option<usize>)
    ensures
        match position {
            Some(index) => index < history.len() && position_of(history_view(history@), id)
                == Some(index as int),
            None => position_of(history_view(history@), id) is None,
        },
{
    let ghost view = history_view(history@);
    let mut i: usize = 0;
    while i < history.len()
        invariant
            i <= history.len(),
            view == history_view(history@),
            forall|j: int| 0 <= j < i ==> (#[trigger] view[j]).id != id,
        decreases history.len() - i,
    {
        if history[i].id == id {
            proof {
                assert(is_first_with_id(view, id, i as int));
                let chosen = choose|k: int| is_first_with_id(view, id, k);
                assert(is_first_with_id(view, id, chosen));
                assert(chosen == i);
            }
            return Some(i);
        }
        i = i + 1;
    }
    None
}

/// The form that loads `message`, or why it cannot be loaded.
pub fn open_form(message: &ReplicaMessage) -> (form: Result<EditForm, interaction::Error>)
    ensures
        match form {
            Ok(form) => form_verdict(message@) == Ok::<EditFormView, interaction::Error>(
                form@,
            ),
            Err(error) => form_verdict(message@) == Err::<EditFormView, interaction::Error>(
                error,
            ),
        },
{
    if message.content.as_str().unicode_len() > MAX_MESSAGE_LENGTH {
        return Err(interaction::Error::Edit(Error::MessageTooLong));
    }
    if message_is_weird(message) {
        return Err(interaction::Error::Edit(Error::MessageWeird));
    }
    match format_message_id(message.id) {
        None => Err(interaction::Error::Unrecognized(Fault::InvalidMessageId)),
        Some(input_id) => Ok(
            EditForm {
                title: "edit message".to_owned(),
                custom_id: "edit_modal".to_owned(),
                input_id,
                label: "what to edit the message to".to_owned(),
                value: message.content.clone(),
                max_length: MAX_MESSAGE_LENGTH,
            },
        ),
    }
}

/// The `edit` command's side of a session.
pub struct Handler<'ctx>(&'ctx interaction::Handler);

impl<'ctx> Handler<'ctx> {
    /// The session that this handler belongs to.
    pub closed spec fn session(self) -> interaction::Handler {
        *self.0
    }

    /// The `edit` command's side of the session that `interaction_handler` runs.
    pub fn new(interaction_handler: &'ctx interaction::Handler) -> (handler: Self)
        ensures
            handler.session() == *interaction_handler,
    {
        Handler(interaction_handler)
    }

    /// Checks that the user, then this agent, hold what editing takes.
    fn check_permissions(&self, snapshot: &Snapshot) -> (verdict: Option<interaction::Error>)
        ensures
            verdict == permission_verdict(snapshot@),
    {
        let actor = match snapshot.actor_permissions {
            None => {
                return Some(interaction::Error::Unrecognized(Fault::PermissionsUnknown));
            },
            Some(actor) => actor,
        };
        if let Err(error) = self.0.check_user_permissions(actor, MANAGE_MESSAGES) {
            return Some(error);
        }
        let own = match snapshot.self_permissions {
            None => {
                return Some(interaction::Error::Unrecognized(Fault::PermissionsUnknown));
            },
            Some(own) => own,
        };
        match self.0.check_self_permissions(own, MANAGE_MESSAGES | MANAGE_WEBHOOKS) {
            Err(error) => Some(error),
            Ok(()) => None,
        }
    }

    /// Asks what every entry point asks first, and hands out the history window.
    fn check_entry<'a>(&self, snapshot: &'a Snapshot) -> (verdict: Result<
        &'a Vec<ReplicaMessage>,
        interaction::Error,
    >)
        ensures
            match verdict {
                Ok(history) => entry_verdict(snapshot@) == Ok::<
                    Seq<MessageView>,
                    interaction::Error,
                >(history_view(history@)),
                Err(error) => entry_verdict(snapshot@) == Err::<
                    Seq<MessageView>,
                    interaction::Error,
                >(error),
            },
    {
        if let Some(error) = self.check_permissions(snapshot) {
            return Err(error);
        }
        match &snapshot.history {
            Some(history) => Ok(history),
            None => Err(interaction::Error::Unrecognized(Fault::MessagesNotCached)),
        }
    }

    /// Answers the slash command: a picker over the newest messages of the
    /// channel that can be edited, or `NoCachedMessages` where the history
    /// window is empty.
    pub fn chat_input_command(&self, snapshot: &Snapshot) -> (answer: Result<
        Vec<PickerOption>,
        interaction::Error,
    >)
        ensures
            match answer {
                Ok(options) => picker_verdict(snapshot@) == Ok::<
                    Seq<PickerOptionView>,
                    interaction::Error,
                >(options_view(options@)),
                Err(error) => picker_verdict(snapshot@) == Err::<
                    Seq<PickerOptionView>,
                    interaction::Error,
                >(error),
            },
    {
        let history = match self.check_entry(snapshot) {
            Err(error) => {
                return Err(error);
            },
            Ok(history) => history,
        };
        if history.len() == 0 {
            return Err(interaction::Error::Edit(Error::NoCachedMessages));
        }
        let ghost view = history_view(history@);
        let ghost eligible = |message: MessageView| can_be_offered(message);
        let mut options: Vec<PickerOption> = Vec::new();
        let mut i: usize = 0;
        while i < history.len() && options.len() < MAX_PICKER_OPTIONS
            invariant
                i <= history.len(),
                view == history_view(history@),
                eligible == |message: MessageView| can_be_offered(message),
                options.len() <= MAX_PICKER_OPTIONS,
                options.len() == view.take(i as int).filter(eligible).len(),
                forall|j: int|
                    0 <= j < options.len() ==> (#[trigger] options@[j])@ == option_for(
                        view.take(i as int).filter(eligible)[j],
                    ),
            decreases history.len() - i,
        {
            let message = &history[i];
            proof {
                let next = view.take(i + 1);
                assert(next.drop_last() == view.take(i as int));
                assert(next.last() == message@);
                reveal(Seq::filter);
            }
            if !message_is_weird(message) {
                if let Some(value) = format_message_id(message.id) {
                    options.push(
                        PickerOption { message_id: message.id, value, label: message.content.clone() },
                    );
                }
            }
            i = i + 1;
        }
        proof {
            let picked = view.take(i as int).filter(eligible);
            lemma_filter_of_prefix(view, eligible, i as int);
            if i == history.len() {
                assert(view.take(i as int) == view);
            }
            assert(offered(view) == picked);
            assert(options_view(options@) =~= Seq::new(
                offered(view).len(),
                |k: int| option_for(offered(view)[k]),
            ));
        }
        Ok(options)
    }

    /// Answers the message command: the form that loads the target, where
    /// permissions suffice, the target is in the history window, it is short
    /// enough to be loaded and it is not weird.
    pub fn command(&self, command: &ApplicationCommand, snapshot: &Snapshot) -> (answer: Result<
        EditForm,
        interaction::Error,
    >)
        ensures
            match answer {
                Ok(form) => command_verdict(command@.target, snapshot@) == Ok::<
                    EditFormView,
                    interaction::Error,
                >(form@),
                Err(error) => command_verdict(command@.target, snapshot@) == Err::<
                    EditFormView,
                    interaction::Error,
                >(error),
            },
    {
        let history = match self.check_entry(snapshot) {
            Err(error) => {
                return Err(error);
            },
            Ok(history) => history,
        };
        match &command.target {
            None => Err(interaction::Error::Unrecognized(Fault::MissingMessage)),
            Some(message) => match find_message(history, message.id) {
                None => Err(interaction::Error::Edit(Error::NoCachedMessages)),
                Some(_) => open_form(message),
            },
        }
    }

    /// Answers a choice made in the picker: the form that loads the chosen
    /// message as the history window holds it.
    pub fn selection(&self, component: &MessageComponent, snapshot: &Snapshot) -> (answer: Result<
        EditForm,
        interaction::Error,
    >)
        ensures
            match answer {
                Ok(form) => selection_verdict(component@.values, snapshot@) == Ok::<
                    EditFormView,
                    interaction::Error,
                >(form@),
                Err(error) => selection_verdict(component@.values, snapshot@) == Err::<
                    EditFormView,
                    interaction::Error,
                >(error),
            },
    {
        let history = match self.check_entry(snapshot) {
            Err(error) => {
                return Err(error);
            },
            Ok(history) => history,
        };
        if component.values.len() == 0 {
            return Err(interaction::Error::Unrecognized(Fault::MissingComponents));
        }
        assert(component@.values[0] == component.values@[0]@);
        match parse_message_id(component.values[0].as_str()) {
            None => Err(interaction::Error::Unrecognized(Fault::InvalidMessageId)),
            Some(id) => match find_message(history, id) {
                None => Err(interaction::Error::Edit(Error::NoCachedMessages)),
                Some(index) => open_form(&history[index]),
            },
        }
    }

    /// Answers a submitted form: the replication that carries out the edit,
    /// planned and not yet started. Nothing remote has been touched when
    /// this returns, whatever it returns.
    pub fn modal_submit(&self, modal: &ModalSubmit, snapshot: &Snapshot) -> (answer: Result<
        Replication,
        interaction::Error,
    >)
        ensures
            match answer {
                Ok(replication) => submit_verdict(modal@, snapshot@) == Ok::<
                    ReplicationView,
                    interaction::Error,
                >(replication@),
                Err(error) => submit_verdict(modal@, snapshot@) == Err::<
                    ReplicationView,
                    interaction::Error,
                >(error),
            },
    {
        let history = match self.check_entry(snapshot) {
            Err(error) => {
                return Err(error);
            },
            Ok(history) => history,
        };
        let (webhook_channel_id, thread_id) = match resolve_channel(snapshot.channel) {
            Err(error) => {
                return Err(error);
            },
            Ok(resolved) => resolved,
        };
        let input = match last_input(modal) {
            None => {
                return Err(interaction::Error::Unrecognized(Fault::MissingComponents));
            },
            Some(input) => input,
        };
        let target = match parse_message_id(input.custom_id.as_str()) {
            None => {
                return Err(interaction::Error::Unrecognized(Fault::InvalidMessageId));
            },
            Some(target) => target,
        };
        if input.value.as_str().unicode_len() > MAX_MESSAGE_LENGTH {
            return Err(interaction::Error::Edit(Error::MessageTooLong));
        }
        let editor = match replication_outcome(history, target) {
            ReplicationOutcome::Full => match editor_name(&modal.member) {
                Err(error) => {
                    return Err(error);
                },
                Ok(editor) => editor,
            },
            _ => String::new(),
        };
        Ok(
            Replication::plan(
                modal.channel_id,
                webhook_channel_id,
                thread_id,
                history,
                target,
                input.value.as_str(),
                editor.as_str(),
            ),
        )
    }
}

/// The messages that a filter keeps of a prefix are a prefix of those it
/// keeps of the whole.
proof fn lemma_filter_of_prefix<A>(all: Seq<A>, keep: spec_fn(A) -> bool, count: int)
    requires
        0 <= count <= all.len(),
    ensures
        all.take(count).filter(keep).len() <= all.filter(keep).len(),
        all.filter(keep).take(all.take(count).filter(keep).len() as int) == all.take(count).filter(
            keep,
        ),
{
    assert(all == all.take(count) + all.skip(count));
    Seq::filter_distributes_over_add(all.take(count), all.skip(count), keep);
    assert(all.filter(keep) == all.take(count).filter(keep) + all.skip(count).filter(keep));
    assert((all.take(count).filter(keep) + all.skip(count).filter(keep)).take(
        all.take(count).filter(keep).len() as int,
    ) =~= all.take(count).filter(keep));
}

} // verus!
