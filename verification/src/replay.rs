//! The replay set of an edit: which messages of a channel history are
//! re-posted, in which order, and what each re-post says.

use crate::interaction::{Error, Fault};
use crate::message::{
    history_view, is_weird, message_is_weird, Author, AuthorView, MessageView, ReplicaMessage,
};
use crate::webhooks::{CachedWebhook, CachedWebhookView};
use vstd::prelude::*;
use vstd::string::StringExecFns;

verus! {

/// How an edit ended, as told to the user.
#[derive(Clone, Copy, Debug, PartialEq, Eq, Structural)]
pub enum ReplicationOutcome {
    /// The target and every message after it were replayed.
    Full,
    /// A weird message cut the replay short; it and everything older was left alone.
    Partial,
    /// The target could not be reached: nothing was replayed.
    NotApplicable,
}

/// One message to send through the channel's webhook.
#[derive(Debug, PartialEq, Eq)]
pub struct Post {
    /// The message that this post stands in for.
    pub message_id: u64,
    /// The author of that message, whose avatar the post wears.
    pub author_id: u64,
    pub username: String,
    pub content: String,
}

/// The mathematical value of a [`Post`].
pub struct PostView {
    pub message_id: u64,
    pub author_id: u64,
    pub username: Seq<char>,
    pub content: Seq<char>,
}

impl View for Post {
    type V = PostView;

    open spec fn view(&self) -> PostView {
        PostView {
            message_id: self.message_id,
            author_id: self.author_id,
            username: self.username@,
            content: self.content@,
        }
    }
}

/// The views of a sequence of posts, post by post.
pub open spec fn posts_view(posts: Seq<Post>) -> Seq<PostView> {
    Seq::new(posts.len(), |i: int| posts[i]@)
}

/// The scan walks the history from the newest message and stops at the first
/// message that is weird or is the target.
pub open spec fn stops_scan(message: MessageView, target: u64) -> bool {
    is_weird(message) || message.id == target
}

/// The index at which a scan that has reached `from` stops: the first index
/// at or after `from` whose message stops the scan, or the history's length.
pub open spec fn stop_from(history: Seq<MessageView>, target: u64, from: int) -> int
    decreases history.len() - from,
{
    if from < 0 || from >= history.len() || stops_scan(history[from], target) {
        from
    } else {
        stop_from(history, target, from + 1)
    }
}

/// Where the scan of a newest-first history stops.
pub open spec fn stop_index(history: Seq<MessageView>, target: u64) -> int {
    stop_from(history, target, 0)
}

/// What the scan of a newest-first history means for the edit.
///
/// The edit is complete when the scan reaches a replicable target. It is
/// partial when a weird message other than the target stops the scan. It does
/// not apply when the target itself is weird or the history ends without it.
pub open spec fn outcome_of(history: Seq<MessageView>, target: u64) -> ReplicationOutcome {
    let stop = stop_index(history, target);
    if stop >= history.len() {
        ReplicationOutcome::NotApplicable
    } else if !is_weird(history[stop]) {
        ReplicationOutcome::Full
    } else if history[stop].id == target {
        ReplicationOutcome::NotApplicable
    } else {
        ReplicationOutcome::Partial
    }
}

/// How many of the newest messages are replayed.
pub open spec fn replay_len(history: Seq<MessageView>, target: u64) -> int {
    match outcome_of(history, target) {
        ReplicationOutcome::Full => stop_index(history, target) + 1,
        ReplicationOutcome::Partial => stop_index(history, target),
        ReplicationOutcome::NotApplicable => 0,
    }
}

/// The replay set of a newest-first history, oldest message first.
pub open spec fn replay_set(history: Seq<MessageView>, target: u64) -> Seq<MessageView> {
    let len = replay_len(history, target);
    Seq::new(len as nat, |i: int| history[len - 1 - i])
}

/// The name a member is shown under: the nickname where one is set.
pub open spec fn display_name(author: AuthorView) -> Seq<char> {
    match author.nick {
        Some(nick) => nick,
        None => author.name,
    }
}

/// The name shown on the edited message.
pub open spec fn edited_name(author: Seq<char>, editor: Seq<char>) -> Seq<char> {
    author + " (edited by "@ + editor + ")"@
}

/// A message's text followed by the URL of each attachment on a line of its own.
pub open spec fn body_of(content: Seq<char>, attachments: Seq<Seq<char>>) -> Seq<char>
    decreases attachments.len(),
{
    if attachments.len() == 0 {
        content
    } else {
        body_of(content, attachments.drop_last()) + "\n"@ + attachments.last()
    }
}

/// The post that stands in for `message`: the target carries the new content
/// and names the editor, any other message is repeated as it was.
pub open spec fn post_of(
    message: MessageView,
    target: u64,
    new_content: Seq<char>,
    editor: Seq<char>,
) -> PostView {
    if message.id == target {
        PostView {
            message_id: message.id,
            author_id: message.author.id,
            username: edited_name(display_name(message.author), editor),
            content: new_content,
        }
    } else {
        PostView {
            message_id: message.id,
            author_id: message.author.id,
            username: display_name(message.author),
            content: body_of(message.content, message.attachments),
        }
    }
}

/// The posts of an edit, in the order in which they are sent.
pub open spec fn posts_of(
    history: Seq<MessageView>,
    target: u64,
    new_content: Seq<char>,
    editor: Seq<char>,
) -> Seq<PostView> {
    let replay = replay_set(history, target);
    Seq::new(replay.len(), |i: int| post_of(replay[i], target, new_content, editor))
}

/// The replication that edits `target` in a newest-first `history`, before
/// anything has been asked of the runtime.
pub open spec fn planned(
    channel_id: u64,
    webhook_channel_id: u64,
    thread_id: Option<u64>,
    history: Seq<MessageView>,
    target: u64,
    new_content: Seq<char>,
    editor: Seq<char>,
) -> ReplicationView {
    ReplicationView {
        channel_id,
        webhook_channel_id,
        thread_id,
        posts: posts_of(history, target, new_content, editor),
        outcome: outcome_of(history, target),
        phase: Phase::Planned,
        sent: 0,
        webhook: None,
    }
}

/// The name under which `author` is shown.
pub fn author_display_name(author: &Author) -> (name: String)
    ensures
        name@ == display_name(author@),
{
    match &author.nick {
        Some(nick) => nick.clone(),
        None => author.name.clone(),
    }
}

/// The name shown on an edited message: the author's, then who edited it.
pub fn edited_username(author: &str, editor: &str) -> (name: String)
    ensures
        name@ == edited_name(author@, editor@),
{
    let mut name = author.to_owned();
    name.append(" (edited by ");
    name.append(editor);
    name.append(")");
    name
}

/// The text that re-posts `message`: its content, then each attachment's URL
/// on a line of its own.
pub fn message_body(message: &ReplicaMessage) -> (body: String)
    ensures
        body@ == body_of(message@.content, message@.attachments),
{
    let mut body = message.content.clone();
    let mut i: usize = 0;
    while i < message.attachments.len()
        invariant
            i <= message.attachments.len(),
            body@ == body_of(message@.content, message@.attachments.take(i as int)),
        decreases message.attachments.len() - i,
    {
        proof {
            let next = message@.attachments.take(i + 1);
            assert(next.drop_last() == message@.attachments.take(i as int));
            assert(next.last() == message.attachments@[i as int]@);
        }
        body.append("\n");
        body.append(message.attachments[i].as_str());
        i = i + 1;
    }
    proof {
        assert(message@.attachments.take(i as int) == message@.attachments);
    }
    body
}

/// Walks a newest-first history and reports where the scan stops.
pub fn scan_history(history: &Vec<ReplicaMessage>, target: u64) -> (stop: usize)
    ensures
        stop as int == stop_index(history_view(history@), target),
        stop <= history.len(),
{
    let ghost view = history_view(history@);
    let mut i: usize = 0;
    while i < history.len() && !(message_is_weird(&history[i]) || history[i].id == target)
        invariant
            i <= history.len(),
            view == history_view(history@),
            stop_from(view, target, i as int) == stop_index(view, target),
        decreases history.len() - i,
    {
        i = i + 1;
    }
    i
}

/// What the scan of `history` means for the edit of `target`.
pub fn replication_outcome(history: &Vec<ReplicaMessage>, target: u64) -> (outcome:
    ReplicationOutcome)
    ensures
        outcome == outcome_of(history_view(history@), target),
{
    let stop = scan_history(history, target);
    if stop >= history.len() {
        ReplicationOutcome::NotApplicable
    } else if !message_is_weird(&history[stop]) {
        ReplicationOutcome::Full
    } else if history[stop].id == target {
        ReplicationOutcome::NotApplicable
    } else {
        ReplicationOutcome::Partial
    }
}

/// The post that stands in for `message` in an edit of `target`.
pub fn build_post(message: &ReplicaMessage, target: u64, new_content: &str, editor: &str) -> (post:
    Post)
    ensures
        post@ == post_of(message@, target, new_content@, editor@),
{
    let name = author_display_name(&message.author);
    if message.id == target {
        Post {
            message_id: message.id,
            author_id: message.author.id,
            username: edited_username(name.as_str(), editor),
            content: new_content.to_owned(),
        }
    } else {
        Post {
            message_id: message.id,
            author_id: message.author.id,
            username: name,
            content: message_body(message),
        }
    }
}

/// The posts of an edit of `target` in a newest-first `history`, in the order
/// in which they are to be sent: oldest first.
pub fn build_posts(history: &Vec<ReplicaMessage>, target: u64, new_content: &str, editor: &str) -> (posts:
    Vec<Post>)
    ensures
        posts_view(posts@) == posts_of(history_view(history@), target, new_content@, editor@),
{
    let ghost view = history_view(history@);
    let stop = scan_history(history, target);
    let len = match replication_outcome(history, target) {
        ReplicationOutcome::Full => stop + 1,
        ReplicationOutcome::Partial => stop,
        ReplicationOutcome::NotApplicable => 0,
    };
    let mut posts: Vec<Post> = Vec::new();
    let mut i: usize = 0;
    while i < len
        invariant
            i <= len <= history.len(),
            len as int == replay_len(view, target),
            view == history_view(history@),
            posts.len() == i,
            forall|j: int|
                0 <= j < i ==> (#[trigger] posts@[j])@ == post_of(
                    view[len - 1 - j],
                    target,
                    new_content@,
                    editor@,
                ),
        decreases len - i,
    {
        let post = build_post(&history[len - 1 - i], target, new_content, editor);
        posts.push(post);
        i = i + 1;
    }
    proof {
        assert(posts_view(posts@) =~= posts_of(view, target, new_content@, editor@));
    }
    posts
}

/// How far a replication has come.
#[derive(Clone, Copy, Debug, PartialEq, Eq, Structural)]
pub enum Phase {
    /// Nothing has been asked of the runtime yet.
    Planned,
    /// The channel's webhook is being acquired.
    Acquiring,
    /// A post is on its way.
    Sending,
    /// Every post has arrived and the originals are being deleted.
    Deleting,
    /// The replication has ended, well or badly.
    Finished,
}

/// What the runtime reports back to a replication.
#[derive(Debug, PartialEq, Eq)]
pub enum Completion {
    /// The replication may start.
    Begin,
    /// The webhook that was asked for.
    Acquired(CachedWebhook),
    /// The post arrived.
    Sent,
    /// The originals are gone.
    Deleted,
    /// The last effect could not be carried out.
    Failed,
}

/// The mathematical value of a [`Completion`].
pub enum CompletionView {
    Begin,
    Acquired(CachedWebhookView),
    Sent,
    Deleted,
    Failed,
}

impl View for Completion {
    type V = CompletionView;

    open spec fn view(&self) -> CompletionView {
        match self {
            Completion::Begin => CompletionView::Begin,
            Completion::Acquired(webhook) => CompletionView::Acquired(webhook@),
            Completion::Sent => CompletionView::Sent,
            Completion::Deleted => CompletionView::Deleted,
            Completion::Failed => CompletionView::Failed,
        }
    }
}

/// What a replication asks the runtime to do next.
#[derive(Debug, PartialEq, Eq)]
pub enum Effect {
    /// Acquire the webhook of this channel.
    Acquire { channel_id: u64 },
    /// Send this post through the webhook, into the thread if one is given.
    Send { webhook: CachedWebhook, thread_id: Option<u64>, post: Post },
    /// Delete one message of the channel.
    DeleteMessage { channel_id: u64, message_id: u64 },
    /// Delete these messages of the channel in one call.
    DeleteMessages { channel_id: u64, message_ids: Vec<u64> },
    /// The replication is over, with this outcome.
    Done(ReplicationOutcome),
    /// The replication is over, with this error.
    Failed(Error),
    /// The replication was over before: there is nothing to do.
    Idle,
}

/// The mathematical value of an [`Effect`].
pub enum EffectView {
    Acquire { channel_id: u64 },
    Send { webhook: CachedWebhookView, thread_id: Option<u64>, post: PostView },
    DeleteMessage { channel_id: u64, message_id: u64 },
    DeleteMessages { channel_id: u64, message_ids: Seq<u64> },
    Done(ReplicationOutcome),
    Failed(Error),
    Idle,
}

impl View for Effect {
    type V = EffectView;

    open spec fn view(&self) -> EffectView {
        match self {
            Effect::Acquire { channel_id } => EffectView::Acquire { channel_id: *channel_id },
            Effect::Send { webhook, thread_id, post } => EffectView::Send {
                webhook: webhook@,
                thread_id: *thread_id,
                post: post@,
            },
            Effect::DeleteMessage { channel_id, message_id } => EffectView::DeleteMessage {
                channel_id: *channel_id,
                message_id: *message_id,
            },
            Effect::DeleteMessages { channel_id, message_ids } => EffectView::DeleteMessages {
                channel_id: *channel_id,
                message_ids: message_ids@,
            },
            Effect::Done(outcome) => EffectView::Done(*outcome),
            Effect::Failed(error) => EffectView::Failed(*error),
            Effect::Idle => EffectView::Idle,
        }
    }
}

/// One edit in progress: the posts to send, how many have arrived, and what
/// is to be told when all is done.
pub struct Replication {
    channel_id: u64,
    webhook_channel_id: u64,
    thread_id: Option<u64>,
    posts: Vec<Post>,
    outcome: ReplicationOutcome,
    phase: Phase,
    sent: usize,
    webhook: Option<CachedWebhook>,
}

/// The mathematical value of a [`Replication`].
pub struct ReplicationView {
    /// The channel that holds the messages: posts replace and deletions remove them there.
    pub channel_id: u64,
    /// The channel that owns the webhook: the parent where the messages' channel is a thread.
    pub webhook_channel_id: u64,
    /// The thread to post into, where the messages' channel is one.
    pub thread_id: Option<u64>,
    /// The posts, oldest first.
    pub posts: Seq<PostView>,
    pub outcome: ReplicationOutcome,
    pub phase: Phase,
    /// How many posts have arrived.
    pub sent: nat,
    pub webhook: Option<CachedWebhookView>,
}

impl ReplicationView {
    /// What holds of every replication: posts are in flight or awaited only
    /// where there are posts, and a post in flight is one of them and has a
    /// webhook to go through.
    pub open spec fn wf(self) -> bool {
        &&& self.sent <= self.posts.len()
        &&& self.phase == Phase::Acquiring ==> self.posts.len() > 0
        &&& self.phase == Phase::Sending ==> self.sent < self.posts.len() && self.webhook is Some
        &&& self.phase == Phase::Deleting ==> self.posts.len() > 0
    }

    /// The ids of the messages that the posts stand in for, oldest first.
    pub open spec fn message_ids(self) -> Seq<u64> {
        Seq::new(self.posts.len(), |i: int| self.posts[i].message_id)
    }

    /// The call that removes the originals: a single deletion for one
    /// message, one bulk deletion for more.
    pub open spec fn deletion(self) -> EffectView {
        if self.posts.len() == 1 {
            EffectView::DeleteMessage {
                channel_id: self.channel_id,
                message_id: self.posts[0].message_id,
            }
        } else {
            EffectView::DeleteMessages {
                channel_id: self.channel_id,
                message_ids: self.message_ids(),
            }
        }
    }

    /// The call that sends the post at `index`.
    pub open spec fn send(self, index: int) -> EffectView {
        EffectView::Send {
            webhook: self.webhook.unwrap(),
            thread_id: self.thread_id,
            post: self.posts[index],
        }
    }

    /// This replication, ended.
    pub open spec fn finished(self) -> ReplicationView {
        ReplicationView { phase: Phase::Finished, ..self }
    }

    /// What follows once `sent` posts have arrived: the next post, or the
    /// deletion of the originals when none is left.
    pub open spec fn proceed(self, sent: nat) -> (ReplicationView, EffectView) {
        if sent < self.posts.len() {
            (ReplicationView { phase: Phase::Sending, sent, ..self }, self.send(sent as int))
        } else {
            (ReplicationView { phase: Phase::Deleting, sent, ..self }, self.deletion())
        }
    }

    /// The replication's transition: the state and the effect that follow
    /// when the runtime reports `completion`.
    ///
    /// Posts come before the deletion, so a failure while posting leaves the
    /// originals in place; any failure ends the replication at once.
    pub open spec fn step(self, completion: CompletionView) -> (ReplicationView, EffectView) {
        match self.phase {
            Phase::Planned => if self.posts.len() == 0 {
                (self.finished(), EffectView::Done(self.outcome))
            } else {
                (
                    ReplicationView { phase: Phase::Acquiring, ..self },
                    EffectView::Acquire { channel_id: self.webhook_channel_id },
                )
            },
            Phase::Acquiring => match completion {
                CompletionView::Acquired(webhook) => ReplicationView {
                    webhook: Some(webhook),
                    ..self
                }.proceed(0),
                _ => (self.finished(), EffectView::Failed(Error::ResourceUnavailable)),
            },
            Phase::Sending => match completion {
                CompletionView::Sent => self.proceed(self.sent + 1),
                _ => (self.finished(), EffectView::Failed(Error::Unrecognized(Fault::Transport))),
            },
            Phase::Deleting => match completion {
                CompletionView::Deleted => (self.finished(), EffectView::Done(self.outcome)),
                _ => (self.finished(), EffectView::Failed(Error::Unrecognized(Fault::Transport))),
            },
            Phase::Finished => (self, EffectView::Idle),
        }
    }
}

impl View for Replication {
    type V = ReplicationView;

    closed spec fn view(&self) -> ReplicationView {
        ReplicationView {
            channel_id: self.channel_id,
            webhook_channel_id: self.webhook_channel_id,
            thread_id: self.thread_id,
            posts: posts_view(self.posts@),
            outcome: self.outcome,
            phase: self.phase,
            sent: self.sent as nat,
            webhook: match self.webhook {
                Some(webhook) => Some(webhook@),
                None => None,
            },
        }
    }
}

fn copy_post(post: &Post) -> (copy: Post)
    ensures
        copy@ == post@,
{
    Post {
        message_id: post.message_id,
        author_id: post.author_id,
        username: post.username.clone(),
        content: post.content.clone(),
    }
}

impl Replication {
    #[verifier::type_invariant]
    spec fn well_formed(self) -> bool {
        self@.wf()
    }

    /// Plans the edit of `target` in a newest-first `history`.
    ///
    /// `channel_id` is where the messages are; `webhook_channel_id` and
    /// `thread_id` say where to post. Nothing has been asked of the runtime
    /// yet: the first call of [`Replication::advance`] starts the work.
    pub fn plan(
        channel_id: u64,
        webhook_channel_id: u64,
        thread_id: Option<u64>,
        history: &Vec<ReplicaMessage>,
        target: u64,
        new_content: &str,
        editor: &str,
    ) -> (replication: Replication)
        ensures
            replication@ == planned(
                channel_id,
                webhook_channel_id,
                thread_id,
                history_view(history@),
                target,
                new_content@,
                editor@,
            ),
            replication@.wf(),
    {
        let posts = build_posts(history, target, new_content, editor);
        let outcome = replication_outcome(history, target);
        Replication {
            channel_id,
            webhook_channel_id,
            thread_id,
            posts,
            outcome,
            phase: Phase::Planned,
            sent: 0,
            webhook: None,
        }
    }

    /// The outcome that is reported if every remote call succeeds.
    pub fn outcome(&self) -> (outcome: ReplicationOutcome)
        ensures
            outcome == self@.outcome,
    {
        self.outcome
    }

    /// How far the replication has come.
    pub fn phase(&self) -> (phase: Phase)
        ensures
            phase == self@.phase,
    {
        self.phase
    }

    fn message_ids(&self) -> (ids: Vec<u64>)
        ensures
            ids@ == self@.message_ids(),
    {
        let mut ids: Vec<u64> = Vec::new();
        let mut i: usize = 0;
        while i < self.posts.len()
            invariant
                i <= self.posts.len(),
                ids.len() == i,
                forall|j: int| 0 <= j < i ==> ids@[j] == (#[trigger] self.posts@[j]).message_id,
            decreases self.posts.len() - i,
        {
            ids.push(self.posts[i].message_id);
            i = i + 1;
        }
        proof {
            assert(ids@ =~= self@.message_ids());
        }
        ids
    }

    fn proceed(&mut self, sent: usize) -> (effect: Effect)
        requires
            sent <= old(self)@.posts.len(),
            old(self)@.posts.len() > 0,
            old(self)@.webhook is Some,
        ensures
            (final(self)@, effect@) == old(self)@.proceed(sent as nat),
    {
        proof {
            use_type_invariant(&*self);
        }
        if sent < self.posts.len() {
            let cached = self.webhook.as_ref().unwrap();
            let webhook = CachedWebhook { id: cached.id, token: cached.token.clone() };
            let post = copy_post(&self.posts[sent]);
            self.sent = sent;
            self.phase = Phase::Sending;
            Effect::Send { webhook, thread_id: self.thread_id, post }
        } else {
            let effect = if self.posts.len() == 1 {
                Effect::DeleteMessage {
                    channel_id: self.channel_id,
                    message_id: self.posts[0].message_id,
                }
            } else {
                Effect::DeleteMessages {
                    channel_id: self.channel_id,
                    message_ids: self.message_ids(),
                }
            };
            self.phase = Phase::Deleting;
            self.sent = sent;
            effect
        }
    }

    /// Takes the runtime's report on the last effect and says what to do next.
    pub fn advance(&mut self, completion: Completion) -> (effect: Effect)
        ensures
            (final(self)@, effect@) == old(self)@.step(completion@),
            final(self)@.wf(),
    {
        proof {
            use_type_invariant(&*self);
        }
        match self.phase {
            Phase::Planned => {
                if self.posts.len() == 0 {
                    self.phase = Phase::Finished;
                    Effect::Done(self.outcome)
                } else {
                    self.phase = Phase::Acquiring;
                    Effect::Acquire { channel_id: self.webhook_channel_id }
                }
            },
            Phase::Acquiring => match completion {
                Completion::Acquired(webhook) => {
                    self.webhook = Some(webhook);
                    self.proceed(0)
                },
                _ => {
                    self.phase = Phase::Finished;
                    Effect::Failed(Error::ResourceUnavailable)
                },
            },
            Phase::Sending => match completion {
                Completion::Sent => {
                    assert(self@.phase == Phase::Sending && self@.wf());
                    assert(self.sent < self.posts.len());
                    let sent = self.sent + 1;
                    self.proceed(sent)
                },
                _ => {
                    self.phase = Phase::Finished;
                    Effect::Failed(Error::Unrecognized(Fault::Transport))
                },
            },
            Phase::Deleting => match completion {
                Completion::Deleted => {
                    self.phase = Phase::Finished;
                    Effect::Done(self.outcome)
                },
                _ => {
                    self.phase = Phase::Finished;
                    Effect::Failed(Error::Unrecognized(Fault::Transport))
                },
            },
            Phase::Finished => Effect::Idle,
        }
    }
}

/// The state of a replication once the runtime has reported the first `count`
/// of `completions`.
pub open spec fn state_after(
    start: ReplicationView,
    completions: Seq<CompletionView>,
    count: nat,
) -> ReplicationView
    decreases count,
{
    if count == 0 {
        start
    } else {
        state_after(start, completions, (count - 1) as nat).step(completions[count - 1]).0
    }
}

/// The effect that a replication asks for in answer to the completion at `index`.
pub open spec fn effect_at(
    start: ReplicationView,
    completions: Seq<CompletionView>,
    index: nat,
) -> EffectView {
    state_after(start, completions, index).step(completions[index as int]).1
}

/// The reports of a runtime for which every call succeeds, for a replication
/// of `posts` posts: the start, the webhook, one arrival per post, the deletion.
pub open spec fn successes(posts: nat, webhook: CachedWebhookView) -> Seq<CompletionView> {
    Seq::new(
        posts + 3,
        |i: int|
            if i == 0 {
                CompletionView::Begin
            } else if i == 1 {
                CompletionView::Acquired(webhook)
            } else if i < posts + 2 {
                CompletionView::Sent
            } else {
                CompletionView::Deleted
            },
    )
}

/// A replication moves in lockstep with the reports it gets: until it has
/// ended, its phase and the number of posts that have arrived are fixed by
/// the number of reports alone, and its plan never changes.
pub proof fn lemma_replication_in_lockstep(
    start: ReplicationView,
    completions: Seq<CompletionView>,
    count: nat,
)
    requires
        start.wf(),
        start.phase == Phase::Planned,
        count <= completions.len(),
    ensures
        ({
            let state = state_after(start, completions, count);
            &&& state.wf()
            &&& state.posts == start.posts
            &&& state.outcome == start.outcome
            &&& state.channel_id == start.channel_id
            &&& state.webhook_channel_id == start.webhook_channel_id
            &&& state.thread_id == start.thread_id
            &&& match state.phase {
                Phase::Planned => count == 0,
                Phase::Acquiring => count == 1,
                Phase::Sending => 2 <= count <= start.posts.len() + 1 && state.sent == count - 2
                    && completions[1] == CompletionView::Acquired(state.webhook.unwrap()),
                Phase::Deleting => count == start.posts.len() + 2,
                Phase::Finished => true,
            }
        }),
    decreases count,
{
    if count > 0 {
        lemma_replication_in_lockstep(start, completions, (count - 1) as nat);
    }
}

/// In every run of a replication, whatever fails and whenever: the webhook
/// is asked for first; the post sent in answer to report `i` is post `i - 1`
/// of the plan, so posts go out oldest first, none twice and none skipped; the
/// originals are deleted only in answer to the report that the last post
/// arrived, by a single deletion where there is one message and by one bulk
/// deletion of all of them where there are more, never by both.
pub proof fn lemma_replication_order(
    start: ReplicationView,
    completions: Seq<CompletionView>,
    index: nat,
)
    requires
        start.wf(),
        start.phase == Phase::Planned,
        index < completions.len(),
    ensures
        match effect_at(start, completions, index) {
            EffectView::Acquire { channel_id } => index == 0 && channel_id
                == start.webhook_channel_id,
            EffectView::Send { webhook, thread_id, post } => {
                &&& 1 <= index <= start.posts.len()
                &&& post == start.posts[index - 1]
                &&& thread_id == start.thread_id
                &&& completions[1] == CompletionView::Acquired(webhook)
            },
            EffectView::DeleteMessage { channel_id, message_id } => {
                &&& index == start.posts.len() + 1
                &&& start.posts.len() == 1
                &&& channel_id == start.channel_id
                &&& message_id == start.posts[0].message_id
            },
            EffectView::DeleteMessages { channel_id, message_ids } => {
                &&& index == start.posts.len() + 1
                &&& start.posts.len() > 1
                &&& channel_id == start.channel_id
                &&& message_ids == start.message_ids()
            },
            EffectView::Done(outcome) => {
                &&& outcome == start.outcome
                &&& index == start.posts.len() + 2 || (index == 0 && start.posts.len() == 0)
            },
            EffectView::Failed(_) => index >= 1,
            EffectView::Idle => index >= 1,
        },
{
    lemma_replication_in_lockstep(start, completions, index);
    let state = state_after(start, completions, index);
    assert(state.message_ids() == start.message_ids());
}

/// When every remote call succeeds, a replication with posts asks for the
/// webhook, sends every post of its plan in order, deletes the originals in
/// one call and reports its outcome.
pub proof fn lemma_replication_succeeds(start: ReplicationView, webhook: CachedWebhookView)
    requires
        start.wf(),
        start.phase == Phase::Planned,
        start.posts.len() > 0,
    ensures
        ({
            let run = successes(start.posts.len(), webhook);
            let posts = start.posts.len();
            &&& effect_at(start, run, 0) == EffectView::Acquire {
                channel_id: start.webhook_channel_id,
            }
            &&& forall|i: nat|
                i < posts ==> #[trigger] effect_at(start, run, i + 1) == (EffectView::Send {
                    webhook,
                    thread_id: start.thread_id,
                    post: start.posts[i as int],
                })
            &&& effect_at(start, run, posts + 1) == start.deletion()
            &&& effect_at(start, run, posts + 2) == EffectView::Done(start.outcome)
            &&& state_after(start, run, posts + 3).phase == Phase::Finished
        }),
{
    let run = successes(start.posts.len(), webhook);
    let posts = start.posts.len();
    assert forall|count: nat| 2 <= count <= posts + 1 implies ({
        let state = #[trigger] state_after(start, run, count);
        state.phase == Phase::Sending && state.webhook == Some(webhook)
    }) by {
        lemma_successes_keep_sending(start, webhook, count);
    }
    lemma_replication_in_lockstep(start, run, 0);
    assert forall|i: nat| i < posts implies #[trigger] effect_at(start, run, i + 1) == (
    EffectView::Send { webhook, thread_id: start.thread_id, post: start.posts[i as int] }) by {
        lemma_replication_in_lockstep(start, run, i + 1);
        if i > 0 {
            let before = state_after(start, run, i + 1);
            assert(before.phase == Phase::Sending);
        } else {
            assert(state_after(start, run, 1) == state_after(start, run, 0).step(run[0]).0);
        }
    }
    lemma_replication_in_lockstep(start, run, posts + 1);
    let last = state_after(start, run, posts + 1);
    assert(last.phase == Phase::Sending);
    assert(last.deletion() == start.deletion()) by {
        assert(last.message_ids() == start.message_ids());
    }
    lemma_replication_in_lockstep(start, run, posts + 2);
    assert(state_after(start, run, posts + 2) == last.step(run[posts as int + 1]).0);
    assert(state_after(start, run, posts + 3) == state_after(start, run, posts + 2).step(
        run[posts as int + 2],
    ).0);
}

proof fn lemma_successes_keep_sending(start: ReplicationView, webhook: CachedWebhookView, count: nat)
    requires
        start.wf(),
        start.phase == Phase::Planned,
        2 <= count <= start.posts.len() + 1,
    ensures
        state_after(start, successes(start.posts.len(), webhook), count).phase == Phase::Sending,
        state_after(start, successes(start.posts.len(), webhook), count).webhook == Some(webhook),
    decreases count,
{
    let run = successes(start.posts.len(), webhook);
    lemma_replication_in_lockstep(start, run, (count - 1) as nat);
    if count > 2 {
        lemma_successes_keep_sending(start, webhook, (count - 1) as nat);
    } else {
        assert(state_after(start, run, 1) == state_after(start, run, 0).step(run[0]).0);
        assert(state_after(start, run, 0) == start);
    }
}

/// Where a scan stops: at or after where it stands, at the first message
/// from there on that is weird or is the target, past none that is neither.
pub proof fn lemma_scan_stops_at_first(history: Seq<MessageView>, target: u64, from: int)
    requires
        0 <= from <= history.len(),
    ensures
        from <= stop_from(history, target, from) <= history.len(),
        forall|i: int|
            from <= i < stop_from(history, target, from) ==> !stops_scan(
                #[trigger] history[i],
                target,
            ),
        stop_from(history, target, from) < history.len() ==> stops_scan(
            history[stop_from(history, target, from)],
            target,
        ),
    decreases history.len() - from,
{
    if from < history.len() && !stops_scan(history[from], target) {
        lemma_scan_stops_at_first(history, target, from + 1);
    }
}

/// The replay set of a newest-first history is the window of its newest
/// messages that ends at the newest one, holds no weird message and starts no
/// earlier than the target, in the order in which the messages were sent.
///
/// The window holds the target exactly when the edit is complete, and then
/// the target comes first. Where the edit applies at all, the window is as
/// long as it can be: what lies just before it is a weird message, or the
/// window starts with the target, or the history ends there. Where the edit
/// does not apply, nothing is replayed.
pub proof fn lemma_replay_set_is_newest_replicable_window(history: Seq<MessageView>, target: u64)
    ensures
        ({
            let replay = replay_set(history, target);
            let outcome = outcome_of(history, target);
            let len = replay.len() as int;
            &&& len <= history.len()
            &&& forall|i: int| 0 <= i < len ==> #[trigger] replay[i] == history[len - 1 - i]
            &&& forall|i: int| 0 <= i < len ==> !is_weird(#[trigger] replay[i])
            &&& forall|i: int| 0 < i < len ==> (#[trigger] replay[i]).id != target
            &&& outcome == ReplicationOutcome::Full <==> len > 0 && replay[0].id == target
            &&& outcome == ReplicationOutcome::Partial ==> len < history.len() && is_weird(
                history[len],
            )
            &&& outcome == ReplicationOutcome::NotApplicable ==> len == 0
        }),
{
    lemma_scan_stops_at_first(history, target, 0);
}

/// The posts of an edit are the posts of its replay set, one for one and in
/// its order; only the target's post carries the new content and the editor.
pub proof fn lemma_posts_follow_replay_set(
    history: Seq<MessageView>,
    target: u64,
    new_content: Seq<char>,
    editor: Seq<char>,
)
    ensures
        ({
            let posts = posts_of(history, target, new_content, editor);
            let replay = replay_set(history, target);
            &&& posts.len() == replay.len()
            &&& forall|i: int|
                0 <= i < posts.len() ==> (#[trigger] posts[i]).message_id == replay[i].id
            &&& forall|i: int|
                0 < i < posts.len() ==> (#[trigger] posts[i]).content == body_of(
                    replay[i].content,
                    replay[i].attachments,
                ) && posts[i].username == display_name(replay[i].author)
            &&& outcome_of(history, target) == ReplicationOutcome::Full ==> posts[0].content
                == new_content && posts[0].username == edited_name(
                display_name(replay[0].author),
                editor,
            )
        }),
{
    lemma_replay_set_is_newest_replicable_window(history, target);
}

/// When every remote call succeeds, the posts that go out for an edit that
/// applies are the posts of the replicable window of the history, oldest
/// first: post number `i` stands in for the message `i` places after the
/// window's oldest.
pub proof fn lemma_reposts_equal_replicable_window(
    channel_id: u64,
    webhook_channel_id: u64,
    thread_id: Option<u64>,
    history: Seq<MessageView>,
    target: u64,
    new_content: Seq<char>,
    editor: Seq<char>,
    webhook: CachedWebhookView,
)
    requires
        outcome_of(history, target) != ReplicationOutcome::NotApplicable,
    ensures
        ({
            let start = planned(
                channel_id,
                webhook_channel_id,
                thread_id,
                history,
                target,
                new_content,
                editor,
            );
            let len = replay_len(history, target);
            let run = successes(len as nat, webhook);
            forall|i: nat|
                i < len ==> #[trigger] effect_at(start, run, i + 1) == (EffectView::Send {
                    webhook,
                    thread_id,
                    post: post_of(history[len - 1 - i], target, new_content, editor),
                })
        }),
{
    let start = planned(
        channel_id,
        webhook_channel_id,
        thread_id,
        history,
        target,
        new_content,
        editor,
    );
    lemma_scan_stops_at_first(history, target, 0);
    if replay_len(history, target) > 0 {
        lemma_replication_succeeds(start, webhook);
    }
}

/// The ids of the messages of the replay set, oldest first.
pub open spec fn replay_ids(history: Seq<MessageView>, target: u64) -> Seq<u64> {
    Seq::new(replay_set(history, target).len(), |i: int| replay_set(history, target)[i].id)
}

/// Whatever happens in the run of an edit, the messages outside its replay
/// set are left alone: every post stands in for a message of the replay set,
/// and a deletion names the messages of the replay set, in the channel that
/// holds them, and no others.
pub proof fn lemma_skipped_messages_are_left_alone(
    channel_id: u64,
    webhook_channel_id: u64,
    thread_id: Option<u64>,
    history: Seq<MessageView>,
    target: u64,
    new_content: Seq<char>,
    editor: Seq<char>,
    completions: Seq<CompletionView>,
    index: nat,
)
    requires
        index < completions.len(),
    ensures
        match effect_at(
            planned(
                channel_id,
                webhook_channel_id,
                thread_id,
                history,
                target,
                new_content,
                editor,
            ),
            completions,
            index,
        ) {
            EffectView::Send { webhook, thread_id, post } => replay_ids(history, target).contains(
                post.message_id,
            ),
            EffectView::DeleteMessage { channel_id: channel, message_id } => channel == channel_id
                && replay_ids(history, target) == seq![message_id],
            EffectView::DeleteMessages { channel_id: channel, message_ids } => channel
                == channel_id && replay_ids(history, target) == message_ids,
            _ => true,
        },
{
    let start = planned(
        channel_id,
        webhook_channel_id,
        thread_id,
        history,
        target,
        new_content,
        editor,
    );
    lemma_replication_order(start, completions, index);
    lemma_posts_follow_replay_set(history, target, new_content, editor);
    let ids = replay_ids(history, target);
    assert(start.message_ids() == ids);
    match effect_at(start, completions, index) {
        EffectView::Send { webhook, thread_id, post } => {
            assert(ids[index - 1] == post.message_id);
        },
        EffectView::DeleteMessage { channel_id: channel, message_id } => {
            assert(ids == seq![message_id]);
        },
        _ => {},
    }
}

} // verus!
