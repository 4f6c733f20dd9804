use message_editor::interaction::{Error, Fault};
use message_editor::message::{Author, MessageKind, ReplicaMessage};
use message_editor::replay::{
    author_display_name, build_post, build_posts, edited_username, message_body,
    replication_outcome, scan_history, Completion, Effect, Phase, Post, Replication,
    ReplicationOutcome,
};
use message_editor::webhooks::CachedWebhook;

fn message(id: u64, author: u64, name: &str, text: &str) -> ReplicaMessage {
    ReplicaMessage {
        id,
        author: Author { id: author, name: name.to_owned(), nick: None, bot: false },
        content: text.to_owned(),
        attachments: Vec::new(),
        kind: MessageKind::Regular,
        pinned: false,
        has_activity: false,
        has_application: false,
        has_application_id: false,
        has_components: false,
        has_embeds: false,
        has_interaction: false,
        has_reactions: false,
        has_stickers: false,
        from_webhook: false,
    }
}

fn reacted(id: u64, author: u64, name: &str, text: &str) -> ReplicaMessage {
    let mut weird = message(id, author, name, text);
    weird.has_reactions = true;
    weird
}

fn hook() -> CachedWebhook {
    CachedWebhook { id: 900, token: "secret".to_owned() }
}

fn post(message_id: u64, author_id: u64, username: &str, content: &str) -> Post {
    Post { message_id, author_id, username: username.to_owned(), content: content.to_owned() }
}

fn send(webhook: CachedWebhook, thread_id: Option<u64>, post: Post) -> Effect {
    Effect::Send { webhook, thread_id, post }
}

/// Runs a replication with a runtime for which everything succeeds.
fn run_to_end(replication: &mut Replication) -> Vec<Effect> {
    let mut effects = Vec::new();
    let mut report = Completion::Begin;
    for _ in 0..200 {
        let effect = replication.advance(report);
        report = match &effect {
            Effect::Acquire { .. } => Completion::Acquired(hook()),
            Effect::Send { .. } => Completion::Sent,
            Effect::DeleteMessage { .. } | Effect::DeleteMessages { .. } => Completion::Deleted,
            Effect::Done(_) | Effect::Failed(_) | Effect::Idle => {
                effects.push(effect);
                return effects;
            }
        };
        effects.push(effect);
    }
    panic!("the replication did not end");
}

#[test]
fn two_messages_are_reposted_in_order_then_deleted_together() {
    // oldest first the channel holds m1 by U1 and m2 by U2; the history is newest first
    let history = vec![message(2, 20, "U2", "yo"), message(1, 10, "U1", "hi")];
    let mut replication = Replication::plan(50, 50, None, &history, 1, "hello", "mod");
    assert_eq!(replication.outcome(), ReplicationOutcome::Full);
    let effects = run_to_end(&mut replication);
    assert_eq!(
        effects,
        vec![
            Effect::Acquire { channel_id: 50 },
            send(hook(), None, post(1, 10, "U1 (edited by mod)", "hello")),
            send(hook(), None, post(2, 20, "U2", "yo")),
            Effect::DeleteMessages { channel_id: 50, message_ids: vec![1, 2] },
            Effect::Done(ReplicationOutcome::Full),
        ]
    );
    assert_eq!(replication.phase(), Phase::Finished);
}

#[test]
fn one_message_is_deleted_by_a_single_delete() {
    let history = vec![message(1, 10, "U1", "hi")];
    let mut replication = Replication::plan(50, 50, None, &history, 1, "hello", "mod");
    let effects = run_to_end(&mut replication);
    assert_eq!(
        effects,
        vec![
            Effect::Acquire { channel_id: 50 },
            send(hook(), None, post(1, 10, "U1 (edited by mod)", "hello")),
            Effect::DeleteMessage { channel_id: 50, message_id: 1 },
            Effect::Done(ReplicationOutcome::Full),
        ]
    );
    let singles = effects.iter().filter(|e| matches!(e, Effect::DeleteMessage { .. })).count();
    let batches = effects.iter().filter(|e| matches!(e, Effect::DeleteMessages { .. })).count();
    assert_eq!((singles, batches), (1, 0));
}

#[test]
fn several_messages_are_deleted_by_one_batch_delete() {
    let history = vec![
        message(3, 30, "U3", "c"),
        message(2, 20, "U2", "b"),
        message(1, 10, "U1", "a"),
    ];
    let mut replication = Replication::plan(50, 50, None, &history, 1, "A", "mod");
    let effects = run_to_end(&mut replication);
    let singles = effects.iter().filter(|e| matches!(e, Effect::DeleteMessage { .. })).count();
    let batches: Vec<&Effect> =
        effects.iter().filter(|e| matches!(e, Effect::DeleteMessages { .. })).collect();
    assert_eq!(singles, 0);
    assert_eq!(batches, vec![&Effect::DeleteMessages { channel_id: 50, message_ids: vec![1, 2, 3] }]);
}

#[test]
fn reposts_follow_the_order_in_which_messages_were_sent() {
    let history = vec![
        message(5, 10, "U1", "e"),
        message(4, 20, "U2", "d"),
        message(3, 10, "U1", "c"),
        message(2, 30, "U3", "b"),
        message(1, 10, "U1", "a"),
    ];
    // the target is in the middle: what is older than it stays out
    let mut replication = Replication::plan(50, 50, None, &history, 3, "C", "mod");
    let effects = run_to_end(&mut replication);
    let sent: Vec<u64> = effects
        .iter()
        .filter_map(|e| match e {
            Effect::Send { post, .. } => Some(post.message_id),
            _ => None,
        })
        .collect();
    assert_eq!(sent, vec![3, 4, 5]);
    assert_eq!(effects[4], Effect::DeleteMessages { channel_id: 50, message_ids: vec![3, 4, 5] });
}

#[test]
fn weird_target_is_not_applicable() {
    let history = vec![message(2, 20, "U2", "yo"), reacted(1, 10, "U1", "hi")];
    assert_eq!(replication_outcome(&history, 1), ReplicationOutcome::NotApplicable);
    assert!(build_posts(&history, 1, "hello", "mod").is_empty());
    let mut replication = Replication::plan(50, 50, None, &history, 1, "hello", "mod");
    assert_eq!(run_to_end(&mut replication), vec![Effect::Done(ReplicationOutcome::NotApplicable)]);
}

#[test]
fn later_weird_message_truncates_the_replay() {
    let history = vec![
        message(4, 20, "U2", "d"),
        message(3, 10, "U1", "c"),
        reacted(2, 20, "U2", "b"),
        message(1, 10, "U1", "a"),
    ];
    assert_eq!(scan_history(&history, 1), 2);
    assert_eq!(replication_outcome(&history, 1), ReplicationOutcome::Partial);
    let mut replication = Replication::plan(50, 50, None, &history, 1, "A", "mod");
    let effects = run_to_end(&mut replication);
    assert_eq!(
        effects,
        vec![
            Effect::Acquire { channel_id: 50 },
            send(hook(), None, post(3, 10, "U1", "c")),
            send(hook(), None, post(4, 20, "U2", "d")),
            Effect::DeleteMessages { channel_id: 50, message_ids: vec![3, 4] },
            Effect::Done(ReplicationOutcome::Partial),
        ]
    );
}

#[test]
fn weird_newest_message_leaves_nothing_to_replay() {
    let history = vec![reacted(2, 20, "U2", "b"), message(1, 10, "U1", "a")];
    let mut replication = Replication::plan(50, 50, None, &history, 1, "A", "mod");
    assert_eq!(run_to_end(&mut replication), vec![Effect::Done(ReplicationOutcome::Partial)]);
}

#[test]
fn unknown_target_is_not_applicable() {
    let history = vec![message(2, 20, "U2", "yo"), message(1, 10, "U1", "hi")];
    assert_eq!(scan_history(&history, 77), 2);
    assert_eq!(replication_outcome(&history, 77), ReplicationOutcome::NotApplicable);
    let mut replication = Replication::plan(50, 50, None, &history, 77, "hello", "mod");
    assert_eq!(run_to_end(&mut replication), vec![Effect::Done(ReplicationOutcome::NotApplicable)]);
}

#[test]
fn empty_history_is_not_applicable() {
    let history: Vec<ReplicaMessage> = Vec::new();
    assert_eq!(scan_history(&history, 1), 0);
    assert_eq!(replication_outcome(&history, 1), ReplicationOutcome::NotApplicable);
    assert!(build_posts(&history, 1, "x", "mod").is_empty());
}

#[test]
fn newest_message_as_target_is_replayed_alone() {
    let history = vec![message(2, 20, "U2", "yo"), message(1, 10, "U1", "hi")];
    assert_eq!(scan_history(&history, 2), 0);
    let posts = build_posts(&history, 2, "yo!", "mod");
    assert_eq!(posts, vec![post(2, 20, "U2 (edited by mod)", "yo!")]);
}

#[test]
fn thread_posts_go_through_the_parent_into_the_thread() {
    let history = vec![message(2, 20, "U2", "yo"), message(1, 10, "U1", "hi")];
    let mut replication = Replication::plan(61, 60, Some(61), &history, 1, "hello", "mod");
    let effects = run_to_end(&mut replication);
    assert_eq!(effects[0], Effect::Acquire { channel_id: 60 });
    assert_eq!(effects[1], send(hook(), Some(61), post(1, 10, "U1 (edited by mod)", "hello")));
    assert_eq!(effects[2], send(hook(), Some(61), post(2, 20, "U2", "yo")));
    assert_eq!(effects[3], Effect::DeleteMessages { channel_id: 61, message_ids: vec![1, 2] });
}

#[test]
fn failed_acquisition_ends_the_replication_before_any_post() {
    let history = vec![message(2, 20, "U2", "yo"), message(1, 10, "U1", "hi")];
    let mut replication = Replication::plan(50, 50, None, &history, 1, "hello", "mod");
    assert_eq!(replication.advance(Completion::Begin), Effect::Acquire { channel_id: 50 });
    assert_eq!(replication.phase(), Phase::Acquiring);
    assert_eq!(replication.advance(Completion::Failed), Effect::Failed(Error::ResourceUnavailable));
    assert_eq!(replication.phase(), Phase::Finished);
    assert_eq!(replication.advance(Completion::Sent), Effect::Idle);
    assert_eq!(replication.advance(Completion::Deleted), Effect::Idle);
}

#[test]
fn failed_post_leaves_the_originals_in_place() {
    let history = vec![
        message(3, 30, "U3", "c"),
        message(2, 20, "U2", "b"),
        message(1, 10, "U1", "a"),
    ];
    let mut replication = Replication::plan(50, 50, None, &history, 1, "A", "mod");
    let mut effects = vec![
        replication.advance(Completion::Begin),
        replication.advance(Completion::Acquired(hook())),
        replication.advance(Completion::Sent),
        replication.advance(Completion::Failed),
        replication.advance(Completion::Sent),
        replication.advance(Completion::Deleted),
    ];
    assert_eq!(effects[3], Effect::Failed(Error::Unrecognized(Fault::Transport)));
    assert_eq!(effects.split_off(4), vec![Effect::Idle, Effect::Idle]);
    assert!(!effects
        .iter()
        .any(|e| matches!(e, Effect::DeleteMessage { .. } | Effect::DeleteMessages { .. })));
}

#[test]
fn failed_deletion_is_an_error_after_every_post_went_out() {
    let history = vec![message(2, 20, "U2", "yo"), message(1, 10, "U1", "hi")];
    let mut replication = Replication::plan(50, 50, None, &history, 1, "hello", "mod");
    replication.advance(Completion::Begin);
    replication.advance(Completion::Acquired(hook()));
    replication.advance(Completion::Sent);
    let deletion = replication.advance(Completion::Sent);
    assert_eq!(deletion, Effect::DeleteMessages { channel_id: 50, message_ids: vec![1, 2] });
    assert_eq!(replication.phase(), Phase::Deleting);
    assert_eq!(
        replication.advance(Completion::Failed),
        Effect::Failed(Error::Unrecognized(Fault::Transport))
    );
    assert_eq!(replication.advance(Completion::Deleted), Effect::Idle);
}

#[test]
fn a_report_that_does_not_fit_the_phase_counts_as_a_failure() {
    let history = vec![message(1, 10, "U1", "hi")];
    let mut replication = Replication::plan(50, 50, None, &history, 1, "hello", "mod");
    replication.advance(Completion::Begin);
    assert_eq!(replication.advance(Completion::Sent), Effect::Failed(Error::ResourceUnavailable));
}

#[test]
fn body_lists_each_attachment_on_a_line_of_its_own() {
    let mut with_files = message(1, 10, "U1", "look");
    with_files.attachments = vec!["https://a/1.png".to_owned(), "https://a/2.png".to_owned()];
    assert_eq!(message_body(&with_files), "look\nhttps://a/1.png\nhttps://a/2.png");
    assert_eq!(message_body(&message(2, 10, "U1", "plain")), "plain");
    let mut only_file = message(3, 10, "U1", "");
    only_file.attachments = vec!["https://a/3.png".to_owned()];
    assert_eq!(message_body(&only_file), "\nhttps://a/3.png");
}

#[test]
fn nickname_comes_before_user_name() {
    let mut author = Author { id: 1, name: "user".to_owned(), nick: None, bot: false };
    assert_eq!(author_display_name(&author), "user");
    author.nick = Some("nick".to_owned());
    assert_eq!(author_display_name(&author), "nick");
}

#[test]
fn edited_name_credits_the_editor() {
    assert_eq!(edited_username("nick", "mod"), "nick (edited by mod)");
    assert_eq!(edited_username("", ""), " (edited by )");
}

#[test]
fn target_post_drops_attachments_and_others_keep_them() {
    let mut target = message(1, 10, "U1", "old");
    target.attachments = vec!["https://a/1.png".to_owned()];
    target.author.nick = Some("one".to_owned());
    assert_eq!(build_post(&target, 1, "new", "mod"), post(1, 10, "one (edited by mod)", "new"));
    assert_eq!(build_post(&target, 2, "new", "mod"), post(1, 10, "one", "old\nhttps://a/1.png"));
}

#[test]
fn a_second_message_with_the_targets_id_is_never_reached() {
    // the scan stops at the first message with the target's id
    let history = vec![
        message(3, 30, "U3", "c"),
        message(1, 10, "U1", "newer"),
        message(1, 10, "U1", "older"),
    ];
    assert_eq!(scan_history(&history, 1), 1);
    let posts = build_posts(&history, 1, "x", "mod");
    assert_eq!(posts, vec![post(1, 10, "U1 (edited by mod)", "x"), post(3, 30, "U3", "c")]);
}
