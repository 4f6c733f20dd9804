use message_editor::interaction::Error;
use message_editor::webhooks::{
    find_owned, AcquireAction, Acquisition, Cache, CacheUpdate, CachedWebhook, Revalidation,
    Webhook,
};
use message_editor::Context;

const APP: u64 = 42;

fn context() -> Context {
    Context::new(APP, 4242)
}

fn webhook(id: u64, token: Option<&str>, application_id: Option<u64>) -> Webhook {
    Webhook { id, token: token.map(|t| t.to_owned()), application_id }
}

fn cached(id: u64, token: &str) -> CachedWebhook {
    CachedWebhook { id, token: token.to_owned() }
}

fn create(channel_id: u64) -> AcquireAction {
    AcquireAction::Create { channel_id, name: "any message editor".to_owned() }
}

#[test]
fn new_cache_holds_nothing() {
    let cache = Cache::new();
    assert_eq!(cache.get(1), None);
    assert_eq!(cache.get(u64::MAX), None);
}

#[test]
fn two_callers_on_a_cold_channel_lead_to_one_creation() {
    let mut ctx = context();
    let mut creations = 0;
    let mut listings = 0;
    // both callers miss before either is done
    let first = ctx.webhook(5, Acquisition::Request);
    let second = ctx.webhook(5, Acquisition::Request);
    assert_eq!(first, AcquireAction::List { channel_id: 5 });
    assert_eq!(second, AcquireAction::Wait { ticket: 0 });
    listings += 1;
    // the channel has webhooks, none of them this application's
    let listed = ctx.webhook(
        5,
        Acquisition::Listed(vec![webhook(1, Some("a"), Some(7)), webhook(2, None, None)]),
    );
    assert_eq!(listed, create(5));
    creations += 1;
    // the second caller asks again while the webhook is being created
    assert_eq!(ctx.webhook(5, Acquisition::Waited { ticket: 0 }), AcquireAction::Wait { ticket: 0 });
    let done = ctx.webhook(5, Acquisition::Created(webhook(9, Some("tok"), Some(APP))));
    assert_eq!(done, AcquireAction::Use(cached(9, "tok")));
    // now the second caller gets the very same webhook, and so does everybody after
    assert_eq!(
        ctx.webhook(5, Acquisition::Waited { ticket: 0 }),
        AcquireAction::Use(cached(9, "tok"))
    );
    assert_eq!(ctx.webhook(5, Acquisition::Request), AcquireAction::Use(cached(9, "tok")));
    assert_eq!((listings, creations), (1, 1));
    assert_eq!(ctx.webhooks_cache.get(5), Some(cached(9, "tok")));
}

#[test]
fn an_owned_webhook_is_adopted_without_a_creation() {
    let mut ctx = context();
    assert_eq!(ctx.webhook(5, Acquisition::Request), AcquireAction::List { channel_id: 5 });
    let listed = ctx.webhook(
        5,
        Acquisition::Listed(vec![
            webhook(1, Some("other"), Some(7)),
            webhook(2, Some("mine"), Some(APP)),
            webhook(3, Some("mine too"), Some(APP)),
        ]),
    );
    assert_eq!(listed, AcquireAction::Use(cached(2, "mine")));
    assert_eq!(ctx.webhook(5, Acquisition::Request), AcquireAction::Use(cached(2, "mine")));
}

#[test]
fn an_empty_listing_leads_to_a_creation_under_the_fixed_name() {
    let mut ctx = context();
    ctx.webhook(8, Acquisition::Request);
    assert_eq!(ctx.webhook(8, Acquisition::Listed(Vec::new())), create(8));
}

#[test]
fn a_cached_webhook_is_handed_out_without_a_remote_call() {
    let mut ctx = context();
    ctx.webhook(5, Acquisition::Request);
    ctx.webhook(5, Acquisition::Listed(vec![webhook(2, Some("mine"), Some(APP))]));
    for _ in 0..5 {
        assert_eq!(ctx.webhook(5, Acquisition::Request), AcquireAction::Use(cached(2, "mine")));
    }
}

#[test]
fn channels_do_not_wait_for_each_other() {
    let mut ctx = context();
    assert_eq!(ctx.webhook(5, Acquisition::Request), AcquireAction::List { channel_id: 5 });
    assert_eq!(ctx.webhook(6, Acquisition::Request), AcquireAction::List { channel_id: 6 });
    assert_eq!(ctx.webhook(5, Acquisition::Request), AcquireAction::Wait { ticket: 0 });
    assert_eq!(ctx.webhook(6, Acquisition::Request), AcquireAction::Wait { ticket: 1 });
    ctx.webhook(6, Acquisition::Listed(vec![webhook(60, Some("six"), Some(APP))]));
    assert_eq!(ctx.webhook(6, Acquisition::Request), AcquireAction::Use(cached(60, "six")));
    assert_eq!(
        ctx.webhook(6, Acquisition::Waited { ticket: 1 }),
        AcquireAction::Use(cached(60, "six"))
    );
    assert_eq!(ctx.webhook(5, Acquisition::Waited { ticket: 0 }), AcquireAction::Wait { ticket: 0 });
    assert_eq!(ctx.webhooks_cache.get(5), None);
}

#[test]
fn two_callers_share_the_error_of_a_failed_creation() {
    let mut ctx = context();
    let mut creations = 0;
    assert_eq!(ctx.webhook(5, Acquisition::Request), AcquireAction::List { channel_id: 5 });
    let ticket = match ctx.webhook(5, Acquisition::Request) {
        AcquireAction::Wait { ticket } => ticket,
        other => panic!("the second caller should wait, not {other:?}"),
    };
    if ctx.webhook(5, Acquisition::Listed(Vec::new())) == create(5) {
        creations += 1;
    }
    let failed = AcquireAction::Fail(Error::ResourceUnavailable);
    assert_eq!(ctx.webhook(5, Acquisition::Failed), failed);
    // the caller who waited gets the same error, however often it asks, and nothing to do
    assert_eq!(ctx.webhook(5, Acquisition::Waited { ticket }), failed);
    assert_eq!(ctx.webhook(5, Acquisition::Waited { ticket }), failed);
    assert_eq!(creations, 1);
    // a third caller begins anew; the one who waited still gets the first error
    assert_eq!(ctx.webhook(5, Acquisition::Request), AcquireAction::List { channel_id: 5 });
    assert_eq!(ctx.webhook(5, Acquisition::Waited { ticket }), failed);
    ctx.webhook(5, Acquisition::Listed(vec![webhook(2, Some("mine"), Some(APP))]));
    assert_eq!(ctx.webhook(5, Acquisition::Waited { ticket }), failed);
    assert_eq!(ctx.webhook(5, Acquisition::Request), AcquireAction::Use(cached(2, "mine")));
}

#[test]
fn two_callers_share_the_error_of_a_webhook_without_token() {
    let mut ctx = context();
    ctx.webhook(5, Acquisition::Request);
    let waiting = ctx.webhook(5, Acquisition::Request);
    assert_eq!(waiting, AcquireAction::Wait { ticket: 0 });
    let failed = AcquireAction::Fail(Error::ResourceUnavailable);
    assert_eq!(ctx.webhook(5, Acquisition::Listed(vec![webhook(2, None, Some(APP))])), failed);
    assert_eq!(ctx.webhook(5, Acquisition::Waited { ticket: 0 }), failed);
}

#[test]
fn a_caller_who_waited_never_lists() {
    let mut ctx = context();
    let failed = AcquireAction::Fail(Error::ResourceUnavailable);
    // nothing is known of this ticket: there is nothing to hand out and nothing to do
    assert_eq!(ctx.webhook(5, Acquisition::Waited { ticket: 0 }), failed);
    assert_eq!(ctx.webhook(5, Acquisition::Waited { ticket: 7 }), failed);
    // the channel is as cold as before
    assert_eq!(ctx.webhook(5, Acquisition::Request), AcquireAction::List { channel_id: 5 });
    // a ticket of another acquisition does not wait for this one
    assert_eq!(ctx.webhook(5, Acquisition::Waited { ticket: 7 }), failed);
    ctx.webhook(5, Acquisition::Created(webhook(2, Some("mine"), Some(APP))));
    assert_eq!(ctx.webhook(5, Acquisition::Waited { ticket: 7 }), AcquireAction::Use(cached(2, "mine")));
}

#[test]
fn tickets_tell_acquisitions_apart() {
    let mut ctx = context();
    ctx.webhook(5, Acquisition::Request);
    assert_eq!(ctx.webhook(5, Acquisition::Request), AcquireAction::Wait { ticket: 0 });
    ctx.webhook(5, Acquisition::Failed);
    ctx.webhook(5, Acquisition::Request);
    assert_eq!(ctx.webhook(5, Acquisition::Request), AcquireAction::Wait { ticket: 1 });
    // the first acquisition failed, the second is under way
    assert_eq!(
        ctx.webhook(5, Acquisition::Waited { ticket: 0 }),
        AcquireAction::Fail(Error::ResourceUnavailable)
    );
    assert_eq!(ctx.webhook(5, Acquisition::Waited { ticket: 1 }), AcquireAction::Wait { ticket: 1 });
    ctx.webhook(5, Acquisition::Created(webhook(2, Some("mine"), Some(APP))));
    assert_eq!(ctx.webhook(5, Acquisition::Waited { ticket: 1 }), AcquireAction::Use(cached(2, "mine")));
    assert_eq!(
        ctx.webhook(5, Acquisition::Waited { ticket: 0 }),
        AcquireAction::Fail(Error::ResourceUnavailable)
    );
}

#[test]
fn a_failed_listing_is_resource_unavailable_and_frees_the_channel() {
    let mut ctx = context();
    ctx.webhook(5, Acquisition::Request);
    assert_eq!(
        ctx.webhook(5, Acquisition::Failed),
        AcquireAction::Fail(Error::ResourceUnavailable)
    );
    // the next caller starts afresh
    assert_eq!(ctx.webhook(5, Acquisition::Request), AcquireAction::List { channel_id: 5 });
}

#[test]
fn a_failed_creation_is_resource_unavailable_and_frees_the_channel() {
    let mut ctx = context();
    ctx.webhook(5, Acquisition::Request);
    ctx.webhook(5, Acquisition::Listed(Vec::new()));
    assert_eq!(
        ctx.webhook(5, Acquisition::Failed),
        AcquireAction::Fail(Error::ResourceUnavailable)
    );
    assert_eq!(ctx.webhooks_cache.get(5), None);
    assert_eq!(ctx.webhook(5, Acquisition::Request), AcquireAction::List { channel_id: 5 });
}

#[test]
fn a_webhook_without_a_token_cannot_be_used() {
    let mut ctx = context();
    ctx.webhook(5, Acquisition::Request);
    let listed = ctx.webhook(5, Acquisition::Listed(vec![webhook(2, None, Some(APP))]));
    assert_eq!(listed, AcquireAction::Fail(Error::ResourceUnavailable));
    assert_eq!(ctx.webhooks_cache.get(5), None);
    ctx.webhook(6, Acquisition::Request);
    ctx.webhook(6, Acquisition::Listed(Vec::new()));
    assert_eq!(
        ctx.webhook(6, Acquisition::Created(webhook(3, None, Some(APP)))),
        AcquireAction::Fail(Error::ResourceUnavailable)
    );
}

#[test]
fn try_from_keeps_id_and_token() {
    assert_eq!(
        CachedWebhook::try_from(webhook(3, Some("tok"), None)),
        Ok(cached(3, "tok"))
    );
    assert_eq!(
        CachedWebhook::try_from(webhook(3, None, Some(APP))),
        Err(Error::ResourceUnavailable)
    );
}

#[test]
fn find_owned_picks_the_first_of_the_applications_webhooks() {
    let listing = vec![
        webhook(1, Some("a"), None),
        webhook(2, Some("b"), Some(APP + 1)),
        webhook(3, Some("c"), Some(APP)),
        webhook(4, Some("d"), Some(APP)),
    ];
    assert_eq!(find_owned(&listing, APP), Some(2));
    assert_eq!(find_owned(&listing, APP + 1), Some(1));
    assert_eq!(find_owned(&listing, 1000), None);
    assert_eq!(find_owned(&Vec::new(), APP), None);
}

#[test]
fn revalidation_lists_nothing_for_a_channel_without_a_cached_webhook() {
    let mut ctx = context();
    assert_eq!(ctx.webhooks_cache_update(5, Revalidation::Signalled), CacheUpdate::Untouched);
    assert_eq!(
        ctx.webhooks_cache_update(5, Revalidation::Listed(Vec::new())),
        CacheUpdate::Untouched
    );
}

#[test]
fn revalidation_keeps_a_webhook_that_is_still_there() {
    let mut ctx = context();
    ctx.webhook(5, Acquisition::Request);
    ctx.webhook(5, Acquisition::Listed(vec![webhook(2, Some("mine"), Some(APP))]));
    assert_eq!(
        ctx.webhooks_cache_update(5, Revalidation::Signalled),
        CacheUpdate::List { channel_id: 5 }
    );
    let update = ctx.webhooks_cache_update(
        5,
        Revalidation::Listed(vec![webhook(1, None, Some(7)), webhook(2, None, Some(APP))]),
    );
    assert_eq!(update, CacheUpdate::Kept);
    assert_eq!(ctx.webhooks_cache.get(5), Some(cached(2, "mine")));
}

#[test]
fn revalidation_evicts_a_webhook_that_is_gone() {
    let mut ctx = context();
    ctx.webhook(5, Acquisition::Request);
    ctx.webhook(5, Acquisition::Listed(vec![webhook(2, Some("mine"), Some(APP))]));
    ctx.webhook(6, Acquisition::Request);
    ctx.webhook(6, Acquisition::Listed(vec![webhook(3, Some("six"), Some(APP))]));
    let update =
        ctx.webhooks_cache_update(5, Revalidation::Listed(vec![webhook(1, Some("x"), Some(7))]));
    assert_eq!(update, CacheUpdate::Evicted);
    assert_eq!(ctx.webhooks_cache.get(5), None);
    // other channels keep theirs, and the next caller looks for a webhook again
    assert_eq!(ctx.webhooks_cache.get(6), Some(cached(3, "six")));
    assert_eq!(ctx.webhook(5, Acquisition::Request), AcquireAction::List { channel_id: 5 });
}

#[test]
fn a_later_webhook_replaces_the_cached_one() {
    let mut ctx = context();
    ctx.webhook(5, Acquisition::Request);
    ctx.webhook(5, Acquisition::Created(webhook(2, Some("old"), Some(APP))));
    ctx.webhook(5, Acquisition::Created(webhook(3, Some("new"), Some(APP))));
    assert_eq!(ctx.webhooks_cache.get(5), Some(cached(3, "new")));
}

#[test]
fn context_keeps_its_ids() {
    let mut ctx = context();
    ctx.webhook(5, Acquisition::Request);
    ctx.webhooks_cache_update(5, Revalidation::Signalled);
    assert_eq!((ctx.application_id, ctx.user_id), (APP, 4242));
}
