//! The per-channel webhook cache: at most one webhook per channel, found or
//! created on first need, shared by every edit in that channel.

use crate::interaction::Error;
use crate::Context;
use dashmap::DashMap;
use std::collections::HashMap;
use vstd::prelude::*;

verus! {

broadcast use vstd::std_specs::hash::group_hash_axioms;

/// Makes `dashmap::DashMap` known as a type. Nothing is claimed of what a
/// map holds but through [`stored_webhooks`] and the functions below.
#[verifier::external_type_specification]
#[verifier::external_body]
#[verifier::reject_recursive_types(K)]
#[verifier::reject_recursive_types(V)]
#[verifier::reject_recursive_types(S)]
pub struct ExDashMap<K, V, S>(DashMap<K, V, S>);

/// What a webhook map holds: for each channel id, the id and the token of
/// the channel's webhook.
pub uninterp spec fn stored_webhooks(map: DashMap<u64, (u64, String)>) -> Map<u64, (u64, Seq<char>)>;

/// Calls `DashMap::new`. Trusted: the new map holds nothing.
#[verifier::external_body]
fn map_new() -> (fresh: DashMap<u64, (u64, String)>)
    ensures
        stored_webhooks(fresh).dom() == Set::<u64>::empty(),
{
    DashMap::new()
}

/// Calls `DashMap::get` and copies the entry out. Trusted: an entry comes
/// back exactly when the map holds the key, and it is the one held.
#[verifier::external_body]
fn map_get(map: &DashMap<u64, (u64, String)>, channel_id: u64) -> (found: Option<(u64, String)>)
    ensures
        found is Some <==> stored_webhooks(*map).contains_key(channel_id),
        found is Some ==> stored_webhooks(*map)[channel_id] == (
            found.unwrap().0,
            found.unwrap().1@,
        ),
{
    map.get(&channel_id).map(|entry| entry.value().clone())
}

/// Calls `DashMap::contains_key`. Trusted: it says whether the map holds the key.
#[verifier::external_body]
fn map_contains_key(map: &DashMap<u64, (u64, String)>, channel_id: u64) -> (held: bool)
    ensures
        held == stored_webhooks(*map).contains_key(channel_id),
{
    map.contains_key(&channel_id)
}

/// Calls `DashMap::insert`. Trusted: afterwards the map holds the new entry
/// under the key, in place of any earlier one, and every other entry as before.
#[verifier::external_body]
fn map_insert(map: &mut DashMap<u64, (u64, String)>, channel_id: u64, id: u64, token: String)
    ensures
        stored_webhooks(*final(map)) == stored_webhooks(*old(map)).insert(channel_id, (id, token@)),
{
    map.insert(channel_id, (id, token));
}

/// Calls `DashMap::remove`. Trusted: afterwards the map holds nothing under
/// the key, and every other entry as before.
#[verifier::external_body]
fn map_remove(map: &mut DashMap<u64, (u64, String)>, channel_id: u64)
    ensures
        stored_webhooks(*final(map)) == stored_webhooks(*old(map)).remove(channel_id),
{
    map.remove(&channel_id);
}

/// The name under which this agent creates its webhooks.
pub open spec fn webhook_name() -> Seq<char> {
    "any message editor"@
}

/// A webhook as the platform lists it.
#[derive(Debug, PartialEq, Eq)]
pub struct Webhook {
    pub id: u64,
    /// The secret that executes the webhook; the platform withholds it from
    /// all but the webhook's owner.
    pub token: Option<String>,
    /// The application that created the webhook, if one did.
    pub application_id: Option<u64>,
}

/// The mathematical value of a [`Webhook`].
pub struct WebhookView {
    pub id: u64,
    pub token: Option<Seq<char>>,
    pub application_id: Option<u64>,
}

impl View for Webhook {
    type V = WebhookView;

    open spec fn view(&self) -> WebhookView {
        WebhookView {
            id: self.id,
            token: crate::interaction::text_view(self.token),
            application_id: self.application_id,
        }
    }
}

/// The views of a listing of webhooks, webhook by webhook.
pub open spec fn listing_view(listing: Seq<Webhook>) -> Seq<WebhookView> {
    Seq::new(listing.len(), |i: int| listing[i]@)
}

/// The webhook through which messages are re-posted in one channel.
#[derive(Debug, PartialEq, Eq)]
pub struct CachedWebhook {
    pub id: u64,
    pub token: String,
}

/// The mathematical value of a [`CachedWebhook`].
pub struct CachedWebhookView {
    pub id: u64,
    pub token: Seq<char>,
}

impl View for CachedWebhook {
    type V = CachedWebhookView;

    open spec fn view(&self) -> CachedWebhookView {
        CachedWebhookView { id: self.id, token: self.token@ }
    }
}

/// What can be cached of `webhook`: its id and token, if it shows its token.
pub open spec fn cacheable(webhook: WebhookView) -> Result<CachedWebhookView, Error> {
    match webhook.token {
        Some(token) => Ok(CachedWebhookView { id: webhook.id, token }),
        None => Err(Error::ResourceUnavailable),
    }
}

impl CachedWebhook {
    /// Keeps what is needed to execute `webhook`. A webhook that does not
    /// show its token cannot be executed.
    pub fn try_from(webhook: Webhook) -> (cached: Result<CachedWebhook, Error>)
        ensures
            match cached {
                Ok(cached) => cacheable(webhook@) == Ok::<CachedWebhookView, Error>(cached@),
                Err(error) => cacheable(webhook@) == Err::<CachedWebhookView, Error>(error),
            },
    {
        match webhook.token {
            Some(token) => Ok(CachedWebhook { id: webhook.id, token }),
            None => Err(Error::ResourceUnavailable),
        }
    }
}

/// Whether `webhook` was created by the application `application_id`.
pub open spec fn is_owned(webhook: WebhookView, application_id: u64) -> bool {
    webhook.application_id == Some(application_id)
}

/// Whether a listing holds a webhook created by the application.
pub open spec fn any_owned(listing: Seq<WebhookView>, application_id: u64) -> bool {
    exists|i: int| 0 <= i < listing.len() && is_owned(#[trigger] listing[i], application_id)
}

/// `index` is where the first webhook created by the application stands in the listing.
pub open spec fn is_first_owned(listing: Seq<WebhookView>, application_id: u64, index: int) -> bool {
    &&& 0 <= index < listing.len()
    &&& is_owned(listing[index], application_id)
    &&& forall|j: int| 0 <= j < index ==> !is_owned(#[trigger] listing[j], application_id)
}

/// The first webhook of a listing that the application created, if there is one.
pub open spec fn first_owned(listing: Seq<WebhookView>, application_id: u64) -> Option<WebhookView> {
    if any_owned(listing, application_id) {
        Some(listing[choose|i: int| is_first_owned(listing, application_id, i)])
    } else {
        None
    }
}

/// The webhooks of every channel that has one, the acquisitions that are
/// under way, and how the last failed one of each channel is told apart.
pub struct Cache {
    webhooks: DashMap<u64, (u64, String)>,
    pending: HashMap<u64, u64>,
    failed: HashMap<u64, u64>,
    next_ticket: u64,
}

/// The mathematical value of a [`Cache`].
pub struct CacheView {
    /// For each channel that has a cached webhook, the webhook's id and token.
    pub webhooks: Map<u64, (u64, Seq<char>)>,
    /// For each channel whose webhook is being listed or created right now,
    /// the ticket of that acquisition.
    pub pending: Map<u64, u64>,
    /// For each channel, the ticket of its last acquisition that failed.
    pub failed: Map<u64, u64>,
    /// The ticket of the next acquisition to begin.
    pub next_ticket: u64,
}

impl View for Cache {
    type V = CacheView;

    closed spec fn view(&self) -> CacheView {
        CacheView {
            webhooks: stored_webhooks(self.webhooks),
            pending: self.pending@,
            failed: self.failed@,
            next_ticket: self.next_ticket,
        }
    }
}

/// The ticket that follows `ticket`. Tickets start over after the last one.
pub open spec fn ticket_after(ticket: u64) -> u64 {
    if ticket == u64::MAX {
        0
    } else {
        (ticket + 1) as u64
    }
}

/// What the runtime reports to the cache about one channel.
#[derive(Debug, PartialEq, Eq)]
pub enum Acquisition {
    /// Somebody needs the channel's webhook.
    Request,
    /// Somebody who was told to wait, and given this ticket, asks how the
    /// acquisition ended.
    Waited { ticket: u64 },
    /// The channel's webhooks, as the platform lists them.
    Listed(Vec<Webhook>),
    /// The webhook that was created for the channel.
    Created(Webhook),
    /// The listing or the creation failed.
    Failed,
}

/// The mathematical value of an [`Acquisition`].
pub enum AcquisitionView {
    Request,
    Waited { ticket: u64 },
    Listed(Seq<WebhookView>),
    Created(WebhookView),
    Failed,
}

impl View for Acquisition {
    type V = AcquisitionView;

    open spec fn view(&self) -> AcquisitionView {
        match self {
            Acquisition::Request => AcquisitionView::Request,
            Acquisition::Waited { ticket } => AcquisitionView::Waited { ticket: *ticket },
            Acquisition::Listed(listing) => AcquisitionView::Listed(listing_view(listing@)),
            Acquisition::Created(webhook) => AcquisitionView::Created(webhook@),
            Acquisition::Failed => AcquisitionView::Failed,
        }
    }
}

/// What the cache answers.
#[derive(Debug, PartialEq, Eq)]
pub enum AcquireAction {
    /// Here is the channel's webhook.
    Use(CachedWebhook),
    /// List the channel's webhooks and report them.
    List { channel_id: u64 },
    /// Create a webhook of this name in the channel and report it.
    Create { channel_id: u64, name: String },
    /// Somebody else is getting the channel's webhook: when an acquisition
    /// has ended, report back with this ticket to learn how this one ended.
    Wait { ticket: u64 },
    /// The channel has no webhook and none could be made.
    Fail(Error),
}

/// The mathematical value of an [`AcquireAction`].
pub enum AcquireActionView {
    Use(CachedWebhookView),
    List { channel_id: u64 },
    Create { channel_id: u64, name: Seq<char> },
    Wait { ticket: u64 },
    Fail(Error),
}

impl View for AcquireAction {
    type V = AcquireActionView;

    open spec fn view(&self) -> AcquireActionView {
        match self {
            AcquireAction::Use(webhook) => AcquireActionView::Use(webhook@),
            AcquireAction::List { channel_id } => AcquireActionView::List { channel_id: *channel_id },
            AcquireAction::Create { channel_id, name } => AcquireActionView::Create {
                channel_id: *channel_id,
                name: name@,
            },
            AcquireAction::Wait { ticket } => AcquireActionView::Wait { ticket: *ticket },
            AcquireAction::Fail(error) => AcquireActionView::Fail(*error),
        }
    }
}

/// What the runtime reports when a channel's webhooks may have changed.
#[derive(Debug, PartialEq, Eq)]
pub enum Revalidation {
    /// Something changed among the channel's webhooks.
    Signalled,
    /// The channel's webhooks, as the platform lists them now.
    Listed(Vec<Webhook>),
}

/// The mathematical value of a [`Revalidation`].
pub enum RevalidationView {
    Signalled,
    Listed(Seq<WebhookView>),
}

impl View for Revalidation {
    type V = RevalidationView;

    open spec fn view(&self) -> RevalidationView {
        match self {
            Revalidation::Signalled => RevalidationView::Signalled,
            Revalidation::Listed(listing) => RevalidationView::Listed(listing_view(listing@)),
        }
    }
}

/// What the cache answers to a revalidation.
#[derive(Clone, Copy, Debug, PartialEq, Eq, Structural)]
pub enum CacheUpdate {
    /// List the channel's webhooks and report them.
    List { channel_id: u64 },
    /// The cache holds nothing for the channel that could be stale.
    Untouched,
    /// The cached webhook is still there remotely.
    Kept,
    /// The cached webhook was gone remotely and has been dropped.
    Evicted,
}

impl CacheView {
    /// The cached webhook of a channel that has one.
    pub open spec fn cached(self, channel_id: u64) -> CachedWebhookView {
        CachedWebhookView {
            id: self.webhooks[channel_id].0,
            token: self.webhooks[channel_id].1,
        }
    }

    /// The cache once an acquisition for the channel has begun: it holds the
    /// next ticket, which no longer stands for an earlier failure.
    pub open spec fn begun(self, channel_id: u64) -> CacheView {
        CacheView {
            pending: self.pending.insert(channel_id, self.next_ticket),
            failed: if self.failed.contains_key(channel_id) && self.failed[channel_id]
                == self.next_ticket {
                self.failed.remove(channel_id)
            } else {
                self.failed
            },
            next_ticket: ticket_after(self.next_ticket),
            ..self
        }
    }

    /// The cache once it holds `webhook` for the channel and nobody is looking for one.
    pub open spec fn settled(self, channel_id: u64, webhook: CachedWebhookView) -> CacheView {
        CacheView {
            webhooks: self.webhooks.insert(channel_id, (webhook.id, webhook.token)),
            pending: self.pending.remove(channel_id),
            ..self
        }
    }

    /// The cache once the acquisition for the channel has failed: its ticket
    /// is kept as that of the channel's last failure.
    pub open spec fn abandoned(self, channel_id: u64) -> CacheView {
        CacheView {
            pending: self.pending.remove(channel_id),
            failed: if self.pending.contains_key(channel_id) {
                self.failed.insert(channel_id, self.pending[channel_id])
            } else {
                self.failed
            },
            ..self
        }
    }

    /// What follows when the runtime has a webhook for the channel in hand.
    pub open spec fn adopt(self, channel_id: u64, webhook: WebhookView) -> (
        CacheView,
        AcquireActionView,
    ) {
        match cacheable(webhook) {
            Ok(cached) => (self.settled(channel_id, cached), AcquireActionView::Use(cached)),
            Err(error) => (self.abandoned(channel_id), AcquireActionView::Fail(error)),
        }
    }

    /// What a caller is told who waited with `ticket` for the channel's
    /// webhook: to wait on while that acquisition is under way, its error if
    /// it failed, else the webhook that the cache holds. Nothing is listed or
    /// created for a caller who waited.
    pub open spec fn answer(self, channel_id: u64, ticket: u64) -> AcquireActionView {
        if self.pending.contains_key(channel_id) && self.pending[channel_id] == ticket {
            AcquireActionView::Wait { ticket }
        } else if self.failed.contains_key(channel_id) && self.failed[channel_id] == ticket {
            AcquireActionView::Fail(Error::ResourceUnavailable)
        } else if self.webhooks.contains_key(channel_id) {
            AcquireActionView::Use(self.cached(channel_id))
        } else {
            AcquireActionView::Fail(Error::ResourceUnavailable)
        }
    }

    /// The cache's transition for one channel: the state and the action that
    /// follow when the runtime reports `event`.
    ///
    /// A cached webhook is handed out without a remote call. Of the callers
    /// that miss, the first is sent to list the channel's webhooks and every
    /// other is told to wait, with the ticket of that acquisition; when it
    /// has ended they get what it gave, the webhook or the error, so that
    /// nobody creates a second webhook. A listed webhook that this
    /// application created is adopted; only where there is none is one created.
    pub open spec fn step(self, application_id: u64, channel_id: u64, event: AcquisitionView) -> (
        CacheView,
        AcquireActionView,
    ) {
        match event {
            AcquisitionView::Request => if self.webhooks.contains_key(channel_id) {
                (self, AcquireActionView::Use(self.cached(channel_id)))
            } else if self.pending.contains_key(channel_id) {
                (self, AcquireActionView::Wait { ticket: self.pending[channel_id] })
            } else {
                (self.begun(channel_id), AcquireActionView::List { channel_id })
            },
            AcquisitionView::Waited { ticket } => (self, self.answer(channel_id, ticket)),
            AcquisitionView::Listed(listing) => match first_owned(listing, application_id) {
                Some(webhook) => self.adopt(channel_id, webhook),
                None => (
                    if self.pending.contains_key(channel_id) {
                        self
                    } else {
                        self.begun(channel_id)
                    },
                    AcquireActionView::Create { channel_id, name: webhook_name() },
                ),
            },
            AcquisitionView::Created(webhook) => self.adopt(channel_id, webhook),
            AcquisitionView::Failed => (
                self.abandoned(channel_id),
                AcquireActionView::Fail(Error::ResourceUnavailable),
            ),
        }
    }

    /// The cache's transition when a channel's webhooks may have changed.
    ///
    /// Nothing is listed for a channel without a cached webhook. A cached
    /// webhook is dropped only when the listing shows none that this
    /// application created.
    pub open spec fn revalidate(self, application_id: u64, channel_id: u64, event: RevalidationView) -> (
        CacheView,
        CacheUpdate,
    ) {
        if !self.webhooks.contains_key(channel_id) {
            (self, CacheUpdate::Untouched)
        } else {
            match event {
                RevalidationView::Signalled => (self, CacheUpdate::List { channel_id }),
                RevalidationView::Listed(listing) => if any_owned(listing, application_id) {
                    (self, CacheUpdate::Kept)
                } else {
                    (
                        CacheView { webhooks: self.webhooks.remove(channel_id), ..self },
                        CacheUpdate::Evicted,
                    )
                },
            }
        }
    }
}

/// Where the first webhook that the application created stands in `listing`.
pub fn find_owned(listing: &Vec<Webhook>, application_id: u64) -> (position: Option<usize>)
    ensures
        match position {
            Some(index) => index < listing.len() && first_owned(
                listing_view(listing@),
                application_id,
            ) == Some(listing@[index as int]@),
            None => !any_owned(listing_view(listing@), application_id),
        },
{
    let ghost view = listing_view(listing@);
    let mut i: usize = 0;
    while i < listing.len()
        invariant
            i <= listing.len(),
            view == listing_view(listing@),
            forall|j: int| 0 <= j < i ==> !is_owned(#[trigger] view[j], application_id),
        decreases listing.len() - i,
    {
        let owned = match listing[i].application_id {
            Some(owner) => owner == application_id,
            None => false,
        };
        if owned {
            proof {
                assert(is_first_owned(view, application_id, i as int));
                let chosen = choose|k: int| is_first_owned(view, application_id, k);
                assert(is_first_owned(view, application_id, chosen));
                assert(chosen == i);
            }
            return Some(i);
        }
        i = i + 1;
    }
    None
}

impl Cache {
    /// A cache that holds nothing.
    pub fn new() -> (cache: Cache)
        ensures
            cache@.webhooks.dom() == Set::<u64>::empty(),
            cache@.pending.dom() == Set::<u64>::empty(),
            cache@.failed.dom() == Set::<u64>::empty(),
            cache@.next_ticket == 0,
    {
        Cache { webhooks: map_new(), pending: HashMap::new(), failed: HashMap::new(), next_ticket: 0 }
    }

    /// The cached webhook of a channel.
    pub fn get(&self, channel_id: u64) -> (found: Option<CachedWebhook>)
        ensures
            match found {
                Some(webhook) => self@.webhooks.contains_key(channel_id) && webhook@
                    == self@.cached(channel_id),
                None => !self@.webhooks.contains_key(channel_id),
            },
    {
        match map_get(&self.webhooks, channel_id) {
            Some((id, token)) => Some(CachedWebhook { id, token }),
            None => None,
        }
    }

    /// The ticket of the acquisition that is under way for a channel.
    fn pending_ticket(&self, channel_id: u64) -> (ticket: Option<u64>)
        ensures
            ticket == (if self@.pending.contains_key(channel_id) {
                Some(self@.pending[channel_id])
            } else {
                None
            }),
    {
        match self.pending.get(&channel_id) {
            Some(ticket) => Some(*ticket),
            None => None,
        }
    }

    /// The ticket of the last acquisition that failed for a channel.
    fn failed_ticket(&self, channel_id: u64) -> (ticket: Option<u64>)
        ensures
            ticket == (if self@.failed.contains_key(channel_id) {
                Some(self@.failed[channel_id])
            } else {
                None
            }),
    {
        match self.failed.get(&channel_id) {
            Some(ticket) => Some(*ticket),
            None => None,
        }
    }

    fn begin(&mut self, channel_id: u64)
        ensures
            final(self)@ == old(self)@.begun(channel_id),
    {
        if self.failed_ticket(channel_id) == Some(self.next_ticket) {
            self.failed.remove(&channel_id);
        }
        self.pending.insert(channel_id, self.next_ticket);
        self.next_ticket = if self.next_ticket == u64::MAX {
            0
        } else {
            self.next_ticket + 1
        };
    }

    fn abandon(&mut self, channel_id: u64)
        ensures
            final(self)@ == old(self)@.abandoned(channel_id),
    {
        if let Some(ticket) = self.pending_ticket(channel_id) {
            self.failed.insert(channel_id, ticket);
        }
        self.pending.remove(&channel_id);
    }

    fn adopt(&mut self, channel_id: u64, webhook: Webhook) -> (action: AcquireAction)
        ensures
            (final(self)@, action@) == old(self)@.adopt(channel_id, webhook@),
    {
        match CachedWebhook::try_from(webhook) {
            Ok(cached) => {
                map_insert(&mut self.webhooks, channel_id, cached.id, cached.token.clone());
                self.pending.remove(&channel_id);
                AcquireAction::Use(cached)
            },
            Err(error) => {
                self.abandon(channel_id);
                AcquireAction::Fail(error)
            },
        }
    }

    fn answer(&self, channel_id: u64, ticket: u64) -> (action: AcquireAction)
        ensures
            action@ == self@.answer(channel_id, ticket),
    {
        if self.pending_ticket(channel_id) == Some(ticket) {
            AcquireAction::Wait { ticket }
        } else if self.failed_ticket(channel_id) == Some(ticket) {
            AcquireAction::Fail(Error::ResourceUnavailable)
        } else {
            match self.get(channel_id) {
                Some(webhook) => AcquireAction::Use(webhook),
                None => AcquireAction::Fail(Error::ResourceUnavailable),
            }
        }
    }
}

impl Context {
    /// Takes the runtime's report about the webhook of one channel and says
    /// what to do next.
    pub fn webhook(&mut self, channel_id: u64, event: Acquisition) -> (action: AcquireAction)
        ensures
            (final(self).webhooks_cache@, action@) == old(self).webhooks_cache@.step(
                old(self).application_id,
                channel_id,
                event@,
            ),
            final(self).application_id == old(self).application_id,
            final(self).user_id == old(self).user_id,
    {
        match event {
            Acquisition::Request => match self.webhooks_cache.get(channel_id) {
                Some(webhook) => AcquireAction::Use(webhook),
                None => match self.webhooks_cache.pending_ticket(channel_id) {
                    Some(ticket) => AcquireAction::Wait { ticket },
                    None => {
                        self.webhooks_cache.begin(channel_id);
                        AcquireAction::List { channel_id }
                    },
                },
            },
            Acquisition::Waited { ticket } => self.webhooks_cache.answer(channel_id, ticket),
            Acquisition::Listed(listing) => {
                let mut listing = listing;
                match find_owned(&listing, self.application_id) {
                    Some(index) => {
                        let webhook = listing.swap_remove(index);
                        self.webhooks_cache.adopt(channel_id, webhook)
                    },
                    None => {
                        if self.webhooks_cache.pending_ticket(channel_id).is_none() {
                            self.webhooks_cache.begin(channel_id);
                        }
                        AcquireAction::Create {
                            channel_id,
                            name: "any message editor".to_owned(),
                        }
                    },
                }
            },
            Acquisition::Created(webhook) => self.webhooks_cache.adopt(channel_id, webhook),
            Acquisition::Failed => {
                self.webhooks_cache.abandon(channel_id);
                AcquireAction::Fail(Error::ResourceUnavailable)
            },
        }
    }

    /// Takes the runtime's report that a channel's webhooks may have changed
    /// and says what to do next.
    pub fn webhooks_cache_update(&mut self, channel_id: u64, event: Revalidation) -> (update:
        CacheUpdate)
        ensures
            (final(self).webhooks_cache@, update) == old(self).webhooks_cache@.revalidate(
                old(self).application_id,
                channel_id,
                event@,
            ),
            final(self).application_id == old(self).application_id,
            final(self).user_id == old(self).user_id,
    {
        if !map_contains_key(&self.webhooks_cache.webhooks, channel_id) {
            return CacheUpdate::Untouched;
        }
        match event {
            Revalidation::Signalled => CacheUpdate::List { channel_id },
            Revalidation::Listed(listing) => match find_owned(&listing, self.application_id) {
                Some(_) => {
                    proof {
                        assert(any_owned(listing_view(listing@), self.application_id));
                    }
                    CacheUpdate::Kept
                },
                None => {
                    map_remove(&mut self.webhooks_cache.webhooks, channel_id);
                    CacheUpdate::Evicted
                },
            },
        }
    }
}

/// While a channel's webhook is being looked for, everybody else who asks
/// for it is told to wait, with the ticket of the acquisition under way, and
/// the asking changes nothing.
pub proof fn lemma_callers_wait_while_pending(
    cache: CacheView,
    application_id: u64,
    channel_id: u64,
)
    requires
        !cache.webhooks.contains_key(channel_id),
        cache.pending.contains_key(channel_id),
    ensures
        cache.step(application_id, channel_id, AcquisitionView::Request) == (
            cache,
            AcquireActionView::Wait { ticket: cache.pending[channel_id] },
        ),
        cache.step(
            application_id,
            channel_id,
            AcquisitionView::Waited { ticket: cache.pending[channel_id] },
        ) == (cache, AcquireActionView::Wait { ticket: cache.pending[channel_id] }),
{
}

/// Once a channel has a cached webhook, everybody who asks for it gets that
/// webhook, without a remote call, and the asking changes nothing.
pub proof fn lemma_cached_webhook_is_shared(
    cache: CacheView,
    application_id: u64,
    channel_id: u64,
    webhook: CachedWebhookView,
)
    ensures
        cache.settled(channel_id, webhook).step(
            application_id,
            channel_id,
            AcquisitionView::Request,
        ) == (cache.settled(channel_id, webhook), AcquireActionView::Use(webhook)),
{
}

/// A caller who waited never sets off a remote call: whatever the cache
/// holds, it is told to wait on, handed a webhook or given the error, and the
/// asking changes nothing.
pub proof fn lemma_waiting_callers_never_list(
    cache: CacheView,
    application_id: u64,
    channel_id: u64,
    ticket: u64,
)
    ensures
        ({
            let answered = cache.step(
                application_id,
                channel_id,
                AcquisitionView::Waited { ticket },
            );
            &&& answered.0 == cache
            &&& answered.1 is Wait || answered.1 is Use || answered.1 is Fail
        }),
{
}

/// Two callers that need the webhook of a cold channel at the same time end
/// up with the same webhook or the same error, and at most one webhook is
/// created for them, whether the creation succeeds (`created` is the new
/// webhook) or fails (there is none).
///
/// The first caller is sent to list the channel's webhooks; the second is
/// told to wait. The listing leads to a creation only where it shows no
/// webhook of this application, and whoever asks while the creation is under
/// way waits as well. When the first caller is done, the second is answered
/// without a listing or a creation: with the webhook that the first one got,
/// which every later request is answered with too, or with the first one's
/// error. It gets that error even when a third caller has begun a new
/// acquisition in the meantime.
pub proof fn lemma_two_callers_one_webhook(
    cache: CacheView,
    application_id: u64,
    channel_id: u64,
    listing: Seq<WebhookView>,
    created: Option<WebhookView>,
)
    requires
        !cache.webhooks.contains_key(channel_id),
        !cache.pending.contains_key(channel_id),
    ensures
        ({
            let ticket = cache.next_ticket;
            let waited = AcquisitionView::Waited { ticket };
            let first = cache.step(application_id, channel_id, AcquisitionView::Request);
            let second = first.0.step(application_id, channel_id, AcquisitionView::Request);
            let listed = second.0.step(application_id, channel_id, AcquisitionView::Listed(listing));
            let done = if listed.1 is Create {
                listed.0.step(
                    application_id,
                    channel_id,
                    match created {
                        Some(webhook) => AcquisitionView::Created(webhook),
                        None => AcquisitionView::Failed,
                    },
                )
            } else {
                listed
            };
            &&& first.1 == AcquireActionView::List { channel_id }
            &&& second == (first.0, AcquireActionView::Wait { ticket })
            &&& listed.1 is Create <==> first_owned(listing, application_id) is None
            &&& listed.1 is Create ==> listed.0.step(
                application_id,
                channel_id,
                AcquisitionView::Request,
            ) == (listed.0, AcquireActionView::Wait { ticket }) && listed.0.step(
                application_id,
                channel_id,
                waited,
            ) == (listed.0, AcquireActionView::Wait { ticket })
            &&& match done.1 {
                AcquireActionView::Use(webhook) => {
                    &&& done.0.step(application_id, channel_id, waited) == (
                        done.0,
                        AcquireActionView::Use(webhook),
                    )
                    &&& done.0.step(application_id, channel_id, AcquisitionView::Request) == (
                        done.0,
                        AcquireActionView::Use(webhook),
                    )
                },
                AcquireActionView::Fail(error) => {
                    let restarted = done.0.step(
                        application_id,
                        channel_id,
                        AcquisitionView::Request,
                    );
                    &&& error == Error::ResourceUnavailable
                    &&& done.0.step(application_id, channel_id, waited) == (
                        done.0,
                        AcquireActionView::Fail(error),
                    )
                    &&& restarted.1 == AcquireActionView::List { channel_id }
                    &&& restarted.0.step(application_id, channel_id, waited) == (
                        restarted.0,
                        AcquireActionView::Fail(error),
                    )
                },
                _ => false,
            }
        }),
{
}

} // verus!
