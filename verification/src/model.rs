//! A model of the cache service, and what the client's conversations do
//! to it.
//!
//! The service is a map from keys to entries. Of its commands the client
//! uses two: one puts a value under a key, one sets the time an entry has
//! left. The laws below run whole store operations against this map.

use crate::cache::{
    resume_step, store_step, CacheCommandView, PendingView, StepView, StoreFailure,
    CACHE_TTL_SECONDS, CACHE_URL,
};
use crate::inner_instructions::{json_text, Payload};
use crate::plugin::{
    forwarded, notify_step, wrapped, EventView, NotifyStepView, PluginFailure,
};
use crate::signature::{is_sentinel, signature_text};
use vstd::prelude::*;

verus! {

/// What the service holds under one key.
pub struct CacheEntry {
    pub value: Seq<char>,
    /// Seconds until the entry lapses; `None` for one that stays.
    pub expires_in: Option<int>,
}

/// What a command does to the service when it is carried out. A value
/// that is put under a key replaces the entry with one that stays; an
/// expiry is granted only to an entry that is there.
pub open spec fn effect(
    cache: Map<Seq<char>, CacheEntry>,
    command: CacheCommandView,
) -> Map<Seq<char>, CacheEntry> {
    match command {
        CacheCommandView::Connect { url } => cache,
        CacheCommandView::SetValue { key, value } => cache.insert(
            key,
            CacheEntry { value, expires_in: None },
        ),
        CacheCommandView::Expire { key, seconds } => if cache.dom().contains(key) {
            cache.insert(key, CacheEntry { value: cache[key].value, expires_in: Some(seconds) })
        } else {
            cache
        },
    }
}

/// How a conversation ended.
pub struct Settled {
    /// The service afterwards.
    pub cache: Map<Seq<char>, CacheEntry>,
    /// Whether the client is left with a connection.
    pub connected: bool,
    pub outcome: Result<(), StoreFailure>,
    /// The commands that were asked for, in order.
    pub sent: Seq<CacheCommandView>,
}

/// The number of commands that a step may still lead to.
pub open spec fn commands_ahead(step: StepView) -> nat {
    match step {
        StepView::Finished { .. } => 0,
        StepView::Perform { pending: PendingView::Expiring, .. } => 1,
        StepView::Perform { pending: PendingView::Writing { .. }, .. } => 2,
        StepView::Perform { pending: PendingView::Connecting { .. }, .. } => 3,
    }
}

/// Runs a store operation from `step` to its end. The service answers the
/// commands in turn as `replies` says, `true` for a command that it
/// carries out; once the replies have run out it answers no more, and the
/// command fails.
pub open spec fn settle(
    step: StepView,
    cache: Map<Seq<char>, CacheEntry>,
    replies: Seq<bool>,
) -> Settled
    decreases commands_ahead(step),
{
    match step {
        StepView::Finished { connected, outcome } => Settled {
            cache,
            connected,
            outcome,
            sent: Seq::empty(),
        },
        StepView::Perform { command, pending } => {
            let done = replies.len() > 0 && replies[0];
            let rest = settle(
                resume_step(pending, done),
                if done {
                    effect(cache, command)
                } else {
                    cache
                },
                replies.skip(1),
            );
            Settled { sent: seq![command] + rest.sent, ..rest }
        },
    }
}

/// A service that carries out whatever a store operation asks of it.
pub open spec fn responsive(replies: Seq<bool>) -> bool {
    replies.len() >= 3 && replies[0] && replies[1] && replies[2]
}

/// The entry that a store operation is to leave behind.
pub open spec fn stored_entry(payload: Payload, ttl: int) -> CacheEntry {
    CacheEntry { value: json_text(payload).unwrap(), expires_in: Some(ttl) }
}

/// How the handling of a notification ended.
pub struct NotifySettled {
    pub cache: Map<Seq<char>, CacheEntry>,
    pub connected: bool,
    pub outcome: Result<(), PluginFailure>,
    pub sent: Seq<CacheCommandView>,
}

/// The number of commands that a notification's step may still lead to.
pub open spec fn notify_commands_ahead(step: NotifyStepView) -> nat {
    match step {
        NotifyStepView::Finished { .. } => 0,
        NotifyStepView::Perform { pending: PendingView::Expiring, .. } => 1,
        NotifyStepView::Perform { pending: PendingView::Writing { .. }, .. } => 2,
        NotifyStepView::Perform { pending: PendingView::Connecting { .. }, .. } => 3,
    }
}

/// Runs the handling of a notification from `step` to its end, against a
/// service that answers as `replies` says.
pub open spec fn settle_notification(
    step: NotifyStepView,
    cache: Map<Seq<char>, CacheEntry>,
    replies: Seq<bool>,
) -> NotifySettled
    decreases notify_commands_ahead(step),
{
    match step {
        NotifyStepView::Finished { connected, outcome } => NotifySettled {
            cache,
            connected,
            outcome,
            sent: Seq::empty(),
        },
        NotifyStepView::Perform { command, pending } => {
            let done = replies.len() > 0 && replies[0];
            let rest = settle_notification(
                forwarded(resume_step(pending, done)),
                if done {
                    effect(cache, command)
                } else {
                    cache
                },
                replies.skip(1),
            );
            NotifySettled { sent: seq![command] + rest.sent, ..rest }
        },
    }
}

/// The end of a store operation as the host sees it.
pub open spec fn reported(end: Settled) -> NotifySettled {
    NotifySettled {
        cache: end.cache,
        connected: end.connected,
        outcome: wrapped(end.outcome),
        sent: end.sent,
    }
}

/// The commands of a store operation that meets a responsive service.
pub open spec fn full_conversation(
    connected: bool,
    key: Seq<char>,
    payload: Payload,
    ttl: int,
) -> Seq<CacheCommandView> {
    let writes = seq![
        CacheCommandView::SetValue { key, value: json_text(payload).unwrap() },
        CacheCommandView::Expire { key, seconds: ttl },
    ];
    if connected {
        writes
    } else {
        seq![CacheCommandView::Connect { url: CACHE_URL@ }] + writes
    }
}

/// A store operation that meets a responsive service sends the value and
/// then its expiry, once each, after asking for the connection if there
/// was none. It succeeds, and the service then holds the payload's text
/// under the key, to lapse after the window; no other key has changed.
pub proof fn lemma_store_leaves_entry(
    connected: bool,
    key: Seq<char>,
    payload: Payload,
    ttl: int,
    cache: Map<Seq<char>, CacheEntry>,
    replies: Seq<bool>,
)
    requires
        responsive(replies),
        json_text(payload) is Some,
    ensures
        settle(store_step(connected, key, payload, ttl), cache, replies) == (Settled {
            cache: cache.insert(key, stored_entry(payload, ttl)),
            connected: true,
            outcome: Ok(()),
            sent: full_conversation(connected, key, payload, ttl),
        }),
{
    reveal_with_fuel(settle, 4);
    let end = settle(store_step(connected, key, payload, ttl), cache, replies);
    assert(end.cache =~= cache.insert(key, stored_entry(payload, ttl)));
    assert(end.sent =~= full_conversation(connected, key, payload, ttl));
}

/// However the service answers, a store operation ends in one of three
/// ways. It succeeds, and the entry is there in full. It fails at the
/// expiry, and the payload's whole text is there, without an expiry. Or it
/// fails before that, and the service is as it was.
pub proof fn lemma_store_is_whole_or_absent(
    connected: bool,
    key: Seq<char>,
    payload: Payload,
    ttl: int,
    cache: Map<Seq<char>, CacheEntry>,
    replies: Seq<bool>,
)
    ensures
        ({
            let end = settle(store_step(connected, key, payload, ttl), cache, replies);
            match end.outcome {
                Ok(_) => json_text(payload) is Some && end.cache == cache.insert(
                    key,
                    stored_entry(payload, ttl),
                ),
                Err(StoreFailure::Expiry) => json_text(payload) is Some && end.cache
                    == cache.insert(
                    key,
                    CacheEntry { value: json_text(payload).unwrap(), expires_in: None },
                ),
                Err(_) => end.cache == cache,
            }
        }),
{
    reveal_with_fuel(settle, 4);
}

/// A store operation whose first command does not get through fails, and
/// the service holds no entry that it did not hold before.
pub proof fn lemma_unreachable_service_keeps_cache(
    connected: bool,
    key: Seq<char>,
    payload: Payload,
    ttl: int,
    cache: Map<Seq<char>, CacheEntry>,
    replies: Seq<bool>,
)
    requires
        replies.len() == 0 || !replies[0],
    ensures
        ({
            let end = settle(store_step(connected, key, payload, ttl), cache, replies);
            &&& end.outcome is Err
            &&& end.cache == cache
            &&& end.sent.len() <= 1
        }),
{
    reveal_with_fuel(settle, 4);
}

/// Last writer wins: of two store operations under one key, each meeting
/// a responsive service, the second decides what the service holds. The
/// entry has the second payload's text and the second window in full,
/// whatever the first operation had written and granted.
pub proof fn lemma_last_writer_wins(
    connected: bool,
    key: Seq<char>,
    first: Payload,
    first_ttl: int,
    second: Payload,
    second_ttl: int,
    cache: Map<Seq<char>, CacheEntry>,
    replies: Seq<bool>,
    later_replies: Seq<bool>,
)
    requires
        responsive(replies),
        responsive(later_replies),
        json_text(first) is Some,
        json_text(second) is Some,
    ensures
        ({
            let between = settle(store_step(connected, key, first, first_ttl), cache, replies);
            let end = settle(
                store_step(between.connected, key, second, second_ttl),
                between.cache,
                later_replies,
            );
            &&& end.outcome is Ok
            &&& end.cache[key] == stored_entry(second, second_ttl)
            &&& end.cache == cache.insert(key, stored_entry(second, second_ttl))
            &&& end.cache == settle(
                store_step(connected, key, second, second_ttl),
                cache,
                later_replies,
            ).cache
        }),
{
    lemma_store_leaves_entry(connected, key, first, first_ttl, cache, replies);
    let between = settle(store_step(connected, key, first, first_ttl), cache, replies);
    lemma_store_leaves_entry(true, key, second, second_ttl, between.cache, later_replies);
    lemma_store_leaves_entry(connected, key, second, second_ttl, cache, later_replies);
}

/// A request to store `payload` under `key` for `ttl` seconds.
pub struct StoreRequest {
    pub key: Seq<char>,
    pub payload: Payload,
    pub ttl: int,
}

/// Runs the store operations for `requests` one at a time, each to its
/// end before the next begins, against a service that carries out every
/// command. This is how operations reach the service when each holds the
/// client until it has finished.
pub open spec fn settle_in_turn(
    connected: bool,
    requests: Seq<StoreRequest>,
    cache: Map<Seq<char>, CacheEntry>,
) -> Settled
    decreases requests.len(),
{
    if requests.len() == 0 {
        Settled { cache, connected, outcome: Ok(()), sent: Seq::empty() }
    } else {
        let before = settle_in_turn(connected, requests.drop_last(), cache);
        let last = requests.last();
        let end = settle(
            store_step(before.connected, last.key, last.payload, last.ttl),
            before.cache,
            seq![true, true, true],
        );
        Settled { sent: before.sent + end.sent, ..end }
    }
}

/// Whether one of `requests` is for `key`.
pub open spec fn names_key(requests: Seq<StoreRequest>, key: Seq<char>) -> bool {
    exists|i: int| 0 <= i < requests.len() && #[trigger] requests[i].key == key
}

/// Whether `after` holds under `key` just what `before` held.
pub open spec fn untouched(
    before: Map<Seq<char>, CacheEntry>,
    after: Map<Seq<char>, CacheEntry>,
    key: Seq<char>,
) -> bool {
    &&& after.dom().contains(key) == before.dom().contains(key)
    &&& before.dom().contains(key) ==> after[key] == before[key]
}

/// Store operations under keys that all differ, run one at a time against
/// a responsive service, all succeed, and afterwards each payload's text
/// stands under its own key with its own window. Every other key holds
/// what it held before.
pub proof fn lemma_stores_in_turn_are_each_visible(
    connected: bool,
    requests: Seq<StoreRequest>,
    cache: Map<Seq<char>, CacheEntry>,
)
    requires
        forall|i: int|
            0 <= i < requests.len() ==> json_text(#[trigger] requests[i].payload) is Some,
        forall|i: int, j: int|
            0 <= i < j < requests.len() ==> #[trigger] requests[i].key
                != #[trigger] requests[j].key,
    ensures
        ({
            let end = settle_in_turn(connected, requests, cache);
            &&& end.outcome is Ok
            &&& forall|i: int|
                0 <= i < requests.len() ==> end.cache.dom().contains(#[trigger] requests[i].key)
                    && end.cache[requests[i].key] == stored_entry(
                    requests[i].payload,
                    requests[i].ttl,
                )
            &&& forall|key: Seq<char>|
                !names_key(requests, key) ==> #[trigger] untouched(cache, end.cache, key)
        }),
    decreases requests.len(),
{
    if requests.len() > 0 {
        let earlier = requests.drop_last();
        let last = requests.last();
        assert forall|i: int| 0 <= i < earlier.len() implies json_text(
            #[trigger] earlier[i].payload,
        ) is Some by {
            assert(earlier[i] == requests[i]);
        }
        assert forall|i: int, j: int| 0 <= i < j < earlier.len() implies #[trigger] earlier[i].key
            != #[trigger] earlier[j].key by {
            assert(earlier[i] == requests[i]);
            assert(earlier[j] == requests[j]);
        }
        lemma_stores_in_turn_are_each_visible(connected, earlier, cache);
        let before = settle_in_turn(connected, earlier, cache);
        lemma_store_leaves_entry(
            before.connected,
            last.key,
            last.payload,
            last.ttl,
            before.cache,
            seq![true, true, true],
        );
        let end = settle_in_turn(connected, requests, cache);
        assert(end.cache == before.cache.insert(last.key, stored_entry(last.payload, last.ttl)));
        assert forall|i: int| 0 <= i < requests.len() implies end.cache.dom().contains(
            #[trigger] requests[i].key,
        ) && end.cache[requests[i].key] == stored_entry(requests[i].payload, requests[i].ttl) by {
            if i < earlier.len() {
                assert(earlier[i] == requests[i]);
                assert(requests[i].key != requests[requests.len() - 1].key);
            }
        }
        assert forall|key: Seq<char>| !names_key(requests, key) implies #[trigger] untouched(
            cache,
            end.cache,
            key,
        ) by {
            assert(requests[requests.len() - 1].key != key);
            if names_key(earlier, key) {
                let i = choose|i: int| 0 <= i < earlier.len() && #[trigger] earlier[i].key == key;
                assert(earlier[i] == requests[i]);
            }
            assert(untouched(cache, before.cache, key));
        }
    }
}

/// The number of times that the connection was asked for.
pub open spec fn connections_asked(sent: Seq<CacheCommandView>) -> nat
    decreases sent.len(),
{
    if sent.len() == 0 {
        0
    } else {
        connections_asked(sent.drop_last()) + if sent.last() is Connect {
            1nat
        } else {
            0nat
        }
    }
}

proof fn lemma_connections_asked_adds_up(sent: Seq<CacheCommandView>, more: Seq<CacheCommandView>)
    ensures
        connections_asked(sent + more) == connections_asked(sent) + connections_asked(more),
    decreases more.len(),
{
    if more.len() == 0 {
        assert(sent + more =~= sent);
    } else {
        assert((sent + more).drop_last() =~= sent + more.drop_last());
        lemma_connections_asked_adds_up(sent, more.drop_last());
    }
}

/// The connection is made once and used from then on: over any number of
/// store operations that run one at a time against a responsive service,
/// the connection is asked for by the first of them if the client had
/// none, and never again.
pub proof fn lemma_connection_is_made_once(
    connected: bool,
    requests: Seq<StoreRequest>,
    cache: Map<Seq<char>, CacheEntry>,
)
    ensures
        ({
            let end = settle_in_turn(connected, requests, cache);
            &&& end.connected == (connected || requests.len() > 0)
            &&& connections_asked(end.sent) == if connected || requests.len() == 0 {
                0nat
            } else {
                1nat
            }
            &&& !connected && requests.len() > 0 ==> end.sent.first() is Connect
        }),
    decreases requests.len(),
{
    if requests.len() > 0 {
        reveal_with_fuel(settle, 4);
        reveal_with_fuel(connections_asked, 4);
        let earlier = requests.drop_last();
        let last = requests.last();
        lemma_connection_is_made_once(connected, earlier, cache);
        let before = settle_in_turn(connected, earlier, cache);
        let end = settle(
            store_step(before.connected, last.key, last.payload, last.ttl),
            before.cache,
            seq![true, true, true],
        );
        lemma_connections_asked_adds_up(before.sent, end.sent);
        if earlier.len() == 0 {
            assert(before.sent + end.sent =~= end.sent);
        }
    }
}

/// Handling a notification step by step comes to what the store
/// operation behind it comes to, with a failure wrapped for the host.
pub proof fn lemma_notification_follows_store(
    step: StepView,
    cache: Map<Seq<char>, CacheEntry>,
    replies: Seq<bool>,
)
    ensures
        settle_notification(forwarded(step), cache, replies) == reported(
            settle(step, cache, replies),
        ),
    decreases commands_ahead(step),
{
    match step {
        StepView::Finished { connected, outcome } => {},
        StepView::Perform { command, pending } => {
            let done = replies.len() > 0 && replies[0];
            lemma_notification_follows_store(
                resume_step(pending, done),
                if done {
                    effect(cache, command)
                } else {
                    cache
                },
                replies.skip(1),
            );
        },
    }
}

/// A notification with the sentinel signature succeeds without a single
/// command: the service is not written to, whatever it would have
/// answered, and the client is as it was.
pub proof fn lemma_sentinel_is_passed_over(
    connected: bool,
    event: EventView,
    cache: Map<Seq<char>, CacheEntry>,
    replies: Seq<bool>,
)
    requires
        is_sentinel(event.signature),
    ensures
        settle_notification(notify_step(connected, event), cache, replies) == (NotifySettled {
            cache,
            connected,
            outcome: Ok(()),
            sent: Seq::empty(),
        }),
{
}

/// A notification with any other signature comes to exactly one store
/// operation, under the signature's text and for the fixed window.
pub proof fn lemma_notification_stores_once(
    connected: bool,
    event: EventView,
    cache: Map<Seq<char>, CacheEntry>,
    replies: Seq<bool>,
)
    requires
        !is_sentinel(event.signature),
        signature_text(event.signature).len() > 0,
    ensures
        settle_notification(notify_step(connected, event), cache, replies) == reported(
            settle(
                store_step(
                    connected,
                    signature_text(event.signature),
                    event.payload,
                    CACHE_TTL_SECONDS as int,
                ),
                cache,
                replies,
            ),
        ),
{
    lemma_notification_follows_store(
        store_step(
            connected,
            signature_text(event.signature),
            event.payload,
            CACHE_TTL_SECONDS as int,
        ),
        cache,
        replies,
    );
}

} // verus!
