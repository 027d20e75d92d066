//! The notification adapter: what the host's calls mean for the cache.
//!
//! Of all the notifications only a transaction's leads to anything: its
//! inner instructions are stored under the text of its signature, unless
//! the signature is the sentinel.

use crate::cache::{
    resume_step, store_step, CacheCommand, CacheCommandView, CacheReply, PendingStore,
    PendingView, RedisClient, StepView, StoreError, StoreFailure, StoreStep, CACHE_TTL_SECONDS,
};
use crate::inner_instructions::{payload_view, InnerInstructions, Payload};
use crate::signature::{
    is_sentinel, is_signature_empty, render_signature, signature_text, Signature,
};
use vstd::prelude::*;

verus! {

/// The part of a transaction's status that is read here.
#[derive(Clone, Debug)]
pub struct TransactionStatusMeta {
    /// The inner instructions that the transaction gave rise to, where
    /// they were recorded.
    pub inner_instructions: Option<Vec<InnerInstructions>>,
}

/// A transaction as the first version of the host's interface reports it.
#[derive(Clone, Debug)]
pub struct ReplicaTransactionInfo {
    pub signature: Signature,
    pub is_vote: bool,
    pub transaction_status_meta: TransactionStatusMeta,
}

/// A transaction as the second version reports it: with its place in the
/// block.
#[derive(Clone, Debug)]
pub struct ReplicaTransactionInfoV2 {
    pub signature: Signature,
    pub is_vote: bool,
    pub transaction_status_meta: TransactionStatusMeta,
    pub index: usize,
}

/// A transaction notification, in whichever version the host speaks.
#[derive(Clone, Debug)]
pub enum ReplicaTransactionInfoVersions {
    V0_0_1(ReplicaTransactionInfo),
    V0_0_2(ReplicaTransactionInfoV2),
}

/// What every version of a transaction notification carries.
#[derive(Clone, Debug)]
pub struct TransactionEvent {
    pub signature: Signature,
    pub inner_instructions: Option<Vec<InnerInstructions>>,
}

/// A [`TransactionEvent`] as plain values.
pub struct EventView {
    pub signature: Seq<u8>,
    pub payload: Payload,
}

impl View for TransactionEvent {
    type V = EventView;

    open spec fn view(&self) -> EventView {
        EventView { signature: self.signature@, payload: payload_view(self.inner_instructions) }
    }
}

impl ReplicaTransactionInfoVersions {
    /// The event that a notification stands for.
    pub open spec fn event(self) -> EventView {
        match self {
            ReplicaTransactionInfoVersions::V0_0_1(info) => EventView {
                signature: info.signature@,
                payload: payload_view(info.transaction_status_meta.inner_instructions),
            },
            ReplicaTransactionInfoVersions::V0_0_2(info) => EventView {
                signature: info.signature@,
                payload: payload_view(info.transaction_status_meta.inner_instructions),
            },
        }
    }

    /// Brings a notification of any version into the one form that the
    /// adapter works on.
    pub fn normalize(self) -> (event: TransactionEvent)
        ensures
            event@ == self.event(),
    {
        match self {
            ReplicaTransactionInfoVersions::V0_0_1(info) => TransactionEvent {
                signature: info.signature,
                inner_instructions: info.transaction_status_meta.inner_instructions,
            },
            ReplicaTransactionInfoVersions::V0_0_2(info) => TransactionEvent {
                signature: info.signature,
                inner_instructions: info.transaction_status_meta.inner_instructions,
            },
        }
    }
}

/// A failure as the host is told of it.
#[derive(Clone, Debug, PartialEq, Eq)]
pub enum PluginError {
    /// The store operation failed; its error is handed on as it is.
    Custom(StoreError),
    /// The signature has no text, so there is no key to store under.
    NoCacheKey,
}

impl PluginError {
    /// Whether the failure ends the process: so it is when the store
    /// operation's own failure does.
    pub fn is_fatal(&self) -> (fatal: bool)
        ensures
            fatal == (*self matches PluginError::Custom(error) && error.kind is Connection),
    {
        match self {
            PluginError::Custom(error) => error.kind.is_fatal(),
            PluginError::NoCacheKey => false,
        }
    }
}

/// A [`PluginError`] without the cause's text.
pub enum PluginFailure {
    Custom(StoreFailure),
    NoCacheKey,
}

/// A result as the host is told of it, without the cause's text.
pub open spec fn plugin_outcome(result: Result<(), PluginError>) -> Result<(), PluginFailure> {
    match result {
        Ok(_) => Ok(()),
        Err(PluginError::Custom(error)) => Err(PluginFailure::Custom(error.kind)),
        Err(PluginError::NoCacheKey) => Err(PluginFailure::NoCacheKey),
    }
}

/// The outcome of a store operation, wrapped for the host.
pub open spec fn wrapped(outcome: Result<(), StoreFailure>) -> Result<(), PluginFailure> {
    match outcome {
        Ok(_) => Ok(()),
        Err(kind) => Err(PluginFailure::Custom(kind)),
    }
}

/// What a transaction notification asks of the adapter's owner next.
pub enum NotifyStep {
    /// Perform `command` and hand the reply to
    /// [`SamplePlugin::resume_transaction`] together with `pending`.
    Perform { command: CacheCommand, pending: PendingStore },
    /// The notification has been dealt with; the client is free again.
    Finished { client: RedisClient, result: Result<(), PluginError> },
}

/// A [`NotifyStep`] as plain values.
pub enum NotifyStepView {
    Perform { command: CacheCommandView, pending: PendingView },
    Finished { connected: bool, outcome: Result<(), PluginFailure> },
}

impl NotifyStepView {
    /// A step asks only for commands that may be sent.
    pub open spec fn wf(self) -> bool {
        match self {
            NotifyStepView::Perform { command, pending } => command.wf() && pending.wf(),
            NotifyStepView::Finished { .. } => true,
        }
    }
}

impl View for NotifyStep {
    type V = NotifyStepView;

    open spec fn view(&self) -> NotifyStepView {
        match *self {
            NotifyStep::Perform { command, pending } => NotifyStepView::Perform {
                command: command@,
                pending: pending@,
            },
            NotifyStep::Finished { client, result } => NotifyStepView::Finished {
                connected: client.connected(),
                outcome: plugin_outcome(result),
            },
        }
    }
}

/// A step of the store operation as the notification passes it on: the
/// commands as they are, a failure wrapped for the host.
pub open spec fn forwarded(step: StepView) -> NotifyStepView {
    match step {
        StepView::Perform { command, pending } => NotifyStepView::Perform { command, pending },
        StepView::Finished { connected, outcome } => NotifyStepView::Finished {
            connected,
            outcome: wrapped(outcome),
        },
    }
}

/// The first step once a transaction's key is known: one store operation
/// under that key, for the fixed window. Without a key nothing can be
/// stored, and the notification fails.
pub open spec fn keyed_step(connected: bool, key: Seq<char>, payload: Payload) -> NotifyStepView {
    if key.len() == 0 {
        NotifyStepView::Finished { connected, outcome: Err(PluginFailure::NoCacheKey) }
    } else {
        forwarded(store_step(connected, key, payload, CACHE_TTL_SECONDS as int))
    }
}

/// The first step on a transaction notification. The sentinel is passed
/// over: nothing is sent and the call succeeds. Every other signature
/// leads to one store operation, under the signature's text.
pub open spec fn notify_step(connected: bool, event: EventView) -> NotifyStepView {
    if is_sentinel(event.signature) {
        NotifyStepView::Finished { connected, outcome: Ok(()) }
    } else {
        keyed_step(connected, signature_text(event.signature), event.payload)
    }
}

fn forward(step: StoreStep) -> (notify: NotifyStep)
    ensures
        notify@ == forwarded(step@),
        step@.wf() ==> notify@.wf(),
        step matches StoreStep::Finished { result: Err(error), .. } ==> (notify matches
        NotifyStep::Finished { result: Err(PluginError::Custom(handed_on)), .. } && handed_on
            == error),
{
    match step {
        StoreStep::Perform { command, pending } => NotifyStep::Perform { command, pending },
        StoreStep::Finished { client, result } => NotifyStep::Finished {
            client,
            result: match result {
                Ok(()) => Ok(()),
                Err(error) => Err(PluginError::Custom(error)),
            },
        },
    }
}

/// The adapter that the host loads.
#[derive(Debug)]
pub struct SamplePlugin {
    loaded: bool,
}

impl SamplePlugin {
    /// Whether the host has loaded the adapter and not unloaded it since.
    pub closed spec fn loaded(&self) -> bool {
        self.loaded
    }

    /// An adapter that has not been loaded yet.
    pub fn new() -> (plugin: SamplePlugin)
        ensures
            !plugin.loaded(),
    {
        SamplePlugin { loaded: false }
    }

    /// Whether the adapter is loaded.
    pub fn is_loaded(&self) -> (loaded: bool)
        ensures
            loaded == self.loaded(),
    {
        self.loaded
    }

    /// The name by which the host knows the adapter.
    pub fn name(&self) -> (name: &'static str)
        ensures
            name@ == "SamplePlugin"@,
    {
        "SamplePlugin"
    }

    /// Called when the host loads the adapter, or loads it anew. Always
    /// succeeds.
    #[allow(unused_variables)]
    pub fn on_load(&mut self, config_file: &str, is_reload: bool) -> (result: Result<
        (),
        PluginError,
    >)
        ensures
            result is Ok,
            final(self).loaded(),
    {
        self.loaded = true;
        Ok(())
    }

    /// Called before the host unloads the adapter. There is nothing to
    /// release.
    pub fn on_unload(&mut self)
        ensures
            !final(self).loaded(),
    {
        self.loaded = false;
    }

    /// An account changed. Nothing is done about it.
    #[allow(unused_variables)]
    pub fn update_account(&self, slot: u64, is_startup: bool) -> (result: Result<(), PluginError>)
        ensures
            result is Ok,
    {
        Ok(())
    }

    /// The host has replayed its snapshot. Nothing is done about it.
    pub fn notify_end_of_startup(&self) -> (result: Result<(), PluginError>)
        ensures
            result is Ok,
    {
        Ok(())
    }

    /// A transaction was processed in `slot`.
    #[allow(unused_variables)]
    pub fn notify_transaction(
        &self,
        client: RedisClient,
        info: ReplicaTransactionInfoVersions,
        slot: u64,
    ) -> (step: NotifyStep)
        ensures
            step@ == notify_step(client.connected(), info.event()),
            step@.wf(),
    {
        let event = info.normalize();
        if is_signature_empty(&event.signature) {
            return NotifyStep::Finished { client, result: Ok(()) };
        }
        let key = render_signature(&event.signature);
        self.store_transaction(client, key, event.inner_instructions)
    }

    /// Stores a transaction's inner instructions under `key`, the text of
    /// its signature.
    pub fn store_transaction(
        &self,
        client: RedisClient,
        key: String,
        inner_instructions: Option<Vec<InnerInstructions>>,
    ) -> (step: NotifyStep)
        ensures
            step@ == keyed_step(client.connected(), key@, payload_view(inner_instructions)),
            step@.wf(),
    {
        if key.as_str().is_empty() {
            return NotifyStep::Finished { client, result: Err(PluginError::NoCacheKey) };
        }
        forward(client.store_object(key, inner_instructions, CACHE_TTL_SECONDS))
    }

    /// Takes the reply to the command that a transaction notification
    /// last asked for, and says what comes next.
    pub fn resume_transaction(&self, pending: PendingStore, reply: CacheReply) -> (step: NotifyStep)
        ensures
            step@ == forwarded(resume_step(pending@, reply is Done)),
            step@.wf(),
            reply matches CacheReply::Failed(cause) ==> (step matches NotifyStep::Finished {
                result: Err(PluginError::Custom(error)),
                ..
            } && error.cause@ == cause@),
    {
        forward(pending.resume(reply))
    }

    /// An entry was recorded. Nothing is done about it.
    pub fn notify_entry(&self) -> (result: Result<(), PluginError>)
        ensures
            result is Ok,
    {
        Ok(())
    }

    /// A block's metadata is known. Nothing is done about it.
    pub fn notify_block_metadata(&self) -> (result: Result<(), PluginError>)
        ensures
            result is Ok,
    {
        Ok(())
    }

    /// Account updates are asked for.
    pub fn account_data_notifications_enabled(&self) -> (enabled: bool)
        ensures
            enabled,
    {
        true
    }

    /// Transaction notifications are asked for.
    pub fn transaction_notifications_enabled(&self) -> (enabled: bool)
        ensures
            enabled,
    {
        true
    }

    /// Entry notifications are asked for.
    pub fn entry_notifications_enabled(&self) -> (enabled: bool)
        ensures
            enabled,
    {
        true
    }
}

} // verus!
