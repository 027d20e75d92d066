//! The cache client: one store operation at a time, over one connection
//! that is made on first use.
//!
//! The client talks to no one. A store operation is a short conversation:
//! the client names the command that has to reach the cache service, its
//! owner performs it and reports how it went, and the client names the next
//! command or the operation's result. What is decided here is which
//! commands are sent, with which arguments and in which order, and what a
//! failure at each point means.

use crate::inner_instructions::{
    encode_payload, json_text, payload_view, refusal_text, InnerInstructions, Payload,
};
use vstd::prelude::*;

verus! {

/// Seconds for which a stored entry is kept: one day.
pub const CACHE_TTL_SECONDS: i64 = 86400;

/// Where the cache service listens.
pub const CACHE_URL: &'static str = "redis://3.145.46.242:6379/";

/// A command for the cache service.
#[derive(Clone, Debug, PartialEq, Eq)]
pub enum CacheCommand {
    /// Open the connection over which every later command travels.
    Connect { url: String },
    /// Put `value` under `key`, in place of whatever was there.
    SetValue { key: String, value: String },
    /// Let the entry under `key` lapse `seconds` from now.
    Expire { key: String, seconds: i64 },
}

/// A [`CacheCommand`] as plain values.
pub enum CacheCommandView {
    Connect { url: Seq<char> },
    SetValue { key: Seq<char>, value: Seq<char> },
    Expire { key: Seq<char>, seconds: int },
}

impl View for CacheCommand {
    type V = CacheCommandView;

    open spec fn view(&self) -> CacheCommandView {
        match *self {
            CacheCommand::Connect { url } => CacheCommandView::Connect { url: url@ },
            CacheCommand::SetValue { key, value } => CacheCommandView::SetValue {
                key: key@,
                value: value@,
            },
            CacheCommand::Expire { key, seconds } => CacheCommandView::Expire {
                key: key@,
                seconds: seconds as int,
            },
        }
    }
}

impl CacheCommandView {
    /// A command that may be sent: it goes to the service's address, or
    /// names an entry by a key that is not empty; an expiry lies ahead.
    pub open spec fn wf(self) -> bool {
        match self {
            CacheCommandView::Connect { url } => url == CACHE_URL@,
            CacheCommandView::SetValue { key, value } => key.len() > 0,
            CacheCommandView::Expire { key, seconds } => key.len() > 0 && seconds > 0,
        }
    }
}

/// How a command went.
#[derive(Clone, Debug, PartialEq, Eq)]
pub enum CacheReply {
    /// The service carried it out.
    Done,
    /// It did not get through, or the service refused it; the text says why.
    Failed(String),
}

/// The point at which a store operation failed.
#[derive(Clone, Copy, Debug, PartialEq, Eq)]
pub enum StoreFailure {
    /// The connection could not be made.
    Connection,
    /// The payload has no encoding.
    Serialization,
    /// The value was not written.
    Write,
    /// The value was written, but its expiry was not set.
    Expiry,
}

impl StoreFailure {
    /// Whether the failure ends the process. A connection that cannot be
    /// made does: nothing is retried, and without the connection no later
    /// notification can be served. Every other failure costs one entry.
    pub fn is_fatal(self) -> (fatal: bool)
        ensures
            fatal == (self is Connection),
    {
        match self {
            StoreFailure::Connection => true,
            _ => false,
        }
    }
}

/// The one failure that a store operation reports, with its cause.
#[derive(Clone, Debug, PartialEq, Eq)]
pub struct StoreError {
    pub kind: StoreFailure,
    pub cause: String,
}

/// The client of the cache service. It is handed to a store operation and
/// handed back when the operation has finished, so that no two operations
/// share the connection.
#[derive(Debug)]
pub struct RedisClient {
    connected: bool,
}

enum Stage {
    Connecting { key: String, object: Option<Vec<InnerInstructions>>, ttl: i64 },
    Writing { key: String, ttl: i64 },
    Expiring,
}

/// A store operation that waits for the reply to its last command. The
/// client is bound up in it until it has finished.
pub struct PendingStore {
    stage: Stage,
}

/// Where a [`PendingStore`] stands, and what it still has to send.
pub enum PendingView {
    /// `Connect` was sent; nothing was encoded yet.
    Connecting { key: Seq<char>, payload: Payload, ttl: int },
    /// `SetValue` was sent.
    Writing { key: Seq<char>, ttl: int },
    /// `Expire` was sent.
    Expiring,
}

impl PendingView {
    /// An operation in flight has a key to write under and a window to
    /// grant.
    pub open spec fn wf(self) -> bool {
        match self {
            PendingView::Connecting { key, payload, ttl } => key.len() > 0 && ttl > 0,
            PendingView::Writing { key, ttl } => key.len() > 0 && ttl > 0,
            PendingView::Expiring => true,
        }
    }
}

impl View for PendingStore {
    type V = PendingView;

    closed spec fn view(&self) -> PendingView {
        match self.stage {
            Stage::Connecting { key, object, ttl } => PendingView::Connecting {
                key: key@,
                payload: payload_view(object),
                ttl: ttl as int,
            },
            Stage::Writing { key, ttl } => PendingView::Writing { key: key@, ttl: ttl as int },
            Stage::Expiring => PendingView::Expiring,
        }
    }
}

/// What a store operation asks of its owner next.
pub enum StoreStep {
    /// Perform `command` and hand the reply to `pending`.
    Perform { command: CacheCommand, pending: PendingStore },
    /// The operation is over; the client is free again.
    Finished { client: RedisClient, result: Result<(), StoreError> },
}

/// A [`StoreStep`] as plain values, without the cause of a failure.
pub enum StepView {
    Perform { command: CacheCommandView, pending: PendingView },
    Finished { connected: bool, outcome: Result<(), StoreFailure> },
}

/// A result without the cause's text.
pub open spec fn outcome_of(result: Result<(), StoreError>) -> Result<(), StoreFailure> {
    match result {
        Ok(_) => Ok(()),
        Err(error) => Err(error.kind),
    }
}

impl StepView {
    /// A step asks only for commands that may be sent, and waits only
    /// with a key and a window in hand.
    pub open spec fn wf(self) -> bool {
        match self {
            StepView::Perform { command, pending } => command.wf() && pending.wf(),
            StepView::Finished { .. } => true,
        }
    }
}

impl View for StoreStep {
    type V = StepView;

    open spec fn view(&self) -> StepView {
        match *self {
            StoreStep::Perform { command, pending } => StepView::Perform {
                command: command@,
                pending: pending@,
            },
            StoreStep::Finished { client, result } => StepView::Finished {
                connected: client.connected(),
                outcome: outcome_of(result),
            },
        }
    }
}

/// The text that the encoder gave, or `None` where it refused.
pub open spec fn encoded_text(encoded: Result<String, serde_json::Error>) -> Option<Seq<char>> {
    match encoded {
        Ok(text) => Some(text@),
        Err(_) => None,
    }
}

/// The step once the connection stands and the encoder has answered: the
/// text is sent off under `key`, or the operation ends because there is
/// none.
pub open spec fn encoded_step(key: Seq<char>, text: Option<Seq<char>>, ttl: int) -> StepView {
    match text {
        Some(text) => StepView::Perform {
            command: CacheCommandView::SetValue { key, value: text },
            pending: PendingView::Writing { key, ttl },
        },
        None => StepView::Finished { connected: true, outcome: Err(StoreFailure::Serialization) },
    }
}

/// The step once the connection stands: the payload is encoded and sent
/// off under `key`, or the operation ends because it has no encoding.
pub open spec fn write_step(key: Seq<char>, payload: Payload, ttl: int) -> StepView {
    encoded_step(key, json_text(payload), ttl)
}

/// The first step of a store operation: a client that has no connection
/// yet asks for it before anything else.
pub open spec fn store_step(
    connected: bool,
    key: Seq<char>,
    payload: Payload,
    ttl: int,
) -> StepView {
    if connected {
        write_step(key, payload, ttl)
    } else {
        StepView::Perform {
            command: CacheCommandView::Connect { url: CACHE_URL@ },
            pending: PendingView::Connecting { key, payload, ttl },
        }
    }
}

/// The step after a reply. A failure ends the operation at once; only a
/// connection that was never made leaves the client unconnected.
pub open spec fn resume_step(pending: PendingView, done: bool) -> StepView {
    match pending {
        PendingView::Connecting { key, payload, ttl } => if done {
            write_step(key, payload, ttl)
        } else {
            StepView::Finished { connected: false, outcome: Err(StoreFailure::Connection) }
        },
        PendingView::Writing { key, ttl } => if done {
            StepView::Perform {
                command: CacheCommandView::Expire { key, seconds: ttl },
                pending: PendingView::Expiring,
            }
        } else {
            StepView::Finished { connected: true, outcome: Err(StoreFailure::Write) }
        },
        PendingView::Expiring => StepView::Finished {
            connected: true,
            outcome: if done {
                Ok(())
            } else {
                Err(StoreFailure::Expiry)
            },
        },
    }
}

impl RedisClient {
    /// Whether the connection has been made.
    pub closed spec fn connected(&self) -> bool {
        self.connected
    }

    /// A client that has not been used yet. It has no connection: the first
    /// store operation asks for one.
    pub fn new() -> (client: RedisClient)
        ensures
            !client.connected(),
    {
        RedisClient { connected: false }
    }

    /// Whether the client has its connection.
    pub fn is_connected(&self) -> (connected: bool)
        ensures
            connected == self.connected(),
    {
        self.connected
    }

    /// Goes on with a store operation over the connection, once the
    /// encoder has answered for the payload: its text is sent off, its
    /// refusal ends the operation.
    pub fn write_encoded(
        self,
        key: String,
        encoded: Result<String, serde_json::Error>,
        ttl_seconds: i64,
    ) -> (step: StoreStep)
        requires
            self.connected(),
            key@.len() > 0,
            ttl_seconds > 0,
        ensures
            step@ == encoded_step(key@, encoded_text(encoded), ttl_seconds as int),
            step@.wf(),
    {
        match encoded {
            Ok(value) => StoreStep::Perform {
                command: CacheCommand::SetValue { key: key.clone(), value },
                pending: PendingStore { stage: Stage::Writing { key, ttl: ttl_seconds } },
            },
            Err(error) => StoreStep::Finished {
                client: self,
                result: Err(
                    StoreError { kind: StoreFailure::Serialization, cause: refusal_text(&error) },
                ),
            },
        }
    }

    fn write(
        self,
        key: String,
        object: &Option<Vec<InnerInstructions>>,
        ttl: i64,
    ) -> (step: StoreStep)
        requires
            self.connected(),
            key@.len() > 0,
            ttl > 0,
        ensures
            step@ == write_step(key@, payload_view(*object), ttl as int),
            step@.wf(),
    {
        self.write_encoded(key, encode_payload(object), ttl)
    }

    /// Begins to store `object` under `key`, to be kept for `ttl_seconds`.
    pub fn store_object(
        self,
        key: String,
        object: Option<Vec<InnerInstructions>>,
        ttl_seconds: i64,
    ) -> (step: StoreStep)
        requires
            key@.len() > 0,
            ttl_seconds > 0,
        ensures
            step@ == store_step(self.connected(), key@, payload_view(object), ttl_seconds as int),
            step@.wf(),
    {
        if self.connected {
            self.write(key, &object, ttl_seconds)
        } else {
            StoreStep::Perform {
                command: CacheCommand::Connect { url: CACHE_URL.to_string() },
                pending: PendingStore {
                    stage: Stage::Connecting { key, object, ttl: ttl_seconds },
                },
            }
        }
    }
}

impl PendingStore {
    #[verifier::type_invariant]
    spec fn inv(self) -> bool {
        self@.wf()
    }

    /// Takes the reply to the command that was last asked for, and says
    /// what comes next.
    pub fn resume(self, reply: CacheReply) -> (step: StoreStep)
        ensures
            step@ == resume_step(self@, reply is Done),
            step@.wf(),
            reply matches CacheReply::Failed(cause) ==> (step matches StoreStep::Finished {
                result: Err(error),
                ..
            } && error.cause@ == cause@),
    {
        proof {
            use_type_invariant(&self);
        }
        match self.stage {
            Stage::Connecting { key, object, ttl } => match reply {
                CacheReply::Done => RedisClient { connected: true }.write(key, &object, ttl),
                CacheReply::Failed(cause) => StoreStep::Finished {
                    client: RedisClient { connected: false },
                    result: Err(StoreError { kind: StoreFailure::Connection, cause }),
                },
            },
            Stage::Writing { key, ttl } => match reply {
                CacheReply::Done => StoreStep::Perform {
                    command: CacheCommand::Expire { key, seconds: ttl },
                    pending: PendingStore { stage: Stage::Expiring },
                },
                CacheReply::Failed(cause) => StoreStep::Finished {
                    client: RedisClient { connected: true },
                    result: Err(StoreError { kind: StoreFailure::Write, cause }),
                },
            },
            Stage::Expiring => match reply {
                CacheReply::Done => StoreStep::Finished {
                    client: RedisClient { connected: true },
                    result: Ok(()),
                },
                CacheReply::Failed(cause) => StoreStep::Finished {
                    client: RedisClient { connected: true },
                    result: Err(StoreError { kind: StoreFailure::Expiry, cause }),
                },
            },
        }
    }
}

} // verus!
