//! Data model of the provider-side objects the service manipulates: the
//! conduit, a shard's delivery transport, and a subscription request.

use vstd::prelude::*;

verus! {

/// A provider-managed multiplexed delivery channel. At most one is created
/// per deployment; once obtained it is immutable for the process lifetime.
pub struct Conduit {
    /// Identifier assigned by the provider.
    pub id: String,
    /// Number of shards the conduit was sized to.
    pub shard_count: u64,
}

/// Mathematical value of a [`Conduit`].
pub ghost struct ConduitView {
    pub id: Seq<char>,
    pub shard_count: u64,
}

impl View for Conduit {
    type V = ConduitView;

    open spec fn view(&self) -> ConduitView {
        ConduitView { id: self.id@, shard_count: self.shard_count }
    }
}

impl Conduit {
    pub fn new(id: String, shard_count: u64) -> (c: Conduit)
        ensures
            c@ == (ConduitView { id: id@, shard_count }),
    {
        Conduit { id, shard_count }
    }

    /// A fresh value with the same identity; the conduit itself is never
    /// mutated, so the copy is indistinguishable from the original.
    pub fn duplicate(&self) -> (c: Conduit)
        ensures
            c@ == self@,
    {
        Conduit { id: self.id.clone(), shard_count: self.shard_count }
    }
}

/// Where the provider pushes events for a shard: either a dedicated
/// websocket session or the enclosing conduit itself.
pub enum Transport {
    Websocket { session: String },
    ConduitRef { conduit_id: String },
}

/// Mathematical value of a [`Transport`].
pub ghost enum TransportView {
    Websocket { session: Seq<char> },
    ConduitRef { conduit_id: Seq<char> },
}

impl View for Transport {
    type V = TransportView;

    open spec fn view(&self) -> TransportView {
        match self {
            Transport::Websocket { session } => TransportView::Websocket { session: session@ },
            Transport::ConduitRef { conduit_id } => TransportView::ConduitRef {
                conduit_id: conduit_id@,
            },
        }
    }
}

impl Transport {
    /// A websocket transport delivering through the given session.
    pub fn websocket(session: String) -> (t: Transport)
        ensures
            t@ == (TransportView::Websocket { session: session@ }),
    {
        Transport::Websocket { session }
    }

    /// A conduit-relative transport: events flow through the conduit itself.
    pub fn conduit_ref(conduit_id: String) -> (t: Transport)
        ensures
            t@ == (TransportView::ConduitRef { conduit_id: conduit_id@ }),
    {
        Transport::ConduitRef { conduit_id }
    }
}

/// A shard: an addressable sub-channel of a conduit with exactly one active
/// delivery transport.
pub struct Shard {
    /// Small ordinal index, written as the provider writes it (e.g. `"0"`).
    pub index: String,
    pub transport: Transport,
}

/// Mathematical value of a [`Shard`].
pub ghost struct ShardView {
    pub index: Seq<char>,
    pub transport: TransportView,
}

impl View for Shard {
    type V = ShardView;

    open spec fn view(&self) -> ShardView {
        ShardView { index: self.index@, transport: self.transport@ }
    }
}

impl Shard {
    pub fn new(index: String, transport: Transport) -> (s: Shard)
        ensures
            s@ == (ShardView { index: index@, transport: transport@ }),
    {
        Shard { index, transport }
    }
}

/// A request to bind the chat-message topic for one broadcaster, delivered
/// to the subscribing user through a transport (always the conduit here).
pub struct SubscriptionRequest {
    /// Source entity: the broadcaster whose events are subscribed to.
    pub broadcaster_id: String,
    /// Target entity: the subscribing user's own identity.
    pub user_id: String,
    pub transport: Transport,
}

/// Mathematical value of a [`SubscriptionRequest`].
pub ghost struct SubscriptionRequestView {
    pub broadcaster_id: Seq<char>,
    pub user_id: Seq<char>,
    pub transport: TransportView,
}

impl View for SubscriptionRequest {
    type V = SubscriptionRequestView;

    open spec fn view(&self) -> SubscriptionRequestView {
        SubscriptionRequestView {
            broadcaster_id: self.broadcaster_id@,
            user_id: self.user_id@,
            transport: self.transport@,
        }
    }
}

} // verus!
