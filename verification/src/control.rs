//! The control-plane operation: hand a shard a new delivery transport, after
//! proving possession of the shared control secret.
//!
//! The operation is a pure decision: from the process state and the request
//! it either rejects the request (wrong secret, no provider traffic at all)
//! or produces the single shard-transport update to dispatch. The network
//! call itself is made by the unverified server around this crate; the
//! HTTP answer is computed by [`assign_response`] from the decision alone,
//! so the answer does not depend on how the provider call went (the service
//! acknowledges dispatch, not confirmation).

use vstd::prelude::*;

use crate::conduit::Conduit;
use crate::conduit::Shard;
use crate::conduit::ShardView;
use crate::conduit::Transport;
use crate::conduit::TransportView;

verus! {

/// What a transport-reassignment request resolves to.
pub enum AssignDecision {
    /// The provided secret did not match the control secret: answer
    /// with an authorization failure and make no provider call.
    Unauthorized,
    /// The secret matched: dispatch exactly one shard-transport update,
    /// for this shard of the bootstrapped conduit, to the provider.
    Dispatch { conduit_id: String, shard: Shard },
}

/// Mathematical value of an [`AssignDecision`].
pub ghost enum AssignDecisionView {
    Unauthorized,
    Dispatch { conduit_id: Seq<char>, shard: ShardView },
}

impl View for AssignDecision {
    type V = AssignDecisionView;

    open spec fn view(&self) -> AssignDecisionView {
        match self {
            AssignDecision::Unauthorized => AssignDecisionView::Unauthorized,
            AssignDecision::Dispatch { conduit_id, shard } => AssignDecisionView::Dispatch {
                conduit_id: conduit_id@,
                shard: shard@,
            },
        }
    }
}

/// The decision a reassignment request must resolve to: authorized exactly
/// when the provided secret equals the control secret, and then a websocket
/// transport wrapping the request payload, addressed to the requested shard
/// of the bootstrapped conduit.
pub open spec fn assign_decision(
    control_secret: Seq<char>,
    conduit_id: Seq<char>,
    provided_secret: Seq<char>,
    shard_index: Seq<char>,
    payload: Seq<char>,
) -> AssignDecisionView {
    if provided_secret == control_secret {
        AssignDecisionView::Dispatch {
            conduit_id,
            shard: ShardView {
                index: shard_index,
                transport: TransportView::Websocket { session: payload },
            },
        }
    } else {
        AssignDecisionView::Unauthorized
    }
}

/// Process-wide context assembled once after bootstrap and then only read:
/// the bootstrapped conduit's identity and the shared control secret. It has
/// no mutating method, so concurrent request handlers can share it freely.
/// (The provider client handle and the application credential live with the
/// unverified server that owns the network.)
pub struct ControlState {
    pub conduit: Conduit,
    pub control_secret: String,
}

impl ControlState {
    pub fn new(conduit: Conduit, control_secret: String) -> (s: ControlState)
        ensures
            s.conduit@ == conduit@,
            s.control_secret@ == control_secret@,
    {
        ControlState { conduit, control_secret }
    }

    /// Resolve one inbound reassignment request.
    ///
    /// A wrong secret yields `Unauthorized` and nothing else: the decision
    /// carries no update, so a server acting on it makes zero provider
    /// calls. A correct secret yields the one update to dispatch: the
    /// requested shard index, under this conduit, with a websocket
    /// transport wrapping the raw payload unchanged.
    pub fn assign_transport(
        &self,
        provided_secret: &String,
        shard_index: String,
        payload: String,
    ) -> (d: AssignDecision)
        ensures
            d@ == assign_decision(
                self.control_secret@,
                self.conduit@.id,
                provided_secret@,
                shard_index@,
                payload@,
            ),
    {
        if *provided_secret == self.control_secret {
            let transport = Transport::websocket(payload);
            let shard = Shard::new(shard_index, transport);
            AssignDecision::Dispatch { conduit_id: self.conduit.id.clone(), shard }
        } else {
            AssignDecision::Unauthorized
        }
    }
}

/// The HTTP-level answer for a resolved request: a fixed confirmation body
/// once the update was dispatched, or the authorization-failure status.
/// The answer is a function of the decision alone: the outcome of the
/// provider call is logged by the server but never changes the answer.
pub fn assign_response(d: &AssignDecision) -> (r: Result<&'static str, u16>)
    ensures
        d@ is Unauthorized <==> (r matches Err(code) && code == 401u16),
        d@ is Dispatch <==> (r matches Ok(body) && body@ == "Hello world!"@),
{
    match d {
        AssignDecision::Unauthorized => Err(401),
        AssignDecision::Dispatch { .. } => Ok("Hello world!"),
    }
}

/// Concurrent reassignment requests do not interfere: the decision for a
/// request is a function of that request's own secret, shard index and
/// payload (plus the immutable process state), so two authorized requests
/// for different shard indices each dispatch their own update, addressed
/// to distinct shards, and neither changes what the other dispatches.
pub proof fn lemma_assign_independent(
    control_secret: Seq<char>,
    conduit_id: Seq<char>,
    index1: Seq<char>,
    payload1: Seq<char>,
    index2: Seq<char>,
    payload2: Seq<char>,
)
    requires
        index1 != index2,
    ensures
        ({
            let d1 = assign_decision(control_secret, conduit_id, control_secret, index1, payload1);
            let d2 = assign_decision(control_secret, conduit_id, control_secret, index2, payload2);
            &&& d1 == (AssignDecisionView::Dispatch {
                conduit_id,
                shard: ShardView {
                    index: index1,
                    transport: TransportView::Websocket { session: payload1 },
                },
            })
            &&& d2 == (AssignDecisionView::Dispatch {
                conduit_id,
                shard: ShardView {
                    index: index2,
                    transport: TransportView::Websocket { session: payload2 },
                },
            })
            &&& d1->shard.index != d2->shard.index
        }),
{
}

} // verus!
