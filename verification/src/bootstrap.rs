//! The startup lifecycle: discover or create the conduit, then attach a
//! chat-message subscription for every configured target broadcaster.
//!
//! All provider traffic happens outside this crate, so the lifecycle is a
//! state machine: [`BootstrapState::start`] names the first action, the
//! unverified driver performs each [`BootstrapAction`] against the provider
//! and feeds the answer back as a [`BootstrapEvent`], and
//! [`BootstrapState::step`] decides the next state and action. The machine
//! is total: an answer that does not fit the pending action ends in
//! [`BootstrapState::Failed`].
//!
//! Per-target failures (an unresolvable login, a rejected or duplicate
//! subscription) are recorded and skipped; they never abort the remaining
//! targets and never keep the machine from completing. Only a missing
//! conduit answer or an unresolvable subscriber identity is fatal.

use vstd::prelude::*;

use crate::conduit::Conduit;
use crate::conduit::ConduitView;
use crate::conduit::SubscriptionRequest;
use crate::conduit::SubscriptionRequestView;
use crate::conduit::Transport;
use crate::conduit::TransportView;

verus! {

impl DeepView for Conduit {
    type V = ConduitView;

    open spec fn deep_view(&self) -> ConduitView {
        self@
    }
}

/// Configuration fixed at startup and never mutated.
pub struct BootstrapConfig {
    /// Shard count to request if a conduit has to be created.
    pub desired_shard_count: u64,
    /// Login of the subscribing user itself.
    pub self_login: String,
    /// Logins of the target broadcasters to subscribe to.
    pub target_logins: Vec<String>,
}

/// Mathematical value of a [`BootstrapConfig`].
pub ghost struct BootstrapConfigView {
    pub desired_shard_count: u64,
    pub self_login: Seq<char>,
    pub target_logins: Seq<Seq<char>>,
}

impl View for BootstrapConfig {
    type V = BootstrapConfigView;

    open spec fn view(&self) -> BootstrapConfigView {
        BootstrapConfigView {
            desired_shard_count: self.desired_shard_count,
            self_login: self.self_login@,
            target_logins: self.target_logins.deep_view(),
        }
    }
}

impl BootstrapConfig {
    pub fn new(desired_shard_count: u64, self_login: String, target_logins: Vec<String>) -> (c:
        BootstrapConfig)
        ensures
            c@ == (BootstrapConfigView {
                desired_shard_count,
                self_login: self_login@,
                target_logins: target_logins.deep_view(),
            }),
    {
        BootstrapConfig { desired_shard_count, self_login, target_logins }
    }
}

/// How the provider answered one subscription-creation attempt.
pub enum SubscriptionOutcome {
    /// The subscription was created.
    Accepted,
    /// The (target, topic) pair was already subscribed. Tolerated: the
    /// target counts as subscribed, and bootstrap goes on.
    Duplicate,
    /// Any other failure. The target is skipped, and bootstrap goes on.
    Rejected,
}

/// The provider's answer to the pending [`BootstrapAction`].
pub enum BootstrapEvent {
    /// Answer to `ListConduits`: the conduits that already exist.
    ConduitsListed { conduits: Vec<Conduit> },
    /// Answer to `CreateConduit`: the conduit the provider created.
    ConduitCreated { conduit: Conduit },
    /// Answer to `ResolveSelf`: the subscriber's identity, if the login
    /// resolved.
    SelfResolved { user_id: Option<String> },
    /// Answer to `ResolveTarget`: the target's identity, if the login
    /// resolved.
    TargetResolved { user_id: Option<String> },
    /// Answer to `CreateSubscription`.
    SubscriptionFinished { outcome: SubscriptionOutcome },
}

/// Mathematical value of a [`BootstrapEvent`].
pub ghost enum BootstrapEventView {
    ConduitsListed { conduits: Seq<ConduitView> },
    ConduitCreated { conduit: ConduitView },
    SelfResolved { user_id: Option<Seq<char>> },
    TargetResolved { user_id: Option<Seq<char>> },
    SubscriptionFinished { outcome: SubscriptionOutcome },
}

impl View for BootstrapEvent {
    type V = BootstrapEventView;

    open spec fn view(&self) -> BootstrapEventView {
        match self {
            BootstrapEvent::ConduitsListed { conduits } => BootstrapEventView::ConduitsListed {
                conduits: conduits.deep_view(),
            },
            BootstrapEvent::ConduitCreated { conduit } => BootstrapEventView::ConduitCreated {
                conduit: conduit@,
            },
            BootstrapEvent::SelfResolved { user_id } => BootstrapEventView::SelfResolved {
                user_id: user_id.deep_view(),
            },
            BootstrapEvent::TargetResolved { user_id } => BootstrapEventView::TargetResolved {
                user_id: user_id.deep_view(),
            },
            BootstrapEvent::SubscriptionFinished { outcome } => {
                BootstrapEventView::SubscriptionFinished { outcome: *outcome }
            },
        }
    }
}

/// What the driver must do next against the provider.
pub enum BootstrapAction {
    /// Ask the provider for the existing conduits.
    ListConduits,
    /// Create a conduit sized to `shard_count` shards.
    CreateConduit { shard_count: u64 },
    /// Resolve the subscriber's own identity from its login.
    ResolveSelf { login: String },
    /// Resolve one target broadcaster's identity from its login.
    ResolveTarget { login: String },
    /// Create the chat-message subscription described by `request`.
    CreateSubscription { request: SubscriptionRequest },
    /// Bootstrap is complete: start serving with this conduit.
    Finish { conduit: Conduit },
    /// Fatal startup error: do not start the control endpoint.
    Abort,
}

/// Mathematical value of a [`BootstrapAction`].
pub ghost enum BootstrapActionView {
    ListConduits,
    CreateConduit { shard_count: u64 },
    ResolveSelf { login: Seq<char> },
    ResolveTarget { login: Seq<char> },
    CreateSubscription { request: SubscriptionRequestView },
    Finish { conduit: ConduitView },
    Abort,
}

impl View for BootstrapAction {
    type V = BootstrapActionView;

    open spec fn view(&self) -> BootstrapActionView {
        match self {
            BootstrapAction::ListConduits => BootstrapActionView::ListConduits,
            BootstrapAction::CreateConduit { shard_count } => BootstrapActionView::CreateConduit {
                shard_count: *shard_count,
            },
            BootstrapAction::ResolveSelf { login } => BootstrapActionView::ResolveSelf {
                login: login@,
            },
            BootstrapAction::ResolveTarget { login } => BootstrapActionView::ResolveTarget {
                login: login@,
            },
            BootstrapAction::CreateSubscription { request } => {
                BootstrapActionView::CreateSubscription { request: request@ }
            },
            BootstrapAction::Finish { conduit } => BootstrapActionView::Finish {
                conduit: conduit@,
            },
            BootstrapAction::Abort => BootstrapActionView::Abort,
        }
    }
}

/// Where the bootstrap lifecycle stands. `subscribed` and `skipped` list the
/// target logins already processed: those whose subscription the provider
/// accepted (or reported as already subscribed), and those skipped over a
/// per-target failure.
pub enum BootstrapState {
    /// Awaiting the list of existing conduits.
    Listing,
    /// Awaiting the newly created conduit.
    Creating,
    /// Awaiting the subscriber's own identity.
    ResolvingSelf { conduit: Conduit },
    /// Awaiting resolution of the target at index `next`.
    ResolvingTarget {
        conduit: Conduit,
        self_id: String,
        next: usize,
        subscribed: Vec<String>,
        skipped: Vec<String>,
    },
    /// Awaiting the subscription outcome for the target at index `next`.
    AwaitingSubscription {
        conduit: Conduit,
        self_id: String,
        next: usize,
        subscribed: Vec<String>,
        skipped: Vec<String>,
    },
    /// Terminal: bootstrap finished and the service may start.
    Complete { conduit: Conduit, subscribed: Vec<String>, skipped: Vec<String> },
    /// Terminal: fatal startup error.
    Failed,
}

/// Mathematical value of a [`BootstrapState`].
pub ghost enum BootstrapStateView {
    Listing,
    Creating,
    ResolvingSelf { conduit: ConduitView },
    ResolvingTarget {
        conduit: ConduitView,
        self_id: Seq<char>,
        next: int,
        subscribed: Seq<Seq<char>>,
        skipped: Seq<Seq<char>>,
    },
    AwaitingSubscription {
        conduit: ConduitView,
        self_id: Seq<char>,
        next: int,
        subscribed: Seq<Seq<char>>,
        skipped: Seq<Seq<char>>,
    },
    Complete { conduit: ConduitView, subscribed: Seq<Seq<char>>, skipped: Seq<Seq<char>> },
    Failed,
}

impl View for BootstrapState {
    type V = BootstrapStateView;

    open spec fn view(&self) -> BootstrapStateView {
        match self {
            BootstrapState::Listing => BootstrapStateView::Listing,
            BootstrapState::Creating => BootstrapStateView::Creating,
            BootstrapState::ResolvingSelf { conduit } => BootstrapStateView::ResolvingSelf {
                conduit: conduit@,
            },
            BootstrapState::ResolvingTarget { conduit, self_id, next, subscribed, skipped } => {
                BootstrapStateView::ResolvingTarget {
                    conduit: conduit@,
                    self_id: self_id@,
                    next: *next as int,
                    subscribed: subscribed.deep_view(),
                    skipped: skipped.deep_view(),
                }
            },
            BootstrapState::AwaitingSubscription { conduit, self_id, next, subscribed, skipped } => {
                BootstrapStateView::AwaitingSubscription {
                    conduit: conduit@,
                    self_id: self_id@,
                    next: *next as int,
                    subscribed: subscribed.deep_view(),
                    skipped: skipped.deep_view(),
                }
            },
            BootstrapState::Complete { conduit, subscribed, skipped } => {
                BootstrapStateView::Complete {
                    conduit: conduit@,
                    subscribed: subscribed.deep_view(),
                    skipped: skipped.deep_view(),
                }
            },
            BootstrapState::Failed => BootstrapStateView::Failed,
        }
    }
}

/// After target `next - 1` was processed (or after the subscriber resolved,
/// with `next == 0`): either move on to resolving target `next`, or, with
/// every target processed, complete.
pub open spec fn model_advance(
    cfg: BootstrapConfigView,
    conduit: ConduitView,
    self_id: Seq<char>,
    next: int,
    subscribed: Seq<Seq<char>>,
    skipped: Seq<Seq<char>>,
) -> (BootstrapStateView, BootstrapActionView) {
    if next < cfg.target_logins.len() {
        (
            BootstrapStateView::ResolvingTarget { conduit, self_id, next, subscribed, skipped },
            BootstrapActionView::ResolveTarget { login: cfg.target_logins[next] },
        )
    } else {
        (
            BootstrapStateView::Complete { conduit, subscribed, skipped },
            BootstrapActionView::Finish { conduit },
        )
    }
}

/// The transition relation of the bootstrap lifecycle, as one total
/// function: what [`BootstrapState::step`] returns, for every state and
/// every event.
pub open spec fn model_step(
    cfg: BootstrapConfigView,
    s: BootstrapStateView,
    e: BootstrapEventView,
) -> (BootstrapStateView, BootstrapActionView) {
    match (s, e) {
        (
            BootstrapStateView::Listing,
            BootstrapEventView::ConduitsListed { conduits },
        ) => {
            if conduits.len() > 0 {
                (
                    BootstrapStateView::ResolvingSelf { conduit: conduits[0] },
                    BootstrapActionView::ResolveSelf { login: cfg.self_login },
                )
            } else {
                (
                    BootstrapStateView::Creating,
                    BootstrapActionView::CreateConduit { shard_count: cfg.desired_shard_count },
                )
            }
        },
        (
            BootstrapStateView::Creating,
            BootstrapEventView::ConduitCreated { conduit },
        ) => (
            BootstrapStateView::ResolvingSelf { conduit },
            BootstrapActionView::ResolveSelf { login: cfg.self_login },
        ),
        (
            BootstrapStateView::ResolvingSelf { conduit },
            BootstrapEventView::SelfResolved { user_id },
        ) => {
            match user_id {
                Some(self_id) => model_advance(
                    cfg,
                    conduit,
                    self_id,
                    0,
                    Seq::empty(),
                    Seq::empty(),
                ),
                None => (BootstrapStateView::Failed, BootstrapActionView::Abort),
            }
        },
        (
            BootstrapStateView::ResolvingTarget { conduit, self_id, next, subscribed, skipped },
            BootstrapEventView::TargetResolved { user_id },
        ) => {
            if 0 <= next < cfg.target_logins.len() {
                match user_id {
                    Some(target_id) => (
                        BootstrapStateView::AwaitingSubscription {
                            conduit,
                            self_id,
                            next,
                            subscribed,
                            skipped,
                        },
                        BootstrapActionView::CreateSubscription {
                            request: SubscriptionRequestView {
                                broadcaster_id: target_id,
                                user_id: self_id,
                                transport: TransportView::ConduitRef { conduit_id: conduit.id },
                            },
                        },
                    ),
                    None => model_advance(
                        cfg,
                        conduit,
                        self_id,
                        next + 1,
                        subscribed,
                        skipped.push(cfg.target_logins[next]),
                    ),
                }
            } else {
                (BootstrapStateView::Failed, BootstrapActionView::Abort)
            }
        },
        (
            BootstrapStateView::AwaitingSubscription { conduit, self_id, next, subscribed, skipped },
            BootstrapEventView::SubscriptionFinished { outcome },
        ) => {
            if 0 <= next < cfg.target_logins.len() {
                match outcome {
                    SubscriptionOutcome::Rejected => model_advance(
                        cfg,
                        conduit,
                        self_id,
                        next + 1,
                        subscribed,
                        skipped.push(cfg.target_logins[next]),
                    ),
                    _ => model_advance(
                        cfg,
                        conduit,
                        self_id,
                        next + 1,
                        subscribed.push(cfg.target_logins[next]),
                        skipped,
                    ),
                }
            } else {
                (BootstrapStateView::Failed, BootstrapActionView::Abort)
            }
        },
        _ => (BootstrapStateView::Failed, BootstrapActionView::Abort),
    }
}

/// The run of the machine: from state `s`, feed the events in order and
/// collect the action each transition demands.
pub open spec fn model_run(
    cfg: BootstrapConfigView,
    s: BootstrapStateView,
    events: Seq<BootstrapEventView>,
) -> (BootstrapStateView, Seq<BootstrapActionView>)
    decreases events.len(),
{
    if events.len() == 0 {
        (s, Seq::empty())
    } else {
        let first = model_step(cfg, s, events[0]);
        let rest = model_run(cfg, first.0, events.skip(1));
        (rest.0, seq![first.1] + rest.1)
    }
}

/// The conduit identity a state holds, once one was selected or created.
pub open spec fn state_conduit(s: BootstrapStateView) -> Option<ConduitView> {
    match s {
        BootstrapStateView::Listing => None,
        BootstrapStateView::Creating => None,
        BootstrapStateView::ResolvingSelf { conduit } => Some(conduit),
        BootstrapStateView::ResolvingTarget { conduit, .. } => Some(conduit),
        BootstrapStateView::AwaitingSubscription { conduit, .. } => Some(conduit),
        BootstrapStateView::Complete { conduit, .. } => Some(conduit),
        BootstrapStateView::Failed => None,
    }
}

/// The conduit identity is settled on `c`: the state either holds `c`, or
/// the machine has failed fatally (and will hold nothing else ever).
pub open spec fn conduit_settled(s: BootstrapStateView, c: ConduitView) -> bool {
    s is Failed || state_conduit(s) == Some(c)
}

/// One transition from a settled state keeps the conduit settled and never
/// goes back to discovering or creating a conduit.
proof fn lemma_step_conduit_stable(
    cfg: BootstrapConfigView,
    s: BootstrapStateView,
    e: BootstrapEventView,
    c: ConduitView,
)
    requires
        conduit_settled(s, c),
    ensures
        conduit_settled(model_step(cfg, s, e).0, c),
        !(model_step(cfg, s, e).1 is CreateConduit),
        !(model_step(cfg, s, e).1 is ListConduits),
{
}

/// A whole run from a settled state keeps the conduit settled and creates
/// no conduit.
proof fn lemma_run_conduit_stable(
    cfg: BootstrapConfigView,
    s: BootstrapStateView,
    events: Seq<BootstrapEventView>,
    c: ConduitView,
)
    requires
        conduit_settled(s, c),
    ensures
        conduit_settled(model_run(cfg, s, events).0, c),
        forall|i: int|
            0 <= i < model_run(cfg, s, events).1.len() ==> !(#[trigger] model_run(
                cfg,
                s,
                events,
            ).1[i] is CreateConduit) && !(model_run(cfg, s, events).1[i] is ListConduits),
    decreases events.len(),
{
    if events.len() > 0 {
        let first = model_step(cfg, s, events[0]);
        lemma_step_conduit_stable(cfg, s, events[0], c);
        lemma_run_conduit_stable(cfg, first.0, events.skip(1), c);
        let rest = model_run(cfg, first.0, events.skip(1));
        assert forall|i: int|
            0 <= i < model_run(cfg, s, events).1.len() implies !(#[trigger] model_run(
            cfg,
            s,
            events,
        ).1[i] is CreateConduit) && !(model_run(cfg, s, events).1[i] is ListConduits) by {
            if i > 0 {
                assert(model_run(cfg, s, events).1[i] == rest.1[i - 1]);
            }
        }
    }
}

/// For every startup run in which conduits already exist, bootstrap selects
/// the first conduit the provider lists, never creates a new one, never
/// lists again, and holds no other conduit from then on.
pub proof fn lemma_existing_conduit_reused(
    cfg: BootstrapConfigView,
    events: Seq<BootstrapEventView>,
    conduits: Seq<ConduitView>,
)
    requires
        events.len() > 0,
        events[0] == (BootstrapEventView::ConduitsListed { conduits }),
        conduits.len() > 0,
    ensures
        forall|i: int|
            0 <= i < model_run(cfg, BootstrapStateView::Listing, events).1.len() ==> !(
            #[trigger] model_run(
                cfg,
                BootstrapStateView::Listing,
                events,
            ).1[i] is CreateConduit) && !(model_run(
                cfg,
                BootstrapStateView::Listing,
                events,
            ).1[i] is ListConduits),
        conduit_settled(model_run(cfg, BootstrapStateView::Listing, events).0, conduits[0]),
        model_run(cfg, BootstrapStateView::Listing, events).0 matches BootstrapStateView::Complete {
            conduit,
            ..
        } ==> conduit == conduits[0],
{
    let first = model_step(cfg, BootstrapStateView::Listing, events[0]);
    assert(first.0 == (BootstrapStateView::ResolvingSelf { conduit: conduits[0] }));
    lemma_run_conduit_stable(cfg, first.0, events.skip(1), conduits[0]);
    let rest = model_run(cfg, first.0, events.skip(1));
    assert forall|i: int|
        0 <= i < model_run(cfg, BootstrapStateView::Listing, events).1.len() implies !(
    #[trigger] model_run(cfg, BootstrapStateView::Listing, events).1[i] is CreateConduit) && !(
    model_run(cfg, BootstrapStateView::Listing, events).1[i] is ListConduits) by {
        if i > 0 {
            assert(model_run(cfg, BootstrapStateView::Listing, events).1[i] == rest.1[i - 1]);
        }
    }
}

/// For every startup run in which no conduit exists, exactly one conduit is
/// created — the first action after the empty listing, sized to the
/// configured shard count — no later action creates or lists conduits, and
/// the machine holds the conduit the provider answered with from then on.
pub proof fn lemma_conduit_created_once(
    cfg: BootstrapConfigView,
    events: Seq<BootstrapEventView>,
    created: ConduitView,
)
    requires
        events.len() >= 2,
        events[0] == (BootstrapEventView::ConduitsListed { conduits: Seq::empty() }),
        events[1] == (BootstrapEventView::ConduitCreated { conduit: created }),
    ensures
        model_run(cfg, BootstrapStateView::Listing, events).1[0]
            == (BootstrapActionView::CreateConduit { shard_count: cfg.desired_shard_count }),
        forall|i: int|
            1 <= i < model_run(cfg, BootstrapStateView::Listing, events).1.len() ==> !(
            #[trigger] model_run(
                cfg,
                BootstrapStateView::Listing,
                events,
            ).1[i] is CreateConduit) && !(model_run(
                cfg,
                BootstrapStateView::Listing,
                events,
            ).1[i] is ListConduits),
        conduit_settled(model_run(cfg, BootstrapStateView::Listing, events).0, created),
        model_run(cfg, BootstrapStateView::Listing, events).0 matches BootstrapStateView::Complete {
            conduit,
            ..
        } ==> conduit == created,
{
    let run = model_run(cfg, BootstrapStateView::Listing, events);
    let first = model_step(cfg, BootstrapStateView::Listing, events[0]);
    assert(first.0 is Creating);
    assert(first.1 == (BootstrapActionView::CreateConduit {
        shard_count: cfg.desired_shard_count,
    }));
    let tail = events.skip(1);
    assert(tail[0] == events[1]);
    let second = model_step(cfg, first.0, tail[0]);
    assert(second.0 == (BootstrapStateView::ResolvingSelf { conduit: created }));
    lemma_run_conduit_stable(cfg, second.0, tail.skip(1), created);
    let rest = model_run(cfg, second.0, tail.skip(1));
    assert(run.0 == model_run(cfg, first.0, tail).0);
    assert(model_run(cfg, first.0, tail).0 == rest.0);
    assert forall|i: int| 1 <= i < run.1.len() implies !(
    #[trigger] run.1[i] is CreateConduit) && !(run.1[i] is ListConduits) by {
        let tail_run = model_run(cfg, first.0, tail);
        assert(run.1[i] == tail_run.1[i - 1]);
        if i > 1 {
            assert(tail_run.1[i - 1] == rest.1[i - 2]);
        }
    }
}

/// The event script of the subscription pass from target `k` on, given how
/// each target resolves and how the provider answers each subscription
/// attempt: a resolved target is answered twice (resolution, then
/// subscription outcome), an unresolved one once.
pub open spec fn answer_events(
    resolutions: Seq<Option<Seq<char>>>,
    outcomes: Seq<SubscriptionOutcome>,
    k: int,
) -> Seq<BootstrapEventView>
    decreases resolutions.len() - k,
{
    if 0 <= k < resolutions.len() {
        match resolutions[k] {
            Some(target_id) => seq![
                BootstrapEventView::TargetResolved { user_id: Some(target_id) },
                BootstrapEventView::SubscriptionFinished { outcome: outcomes[k] },
            ] + answer_events(resolutions, outcomes, k + 1),
            None => seq![BootstrapEventView::TargetResolved { user_id: None }] + answer_events(
                resolutions,
                outcomes,
                k + 1,
            ),
        }
    } else {
        Seq::empty()
    }
}

/// Of the targets from `k` on, the logins that end subscribed: those that
/// resolve and whose subscription attempt is not rejected outright.
pub open spec fn subscribed_from(
    cfg: BootstrapConfigView,
    resolutions: Seq<Option<Seq<char>>>,
    outcomes: Seq<SubscriptionOutcome>,
    k: int,
) -> Seq<Seq<char>>
    decreases resolutions.len() - k,
{
    if 0 <= k < resolutions.len() {
        let rest = subscribed_from(cfg, resolutions, outcomes, k + 1);
        if resolutions[k] is Some && !(outcomes[k] is Rejected) {
            seq![cfg.target_logins[k]] + rest
        } else {
            rest
        }
    } else {
        Seq::empty()
    }
}

/// Of the targets from `k` on, the logins that end skipped: those that do
/// not resolve, and those whose subscription attempt is rejected.
pub open spec fn skipped_from(
    cfg: BootstrapConfigView,
    resolutions: Seq<Option<Seq<char>>>,
    outcomes: Seq<SubscriptionOutcome>,
    k: int,
) -> Seq<Seq<char>>
    decreases resolutions.len() - k,
{
    if 0 <= k < resolutions.len() {
        let rest = skipped_from(cfg, resolutions, outcomes, k + 1);
        if resolutions[k] is None || outcomes[k] is Rejected {
            seq![cfg.target_logins[k]] + rest
        } else {
            rest
        }
    } else {
        Seq::empty()
    }
}

/// The subscription pass, from target `k` with `subscribed` and `skipped`
/// already accumulated, runs to completion on any answer script: no mix of
/// per-target failures ever aborts it, and the targets that end subscribed
/// are exactly the accumulated ones plus every remaining target that
/// resolves and is not rejected.
proof fn lemma_run_subscription_loop(
    cfg: BootstrapConfigView,
    conduit: ConduitView,
    self_id: Seq<char>,
    resolutions: Seq<Option<Seq<char>>>,
    outcomes: Seq<SubscriptionOutcome>,
    k: int,
    subscribed: Seq<Seq<char>>,
    skipped: Seq<Seq<char>>,
)
    requires
        resolutions.len() == cfg.target_logins.len(),
        outcomes.len() == resolutions.len(),
        0 <= k <= resolutions.len(),
    ensures
        ({
            let s0 = model_advance(cfg, conduit, self_id, k, subscribed, skipped).0;
            let run = model_run(cfg, s0, answer_events(resolutions, outcomes, k));
            run.0 == (BootstrapStateView::Complete {
                conduit,
                subscribed: subscribed + subscribed_from(cfg, resolutions, outcomes, k),
                skipped: skipped + skipped_from(cfg, resolutions, outcomes, k),
            })
        }),
    decreases resolutions.len() - k,
{
    let s0 = model_advance(cfg, conduit, self_id, k, subscribed, skipped).0;
    let events = answer_events(resolutions, outcomes, k);
    if k == resolutions.len() {
        assert(subscribed + subscribed_from(cfg, resolutions, outcomes, k) =~= subscribed);
        assert(skipped + skipped_from(cfg, resolutions, outcomes, k) =~= skipped);
    } else {
        let login = cfg.target_logins[k];
        let tail = answer_events(resolutions, outcomes, k + 1);
        match resolutions[k] {
            Some(target_id) => {
                let e1 = BootstrapEventView::TargetResolved { user_id: Some(target_id) };
                let e2 = BootstrapEventView::SubscriptionFinished { outcome: outcomes[k] };
                assert(events == seq![e1, e2] + tail);
                assert(events[0] == e1);
                assert(events.skip(1) =~= seq![e2] + tail);
                let step1 = model_step(cfg, s0, e1);
                assert((seq![e2] + tail)[0] == e2);
                assert((seq![e2] + tail).skip(1) =~= tail);
                let step2 = model_step(cfg, step1.0, e2);
                assert(model_run(cfg, s0, events).0 == model_run(cfg, step1.0, events.skip(1)).0);
                assert(model_run(cfg, step1.0, seq![e2] + tail).0 == model_run(
                    cfg,
                    step2.0,
                    tail,
                ).0);
                if outcomes[k] is Rejected {
                    lemma_run_subscription_loop(
                        cfg,
                        conduit,
                        self_id,
                        resolutions,
                        outcomes,
                        k + 1,
                        subscribed,
                        skipped.push(login),
                    );
                    assert(subscribed + subscribed_from(cfg, resolutions, outcomes, k)
                        =~= subscribed + subscribed_from(cfg, resolutions, outcomes, k + 1));
                    assert(skipped + skipped_from(cfg, resolutions, outcomes, k) =~= skipped.push(
                        login,
                    ) + skipped_from(cfg, resolutions, outcomes, k + 1));
                } else {
                    lemma_run_subscription_loop(
                        cfg,
                        conduit,
                        self_id,
                        resolutions,
                        outcomes,
                        k + 1,
                        subscribed.push(login),
                        skipped,
                    );
                    assert(subscribed + subscribed_from(cfg, resolutions, outcomes, k)
                        =~= subscribed.push(login) + subscribed_from(
                        cfg,
                        resolutions,
                        outcomes,
                        k + 1,
                    ));
                    assert(skipped + skipped_from(cfg, resolutions, outcomes, k) =~= skipped
                        + skipped_from(cfg, resolutions, outcomes, k + 1));
                }
            },
            None => {
                let e1 = BootstrapEventView::TargetResolved { user_id: None };
                assert(events == seq![e1] + tail);
                assert(events[0] == e1);
                assert(events.skip(1) =~= tail);
                let step1 = model_step(cfg, s0, e1);
                assert(model_run(cfg, s0, events).0 == model_run(cfg, step1.0, tail).0);
                lemma_run_subscription_loop(
                    cfg,
                    conduit,
                    self_id,
                    resolutions,
                    outcomes,
                    k + 1,
                    subscribed,
                    skipped.push(login),
                );
                assert(subscribed + subscribed_from(cfg, resolutions, outcomes, k) =~= subscribed
                    + subscribed_from(cfg, resolutions, outcomes, k + 1));
                assert(skipped + skipped_from(cfg, resolutions, outcomes, k) =~= skipped.push(login)
                    + skipped_from(cfg, resolutions, outcomes, k + 1));
            },
        }
    }
}

/// For every startup run: once the subscriber's identity resolves, the
/// subscription pass completes for every mix of per-target answers. A
/// target that fails to resolve — or whose subscription the provider
/// rejects — is only skipped: every other target still ends subscribed,
/// and the machine still reaches `Complete`, so the service still starts.
pub proof fn lemma_targets_tolerated(
    cfg: BootstrapConfigView,
    conduit: ConduitView,
    self_id: Seq<char>,
    resolutions: Seq<Option<Seq<char>>>,
    outcomes: Seq<SubscriptionOutcome>,
)
    requires
        resolutions.len() == cfg.target_logins.len(),
        outcomes.len() == resolutions.len(),
    ensures
        ({
            let s0 = model_step(
                cfg,
                BootstrapStateView::ResolvingSelf { conduit },
                BootstrapEventView::SelfResolved { user_id: Some(self_id) },
            ).0;
            let run = model_run(cfg, s0, answer_events(resolutions, outcomes, 0));
            run.0 == (BootstrapStateView::Complete {
                conduit,
                subscribed: subscribed_from(cfg, resolutions, outcomes, 0),
                skipped: skipped_from(cfg, resolutions, outcomes, 0),
            })
        }),
{
    lemma_run_subscription_loop(
        cfg,
        conduit,
        self_id,
        resolutions,
        outcomes,
        0,
        Seq::empty(),
        Seq::empty(),
    );
    assert(Seq::<Seq<char>>::empty() + subscribed_from(cfg, resolutions, outcomes, 0)
        =~= subscribed_from(cfg, resolutions, outcomes, 0));
    assert(Seq::<Seq<char>>::empty() + skipped_from(cfg, resolutions, outcomes, 0)
        =~= skipped_from(cfg, resolutions, outcomes, 0));
}

/// Re-running subscription creation for an already-subscribed pair is
/// non-fatal: the provider's duplicate answer acts exactly like an accepted
/// one, and the machine neither fails nor aborts over it.
pub proof fn lemma_duplicate_subscription_harmless(cfg: BootstrapConfigView, s: BootstrapStateView)
    requires
        s matches BootstrapStateView::AwaitingSubscription { next, .. } && 0 <= next
            < cfg.target_logins.len(),
    ensures
        model_step(
            cfg,
            s,
            BootstrapEventView::SubscriptionFinished { outcome: SubscriptionOutcome::Duplicate },
        ) == model_step(
            cfg,
            s,
            BootstrapEventView::SubscriptionFinished { outcome: SubscriptionOutcome::Accepted },
        ),
        !(model_step(
            cfg,
            s,
            BootstrapEventView::SubscriptionFinished { outcome: SubscriptionOutcome::Duplicate },
        ).0 is Failed),
        !(model_step(
            cfg,
            s,
            BootstrapEventView::SubscriptionFinished { outcome: SubscriptionOutcome::Duplicate },
        ).1 is Abort),
{
}

impl BootstrapState {
    /// The state at process start, and the first action to perform.
    pub fn start() -> (r: (BootstrapState, BootstrapAction))
        ensures
            r.0@ == BootstrapStateView::Listing,
            r.1@ == BootstrapActionView::ListConduits,
    {
        (BootstrapState::Listing, BootstrapAction::ListConduits)
    }

    /// Either resolve the target at `next`, or, with all targets processed,
    /// complete.
    fn advance(
        config: &BootstrapConfig,
        conduit: Conduit,
        self_id: String,
        next: usize,
        subscribed: Vec<String>,
        skipped: Vec<String>,
    ) -> (r: (BootstrapState, BootstrapAction))
        ensures
            (r.0@, r.1@) == model_advance(
                config@,
                conduit@,
                self_id@,
                next as int,
                subscribed.deep_view(),
                skipped.deep_view(),
            ),
    {
        if next < config.target_logins.len() {
            let login = config.target_logins[next].clone();
            (
                BootstrapState::ResolvingTarget { conduit, self_id, next, subscribed, skipped },
                BootstrapAction::ResolveTarget { login },
            )
        } else {
            let finished = conduit.duplicate();
            (
                BootstrapState::Complete { conduit, subscribed, skipped },
                BootstrapAction::Finish { conduit: finished },
            )
        }
    }

    /// One transition of the lifecycle: consume the provider's answer to
    /// the pending action and return the next state and the next action.
    /// The machine follows [`model_step`] exactly; an answer that does not
    /// fit the pending action is a protocol violation and ends in
    /// [`BootstrapState::Failed`].
    pub fn step(self, config: &BootstrapConfig, event: BootstrapEvent) -> (r: (
        BootstrapState,
        BootstrapAction,
    ))
        ensures
            (r.0@, r.1@) == model_step(config@, self@, event@),
    {
        match (self, event) {
            (
                BootstrapState::Listing,
                BootstrapEvent::ConduitsListed { conduits },
            ) => {
                if conduits.len() > 0 {
                    let mut conduits = conduits;
                    let conduit = conduits.remove(0);
                    (
                        BootstrapState::ResolvingSelf { conduit },
                        BootstrapAction::ResolveSelf { login: config.self_login.clone() },
                    )
                } else {
                    (
                        BootstrapState::Creating,
                        BootstrapAction::CreateConduit {
                            shard_count: config.desired_shard_count,
                        },
                    )
                }
            },
            (
                BootstrapState::Creating,
                BootstrapEvent::ConduitCreated { conduit },
            ) => (
                BootstrapState::ResolvingSelf { conduit },
                BootstrapAction::ResolveSelf { login: config.self_login.clone() },
            ),
            (
                BootstrapState::ResolvingSelf { conduit },
                BootstrapEvent::SelfResolved { user_id },
            ) => {
                match user_id {
                    Some(self_id) => {
                        let subscribed: Vec<String> = Vec::new();
                        let skipped: Vec<String> = Vec::new();
                        proof {
                            assert(subscribed.deep_view() =~= Seq::<Seq<char>>::empty());
                            assert(skipped.deep_view() =~= Seq::<Seq<char>>::empty());
                        }
                        Self::advance(config, conduit, self_id, 0, subscribed, skipped)
                    },
                    None => (BootstrapState::Failed, BootstrapAction::Abort),
                }
            },
            (
                BootstrapState::ResolvingTarget { conduit, self_id, next, subscribed, skipped },
                BootstrapEvent::TargetResolved { user_id },
            ) => {
                if next < config.target_logins.len() {
                    match user_id {
                        Some(target_id) => {
                            let request = SubscriptionRequest {
                                broadcaster_id: target_id,
                                user_id: self_id.clone(),
                                transport: Transport::conduit_ref(conduit.id.clone()),
                            };
                            (
                                BootstrapState::AwaitingSubscription {
                                    conduit,
                                    self_id,
                                    next,
                                    subscribed,
                                    skipped,
                                },
                                BootstrapAction::CreateSubscription { request },
                            )
                        },
                        None => {
                            let login = config.target_logins[next].clone();
                            let ghost login_view = login@;
                            let mut skipped = skipped;
                            let ghost old_deep = skipped.deep_view();
                            skipped.push(login);
                            proof {
                                assert(skipped.deep_view() =~= old_deep.push(login_view));
                            }
                            Self::advance(config, conduit, self_id, next + 1, subscribed, skipped)
                        },
                    }
                } else {
                    (BootstrapState::Failed, BootstrapAction::Abort)
                }
            },
            (
                BootstrapState::AwaitingSubscription {
                    conduit,
                    self_id,
                    next,
                    subscribed,
                    skipped,
                },
                BootstrapEvent::SubscriptionFinished { outcome },
            ) => {
                if next < config.target_logins.len() {
                    let login = config.target_logins[next].clone();
                    match outcome {
                        SubscriptionOutcome::Rejected => {
                            let ghost login_view = login@;
                            let mut skipped = skipped;
                            let ghost old_deep = skipped.deep_view();
                            skipped.push(login);
                            proof {
                                assert(skipped.deep_view() =~= old_deep.push(login_view));
                            }
                            Self::advance(config, conduit, self_id, next + 1, subscribed, skipped)
                        },
                        _ => {
                            let ghost login_view = login@;
                            let mut subscribed = subscribed;
                            let ghost old_deep = subscribed.deep_view();
                            subscribed.push(login);
                            proof {
                                assert(subscribed.deep_view() =~= old_deep.push(login_view));
                            }
                            Self::advance(config, conduit, self_id, next + 1, subscribed, skipped)
                        },
                    }
                } else {
                    (BootstrapState::Failed, BootstrapAction::Abort)
                }
            },
            (_, _) => (BootstrapState::Failed, BootstrapAction::Abort),
        }
    }
}

} // verus!
