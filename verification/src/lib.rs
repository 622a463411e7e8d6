//! Verified core of a multiplexed event-delivery service.
//!
//! The library models two things and proves their behaviour:
//!
//! * the startup lifecycle that discovers or creates a conduit (a
//!   provider-managed multiplexed delivery channel) and attaches event
//!   subscriptions to it, tolerating per-target failures; and
//! * the authenticated control operation that hands a shard of that conduit
//!   a new delivery transport.
//!
//! All network traffic with the event provider happens outside this crate:
//! the bootstrap logic is a state machine whose actions an unverified driver
//! performs, feeding the provider's answers back as events, and the control
//! operation is a pure decision over the request and the process state.

mod bootstrap;
mod conduit;
mod control;

pub use bootstrap::BootstrapAction;
pub use bootstrap::BootstrapActionView;
pub use bootstrap::BootstrapConfig;
pub use bootstrap::BootstrapConfigView;
pub use bootstrap::BootstrapEvent;
pub use bootstrap::BootstrapEventView;
pub use bootstrap::BootstrapState;
pub use bootstrap::BootstrapStateView;
pub use bootstrap::SubscriptionOutcome;
pub use bootstrap::answer_events;
pub use bootstrap::conduit_settled;
pub use bootstrap::lemma_conduit_created_once;
pub use bootstrap::lemma_duplicate_subscription_harmless;
pub use bootstrap::lemma_existing_conduit_reused;
pub use bootstrap::lemma_targets_tolerated;
pub use bootstrap::model_advance;
pub use bootstrap::model_run;
pub use bootstrap::model_step;
pub use bootstrap::skipped_from;
pub use bootstrap::state_conduit;
pub use bootstrap::subscribed_from;

pub use control::AssignDecision;
pub use control::AssignDecisionView;
pub use control::ControlState;
pub use control::assign_decision;
pub use control::assign_response;
pub use control::lemma_assign_independent;

pub use conduit::Conduit;
pub use conduit::ConduitView;
pub use conduit::Shard;
pub use conduit::ShardView;
pub use conduit::SubscriptionRequest;
pub use conduit::SubscriptionRequestView;
pub use conduit::Transport;
pub use conduit::TransportView;
