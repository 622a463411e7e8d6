use conduit_control::BootstrapAction;
use conduit_control::BootstrapConfig;
use conduit_control::BootstrapEvent;
use conduit_control::BootstrapState;
use conduit_control::Conduit;
use conduit_control::SubscriptionOutcome;
use conduit_control::Transport;

fn config(targets: &[&str]) -> BootstrapConfig {
    BootstrapConfig::new(
        1,
        "selfuser".to_string(),
        targets.iter().map(|t| t.to_string()).collect(),
    )
}

#[test]
fn existing_conduit_is_selected_not_created() {
    let config = config(&[]);
    let (state, action) = BootstrapState::start();
    assert!(matches!(action, BootstrapAction::ListConduits));

    let listed = vec![
        Conduit::new("conduit-a".to_string(), 5),
        Conduit::new("conduit-b".to_string(), 9),
    ];
    let (state, action) = state.step(&config, BootstrapEvent::ConduitsListed { conduits: listed });
    match &action {
        BootstrapAction::ResolveSelf { login } => assert_eq!(login, "selfuser"),
        other => panic!("expected ResolveSelf, got {:?}", action_name(other)),
    }
    match &state {
        BootstrapState::ResolvingSelf { conduit } => {
            assert_eq!(conduit.id, "conduit-a");
            assert_eq!(conduit.shard_count, 5);
        }
        _ => panic!("expected ResolvingSelf"),
    }
}

#[test]
fn missing_conduit_is_created_with_configured_shard_count() {
    let config = BootstrapConfig::new(7, "selfuser".to_string(), Vec::new());
    let (state, _) = BootstrapState::start();
    let (state, action) = state.step(&config, BootstrapEvent::ConduitsListed { conduits: vec![] });
    match action {
        BootstrapAction::CreateConduit { shard_count } => assert_eq!(shard_count, 7),
        other => panic!("expected CreateConduit, got {:?}", action_name(&other)),
    }
    let created = Conduit::new("fresh".to_string(), 7);
    let (state, action) = state.step(&config, BootstrapEvent::ConduitCreated { conduit: created });
    assert!(matches!(action, BootstrapAction::ResolveSelf { .. }));
    match state {
        BootstrapState::ResolvingSelf { conduit } => assert_eq!(conduit.id, "fresh"),
        _ => panic!("expected ResolvingSelf"),
    }
}

#[test]
fn unresolved_target_is_skipped_and_others_subscribe() {
    let config = config(&["alice", "doesnotexist", "bob"]);
    let (state, _) = BootstrapState::start();
    let (state, _) = state.step(
        &config,
        BootstrapEvent::ConduitsListed { conduits: vec![Conduit::new("c1".to_string(), 1)] },
    );
    let (state, action) = state.step(
        &config,
        BootstrapEvent::SelfResolved { user_id: Some("self-id".to_string()) },
    );
    match &action {
        BootstrapAction::ResolveTarget { login } => assert_eq!(login, "alice"),
        _ => panic!("expected ResolveTarget alice"),
    }

    // alice resolves and subscribes.
    let (state, action) = state.step(
        &config,
        BootstrapEvent::TargetResolved { user_id: Some("alice-id".to_string()) },
    );
    match &action {
        BootstrapAction::CreateSubscription { request } => {
            assert_eq!(request.broadcaster_id, "alice-id");
            assert_eq!(request.user_id, "self-id");
            match &request.transport {
                Transport::ConduitRef { conduit_id } => assert_eq!(conduit_id, "c1"),
                _ => panic!("subscription must deliver through the conduit"),
            }
        }
        _ => panic!("expected CreateSubscription"),
    }
    let (state, action) = state.step(
        &config,
        BootstrapEvent::SubscriptionFinished { outcome: SubscriptionOutcome::Accepted },
    );

    // the unknown login does not resolve; bootstrap moves on to bob.
    match &action {
        BootstrapAction::ResolveTarget { login } => assert_eq!(login, "doesnotexist"),
        _ => panic!("expected ResolveTarget doesnotexist"),
    }
    let (state, action) = state.step(&config, BootstrapEvent::TargetResolved { user_id: None });
    match &action {
        BootstrapAction::ResolveTarget { login } => assert_eq!(login, "bob"),
        _ => panic!("expected ResolveTarget bob"),
    }

    // bob resolves and subscribes; the run completes.
    let (state, _) = state.step(
        &config,
        BootstrapEvent::TargetResolved { user_id: Some("bob-id".to_string()) },
    );
    let (state, action) = state.step(
        &config,
        BootstrapEvent::SubscriptionFinished { outcome: SubscriptionOutcome::Accepted },
    );
    match &action {
        BootstrapAction::Finish { conduit } => assert_eq!(conduit.id, "c1"),
        _ => panic!("expected Finish"),
    }
    match state {
        BootstrapState::Complete { conduit, subscribed, skipped } => {
            assert_eq!(conduit.id, "c1");
            assert_eq!(subscribed, vec!["alice".to_string(), "bob".to_string()]);
            assert_eq!(skipped, vec!["doesnotexist".to_string()]);
        }
        _ => panic!("expected Complete"),
    }
}

#[test]
fn duplicate_subscription_is_tolerated() {
    let config = config(&["alice"]);
    let (state, _) = BootstrapState::start();
    let (state, _) = state.step(
        &config,
        BootstrapEvent::ConduitsListed { conduits: vec![Conduit::new("c1".to_string(), 1)] },
    );
    let (state, _) = state.step(
        &config,
        BootstrapEvent::SelfResolved { user_id: Some("self-id".to_string()) },
    );
    let (state, _) = state.step(
        &config,
        BootstrapEvent::TargetResolved { user_id: Some("alice-id".to_string()) },
    );
    let (state, action) = state.step(
        &config,
        BootstrapEvent::SubscriptionFinished { outcome: SubscriptionOutcome::Duplicate },
    );
    assert!(matches!(action, BootstrapAction::Finish { .. }));
    match state {
        BootstrapState::Complete { subscribed, skipped, .. } => {
            assert_eq!(subscribed, vec!["alice".to_string()]);
            assert!(skipped.is_empty());
        }
        _ => panic!("a duplicate answer must not keep bootstrap from completing"),
    }
}

#[test]
fn rejected_subscription_is_skipped_not_fatal() {
    let config = config(&["alice", "bob"]);
    let (state, _) = BootstrapState::start();
    let (state, _) = state.step(
        &config,
        BootstrapEvent::ConduitsListed { conduits: vec![Conduit::new("c1".to_string(), 1)] },
    );
    let (state, _) = state.step(
        &config,
        BootstrapEvent::SelfResolved { user_id: Some("self-id".to_string()) },
    );
    let (state, _) = state.step(
        &config,
        BootstrapEvent::TargetResolved { user_id: Some("alice-id".to_string()) },
    );
    let (state, _) = state.step(
        &config,
        BootstrapEvent::SubscriptionFinished { outcome: SubscriptionOutcome::Rejected },
    );
    let (state, _) = state.step(
        &config,
        BootstrapEvent::TargetResolved { user_id: Some("bob-id".to_string()) },
    );
    let (state, _) = state.step(
        &config,
        BootstrapEvent::SubscriptionFinished { outcome: SubscriptionOutcome::Accepted },
    );
    match state {
        BootstrapState::Complete { subscribed, skipped, .. } => {
            assert_eq!(subscribed, vec!["bob".to_string()]);
            assert_eq!(skipped, vec!["alice".to_string()]);
        }
        _ => panic!("expected Complete"),
    }
}

#[test]
fn unresolved_subscriber_identity_is_fatal() {
    let config = config(&["alice"]);
    let (state, _) = BootstrapState::start();
    let (state, _) = state.step(
        &config,
        BootstrapEvent::ConduitsListed { conduits: vec![Conduit::new("c1".to_string(), 1)] },
    );
    let (state, action) = state.step(&config, BootstrapEvent::SelfResolved { user_id: None });
    assert!(matches!(action, BootstrapAction::Abort));
    assert!(matches!(state, BootstrapState::Failed));
}

#[test]
fn no_targets_completes_immediately() {
    let config = config(&[]);
    let (state, _) = BootstrapState::start();
    let (state, _) = state.step(
        &config,
        BootstrapEvent::ConduitsListed { conduits: vec![Conduit::new("c1".to_string(), 3)] },
    );
    let (state, action) = state.step(
        &config,
        BootstrapEvent::SelfResolved { user_id: Some("self-id".to_string()) },
    );
    match &action {
        BootstrapAction::Finish { conduit } => assert_eq!(conduit.id, "c1"),
        _ => panic!("expected Finish"),
    }
    match state {
        BootstrapState::Complete { subscribed, skipped, .. } => {
            assert!(subscribed.is_empty());
            assert!(skipped.is_empty());
        }
        _ => panic!("expected Complete"),
    }
}

#[test]
fn mismatched_answer_is_a_protocol_violation() {
    let config = config(&[]);
    let (state, _) = BootstrapState::start();
    let (state, action) = state.step(
        &config,
        BootstrapEvent::SubscriptionFinished { outcome: SubscriptionOutcome::Accepted },
    );
    assert!(matches!(action, BootstrapAction::Abort));
    assert!(matches!(state, BootstrapState::Failed));
}

fn action_name(action: &BootstrapAction) -> &'static str {
    match action {
        BootstrapAction::ListConduits => "ListConduits",
        BootstrapAction::CreateConduit { .. } => "CreateConduit",
        BootstrapAction::ResolveSelf { .. } => "ResolveSelf",
        BootstrapAction::ResolveTarget { .. } => "ResolveTarget",
        BootstrapAction::CreateSubscription { .. } => "CreateSubscription",
        BootstrapAction::Finish { .. } => "Finish",
        BootstrapAction::Abort => "Abort",
    }
}
