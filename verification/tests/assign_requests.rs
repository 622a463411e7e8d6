use conduit_control::AssignDecision;
use conduit_control::Conduit;
use conduit_control::ControlState;
use conduit_control::Shard;
use conduit_control::Transport;
use conduit_control::assign_response;

fn control_state() -> ControlState {
    ControlState::new(
        Conduit::new("conduit-1".to_string(), 1),
        "SECRET-REDACTED".to_string(),
    )
}

#[test]
fn correct_secret_dispatches_one_websocket_update() {
    let state = control_state();
    let decision = state.assign_transport(
        &"SECRET-REDACTED".to_string(),
        "0".to_string(),
        "wss://example/session1".to_string(),
    );
    match &decision {
        AssignDecision::Dispatch { conduit_id, shard } => {
            assert_eq!(conduit_id, "conduit-1");
            let Shard { index, transport } = shard;
            assert_eq!(index, "0");
            match transport {
                Transport::Websocket { session } => assert_eq!(session, "wss://example/session1"),
                _ => panic!("the update must wrap the payload in a websocket transport"),
            }
        }
        AssignDecision::Unauthorized => panic!("a correct secret must be authorized"),
    }
    assert_eq!(assign_response(&decision), Ok("Hello world!"));
}

#[test]
fn wrong_secret_is_unauthorized_and_dispatches_nothing() {
    let state = control_state();
    let decision = state.assign_transport(
        &"SECRET-REDACTED-wrong".to_string(),
        "0".to_string(),
        "wss://example/session1".to_string(),
    );
    assert!(matches!(decision, AssignDecision::Unauthorized));
    assert_eq!(assign_response(&decision), Err(401));
}

#[test]
fn empty_secret_is_unauthorized() {
    let state = control_state();
    let decision = state.assign_transport(
        &String::new(),
        "0".to_string(),
        "wss://example/session1".to_string(),
    );
    assert!(matches!(decision, AssignDecision::Unauthorized));
}

#[test]
fn distinct_shard_indices_are_assigned_independently() {
    let state = control_state();
    let first = state.assign_transport(
        &"SECRET-REDACTED".to_string(),
        "0".to_string(),
        "wss://example/session1".to_string(),
    );
    let second = state.assign_transport(
        &"SECRET-REDACTED".to_string(),
        "1".to_string(),
        "wss://example/session2".to_string(),
    );
    let (index1, session1) = dispatched(&first);
    let (index2, session2) = dispatched(&second);
    assert_eq!(index1, "0");
    assert_eq!(session1, "wss://example/session1");
    assert_eq!(index2, "1");
    assert_eq!(session2, "wss://example/session2");
    assert_ne!(index1, index2);
}

#[test]
fn payload_is_wrapped_verbatim() {
    let state = control_state();
    let payload = "wss://host/path?token=SECRET-REDACTED&x=1 with spaces";
    let decision = state.assign_transport(
        &"SECRET-REDACTED".to_string(),
        "3".to_string(),
        payload.to_string(),
    );
    let (index, session) = dispatched(&decision);
    assert_eq!(index, "3");
    assert_eq!(session, payload);
}

fn dispatched(decision: &AssignDecision) -> (&str, &str) {
    match decision {
        AssignDecision::Dispatch { shard: Shard { index, transport }, .. } => match transport {
            Transport::Websocket { session } => (index.as_str(), session.as_str()),
            _ => panic!("expected a websocket transport"),
        },
        AssignDecision::Unauthorized => panic!("expected an authorized dispatch"),
    }
}
