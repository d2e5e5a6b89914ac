use freelance_flow::license::{interpret_activation, ActivationReply};
use freelance_flow::Error;

#[test]
fn a_valid_activated_key_succeeds() {
    let r = interpret_activation(ActivationReply::Response { valid: true, activated: true });
    assert!(matches!(r, Ok(true)));
}

#[test]
fn an_invalid_key_is_rejected() {
    let r = interpret_activation(ActivationReply::Response { valid: false, activated: true });
    assert!(matches!(r, Err(Error::InvalidLicense)));
}

#[test]
fn a_valid_but_unactivated_key_is_rejected() {
    let r = interpret_activation(ActivationReply::Response { valid: true, activated: false });
    assert!(matches!(r, Err(Error::InvalidLicense)));
}

#[test]
fn an_unreachable_remote_is_a_transport_fault() {
    let r = interpret_activation(ActivationReply::Unreachable {
        detail: "connection timed out".to_string(),
    });
    assert!(matches!(r, Err(Error::Transport(t)) if t == "connection timed out"));
}

#[test]
fn a_non_success_status_surfaces_the_response_body() {
    let r = interpret_activation(ActivationReply::HttpFailure {
        body: "license key not found".to_string(),
    });
    assert!(matches!(r, Err(Error::Transport(t)) if t == "license key not found"));
}

#[test]
fn an_unreadable_body_is_a_transport_fault() {
    let r = interpret_activation(ActivationReply::MalformedBody {
        detail: "missing field valid".to_string(),
    });
    assert!(matches!(r, Err(Error::Transport(t)) if t == "missing field valid"));
}
