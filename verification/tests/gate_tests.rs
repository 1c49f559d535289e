use screensnap::gate::{gate_decision, FatalReason};

#[test]
fn unsupported_host_is_fatal() {
    assert_eq!(gate_decision(false, false, false), Err(FatalReason::Unsupported));
    // An unsupported host is fatal whatever the permission answers claim.
    assert_eq!(gate_decision(false, true, true), Err(FatalReason::Unsupported));
}

#[test]
fn held_permission_proceeds() {
    assert_eq!(gate_decision(true, true, false), Ok(()));
}

#[test]
fn granted_request_proceeds() {
    assert_eq!(gate_decision(true, false, true), Ok(()));
}

#[test]
fn refused_request_is_fatal() {
    assert_eq!(gate_decision(true, false, false), Err(FatalReason::PermissionDenied));
}
