use wallpaperflix::auth::AuthError;
use wallpaperflix::auth::AuthSessionManager;
use wallpaperflix::auth::AuthState;
use wallpaperflix::auth::RedeemOutcome;
use wallpaperflix::auth::TokenOutcome;

#[test]
fn fresh_manager_without_session_is_unauthenticated() {
    let m = AuthSessionManager::new("key".to_string(), None);
    assert_eq!(m.state(), AuthState::Unauthenticated);
    assert!(matches!(m.ensure_authenticated(), Err(AuthError::NoSession)));
}

#[test]
fn manager_with_stored_session_is_authenticated() {
    let m = AuthSessionManager::new("key".to_string(), Some("sid".to_string()));
    assert_eq!(m.state(), AuthState::Authenticated);
    assert!(m.ensure_authenticated().is_ok());
}

#[test]
fn redeem_while_unauthenticated_fails_with_no_session() {
    // The request builder is pure: the failure is decided before any
    // network call could be made.
    let m = AuthSessionManager::new("key".to_string(), None);
    assert_eq!(m.state(), AuthState::Unauthenticated);
    assert!(matches!(m.redeem_request(), Err(AuthError::NoSession)));
}

#[test]
fn token_issue_advances_to_token_issued() {
    let mut m = AuthSessionManager::new("key".to_string(), None);
    let url = m.token_request();
    assert_eq!(
        url,
        "https://api.themoviedb.org/3/authentication/token/new?api_key=key"
    );
    let grant = m
        .token_complete(TokenOutcome::Issued { request_token: "tok".to_string() })
        .ok()
        .unwrap();
    assert_eq!(grant.request_token, "tok");
    assert_eq!(grant.approval_url, "https://www.themoviedb.org/authenticate/tok");
    assert_eq!(m.state(), AuthState::TokenIssued);
}

#[test]
fn token_failures_leave_the_state_unchanged() {
    let mut m = AuthSessionManager::new("key".to_string(), None);
    let r = m.token_complete(TokenOutcome::TransportFailed { cause: "timed out".to_string() });
    assert!(matches!(r, Err(AuthError::Network { .. })));
    assert_eq!(m.state(), AuthState::Unauthenticated);
    let r = m.token_complete(TokenOutcome::Malformed { cause: "bad json".to_string() });
    assert!(matches!(r, Err(AuthError::Schema { .. })));
    assert_eq!(m.state(), AuthState::Unauthenticated);
}

#[test]
fn redeem_before_approval_then_after_approval() {
    let mut m = AuthSessionManager::new("key".to_string(), None);
    m.token_complete(TokenOutcome::Issued { request_token: "tok".to_string() })
        .ok()
        .unwrap();

    // The session request carries the token in its body.
    let request = m.redeem_request().ok().unwrap();
    assert_eq!(
        request.url,
        "https://api.themoviedb.org/3/authentication/session/new?api_key=key"
    );
    assert_eq!(request.request_token, "tok");

    // The remote service has not seen the approval yet.
    let r = m.redeem_complete(RedeemOutcome::NotApproved);
    assert!(matches!(r, Err(AuthError::NotApproved)));
    assert_eq!(m.state(), AuthState::TokenIssued);

    // After the user approves, the same token redeems successfully.
    let request = m.redeem_request().ok().unwrap();
    assert_eq!(request.request_token, "tok");
    let sid = m
        .redeem_complete(RedeemOutcome::Approved { session_id: "sid".to_string() })
        .ok()
        .unwrap();
    assert_eq!(sid, "sid");
    assert_eq!(m.state(), AuthState::Authenticated);
    assert_eq!(m.session_id, Some("sid".to_string()));
    assert!(m.ensure_authenticated().is_ok());
}

#[test]
fn redeem_transport_and_schema_failures_keep_the_token() {
    let mut m = AuthSessionManager::new("key".to_string(), None);
    m.token_complete(TokenOutcome::Issued { request_token: "tok".to_string() })
        .ok()
        .unwrap();
    let r = m.redeem_complete(RedeemOutcome::TransportFailed { cause: "reset".to_string() });
    assert!(matches!(r, Err(AuthError::Network { .. })));
    assert_eq!(m.state(), AuthState::TokenIssued);
    let r = m.redeem_complete(RedeemOutcome::Malformed { cause: "bad json".to_string() });
    assert!(matches!(r, Err(AuthError::Schema { .. })));
    assert_eq!(m.state(), AuthState::TokenIssued);
    assert_eq!(m.request_token, Some("tok".to_string()));
}

#[test]
fn auth_error_messages() {
    assert_eq!(AuthError::NoSession.message(), "No TMDB API key or session ID");
    assert_eq!(
        AuthError::NotApproved.message(),
        "Error creating session ID. Make sure you approve the link."
    );
    assert_eq!(
        AuthError::Network { cause: "timed out".to_string() }.message(),
        "timed out"
    );
    assert_eq!(
        AuthError::Schema { cause: "bad json".to_string() }.message(),
        "bad json"
    );
}
