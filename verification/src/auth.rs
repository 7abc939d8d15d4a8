//! The token-to-session handshake: a state machine over the session
//! record.  The remote calls themselves happen outside the library; their
//! outcomes are handed back in as events, and every transition is decided
//! and checked here.

use vstd::prelude::*;

use crate::tmdb::spec_approval_url;
use crate::tmdb::spec_session_new_url;
use crate::tmdb::spec_token_new_url;
use crate::tmdb::approval_url;
use crate::tmdb::session_new_url;
use crate::tmdb::token_new_url;

verus! {

/// Errors of the handshake and of operations that need a session.
pub enum AuthError {
    /// No authenticated session exists; the handshake has not completed.
    NoSession,
    /// The user has not yet approved the request token; retry after
    /// approval.
    NotApproved,
    /// The transport failed; the cause is the transport's description.
    Network { cause: String },
    /// A response could not be read in the expected shape.
    Schema { cause: String },
}

impl AuthError {
    pub open spec fn spec_message(self) -> Seq<char> {
        match self {
            AuthError::NoSession => "No TMDB API key or session ID"@,
            AuthError::NotApproved => "Error creating session ID. Make sure you approve the link."@,
            AuthError::Network { cause } => cause@,
            AuthError::Schema { cause } => cause@,
        }
    }

    /// User-facing description of the failure.
    pub fn message(&self) -> (r: String)
        ensures
            r@ == self.spec_message(),
    {
        match self {
            AuthError::NoSession => "No TMDB API key or session ID".to_owned(),
            AuthError::NotApproved => "Error creating session ID. Make sure you approve the link.".to_owned(),
            AuthError::Network { cause } => cause.clone(),
            AuthError::Schema { cause } => cause.clone(),
        }
    }
}

/// Where the handshake stands.
#[derive(Clone, Copy, PartialEq, Eq, Structural, Debug)]
pub enum AuthState {
    /// No session and no outstanding request token.
    Unauthenticated,
    /// A request token awaits the user's out-of-band approval.
    TokenIssued,
    /// A session id exists; authenticated operations may proceed.
    Authenticated,
}

/// Outcome of the remote token-creation call, reported by the caller
/// that performed it.
pub enum TokenOutcome {
    /// The catalog issued a request token.
    Issued { request_token: String },
    /// The transport failed.
    TransportFailed { cause: String },
    /// The response had an unexpected shape.
    Malformed { cause: String },
}

/// Outcome of the remote session-creation call, reported by the caller
/// that performed it.
pub enum RedeemOutcome {
    /// The catalog exchanged the approved token for a session id.
    Approved { session_id: String },
    /// The catalog reports the token as not yet approved by the user.
    NotApproved,
    /// The transport failed.
    TransportFailed { cause: String },
    /// The response had an unexpected shape.
    Malformed { cause: String },
}

/// A freshly issued request token together with the URL the user must
/// visit to approve it.
pub struct TokenGrant {
    pub request_token: String,
    pub approval_url: String,
}

/// The session-creation request: where to send it and the token that
/// travels in its body.
pub struct SessionRequest {
    pub url: String,
    pub request_token: String,
}

/// Owns the session record and drives the handshake.
pub struct AuthSessionManager {
    pub api_key: String,
    pub request_token: Option<String>,
    pub session_id: Option<String>,
}

impl AuthSessionManager {
    /// The state is read off the record: a session id means
    /// authenticated; otherwise an outstanding token means the handshake
    /// is half way; otherwise it has not begun.
    pub open spec fn spec_state(&self) -> AuthState {
        if self.session_id is Some {
            AuthState::Authenticated
        } else if self.request_token is Some {
            AuthState::TokenIssued
        } else {
            AuthState::Unauthenticated
        }
    }

    pub fn new(api_key: String, session_id: Option<String>) -> (m: Self)
        ensures
            m.api_key == api_key,
            m.session_id == session_id,
            m.request_token is None,
            session_id is Some ==> m.spec_state() == AuthState::Authenticated,
            session_id is None ==> m.spec_state() == AuthState::Unauthenticated,
    {
        Self { api_key, request_token: None, session_id }
    }

    pub fn state(&self) -> (s: AuthState)
        ensures
            s == self.spec_state(),
    {
        if self.session_id.is_some() {
            AuthState::Authenticated
        } else if self.request_token.is_some() {
            AuthState::TokenIssued
        } else {
            AuthState::Unauthenticated
        }
    }

    /// Succeeds exactly in the authenticated state; any operation that
    /// needs a session must pass through this check first.
    pub fn ensure_authenticated(&self) -> (r: Result<(), AuthError>)
        ensures
            r is Ok <==> self.spec_state() == AuthState::Authenticated,
            r matches Err(e) ==> e == AuthError::NoSession,
    {
        if self.session_id.is_some() {
            Ok(())
        } else {
            Err(AuthError::NoSession)
        }
    }

    /// First step of the handshake: the URL of the token-creation call.
    /// Valid only before the handshake has begun.
    pub fn token_request(&self) -> (url: String)
        requires
            self.spec_state() == AuthState::Unauthenticated,
        ensures
            url@ == spec_token_new_url(self.api_key@),
    {
        token_new_url(self.api_key.as_str())
    }

    /// Applies the outcome of the token-creation call.  On an issued
    /// token the state advances to `TokenIssued` and the grant carries
    /// the token with its approval URL; on a failure the state is
    /// unchanged and the failure is surfaced, never swallowed.
    pub fn token_complete(&mut self, outcome: TokenOutcome) -> (r: Result<TokenGrant, AuthError>)
        requires
            old(self).spec_state() == AuthState::Unauthenticated,
        ensures
            final(self).api_key == old(self).api_key,
            final(self).session_id == old(self).session_id,
            (outcome matches TokenOutcome::Issued { request_token } ==> {
                &&& final(self).spec_state() == AuthState::TokenIssued
                &&& final(self).request_token matches Some(t) && t@ == request_token@
                &&& r matches Ok(g) && g.request_token@ == request_token@ && g.approval_url@
                    == spec_approval_url(request_token@)
            }),
            (outcome matches TokenOutcome::TransportFailed { cause } ==> {
                &&& *final(self) == *old(self)
                &&& r matches Err(e) && e == (AuthError::Network { cause })
            }),
            (outcome matches TokenOutcome::Malformed { cause } ==> {
                &&& *final(self) == *old(self)
                &&& r matches Err(e) && e == (AuthError::Schema { cause })
            }),
    {
        match outcome {
            TokenOutcome::Issued { request_token } => {
                let url = approval_url(request_token.as_str());
                self.request_token = Some(request_token.clone());
                Ok(TokenGrant { request_token, approval_url: url })
            },
            TokenOutcome::TransportFailed { cause } => Err(AuthError::Network { cause }),
            TokenOutcome::Malformed { cause } => Err(AuthError::Schema { cause }),
        }
    }

    /// Second step of the handshake: the session-creation request.  Fails
    /// with `NoSession` in any state but `TokenIssued` — in particular,
    /// before a token was issued — and the failure is decided here,
    /// before anything touches the network.
    pub fn redeem_request(&self) -> (r: Result<SessionRequest, AuthError>)
        ensures
            r is Ok <==> self.spec_state() == AuthState::TokenIssued,
            r matches Ok(q) ==> self.request_token matches Some(t) && q.url@
                == spec_session_new_url(self.api_key@) && q.request_token@ == t@,
            r matches Err(e) ==> e == AuthError::NoSession,
    {
        if self.session_id.is_some() {
            return Err(AuthError::NoSession);
        }
        match &self.request_token {
            None => Err(AuthError::NoSession),
            Some(token) => Ok(
                SessionRequest {
                    url: session_new_url(self.api_key.as_str()),
                    request_token: token.clone(),
                },
            ),
        }
    }

    /// Applies the outcome of the session-creation call.  Approval stores
    /// the session id and reaches the terminal `Authenticated` state; a
    /// not-yet-approved token keeps the state at `TokenIssued` so the
    /// same token can be redeemed again after the user approves; other
    /// failures also leave the record unchanged.
    pub fn redeem_complete(&mut self, outcome: RedeemOutcome) -> (r: Result<String, AuthError>)
        requires
            old(self).spec_state() == AuthState::TokenIssued,
        ensures
            final(self).api_key == old(self).api_key,
            (outcome matches RedeemOutcome::Approved { session_id } ==> {
                &&& final(self).spec_state() == AuthState::Authenticated
                &&& final(self).session_id matches Some(s) && s@ == session_id@
                &&& r matches Ok(s) && s@ == session_id@
            }),
            (outcome matches RedeemOutcome::NotApproved ==> {
                &&& *final(self) == *old(self)
                &&& final(self).spec_state() == AuthState::TokenIssued
                &&& r matches Err(e) && e == AuthError::NotApproved
            }),
            (outcome matches RedeemOutcome::TransportFailed { cause } ==> {
                &&& *final(self) == *old(self)
                &&& r matches Err(e) && e == (AuthError::Network { cause })
            }),
            (outcome matches RedeemOutcome::Malformed { cause } ==> {
                &&& *final(self) == *old(self)
                &&& r matches Err(e) && e == (AuthError::Schema { cause })
            }),
    {
        match outcome {
            RedeemOutcome::Approved { session_id } => {
                self.session_id = Some(session_id.clone());
                self.request_token = None;
                Ok(session_id)
            },
            RedeemOutcome::NotApproved => Err(AuthError::NotApproved),
            RedeemOutcome::TransportFailed { cause } => Err(AuthError::Network { cause }),
            RedeemOutcome::Malformed { cause } => Err(AuthError::Schema { cause }),
        }
    }
}

} // verus!
