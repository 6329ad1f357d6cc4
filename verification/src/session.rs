use vstd::prelude::*;

verus! {

/// The first half of the wallet handshake: request a login challenge with
/// the permission scope the pipeline needs and no expiry.
pub struct AuthLoginRequest {
    pub permissions: Vec<String>,
    pub duration_secs: Option<u64>,
}

/// The second half of the handshake: accept the challenge token under a
/// session label, yielding the bearer token for the operation's calls.
pub struct AuthLoginAcceptRequest {
    pub auth_token: String,
    pub name: String,
}

/// A short-lived authorization: acquired per logical operation through the
/// two-step handshake, attached to that operation's calls, then discarded.
/// Nothing is cached across operations.
pub struct AuthSession {
    pub permissions_token: String,
}

/// Builds the login request every pipeline operation opens with: the single
/// `Admin` permission and no expiry.
pub fn auth_login_request() -> (r: AuthLoginRequest)
    ensures
        r.permissions@.len() == 1,
        r.permissions@[0]@ == "Admin"@,
        r.duration_secs is None,
{
    let mut permissions: Vec<String> = Vec::new();
    permissions.push("Admin".to_owned());
    AuthLoginRequest { permissions, duration_secs: None }
}

/// Builds the accept request for a challenge token, under the fixed session
/// label `default`.
pub fn auth_accept_request(auth_token: String) -> (r: AuthLoginAcceptRequest)
    ensures
        r.auth_token@ == auth_token@,
        r.name@ == "default"@,
{
    AuthLoginAcceptRequest { auth_token, name: "default".to_owned() }
}

/// Wraps the bearer token the accept call returned into the session that
/// carries the operation's remaining calls.
pub fn session_from_token(permissions_token: String) -> (r: AuthSession)
    ensures
        r.permissions_token@ == permissions_token@,
{
    AuthSession { permissions_token }
}

} // verus!
