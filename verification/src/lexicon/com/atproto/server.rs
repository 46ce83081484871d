//! Session creation and refresh payloads.

use vstd::prelude::*;

verus! {

/// The response of a successful login call.
#[derive(Debug, Clone, PartialEq)]
pub struct CreateUserSession {
    pub did: String,
    pub email: String,
    pub handle: String,
    pub access_jwt: String,
    pub refresh_jwt: String,
}

/// The response of a successful refresh call; the same shape as a login
/// response, minus the account email.
#[derive(Debug, Clone, PartialEq)]
pub struct RefreshUserSession {
    pub did: String,
    pub handle: String,
    pub access_jwt: String,
    pub refresh_jwt: String,
}

} // verus!
