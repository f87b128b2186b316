use vstd::prelude::*;

verus! {

/// The claims of a Firebase ID token that this service reads.
#[derive(Debug, Clone)]
pub struct FirebaseClaims {
    pub uid: String,
    pub iss: String,
    pub aud: String,
    /// Expiry, in seconds since the UNIX epoch.
    pub exp: usize,
}

/// An identity whose token passed every check; built only by the verifier.
#[derive(Debug, Clone)]
pub struct AuthenticatedUser {
    claims: FirebaseClaims,
}

impl AuthenticatedUser {
    /// The validated claims this identity carries.
    pub closed spec fn spec_claims(&self) -> FirebaseClaims {
        self.claims
    }

    pub(crate) fn from_verified_claims(claims: FirebaseClaims) -> (r: AuthenticatedUser)
        ensures
            r.spec_claims() == claims,
    {
        AuthenticatedUser { claims }
    }

    /// The Firebase user id.
    pub fn uid(&self) -> (r: &str)
        ensures
            r@ == self.spec_claims().uid@,
    {
        self.claims.uid.as_str()
    }

    /// All validated claims.
    pub fn claims(&self) -> (r: &FirebaseClaims)
        ensures
            *r == self.spec_claims(),
    {
        &self.claims
    }
}

/// Why a request could not be authenticated.
#[derive(Debug, Clone, Copy, PartialEq, Eq, Structural)]
pub enum AuthError {
    /// No `Authorization` header, or not of the shape `Bearer <token>`.
    MissingOrMalformedHeader,
    /// The token's header segment does not decode or carries no `kid`.
    MalformedToken,
    /// The key set could not be fetched, or holds no key for the `kid`.
    KeyResolutionFailed,
    /// Bad signature, or issuer or audience other than expected.
    InvalidSignatureOrClaims,
    /// The token's expiry lies in the past.
    Expired,
    /// The local clock could not be read.
    ClockError,
}

impl AuthError {
    /// Whether the failure is the client's doing; only a clock failure is not.
    pub fn is_client_fault(&self) -> (r: bool)
        ensures
            r == !(*self is ClockError),
    {
        match self {
            AuthError::ClockError => false,
            _ => true,
        }
    }

    /// The HTTP status a rejection carries: 401, or 500 for a server fault.
    pub fn status_code(&self) -> (r: u16)
        ensures
            r == (if *self is ClockError { 500u16 } else { 401u16 }),
    {
        if self.is_client_fault() {
            401
        } else {
            500
        }
    }
}

} // verus!
