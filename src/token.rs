use crate::claims::{AuthError, AuthenticatedUser, FirebaseClaims};
use crate::keyset::{kid_view, str_eq};
use vstd::prelude::*;

verus! {

/// The Firebase project the tokens must be issued for.
pub const EXPECTED_AUDIENCE: &'static str = "jeopardy-b4166";

/// The issuer the tokens must name.
pub const EXPECTED_ISSUER: &'static str = "https://securetoken.google.com/jeopardy-b4166";

/// The scheme that must open the `Authorization` header, with its space.
pub open spec fn bearer_prefix() -> Seq<char> {
    seq!['B', 'e', 'a', 'r', 'e', 'r', ' ']
}

/// The token carried by an `Authorization` header value, if it has the shape
/// `Bearer <token>`.
pub open spec fn bearer_token_of(h: Seq<char>) -> Option<Seq<char>> {
    if h.len() >= 7 && h.subrange(0, 7) == bearer_prefix() {
        Some(h.subrange(7, h.len() as int))
    } else {
        None
    }
}

/// Takes the token out of the `Authorization` header value; an absent header
/// or one of another shape is refused.
pub fn bearer_token<'a>(header: Option<&'a str>) -> (r: Result<&'a str, AuthError>)
    ensures
        match header {
            None => r == Err::<&str, AuthError>(AuthError::MissingOrMalformedHeader),
            Some(h) => match bearer_token_of(h@) {
                Some(t) => r matches Ok(s) && s@ == t,
                None => r == Err::<&str, AuthError>(AuthError::MissingOrMalformedHeader),
            },
        },
{
    let h = match header {
        Some(h) => h,
        None => return Err(AuthError::MissingOrMalformedHeader),
    };
    let n = h.unicode_len();
    if n < 7 {
        return Err(AuthError::MissingOrMalformedHeader);
    }
    proof {
        reveal_strlit("Bearer ");
    }
    assert("Bearer "@ =~= bearer_prefix());
    if !str_eq(h.substring_char(0, 7), "Bearer ") {
        return Err(AuthError::MissingOrMalformedHeader);
    }
    Ok(h.substring_char(7, n))
}

/// What decoding a token's header segment yields: none where the segment
/// does not decode, else the `kid` it holds, if any.
pub uninterp spec fn header_kid(token: Seq<char>) -> Option<Option<Seq<char>>>;

pub open spec fn decoded_kid_view(d: Option<Option<String>>) -> Option<Option<Seq<char>>> {
    match d {
        Some(k) => Some(kid_view(k)),
        None => None,
    }
}

/// Relies on `jsonwebtoken::decode_header`: it decodes the header segment of
/// the token, and depends on the token alone; a token without a `.` has no
/// header segment and is refused.
#[verifier::external_body]
fn decode_header_kid(token: &str) -> (r: Option<Option<String>>)
    ensures
        decoded_kid_view(r) == header_kid(token@),
        !token@.contains('.') ==> r is None,
{
    match jsonwebtoken::decode_header(token) {
        Ok(h) => Some(h.kid),
        Err(_) => None,
    }
}

/// The key-id named by a decoded token header; a header that did not decode
/// or names no key-id marks the token as malformed.
pub fn kid_from_header(decoded: Option<Option<String>>) -> (r: Result<String, AuthError>)
    ensures
        match decoded {
            Some(Some(k)) => r matches Ok(s) && s@ == k@,
            _ => r == Err::<String, AuthError>(AuthError::MalformedToken),
        },
{
    match decoded {
        Some(Some(k)) => Ok(k),
        _ => Err(AuthError::MalformedToken),
    }
}

/// The key-id named in the header segment of `token`.
pub fn token_kid(token: &str) -> (r: Result<String, AuthError>)
    ensures
        match header_kid(token@) {
            Some(Some(k)) => r matches Ok(s) && s@ == k,
            _ => r == Err::<String, AuthError>(AuthError::MalformedToken),
        },
        !token@.contains('.') ==> r == Err::<String, AuthError>(AuthError::MalformedToken),
{
    kid_from_header(decode_header_kid(token))
}

/// What checking a token's signature against the resolved key gave.
pub enum DecodeOutcome {
    /// The signature holds; these are the token's claims.
    Verified(FirebaseClaims),
    /// The signature does not hold, or the claims do not decode or validate.
    Rejected,
}

/// The claims name this project as issuer and audience.
pub open spec fn claims_match_project(c: FirebaseClaims) -> bool {
    c.iss@ == EXPECTED_ISSUER@ && c.aud@ == EXPECTED_AUDIENCE@
}

/// The verdict on a token whose signature check gave `outcome`, with the
/// wall clock reading `now` (seconds since the UNIX epoch; none if it could
/// not be read).
pub open spec fn verdict(outcome: DecodeOutcome, now: Option<u64>) -> Result<FirebaseClaims, AuthError> {
    match outcome {
        DecodeOutcome::Rejected => Err(AuthError::InvalidSignatureOrClaims),
        DecodeOutcome::Verified(c) => if !claims_match_project(c) {
            Err(AuthError::InvalidSignatureOrClaims)
        } else {
            match now {
                None => Err(AuthError::ClockError),
                Some(t) => if (c.exp as int) < (t as int) {
                    Err(AuthError::Expired)
                } else {
                    Ok(c)
                },
            }
        },
    }
}

/// Accepts the claims of a correctly signed token for this project whose
/// expiry has not passed, and builds the identity from them.
pub fn accept_claims(outcome: DecodeOutcome, now: Option<u64>) -> (r: Result<AuthenticatedUser, AuthError>)
    ensures
        match verdict(outcome, now) {
            Ok(c) => r matches Ok(u) && u.spec_claims() == c,
            Err(e) => r matches Err(e2) && e2 == e,
        },
{
    match outcome {
        DecodeOutcome::Rejected => Err(AuthError::InvalidSignatureOrClaims),
        DecodeOutcome::Verified(c) => {
            if !str_eq(c.iss.as_str(), EXPECTED_ISSUER) || !str_eq(c.aud.as_str(), EXPECTED_AUDIENCE) {
                return Err(AuthError::InvalidSignatureOrClaims);
            }
            let t = match now {
                Some(t) => t,
                None => return Err(AuthError::ClockError),
            };
            if (c.exp as u64) < t {
                return Err(AuthError::Expired);
            }
            Ok(AuthenticatedUser::from_verified_claims(c))
        },
    }
}

/// A token whose signature does not hold against the resolved key is refused
/// as having a bad signature or claims, never accepted.
pub proof fn lemma_tampered_token_rejected(now: Option<u64>)
    ensures
        verdict(DecodeOutcome::Rejected, now) == Err::<FirebaseClaims, AuthError>(
            AuthError::InvalidSignatureOrClaims,
        ),
{
}

/// A correctly signed token for this project whose expiry lies before `now`
/// is refused as expired.
pub proof fn lemma_past_expiry_rejected(c: FirebaseClaims, now: u64)
    requires
        claims_match_project(c),
        (c.exp as int) < (now as int),
    ensures
        verdict(DecodeOutcome::Verified(c), Some(now)) == Err::<FirebaseClaims, AuthError>(
            AuthError::Expired,
        ),
{
}

/// Why an operation that needs an identity was refused.
#[derive(Debug, Clone, Copy, PartialEq, Eq, Structural)]
pub enum AuthRequired {
    Unauthenticated,
}

impl AuthRequired {
    /// The message shown to the client.
    pub fn message(&self) -> (r: &'static str)
        ensures
            r@ == "Authentication required"@,
    {
        "Authentication required"
    }
}

/// The identity of the request, if it carried a valid token.
pub fn get_user_from_context(user: &Option<AuthenticatedUser>) -> (r: Option<&AuthenticatedUser>)
    ensures
        match *user {
            Some(u) => r matches Some(v) && *v == u,
            None => r is None,
        },
{
    match user {
        Some(u) => Some(u),
        None => None,
    }
}

/// The identity of the request; fails where it carried no valid token.
pub fn require_auth(user: &Option<AuthenticatedUser>) -> (r: Result<&AuthenticatedUser, AuthRequired>)
    ensures
        match *user {
            Some(u) => r matches Ok(v) && *v == u,
            None => r == Err::<&AuthenticatedUser, AuthRequired>(AuthRequired::Unauthenticated),
        },
{
    match user {
        Some(u) => Ok(u),
        None => Err(AuthRequired::Unauthenticated),
    }
}

} // verus!
