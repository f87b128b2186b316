use crate::claims::AuthError;
use crate::keyset::{
    expiry_after, find_key, has_kid, is_first_match, JwksCache, KeyRecord,
};
use jsonwebtoken::jwk::Jwk;
use jsonwebtoken::DecodingKey;
use vstd::prelude::*;

verus! {

#[verifier::external_type_specification]
#[verifier::external_body]
pub struct ExDecodingKey(DecodingKey);

#[verifier::external_type_specification]
#[verifier::external_body]
pub struct ExJwtError(jsonwebtoken::errors::Error);

/// The key's parameters decode into a verification key.
pub uninterp spec fn jwk_decodes(j: Jwk) -> bool;

/// Relies on `DecodingKey::from_jwk`: builds a verification key from the
/// key's parameters, or fails where they do not decode.
#[verifier::external_body]
fn decoding_key_from_jwk(jwk: &Jwk) -> (r: Result<DecodingKey, jsonwebtoken::errors::Error>)
    ensures
        (r is Ok) == jwk_decodes(*jwk),
{
    DecodingKey::from_jwk(jwk)
}

/// Why the provider's key set could not be had.
#[derive(Debug, Clone, Copy, PartialEq, Eq, Structural)]
pub enum FetchError {
    /// The request did not complete.
    Network,
    /// The provider answered with a status other than 2xx.
    BadStatus,
    /// The body is not a key set.
    MalformedBody,
}

/// What a resolution does first, decided from the current snapshot.
#[derive(Debug, Clone, Copy, PartialEq, Eq, Structural)]
pub enum ResolveStep {
    /// Serve the key at this position of the snapshot; no fetch.
    UseCached(usize),
    /// Fetch a fresh key set, then call `finish_resolve`.
    Fetch,
}

/// The snapshot is fresh at `now` and holds a key for `kid`.
pub open spec fn served_from_cache(cache: JwksCache, kid: Seq<char>, now: u64) -> bool {
    cache.fresh_at(now) && has_kid(cache.spec_keys(), kid)
}

/// The step a resolution of `kid` at `now` takes against `cache`.
pub open spec fn first_step_ok(cache: JwksCache, kid: Seq<char>, now: u64, r: ResolveStep) -> bool {
    match r {
        ResolveStep::UseCached(i) => served_from_cache(cache, kid, now) && is_first_match(
            cache.spec_keys(),
            kid,
            i as int,
        ),
        ResolveStep::Fetch => !served_from_cache(cache, kid, now),
    }
}

/// The cache after a fetch made at `now` returned `fetched`.
pub open spec fn cache_after_fetch(
    before: JwksCache,
    after: JwksCache,
    fetched: Result<Vec<KeyRecord>, FetchError>,
    now: u64,
) -> bool {
    match fetched {
        Ok(keys) => {
            &&& after.spec_keys() == keys@
            &&& after.spec_fetched_at() == Some(now)
            &&& after.spec_expires_at() == expiry_after(now)
        },
        Err(_) => after == before,
    }
}

/// The outcome of a resolution of `kid` once the fetch returned `fetched`.
pub open spec fn result_after_fetch(
    kid: Seq<char>,
    fetched: Result<Vec<KeyRecord>, FetchError>,
    r: Result<usize, AuthError>,
) -> bool {
    match fetched {
        Ok(keys) => match r {
            Ok(i) => is_first_match(keys@, kid, i as int),
            Err(e) => e == AuthError::KeyResolutionFailed && !has_kid(keys@, kid),
        },
        Err(_) => r == Err::<usize, AuthError>(AuthError::KeyResolutionFailed),
    }
}

/// Decides, from the snapshot alone, whether the key for `kid` can be served
/// at instant `now` or a fetch is needed: the key is served only while the
/// snapshot is fresh and holds `kid`; an unknown `kid` forces a refresh even
/// before the TTL runs out, so that a freshly rotated key is not refused.
pub fn begin_resolve(cache: &JwksCache, kid: &str, now: u64) -> (r: ResolveStep)
    ensures
        first_step_ok(*cache, kid@, now, r),
{
    if cache.is_fresh(now) {
        match find_key(cache.keys(), kid) {
            Some(i) => ResolveStep::UseCached(i),
            None => ResolveStep::Fetch,
        }
    } else {
        ResolveStep::Fetch
    }
}

/// Completes a resolution with the outcome of the one fetch it made at `now`.
///
/// A fetched set replaces the snapshot whole, with expiry `now` plus the TTL,
/// before `kid` is looked up in it; a failed fetch leaves the snapshot as it
/// was. The result is the position of the key in the new snapshot.
pub fn finish_resolve(
    cache: &mut JwksCache,
    kid: &str,
    fetched: Result<Vec<KeyRecord>, FetchError>,
    now: u64,
) -> (r: Result<usize, AuthError>)
    ensures
        final(cache).wf(),
        cache_after_fetch(*old(cache), *final(cache), fetched, now),
        result_after_fetch(kid@, fetched, r),
{
    proof {
        use_type_invariant(&*cache);
    }
    match fetched {
        Ok(keys) => {
            *cache = JwksCache::from_fetch(keys, now);
            match find_key(cache.keys(), kid) {
                Some(i) => Ok(i),
                None => Err(AuthError::KeyResolutionFailed),
            }
        },
        Err(_) => Err(AuthError::KeyResolutionFailed),
    }
}

/// Derives the verification key from a cached record; a key whose
/// parameters do not decode fails the resolution.
pub fn derive_key(record: &KeyRecord) -> (r: Result<DecodingKey, AuthError>)
    ensures
        (r is Ok) == jwk_decodes(record.spec_jwk()),
        r matches Err(e) ==> e == AuthError::KeyResolutionFailed,
{
    match decoding_key_from_jwk(record.jwk()) {
        Ok(k) => Ok(k),
        Err(_) => Err(AuthError::KeyResolutionFailed),
    }
}

/// A resolution made while the snapshot is fresh and holds `kid` is served
/// from the snapshot: it makes no fetch.
pub proof fn lemma_fresh_hit_makes_no_fetch(cache: JwksCache, kid: Seq<char>, now: u64, step: ResolveStep)
    requires
        cache.wf(),
        now < cache.spec_expires_at(),
        has_kid(cache.spec_keys(), kid),
        first_step_ok(cache, kid, now, step),
    ensures
        step is UseCached,
{
}

/// A resolution of a `kid` that a fresh snapshot lacks makes one fetch; a
/// fetched set replaces the snapshot before `kid` is looked up again, and the
/// lookup is made in the new snapshot, which ends the resolution.
pub proof fn lemma_miss_refreshes_once(
    before: JwksCache,
    after: JwksCache,
    kid: Seq<char>,
    now: u64,
    step: ResolveStep,
    fetched: Result<Vec<KeyRecord>, FetchError>,
    fetched_now: u64,
    r: Result<usize, AuthError>,
)
    requires
        before.wf(),
        before.fresh_at(now),
        !has_kid(before.spec_keys(), kid),
        first_step_ok(before, kid, now, step),
        cache_after_fetch(before, after, fetched, fetched_now),
        result_after_fetch(kid, fetched, r),
    ensures
        step == ResolveStep::Fetch,
        fetched is Ok ==> after.spec_keys() == fetched->Ok_0@ && after.spec_expires_at()
            == expiry_after(fetched_now),
        r matches Ok(i) ==> is_first_match(after.spec_keys(), kid, i as int),
        fetched is Ok && r is Err ==> !has_kid(after.spec_keys(), kid),
{
}

/// A resolution made strictly after the snapshot's expiry fetches, whether or
/// not the snapshot holds `kid`.
pub proof fn lemma_stale_snapshot_fetches(cache: JwksCache, kid: Seq<char>, now: u64, step: ResolveStep)
    requires
        cache.wf(),
        now > cache.spec_expires_at(),
        first_step_ok(cache, kid, now, step),
    ensures
        step == ResolveStep::Fetch,
{
}

/// The keys and the expiry of a snapshot come from the same fetch: after a
/// successful fetch both are that fetch's, after a failed one both are the
/// old snapshot's, and the expiry is always the fetch instant plus the TTL.
pub proof fn lemma_snapshot_from_one_fetch(
    before: JwksCache,
    after: JwksCache,
    fetched: Result<Vec<KeyRecord>, FetchError>,
    now: u64,
)
    requires
        before.wf(),
        after.wf(),
        cache_after_fetch(before, after, fetched, now),
    ensures
        match after.spec_fetched_at() {
            Some(t) => after.spec_expires_at() == expiry_after(t),
            None => after.spec_keys().len() == 0 && !after.fresh_at(0),
        },
        fetched is Ok ==> after.spec_keys() == fetched->Ok_0@ && after.spec_fetched_at() == Some(now),
        fetched is Err ==> after.spec_keys() == before.spec_keys() && after.spec_expires_at()
            == before.spec_expires_at() && after.spec_fetched_at() == before.spec_fetched_at(),
{
}

} // verus!
