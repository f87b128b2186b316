use firebase_auth::{
    begin_resolve, derive_key, find_key, finish_resolve, str_eq, AuthError, FetchError,
    JwksCache, KeyRecord, ResolveStep, KEY_SET_TTL_SECS,
};
use jsonwebtoken::jwk::{
    AlgorithmParameters, CommonParameters, Jwk, OctetKeyParameters, OctetKeyType,
    RSAKeyParameters, RSAKeyType,
};

fn oct_jwk(kid: Option<&str>, secret_b64: &str) -> Jwk {
    let mut common = CommonParameters::default();
    common.key_id = kid.map(|k| k.to_string());
    Jwk {
        common,
        algorithm: AlgorithmParameters::OctetKey(OctetKeyParameters {
            key_type: OctetKeyType::Octet,
            value: secret_b64.to_string(),
        }),
    }
}

fn record(kid: &str) -> KeyRecord {
    KeyRecord::new(oct_jwk(Some(kid), "c2VjcmV0"))
}

fn key_set(kids: &[&str]) -> Vec<KeyRecord> {
    kids.iter().map(|k| record(k)).collect()
}

#[test]
fn key_record_reads_kid_from_jwk() {
    let r = KeyRecord::new(oct_jwk(Some("abc"), "c2VjcmV0"));
    assert_eq!(r.kid().as_deref(), Some("abc"));
    assert_eq!(r.jwk().common.key_id.as_deref(), Some("abc"));
    let r = KeyRecord::new(oct_jwk(None, "c2VjcmV0"));
    assert_eq!(*r.kid(), None);
}

#[test]
fn str_eq_compares_characters() {
    assert!(str_eq("kid-1", "kid-1"));
    assert!(!str_eq("kid-1", "kid-2"));
    assert!(!str_eq("kid", "kid-1"));
    assert!(str_eq("", ""));
}

#[test]
fn find_key_returns_first_match() {
    let mut keys = key_set(&["a", "b", "b"]);
    keys.insert(0, KeyRecord::new(oct_jwk(None, "c2VjcmV0")));
    assert_eq!(find_key(&keys, "b"), Some(2));
    assert_eq!(find_key(&keys, "a"), Some(1));
    assert_eq!(find_key(&keys, "c"), None);
    assert_eq!(find_key(&Vec::new(), "a"), None);
}

#[test]
fn new_cache_is_empty_and_stale() {
    let c = JwksCache::new();
    assert!(c.keys().is_empty());
    assert_eq!(c.expires_at(), 0);
    assert!(!c.is_fresh(0));
    assert!(!c.is_fresh(u64::MAX));
}

#[test]
fn fetched_snapshot_expires_after_one_hour() {
    let c = JwksCache::from_fetch(key_set(&["a"]), 1000);
    assert_eq!(KEY_SET_TTL_SECS, 3600);
    assert_eq!(c.expires_at(), 4600);
    assert!(c.is_fresh(4599));
    assert!(!c.is_fresh(4600));
}

#[test]
fn fetched_snapshot_expiry_saturates() {
    let c = JwksCache::from_fetch(key_set(&["a"]), u64::MAX - 10);
    assert_eq!(c.expires_at(), u64::MAX);
}

#[test]
fn empty_cache_fetches_then_serves_key() {
    let mut cache = JwksCache::new();
    assert_eq!(begin_resolve(&cache, "k1", 50), ResolveStep::Fetch);
    let r = finish_resolve(&mut cache, "k1", Ok(key_set(&["k0", "k1"])), 50);
    assert_eq!(r, Ok(1));
    assert_eq!(cache.expires_at(), 3650);
    assert_eq!(cache.keys().len(), 2);
    assert!(derive_key(&cache.keys()[1]).is_ok());
}

#[test]
fn warm_cache_needs_no_fetch() {
    let cache = JwksCache::from_fetch(key_set(&["k0", "k1"]), 100);
    assert_eq!(begin_resolve(&cache, "k1", 200), ResolveStep::UseCached(1));
    assert_eq!(begin_resolve(&cache, "k0", 3699), ResolveStep::UseCached(0));
}

#[test]
fn unknown_kid_in_fresh_cache_forces_refresh() {
    let mut cache = JwksCache::from_fetch(key_set(&["old"]), 100);
    assert_eq!(begin_resolve(&cache, "new", 200), ResolveStep::Fetch);
    let r = finish_resolve(&mut cache, "new", Ok(key_set(&["new"])), 200);
    assert_eq!(r, Ok(0));
    assert_eq!(cache.expires_at(), 3800);
    assert_eq!(begin_resolve(&cache, "new", 300), ResolveStep::UseCached(0));
    assert_eq!(begin_resolve(&cache, "old", 300), ResolveStep::Fetch);
}

#[test]
fn kid_missing_after_refresh_fails() {
    let mut cache = JwksCache::from_fetch(key_set(&["a"]), 100);
    let r = finish_resolve(&mut cache, "z", Ok(key_set(&["b", "c"])), 200);
    assert_eq!(r, Err(AuthError::KeyResolutionFailed));
    assert_eq!(cache.keys().len(), 2);
    assert_eq!(cache.expires_at(), 3800);
}

#[test]
fn expired_cache_fetches_even_when_kid_known() {
    let cache = JwksCache::from_fetch(key_set(&["k1"]), 100);
    assert_eq!(begin_resolve(&cache, "k1", 3700), ResolveStep::Fetch);
    assert_eq!(begin_resolve(&cache, "k1", 3701), ResolveStep::Fetch);
}

#[test]
fn failed_fetch_leaves_cache_unchanged() {
    let mut cache = JwksCache::new();
    let r = finish_resolve(&mut cache, "k1", Err(FetchError::Network), 50);
    assert_eq!(r, Err(AuthError::KeyResolutionFailed));
    assert!(cache.keys().is_empty());
    assert_eq!(cache.expires_at(), 0);

    let mut warm = JwksCache::from_fetch(key_set(&["a"]), 100);
    let r = finish_resolve(&mut warm, "b", Err(FetchError::BadStatus), 200);
    assert_eq!(r, Err(AuthError::KeyResolutionFailed));
    assert_eq!(warm.expires_at(), 3700);
    assert_eq!(find_key(warm.keys(), "a"), Some(0));
}

#[test]
fn derive_key_rejects_undecodable_parameters() {
    let jwk = Jwk {
        common: CommonParameters::default(),
        algorithm: AlgorithmParameters::RSA(RSAKeyParameters {
            key_type: RSAKeyType::RSA,
            n: "!!!not base64!!!".to_string(),
            e: "AQAB".to_string(),
        }),
    };
    let r = derive_key(&KeyRecord::new(jwk));
    assert!(matches!(r, Err(AuthError::KeyResolutionFailed)));
    assert!(derive_key(&record("k")).is_ok());
}
