use jsonwebtoken::jwk::Jwk;
use vstd::prelude::*;

verus! {

#[verifier::external_type_specification]
#[verifier::external_body]
pub struct ExJwk(Jwk);

/// Seconds for which a fetched key set is served without asking the provider.
pub const KEY_SET_TTL_SECS: u64 = 3600;

/// The key-id a key of the provider's set carries, if any.
pub uninterp spec fn jwk_kid(j: Jwk) -> Option<Seq<char>>;

/// Relies on the public field `Jwk::common.key_id`: the key's `kid`, if any.
#[verifier::external_body]
fn jwk_key_id(jwk: &Jwk) -> (r: Option<String>)
    ensures
        kid_view(r) == jwk_kid(*jwk),
{
    jwk.common.key_id.clone()
}

pub open spec fn kid_view(k: Option<String>) -> Option<Seq<char>> {
    match k {
        Some(s) => Some(s@),
        None => None,
    }
}

/// One published key, with the key-id the lookups compare against.
pub struct KeyRecord {
    kid: Option<String>,
    jwk: Jwk,
}

impl KeyRecord {
    /// The key-id lookups compare against.
    pub closed spec fn spec_kid(&self) -> Option<Seq<char>> {
        kid_view(self.kid)
    }

    /// The key's parameters.
    pub closed spec fn spec_jwk(&self) -> Jwk {
        self.jwk
    }

    /// The key-id of a record is always the one its key carries.
    #[verifier::type_invariant]
    pub open spec fn kid_is_keys_own(&self) -> bool {
        self.spec_kid() == jwk_kid(self.spec_jwk())
    }

    /// Wraps a key of the provider's set, reading its key-id once.
    pub fn new(jwk: Jwk) -> (r: KeyRecord)
        ensures
            r.spec_jwk() == jwk,
            r.spec_kid() == jwk_kid(jwk),
    {
        let kid = jwk_key_id(&jwk);
        KeyRecord { kid, jwk }
    }

    pub fn kid(&self) -> (r: &Option<String>)
        ensures
            kid_view(*r) == self.spec_kid(),
    {
        &self.kid
    }

    pub fn jwk(&self) -> (r: &Jwk)
        ensures
            *r == self.spec_jwk(),
    {
        &self.jwk
    }
}

/// Some key of `keys` carries the key-id `kid`.
pub open spec fn has_kid(keys: Seq<KeyRecord>, kid: Seq<char>) -> bool {
    exists|i: int| 0 <= i < keys.len() && #[trigger] keys[i].spec_kid() == Some(kid)
}

/// `i` is the position of the first key of `keys` that carries `kid`.
pub open spec fn is_first_match(keys: Seq<KeyRecord>, kid: Seq<char>, i: int) -> bool {
    &&& 0 <= i < keys.len()
    &&& keys[i].spec_kid() == Some(kid)
    &&& forall|j: int| 0 <= j < i ==> #[trigger] keys[j].spec_kid() != Some(kid)
}

/// The instant a key set fetched at `t` stops being fresh.
pub open spec fn expiry_after(t: u64) -> u64 {
    if t as int + KEY_SET_TTL_SECS as int <= u64::MAX as int {
        (t + KEY_SET_TTL_SECS) as u64
    } else {
        u64::MAX
    }
}

/// Whether two strings hold the same characters.
pub fn str_eq(a: &str, b: &str) -> (r: bool)
    ensures
        r == (a@ == b@),
{
    let n = a.unicode_len();
    if n != b.unicode_len() {
        return false;
    }
    let mut i: usize = 0;
    while i < n
        invariant
            n == a@.len(),
            n == b@.len(),
            i <= n,
            forall|j: int| 0 <= j < i ==> a@[j] == b@[j],
        decreases n - i,
    {
        if a.get_char(i) != b.get_char(i) {
            return false;
        }
        i = i + 1;
    }
    assert(a@ =~= b@);
    true
}

/// Position of the first key of `keys` whose key-id is `kid`.
pub fn find_key(keys: &Vec<KeyRecord>, kid: &str) -> (r: Option<usize>)
    ensures
        match r {
            Some(i) => is_first_match(keys@, kid@, i as int),
            None => !has_kid(keys@, kid@),
        },
{
    let mut i: usize = 0;
    while i < keys.len()
        invariant
            i <= keys@.len(),
            forall|j: int| 0 <= j < i ==> #[trigger] keys@[j].spec_kid() != Some(kid@),
        decreases keys@.len() - i,
    {
        let found = match &keys[i].kid {
            Some(s) => str_eq(s.as_str(), kid),
            None => false,
        };
        if found {
            return Some(i);
        }
        i = i + 1;
    }
    None
}

/// A snapshot of the provider's key set together with the instant it expires.
///
/// Both parts always come from one fetch: a snapshot is only ever built
/// whole, and replaced whole.
pub struct JwksCache {
    keys: Vec<KeyRecord>,
    expires_at: u64,
    fetched_at: Option<u64>,
}

impl JwksCache {
    /// The keys of the snapshot.
    pub closed spec fn spec_keys(&self) -> Seq<KeyRecord> {
        self.keys@
    }

    /// The instant, in seconds, from which the snapshot is stale.
    pub closed spec fn spec_expires_at(&self) -> u64 {
        self.expires_at
    }

    /// The instant of the fetch the snapshot came from; none for the initial one.
    pub closed spec fn spec_fetched_at(&self) -> Option<u64> {
        self.fetched_at
    }

    /// The expiry is the fetch instant plus the TTL; the initial snapshot is
    /// empty and already stale.
    #[verifier::type_invariant]
    pub open spec fn wf(&self) -> bool {
        match self.spec_fetched_at() {
            Some(t) => self.spec_expires_at() == expiry_after(t),
            None => self.spec_keys().len() == 0 && self.spec_expires_at() == 0,
        }
    }

    /// Whether the snapshot may be served at instant `now`.
    pub open spec fn fresh_at(&self, now: u64) -> bool {
        now < self.spec_expires_at()
    }

    /// The snapshot a process starts with: no keys, stale at every instant.
    pub fn new() -> (r: JwksCache)
        ensures
            r.wf(),
            r.spec_keys().len() == 0,
            r.spec_fetched_at() is None,
            forall|now: u64| !r.fresh_at(now),
    {
        JwksCache { keys: Vec::new(), expires_at: 0, fetched_at: None }
    }

    /// The snapshot of a key set fetched at instant `now`.
    pub fn from_fetch(keys: Vec<KeyRecord>, now: u64) -> (r: JwksCache)
        ensures
            r.wf(),
            r.spec_keys() == keys@,
            r.spec_fetched_at() == Some(now),
            r.spec_expires_at() == expiry_after(now),
    {
        let expires_at = now.saturating_add(KEY_SET_TTL_SECS);
        JwksCache { keys, expires_at, fetched_at: Some(now) }
    }

    pub fn keys(&self) -> (r: &Vec<KeyRecord>)
        ensures
            r@ == self.spec_keys(),
    {
        &self.keys
    }

    pub fn expires_at(&self) -> (r: u64)
        ensures
            r == self.spec_expires_at(),
    {
        self.expires_at
    }

    pub fn is_fresh(&self, now: u64) -> (r: bool)
        ensures
            r == self.fresh_at(now),
    {
        now < self.expires_at
    }
}

} // verus!
