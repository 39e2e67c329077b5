//! A cache of a reporting service's public keys, refreshed when it grows stale, and
//! the check of a report's signature against the keys it holds.
//!
//! Refreshing means asking the service for its keys, which the library cannot do
//! itself: [`PublicKeyCache::find`] and [`PublicKeyCache::verify`] answer
//! [`CacheStep::Refresh`] when the cache is stale, and the caller then fetches the keys,
//! stores them with [`PublicKeyCache::refresh_cache`] and asks
//! [`PublicKeyCache::find_loaded`] or [`PublicKeyCache::verify_loaded`].

use vstd::prelude::*;
use crate::secret_scanning::crypto::{
    base64_decode, base64_decode_error_text, base64_standard_decoding, der_signature_error_text,
    p256_public_key_point, p256_signature_bytes, p256_signature_valid, p256_verify_error_text,
    public_key_point_from_pem, signature_from_der, verify_p256_signature,
};
use crate::secret_scanning::key::PublicKey;
use crate::text::str_eq;
use crate::time::{is_clock_reading, read_clock, Timestamp};

verus! {

/// Either the cache must be refreshed first, or the answer is ready.
#[derive(Debug)]
pub enum CacheStep<T> {
    Refresh,
    Ready(T),
}

/// Why the signature of a report was not accepted.
#[derive(Debug)]
pub enum SignatureError {
    /// A request header that must be present is missing; it holds the header's name.
    MissingHeader(String),
    /// A request header holds characters other than visible ASCII.
    InvalidHeader(String),
    /// The signature is not valid base64.
    InvalidBase64(String),
    /// The decoded signature is not a DER-encoded P-256 signature.
    InvalidDer(String),
    /// No key with this identifier is known.
    UnknownKeyId(String),
    /// The key with this identifier is no longer current.
    KeyNotCurrent(String),
    /// The key with the given identifier is not a PEM-encoded P-256 public key.
    InvalidPublicKey,
    /// The signature does not match the payload under the key.
    InvalidSignature(String),
}

impl SignatureError {
    /// The text that the 400 answer to the request carries.
    pub open spec fn message_of(self) -> Seq<char> {
        match self {
            SignatureError::MissingHeader(name) => "missing HTTP header: "@ + name@,
            SignatureError::InvalidHeader(detail) => "failed to decode HTTP header: "@ + detail@,
            SignatureError::InvalidBase64(detail) => "failed to decode signature as base64: "@
                + detail@,
            SignatureError::InvalidDer(detail) => "failed to parse signature from ASN.1 DER: "@
                + detail@,
            SignatureError::UnknownKeyId(id) => "unknown key id "@ + id@,
            SignatureError::KeyNotCurrent(id) => "key id "@ + id@ + " is not a current key"@,
            SignatureError::InvalidPublicKey => "cannot parse public key"@,
            SignatureError::InvalidSignature(detail) => "invalid signature: "@ + detail@,
        }
    }

    /// The text that the 400 answer to the request carries.
    pub fn message(&self) -> (r: String)
        ensures
            r@ == self.message_of(),
    {
        match self {
            SignatureError::MissingHeader(name) => String::from_str("missing HTTP header: ").concat(
                name.as_str(),
            ),
            SignatureError::InvalidHeader(detail) => String::from_str(
                "failed to decode HTTP header: ",
            ).concat(detail.as_str()),
            SignatureError::InvalidBase64(detail) => String::from_str(
                "failed to decode signature as base64: ",
            ).concat(detail.as_str()),
            SignatureError::InvalidDer(detail) => String::from_str(
                "failed to parse signature from ASN.1 DER: ",
            ).concat(detail.as_str()),
            SignatureError::UnknownKeyId(id) => String::from_str("unknown key id ").concat(
                id.as_str(),
            ),
            SignatureError::KeyNotCurrent(id) => String::from_str("key id ").concat(
                id.as_str(),
            ).concat(" is not a current key"),
            SignatureError::InvalidPublicKey => String::from_str("cannot parse public key"),
            SignatureError::InvalidSignature(detail) => String::from_str(
                "invalid signature: ",
            ).concat(detail.as_str()),
        }
    }
}

/// How far the check of a signature gets, and what the cryptographic check gives
/// when it is reached.
pub enum SignatureCheck {
    /// The signature is not base64; the decoder's error text.
    BadBase64(Seq<char>),
    /// The decoded signature is not DER; the parser's error text.
    BadDer(Seq<char>),
    UnknownKey,
    KeyNotCurrent,
    BadPublicKey,
    /// The cryptographic check failed; its error text.
    Rejected(Seq<char>),
    /// Every check passed.
    Accepted,
}

/// The position of the first key in `keys`, from `start` on, whose identifier is `id`.
pub open spec fn position_from<K: PublicKey>(keys: Seq<K>, id: Seq<char>, start: int) -> Option<int>
    decreases keys.len() - start,
{
    if start < 0 || start >= keys.len() {
        None
    } else if keys[start].key_id() == id {
        Some(start)
    } else {
        position_from(keys, id, start + 1)
    }
}

/// The position of the first key in `keys` whose identifier is `id`.
pub open spec fn position_of<K: PublicKey>(keys: Seq<K>, id: Seq<char>) -> Option<int> {
    position_from(keys, id, 0)
}

/// How far the check of `signature` (base64 of a DER-encoded signature) of `payload`
/// gets against `keys` for the key `id`.
pub open spec fn signature_check<K: PublicKey>(
    keys: Seq<K>,
    id: Seq<char>,
    signature: Seq<u8>,
    payload: Seq<u8>,
) -> SignatureCheck {
    match base64_standard_decoding(signature) {
        None => SignatureCheck::BadBase64(base64_decode_error_text(signature)),
        Some(der) => match p256_signature_bytes(der) {
            None => SignatureCheck::BadDer(der_signature_error_text(der)),
            Some(sig) => match position_of(keys, id) {
                None => SignatureCheck::UnknownKey,
                Some(i) => if !keys[i].key_is_current() {
                    SignatureCheck::KeyNotCurrent
                } else {
                    match p256_public_key_point(keys[i].key_text()) {
                        None => SignatureCheck::BadPublicKey,
                        Some(point) => if p256_signature_valid(point, payload, sig) {
                            SignatureCheck::Accepted
                        } else {
                            SignatureCheck::Rejected(p256_verify_error_text(point, payload, sig))
                        },
                    }
                },
            },
        },
    }
}

/// Whether `r` is the outcome of a signature check that got as far as `check`: each
/// failure is reported as such, and the signature is accepted exactly when every
/// check passes.
pub open spec fn outcome_follows(r: Result<(), SignatureError>, check: SignatureCheck, id: Seq<char>) -> bool {
    match check {
        SignatureCheck::BadBase64(text) => r matches Err(SignatureError::InvalidBase64(t)) && t@
            == text,
        SignatureCheck::BadDer(text) => r matches Err(SignatureError::InvalidDer(t)) && t@ == text,
        SignatureCheck::UnknownKey => r matches Err(SignatureError::UnknownKeyId(s)) && s@ == id,
        SignatureCheck::KeyNotCurrent => r matches Err(SignatureError::KeyNotCurrent(s)) && s@ == id,
        SignatureCheck::BadPublicKey => r matches Err(SignatureError::InvalidPublicKey),
        SignatureCheck::Rejected(text) => r matches Err(SignatureError::InvalidSignature(t)) && t@
            == text,
        SignatureCheck::Accepted => r is Ok,
    }
}

/// The outcome of a check with the cache step dropped.
pub open spec fn without_step(r: Result<CacheStep<()>, SignatureError>) -> Result<(), SignatureError> {
    match r {
        Ok(_) => Ok(()),
        Err(e) => Err(e),
    }
}

/// Whether the signature decodes, so that the keys are needed to go on.
pub open spec fn signature_decodes(check: SignatureCheck) -> bool {
    !(check is BadBase64 || check is BadDer)
}

/// Whether `r` follows from a check that gets as far as `check`, on a cache that is
/// `fresh` or not: a malformed signature is refused first; otherwise a stale cache
/// asks for a refresh; otherwise the outcome follows `check`.
pub open spec fn step_outcome_follows(
    r: Result<CacheStep<()>, SignatureError>,
    check: SignatureCheck,
    fresh: bool,
    id: Seq<char>,
) -> bool {
    if !signature_decodes(check) {
        r is Err && outcome_follows(without_step(r), check, id)
    } else if !fresh {
        r matches Ok(CacheStep::Refresh)
    } else {
        !(r matches Ok(CacheStep::Refresh)) && outcome_follows(without_step(r), check, id)
    }
}

/// Whether `r` answers a lookup of `id` in `keys` on a cache that is `fresh` or not: a
/// stale cache asks for a refresh, a fresh one gives the first key with that identifier.
pub open spec fn lookup_follows<K: PublicKey>(
    r: CacheStep<Option<&K>>,
    keys: Seq<K>,
    id: Seq<char>,
    fresh: bool,
) -> bool {
    if !fresh {
        r is Refresh
    } else {
        &&& r matches CacheStep::Ready(found)
        &&& found is Some == position_of(keys, id) is Some
        &&& found matches Some(k) ==> *k == keys[position_of(keys, id)->0]
    }
}

/// A cache of public keys with a time to live.
pub struct PublicKeyCache<K> {
    ttl: i64,
    keys: Vec<K>,
    timestamp: Option<Timestamp>,
}

impl<K: PublicKey> PublicKeyCache<K> {
    /// How long fetched keys stay fresh, in microseconds.
    pub closed spec fn ttl_micros(self) -> int {
        self.ttl as int
    }

    /// The keys the cache holds, in the order the service listed them.
    pub closed spec fn cached_keys(self) -> Seq<K> {
        self.keys@
    }

    /// When the keys were last fetched, if ever.
    pub closed spec fn filled_at(self) -> Option<Timestamp> {
        self.timestamp
    }

    /// Whether the cache is fresh at `now`: it was filled, and less than its time to
    /// live has passed since (a fill time in the future counts as fresh).
    pub open spec fn fresh_at(self, now: int) -> bool {
        self.filled_at() matches Some(t) && now < t + self.ttl_micros()
    }

    /// An empty cache whose keys stay fresh for `ttl` microseconds once fetched.
    pub fn new(ttl: i64) -> (r: Self)
        ensures
            r.ttl_micros() == ttl,
            r.cached_keys() == Seq::<K>::empty(),
            r.filled_at() is None,
    {
        PublicKeyCache { ttl, keys: Vec::new(), timestamp: None }
    }

    /// Whether the cache is fresh at `now`.
    pub fn is_cache_valid_at(&self, now: Timestamp) -> (r: bool)
        ensures
            r == self.fresh_at(now as int),
    {
        match self.timestamp {
            Some(t) => (now as i128) < (t as i128) + (self.ttl as i128),
            None => false,
        }
    }

    /// Whether the cache is fresh now: the clock is read once, and the answer is
    /// whether the cache is fresh at the instant it gave.
    pub fn is_cache_valid(&self) -> (r: bool)
        ensures
            exists|now: Timestamp|
                is_clock_reading(now) && now >= 0 && r == #[trigger] self.fresh_at(now as int),
            r ==> self.filled_at() is Some,
    {
        let now: Timestamp = read_clock();
        let r = self.is_cache_valid_at(now);
        assert(is_clock_reading(now) && now >= 0 && r == self.fresh_at(now as int));
        r
    }

    /// Stores freshly fetched keys, fetched at `now`.
    pub fn refresh_cache_at(&mut self, keys: Vec<K>, now: Timestamp)
        ensures
            final(self).cached_keys() == keys@,
            final(self).filled_at() == Some(now),
            final(self).ttl_micros() == old(self).ttl_micros(),
    {
        self.keys = keys;
        self.timestamp = Some(now);
    }

    /// Stores freshly fetched keys; the instant the clock gives is recorded as the time
    /// of the fetch.
    pub fn refresh_cache(&mut self, keys: Vec<K>)
        ensures
            final(self).cached_keys() == keys@,
            final(self).filled_at() matches Some(t) && is_clock_reading(t) && t >= 0,
            final(self).ttl_micros() == old(self).ttl_micros(),
    {
        let now: Timestamp = read_clock();
        self.refresh_cache_at(keys, now);
    }

    /// The first cached key whose identifier is `id`.
    pub fn find_loaded(&self, id: &str) -> (r: Option<&K>)
        ensures
            r is Some == position_of(self.cached_keys(), id@) is Some,
            r matches Some(k) ==> *k == self.cached_keys()[position_of(self.cached_keys(), id@)->0],
    {
        let n: usize = self.keys.len();
        let mut i: usize = 0;
        while i < n
            invariant
                n == self.keys@.len(),
                i <= n,
                position_of(self.keys@, id@) == position_from(self.keys@, id@, i as int),
            decreases n - i,
        {
            if str_eq(self.keys[i].id(), id) {
                return Some(&self.keys[i]);
            }
            i = i + 1;
        }
        None
    }

    /// The first key whose identifier is `id`, once the cache is fresh at `now`.
    pub fn find_at(&self, id: &str, now: Timestamp) -> (r: CacheStep<Option<&K>>)
        ensures
            lookup_follows(r, self.cached_keys(), id@, self.fresh_at(now as int)),
    {
        if !self.is_cache_valid_at(now) {
            return CacheStep::Refresh;
        }
        CacheStep::Ready(self.find_loaded(id))
    }

    /// The first key whose identifier is `id`, once the cache is fresh at the instant
    /// the clock gives (it is read once).
    pub fn find(&self, id: &str) -> (r: CacheStep<Option<&K>>)
        ensures
            exists|now: Timestamp|
                is_clock_reading(now) && now >= 0 && lookup_follows(
                    r,
                    self.cached_keys(),
                    id@,
                    #[trigger] self.fresh_at(now as int),
                ),
    {
        let now: Timestamp = read_clock();
        let r = self.find_at(id, now);
        assert(is_clock_reading(now) && now >= 0 && lookup_follows(r, self.cached_keys(), id@, self.fresh_at(now as int)));
        r
    }

    /// Checks `signature`, a base64 text of a DER-encoded signature, of `payload`
    /// against the cached key `id`, whatever the age of the cache.
    pub fn verify_loaded(&self, id: &str, signature: &[u8], payload: &[u8]) -> (r: Result<(), SignatureError>)
        ensures
            outcome_follows(r, signature_check(self.cached_keys(), id@, signature@, payload@), id@),
    {
        let sig = match decode_signature(signature) {
            Ok(s) => s,
            Err(e) => {
                return Err(e);
            },
        };
        self.check_with_keys(id, &sig, payload, Ghost(signature@))
    }

    /// Checks `signature` of `payload` against the key `id`, once the cache is fresh at
    /// `now`. A malformed signature is refused before the age of the cache matters.
    pub fn verify_at(&self, id: &str, signature: &[u8], payload: &[u8], now: Timestamp) -> (r: Result<CacheStep<()>, SignatureError>)
        ensures
            step_outcome_follows(
                r,
                signature_check(self.cached_keys(), id@, signature@, payload@),
                self.fresh_at(now as int),
                id@,
            ),
    {
        let sig = match decode_signature(signature) {
            Ok(s) => s,
            Err(e) => {
                return Err(e);
            },
        };
        if !self.is_cache_valid_at(now) {
            return Ok(CacheStep::Refresh);
        }
        match self.check_with_keys(id, &sig, payload, Ghost(signature@)) {
            Ok(()) => Ok(CacheStep::Ready(())),
            Err(e) => Err(e),
        }
    }

    /// Checks `signature` of `payload` against the key `id`, once the cache is fresh at
    /// the instant the clock gives (it is read once, in the time base of the fill time
    /// that [`Self::refresh_cache`] records).
    pub fn verify(&self, id: &str, signature: &[u8], payload: &[u8]) -> (r: Result<CacheStep<()>, SignatureError>)
        ensures
            exists|now: Timestamp|
                is_clock_reading(now) && now >= 0 && step_outcome_follows(
                    r,
                    signature_check(self.cached_keys(), id@, signature@, payload@),
                    #[trigger] self.fresh_at(now as int),
                    id@,
                ),
    {
        let now: Timestamp = read_clock();
        let r = self.verify_at(id, signature, payload, now);
        assert(is_clock_reading(now) && now >= 0 && step_outcome_follows(
            r,
            signature_check(self.cached_keys(), id@, signature@, payload@),
            self.fresh_at(now as int),
            id@,
        ));
        r
    }

    /// Answers a check that asked for a refresh: stores `keys`, fetched at `now`, and
    /// checks `signature` of `payload` against the key `id` among them.
    pub fn refresh_then_verify_at(
        &mut self,
        keys: Vec<K>,
        now: Timestamp,
        id: &str,
        signature: &[u8],
        payload: &[u8],
    ) -> (r: Result<(), SignatureError>)
        ensures
            final(self).cached_keys() == keys@,
            final(self).filled_at() == Some(now),
            final(self).ttl_micros() == old(self).ttl_micros(),
            outcome_follows(r, signature_check(keys@, id@, signature@, payload@), id@),
    {
        self.refresh_cache_at(keys, now);
        self.verify_loaded(id, signature, payload)
    }

    /// Answers a check that asked for a refresh: stores `keys`, fetched at the instant the
    /// clock gives, and checks `signature` of `payload` against the key `id` among them.
    pub fn refresh_then_verify(
        &mut self,
        keys: Vec<K>,
        id: &str,
        signature: &[u8],
        payload: &[u8],
    ) -> (r: Result<(), SignatureError>)
        ensures
            final(self).cached_keys() == keys@,
            final(self).filled_at() matches Some(t) && is_clock_reading(t) && t >= 0,
            final(self).ttl_micros() == old(self).ttl_micros(),
            outcome_follows(r, signature_check(keys@, id@, signature@, payload@), id@),
    {
        let now: Timestamp = read_clock();
        self.refresh_then_verify_at(keys, now, id, signature, payload)
    }

    /// The checks that follow the decoding of the signature into `sig`.
    fn check_with_keys(
        &self,
        id: &str,
        sig: &Vec<u8>,
        payload: &[u8],
        Ghost(signature): Ghost<Seq<u8>>,
    ) -> (r: Result<(), SignatureError>)
        requires
            base64_standard_decoding(signature) matches Some(der) && p256_signature_bytes(der)
                == Some(sig@),
        ensures
            outcome_follows(r, signature_check(self.cached_keys(), id@, signature, payload@), id@),
    {
        let key = match self.find_loaded(id) {
            Some(k) => k,
            None => {
                return Err(SignatureError::UnknownKeyId(id.to_owned()));
            },
        };
        if !key.is_current() {
            return Err(SignatureError::KeyNotCurrent(id.to_owned()));
        }
        let point = match public_key_point_from_pem(key.key()) {
            Some(p) => p,
            None => {
                return Err(SignatureError::InvalidPublicKey);
            },
        };
        proof {
            let der = base64_standard_decoding(signature)->0;
            assert(p256_signature_bytes(der) == Some(sig@));
            assert(p256_public_key_point(key.key_text()) == Some(point@));
        }
        match verify_p256_signature(point.as_slice(), payload, sig.as_slice()) {
            Ok(()) => Ok(()),
            Err(detail) => Err(SignatureError::InvalidSignature(detail)),
        }
    }
}

/// Decodes the base64 text of a signature and reads the DER encoding within, giving
/// the signature's fixed-size bytes.
fn decode_signature(signature: &[u8]) -> (r: Result<Vec<u8>, SignatureError>)
    ensures
        match base64_standard_decoding(signature@) {
            None => r matches Err(SignatureError::InvalidBase64(t)) && t@ == base64_decode_error_text(
                signature@,
            ),
            Some(der) => match p256_signature_bytes(der) {
                None => r matches Err(SignatureError::InvalidDer(t)) && t@ == der_signature_error_text(
                    der,
                ),
                Some(sig) => r matches Ok(v) && v@ == sig,
            },
        },
{
    let der = match base64_decode(signature) {
        Ok(b) => b,
        Err(detail) => {
            return Err(SignatureError::InvalidBase64(detail));
        },
    };
    match signature_from_der(der.as_slice()) {
        Ok(s) => Ok(s),
        Err(detail) => Err(SignatureError::InvalidDer(detail)),
    }
}

/// A cache is fresh right after it is filled, as long as its time to live is positive.
pub proof fn lemma_fresh_when_filled<K: PublicKey>(cache: PublicKeyCache<K>, t: Timestamp)
    requires
        cache.filled_at() == Some(t),
        cache.ttl_micros() > 0,
    ensures
        cache.fresh_at(t as int),
{
}

/// What a lookup gives back right after a refresh: once keys have been stored at `t`
/// (with a positive time to live), a lookup at `t` is answered from those keys, with
/// the first key listed under the identifier sought, or nothing when none is.
pub proof fn lemma_lookup_after_refresh<K: PublicKey>(
    cache: PublicKeyCache<K>,
    keys: Seq<K>,
    t: Timestamp,
    id: Seq<char>,
    r: CacheStep<Option<&K>>,
)
    requires
        cache.cached_keys() == keys,
        cache.filled_at() == Some(t),
        cache.ttl_micros() > 0,
        lookup_follows(r, cache.cached_keys(), id, cache.fresh_at(t as int)),
    ensures
        r matches CacheStep::Ready(found) && {
            &&& found is None <==> forall|j: int| 0 <= j < keys.len() ==> #[trigger] keys[j].key_id() != id
            &&& found matches Some(k) ==> k.key_id() == id && exists|i: int|
                0 <= i < keys.len() && keys[i] == *k && forall|j: int|
                    0 <= j < i ==> #[trigger] keys[j].key_id() != id
        },
{
    lemma_position_is_match(keys, id, 0);
    if let Some(i) = position_of(keys, id) {
        assert(keys[i].key_id() == id);
    }
}

/// The outcome of a whole check: the first answer, or, when that asked for a
/// refresh, the answer given after it.
pub open spec fn whole_outcome(
    first: Result<CacheStep<()>, SignatureError>,
    after_refresh: Result<(), SignatureError>,
) -> Result<(), SignatureError> {
    match first {
        Ok(CacheStep::Refresh) => after_refresh,
        Ok(CacheStep::Ready(_)) => Ok(()),
        Err(e) => Err(e),
    }
}

/// One whole check of a report's signature, as the caller runs it: `verify_at` on the
/// cache, and, when it asks for a refresh, `refresh_then_verify_at` with the keys
/// fetched then. A refresh is asked for only when the cache is stale and the signature
/// decodes; the outcome is the one that the check gives against the keys in use (the
/// fetched ones after a refresh, the cached ones otherwise), so the signature is
/// accepted exactly when it decodes, the first key listed under the identifier is
/// current and holds a P-256 key, and the signature is valid for the payload under it.
pub proof fn lemma_whole_check<K: PublicKey>(
    cache: PublicKeyCache<K>,
    fetched: Seq<K>,
    now: int,
    id: Seq<char>,
    signature: Seq<u8>,
    payload: Seq<u8>,
    first: Result<CacheStep<()>, SignatureError>,
    after_refresh: Result<(), SignatureError>,
)
    requires
        step_outcome_follows(
            first,
            signature_check(cache.cached_keys(), id, signature, payload),
            cache.fresh_at(now),
            id,
        ),
        first matches Ok(CacheStep::Refresh) ==> outcome_follows(
            after_refresh,
            signature_check(fetched, id, signature, payload),
            id,
        ),
    ensures
        first matches Ok(CacheStep::Refresh) ==> !cache.fresh_at(now) && signature_decodes(
            signature_check(cache.cached_keys(), id, signature, payload),
        ),
        outcome_follows(
            whole_outcome(first, after_refresh),
            signature_check(
                if first matches Ok(CacheStep::Refresh) {
                    fetched
                } else {
                    cache.cached_keys()
                },
                id,
                signature,
                payload,
            ),
            id,
        ),
{
}

/// Once its time to live has passed since the keys were fetched, a cache is stale, and
/// a check of a signature that decodes asks for the keys to be fetched again before it
/// goes on: a report signed with a key the cache has not seen yet is then checked
/// against the fresh keys rather than refused.
pub proof fn lemma_refresh_once_ttl_passed<K: PublicKey>(
    cache: PublicKeyCache<K>,
    now: int,
    check: SignatureCheck,
    id: Seq<char>,
    r: Result<CacheStep<()>, SignatureError>,
)
    requires
        cache.filled_at() matches Some(t) && now >= t + cache.ttl_micros(),
        signature_decodes(check),
        step_outcome_follows(r, check, cache.fresh_at(now), id),
    ensures
        !cache.fresh_at(now),
        r == Ok::<CacheStep<()>, SignatureError>(CacheStep::Refresh),
{
}

/// A cache that was never filled is stale at every instant.
pub proof fn lemma_unfilled_is_stale<K: PublicKey>(cache: PublicKeyCache<K>, now: int)
    requires
        cache.filled_at() is None,
    ensures
        !cache.fresh_at(now),
{
}

/// Freshness only lapses as time passes: a cache fresh at some instant was fresh at
/// every earlier one.
pub proof fn lemma_freshness_lapses_once<K: PublicKey>(cache: PublicKeyCache<K>, earlier: int, later: int)
    requires
        earlier <= later,
        cache.fresh_at(later),
    ensures
        cache.fresh_at(earlier),
{
}

/// An accepted signature was checked against the first cached key listed under the
/// given identifier, that key is current and holds a P-256 public key, and the
/// signature is valid for the payload under it.
pub proof fn lemma_accepted_signature<K: PublicKey>(
    r: Result<(), SignatureError>,
    keys: Seq<K>,
    id: Seq<char>,
    signature: Seq<u8>,
    payload: Seq<u8>,
)
    requires
        outcome_follows(r, signature_check(keys, id, signature, payload), id),
        r is Ok,
    ensures
        base64_standard_decoding(signature) matches Some(der) && p256_signature_bytes(der) matches Some(sig) && position_of(keys, id) matches Some(i) && {
            &&& 0 <= i < keys.len()
            &&& keys[i].key_id() == id
            &&& keys[i].key_is_current()
            &&& p256_public_key_point(keys[i].key_text()) matches Some(point)
                && p256_signature_valid(point, payload, sig)
        },
{
    let der = base64_standard_decoding(signature)->0;
    lemma_position_is_match(keys, id, 0);
}

/// A position found by `position_from` lies in the sequence and holds a key with the
/// identifier sought, and no key before it from `start` on has that identifier.
pub proof fn lemma_position_is_match<K: PublicKey>(keys: Seq<K>, id: Seq<char>, start: int)
    ensures
        position_from(keys, id, start) matches Some(i) ==> {
            &&& start <= i < keys.len()
            &&& 0 <= i
            &&& keys[i].key_id() == id
            &&& forall|j: int| start <= j < i ==> #[trigger] keys[j].key_id() != id
        },
        position_from(keys, id, start) is None ==> forall|j: int|
            0 <= start <= j < keys.len() ==> #[trigger] keys[j].key_id() != id,
    decreases keys.len() - start,
{
    if start < 0 || start >= keys.len() {
    } else if keys[start].key_id() == id {
    } else {
        lemma_position_is_match(keys, id, start + 1);
    }
}

} // verus!
