use vstd::prelude::*;

verus! {

/// How long a fetched key set is served before it is fetched again, in seconds.
pub const KEY_SET_TTL_SECS: u64 = 300;

/// What a published key holds beside its identifier.
#[derive(Clone, Debug)]
pub enum KeyMaterial {
    /// An RSA public key: modulus and exponent, base64url-encoded.
    Rsa { n: String, e: String },
    /// A key of any other family.
    Other,
}

/// One public key of the edge layer's published key set.
#[derive(Clone, Debug)]
pub struct SigningKey {
    /// The key identifier (`kid`), when the key has one.
    pub kid: Option<String>,
    /// The name of the algorithm the key is meant for (`"RS256"`), when given.
    pub algorithm: Option<String>,
    pub material: KeyMaterial,
}

/// The full set of keys published by the edge layer at one fetch.
#[derive(Clone, Debug)]
pub struct SigningKeySet {
    pub keys: Vec<SigningKey>,
}

/// Whether a key carries the identifier `kid`.
pub open spec fn has_kid(key: SigningKey, kid: Seq<char>) -> bool {
    key.kid matches Some(k) && k@ == kid
}

/// The first key of `keys` that carries the identifier `kid`.
pub open spec fn key_for(keys: Seq<SigningKey>, kid: Seq<char>) -> Option<SigningKey>
    decreases keys.len(),
{
    if keys.len() == 0 {
        None
    } else if has_kid(keys[0], kid) {
        Some(keys[0])
    } else {
        key_for(keys.drop_first(), kid)
    }
}

proof fn lemma_key_for_step(keys: Seq<SigningKey>, kid: Seq<char>, i: int)
    requires
        0 <= i < keys.len(),
        !has_kid(keys[i], kid),
    ensures
        key_for(keys.subrange(i, keys.len() as int), kid) == key_for(
            keys.subrange(i + 1, keys.len() as int),
            kid,
        ),
{
    let rest = keys.subrange(i, keys.len() as int);
    assert(rest.drop_first() =~= keys.subrange(i + 1, keys.len() as int));
}

/// Whether `a` and `b` hold the same text.
pub(crate) fn same_text(a: &String, b: &str) -> (r: bool)
    ensures
        r == (a@ == b@),
{
    let b_owned = b.to_owned();
    *a == b_owned
}

impl SigningKeySet {
    /// The first key whose identifier is `kid`, if any.
    pub fn find(&self, kid: &str) -> (r: Option<&SigningKey>)
        ensures
            match r {
                Some(k) => key_for(self.keys@, kid@) == Some(*k),
                None => key_for(self.keys@, kid@) is None,
            },
    {
        let mut i: usize = 0;
        proof {
            assert(self.keys@.subrange(0, self.keys@.len() as int) =~= self.keys@);
        }
        while i < self.keys.len()
            invariant
                i <= self.keys@.len(),
                key_for(self.keys@, kid@) == key_for(
                    self.keys@.subrange(i as int, self.keys@.len() as int),
                    kid@,
                ),
            decreases self.keys@.len() - i,
        {
            let key = &self.keys[i];
            let found = match &key.kid {
                Some(k) => same_text(k, kid),
                None => false,
            };
            if found {
                return Some(key);
            }
            proof {
                lemma_key_for_step(self.keys@, kid@, i as int);
            }
            i = i + 1;
        }
        proof {
            assert(self.keys@.subrange(i as int, self.keys@.len() as int).len() == 0);
        }
        None
    }
}

/// A key set together with the instant it was fetched (seconds).
#[derive(Clone, Debug)]
pub struct CachedKeySet {
    pub keys: SigningKeySet,
    pub fetched_at: u64,
}

/// Why a key set could not be fetched.
#[derive(Clone, Copy, Debug, PartialEq, Eq, Structural)]
pub enum KeyFetchError {
    /// The key endpoint could not be reached.
    Unreachable,
    /// The key endpoint answered with something that is not a key set.
    Malformed,
}

/// What a caller of the cache has to do before it can read keys.
#[derive(Clone, Copy, Debug, PartialEq, Eq, Structural)]
pub enum CachePlan {
    /// The cached key set is fresh: use it.
    Serve,
    /// The slot is empty or stale: fetch the key set and hand it to `complete_fetch`.
    Fetch,
}

/// The single cache slot for the edge layer's key set.
#[derive(Clone, Debug)]
pub struct KeySetCache {
    pub slot: Option<CachedKeySet>,
}

/// Seconds from `since` to `now`; an instant in the past of `since` counts as no time.
pub open spec fn elapsed(since: u64, now: u64) -> int {
    if now >= since {
        now - since
    } else {
        0
    }
}

impl KeySetCache {
    /// Whether the slot holds a key set fetched less than the TTL before `now`.
    pub open spec fn is_fresh(self, now: u64) -> bool {
        self.slot matches Some(c) && elapsed(c.fetched_at, now) < KEY_SET_TTL_SECS
    }

    pub open spec fn plan_at(self, now: u64) -> CachePlan {
        if self.is_fresh(now) {
            CachePlan::Serve
        } else {
            CachePlan::Fetch
        }
    }

    /// An empty cache: the first read fetches.
    pub fn new() -> (r: KeySetCache)
        ensures
            r.slot is None,
    {
        KeySetCache { slot: None }
    }

    /// Whether the key set can be served from the slot at `now`, or must be fetched.
    pub fn plan(&self, now: u64) -> (r: CachePlan)
        ensures
            r == self.plan_at(now),
    {
        match &self.slot {
            Some(c) => {
                let age: u64 = if now >= c.fetched_at {
                    now - c.fetched_at
                } else {
                    0
                };
                if age < KEY_SET_TTL_SECS {
                    CachePlan::Serve
                } else {
                    CachePlan::Fetch
                }
            },
            None => CachePlan::Fetch,
        }
    }

    /// Records the outcome of a fetch made at `now`. A fetched key set replaces the slot
    /// whole; a failed fetch leaves the slot as it was, so a stale set is still served.
    pub fn complete_fetch(&mut self, fetched: Result<SigningKeySet, KeyFetchError>, now: u64) -> (r:
        Result<(), KeyFetchError>)
        ensures
            match fetched {
                Ok(keys) => {
                    &&& r is Ok
                    &&& final(self).slot == Some(CachedKeySet { keys, fetched_at: now })
                },
                Err(e) => {
                    &&& r == Err::<(), KeyFetchError>(e)
                    &&& final(self).slot == old(self).slot
                },
            },
    {
        match fetched {
            Ok(keys) => {
                self.slot = Some(CachedKeySet { keys, fetched_at: now });
                Ok(())
            },
            Err(e) => Err(e),
        }
    }

    /// The key set in the slot, fresh or stale.
    pub fn current(&self) -> (r: Option<&SigningKeySet>)
        ensures
            match r {
                Some(k) => self.slot matches Some(c) && c.keys == *k,
                None => self.slot is None,
            },
    {
        match &self.slot {
            Some(c) => Some(&c.keys),
            None => None,
        }
    }
}

/// After a key set is stored at `fetched_at`, the cache serves it without a new fetch
/// for every instant less than the TTL later, and asks for a new fetch from the TTL on.
pub proof fn lemma_one_fetch_per_window(keys: SigningKeySet, fetched_at: u64, now: u64)
    requires
        fetched_at <= now,
    ensures
        ({
            let cache = KeySetCache { slot: Some(CachedKeySet { keys, fetched_at }) };
            &&& now - fetched_at < KEY_SET_TTL_SECS ==> cache.plan_at(now) == CachePlan::Serve
            &&& now - fetched_at >= KEY_SET_TTL_SECS ==> cache.plan_at(now) == CachePlan::Fetch
        }),
{
}

} // verus!
