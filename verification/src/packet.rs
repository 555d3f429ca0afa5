//! The generic result envelope, the resolvers that narrow it into exactly
//! one of two well-typed outcomes, and the expiry rule a shared keyed cache
//! consults when an envelope is inserted.

use std::sync::Arc;

use vstd::prelude::*;

use crate::cache::Cache;

verus! {

/// A narrowed, internally consistent successful response: the success flag,
/// the cache metadata and the payload, all present.
#[derive(Clone, Copy, Debug)]
pub struct SuccessPacket<T> {
    pub success: bool,
    pub cache: Cache,
    pub data: T,
}

/// A narrowed, internally consistent failed response: the success flag and
/// the error message the service sent.
#[derive(Clone, Debug)]
pub struct ErrorPacket {
    pub success: bool,
    pub error: String,
}

/// The envelope as received from the wire: one flat shape that is really two
/// mutually exclusive variants. When `success` is true, `cache` and `data`
/// should both be present; when it is false, `error` should be. The type
/// does not enforce that, so the resolvers defend against envelopes that are
/// inconsistent with their own flag.
#[derive(Clone, Debug)]
pub struct Packet<T> {
    pub success: bool,
    pub cache: Option<Cache>,
    pub data: Option<T>,
    pub error: Option<String>,
}

impl<T> Packet<T> {
    /// The envelope claims success and indeed carries both cache metadata
    /// and a payload.
    pub open spec fn is_well_formed_success(self) -> bool {
        self.success && self.cache is Some && self.data is Some
    }

    /// The envelope claims failure and indeed carries an error message.
    pub open spec fn is_well_formed_error(self) -> bool {
        !self.success && self.error is Some
    }

    /// What narrowing to a success outcome yields: the envelope's own
    /// fields when it is a well-formed success, absence otherwise.
    pub open spec fn spec_into_success(self) -> Option<SuccessPacket<T>> {
        if self.is_well_formed_success() {
            Some(
                (SuccessPacket {
                    success: self.success,
                    cache: self.cache->0,
                    data: self.data->0,
                }),
            )
        } else {
            None
        }
    }

    /// What narrowing to an error outcome yields: the envelope's flag and
    /// message when it is a well-formed error, absence otherwise.
    pub open spec fn spec_into_error(self) -> Option<ErrorPacket> {
        if self.is_well_formed_error() {
            Some((ErrorPacket { success: self.success, error: self.error->0 }))
        } else {
            None
        }
    }
}

impl<T: Copy> Packet<T> {
    /// Narrows the envelope into a success outcome, copying the fields so
    /// the (possibly shared) envelope stays usable. Absence means either a
    /// claimed failure or a success inconsistent with its own flag; neither
    /// is a crash.
    pub fn into_success(&self) -> (outcome: Option<SuccessPacket<T>>)
        ensures
            outcome == self.spec_into_success(),
    {
        if self.success {
            if let (Some(data), Some(cache)) = (self.data, self.cache) {
                Some(SuccessPacket { success: self.success, cache, data })
            } else {
                None
            }
        } else {
            None
        }
    }

    /// Narrows the envelope into an error outcome, copying the message.
    /// Absence means either a claimed success or a failure that carries no
    /// message.
    pub fn into_error(&self) -> (outcome: Option<ErrorPacket>)
        ensures
            outcome == self.spec_into_error(),
    {
        if !self.success {
            match &self.error {
                Some(error) => Some(ErrorPacket { success: self.success, error: error.clone() }),
                None => None,
            }
        } else {
            None
        }
    }

    /// The raw success flag, verbatim: what the service claims, whether or
    /// not the rest of the envelope backs the claim up.
    pub fn is_success(&self) -> (claimed: bool)
        ensures
            claimed == self.success,
    {
        self.success
    }
}

/// The time-to-live the expiry rule assigns to an inserted envelope: the
/// remaining validity its cache metadata reports, or zero when it carries
/// none, so that errors and malformed successes do not linger.
pub open spec fn spec_expire_after_create<T>(value: Packet<T>, now_ms: u64) -> u64 {
    match value.cache {
        Some(c) => c.spec_time_until_elapsed(now_ms),
        None => 0,
    }
}

/// The expiry rule a shared keyed cache consults exactly once, at the moment
/// an envelope is inserted under a key.
pub struct CacheExpiration;

impl CacheExpiration {
    /// Time-to-live, in milliseconds, for the envelope being inserted:
    /// computed from the envelope's own cache metadata and the insertion
    /// moment `now_ms`, independent of the key.
    pub fn expire_after_create<K, T>(
        &self,
        _key: &K,
        value: &Arc<Packet<T>>,
        now_ms: u64,
    ) -> (ttl_ms: u64)
        ensures
            ttl_ms == spec_expire_after_create(**value, now_ms),
    {
        match &value.cache {
            Some(c) => c.time_until_elapsed(now_ms),
            None => 0,
        }
    }
}

/// For every well-formed success envelope, narrowing to a success outcome
/// yields exactly the envelope's own flag, cache metadata and payload, and
/// narrowing to an error outcome yields absence.
pub proof fn lemma_success_resolution<T>(p: Packet<T>)
    requires
        p.is_well_formed_success(),
    ensures
        p.spec_into_success() is Some,
        p.spec_into_success()->0.success == p.success,
        p.spec_into_success()->0.cache == p.cache->0,
        p.spec_into_success()->0.data == p.data->0,
        p.spec_into_error() is None,
{
}

/// For every well-formed error envelope, narrowing to an error outcome
/// yields exactly the envelope's own flag and message, and narrowing to a
/// success outcome yields absence.
pub proof fn lemma_error_resolution<T>(p: Packet<T>)
    requires
        p.is_well_formed_error(),
    ensures
        p.spec_into_error() is Some,
        p.spec_into_error()->0.success == p.success,
        p.spec_into_error()->0.error == p.error->0,
        p.spec_into_success() is None,
{
}

/// An envelope that claims success but is missing its cache metadata or its
/// payload resolves to neither outcome.
pub proof fn lemma_malformed_success_resolves_to_nothing<T>(p: Packet<T>)
    requires
        p.success,
        p.cache is None || p.data is None,
    ensures
        p.spec_into_success() is None,
        p.spec_into_error() is None,
{
}

/// An envelope that claims failure but carries no error message resolves to
/// neither outcome.
pub proof fn lemma_messageless_error_resolves_to_nothing<T>(p: Packet<T>)
    requires
        !p.success,
        p.error is None,
    ensures
        p.spec_into_success() is None,
        p.spec_into_error() is None,
{
}

/// An envelope that carries cache metadata is assigned exactly the
/// remaining validity that metadata reports at the insertion moment.
pub proof fn lemma_expiry_follows_cache_metadata<T>(p: Packet<T>, now_ms: u64)
    requires
        p.cache is Some,
    ensures
        spec_expire_after_create(p, now_ms) == p.cache->0.spec_time_until_elapsed(now_ms),
{
}

/// An envelope without cache metadata — an error, or a malformed success —
/// is assigned a time-to-live of exactly zero, so it does not linger.
pub proof fn lemma_expiry_zero_without_cache_metadata<T>(p: Packet<T>, now_ms: u64)
    requires
        p.cache is None,
    ensures
        spec_expire_after_create(p, now_ms) == 0,
{
}

} // verus!

