//! The authorization gate: decides, before any business logic, whether an
//! inbound request may proceed.
//!
//! The decision is a two-step state machine so that the one blocking step,
//! the outbound fetch from the IAM authority, stays outside the verified
//! core. [`authorize_step`] classifies the caller and consults the cache;
//! when and only when it answers [`AuthStep::NeedsRefresh`] does the driver
//! perform one fetch and hand the outcome to [`authorize_resume`], which
//! merges it and re-checks. A fetch failure degrades to "key still absent",
//! never to an unhandled fault.

use vstd::prelude::*;
use crate::cache::{fetched_records, KeyCache, lemma_records_map_contains, records_map};
use crate::entities::IamKey;
use crate::error_codes::ErrorCodes;
use crate::error_messages::Messages;
use crate::errors::{ApiError, RequestInfo};
use crate::roles::{is_service_role, role_is_service};

verus! {

/// Where one request stands after a gate step. `NeedsRefresh` is the only
/// state that triggers a call to the IAM authority, and it is always
/// resolved by exactly one [`authorize_resume`].
#[derive(PartialEq, Eq, Structural, Clone, Copy, Debug)]
pub enum AuthStep {
    Accepted,
    Rejected,
    NeedsRefresh,
}

/// First half of the per-request state machine, up to the point where the
/// authority would be consulted.
///
/// A caller whose role header does not spell `service` (up to ASCII case)
/// passes unconditionally, whatever the key header holds. A service caller
/// with an empty key header is rejected outright, without a cache lookup. A
/// service caller whose key is in the cache is accepted without consulting
/// the IAM authority; only a service caller whose non-empty key misses the
/// cache is sent to the refresh path.
pub fn authorize_step(cache: &KeyCache, role: &String, key: &String) -> (r: AuthStep)
    requires
        cache.wf(),
    ensures
        !is_service_role(role@) ==> r == AuthStep::Accepted,
        is_service_role(role@) && key@.len() == 0 ==> r == AuthStep::Rejected,
        is_service_role(role@) && key@.len() > 0 && cache@.contains_key(key@) ==> r
            == AuthStep::Accepted,
        is_service_role(role@) && key@.len() > 0 && !cache@.contains_key(key@) ==> r
            == AuthStep::NeedsRefresh,
{
    if !role_is_service(role.as_str()) {
        return AuthStep::Accepted;
    }
    if key.as_str().is_empty() {
        return AuthStep::Rejected;
    }
    match cache.lookup(key) {
        Some(_) => AuthStep::Accepted,
        None => AuthStep::NeedsRefresh,
    }
}

/// Second half of the state machine, run after the one refresh attempt that
/// [`AuthStep::NeedsRefresh`] triggered.
///
/// The fetched snapshot, or nothing when the fetch failed, is merged into
/// the cache as a whole; the request is then decided against the updated
/// mapping, so a key carried by any record of the snapshot is accepted and a
/// fetch failure leaves the cache unchanged and the key still absent.
pub fn authorize_resume(
    cache: &mut KeyCache,
    key: &String,
    fetched: Result<Vec<IamKey>, ApiError>,
) -> (r: AuthStep)
    requires
        old(cache).wf(),
    ensures
        final(cache).wf(),
        final(cache)@ == old(cache)@.union_prefer_right(records_map(fetched_records(fetched))),
        r == AuthStep::Accepted || r == AuthStep::Rejected,
        (r == AuthStep::Accepted) == final(cache)@.contains_key(key@),
        (exists|i: int|
            0 <= i < fetched_records(fetched).len() && fetched_records(fetched)[i].apiKey@
                == key@) ==> r == AuthStep::Accepted,
{
    proof {
        lemma_records_map_contains(fetched_records(fetched), key@);
    }
    match cache.refresh_and_lookup(key, fetched) {
        Some(_) => AuthStep::Accepted,
        None => AuthStep::Rejected,
    }
}

/// The single standardized shape a rejected request receives: HTTP `403`
/// with the fixed message and machine code, the header/URI diagnostic
/// context riding along for telemetry only.
pub fn rejection_error(backtrace: Option<Vec<String>>, info: Option<RequestInfo>) -> (r: ApiError)
    ensures
        r.http_code == 403,
        r.message@ == Messages::INVALID_REQUEST@,
        r.code == ErrorCodes::INVALID_REQUEST,
        r.cause matches Some(c) && c@ == "x-gapo-key-api, hoac x-gapo-role không đúng"@,
        r.backtrace == backtrace,
        r.info == info,
{
    ApiError::one(
        403,
        Messages::INVALID_REQUEST.to_owned(),
        ErrorCodes::INVALID_REQUEST,
        Some("x-gapo-key-api, hoac x-gapo-role không đúng".to_owned()),
        backtrace,
        info,
    )
}

/// A merge never shrinks the mapping: every key valid before a refresh is
/// still valid after it, whatever the authority answered.
pub proof fn lemma_merge_preserves_keys(
    m: Map<Seq<char>, Seq<char>>,
    records: Seq<IamKey>,
    k: Seq<char>,
)
    requires
        m.contains_key(k),
    ensures
        m.union_prefer_right(records_map(records)).contains_key(k),
{
}

/// Once any snapshot carrying a key has been merged, a service request
/// presenting that key is accepted: when several concurrent missers each
/// trigger a refresh, every one of them ends accepted as soon as one
/// snapshot with the key lands, and later lookups keep seeing it.
pub proof fn lemma_snapshot_key_accepted(
    m: Map<Seq<char>, Seq<char>>,
    records: Seq<IamKey>,
    k: Seq<char>,
)
    requires
        exists|i: int| 0 <= i < records.len() && records[i].apiKey@ == k,
    ensures
        m.union_prefer_right(records_map(records)).contains_key(k),
{
    lemma_records_map_contains(records, k);
}

} // verus!
