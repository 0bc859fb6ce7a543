//! The decision half of the IAM client: how an authority answer, or the
//! failure to obtain one, becomes a key snapshot or a fetch error, and how
//! the initial cache population consumes it.
//!
//! The outbound HTTP call itself, with its deadline, lives outside the
//! library; it hands over the status it saw (or nothing, when the authority
//! was unreachable or slow) and the decoded body (or nothing, when the body
//! was not the expected shape).

use vstd::prelude::*;
use crate::cache::{fetched_records, records_map, KeyCache};
use crate::entities::{IamKey, IamKeysResult};
use crate::error_codes::ErrorCodes;
use crate::error_messages::Messages;
use crate::errors::ApiError;

verus! {

/// Turns one authority exchange into the current key list, or into the one
/// fetch error every caller treats identically.
///
/// `status` is the HTTP status of the answer, absent when no answer came;
/// `body` is the decoded key list, absent when the body failed to decode.
/// Only a `200` answer with a well-shaped body yields keys; every other
/// exchange is the fixed failure and carries no new information.
pub fn get_iam_keys(status: Option<u16>, body: Option<IamKeysResult>) -> (r: Result<
    Vec<IamKey>,
    ApiError,
>)
    ensures
        body is Some && status == Some(200u16) ==> {
            &&& r is Ok
            &&& r->Ok_0 == body->Some_0.data
        },
        status != Some(200u16) || body is None ==> {
            &&& r matches Err(e)
            &&& e.http_code == 400
            &&& e.message@ == Messages::SYSTEM_GENERAL_ERROR@
            &&& e.code == ErrorCodes::UNKNOWN
            &&& e.cause matches Some(c) && c@ == Messages::SYSTEM_GENERAL_ERROR@
        },
{
    let ok = match status {
        Some(s) => s == 200,
        None => false,
    };
    if ok {
        if let Some(b) = body {
            return Result::Ok(b.data);
        }
    }
    Result::Err(
        ApiError::new(
            400,
            Messages::SYSTEM_GENERAL_ERROR.to_owned(),
            ErrorCodes::UNKNOWN,
            Some(Messages::SYSTEM_GENERAL_ERROR.to_owned()),
            None,
        ),
    )
}

/// Builds the cache's starting state from the initial fetch: the fetched
/// snapshot folded in, the later record winning on a repeated key; an empty
/// cache when the fetch failed, so the process still starts and rejects
/// service calls until a later refresh succeeds.
pub fn get_iam_keys_for_init(fetched: Result<Vec<IamKey>, ApiError>) -> (r: KeyCache)
    ensures
        r.wf(),
        r@ == records_map(fetched_records(fetched)),
{
    let mut cache = KeyCache::new();
    let records = match fetched {
        Ok(records) => records,
        Err(_) => Vec::new(),
    };
    cache.merge_snapshot(&records);
    proof {
        assert(Map::<Seq<char>, Seq<char>>::empty().union_prefer_right(records_map(records@))
            =~= records_map(records@));
    }
    cache
}

} // verus!
