//! Decision halves of the user-core service calls: how an exchange with the
//! user-core API becomes a profile or the fixed not-found error, and how a
//! batch of cache answers splits into decoded profiles and keys still to
//! fetch. The HTTP and redis I/O around them lives outside the library.

use vstd::prelude::*;
use crate::entities::{UserCoreResult, UserInfo, UsersCoreResult};
use crate::error_codes::ErrorCodes;
use crate::error_messages::Messages;
use crate::errors::ApiError;

verus! {

/// The fixed answer when the user-core service yields no usable profile.
pub open spec fn is_user_core_error(e: ApiError) -> bool {
    &&& e.http_code == 400
    &&& e.message@ == Messages::USER_NOT_EXIST_OR_IS_BLOCKING@
    &&& e.code == ErrorCodes::USER_NOT_EXIST_OR_IS_BLOCKING
    &&& e.cause matches Some(c) && c@ == Messages::USER_NOT_EXIST_OR_IS_BLOCKING@
}

fn user_core_error() -> (r: ApiError)
    ensures
        is_user_core_error(r),
{
    ApiError::new(
        400,
        Messages::USER_NOT_EXIST_OR_IS_BLOCKING.to_owned(),
        ErrorCodes::USER_NOT_EXIST_OR_IS_BLOCKING,
        Some(Messages::USER_NOT_EXIST_OR_IS_BLOCKING.to_owned()),
        None,
    )
}

/// Turns one single-user exchange into the profile, or into the fixed
/// not-found error on any other answer: no answer, a status other than
/// `200`, or a body that did not decode.
pub fn user_from_response(status: Option<u16>, body: Option<UserCoreResult>) -> (r: Result<
    UserInfo,
    ApiError,
>)
    ensures
        body is Some && status == Some(200u16) ==> {
            &&& r is Ok
            &&& r->Ok_0 == body->Some_0.data
        },
        status != Some(200u16) || body is None ==> {
            &&& r matches Err(e)
            &&& is_user_core_error(e)
        },
{
    let ok = match status {
        Some(s) => s == 200,
        None => false,
    };
    if ok {
        if let Some(b) = body {
            return Result::Ok(b.data);
        }
    }
    Result::Err(user_core_error())
}

/// Turns one multi-user exchange into the profile list, under the same rule
/// as [`user_from_response`].
pub fn users_from_response(status: Option<u16>, body: Option<UsersCoreResult>) -> (r: Result<
    Vec<UserInfo>,
    ApiError,
>)
    ensures
        body is Some && status == Some(200u16) ==> {
            &&& r is Ok
            &&& r->Ok_0 == body->Some_0.data
        },
        status != Some(200u16) || body is None ==> {
            &&& r matches Err(e)
            &&& is_user_core_error(e)
        },
{
    let ok = match status {
        Some(s) => s == 200,
        None => false,
    };
    if ok {
        if let Some(b) = body {
            return Result::Ok(b.data);
        }
    }
    Result::Err(user_core_error())
}

/// One user cache answer: the key was absent, or its value decoded to a
/// profile, or a value was there but did not decode.
pub enum CachedUser {
    Missing,
    Decoded(UserInfo),
    Undecodable,
}

/// The decoded profiles of a batch of cache answers, each keyed by the id it
/// was asked under.
pub open spec fn hits_of(ids: Seq<String>, cached: Seq<CachedUser>) -> Seq<(String, UserInfo)>
    decreases cached.len(),
{
    if cached.len() == 0 {
        Seq::empty()
    } else {
        let rest = hits_of(ids, cached.drop_last());
        match cached.last() {
            CachedUser::Decoded(user) => rest.push((ids[cached.len() - 1], user)),
            _ => rest,
        }
    }
}

/// The ids whose key was absent from the cache, in asking order. An answer
/// that was present but undecodable is neither a hit nor a miss.
pub open spec fn misses_of(ids: Seq<String>, cached: Seq<CachedUser>) -> Seq<String>
    decreases cached.len(),
{
    if cached.len() == 0 {
        Seq::empty()
    } else {
        let rest = misses_of(ids, cached.drop_last());
        match cached.last() {
            CachedUser::Missing => rest.push(ids[cached.len() - 1]),
            _ => rest,
        }
    }
}

/// Splits a batch of cache answers into the profiles already decoded and the
/// ids that must still be fetched from the user-core service.
pub fn partition_cached(ids: &Vec<String>, cached: Vec<CachedUser>) -> (r: (
    Vec<(String, UserInfo)>,
    Vec<String>,
))
    requires
        cached@.len() <= ids@.len(),
    ensures
        r.0@ == hits_of(ids@, cached@),
        r.1@ == misses_of(ids@, cached@),
{
    let ghost all = cached@;
    let mut hits: Vec<(String, UserInfo)> = Vec::new();
    let mut misses: Vec<String> = Vec::new();
    let n = cached.len();
    let mut rest = cached;
    let mut i: usize = 0;
    while i < n
        invariant
            n == all.len(),
            all.len() <= ids@.len(),
            i <= n,
            rest@ == all.skip(i as int),
            hits@ == hits_of(ids@, all.take(i as int)),
            misses@ == misses_of(ids@, all.take(i as int)),
        decreases n - i,
    {
        let entry = rest.remove(0);
        proof {
            assert(all.skip(i as int)[0] == all[i as int]);
            assert(all.skip(i as int).skip(1) =~= all.skip(i + 1));
            assert(all.take(i + 1).drop_last() =~= all.take(i as int));
            assert(all.take(i + 1).last() == all[i as int]);
        }
        match entry {
            CachedUser::Decoded(user) => {
                hits.push((ids[i].clone(), user));
            },
            CachedUser::Missing => {
                misses.push(ids[i].clone());
            },
            CachedUser::Undecodable => {},
        }
        i = i + 1;
    }
    proof {
        assert(all.take(n as int) =~= all);
    }
    (hits, misses)
}

} // verus!
