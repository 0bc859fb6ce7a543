//! Plain data carried across the authorization gate's outer boundaries: the IAM authority's
//! key records and the user-core payloads.

use vstd::prelude::*;

verus! {

/// One record of the IAM authority's key list: the bearer credential a
/// service presents, and the internal service that owns it.
#[allow(non_snake_case)]
#[derive(Debug)]
pub struct IamKey {
    pub apiKey: String,
    pub source: String,
}

/// The decoded body of the authority's answer: its current full key list.
pub struct IamKeysResult {
    pub data: Vec<IamKey>,
}

pub const USER_INFO_FIELDS: &'static str =
    "id,display_name,full_name,cover,avatar,link_profile,status,status_verify,avatar_thumb_pattern,cover_thumb_pattern";

/// Profile data of one end user, as the user-core service reports it.
#[derive(Debug, Clone)]
pub struct UserInfo {
    pub id: i64,
    pub full_name: String,
    pub display_name: String,
    pub cover: String,
    pub avatar: String,
    pub link_profile: String,
    pub status: u32,
    pub status_verify: u32,
    pub avatar_thumb_pattern: String,
    pub cover_thumb_pattern: String,
}

/// The decoded body of a single-user answer.
#[derive(Debug)]
pub struct UserCoreResult {
    pub data: UserInfo,
}

/// The decoded body of a multi-user answer.
#[derive(Debug)]
pub struct UsersCoreResult {
    pub data: Vec<UserInfo>,
}

} // verus!
