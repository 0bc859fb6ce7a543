//! Caller roles, derived case-insensitively from the role header.

use vstd::prelude::*;
use crate::ascii::{seq_eq_ci, str_eq_ci};
use crate::error_codes::ErrorCodes;
use crate::error_messages::Messages;
use crate::errors::ApiError;

verus! {

/// The two classified caller roles: a trusted backend service, or an end
/// user.
#[derive(PartialEq, Eq, Structural, Clone, Copy, Debug)]
pub enum XGapoRole {
    Service,
    User,
}

/// The characters of the role token `service`.
pub open spec fn service_chars() -> Seq<char> {
    seq!['s', 'e', 'r', 'v', 'i', 'c', 'e']
}

/// The characters of the role token `user`.
pub open spec fn user_chars() -> Seq<char> {
    seq!['u', 's', 'e', 'r']
}

/// A header value selects the service path exactly when it spells `service`
/// up to ASCII case.
pub open spec fn is_service_role(s: Seq<char>) -> bool {
    seq_eq_ci(s, service_chars())
}

/// The token `service` as an executable word.
pub fn service_word() -> (v: Vec<char>)
    ensures
        v@ == service_chars(),
{
    let mut v: Vec<char> = Vec::new();
    v.push('s');
    v.push('e');
    v.push('r');
    v.push('v');
    v.push('i');
    v.push('c');
    v.push('e');
    proof {
        assert(v@ =~= service_chars());
    }
    v
}

/// The token `user` as an executable word.
pub fn user_word() -> (v: Vec<char>)
    ensures
        v@ == user_chars(),
{
    let mut v: Vec<char> = Vec::new();
    v.push('u');
    v.push('s');
    v.push('e');
    v.push('r');
    proof {
        assert(v@ =~= user_chars());
    }
    v
}

/// Decides [`is_service_role`] on a header value.
pub fn role_is_service(s: &str) -> (r: bool)
    ensures
        r == is_service_role(s@),
{
    let w = service_word();
    str_eq_ci(s, &w)
}

impl XGapoRole {
    /// Classifies a role header value, case-insensitively: `service` and
    /// `user` parse to their variants, anything else is refused with the
    /// fixed not-permitted error.
    pub fn from_str(s: &str) -> (r: Result<XGapoRole, ApiError>)
        ensures
            seq_eq_ci(s@, service_chars()) ==> r == Result::<XGapoRole, ApiError>::Ok(
                XGapoRole::Service,
            ),
            seq_eq_ci(s@, user_chars()) ==> r == Result::<XGapoRole, ApiError>::Ok(XGapoRole::User),
            !seq_eq_ci(s@, service_chars()) && !seq_eq_ci(s@, user_chars()) ==> {
                &&& r matches Err(e)
                &&& e.http_code == 403
                &&& e.message@ == Messages::USER_NOT_PERMISSION@
                &&& e.code == ErrorCodes::GAPO_ROLE_NOT_SUPPORT
                &&& e.cause matches Some(c) && c@ == Messages::USER_NOT_PERMISSION@
                &&& e.backtrace is None
                &&& e.info is None
            },
    {
        let service = service_word();
        let user = user_word();
        if str_eq_ci(s, &service) {
            Result::Ok(XGapoRole::Service)
        } else if str_eq_ci(s, &user) {
            Result::Ok(XGapoRole::User)
        } else {
            Result::Err(
                ApiError::new(
                    403,
                    Messages::USER_NOT_PERMISSION.to_owned(),
                    ErrorCodes::GAPO_ROLE_NOT_SUPPORT,
                    Some(Messages::USER_NOT_PERMISSION.to_owned()),
                    None,
                ),
            )
        }
    }
}

} // verus!
