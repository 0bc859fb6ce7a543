//! The request context enricher: diagnostic metadata for rejection outcomes
//! and telemetry, built from plain request values with no network or cache
//! access, always successfully.

use vstd::prelude::*;
use vstd::string::StringExecFns;
use std::collections::HashMap;
use crate::errors::RequestInfo;

verus! {

/// The request URI as the observability scope tags it: path, `?`, query
/// string.
pub fn uri_of(path: &str, query: &str) -> (r: String)
    ensures
        r@ == path@ + "?"@ + query@,
{
    let mut s = String::from_str(path);
    s.append("?");
    s.append(query);
    s
}

/// The diagnostic context of one request: exactly the headers the request
/// carried, as name/value pairs in arrival order, and its URI; the tag and
/// body maps start empty. Missing fields become empty values, never an
/// error.
pub fn get_request_info(headers: Vec<(String, String)>, uri: String) -> (r: Option<RequestInfo>)
    ensures
        r matches Some(info) && {
            &&& info.headers == Some(headers)
            &&& info.tags matches Some(t) && t@ == Map::<String, String>::empty()
            &&& info.body matches Some(b) && b@ == Map::<String, String>::empty()
            &&& info.uri == Some(uri)
        },
{
    let tags: HashMap<String, String> = HashMap::new();
    let body: HashMap<String, String> = HashMap::new();
    Some(RequestInfo { headers: Some(headers), tags: Some(tags), uri: Some(uri), body: Some(body) })
}

} // verus!
