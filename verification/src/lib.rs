//! Request-authorization gate for a service-to-service API.
//!
//! Every inbound request is classified as coming from an end user or from a
//! trusted backend service; service-originated requests must present an API
//! key that is validated against an in-memory cache of currently-valid keys,
//! refreshed on demand from an IAM authority.

pub mod app;
pub mod ascii;
pub mod cache;
pub mod config;
pub mod entities;
pub mod error_codes;
pub mod error_messages;
pub mod errors;
pub mod gapo_api_service;
pub mod gate;
pub mod iam_service;
pub mod request_info_utils;
pub mod roles;
