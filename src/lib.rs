//! A client for a cloud object-storage JSON API that authenticates as a
//! service identity: signed assertions, token exchange, and the requests and
//! outcome rules of the storage operations.

pub mod text;
pub mod error;
pub mod crypto;
pub mod json;
pub mod jwt;
pub mod credentials;
pub mod request;
pub mod model;
pub mod dispatch;
