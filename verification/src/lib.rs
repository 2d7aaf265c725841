//! Transport endpoints that accept or yield values, and an adapter that
//! groups records by logical time before handing them to an endpoint.

pub mod channel;
pub mod endpoint;
pub mod observer;
pub mod shared;
