//! The internal representation that all codecs decode into and encode from.
//!
//! Every field of every supported protocol has a home here, in a known field or in a vendor bag.
pub mod cache;
pub mod compat;
pub mod envelope;
pub mod error;
pub mod ext;
pub mod repair;
pub mod request;
pub mod response;
pub mod schema;
pub mod serial;
pub mod stream;
pub mod usage;
pub mod value_laws;
pub mod vendor_ext;
