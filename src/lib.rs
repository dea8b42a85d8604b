//! A client surface for a payments API: the signed-request configuration that a
//! client is built from, and the field codecs that its requests and responses use
//! on the wire (a JSON document nested as a string, and compact UUID text).

pub mod api;
pub mod client;
pub mod error;
pub mod json_string;
pub mod opt_uuid_simple;
pub mod uuid_simple;
pub mod uuid_text;
