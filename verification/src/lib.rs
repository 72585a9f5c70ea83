//! A minimal responder that serves process metrics over HTTP.
//!
//! The responder answers exactly one path with the text rendered by a
//! metrics source, gzip-compressed when the client asks for it, and
//! degrades to an empty `500` response when rendering fails.

pub mod gzip;
pub mod serve;
