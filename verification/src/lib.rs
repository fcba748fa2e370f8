//! Marshalling core of a native extension boundary: encoding strings into
//! host-owned fixed buffers, decoding host-supplied argument lists, and
//! preparing the payload handed to a host callback.

pub mod callback;
pub mod decoder;
pub mod domain;
pub mod entry;
pub mod writer;
