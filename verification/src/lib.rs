//! Wire codec for a command and control protocol: a fixed packet header
//! followed by a flat list of tag-length-value records.
//!
//! Every decoder returns a `DecodeError` on malformed input and every
//! function's contract is stated over the byte sequences it reads or writes.

pub mod error;
pub mod utils;
pub mod tlv;
pub mod packet;
pub mod prelude;
