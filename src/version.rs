//! The identifiers that requests carry.
use vstd::prelude::*;
use crate::text::join;

verus! {

/// The version of this library.
pub const VERSION: &'static str = "0.1.0";

/// The protocol version that requests announce.
pub const PROTOCOL_VERSION: &'static str = "2.4";

/// The user agent of requests: the library's name and version.
pub fn user_agent() -> (r: String)
    ensures
        r@ == "Rust SDK "@ + VERSION@,
{
    join("Rust SDK ", VERSION)
}

} // verus!
