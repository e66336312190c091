//! Command flags.

use vstd::prelude::*;

verus! {

/// The value is already in the server's arena; use the offset
pub const NO_COPY: u8 = 0x01;

/// High-priority operation
pub const URGENT: u8 = 0x02;

/// The extra field holds a time-to-live
pub const TTL: u8 = 0x04;

/// The extra field holds the expected version
pub const CAS_VERSION: u8 = 0x08;

} // verus!
