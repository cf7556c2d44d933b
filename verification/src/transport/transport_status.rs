//! Status byte values of the transport header. Each message carries exactly
//! one of these values; they are compared by equality, never combined.

use vstd::prelude::*;

verus! {

pub const STATUS_REQRES: u8 = 1;

pub const STATUS_ERROR: u8 = 2;

pub const STATUS_COMPRESS: u8 = 4;

pub const STATUS_HANDSHAKE: u8 = 8;

} // verus!
