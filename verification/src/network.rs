//! The limit on the size of a message between client and server.
use vstd::prelude::*;

verus! {

/// The largest message, in bytes, that is sent or accepted.
pub const MAX_PACKET_SIZE: usize = 65536;

/// Whether a received message of `len` bytes is small enough to be decoded.
pub fn packet_within_limit(len: usize) -> (accepted: bool)
    ensures
        accepted == (len <= MAX_PACKET_SIZE),
{
    len <= MAX_PACKET_SIZE
}

} // verus!
