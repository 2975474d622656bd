//! The handshake's clock reading.

use vstd::prelude::*;

verus! {

/// The handshake time for a clock reading of `elapsed_millis` milliseconds
/// since the Unix epoch: the reading truncated to 32 bits.
pub fn timestamp(elapsed_millis: u128) -> (r: u32)
    ensures
        r == elapsed_millis % 0x1_0000_0000,
{
    proof {
        assert(elapsed_millis as u32 == elapsed_millis % 0x1_0000_0000) by (bit_vector);
    }
    elapsed_millis as u32
}

} // verus!
