use vstd::prelude::*;

pub mod client;
pub mod codec;
pub mod error;
pub mod handshake;
pub mod iotserver;
pub mod packet;
pub mod server;
pub mod socket;
pub mod stream;
pub mod tsensor;
pub mod wire;

verus! {

/// Sum of two lengths, checked against the machine limit by the caller.
pub fn add(left: usize, right: usize) -> (r: usize)
    requires
        left + right <= usize::MAX,
    ensures
        r == left + right,
{
    left + right
}

} // verus!
