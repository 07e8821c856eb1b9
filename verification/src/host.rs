//! Host support check.
//!
//! The wire format is little-endian and the client refuses to run on a
//! big-endian host, before any account is touched.

use crate::errors::VampError;
use vstd::prelude::*;

verus! {

/// Relies on u16::to_ne_bytes: the memory representation in native byte
/// order, which is the little-endian order or its reverse.
#[verifier::external_body]
fn native_u16_bytes(x: u16) -> (r: [u8; 2])
    ensures
        r@ == seq![(x & 0xff) as u8, (x >> 8) as u8] || r@ == seq![
            (x >> 8) as u8,
            (x & 0xff) as u8,
        ],
{
    x.to_ne_bytes()
}

/// Fail fast on a big-endian host; on a little-endian host do nothing.
/// Which way it goes depends on the machine alone, never on the arguments.
pub fn exit_if_big_endian() -> (r: Result<(), VampError>)
    ensures
        r is Err ==> r == Err::<(), VampError>(VampError::UnsupportedHost),
{
    let probe = native_u16_bytes(1);
    assert((1u16 & 0xff) == 1 && (1u16 >> 8) == 0) by (bit_vector);
    if probe[0] == 1 {
        Ok(())
    } else {
        Err(VampError::UnsupportedHost)
    }
}

} // verus!
