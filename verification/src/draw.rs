use vstd::prelude::*;
use crate::bytes::{push_u64_be, u64_be_spec};
use crate::hashing::{keccak256, keccak256_of};

verus! {

/// The byte string hashed for a draw: the current block height, then the
/// current timestamp, both big-endian.
pub open spec fn draw_input_spec(height: u64, time: u64) -> Seq<u8> {
    u64_be_spec(height) + u64_be_spec(time)
}

/// The value drawn at `(height, time)`: the first byte of the Keccak-256
/// digest of the draw input, reduced to the board cells' value domain of
/// byte values `0..=255`.
pub open spec fn draw_value_spec(height: u64, time: u64) -> u8 {
    keccak256_of(draw_input_spec(height, time))[0]
}

/// Derives the next drawn value from the environment of the current call.
///
/// The result is a pure function of the block height and timestamp at which
/// the draw transaction was ordered, so it is unpredictable before the draw
/// is committed yet reproducible by any observer afterwards.
pub fn derive_draw(height: u64, time: u64) -> (value: u8)
    ensures
        value == draw_value_spec(height, time),
{
    let mut input: Vec<u8> = Vec::new();
    push_u64_be(&mut input, height);
    push_u64_be(&mut input, time);
    proof {
        assert(input@ =~= draw_input_spec(height, time));
    }
    let digest = keccak256(&input);
    digest[0]
}

} // verus!
