use vstd::prelude::*;
use crate::bytes::{push_bytes, push_u32_be, push_u64_be, u32_be_spec, u64_be_spec};
use crate::hashing::{keccak256, keccak256_of};

verus! {

/// The byte string hashed at join time: the caller's stable identity bytes,
/// then the round identifier, then the join-time marker (the block height at
/// which the join was processed), both integers big-endian.
pub open spec fn board_input_spec(caller: Seq<u8>, round_id: u32, marker: u64) -> Seq<u8> {
    caller + u32_be_spec(round_id) + u64_be_spec(marker)
}

/// The 24 board cells of `(caller, round_id, marker)`: the first 24 bytes of
/// the Keccak-256 digest of the board input. Cell values and drawn values
/// share the same domain, the byte values `0..=255`. Distinctness of the 24
/// cells within one board is not enforced.
pub open spec fn board_cells_spec(caller: Seq<u8>, round_id: u32, marker: u64) -> Seq<u8> {
    keccak256_of(board_input_spec(caller, round_id, marker)).take(24)
}

/// Derives a player's board from stable inputs fixed at join time.
///
/// The result is a pure function of the three arguments: deriving the same
/// board again later reproduces the same 24 cells, so any observer who knows
/// the inputs can verify a stored board. The marker is the block height at
/// which the join transaction was ordered, which the caller cannot predict
/// before committing, so the board is unpredictable before the join yet
/// auditable after it.
pub fn derive_board(caller: &Vec<u8>, round_id: u32, marker: u64) -> (cells: Vec<u8>)
    ensures
        cells@ == board_cells_spec(caller@, round_id, marker),
        cells@.len() == 24,
{
    let mut input: Vec<u8> = Vec::new();
    push_bytes(&mut input, caller);
    push_u32_be(&mut input, round_id);
    push_u64_be(&mut input, marker);
    proof {
        assert(input@ =~= board_input_spec(caller@, round_id, marker));
    }
    let digest = keccak256(&input);
    let mut cells: Vec<u8> = Vec::new();
    let mut i: usize = 0;
    while i < 24
        invariant
            i <= 24,
            digest@.len() == 32,
            digest@ == keccak256_of(board_input_spec(caller@, round_id, marker)),
            cells@ == digest@.take(i as int),
        decreases 24 - i,
    {
        cells.push(digest[i]);
        proof {
            assert(cells@ =~= digest@.take(i as int + 1));
        }
        i = i + 1;
    }
    cells
}

} // verus!
