use vstd::prelude::*;
use crate::errors::BingoError;

verus! {

/// A disbursement request handed to the external settlement primitive: pay
/// the full pot of the round to the verified winner in the configured
/// currency. The round identifier doubles as the completion signal.
pub struct PayoutRequest {
    /// The finished round.
    pub round_id: u32,
    /// The verified winner's identity bytes.
    pub winner: Vec<u8>,
    /// The amount to transfer: the round's accumulated pot.
    pub amount: u128,
    /// The settlement currency identifier.
    pub denom: String,
}

/// Surfaces the outcome of the external funds-transfer primitive. A failed
/// transfer is reported as a payout error; the round remains finished
/// regardless, and any retry is the environment's concern, never re-entry
/// into the game logic.
pub fn settle_payout(transfer_succeeded: bool) -> (r: Result<(), BingoError>)
    ensures
        r is Ok <==> transfer_succeeded,
        r matches Err(e) ==> e == BingoError::Payout,
{
    if transfer_succeeded {
        Ok(())
    } else {
        Err(BingoError::Payout)
    }
}

} // verus!
