use vstd::prelude::*;

verus! {

/// The error taxonomy of the engine.
///
/// Every operation validates all of its preconditions before mutating any
/// state, so a call that returns one of these errors leaves the registry
/// exactly as it found it.
#[derive(Clone, Copy, Debug, PartialEq, Eq, Structural)]
pub enum BingoError {
    /// Malformed parameters, or a payment that differs from the entry fee.
    Validation,
    /// Unknown round, or the caller holds no board for the round.
    NotFound,
    /// The operation is invalid for the round's current lifecycle state.
    State,
    /// The turn interval has not yet elapsed since the previous draw.
    Timing,
    /// The caller already holds a board for this round.
    DuplicateJoin,
    /// No cataloged win pattern is fully covered by the drawn numbers.
    NoWin,
    /// The external settlement primitive failed to transfer the pot.
    Payout,
}

impl BingoError {
    /// A short human-readable reason string for the error.
    pub fn describe(&self) -> (r: String)
        ensures
            r@ == match *self {
                BingoError::Validation => "invalid parameters or entry fee"@,
                BingoError::NotFound => "round or board not found"@,
                BingoError::State => "operation invalid in the round's current state"@,
                BingoError::Timing => "turn interval has not elapsed"@,
                BingoError::DuplicateJoin => "caller already joined this round"@,
                BingoError::NoWin => "no win pattern is fully covered"@,
                BingoError::Payout => "settlement transfer failed"@,
            },
    {
        match *self {
            BingoError::Validation => "invalid parameters or entry fee".to_owned(),
            BingoError::NotFound => "round or board not found".to_owned(),
            BingoError::State => "operation invalid in the round's current state".to_owned(),
            BingoError::Timing => "turn interval has not elapsed".to_owned(),
            BingoError::DuplicateJoin => "caller already joined this round".to_owned(),
            BingoError::NoWin => "no win pattern is fully covered".to_owned(),
            BingoError::Payout => "settlement transfer failed".to_owned(),
        }
    }
}

} // verus!
