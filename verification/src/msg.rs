use vstd::prelude::*;
use crate::errors::BingoError;
use crate::payout::PayoutRequest;
use crate::registry::Registry;

verus! {

/// The commands the engine executes, one handler per variant. The hosting
/// environment decodes an incoming call into one of these and supplies the
/// caller's identity, the attached payment, and the current block height
/// and timestamp alongside.
pub enum ExecuteMsg {
    /// Create a new round.
    CreateGame {
        /// The fixed amount each joining player must pay.
        entry_fee: u128,
        /// Timestamp after which joining closes and draws may begin.
        join_deadline: u64,
        /// Minimum duration required between consecutive draws.
        turn_interval: u64,
    },
    /// Join an open round against payment of its entry fee.
    JoinGame {
        /// The round to join.
        game_id: u32,
    },
    /// Draw the next number for a round.
    DrawNumber {
        /// The round to draw for.
        game_id: u32,
    },
    /// Claim a win on the caller's board.
    Bingo {
        /// The round to claim in.
        game_id: u32,
    },
    /// Re-issue the disbursement request of a finished round.
    WithdrawWinnings {
        /// The finished round.
        game_id: u32,
    },
}

/// The queries the engine answers.
pub enum QueryMsg {
    /// The configured settlement currency identifier.
    GetDenom {},
}

/// The success signal of one executed command.
pub enum ExecuteReply {
    /// A round was created under the returned identifier.
    RoundCreated {
        /// The newly assigned round identifier.
        round_id: u32,
    },
    /// The caller joined the round.
    Joined {
        /// The joined round.
        round_id: u32,
    },
    /// A number was drawn.
    NumberDrawn {
        /// The round drawn for.
        round_id: u32,
        /// The derived drawn value.
        value: u8,
    },
    /// A win was declared: the completion signal with the disbursement
    /// request over the full pot.
    Won {
        /// The request handed to the settlement primitive.
        request: PayoutRequest,
    },
    /// A finished round's disbursement request, issued again.
    Withdrawal {
        /// The request handed to the settlement primitive.
        request: PayoutRequest,
    },
}

/// Executes one decoded command against the registry: the explicit
/// dispatch, one handler per variant, with no semantics of its own. Every
/// handler validates before it mutates, so a failing call returns the
/// specific error and leaves the registry unchanged.
pub fn execute(
    reg: &mut Registry,
    caller: Vec<u8>,
    paid_amount: u128,
    now: u64,
    height: u64,
    msg: ExecuteMsg,
) -> (r: Result<ExecuteReply, BingoError>)
    requires
        old(reg).wf(),
    ensures
        final(reg).wf(),
        match msg {
            ExecuteMsg::CreateGame { entry_fee, join_deadline, turn_interval } => match r {
                Ok(ExecuteReply::RoundCreated { round_id }) => Registry::create_post(
                    *old(reg),
                    *final(reg),
                    entry_fee,
                    join_deadline,
                    turn_interval,
                    now,
                    Ok(round_id),
                ),
                Err(e) => Registry::create_post(
                    *old(reg),
                    *final(reg),
                    entry_fee,
                    join_deadline,
                    turn_interval,
                    now,
                    Err(e),
                ),
                Ok(_) => false,
            },
            ExecuteMsg::JoinGame { game_id } => match r {
                Ok(ExecuteReply::Joined { round_id }) => round_id == game_id
                    && Registry::join_post(
                    *old(reg),
                    *final(reg),
                    game_id,
                    caller,
                    paid_amount,
                    now,
                    height,
                    Ok(()),
                ),
                Err(e) => Registry::join_post(
                    *old(reg),
                    *final(reg),
                    game_id,
                    caller,
                    paid_amount,
                    now,
                    height,
                    Err(e),
                ),
                Ok(_) => false,
            },
            ExecuteMsg::DrawNumber { game_id } => match r {
                Ok(ExecuteReply::NumberDrawn { round_id, value }) => round_id == game_id
                    && Registry::draw_post(*old(reg), *final(reg), game_id, now, height, Ok(value)),
                Err(e) => Registry::draw_post(*old(reg), *final(reg), game_id, now, height, Err(e)),
                Ok(_) => false,
            },
            ExecuteMsg::Bingo { game_id } => match r {
                Ok(ExecuteReply::Won { request }) => Registry::bingo_post(
                    *old(reg),
                    *final(reg),
                    game_id,
                    caller@,
                    Ok(request),
                ),
                Err(e) => Registry::bingo_post(*old(reg), *final(reg), game_id, caller@, Err(e)),
                Ok(_) => false,
            },
            ExecuteMsg::WithdrawWinnings { game_id } => *final(reg) == *old(reg) && match r {
                Ok(ExecuteReply::Withdrawal { request }) => old(reg).withdraw_ok(
                    game_id,
                    caller@,
                    request,
                ),
                Err(e) => old(reg).withdraw_err(game_id, caller@) == Some(e),
                Ok(_) => false,
            },
        },
{
    match msg {
        ExecuteMsg::CreateGame { entry_fee, join_deadline, turn_interval } => {
            match reg.create_round(entry_fee, join_deadline, turn_interval, now) {
                Ok(round_id) => Ok(ExecuteReply::RoundCreated { round_id }),
                Err(e) => Err(e),
            }
        },
        ExecuteMsg::JoinGame { game_id } => {
            match reg.join_round(game_id, caller, paid_amount, now, height) {
                Ok(_) => Ok(ExecuteReply::Joined { round_id: game_id }),
                Err(e) => Err(e),
            }
        },
        ExecuteMsg::DrawNumber { game_id } => {
            match reg.draw_number(game_id, now, height) {
                Ok(value) => Ok(ExecuteReply::NumberDrawn { round_id: game_id, value }),
                Err(e) => Err(e),
            }
        },
        ExecuteMsg::Bingo { game_id } => {
            match reg.bingo(game_id, &caller) {
                Ok(request) => Ok(ExecuteReply::Won { request }),
                Err(e) => Err(e),
            }
        },
        ExecuteMsg::WithdrawWinnings { game_id } => {
            match reg.withdraw_winnings(game_id, &caller) {
                Ok(request) => Ok(ExecuteReply::Withdrawal { request }),
                Err(e) => Err(e),
            }
        },
    }
}

/// Answers one decoded query against the registry.
pub fn query(reg: &Registry, msg: QueryMsg) -> (r: String)
    ensures
        match msg {
            QueryMsg::GetDenom {} => r == reg.denom,
        },
{
    match msg {
        QueryMsg::GetDenom {} => reg.denom.clone(),
    }
}

} // verus!
