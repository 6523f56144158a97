use vstd::prelude::*;
use crate::bytes::{bytes_eq, clone_bytes};
use crate::board::{board_cells_spec, derive_board};
use crate::draw::{derive_draw, draw_value_spec};
use crate::errors::BingoError;
use crate::game::{board_key_at, has_board_in, Game, PlayerBoard, RoundState};
use crate::patterns::{check_win, win_exists};
use crate::payout::PayoutRequest;

verus! {

/// The owner of all game state: the rounds, the boards, and the settlement
/// configuration. The hosting environment serializes calls, so every
/// operation below validates all of its preconditions before mutating
/// anything, and a failing call leaves the registry untouched.
pub struct Registry {
    /// The settlement currency identifier.
    pub denom: String,
    /// All rounds ever created; the round with identifier `n` sits at
    /// position `n - 1`, so identifiers are assigned monotonically and
    /// rounds persist for audit.
    pub rounds: Vec<Game>,
    /// All boards ever derived, in join order, at most one per
    /// `(player, round)` pair.
    pub boards: Vec<PlayerBoard>,
}

impl Registry {
    /// Whether a round with this identifier exists.
    pub open spec fn has_round(self, round_id: u32) -> bool {
        1 <= round_id <= self.rounds@.len()
    }

    /// The round with this identifier.
    pub open spec fn round(self, round_id: u32) -> Game
        recommends
            self.has_round(round_id),
    {
        self.rounds@[round_id - 1]
    }

    /// Whether `(owner, round_id)` already holds a board.
    pub open spec fn has_board(self, owner: Seq<u8>, round_id: u32) -> bool {
        has_board_in(self.boards@, owner, round_id)
    }

    /// The position of the board of `(owner, round_id)`.
    pub open spec fn board_index_of(self, owner: Seq<u8>, round_id: u32) -> int {
        choose|j: int| 0 <= j < self.boards@.len() && #[trigger] board_key_at(self.boards@, j, owner, round_id)
    }

    /// The stored board of `(owner, round_id)`.
    pub open spec fn stored_board(self, owner: Seq<u8>, round_id: u32) -> PlayerBoard
        recommends
            self.has_board(owner, round_id),
    {
        self.boards@[self.board_index_of(owner, round_id)]
    }

    /// Well-formedness of the whole registry: every round is well-formed
    /// and numbered by its position, every board is well-formed and points
    /// at an existing round, no `(player, round)` pair holds two boards,
    /// and every listed player of a round holds a board for it.
    pub open spec fn wf(self) -> bool {
        &&& self.rounds@.len() <= u32::MAX
        &&& forall|i: int|
            0 <= i < self.rounds@.len()
                ==> (#[trigger] self.rounds@[i]).id == i + 1 && self.rounds@[i].wf()
        &&& forall|j: int|
            0 <= j < self.boards@.len()
                ==> (#[trigger] self.boards@[j]).wf() && 1 <= self.boards@[j].round_id
                    && self.boards@[j].round_id <= self.rounds@.len()
        &&& forall|j: int, k: int|
            #![trigger self.boards@[j], self.boards@[k]]
            0 <= j < k < self.boards@.len()
                ==> !(self.boards@[j].owner@ == self.boards@[k].owner@
                    && self.boards@[j].round_id == self.boards@[k].round_id)
        &&& forall|i: int, a: int|
            #![trigger self.rounds@[i].players@[a]]
            0 <= i < self.rounds@.len() && 0 <= a < self.rounds@[i].players@.len()
                ==> has_board_in(self.boards@, self.rounds@[i].players@[a]@, (i + 1) as u32)
    }

    /// Two board positions with the same `(owner, round)` key are the same
    /// position.
    pub proof fn lemma_board_key_unique(self, j: int, k: int, owner: Seq<u8>, round_id: u32)
        requires
            self.wf(),
            0 <= j < self.boards@.len(),
            0 <= k < self.boards@.len(),
            board_key_at(self.boards@, j, owner, round_id),
            board_key_at(self.boards@, k, owner, round_id),
        ensures
            j == k,
    {
        if j < k {
            assert(!(self.boards@[j].owner@ == self.boards@[k].owner@
                && self.boards@[j].round_id == self.boards@[k].round_id));
        } else if k < j {
            assert(!(self.boards@[k].owner@ == self.boards@[j].owner@
                && self.boards@[k].round_id == self.boards@[j].round_id));
        }
    }

    /// Creates the registry at system start: the settlement currency is
    /// fixed, and no round and no board exists yet.
    pub fn instantiate(denom: String) -> (reg: Registry)
        ensures
            reg.wf(),
            reg.denom == denom,
            reg.rounds@.len() == 0,
            reg.boards@.len() == 0,
    {
        Registry { denom, rounds: Vec::new(), boards: Vec::new() }
    }

    /// The configured settlement currency identifier.
    pub fn query_settlement_denom(&self) -> (r: &String)
        ensures
            r == self.denom,
    {
        &self.denom
    }

    /// The position of the caller's board for `round_id`, if any.
    pub fn find_board(&self, owner: &Vec<u8>, round_id: u32) -> (r: Option<usize>)
        ensures
            match r {
                Some(j) => j < self.boards@.len()
                    && board_key_at(self.boards@, j as int, owner@, round_id),
                None => !self.has_board(owner@, round_id),
            },
            r is Some <==> self.has_board(owner@, round_id),
    {
        let mut j: usize = 0;
        while j < self.boards.len()
            invariant
                j <= self.boards@.len(),
                forall|i: int| 0 <= i < j ==> !board_key_at(self.boards@, i, owner@, round_id),
            decreases self.boards@.len() - j,
        {
            if self.boards[j].round_id == round_id && bytes_eq(&self.boards[j].owner, owner) {
                return Some(j);
            }
            j = j + 1;
        }
        None
    }

    /// The error `create_round` detects, if any: the entry fee must be
    /// positive and the join deadline must lie in the future of the call.
    pub open spec fn create_err(self, entry_fee: u128, join_deadline: u64, now: u64) -> Option<
        BingoError,
    > {
        if entry_fee < 1 {
            Some(BingoError::Validation)
        } else if join_deadline <= now {
            Some(BingoError::Validation)
        } else if self.rounds@.len() >= u32::MAX {
            Some(BingoError::Validation)
        } else {
            None
        }
    }

    /// What a completed `create_round` call guarantees.
    pub open spec fn create_post(
        pre: Registry,
        post: Registry,
        entry_fee: u128,
        join_deadline: u64,
        turn_interval: u64,
        now: u64,
        r: Result<u32, BingoError>,
    ) -> bool {
        match r {
            Err(e) => pre.create_err(entry_fee, join_deadline, now) == Some(e) && post == pre,
            Ok(round_id) => {
                let g = post.rounds@.last();
                &&& pre.create_err(entry_fee, join_deadline, now) is None
                &&& round_id == pre.rounds@.len() + 1
                &&& post.denom == pre.denom
                &&& post.boards@ == pre.boards@
                &&& post.rounds@ == pre.rounds@.push(g)
                &&& g.id == round_id
                &&& g.players@.len() == 0
                &&& g.pot == 0
                &&& g.entry_fee == entry_fee
                &&& g.state is Open
                &&& g.join_deadline == join_deadline
                &&& g.turn_interval == turn_interval
                &&& g.last_draw_time == join_deadline
                &&& g.drawn_numbers@.len() == 0
                &&& g.winner is None
            },
        }
    }

    /// Allocates the next round identifier and creates the round in state
    /// `Open` with an empty player list and an empty pot. Fails with a
    /// validation error when the entry fee is zero, when the join deadline
    /// does not lie in the future, or when the identifier space is
    /// exhausted.
    pub fn create_round(
        &mut self,
        entry_fee: u128,
        join_deadline: u64,
        turn_interval: u64,
        now: u64,
    ) -> (r: Result<u32, BingoError>)
        requires
            old(self).wf(),
        ensures
            final(self).wf(),
            Registry::create_post(
                *old(self),
                *final(self),
                entry_fee,
                join_deadline,
                turn_interval,
                now,
                r,
            ),
    {
        if entry_fee < 1 {
            return Err(BingoError::Validation);
        }
        if join_deadline <= now {
            return Err(BingoError::Validation);
        }
        if self.rounds.len() >= (u32::MAX as usize) {
            return Err(BingoError::Validation);
        }
        let round_id: u32 = (self.rounds.len() as u32) + 1;
        let game = Game {
            id: round_id,
            players: Vec::new(),
            pot: 0,
            entry_fee,
            state: RoundState::Open,
            join_deadline,
            turn_interval,
            last_draw_time: join_deadline,
            drawn_numbers: Vec::new(),
            winner: None,
        };
        self.rounds.push(game);
        proof {
            assert forall|i: int, a: int|
                #![trigger self.rounds@[i].players@[a]]
                0 <= i < self.rounds@.len() && 0 <= a < self.rounds@[i].players@.len() implies has_board_in(
                self.boards@,
                self.rounds@[i].players@[a]@,
                (i + 1) as u32,
            ) by {
                assert(i < old(self).rounds@.len());
                assert(self.rounds@[i] == old(self).rounds@[i]);
            }
        }
        Ok(round_id)
    }

    /// The error `join_round` detects, if any, in the order the checks are
    /// made: the round must exist, be open, and still accept joins; the
    /// payment must equal the entry fee; the caller must not hold a board
    /// for this round yet; and the grown pot must still be representable.
    pub open spec fn join_err(
        self,
        round_id: u32,
        caller: Seq<u8>,
        paid_amount: u128,
        now: u64,
    ) -> Option<BingoError> {
        if !self.has_round(round_id) {
            Some(BingoError::NotFound)
        } else if !(self.round(round_id).state is Open) {
            Some(BingoError::State)
        } else if now >= self.round(round_id).join_deadline {
            Some(BingoError::State)
        } else if paid_amount != self.round(round_id).entry_fee {
            Some(BingoError::Validation)
        } else if self.has_board(caller, round_id) {
            Some(BingoError::DuplicateJoin)
        } else if self.round(round_id).pot + paid_amount > u128::MAX {
            Some(BingoError::Validation)
        } else {
            None
        }
    }

    /// What a successful join changes: exactly one new board, derived from
    /// the caller, the round and the join-time marker; the caller appended
    /// to the round's players; the paid fee added to the pot; everything
    /// else untouched.
    pub open spec fn join_effect(
        pre: Registry,
        post: Registry,
        round_id: u32,
        caller: Vec<u8>,
        paid_amount: u128,
        height: u64,
    ) -> bool {
        let i = round_id - 1;
        let g = pre.rounds@[i];
        let g2 = post.rounds@[i];
        let b = post.boards@.last();
        &&& post.denom == pre.denom
        &&& post.rounds@.len() == pre.rounds@.len()
        &&& forall|k: int|
            0 <= k < pre.rounds@.len() && k != i ==> post.rounds@[k] == pre.rounds@[k]
        &&& g2.id == g.id
        &&& g2.players@ == g.players@.push(caller)
        &&& g2.pot == g.pot + paid_amount
        &&& g2.entry_fee == g.entry_fee
        &&& g2.state == g.state
        &&& g2.join_deadline == g.join_deadline
        &&& g2.turn_interval == g.turn_interval
        &&& g2.last_draw_time == g.last_draw_time
        &&& g2.drawn_numbers == g.drawn_numbers
        &&& g2.winner == g.winner
        &&& post.boards@ == pre.boards@.push(b)
        &&& b.owner@ == caller@
        &&& b.round_id == round_id
        &&& b.marker == height
        &&& b.cells@ == board_cells_spec(caller@, round_id, height)
    }

    /// What a completed `join_round` call guarantees.
    pub open spec fn join_post(
        pre: Registry,
        post: Registry,
        round_id: u32,
        caller: Vec<u8>,
        paid_amount: u128,
        now: u64,
        height: u64,
        r: Result<(), BingoError>,
    ) -> bool {
        match r {
            Err(e) => pre.join_err(round_id, caller@, paid_amount, now) == Some(e) && post == pre,
            Ok(_) => pre.join_err(round_id, caller@, paid_amount, now) is None
                && Registry::join_effect(pre, post, round_id, caller, paid_amount, height),
        }
    }

    /// Joins the caller to an open round against payment of the entry fee.
    ///
    /// All checks happen before any mutation, so a failing call leaves the
    /// registry byte-for-byte unchanged. On success the caller's board is
    /// derived from the join-time marker (the block height at which the
    /// call was ordered) and stored, the caller is appended to the round's
    /// players, and the payment is added to the pot — exactly once per
    /// caller per round, since a second join finds the stored board and
    /// fails as a duplicate.
    pub fn join_round(
        &mut self,
        round_id: u32,
        caller: Vec<u8>,
        paid_amount: u128,
        now: u64,
        height: u64,
    ) -> (r: Result<(), BingoError>)
        requires
            old(self).wf(),
        ensures
            final(self).wf(),
            Registry::join_post(
                *old(self),
                *final(self),
                round_id,
                caller,
                paid_amount,
                now,
                height,
                r,
            ),
    {
        if round_id < 1 || (round_id as usize) > self.rounds.len() {
            return Err(BingoError::NotFound);
        }
        let idx: usize = (round_id as usize) - 1;
        if self.rounds[idx].state != RoundState::Open {
            return Err(BingoError::State);
        }
        if now >= self.rounds[idx].join_deadline {
            return Err(BingoError::State);
        }
        if paid_amount != self.rounds[idx].entry_fee {
            return Err(BingoError::Validation);
        }
        if self.find_board(&caller, round_id).is_some() {
            return Err(BingoError::DuplicateJoin);
        }
        if self.rounds[idx].pot > u128::MAX - paid_amount {
            return Err(BingoError::Validation);
        }
        let cells = derive_board(&caller, round_id, height);
        let owner = clone_bytes(&caller);
        self.boards.push(PlayerBoard { owner, round_id, marker: height, cells });
        let g = &mut self.rounds[idx];
        let ghost players_before = g.players@;
        g.pot = g.pot + paid_amount;
        g.players.push(caller);
        proof {
            let pre = *old(self);
            let post = *self;
            let i = round_id - 1;
            // The mutated round is still well-formed.
            assert((players_before.len() + 1) * (pre.rounds@[i].entry_fee as int) == players_before.len()
                * (pre.rounds@[i].entry_fee as int) + pre.rounds@[i].entry_fee as int) by (nonlinear_arith);
            assert forall|a: int, b: int|
                #![trigger post.rounds@[i].players@[a], post.rounds@[i].players@[b]]
                0 <= a < b < post.rounds@[i].players@.len() implies post.rounds@[i].players@[a]@
                != post.rounds@[i].players@[b]@ by {
                if b == post.rounds@[i].players@.len() - 1 {
                    // A repeated identity would mean the caller already held
                    // a board, which the duplicate check ruled out.
                    assert(post.rounds@[i].players@[a] == pre.rounds@[i].players@[a]);
                    if post.rounds@[i].players@[a]@ == caller@ {
                        assert(has_board_in(pre.boards@, pre.rounds@[i].players@[a]@, round_id));
                        let j = choose|j: int|
                            0 <= j < pre.boards@.len() && #[trigger] board_key_at(
                                pre.boards@,
                                j,
                                caller@,
                                round_id,
                            );
                        assert(board_key_at(pre.boards@, j, caller@, round_id));
                    }
                }
            }
            // The new board's key is fresh, so boards stay unique.
            assert forall|j: int, k: int|
                #![trigger post.boards@[j], post.boards@[k]]
                0 <= j < k < post.boards@.len() implies !(post.boards@[j].owner@
                == post.boards@[k].owner@ && post.boards@[j].round_id
                == post.boards@[k].round_id) by {
                if k == post.boards@.len() - 1 {
                    assert(post.boards@[j] == pre.boards@[j]);
                    assert(!board_key_at(pre.boards@, j, caller@, round_id));
                } else {
                    assert(post.boards@[j] == pre.boards@[j]);
                    assert(post.boards@[k] == pre.boards@[k]);
                }
            }
            // Every listed player still holds a board.
            assert forall|i2: int, a: int|
                #![trigger post.rounds@[i2].players@[a]]
                0 <= i2 < post.rounds@.len() && 0 <= a < post.rounds@[i2].players@.len() implies has_board_in(
                post.boards@,
                post.rounds@[i2].players@[a]@,
                (i2 + 1) as u32,
            ) by {
                if i2 == i && a == post.rounds@[i2].players@.len() - 1 {
                    assert(board_key_at(post.boards@, post.boards@.len() - 1, caller@, round_id));
                } else {
                    assert(post.rounds@[i2].players@[a] == pre.rounds@[i2].players@[a]);
                    let j = choose|j: int|
                        0 <= j < pre.boards@.len() && #[trigger] board_key_at(
                            pre.boards@,
                            j,
                            pre.rounds@[i2].players@[a]@,
                            (i2 + 1) as u32,
                        );
                    assert(board_key_at(post.boards@, j, post.rounds@[i2].players@[a]@, (i2 + 1) as u32));
                }
            }
        }
        Ok(())
    }

    /// A board is created exactly once per `(caller, round)` pair: when a
    /// join for `(caller, round_id)` has succeeded, a second join call with
    /// the same caller, round and arguments always fails with a duplicate
    /// error, and leaves the registry exactly as the first call left it.
    pub proof fn lemma_join_twice_fails(
        pre: Registry,
        mid: Registry,
        post: Registry,
        round_id: u32,
        caller: Vec<u8>,
        caller2: Vec<u8>,
        paid_amount: u128,
        now: u64,
        height: u64,
        height2: u64,
        r2: Result<(), BingoError>,
    )
        requires
            caller2@ == caller@,
            Registry::join_post(pre, mid, round_id, caller, paid_amount, now, height, Ok(())),
            Registry::join_post(mid, post, round_id, caller2, paid_amount, now, height2, r2),
        ensures
            r2 == Err::<(), BingoError>(BingoError::DuplicateJoin),
            post == mid,
    {
        assert(board_key_at(mid.boards@, mid.boards@.len() - 1, caller@, round_id));
        assert(mid.has_board(caller2@, round_id));
        assert(mid.join_err(round_id, caller2@, paid_amount, now) == Some(
            BingoError::DuplicateJoin,
        ));
    }

    /// The error `draw_number` detects, if any: the round must exist and
    /// not be finished; an open round may only start drawing once its join
    /// deadline has passed; and in a running round the turn interval must
    /// have elapsed since the previous draw.
    pub open spec fn draw_err(self, round_id: u32, now: u64) -> Option<BingoError> {
        if !self.has_round(round_id) {
            Some(BingoError::NotFound)
        } else if self.round(round_id).state is Finished {
            Some(BingoError::State)
        } else if self.round(round_id).state is Open && now < self.round(round_id).join_deadline {
            Some(BingoError::State)
        } else if self.round(round_id).state is InProgress && (now as int) < self.round(
            round_id,
        ).last_draw_time + self.round(round_id).turn_interval {
            Some(BingoError::Timing)
        } else {
            None
        }
    }

    /// What a successful draw changes: the derived value joins the drawn
    /// set (which only ever grows, and keeps at most one copy of each
    /// value), the draw clock advances to the call's timestamp, an open
    /// round moves to in-progress, and everything else is untouched.
    pub open spec fn draw_effect(
        pre: Registry,
        post: Registry,
        round_id: u32,
        now: u64,
        height: u64,
        value: u8,
    ) -> bool {
        let i = round_id - 1;
        let g = pre.rounds@[i];
        let g2 = post.rounds@[i];
        &&& value == draw_value_spec(height, now)
        &&& post.denom == pre.denom
        &&& post.boards@ == pre.boards@
        &&& post.rounds@.len() == pre.rounds@.len()
        &&& forall|k: int|
            0 <= k < pre.rounds@.len() && k != i ==> post.rounds@[k] == pre.rounds@[k]
        &&& g2.id == g.id
        &&& g2.players == g.players
        &&& g2.pot == g.pot
        &&& g2.entry_fee == g.entry_fee
        &&& g2.state is InProgress
        &&& g2.join_deadline == g.join_deadline
        &&& g2.turn_interval == g.turn_interval
        &&& g2.last_draw_time == now
        &&& g2.drawn_numbers@ == if g.drawn_numbers@.contains(value) {
            g.drawn_numbers@
        } else {
            g.drawn_numbers@.push(value)
        }
        &&& g2.winner == g.winner
    }

    /// What a completed `draw_number` call guarantees.
    pub open spec fn draw_post(
        pre: Registry,
        post: Registry,
        round_id: u32,
        now: u64,
        height: u64,
        r: Result<u8, BingoError>,
    ) -> bool {
        match r {
            Err(e) => pre.draw_err(round_id, now) == Some(e) && post == pre,
            Ok(value) => pre.draw_err(round_id, now) is None && Registry::draw_effect(
                pre,
                post,
                round_id,
                now,
                height,
                value,
            ),
        }
    }

    /// Draws the next number for a round once the turn interval has
    /// elapsed.
    ///
    /// The drawn value is derived deterministically from the block height
    /// and timestamp at which the call was ordered, so it is unpredictable
    /// before the call is committed yet reproducible afterwards. A call
    /// that fails — in particular one made before
    /// `last_draw_time + turn_interval` — changes nothing: neither the
    /// drawn numbers nor the draw clock.
    pub fn draw_number(&mut self, round_id: u32, now: u64, height: u64) -> (r: Result<
        u8,
        BingoError,
    >)
        requires
            old(self).wf(),
        ensures
            final(self).wf(),
            Registry::draw_post(*old(self), *final(self), round_id, now, height, r),
    {
        if round_id < 1 || (round_id as usize) > self.rounds.len() {
            return Err(BingoError::NotFound);
        }
        let idx: usize = (round_id as usize) - 1;
        match self.rounds[idx].state {
            RoundState::Finished => {
                return Err(BingoError::State);
            },
            RoundState::Open => {
                if now < self.rounds[idx].join_deadline {
                    return Err(BingoError::State);
                }
            },
            RoundState::InProgress => {
                let last = self.rounds[idx].last_draw_time;
                if now < last || now - last < self.rounds[idx].turn_interval {
                    return Err(BingoError::Timing);
                }
            },
        }
        let value = derive_draw(height, now);
        let already = crate::patterns::contains_value(&self.rounds[idx].drawn_numbers, value);
        let g = &mut self.rounds[idx];
        g.state = RoundState::InProgress;
        g.last_draw_time = now;
        if !already {
            g.drawn_numbers.push(value);
        }
        proof {
            let pre = *old(self);
            let post = *self;
            let i = round_id - 1;
            // The drawn values stay pairwise distinct.
            assert forall|a: int, b: int|
                #![trigger post.rounds@[i].drawn_numbers@[a], post.rounds@[i].drawn_numbers@[b]]
                0 <= a < b < post.rounds@[i].drawn_numbers@.len() implies post.rounds@[
                i
            ].drawn_numbers@[a] != post.rounds@[i].drawn_numbers@[b] by {
                if !pre.rounds@[i].drawn_numbers@.contains(value) && b == post.rounds@[
                    i
                ].drawn_numbers@.len() - 1 {
                    assert(post.rounds@[i].drawn_numbers@[a] == pre.rounds@[i].drawn_numbers@[a]);
                    assert(pre.rounds@[i].drawn_numbers@.contains(pre.rounds@[i].drawn_numbers@[a]));
                }
            }
            // Every listed player still holds a board.
            assert forall|i2: int, a: int|
                #![trigger post.rounds@[i2].players@[a]]
                0 <= i2 < post.rounds@.len() && 0 <= a < post.rounds@[i2].players@.len() implies has_board_in(
                post.boards@,
                post.rounds@[i2].players@[a]@,
                (i2 + 1) as u32,
            ) by {
                assert(post.rounds@[i2].players == pre.rounds@[i2].players);
            }
        }
        Ok(value)
    }

    /// The error `bingo` detects, if any: the round must exist, the caller
    /// must have joined it, the round must not already be finished, and at
    /// least one cataloged win pattern must be fully covered on the
    /// caller's stored board by the drawn numbers.
    pub open spec fn bingo_err(self, round_id: u32, caller: Seq<u8>) -> Option<BingoError> {
        if !self.has_round(round_id) {
            Some(BingoError::NotFound)
        } else if !self.has_board(caller, round_id) {
            Some(BingoError::NotFound)
        } else if self.round(round_id).state is Finished {
            Some(BingoError::State)
        } else if !win_exists(
            self.stored_board(caller, round_id).cells@,
            self.round(round_id).drawn_numbers@,
        ) {
            Some(BingoError::NoWin)
        } else {
            None
        }
    }

    /// What a declared win changes: the round moves irreversibly to
    /// finished with the caller recorded as winner, and the payout engine
    /// is handed a request over the full pot; everything else is untouched.
    pub open spec fn bingo_effect(
        pre: Registry,
        post: Registry,
        round_id: u32,
        caller: Seq<u8>,
        req: PayoutRequest,
    ) -> bool {
        let i = round_id - 1;
        let g = pre.rounds@[i];
        let g2 = post.rounds@[i];
        &&& post.denom == pre.denom
        &&& post.boards@ == pre.boards@
        &&& post.rounds@.len() == pre.rounds@.len()
        &&& forall|k: int|
            0 <= k < pre.rounds@.len() && k != i ==> post.rounds@[k] == pre.rounds@[k]
        &&& g2.id == g.id
        &&& g2.players == g.players
        &&& g2.pot == g.pot
        &&& g2.entry_fee == g.entry_fee
        &&& g2.state is Finished
        &&& g2.join_deadline == g.join_deadline
        &&& g2.turn_interval == g.turn_interval
        &&& g2.last_draw_time == g.last_draw_time
        &&& g2.drawn_numbers == g.drawn_numbers
        &&& g2.winner matches Some(w) && w@ == caller
        &&& req.round_id == round_id
        &&& req.winner@ == caller
        &&& req.amount == g.pot
        &&& req.denom == pre.denom
    }

    /// What a completed `bingo` call guarantees.
    pub open spec fn bingo_post(
        pre: Registry,
        post: Registry,
        round_id: u32,
        caller: Seq<u8>,
        r: Result<PayoutRequest, BingoError>,
    ) -> bool {
        match r {
            Err(e) => pre.bingo_err(round_id, caller) == Some(e) && post == pre,
            Ok(req) => pre.bingo_err(round_id, caller) is None && Registry::bingo_effect(
                pre,
                post,
                round_id,
                caller,
                req,
            ),
        }
    }

    /// Declares a win for the caller.
    ///
    /// The fixed pattern catalog is evaluated in its stable order against
    /// the caller's stored board and the drawn numbers. The call succeeds
    /// if and only if some pattern's addressed cell values are all among
    /// the drawn numbers; it then finishes the round — the irreversible
    /// terminal transition, after which no further joins or draws are
    /// accepted — and returns the disbursement request over the full pot.
    /// Otherwise it fails and leaves the round unchanged.
    pub fn bingo(&mut self, round_id: u32, caller: &Vec<u8>) -> (r: Result<
        PayoutRequest,
        BingoError,
    >)
        requires
            old(self).wf(),
        ensures
            final(self).wf(),
            Registry::bingo_post(*old(self), *final(self), round_id, caller@, r),
    {
        if round_id < 1 || (round_id as usize) > self.rounds.len() {
            return Err(BingoError::NotFound);
        }
        let idx: usize = (round_id as usize) - 1;
        let j = match self.find_board(caller, round_id) {
            None => {
                return Err(BingoError::NotFound);
            },
            Some(j) => j,
        };
        proof {
            self.lemma_board_key_unique(
                j as int,
                self.board_index_of(caller@, round_id),
                caller@,
                round_id,
            );
        }
        if self.rounds[idx].state == RoundState::Finished {
            return Err(BingoError::State);
        }
        let win = check_win(&self.boards[j].cells, &self.rounds[idx].drawn_numbers);
        if win.is_none() {
            return Err(BingoError::NoWin);
        }
        let winner = clone_bytes(caller);
        let denom = self.denom.clone();
        let amount = self.rounds[idx].pot;
        let stored_winner = clone_bytes(caller);
        let g = &mut self.rounds[idx];
        g.state = RoundState::Finished;
        g.winner = Some(stored_winner);
        proof {
            let pre = *old(self);
            let post = *self;
            assert forall|i2: int, a: int|
                #![trigger post.rounds@[i2].players@[a]]
                0 <= i2 < post.rounds@.len() && 0 <= a < post.rounds@[i2].players@.len() implies has_board_in(
                post.boards@,
                post.rounds@[i2].players@[a]@,
                (i2 + 1) as u32,
            ) by {
                assert(post.rounds@[i2].players == pre.rounds@[i2].players);
            }
        }
        Ok(PayoutRequest { round_id, winner, amount, denom })
    }

    /// The error `withdraw_winnings` detects, if any: the round must exist
    /// and be finished, and the caller must be its recorded winner.
    pub open spec fn withdraw_err(self, round_id: u32, caller: Seq<u8>) -> Option<BingoError> {
        if !self.has_round(round_id) {
            Some(BingoError::NotFound)
        } else if !(self.round(round_id).state is Finished) {
            Some(BingoError::State)
        } else if !(self.round(round_id).winner matches Some(w) && w@ == caller) {
            Some(BingoError::Validation)
        } else {
            None
        }
    }

    /// What a successful `withdraw_winnings` call returns: the request to
    /// pay the finished round's full pot to its verified winner.
    pub open spec fn withdraw_ok(
        self,
        round_id: u32,
        caller: Seq<u8>,
        req: PayoutRequest,
    ) -> bool {
        &&& self.withdraw_err(round_id, caller) is None
        &&& req.round_id == round_id
        &&& req.winner@ == caller
        &&& req.amount == self.round(round_id).pot
        &&& req.denom == self.denom
    }

    /// Requests disbursement of a finished round's pot to its verified
    /// winner, again. The round remains finished regardless of how the
    /// external transfer fares, so the request can be re-issued; the
    /// registry itself is never mutated here.
    pub fn withdraw_winnings(&self, round_id: u32, caller: &Vec<u8>) -> (r: Result<
        PayoutRequest,
        BingoError,
    >)
        requires
            self.wf(),
        ensures
            match r {
                Err(e) => self.withdraw_err(round_id, caller@) == Some(e),
                Ok(req) => self.withdraw_ok(round_id, caller@, req),
            },
    {
        if round_id < 1 || (round_id as usize) > self.rounds.len() {
            return Err(BingoError::NotFound);
        }
        let idx: usize = (round_id as usize) - 1;
        if self.rounds[idx].state != RoundState::Finished {
            return Err(BingoError::State);
        }
        match &self.rounds[idx].winner {
            None => Err(BingoError::Validation),
            Some(w) => {
                if !bytes_eq(w, caller) {
                    Err(BingoError::Validation)
                } else {
                    let winner = clone_bytes(caller);
                    let denom = self.denom.clone();
                    Ok(
                        PayoutRequest {
                            round_id,
                            winner,
                            amount: self.rounds[idx].pot,
                            denom,
                        },
                    )
                }
            },
        }
    }

    /// Looks up the caller's board for a round; the 24 cells are returned
    /// exactly as they were derived and stored at join time. Fails with a
    /// not-found error when the caller holds no board for this round.
    pub fn get_board(&self, round_id: u32, caller: &Vec<u8>) -> (r: Result<&Vec<u8>, BingoError>)
        requires
            self.wf(),
        ensures
            r is Ok <==> self.has_board(caller@, round_id),
            match r {
                Ok(cells) => cells@ == self.stored_board(caller@, round_id).cells@
                    && cells@.len() == 24,
                Err(e) => e == BingoError::NotFound,
            },
    {
        match self.find_board(caller, round_id) {
            Some(j) => {
                proof {
                    self.lemma_board_key_unique(
                        j as int,
                        self.board_index_of(caller@, round_id),
                        caller@,
                        round_id,
                    );
                }
                Ok(&self.boards[j].cells)
            },
            None => Err(BingoError::NotFound),
        }
    }
}

} // verus!
