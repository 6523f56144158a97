use vstd::prelude::*;
use crate::board::board_cells_spec;

verus! {

/// The lifecycle state of a round. Transitions only ever run forward,
/// `Open -> InProgress -> Finished`, never backward.
#[derive(Clone, Copy, Debug, PartialEq, Eq, Structural)]
pub enum RoundState {
    /// Accepting joins; no draw has happened yet.
    Open,
    /// Drawing has begun; no further joins are accepted.
    InProgress,
    /// A win was declared; no further joins or draws are accepted.
    Finished,
}

/// One round of the game.
pub struct Game {
    /// Unique, monotonically assigned identifier: the round's position in
    /// the registry plus one.
    pub id: u32,
    /// Participant identity bytes, in join order, each appearing at most
    /// once.
    pub players: Vec<Vec<u8>>,
    /// Accumulated total of the entry fees collected from `players`.
    pub pot: u128,
    /// The fixed amount each joining player must pay.
    pub entry_fee: u128,
    /// The round's lifecycle state.
    pub state: RoundState,
    /// Timestamp after which joining closes and draws may begin.
    pub join_deadline: u64,
    /// Minimum duration required between consecutive draws.
    pub turn_interval: u64,
    /// Timestamp of the most recent draw, initialized to `join_deadline`.
    pub last_draw_time: u64,
    /// The values drawn so far, in draw order, each appearing at most once.
    pub drawn_numbers: Vec<u8>,
    /// The verified winner, set exactly when the round finishes.
    pub winner: Option<Vec<u8>>,
}

impl Game {
    /// Internal well-formedness of one round: the pot equals the entry fees
    /// collected from the players, each player appears at most once, drawn
    /// values never repeat, the draw clock never precedes the join deadline,
    /// an open round has drawn nothing, and a winner exists exactly for a
    /// finished round.
    pub open spec fn wf(self) -> bool {
        &&& self.entry_fee >= 1
        &&& self.pot as int == self.players@.len() * (self.entry_fee as int)
        &&& self.last_draw_time >= self.join_deadline
        &&& forall|a: int, b: int|
            #![trigger self.players@[a], self.players@[b]]
            0 <= a < b < self.players@.len() ==> self.players@[a]@ != self.players@[b]@
        &&& forall|a: int, b: int|
            #![trigger self.drawn_numbers@[a], self.drawn_numbers@[b]]
            0 <= a < b < self.drawn_numbers@.len()
                ==> self.drawn_numbers@[a] != self.drawn_numbers@[b]
        &&& self.state is Open
            ==> self.drawn_numbers@.len() == 0 && self.last_draw_time == self.join_deadline
        &&& self.winner is Some <==> self.state is Finished
    }
}

/// A player's board for one round, derived once at join time and never
/// mutated afterward.
pub struct PlayerBoard {
    /// The owning player's stable identity bytes.
    pub owner: Vec<u8>,
    /// The round this board belongs to; `(owner, round_id)` is unique.
    pub round_id: u32,
    /// The block height at which the join was processed: the tamper-evident
    /// marker from which the cells were derived.
    pub marker: u64,
    /// The 24 derived cell values.
    pub cells: Vec<u8>,
}

impl PlayerBoard {
    /// A board is well-formed when its cells are exactly the pure derivation
    /// from its stable inputs, so re-deriving them later reproduces the
    /// stored values.
    pub open spec fn wf(self) -> bool {
        &&& self.cells@.len() == 24
        &&& self.cells@ == board_cells_spec(self.owner@, self.round_id, self.marker)
    }
}

/// Whether the board at position `j` belongs to `(owner, round_id)`.
pub open spec fn board_key_at(boards: Seq<PlayerBoard>, j: int, owner: Seq<u8>, round_id: u32) -> bool {
    &&& boards[j].owner@ == owner
    &&& boards[j].round_id == round_id
}

/// Whether some board in `boards` belongs to `(owner, round_id)`.
pub open spec fn has_board_in(boards: Seq<PlayerBoard>, owner: Seq<u8>, round_id: u32) -> bool {
    exists|j: int| 0 <= j < boards.len() && #[trigger] board_key_at(boards, j, owner, round_id)
}

} // verus!
