use bingo::errors::BingoError;
use bingo::game::RoundState;
use bingo::registry::Registry;

fn fresh_registry() -> Registry {
    Registry::instantiate("ucoin".to_string())
}

#[test]
fn create_round_assigns_sequential_ids() {
    let mut reg = fresh_registry();
    assert_eq!(reg.create_round(100, 1000, 1000, 0), Ok(1));
    assert_eq!(reg.create_round(5, 2000, 10, 0), Ok(2));
    assert_eq!(reg.rounds.len(), 2);
    assert_eq!(reg.rounds[0].id, 1);
    assert_eq!(reg.rounds[1].id, 2);
    assert_eq!(reg.rounds[0].state, RoundState::Open);
    assert_eq!(reg.rounds[0].pot, 0);
    assert_eq!(reg.rounds[0].last_draw_time, 1000);
    assert!(reg.rounds[0].players.is_empty());
    assert!(reg.rounds[0].drawn_numbers.is_empty());
}

#[test]
fn create_round_rejects_bad_parameters() {
    let mut reg = fresh_registry();
    assert_eq!(reg.create_round(0, 1000, 1000, 0), Err(BingoError::Validation));
    assert_eq!(reg.create_round(100, 1000, 1000, 1000), Err(BingoError::Validation));
    assert_eq!(reg.create_round(100, 1000, 1000, 2000), Err(BingoError::Validation));
    assert_eq!(reg.rounds.len(), 0);
}

#[test]
fn join_collects_fee_and_registers_player() {
    let mut reg = fresh_registry();
    assert_eq!(reg.create_round(100, 1000, 1000, 0), Ok(1));
    let addr1 = b"addr1".to_vec();
    assert_eq!(reg.join_round(1, addr1.clone(), 100, 500, 7), Ok(()));
    assert_eq!(reg.rounds[0].pot, 100);
    assert_eq!(reg.rounds[0].players, vec![addr1.clone()]);
    // A second player's fee accumulates.
    let addr2 = b"addr2".to_vec();
    assert_eq!(reg.join_round(1, addr2.clone(), 100, 600, 8), Ok(()));
    assert_eq!(reg.rounds[0].pot, 200);
    assert_eq!(reg.rounds[0].players, vec![addr1, addr2]);
}

#[test]
fn join_twice_is_a_duplicate() {
    let mut reg = fresh_registry();
    assert_eq!(reg.create_round(100, 1000, 1000, 0), Ok(1));
    let addr1 = b"addr1".to_vec();
    assert_eq!(reg.join_round(1, addr1.clone(), 100, 500, 7), Ok(()));
    let players_before = reg.rounds[0].players.clone();
    assert_eq!(reg.join_round(1, addr1, 100, 500, 9), Err(BingoError::DuplicateJoin));
    assert_eq!(reg.rounds[0].pot, 100);
    assert_eq!(reg.rounds[0].players, players_before);
    assert_eq!(reg.boards.len(), 1);
}

#[test]
fn join_with_wrong_fee_is_rejected() {
    let mut reg = fresh_registry();
    assert_eq!(reg.create_round(100, 1000, 1000, 0), Ok(1));
    let addr2 = b"addr2".to_vec();
    assert_eq!(reg.join_round(1, addr2, 50, 500, 7), Err(BingoError::Validation));
    assert_eq!(reg.rounds[0].pot, 0);
    assert!(reg.rounds[0].players.is_empty());
}

#[test]
fn join_unknown_round_is_not_found() {
    let mut reg = fresh_registry();
    assert_eq!(reg.create_round(100, 1000, 1000, 0), Ok(1));
    let addr1 = b"addr1".to_vec();
    assert_eq!(reg.join_round(2, addr1.clone(), 100, 500, 7), Err(BingoError::NotFound));
    assert_eq!(reg.join_round(0, addr1, 100, 500, 7), Err(BingoError::NotFound));
}

#[test]
fn join_after_deadline_is_rejected() {
    let mut reg = fresh_registry();
    assert_eq!(reg.create_round(100, 1000, 1000, 0), Ok(1));
    let addr1 = b"addr1".to_vec();
    assert_eq!(reg.join_round(1, addr1, 100, 1000, 7), Err(BingoError::State));
    assert_eq!(reg.rounds[0].pot, 0);
}

#[test]
fn join_stores_the_derived_board() {
    let mut reg = fresh_registry();
    assert_eq!(reg.create_round(100, 1000, 1000, 0), Ok(1));
    let addr1 = b"addr1".to_vec();
    assert_eq!(reg.join_round(1, addr1.clone(), 100, 500, 7), Ok(()));
    let stored = reg.get_board(1, &addr1).expect("board must exist");
    let rederived = bingo::board::derive_board(&addr1, 1, 7);
    assert_eq!(stored, &rederived);
    assert_eq!(stored.len(), 24);
}

#[test]
fn get_board_without_join_is_not_found() {
    let mut reg = fresh_registry();
    assert_eq!(reg.create_round(100, 1000, 1000, 0), Ok(1));
    let addr1 = b"addr1".to_vec();
    assert_eq!(reg.get_board(1, &addr1), Err(BingoError::NotFound));
}

#[test]
fn draw_before_deadline_is_rejected() {
    let mut reg = fresh_registry();
    assert_eq!(reg.create_round(100, 1000, 1000, 0), Ok(1));
    assert_eq!(reg.draw_number(1, 900, 11), Err(BingoError::State));
    assert!(reg.rounds[0].drawn_numbers.is_empty());
    assert_eq!(reg.rounds[0].state, RoundState::Open);
}

#[test]
fn draw_starts_round_and_respects_turn_interval() {
    let mut reg = fresh_registry();
    assert_eq!(reg.create_round(100, 1000, 1000, 0), Ok(1));
    // After the deadline has passed, the first draw succeeds.
    let first = reg.draw_number(1, 1200, 11).expect("first draw succeeds");
    assert_eq!(reg.rounds[0].state, RoundState::InProgress);
    assert_eq!(reg.rounds[0].last_draw_time, 1200);
    assert_eq!(reg.rounds[0].drawn_numbers, vec![first]);
    // A second immediate draw, before the turn interval elapses, fails
    // and changes neither the drawn numbers nor the draw clock.
    assert_eq!(reg.draw_number(1, 1500, 12), Err(BingoError::Timing));
    assert_eq!(reg.rounds[0].drawn_numbers, vec![first]);
    assert_eq!(reg.rounds[0].last_draw_time, 1200);
    // Once the interval has elapsed, drawing works again.
    assert!(reg.draw_number(1, 2200, 13).is_ok());
    assert_eq!(reg.rounds[0].last_draw_time, 2200);
}

#[test]
fn draw_value_is_reproducible() {
    let mut reg = fresh_registry();
    assert_eq!(reg.create_round(100, 1000, 1000, 0), Ok(1));
    let drawn = reg.draw_number(1, 1200, 11).expect("draw succeeds");
    assert_eq!(drawn, bingo::draw::derive_draw(11, 1200));
}

#[test]
fn draw_unknown_round_is_not_found() {
    let mut reg = fresh_registry();
    assert_eq!(reg.draw_number(1, 1200, 11), Err(BingoError::NotFound));
}
