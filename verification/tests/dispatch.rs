use bingo::errors::BingoError;
use bingo::msg::{execute, query, ExecuteMsg, ExecuteReply, QueryMsg};
use bingo::registry::Registry;

#[test]
fn execute_dispatches_every_command() {
    let mut reg = Registry::instantiate("ucoin".to_string());
    let addr1 = b"addr1".to_vec();

    let created = execute(
        &mut reg,
        addr1.clone(),
        0,
        0,
        1,
        ExecuteMsg::CreateGame { entry_fee: 100, join_deadline: 1000, turn_interval: 1000 },
    );
    assert!(matches!(created, Ok(ExecuteReply::RoundCreated { round_id: 1 })));

    let joined = execute(&mut reg, addr1.clone(), 100, 500, 7, ExecuteMsg::JoinGame { game_id: 1 });
    assert!(matches!(joined, Ok(ExecuteReply::Joined { round_id: 1 })));
    assert_eq!(reg.rounds[0].pot, 100);

    let drawn = execute(&mut reg, addr1.clone(), 0, 1200, 11, ExecuteMsg::DrawNumber { game_id: 1 });
    match drawn {
        Ok(ExecuteReply::NumberDrawn { round_id, value }) => {
            assert_eq!(round_id, 1);
            assert_eq!(value, bingo::draw::derive_draw(11, 1200));
        },
        _ => panic!("expected a drawn number"),
    }

    let claimed = execute(&mut reg, addr1.clone(), 0, 1300, 12, ExecuteMsg::Bingo { game_id: 1 });
    assert!(matches!(claimed, Err(BingoError::NoWin)));

    let withdrawn =
        execute(&mut reg, addr1, 0, 1400, 13, ExecuteMsg::WithdrawWinnings { game_id: 1 });
    assert!(matches!(withdrawn, Err(BingoError::State)));
}

#[test]
fn execute_leaves_state_unchanged_on_error() {
    let mut reg = Registry::instantiate("ucoin".to_string());
    let addr1 = b"addr1".to_vec();
    let refused = execute(
        &mut reg,
        addr1,
        0,
        2000,
        1,
        ExecuteMsg::CreateGame { entry_fee: 100, join_deadline: 1000, turn_interval: 1000 },
    );
    assert!(matches!(refused, Err(BingoError::Validation)));
    assert_eq!(reg.rounds.len(), 0);
}

#[test]
fn query_returns_the_settlement_denom() {
    let reg = Registry::instantiate("ucoin".to_string());
    assert_eq!(query(&reg, QueryMsg::GetDenom {}), "ucoin");
    assert_eq!(reg.query_settlement_denom().as_str(), "ucoin");
}
