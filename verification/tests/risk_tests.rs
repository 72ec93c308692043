use survival_bot::models::{CloseReason, Position, PositionStatus, TradingAction};
use survival_bot::money::UNIT;
use survival_bot::risk::RiskManager;

fn open_position(symbol: &str, stop_loss: Option<u64>, take_profit: Option<u64>) -> Position {
    Position {
        id: String::from("p-1"),
        symbol: symbol.to_string(),
        side: TradingAction::Buy,
        quantity: 2 * UNIT,
        entry_price: 100 * UNIT,
        current_price: None,
        stop_loss,
        take_profit,
        status: PositionStatus::Open,
        pnl: None,
    }
}

#[test]
fn stop_loss_triggers_inclusively() {
    let pos = open_position("BTCUSDC", Some(95 * UNIT), None);
    let r = RiskManager::evaluate_position(&pos, 95 * UNIT);
    assert_eq!(r, Some(CloseReason::StopLoss));
}

#[test]
fn take_profit_triggers_inclusively() {
    let pos = open_position("BTCUSDC", Some(95 * UNIT), Some(110 * UNIT));
    let r = RiskManager::evaluate_position(&pos, 110 * UNIT);
    assert_eq!(r, Some(CloseReason::TakeProfit));
}

#[test]
fn stop_loss_wins_when_both_trigger() {
    // contradictory config: the stop sits above the take-profit
    let pos = open_position("BTCUSDC", Some(110 * UNIT), Some(90 * UNIT));
    let r = RiskManager::evaluate_position(&pos, 100 * UNIT);
    assert_eq!(r, Some(CloseReason::StopLoss));
}

#[test]
fn no_trigger_between_bounds() {
    let pos = open_position("BTCUSDC", Some(95 * UNIT), Some(110 * UNIT));
    assert_eq!(RiskManager::evaluate_position(&pos, 100 * UNIT), None);
}

#[test]
fn stop_loss_clamped_to_five_percent() {
    let enforced = RiskManager::validate_stop_loss(100 * UNIT, 90 * UNIT);
    assert_eq!(enforced, 95 * UNIT);
    assert!(enforced * 100 >= 100 * UNIT * 95);
}

#[test]
fn stop_loss_kept_when_tight_enough() {
    let enforced = RiskManager::validate_stop_loss(100 * UNIT, 97 * UNIT);
    assert_eq!(enforced, 97 * UNIT);
}

#[test]
fn can_open_under_limit_only() {
    assert!(RiskManager::can_open_position(0));
    assert!(RiskManager::can_open_position(1));
    assert!(!RiskManager::can_open_position(2));
    assert!(!RiskManager::can_open_position(3));
}

#[test]
fn check_positions_skips_failed_fetches() {
    let p1 = open_position("BTCUSDC", Some(95 * UNIT), None);
    let mut p2 = open_position("ETHUSDC", Some(95 * UNIT), None);
    p2.id = String::from("p-2");
    let positions = vec![p1, p2];
    let prices = vec![None, Some(90 * UNIT)];
    let (to_close, updates) = RiskManager::check_positions(&positions, &prices);
    assert_eq!(to_close.len(), 1);
    assert_eq!(to_close[0].0.symbol, "ETHUSDC");
    assert_eq!(to_close[0].1, CloseReason::StopLoss);
    assert_eq!(updates.len(), 1);
    assert_eq!(updates[0].0, "p-2");
    assert_eq!(updates[0].1, 90 * UNIT);
}

#[test]
fn check_positions_ignores_zero_price() {
    let p1 = open_position("BTCUSDC", Some(95 * UNIT), None);
    let positions = vec![p1];
    let prices = vec![Some(0)];
    let (to_close, updates) = RiskManager::check_positions(&positions, &prices);
    assert!(to_close.is_empty());
    assert!(updates.is_empty());
}
