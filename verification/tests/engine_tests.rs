use survival_bot::engine::{Command, CycleConfig, CycleEvent, CycleMachine};
use survival_bot::markets::{filter_usdc_tickers, sort_by_volume_desc};
use survival_bot::models::{LogAction, Position, PositionStatus, Ticker24h, TradingAction};
use survival_bot::money::UNIT;
use survival_bot::prompt::build_prompt;

fn config() -> CycleConfig {
    CycleConfig {
        min_balance_usdc: 5 * UNIT,
        openclaw_user_id: String::from("424242"),
    }
}

fn ticker(symbol: &str, volume: &str) -> Ticker24h {
    Ticker24h {
        symbol: symbol.to_string(),
        price_change: String::from("1.0"),
        price_change_percent: String::from("2.5"),
        last_price: String::from("100.0"),
        high_price: String::from("110.0"),
        low_price: String::from("95.0"),
        volume: String::from("10.0"),
        quote_volume: volume.to_string(),
    }
}

#[test]
fn dead_lifecycle_is_a_noop_cycle() {
    let m = CycleMachine::new(config());
    let (m, cmds) = m.advance(CycleEvent::LifecycleRead { is_dead: true });
    assert!(cmds.is_empty());
    assert!(m.is_done());
    // and it stays inert whatever else arrives
    let (m, cmds) = m.advance(CycleEvent::BalanceFetched { result: Ok(100 * UNIT) });
    assert!(cmds.is_empty());
    assert!(m.is_done());
}

#[test]
fn zero_balance_kills_without_oracle_call() {
    let m = CycleMachine::new(config());
    let (m, cmds) = m.advance(CycleEvent::LifecycleRead { is_dead: false });
    assert_eq!(cmds.len(), 1);
    assert!(matches!(cmds[0], Command::FetchBalance));
    let (m, cmds) = m.advance(CycleEvent::BalanceFetched { result: Ok(0) });
    assert!(m.is_done());
    assert_eq!(cmds.len(), 2);
    match &cmds[0] {
        Command::KillBot { reason } => assert_eq!(reason, "Balance reached zero"),
        other => panic!("expected a kill command, got {:?}", std::mem::discriminant(other)),
    }
    match &cmds[1] {
        Command::LogCycle { entry } => {
            assert_eq!(entry.action, LogAction::Error);
            assert_eq!(
                entry.error.as_deref(),
                Some("Balance reached zero — bot terminated")
            );
        }
        _ => panic!("expected an error cycle record"),
    }
    for c in &cmds {
        assert!(!matches!(c, Command::AskOracle { .. }));
        assert!(!matches!(c, Command::MarketBuy { .. }));
        assert!(!matches!(c, Command::MarketSell { .. }));
    }
}

#[test]
fn below_reserve_holds_with_snapshot() {
    let m = CycleMachine::new(config());
    let (m, _) = m.advance(CycleEvent::LifecycleRead { is_dead: false });
    let (m, cmds) = m.advance(CycleEvent::BalanceFetched { result: Ok(4 * UNIT) });
    assert_eq!(cmds.len(), 2);
    match &cmds[0] {
        Command::LogCycle { entry } => {
            assert_eq!(entry.action, LogAction::Hold);
            assert_eq!(entry.reasoning.as_deref(), Some("Below minimum reserve"));
        }
        _ => panic!("expected a hold record"),
    }
    assert!(matches!(cmds[1], Command::FetchSnapshotData));
    let (m, cmds) = m.advance(CycleEvent::StatsRead {
        balance: None,
        open_count: 0,
        total_pnl: 0,
        cycle_count: 3,
    });
    assert!(m.is_done());
    assert_eq!(cmds.len(), 1);
    match &cmds[0] {
        Command::RecordSnapshot { snapshot } => {
            assert_eq!(snapshot.balance_usdc, 4 * UNIT);
        }
        _ => panic!("expected a snapshot"),
    }
}

#[test]
fn full_buy_cycle_emits_expected_commands() {
    let m = CycleMachine::new(config());
    let (m, _) = m.advance(CycleEvent::LifecycleRead { is_dead: false });
    let (m, cmds) = m.advance(CycleEvent::BalanceFetched { result: Ok(100 * UNIT) });
    assert!(matches!(cmds[0], Command::ReadOpenPositions));
    let (m, cmds) = m.advance(CycleEvent::PositionsRead { positions: vec![] });
    assert!(matches!(cmds[0], Command::FetchPrices { .. }));
    let (m, cmds) = m.advance(CycleEvent::PricesFetched { prices: vec![] });
    assert!(matches!(cmds.last(), Some(Command::GatherContext)));
    let (m, cmds) = m.advance(CycleEvent::ContextRead {
        open_positions: vec![],
        tickers: vec![ticker("BTCUSDC", "900.0"), ticker("ETHUSDC", "500.0")],
        sentiment_text: Some(String::from("55")),
        recent_results: vec![],
    });
    assert_eq!(cmds.len(), 1);
    let prompt = match &cmds[0] {
        Command::AskOracle { prompt } => prompt.clone(),
        _ => panic!("expected the oracle request"),
    };
    assert!(prompt.contains("<@424242>"));
    assert!(prompt.contains("Available USDC Balance:** $100.00"));
    assert!(prompt.contains("Fear & Greed Index:** 55/100"));
    assert!(!prompt.contains("ULTRA-CONSERVATIVE"));

    let reply = r#"{"action":"BUY","symbol":"BTCUSDC","confidence":95,"reasoning":"up","stop_loss":98.0,"take_profit":120.0}"#;
    let (m, cmds) = m.advance(CycleEvent::OracleReplied {
        reply: Ok(Some(reply.to_string())),
        elapsed_ms: 1200,
    });
    assert_eq!(cmds.len(), 1);
    match &cmds[0] {
        Command::MarketBuy { symbol, quote_amount } => {
            assert_eq!(symbol, "BTCUSDC");
            // 10% of the 95 tradeable units
            assert_eq!(*quote_amount, 950_000_000);
        }
        _ => panic!("expected the buy order"),
    }

    let fill = survival_bot::models::ExecutedTrade {
        symbol: String::from("BTCUSDC"),
        side: String::from("BUY"),
        quantity: 950_000,
        avg_price: 100 * UNIT,
        usdc_amount: 950_000_000,
        commission: 1_000,
    };
    let (m, cmds) = m.advance(CycleEvent::BuyExecuted {
        fill: Ok(fill),
        elapsed_ms: 1500,
    });
    assert_eq!(cmds.len(), 3);
    match &cmds[0] {
        Command::OpenPosition { position, trade } => {
            assert_eq!(position.symbol, "BTCUSDC");
            assert_eq!(position.quantity, 950_000);
            assert_eq!(position.entry_price, 100 * UNIT);
            // the proposed stop of 98.0 sits above the 5% floor of 95.0
            assert_eq!(position.stop_loss, Some(98 * UNIT));
            assert_eq!(position.take_profit, Some(120 * UNIT));
            assert!(trade.position_id.is_none());
            assert_eq!(trade.side, TradingAction::Buy);
        }
        _ => panic!("expected the position opening"),
    }
    match &cmds[1] {
        Command::LogCycle { entry } => {
            assert_eq!(entry.action, LogAction::Buy);
            assert_eq!(entry.confidence, Some(95));
            assert_eq!(entry.execution_ms, 1500);
            assert_eq!(entry.fear_greed, Some(55));
        }
        _ => panic!("expected the cycle record"),
    }
    assert!(matches!(cmds[2], Command::FetchSnapshotData));

    let (m, cmds) = m.advance(CycleEvent::StatsRead {
        balance: Some(99 * UNIT),
        open_count: 1,
        total_pnl: 0,
        cycle_count: 8,
    });
    assert!(m.is_done());
    assert_eq!(cmds.len(), 2);
    match &cmds[1] {
        Command::Broadcast { update } => {
            assert_eq!(update.cycle_number, 8);
            assert_eq!(update.balance_usdc, 99 * UNIT);
            assert_eq!(update.action, TradingAction::Buy);
        }
        _ => panic!("expected the broadcast"),
    }
}

#[test]
fn buy_without_stop_defaults_to_five_percent() {
    let m = CycleMachine::new(config());
    let (m, _) = m.advance(CycleEvent::LifecycleRead { is_dead: false });
    let (m, _) = m.advance(CycleEvent::BalanceFetched { result: Ok(100 * UNIT) });
    let (m, _) = m.advance(CycleEvent::PositionsRead { positions: vec![] });
    let (m, _) = m.advance(CycleEvent::PricesFetched { prices: vec![] });
    let (m, _) = m.advance(CycleEvent::ContextRead {
        open_positions: vec![],
        tickers: vec![],
        sentiment_text: None,
        recent_results: vec![],
    });
    let reply = r#"{"action":"BUY","symbol":"BTCUSDC","confidence":95,"reasoning":"up"}"#;
    let (m, _) = m.advance(CycleEvent::OracleReplied {
        reply: Ok(Some(reply.to_string())),
        elapsed_ms: 100,
    });
    let fill = survival_bot::models::ExecutedTrade {
        symbol: String::from("BTCUSDC"),
        side: String::from("BUY"),
        quantity: UNIT,
        avg_price: 100 * UNIT,
        usdc_amount: 100 * UNIT,
        commission: 0,
    };
    let (_m, cmds) = m.advance(CycleEvent::BuyExecuted {
        fill: Ok(fill),
        elapsed_ms: 200,
    });
    match &cmds[0] {
        Command::OpenPosition { position, .. } => {
            assert_eq!(position.stop_loss, Some(95 * UNIT));
            assert_eq!(position.take_profit, None);
        }
        _ => panic!("expected the position opening"),
    }
}

#[test]
fn sell_classifies_win_and_loss() {
    let position = Position {
        id: String::from("p-9"),
        symbol: String::from("BTCUSDC"),
        side: TradingAction::Buy,
        quantity: 2 * UNIT,
        entry_price: 100 * UNIT,
        current_price: None,
        stop_loss: None,
        take_profit: None,
        status: PositionStatus::Open,
        pnl: None,
    };
    let m = CycleMachine::new(config());
    let (m, _) = m.advance(CycleEvent::LifecycleRead { is_dead: false });
    let (m, _) = m.advance(CycleEvent::BalanceFetched { result: Ok(100 * UNIT) });
    let (m, _) = m.advance(CycleEvent::PositionsRead { positions: vec![] });
    let (m, _) = m.advance(CycleEvent::PricesFetched { prices: vec![] });
    let (m, _) = m.advance(CycleEvent::ContextRead {
        open_positions: vec![position],
        tickers: vec![],
        sentiment_text: None,
        recent_results: vec![],
    });
    let reply = r#"{"action":"SELL","symbol":"BTCUSDC","confidence":80,"reasoning":"exit"}"#;
    let (m, cmds) = m.advance(CycleEvent::OracleReplied {
        reply: Ok(Some(reply.to_string())),
        elapsed_ms: 900,
    });
    match &cmds[0] {
        Command::MarketSell { symbol, quantity } => {
            assert_eq!(symbol, "BTCUSDC");
            assert_eq!(*quantity, 2 * UNIT);
        }
        _ => panic!("expected the sell order"),
    }
    let fill = survival_bot::models::ExecutedTrade {
        symbol: String::from("BTCUSDC"),
        side: String::from("SELL"),
        quantity: 2 * UNIT,
        avg_price: 90 * UNIT,
        usdc_amount: 180 * UNIT,
        commission: 0,
    };
    let (_m, cmds) = m.advance(CycleEvent::SellExecuted {
        fill: Ok(fill),
        elapsed_ms: 1000,
    });
    assert_eq!(cmds.len(), 4);
    match &cmds[0] {
        Command::ClosePosition { position_id, pnl, .. } => {
            assert_eq!(position_id, "p-9");
            // ten units lost on a quantity of two
            assert_eq!(*pnl, -(20 * UNIT as i128));
        }
        _ => panic!("expected the close"),
    }
    match &cmds[2] {
        Command::LogCycle { entry } => {
            assert_eq!(entry.result, Some(survival_bot::models::CycleResult::Loss));
        }
        _ => panic!("expected the cycle record"),
    }
}

#[test]
fn oracle_timeout_holds() {
    let m = CycleMachine::new(config());
    let (m, _) = m.advance(CycleEvent::LifecycleRead { is_dead: false });
    let (m, _) = m.advance(CycleEvent::BalanceFetched { result: Ok(100 * UNIT) });
    let (m, _) = m.advance(CycleEvent::PositionsRead { positions: vec![] });
    let (m, _) = m.advance(CycleEvent::PricesFetched { prices: vec![] });
    let (m, _) = m.advance(CycleEvent::ContextRead {
        open_positions: vec![],
        tickers: vec![],
        sentiment_text: None,
        recent_results: vec![],
    });
    let (_m, cmds) = m.advance(CycleEvent::OracleReplied { reply: Ok(None), elapsed_ms: 60_000 });
    assert_eq!(cmds.len(), 2);
    match &cmds[0] {
        Command::LogCycle { entry } => {
            assert_eq!(entry.action, LogAction::Hold);
            assert_eq!(entry.reasoning.as_deref(), Some("OpenClaw timeout"));
        }
        _ => panic!("expected the hold record"),
    }
}

#[test]
fn risk_pass_sells_triggered_positions() {
    let pos = Position {
        id: String::from("p-3"),
        symbol: String::from("ETHUSDC"),
        side: TradingAction::Buy,
        quantity: UNIT,
        entry_price: 100 * UNIT,
        current_price: None,
        stop_loss: Some(95 * UNIT),
        take_profit: None,
        status: PositionStatus::Open,
        pnl: None,
    };
    let m = CycleMachine::new(config());
    let (m, _) = m.advance(CycleEvent::LifecycleRead { is_dead: false });
    let (m, _) = m.advance(CycleEvent::BalanceFetched { result: Ok(100 * UNIT) });
    let (m, cmds) = m.advance(CycleEvent::PositionsRead { positions: vec![pos] });
    match &cmds[0] {
        Command::FetchPrices { symbols } => assert_eq!(symbols, &vec![String::from("ETHUSDC")]),
        _ => panic!("expected the price fetch"),
    }
    let (m, cmds) = m.advance(CycleEvent::PricesFetched { prices: vec![Some(94 * UNIT)] });
    assert_eq!(cmds.len(), 2);
    assert!(matches!(&cmds[0], Command::UpdatePositionPrice { .. }));
    match &cmds[1] {
        Command::MarketSell { symbol, quantity } => {
            assert_eq!(symbol, "ETHUSDC");
            assert_eq!(*quantity, UNIT);
        }
        _ => panic!("expected the risk sell"),
    }
    let fill = survival_bot::models::ExecutedTrade {
        symbol: String::from("ETHUSDC"),
        side: String::from("SELL"),
        quantity: UNIT,
        avg_price: 94 * UNIT,
        usdc_amount: 94 * UNIT,
        commission: 0,
    };
    let (_m, cmds) = m.advance(CycleEvent::SellsExecuted { fills: vec![Some(fill)] });
    assert_eq!(cmds.len(), 3);
    match &cmds[0] {
        Command::ClosePosition { pnl, cause, .. } => {
            assert_eq!(*pnl, -(6 * UNIT as i128));
            assert_eq!(*cause, survival_bot::models::CloseReason::StopLoss);
        }
        _ => panic!("expected the close"),
    }
    assert!(matches!(cmds[1], Command::RecordTrade { .. }));
    assert!(matches!(cmds[2], Command::GatherContext));
}

#[test]
fn markets_sorted_and_filtered() {
    let tickers = vec![
        ticker("ETHUSDC", "500.0"),
        ticker("BTCUSDT", "9000.0"),
        ticker("BTCUSDC", "900.0"),
    ];
    let usdc = filter_usdc_tickers(&tickers);
    assert_eq!(usdc.len(), 2);
    let sorted = sort_by_volume_desc(&usdc);
    assert_eq!(sorted[0].symbol, "BTCUSDC");
    assert_eq!(sorted[1].symbol, "ETHUSDC");
}

#[test]
fn sort_keeps_reported_order_on_ties() {
    let tickers = vec![
        ticker("AUSDC", "500.0"),
        ticker("BUSDC", "900.0"),
        ticker("CUSDC", "500.0"),
        ticker("DUSDC", "900.0"),
    ];
    let sorted = sort_by_volume_desc(&tickers);
    let symbols: Vec<&str> = sorted.iter().map(|t| t.symbol.as_str()).collect();
    assert_eq!(symbols, vec!["BUSDC", "DUSDC", "AUSDC", "CUSDC"]);
    // deterministic: a second run gives the same order
    let again = sort_by_volume_desc(&tickers);
    let symbols2: Vec<&str> = again.iter().map(|t| t.symbol.as_str()).collect();
    assert_eq!(symbols, symbols2);
}

#[test]
fn prompt_escalates_after_three_losses() {
    let calm = build_prompt(100 * UNIT, &vec![], &vec![], 50, 2, "424242");
    assert!(!calm.contains("ULTRA-CONSERVATIVE"));
    let tense = build_prompt(100 * UNIT, &vec![], &vec![], 50, 3, "424242");
    assert!(tense.contains("ULTRA-CONSERVATIVE MODE: 3+ consecutive losses"));
    assert!(tense.contains("Consecutive Losses:** 3"));
}

#[test]
fn prompt_shows_position_pnl() {
    let pos = Position {
        id: String::from("p-5"),
        symbol: String::from("BTCUSDC"),
        side: TradingAction::Buy,
        quantity: UNIT,
        entry_price: 100 * UNIT,
        current_price: Some(110 * UNIT),
        stop_loss: Some(95 * UNIT),
        take_profit: None,
        status: PositionStatus::Open,
        pnl: None,
    };
    let p = build_prompt(100 * UNIT, &vec![pos], &vec![], 50, 0, "424242");
    assert!(p.contains("BTCUSDC | Entry: $100.000000 | Current: $110.000000 | P&L: 10.00%"));
    assert!(p.contains("SL: $95.000000 | TP: N/A"));
}

#[test]
fn position_lookup_finds_first_match() {
    let mut a = Position {
        id: String::from("p-a"),
        symbol: String::from("BTCUSDC"),
        side: TradingAction::Buy,
        quantity: UNIT,
        entry_price: UNIT,
        current_price: None,
        stop_loss: None,
        take_profit: None,
        status: PositionStatus::Open,
        pnl: None,
    };
    let mut b = a.clone();
    b.id = String::from("p-b");
    b.symbol = String::from("ETHUSDC");
    let ps = vec![a, b];
    let hit = survival_bot::engine::position_for(&ps, &String::from("ETHUSDC"));
    assert_eq!(hit.map(|p| p.id), Some(String::from("p-b")));
    let miss = survival_bot::engine::position_for(&ps, &String::from("SOLUSDC"));
    assert!(miss.is_none());
}
