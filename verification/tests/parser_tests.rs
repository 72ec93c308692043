use survival_bot::models::TradingAction;
use survival_bot::parser::parse_decision;

#[test]
fn test_parse_json_block() {
    let response = r#"
Here's my analysis:
```json
{
  "action": "BUY",
  "symbol": "BTCUSDC",
  "confidence": 85,
  "reasoning": "Strong uptrend",
  "stop_loss": 42000.0,
  "take_profit": 48000.0
}
```
        "#;

    let decision = parse_decision(response);
    assert_eq!(decision.action, TradingAction::Buy);
    assert_eq!(decision.symbol.as_deref(), Some("BTCUSDC"));
    assert_eq!(decision.confidence, 85);
}

#[test]
fn test_parse_raw_json() {
    let response = r#"{"action":"HOLD","confidence":50,"reasoning":"Market uncertain"}"#;
    let decision = parse_decision(response);
    assert_eq!(decision.action, TradingAction::Hold);
}

#[test]
fn test_parse_invalid_defaults_to_hold() {
    let decision = parse_decision("I think you should buy Bitcoin!");
    assert_eq!(decision.action, TradingAction::Hold);
}

#[test]
fn test_buy_without_symbol_defaults_to_hold() {
    let response = r#"{"action":"BUY","confidence":90,"reasoning":"Go all in"}"#;
    let decision = parse_decision(response);
    assert_eq!(decision.action, TradingAction::Hold);
}

#[test]
fn parse_prices_scaled_to_ticks() {
    let response = r#"{"action":"BUY","symbol":"ETHUSDC","confidence":92,"reasoning":"breakout","stop_loss":2850.5,"take_profit":3100.0}"#;
    let decision = parse_decision(response);
    assert_eq!(decision.action, TradingAction::Buy);
    assert_eq!(decision.stop_loss, Some(285_050_000_000));
    assert_eq!(decision.take_profit, Some(310_000_000_000));
}

#[test]
fn parse_unlabeled_fence() {
    let response = "```\n{\"action\":\"SELL\",\"symbol\":\"SOLUSDC\",\"confidence\":71,\"reasoning\":\"weak\"}\n```";
    let decision = parse_decision(response);
    assert_eq!(decision.action, TradingAction::Sell);
    assert_eq!(decision.symbol.as_deref(), Some("SOLUSDC"));
    assert_eq!(decision.confidence, 71);
}

#[test]
fn parse_confidence_off_scale_defaults_to_hold() {
    let response = r#"{"action":"BUY","symbol":"BTCUSDC","confidence":150,"reasoning":"moon"}"#;
    let decision = parse_decision(response);
    assert_eq!(decision.action, TradingAction::Hold);
    assert_eq!(decision.confidence, 0);
    assert!(decision.symbol.is_none());
}

#[test]
fn parse_default_reasoning_text() {
    let decision = parse_decision("");
    assert_eq!(decision.action, TradingAction::Hold);
    assert_eq!(
        decision.reasoning,
        "Failed to parse OpenClaw response — defaulting to HOLD"
    );
}

#[test]
fn parse_object_embedded_in_prose() {
    let response = "thinking... {\"action\":\"HOLD\",\"confidence\":10,\"reasoning\":\"chop\"} done";
    let decision = parse_decision(response);
    assert_eq!(decision.action, TradingAction::Hold);
    assert_eq!(decision.confidence, 10);
    assert_eq!(decision.reasoning, "chop");
}
