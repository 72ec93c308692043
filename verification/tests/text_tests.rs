use survival_bot::models::{OrderFill, OrderResponse};
use survival_bot::money::UNIT;
use survival_bot::signing::{account_query, buy_order_query, sell_order_query, sign_query};
use survival_bot::stats::{consecutive_losses, sentiment_index, usdc_balance, win_rate_bps};
use survival_bot::models::{AccountInfo, AssetBalance};
use survival_bot::text::{format_fixed, format_u64, parse_amount, parse_integer};

#[test]
fn parse_plain_integer_amount() {
    assert_eq!(parse_amount(b"42000"), Some(42_000 * UNIT));
}

#[test]
fn parse_fractional_amount() {
    assert_eq!(parse_amount(b"42000.5"), Some(4_200_050_000_000));
    assert_eq!(parse_amount(b"0.00012345"), Some(12_345));
    assert_eq!(parse_amount(b"0.00100000"), Some(100_000));
}

#[test]
fn parse_rejects_other_shapes() {
    assert_eq!(parse_amount(b""), None);
    assert_eq!(parse_amount(b"-5.0"), None);
    assert_eq!(parse_amount(b"1e5"), None);
    assert_eq!(parse_amount(b".5"), None);
    assert_eq!(parse_amount(b"5."), None);
    assert_eq!(parse_amount(b"1.000000001"), None);
    assert_eq!(parse_amount(b"12.3.4"), None);
    // one past the largest representable tick count
    assert_eq!(parse_amount(b"184467440737.09551616"), None);
    assert_eq!(parse_amount(b"184467440737.09551615"), Some(u64::MAX));
}

#[test]
fn parse_integer_text() {
    assert_eq!(parse_integer(b"73"), Some(73));
    assert_eq!(parse_integer(b"-3"), None);
    assert_eq!(parse_integer(b""), None);
}

#[test]
fn format_ticks_as_decimal() {
    assert_eq!(format_fixed(950_000_000, 2), "9.50");
    assert_eq!(format_fixed(4_200_050_000_000, 6), "42000.500000");
    assert_eq!(format_fixed(0, 2), "0.00");
    assert_eq!(format_u64(600), "600");
}

#[test]
fn order_report_summarized_exactly() {
    let order = OrderResponse {
        symbol: String::from("BTCUSDC"),
        order_id: 7,
        status: String::from("FILLED"),
        side: String::from("BUY"),
        order_type: String::from("MARKET"),
        executed_qty: String::from("2.00000000"),
        cummulative_quote_qty: String::from("100.00000000"),
        fills: vec![
            OrderFill {
                price: String::from("50.0"),
                qty: String::from("1.0"),
                commission: String::from("0.10000000"),
                commission_asset: String::from("USDC"),
            },
            OrderFill {
                price: String::from("50.0"),
                qty: String::from("1.0"),
                commission: String::from("0.05000000"),
                commission_asset: String::from("USDC"),
            },
        ],
    };
    let t = order.to_executed_trade();
    assert_eq!(t.quantity, 2 * UNIT);
    assert_eq!(t.usdc_amount, 100 * UNIT);
    // 100 quote units over a quantity of 2 averages to 50 a unit
    assert_eq!(t.avg_price, 50 * UNIT);
    assert_eq!(t.commission, 15_000_000);
    assert_eq!(t.symbol, "BTCUSDC");
}

#[test]
fn order_report_with_unparseable_quantity_reads_zero() {
    let order = OrderResponse {
        symbol: String::from("BTCUSDC"),
        order_id: 8,
        status: String::from("FILLED"),
        side: String::from("BUY"),
        order_type: String::from("MARKET"),
        executed_qty: String::from("abc"),
        cummulative_quote_qty: String::from("100.0"),
        fills: vec![],
    };
    let t = order.to_executed_trade();
    assert_eq!(t.quantity, 0);
    assert_eq!(t.avg_price, 0);
}

#[test]
fn signing_matches_known_hmac_vector() {
    // RFC 4231 test case 2 for HMAC-SHA-256
    let sig = sign_query("Jefe", "what do ya want for nothing?");
    assert_eq!(
        sig,
        "5bdcc146bf60754e6a042426089575c75a003f089d2739839dec58b964ec3843"
    );
}

#[test]
fn order_queries_are_exact() {
    assert_eq!(account_query(1700000000000), "timestamp=1700000000000");
    assert_eq!(
        buy_order_query("BTCUSDC", 950_000_000, 42),
        "symbol=BTCUSDC&side=BUY&type=MARKET&quoteOrderQty=9.50&timestamp=42"
    );
    assert_eq!(
        sell_order_query("BTCUSDC", 12_345, 42),
        "symbol=BTCUSDC&side=SELL&type=MARKET&quantity=0.00012345&timestamp=42"
    );
}

#[test]
fn loss_streak_counts_prefix() {
    let results = vec![
        Some(String::from("LOSS")),
        Some(String::from("LOSS")),
        Some(String::from("WIN")),
        Some(String::from("LOSS")),
    ];
    assert_eq!(consecutive_losses(&results), 2);
    let none_first: Vec<Option<String>> = vec![None, Some(String::from("LOSS"))];
    assert_eq!(consecutive_losses(&none_first), 0);
}

#[test]
fn win_rate_in_basis_points() {
    assert_eq!(win_rate_bps(0, 0), 0);
    assert_eq!(win_rate_bps(1, 3), 3333);
    assert_eq!(win_rate_bps(3, 3), 10_000);
}

#[test]
fn usdc_balance_found_and_parsed() {
    let account = AccountInfo {
        balances: vec![
            AssetBalance {
                asset: String::from("BTC"),
                free: String::from("1.0"),
                locked: String::from("0.0"),
            },
            AssetBalance {
                asset: String::from("USDC"),
                free: String::from("123.45"),
                locked: String::from("0.0"),
            },
        ],
    };
    assert_eq!(usdc_balance(&account), 12_345_000_000);
    let empty = AccountInfo { balances: vec![] };
    assert_eq!(usdc_balance(&empty), 0);
}

#[test]
fn sentiment_defaults_to_neutral() {
    assert_eq!(sentiment_index(Some(String::from("73"))), 73);
    assert_eq!(sentiment_index(Some(String::from("150"))), 50);
    assert_eq!(sentiment_index(Some(String::from("abc"))), 50);
    assert_eq!(sentiment_index(None), 50);
}
