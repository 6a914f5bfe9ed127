use monitor_server::rows::{
    asset_roles, asset_rows, checked_open_order_rows, checked_position_rows, confirmed_incomes, contract_usdt_pair,
    in_portfolio_equity, order_type_label, position_rows, recent_income_entries, usdt_pair, AssetRecord, IncomeRecord,
    AssetRoles, OpenOrderRecord, PositionRecord,
};

fn position(symbol: &str, amt: &str, nonzero: bool, time: i64) -> PositionRecord {
    PositionRecord {
        symbol: symbol.to_string(),
        position_amt: amt.to_string(),
        amount_nonzero: nonzero,
        update_time: time,
        position_side: "BOTH".to_string(),
        entry_price: "100.0".to_string(),
        leverage: "20".to_string(),
        initial_margin: "5.1".to_string(),
        unrealized_profit: "-0.2".to_string(),
    }
}

fn order(time: i64, kind: &str) -> OpenOrderRecord {
    OpenOrderRecord {
        time,
        symbol: "BTCUSDT".to_string(),
        order_type: kind.to_string(),
        side: "BUY".to_string(),
        price: "1".to_string(),
        orig_qty: "2".to_string(),
        executed_qty: "0".to_string(),
        reduce_only: true,
    }
}

#[test]
fn positions_report_skips_flat_positions() {
    let recs = vec![
        position("BTCUSDT", "0.010", true, 947638923004),
        position("ETHUSDT", "0.000", false, 0),
        position("BNBUSDT", "-1", true, 0),
    ];
    let rows = position_rows(&recs, 77);
    assert_eq!(rows.len(), 2);
    assert_eq!(rows[0].symbol, "BTCUSDT");
    assert_eq!(rows[0].time, "2000-01-12 01:02:03");
    assert_eq!(rows[0].mark_price, "5.1");
    assert_eq!(rows[0].id, "77");
    assert_eq!(rows[1].symbol, "BNBUSDT");
    assert_eq!(rows[1].time, "1970-01-01 00:00:00");
    assert_eq!(rows[1].position_amt, "-1");
}

#[test]
fn positions_report_needs_representable_times() {
    let bad = vec![position("BTCUSDT", "1", true, i64::MAX)];
    assert!(checked_position_rows(&bad, 1).is_none());
    let skipped = vec![position("BTCUSDT", "0", false, i64::MAX)];
    assert_eq!(checked_position_rows(&skipped, 1).unwrap().len(), 0);
}

#[test]
fn order_labels() {
    assert_eq!(order_type_label("LIMIT"), "限价单");
    assert_eq!(order_type_label("MARKET"), "市价单");
    assert_eq!(order_type_label("STOP"), "止损限价单");
    assert_eq!(order_type_label("STOP_MARKET"), "止盈市价单");
    assert_eq!(order_type_label("TAKE_PROFIT"), "止盈限价单");
    assert_eq!(order_type_label("TAKE_PROFIT_MARKET"), "止盈市价单");
    assert_eq!(order_type_label("TRAILING_STOP_MARKET"), "跟踪止损单");
    assert_eq!(order_type_label("LIQUIDATION"), "");
}

#[test]
fn open_orders_report() {
    let recs = vec![order(0, "LIMIT"), order(86_400_000, "OTHER")];
    let rows = checked_open_order_rows("trader1", &recs).unwrap();
    assert_eq!(rows.len(), 2);
    assert_eq!(rows[0].name, "trader1");
    assert_eq!(rows[0].type_label, "限价单");
    assert_eq!(rows[1].time, "1970-01-02 00:00:00");
    assert_eq!(rows[1].type_label, "");
    assert!(rows[1].reduce_only);
    assert!(checked_open_order_rows("t", &vec![order(i64::MIN, "LIMIT")]).is_none());
}

#[test]
fn assets_report() {
    let recs = vec![
        AssetRecord {
            asset: "USDT".to_string(),
            wallet_balance: "10".to_string(),
            balance_nonzero: true,
            unrealized_profit: "1".to_string(),
            margin_balance: "11".to_string(),
            available_balance: "9".to_string(),
        },
        AssetRecord {
            asset: "BNB".to_string(),
            wallet_balance: "0".to_string(),
            balance_nonzero: false,
            unrealized_profit: "0".to_string(),
            margin_balance: "0".to_string(),
            available_balance: "0".to_string(),
        },
    ];
    let rows = asset_rows(&recs, 5);
    assert_eq!(rows.len(), 1);
    assert_eq!(rows[0].symbol, "USDT");
    assert_eq!(rows[0].margin_balance, "11");
    assert_eq!(rows[0].id, "5");
}

#[test]
fn confirmed_transfers_only() {
    let recs = vec![
        IncomeRecord { status: "CONFIRMED".to_string(), timestamp: 100, amount: "1.5".to_string(), asset: "USDT".to_string() },
        IncomeRecord { status: "PENDING".to_string(), timestamp: 200, amount: "9".to_string(), asset: "USDT".to_string() },
        IncomeRecord { status: "CONFIRMED".to_string(), timestamp: 300, amount: "2".to_string(), asset: "BTC".to_string() },
    ];
    let e = confirmed_incomes(&recs, 200);
    assert_eq!(e.len(), 2);
    assert_eq!((e[0].time, e[0].within_day), (100, false));
    assert_eq!((e[1].time, e[1].within_day, e[1].asset.as_str()), (300, true, "BTC"));
    assert_eq!(recent_income_entries(&recs).len(), 2);
}

#[test]
fn usdt_pairs() {
    assert_eq!(usdt_pair("ETH"), "ETHUSDT");
    assert_eq!(contract_usdt_pair("BTCUSDT"), "BTCUSDT");
    assert_eq!(contract_usdt_pair("ETHBUSD"), "ETHUSDT");
    assert_eq!(contract_usdt_pair("USDC"), "USDT");
}

#[test]
fn stablecoins_count_at_face_value() {
    let usdt = asset_roles("USDT");
    assert_eq!(usdt, AssetRoles { priced: true, at_face_value: true, in_equity: true });
    let usdp = asset_roles("USDP");
    assert_eq!(usdp, AssetRoles { priced: true, at_face_value: false, in_equity: true });
    assert!(asset_roles("BUSD").at_face_value);
}

#[test]
fn bnb_and_eth_stay_out_of_equity() {
    assert_eq!(asset_roles("BNB"), AssetRoles { priced: true, at_face_value: false, in_equity: false });
    assert!(!asset_roles("ETH").in_equity);
    assert!(asset_roles("BTC").in_equity);
    assert!(asset_roles("BTC").priced);
}

#[test]
fn portfolio_equity_leaves_out_btc() {
    assert!(!in_portfolio_equity("BTC"));
    assert!(in_portfolio_equity("ETH"));
    assert!(in_portfolio_equity("BTCUSDT"));
}
