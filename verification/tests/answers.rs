use monitor_server::answers::{
    assets_report, decode_assets, decode_positions, open_orders_report, positions_report, recent_transfers_report,
    transfers_report,
};
use monitor_server::entries::found_items;

const ORDERS: &str = r#"[
  {"time": 0, "symbol": "BTCUSDT", "type": "LIMIT", "side": "BUY", "price": "100", "origQty": "2",
   "executedQty": "1", "reduceOnly": false},
  {"time": 86400000, "symbol": "ETHUSDT", "type": "STOP", "side": "SELL", "price": "5", "origQty": "3",
   "executedQty": "0", "reduceOnly": true}
]"#;

const ACCOUNT: &str = r#"{
  "assets": [
    {"asset": "USDT", "walletBalance": "10.5", "unrealizedProfit": "1", "marginBalance": "11.5", "availableBalance": "9"},
    {"asset": "BNB", "walletBalance": "0.000", "unrealizedProfit": "0", "marginBalance": "0", "availableBalance": "0"}
  ],
  "positions": [
    {"symbol": "BTCUSDT", "positionAmt": "0.000", "updateTime": 0, "positionSide": "BOTH", "entryPrice": "0",
     "leverage": "20", "initialMargin": "0", "unrealizedProfit": "0"},
    {"symbol": "ETHUSDT", "positionAmt": "-1.5", "updateTime": 1000, "positionSide": "SHORT", "entryPrice": "2000",
     "leverage": "10", "initialMargin": "300", "unrealizedProfit": "-4"}
  ]
}"#;

#[test]
fn open_orders_from_answer_text() {
    let rows = open_orders_report("acct", ORDERS).unwrap();
    assert_eq!(rows.len(), 2);
    assert_eq!(rows[0].time, "1970-01-01 00:00:00");
    assert_eq!(rows[0].name, "acct");
    assert_eq!(rows[0].type_label, "限价单");
    assert_eq!((rows[0].price.as_str(), rows[0].orig_qty.as_str(), rows[0].executed_qty.as_str()), ("100", "2", "1"));
    assert_eq!(rows[1].time, "1970-01-02 00:00:00");
    assert_eq!(rows[1].type_label, "止损限价单");
    assert!(rows[1].reduce_only);
}

#[test]
fn malformed_open_orders_give_none() {
    assert!(open_orders_report("acct", "not json").is_none());
    assert!(open_orders_report("acct", r#"{"a": 1}"#).is_none());
    assert!(open_orders_report("acct", r#"[{"time": 1, "symbol": "X"}]"#).is_none());
    assert_eq!(open_orders_report("acct", "[]").unwrap().len(), 0);
}

#[test]
fn positions_from_answer_text() {
    let entries = decode_positions(ACCOUNT).unwrap();
    assert_eq!(entries.len(), 2);
    assert_eq!(entries[1].position_amt, "-1.5");
    let rows = positions_report(ACCOUNT, &vec![false, true], 7).unwrap();
    assert_eq!(rows.len(), 1);
    assert_eq!(rows[0].symbol, "ETHUSDT");
    assert_eq!(rows[0].time, "1970-01-01 00:00:01");
    assert_eq!(rows[0].mark_price, "300");
    assert_eq!(rows[0].id, "7");
    assert!(positions_report(ACCOUNT, &vec![true], 7).is_none());
    assert!(positions_report("[]", &vec![], 7).is_none());
}

#[test]
fn assets_from_answer_text() {
    let entries = decode_assets(ACCOUNT).unwrap();
    assert_eq!(entries.len(), 2);
    assert_eq!(entries[1].asset.as_deref(), Some("BNB"));
    let rows = assets_report(ACCOUNT, &vec![true, false], 3).unwrap();
    assert_eq!(rows.len(), 1);
    assert_eq!((rows[0].symbol.as_str(), rows[0].wallet_balance.as_str()), ("USDT", "10.5"));
    assert_eq!(rows[0].available_balance, "9");
    assert_eq!(rows[0].id, "3");
    assert!(assets_report(ACCOUNT, &vec![], 3).is_none());
    assert!(decode_assets(r#"{"assets": [{"asset": "X"}]}"#).is_none());
}

#[test]
fn found_lookups_keep_their_order() {
    assert_eq!(found_items(vec![Some(1), None, Some(3), None]), vec![1, 3]);
    assert_eq!(found_items::<u8>(vec![None, None]), Vec::<u8>::new());
}

#[test]
fn transfers_from_answer_text() {
    let text = r#"{"total": 3, "rows": [
        {"status": "CONFIRMED", "timestamp": 100, "amount": "1.5", "asset": "USDT"},
        {"status": "PENDING"},
        {"status": "CONFIRMED", "timestamp": 300, "amount": "2", "asset": "BTC"}
    ]}"#;
    let e = transfers_report(text, 200).unwrap();
    assert_eq!(e.len(), 2);
    assert_eq!((e[0].time, e[0].amount.as_str(), e[0].within_day), (100, "1.5", false));
    assert_eq!((e[1].time, e[1].asset.as_str(), e[1].within_day), (300, "BTC", true));
    assert_eq!(recent_transfers_report(text).unwrap().len(), 2);
    assert_eq!(transfers_report(r#"{"total": 0}"#, 0).unwrap().len(), 0);
    assert!(transfers_report(r#"{"total": 1}"#, 0).is_none());
    assert!(transfers_report(r#"{"total": 1, "rows": [{"status": "CONFIRMED"}]}"#, 0).is_none());
    assert!(transfers_report("nope", 0).is_none());
}

#[test]
fn unheld_items_need_only_their_amount() {
    let text = r#"{"positions": [
        {"positionAmt": "0"},
        {"symbol": "ETHUSDT", "positionAmt": "2", "updateTime": 0, "positionSide": "LONG", "entryPrice": "1",
         "leverage": "5", "initialMargin": "3", "unrealizedProfit": "0"}
    ], "assets": [
        {"walletBalance": "0"},
        {"asset": "USDT", "walletBalance": "4", "unrealizedProfit": "0", "marginBalance": "4", "availableBalance": "4"}
    ]}"#;
    let rows = positions_report(text, &vec![false, true], 1).unwrap();
    assert_eq!(rows.len(), 1);
    assert_eq!(rows[0].symbol, "ETHUSDT");
    assert!(positions_report(text, &vec![true, true], 1).is_none());
    let assets = assets_report(text, &vec![false, true], 1).unwrap();
    assert_eq!(assets.len(), 1);
    assert_eq!(assets[0].symbol, "USDT");
    assert!(assets_report(text, &vec![true, true], 1).is_none());
    assert!(decode_positions(r#"{"positions": [{"symbol": "X"}]}"#).is_none());
}
