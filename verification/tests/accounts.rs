use monitor_server::binance::BinanceFuturesApi;
use monitor_server::models::{Account, Product, Trader};
use monitor_server::session::sign_in_response;
use monitor_server::traders::{
    new_trader_record, one_trader_index, sign_in_products, trader_position_key,
    trader_positions_index, traders_by_name,
};
use monitor_server::venue::{get_venue_api, VenueApi};

fn trader(id: u64, name: &str, balance: &str) -> Trader {
    Trader {
        tra_id: id,
        tra_venue: "Binance".to_string(),
        ori_balance: balance.to_string(),
        tra_currency: "USDT".to_string(),
        api_key: "k".to_string(),
        secret_key: "s".to_string(),
        other_keys: String::new(),
        kind: "Futures".to_string(),
        name: name.to_string(),
        show: "1".to_string(),
        threshold: "0".to_string(),
    }
}

#[test]
fn last_row_of_a_name_wins() {
    let rows = vec![trader(1, "a", "100"), trader(2, "b", "200"), trader(3, "a", "300")];
    let index = traders_by_name(rows);
    assert_eq!(index.get("a").unwrap().tra_id, 3);
    assert_eq!(index.get("b").unwrap().ori_balance, "200");
    assert!(index.get("c").is_none());
    let mut entries = index.into_entries();
    entries.sort_by(|x, y| x.0.cmp(&y.0));
    let names: Vec<&str> = entries.iter().map(|(k, _)| k.as_str()).collect();
    assert_eq!(names, vec!["a", "b"]);
}

#[test]
fn empty_rows_give_empty_index() {
    assert!(traders_by_name(Vec::new()).into_entries().is_empty());
}

#[test]
fn single_trader_indexes() {
    let idx = one_trader_index(Some(trader(9, "x", "1")));
    assert_eq!(idx.get("x").unwrap().tra_id, 9);
    assert!(one_trader_index(None).into_entries().is_empty());
    let idx = trader_positions_index(Some(trader(9, "x", "1")));
    assert!(idx.get("x").is_none());
    assert_eq!(idx.get("x_9").unwrap().tra_id, 9);
    assert!(trader_positions_index(None).into_entries().is_empty());
}

#[test]
fn position_key_joins_name_and_id() {
    assert_eq!(trader_position_key(&trader(0, "t", "1")), "t_0");
    assert_eq!(trader_position_key(&trader(18446744073709551615, "abc", "1")), "abc_18446744073709551615");
}

#[test]
fn products_for_sign_in() {
    let products = vec![
        Product { prod_id: 12, prod_name: "alpha".to_string(), weixin_id: 0, prog_id: 0 },
        Product { prod_id: 3, prod_name: "beta".to_string(), weixin_id: 0, prog_id: 0 },
    ];
    let r = sign_in_products(&products);
    assert_eq!(r.len(), 2);
    assert_eq!((r[0].name.as_str(), r[0].id.as_str()), ("alpha", "12"));
    assert_eq!((r[1].name.as_str(), r[1].id.as_str()), ("beta", "3"));
}

#[test]
fn sign_in_answer() {
    let acc = Account { acc_id: 4, acc_name: "me".to_string(), acc_password: "pw".to_string(), admin: "true".to_string() };
    let res = sign_in_response(&acc, Vec::new(), "TOKEN".to_string());
    assert_eq!(res.name, "me");
    assert_eq!(res.account, 4);
    assert_eq!(res.admin, "true");
    assert_eq!(res.token, "TOKEN");
    assert!(res.products.is_empty());
}

#[test]
fn new_account_defaults() {
    let t = new_trader_record("n", "k", "s", "1", "0.5");
    assert_eq!(t.tra_venue, "Binance");
    assert_eq!(t.ori_balance, "500");
    assert_eq!(t.tra_currency, "USDT");
    assert_eq!(t.other_keys, "");
    assert_eq!(t.kind, "Futures");
    assert_eq!((t.name.as_str(), t.api_key.as_str(), t.secret_key.as_str(), t.alarm.as_str(), t.threshold.as_str()), ("n", "k", "s", "1", "0.5"));
}

#[test]
fn venue_client_from_settings() {
    let venues = vec![("binance".to_string(), VenueApi::BinanceFuturesApi)];
    let params = vec![
        ("api_secret".to_string(), "S".to_string()),
        ("base_url".to_string(), "https://b".to_string()),
        ("api_key".to_string(), "K".to_string()),
    ];
    let api = get_venue_api(&venues, "binance", &params);
    let expected = BinanceFuturesApi::new("https://b", "K", "S").account_request(1);
    assert_eq!(api.account_request(1).url, expected.url);
    assert_eq!(api.account_request(1).headers, expected.headers);
}

#[test]
fn index_entries_have_distinct_keys() {
    let rows = vec![trader(1, "a", "1"), trader(2, "b", "2"), trader(3, "a", "3")];
    let entries = monitor_server::traders::traders_by_name(rows).into_entries();
    assert_eq!(entries.len(), 2);
    assert!(monitor_server::entries::has_distinct_keys(&entries));
    let a = entries.iter().find(|(k, _)| k == "a").unwrap();
    assert_eq!(a.1.tra_id, 3);
}

#[test]
fn repeated_keys_are_detected() {
    let ok = vec![("a".to_string(), 1), ("b".to_string(), 2)];
    let dup = vec![("a".to_string(), 1), ("b".to_string(), 2), ("a".to_string(), 3)];
    assert!(monitor_server::entries::has_distinct_keys(&ok));
    assert!(!monitor_server::entries::has_distinct_keys(&dup));
}
