use monitor_server::binance::{response_text, BinanceFuturesApi, HttpMethod, SignedRequest};
use monitor_server::params::{query_string_of, render_value, ParamValue, QueryParams};
use monitor_server::signing::sign_payload;

fn params(entries: &[(&str, ParamValue)]) -> QueryParams {
    let mut p = QueryParams::new();
    for (k, v) in entries {
        let v = match v {
            ParamValue::Text(s) => ParamValue::Text(s.clone()),
            ParamValue::Int(n) => ParamValue::Int(*n),
        };
        p.insert(k.to_string(), v);
    }
    p
}

fn text(s: &str) -> ParamValue {
    ParamValue::Text(s.to_string())
}

fn header<'a>(r: &'a SignedRequest, name: &str) -> Option<&'a str> {
    r.headers.iter().find(|(k, _)| k == name).map(|(_, v)| v.as_str())
}

#[test]
fn hmac_matches_rfc4231_vector() {
    assert_eq!(
        sign_payload("Jefe", "what do ya want for nothing?"),
        "5bdcc146bf60754e6a042426089575c75a003f089d2739839dec58b964ec3843"
    );
}

#[test]
fn signature_matches_venue_documentation_example() {
    let secret = "NhqPtmdSJYdKjVHjA7PZj4Mge3R5YNiP1e3UZjInClVN65XAbvqqM6A7H5fATj0j";
    let query = "symbol=LTCBTC&side=BUY&type=LIMIT&timeInForce=GTC&quantity=1&price=0.1&recvWindow=5000&timestamp=1499827319559";
    assert_eq!(
        sign_payload(secret, query),
        "c8db56825ae71d6d79447849e617115f4a920fa2acdcab2b053c4b2838bd6b71"
    );
}

#[test]
fn signature_is_64_lower_hex_digits() {
    let s = sign_payload("", "");
    assert_eq!(s.len(), 64);
    assert!(s.chars().all(|c| c.is_ascii_digit() || ('a'..='f').contains(&c)));
}

#[test]
fn query_string_sorts_keys() {
    let p = params(&[("timestamp", ParamValue::Int(1700000000000)), ("symbol", text("BTCUSDT")), ("limit", ParamValue::Int(1000))]);
    assert_eq!(query_string_of(&p), "limit=1000&symbol=BTCUSDT&timestamp=1700000000000");
}

#[test]
fn query_string_ignores_insertion_order() {
    let a = params(&[("b", text("2")), ("a", text("1")), ("c", ParamValue::Int(-3))]);
    let b = params(&[("c", ParamValue::Int(-3)), ("a", text("1")), ("b", text("2"))]);
    assert_eq!(query_string_of(&a), query_string_of(&b));
    assert_eq!(query_string_of(&a), "a=1&b=2&c=-3");
}

#[test]
fn query_string_sorts_by_bytes() {
    // Upper case sorts before lower case, and a prefix before its extensions.
    let p = params(&[("b", text("x")), ("B", text("y")), ("bb", text("z"))]);
    assert_eq!(query_string_of(&p), "B=y&b=x&bb=z");
}

#[test]
fn insert_overwrites_earlier_value() {
    let mut p = QueryParams::new();
    p.insert("timestamp".to_string(), ParamValue::Int(1));
    p.insert("timestamp".to_string(), ParamValue::Int(2));
    assert_eq!(query_string_of(&p), "timestamp=2");
    assert!(matches!(p.get("timestamp"), Some(ParamValue::Int(2))));
    assert!(p.get("symbol").is_none());
}

#[test]
fn empty_params_give_empty_query() {
    let p = QueryParams::new();
    assert!(p.is_empty());
    assert_eq!(query_string_of(&p), "");
}

#[test]
fn integers_render_in_decimal() {
    assert_eq!(render_value(&ParamValue::Int(0)), "0");
    assert_eq!(render_value(&ParamValue::Int(-42)), "-42");
    assert_eq!(render_value(&ParamValue::Int(i64::MIN)), "-9223372036854775808");
    assert_eq!(render_value(&ParamValue::Int(i64::MAX)), "9223372036854775807");
    assert_eq!(render_value(&text("a b")), "a b");
}

#[test]
fn account_request_is_signed_get() {
    let api = BinanceFuturesApi::new("https://fapi.binance.com", "KEY", "SECRET");
    let r = api.account_request(1700000000000);
    let payload = "timestamp=1700000000000";
    let sig = sign_payload("SECRET", payload);
    assert_eq!(r.method, HttpMethod::Get);
    assert_eq!(r.url, format!("https://fapi.binance.com/fapi/v2/account?{}&signature={}", payload, sig));
    assert_eq!(r.body, payload);
    assert_eq!(header(&r, "X-MBX-APIKEY"), Some("KEY"));
    assert_eq!(header(&r, "Content-Type"), Some("application/json"));
    assert_eq!(header(&r, "User-Agent"), Some("nautilus_alarm"));
    assert_eq!(r.headers.len(), 3);
}

#[test]
fn endpoint_paths() {
    let api = BinanceFuturesApi::new("B", "K", "S");
    assert!(api.position_risk_request(5).url.starts_with("B/fapi/v2/positionRisk?timestamp=5&signature="));
    assert!(api.position_um_request(5).url.starts_with("B/papi/v1/um/account?timestamp=5&signature="));
    assert!(api.position_request("x", 5).url.starts_with("B/fapi/v2/positionRisk?timestamp=5&signature="));
    assert!(api.open_orders_request("none", 5).url.starts_with("B/fapi/v1/openOrders?timestamp=5&signature="));
    assert!(api.klines_request("ETHUSDT").url.starts_with("B/fapi/v1/ticker/price?symbol=ETHUSDT&signature="));
    assert!(api
        .open_orders_usdc_request()
        .url
        .starts_with("B/v5/order/realtime?category=spot&settleCoin=USDC&signature="));
    assert!(api
        .trade_history_request("BTCUSDT", 7)
        .url
        .starts_with("B/fapi/v1/userTrades?limit=1000&symbol=BTCUSDT&timestamp=7&signature="));
}

#[test]
fn income_request_starts_eight_days_back() {
    let api = BinanceFuturesApi::new("B", "K", "S");
    let r = api.income_request("", 1_000_000_000, 900_000_000);
    assert_eq!(r.body, "startTime=208800000&timestamp=1000000000");
    assert!(r.url.starts_with("B/sapi/v1/futures/transfer?startTime=208800000&timestamp=1000000000&signature="));
}

#[test]
fn clock_stamped_requests_carry_a_timestamp() {
    let api = BinanceFuturesApi::new("B", "K", "S");
    let r = api.account();
    assert!(r.url.starts_with("B/fapi/v2/account?timestamp="));
    assert!(r.body.starts_with("timestamp="));
    let r = api.get_income("TRANSFER");
    assert!(r.body.starts_with("startTime="));
    assert!(r.body.contains("&timestamp="));
}

#[test]
fn unsigned_request_has_only_user_agent() {
    let api = BinanceFuturesApi::new("B", "K", "S");
    let p = params(&[("symbol", text("X"))]);
    let r = api.package_request(HttpMethod::Get, "/p", false, &p).unwrap();
    assert_eq!(r.url, "B/p?symbol=X");
    assert_eq!(r.headers, vec![("User-Agent".to_string(), "nautilus_alarm".to_string())]);
}

#[test]
fn signed_request_without_params_appends_signature_to_path() {
    let api = BinanceFuturesApi::new("B", "K", "S");
    let r = api.package_request(HttpMethod::Delete, "/p", true, &QueryParams::new()).unwrap();
    assert_eq!(r.url, format!("B/p&signature={}", sign_payload("S", "")));
    assert_eq!(r.body, "");
}

#[test]
fn post_request_carries_json_body() {
    let api = BinanceFuturesApi::new("B", "K", "S");
    let p = params(&[("symbol", text("X")), ("qty", ParamValue::Int(2))]);
    let r = api.package_request(HttpMethod::Post, "/order", true, &p).unwrap();
    let body: serde_json::Value = serde_json::from_str(&r.body).unwrap();
    let obj = body.as_object().unwrap();
    assert_eq!(obj.len(), 2);
    assert_eq!(obj.get("symbol").unwrap().as_str(), Some("X"));
    assert_eq!(obj.get("qty").unwrap().as_i64(), Some(2));
    assert_eq!(r.url, format!("B/order&signature={}", sign_payload("S", &r.body)));
    let empty = api.package_request(HttpMethod::Post, "/order", false, &QueryParams::new()).unwrap();
    assert_eq!(empty.body, "");
    assert_eq!(empty.url, "B/order");
}

#[test]
fn method_names() {
    assert_eq!(HttpMethod::Get.as_str(), "GET");
    assert_eq!(HttpMethod::Delete.as_str(), "DELETE");
    assert_eq!(HttpMethod::Patch.as_str(), "PATCH");
}

#[test]
fn response_screening() {
    let api = BinanceFuturesApi::new("B", "K", "S");
    assert_eq!(api.check_response_data(Some("[1,2]".to_string())), Some("[1,2]".to_string()));
    assert_eq!(api.check_response_data(Some("{\"code\":-2015,\"msg\":\"x\"}".to_string())), None);
    assert_eq!(api.check_response_data(Some("barcode".to_string())), None);
    assert_eq!(api.check_response_data(Some(String::new())), None);
    assert_eq!(api.check_response_data(None), None);
    assert_eq!(api.check_response_data(Some("cod".to_string())), Some("cod".to_string()));
}

#[test]
fn response_status() {
    assert_eq!(response_text(200, Some("x".to_string())), Some("x".to_string()));
    assert_eq!(response_text(200, None), None);
    assert_eq!(response_text(404, Some("x".to_string())), None);
}

#[test]
fn json_text_holds_each_key_once() {
    let mut p = params(&[("symbol", text("X")), ("limit", ParamValue::Int(5))]);
    p.insert("limit".to_string(), ParamValue::Int(1000));
    let text = p.to_json_text().unwrap();
    assert!(text.starts_with('{') && text.ends_with('}'));
    let body: serde_json::Value = serde_json::from_str(&text).unwrap();
    let obj = body.as_object().unwrap();
    assert_eq!(obj.len(), 2);
    assert_eq!(obj.get("limit").unwrap().as_i64(), Some(1000));
    assert_eq!(obj.get("symbol").unwrap().as_str(), Some("X"));
    assert_eq!(QueryParams::new().to_json_text().as_deref(), Some("{}"));
}

#[test]
fn json_text_escapes_like_serde() {
    let p = params(&[("k\"q", text("a\\b\n\u{1}é"))]);
    assert_eq!(p.to_json_text().unwrap(), "{\"k\\\"q\":\"a\\\\b\\n\\u0001é\"}");
    let n = params(&[("n", ParamValue::Int(-42))]);
    assert_eq!(n.to_json_text().unwrap(), "{\"n\":-42}");
}
