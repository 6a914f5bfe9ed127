use monitor_server::queries::{
    bian_equity_query, bybit_equity_query, database_url, date_bybit_history_trades_query,
    date_history_trades_query, history_bybit_trades_query, history_incomes_query,
    history_positions_query, history_trades_query, total_bian_equity_query,
    total_bybit_equity_query, TradeColumns,
};

fn config(entries: &[(&str, &str)]) -> Vec<(String, String)> {
    entries.iter().map(|(k, v)| (k.to_string(), v.to_string())).collect()
}

#[test]
fn database_url_from_settings() {
    let c = config(&[("host", "db"), ("user", "u"), ("password", "p"), ("port", "3306"), ("database", "mon")]);
    assert_eq!(database_url(&c), "mysql://u:p@db:3306/mon");
}

#[test]
fn trade_tables() {
    assert_eq!(
        history_trades_query("account1"),
        ("select * from trade_histories order by tra_time desc limit 1000".to_string(), TradeColumns::MakerFirst)
    );
    assert_eq!(
        history_trades_query("account10"),
        ("select * from trade_histories_10 order by tra_time desc limit 1000".to_string(), TradeColumns::CommissionFirst)
    );
    assert_eq!(history_trades_query("account2").0, "select * from trate_histories_2 order by tra_time desc limit 1000");
    assert_eq!(history_trades_query("account6").1, TradeColumns::CommissionFirst);
}

#[test]
fn dated_trade_tables() {
    assert_eq!(
        date_history_trades_query("1", "2", "Angus"),
        "select * from trade_histories_3 where tra_time >= 1 and tra_time <= 2"
    );
    assert_eq!(
        date_history_trades_query("10", "20", "pca01"),
        "select * from trade_pca01 where tra_time >= 10 and tra_time <= 20"
    );
    assert_eq!(
        date_history_trades_query("10", "20", "account3"),
        "select * from trade_histories_2 where tra_time >= 10 and tra_time <= 20"
    );
}

#[test]
fn income_and_position_tables() {
    assert_eq!(history_incomes_query("account5"), "select * from incomes_4 order by time desc");
    assert_eq!(history_incomes_query("zzz"), "select * from incomes_7 order by time desc");
    assert_eq!(history_positions_query("account1"), "select * from position_histories order by time desc");
    assert_eq!(history_positions_query("account2"), "select * from position_histories_2 order by time desc");
}

#[test]
fn bybit_queries_ignore_account() {
    assert_eq!(history_bybit_trades_query("a"), history_bybit_trades_query("account11"));
    assert_eq!(
        date_bybit_history_trades_query("1", "2", "mmteam1"),
        "select * from bybit_trader_histories where time >= 1 and time <= 2"
    );
}

#[test]
fn equity_queries() {
    assert_eq!(bybit_equity_query("7"), "select * from  bybit_equitys where name = 7");
    assert_eq!(bian_equity_query("7"), "select * from bian_equity where name = 7");
    assert_eq!(total_bybit_equity_query("7"), "select * from total_bybit_equity where name = 7");
    assert_eq!(total_bian_equity_query("7"), "select * from test_bian_equitys where name = 7");
}
