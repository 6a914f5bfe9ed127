//! Records of the monitoring database.

use vstd::prelude::*;

verus! {

/// A login account of the monitoring site.
#[derive(Clone, Debug, PartialEq, Eq)]
pub struct Account {
    pub acc_id: u64,
    pub acc_name: String,
    pub acc_password: String,
    pub admin: String,
}

/// A link between a login account and a product.
#[derive(Clone, Debug, PartialEq, Eq)]
pub struct AccProd {
    pub ap_id: u64,
    pub acc_id: u64,
    pub prod_id: u64,
}

/// A product: a group of trading accounts shown together.
#[derive(Clone, Debug, PartialEq, Eq)]
pub struct Product {
    pub prod_id: u64,
    pub prod_name: String,
    pub weixin_id: u64,
    pub prog_id: u64,
}

/// An account watched for open orders.
#[derive(Clone, Debug, PartialEq, Eq)]
pub struct OpenOrders {
    pub id: u64,
    pub api_key: String,
    pub secret_key: String,
    pub name: String,
}

/// A net-worth snapshot of a product.
#[derive(Clone, Debug, PartialEq, Eq)]
pub struct NetWorths {
    pub name: String,
    pub time: String,
    pub net_worth: String,
    pub prod_id: String,
}

/// An equity snapshot of a product.
#[derive(Clone, Debug, PartialEq, Eq)]
pub struct Equitys {
    pub id: u64,
    pub name: String,
    pub time: String,
    pub equity_eth: String,
    pub equity: String,
    pub prod_id: String,
}

/// An account watched for its net position, with its alarm threshold.
#[derive(Clone, Debug, PartialEq, Eq)]
pub struct PositionsAlarm {
    pub id: u64,
    pub api_key: String,
    pub secret_key: String,
    pub name: String,
    pub threshold: String,
}

/// A signed-in session.
#[derive(Clone, Debug, PartialEq, Eq)]
pub struct Active {
    pub acc_id: u64,
    pub token: String,
    pub name: String,
}

/// A trading account on a venue, with its API keys and monitoring settings.
#[derive(Clone, Debug, PartialEq, Eq)]
pub struct Trader {
    pub tra_id: u64,
    pub tra_venue: String,
    pub ori_balance: String,
    pub tra_currency: String,
    pub api_key: String,
    pub secret_key: String,
    pub other_keys: String,
    pub kind: String,
    pub name: String,
    pub show: String,
    pub threshold: String,
}

/// A filled trade on a Binance account.
#[derive(Clone, Debug, PartialEq, Eq)]
pub struct Trade {
    pub th_id: u64,
    pub tra_symbol: String,
    pub tra_order_id: u64,
    pub tra_commision: String,
    pub tra_time: u64,
    pub is_maker: String,
    pub position_side: String,
    pub price: String,
    pub qty: String,
    pub quote_qty: String,
    pub realized_pnl: String,
    pub side: String,
}

/// A filled trade on a Bybit account.
#[derive(Clone, Debug, PartialEq, Eq)]
pub struct BybitTrade {
    pub tra_order_id: String,
    pub th_id: String,
    pub time: u64,
    pub symbol: String,
    pub side: String,
    pub price: String,
    pub qty: String,
    pub quote_qty: String,
    pub commission: String,
    pub kind: String,
}

/// An equity point of a Bybit account.
#[derive(Clone, Debug, PartialEq, Eq)]
pub struct BybitEquity {
    pub id: u64,
    pub name: u64,
    pub time: String,
    pub equity: String,
}

/// An equity point of a Binance account.
#[derive(Clone, Debug, PartialEq, Eq)]
pub struct BianEquity {
    pub id: u64,
    pub name: u64,
    pub time: String,
    pub equity: String,
    pub kind: String,
}

/// An entry of the list of data to clear.
#[derive(Clone, Debug, PartialEq, Eq)]
pub struct ClearData {
    pub id: u64,
    pub name: String,
}

/// An account whose transfers are tracked.
#[derive(Clone, Debug, PartialEq, Eq)]
pub struct Incomes {
    pub tra_id: u64,
    pub tra_venue: String,
    pub ori_balance: String,
    pub tra_currency: String,
    pub api_key: String,
    pub secret_key: String,
    pub other_keys: String,
    pub kind: String,
    pub name: String,
}

/// A recorded transfer of an account.
#[derive(Clone, Debug, PartialEq, Eq)]
pub struct HistoryIncomes {
    pub time: String,
    pub kind: String,
    pub asset: String,
    pub amount: String,
    pub tran_id: u64,
    pub status: String,
}

/// A recorded position of an account.
#[derive(Clone, Debug, PartialEq, Eq)]
pub struct Position {
    pub symbol: String,
    pub position_amt: String,
    pub position_side: String,
    pub time: String,
    pub entry_price: String,
    pub un_realized_profit: String,
    pub tra_id: u64,
    pub leverage: String,
    pub mark_price: String,
}

/// A net-worth point.
#[derive(Clone, Debug, PartialEq, Eq)]
pub struct NetWorth {
    pub time: String,
    pub net_worth: String,
}

/// An equity point with its value in ETH.
#[derive(Clone, Debug, PartialEq, Eq)]
pub struct Equity {
    pub id: u64,
    pub name: String,
    pub time: String,
    pub equity_eth: String,
    pub equity: String,
    pub prod_id: String,
}

/// The traded volume of an account over a day and a week.
#[derive(Clone, Debug, PartialEq, Eq)]
pub struct NewPrice {
    pub id: u64,
    pub name: String,
    pub week_price: String,
    pub day_price: String,
}

/// A product offered to a signed-in account: its name and its id in decimal.
#[derive(Clone, Debug, PartialEq, Eq)]
pub struct SignInProRes {
    pub name: String,
    pub id: String,
}

/// The answer to a successful sign-in.
#[derive(Clone, Debug, PartialEq, Eq)]
pub struct SignInRes {
    pub name: String,
    pub account: u64,
    pub admin: String,
    pub products: Vec<SignInProRes>,
    pub token: String,
}

} // verus!
