//! Decoding the exchange's JSON answers into records, and the reports built
//! from an answer's text.

use vstd::prelude::*;
use crate::clock::{clock_bound, local_now_millis, utc_time_text};
use crate::params::same_text;
use crate::rows::{
    asset_entry_of, asset_row_shows, asset_rows, checked_open_order_rows, checked_position_rows, entry_of,
    held_assets, kept, open_positions, order_row_shows, order_view_times_representable, position_row_shows,
    day_before, AssetEntryView, AssetRecord, AssetRow, IncomeEntry, DAY_MILLIS, OpenOrderRecord, OpenOrderRow,
    OpenOrderView, PositionEntryView, PositionRecord, PositionRow,
};

verus! {

/// The open orders that `serde_json` reads from an open-orders answer: a JSON
/// array of objects, each with `time` (an integer), `symbol`, `type`, `side`,
/// `price`, `origQty`, `executedQty` (strings) and `reduceOnly` (a boolean);
/// `None` when the text is not such an array.
pub uninterp spec fn json_open_orders(text: Seq<char>) -> Option<Seq<OpenOrderView>>;

/// The view of an optional text.
pub open spec fn opt_text(o: Option<String>) -> Option<Seq<char>> {
    match o {
        Some(t) => Some(t@),
        None => None,
    }
}

/// A position as the answer text gives it: its amount, and each other field
/// where it is present with the right type.
pub struct PositionItem {
    pub symbol: Option<String>,
    pub position_amt: String,
    pub update_time: Option<i64>,
    pub position_side: Option<String>,
    pub entry_price: Option<String>,
    pub leverage: Option<String>,
    pub initial_margin: Option<String>,
    pub unrealized_profit: Option<String>,
}

/// The mathematical content of a [`PositionItem`].
pub struct PositionItemView {
    pub symbol: Option<Seq<char>>,
    pub position_amt: Seq<char>,
    pub update_time: Option<i64>,
    pub position_side: Option<Seq<char>>,
    pub entry_price: Option<Seq<char>>,
    pub leverage: Option<Seq<char>>,
    pub initial_margin: Option<Seq<char>>,
    pub unrealized_profit: Option<Seq<char>>,
}

impl View for PositionItem {
    type V = PositionItemView;

    open spec fn view(&self) -> PositionItemView {
        PositionItemView {
            symbol: opt_text(self.symbol),
            position_amt: self.position_amt@,
            update_time: self.update_time,
            position_side: opt_text(self.position_side),
            entry_price: opt_text(self.entry_price),
            leverage: opt_text(self.leverage),
            initial_margin: opt_text(self.initial_margin),
            unrealized_profit: opt_text(self.unrealized_profit),
        }
    }
}

/// An asset balance as the answer text gives it: its wallet balance, and each
/// other field where it is present as a string.
pub struct AssetItem {
    pub asset: Option<String>,
    pub wallet_balance: String,
    pub unrealized_profit: Option<String>,
    pub margin_balance: Option<String>,
    pub available_balance: Option<String>,
}

/// The mathematical content of an [`AssetItem`].
pub struct AssetItemView {
    pub asset: Option<Seq<char>>,
    pub wallet_balance: Seq<char>,
    pub unrealized_profit: Option<Seq<char>>,
    pub margin_balance: Option<Seq<char>>,
    pub available_balance: Option<Seq<char>>,
}

impl View for AssetItem {
    type V = AssetItemView;

    open spec fn view(&self) -> AssetItemView {
        AssetItemView {
            asset: opt_text(self.asset),
            wallet_balance: self.wallet_balance@,
            unrealized_profit: opt_text(self.unrealized_profit),
            margin_balance: opt_text(self.margin_balance),
            available_balance: opt_text(self.available_balance),
        }
    }
}

/// The positions that `serde_json` reads from the `positions` array of an
/// account answer: each with its `positionAmt` (a string), and `symbol`,
/// `updateTime` (an integer), `positionSide`, `entryPrice`, `leverage`,
/// `initialMargin` and `unrealizedProfit` (strings) where present; `None`
/// when the text holds no such array or a position has no amount.
pub uninterp spec fn json_positions(text: Seq<char>) -> Option<Seq<PositionItemView>>;

/// The assets that `serde_json` reads from the `assets` array of an account
/// answer: each with its `walletBalance` (a string), and `asset`,
/// `unrealizedProfit`, `marginBalance` and `availableBalance` (strings) where
/// present; `None` when the text holds no such array or an asset has no
/// wallet balance.
pub uninterp spec fn json_assets(text: Seq<char>) -> Option<Seq<AssetItemView>>;

/// Parses the answer with `serde_json::from_str` into a `serde_json::Value`
/// and moves the fields of each order into a record. The result depends on
/// the text alone; the contract names it.
#[verifier::external_body]
fn parse_open_orders(text: &str) -> (r: Option<Vec<OpenOrderRecord>>)
    ensures
        match r {
            Some(v) => json_open_orders(text@) == Some(v@.map_values(|o: OpenOrderRecord| o@)),
            None => json_open_orders(text@) is None,
        },
{
    let v: serde_json::Value = serde_json::from_str(text).ok()?;
    v.as_array()?.iter().map(|o| Some(OpenOrderRecord {
        time: o["time"].as_i64()?,
        symbol: o["symbol"].as_str()?.into(),
        order_type: o["type"].as_str()?.into(),
        side: o["side"].as_str()?.into(),
        price: o["price"].as_str()?.into(),
        orig_qty: o["origQty"].as_str()?.into(),
        executed_qty: o["executedQty"].as_str()?.into(),
        reduce_only: o["reduceOnly"].as_bool()?,
    })).collect()
}

/// Parses the answer with `serde_json::from_str` into a `serde_json::Value`
/// and moves the fields of each item of its `positions` array into an item.
/// The result depends on the text alone; the contract names it.
#[verifier::external_body]
fn parse_positions(text: &str) -> (r: Option<Vec<PositionItem>>)
    ensures
        match r {
            Some(v) => json_positions(text@) == Some(v@.map_values(|p: PositionItem| p@)),
            None => json_positions(text@) is None,
        },
{
    let v: serde_json::Value = serde_json::from_str(text).ok()?;
    v["positions"].as_array()?.iter().map(|p| Some(PositionItem {
        symbol: p["symbol"].as_str().map(String::from),
        position_amt: p["positionAmt"].as_str()?.into(),
        update_time: p["updateTime"].as_i64(),
        position_side: p["positionSide"].as_str().map(String::from),
        entry_price: p["entryPrice"].as_str().map(String::from),
        leverage: p["leverage"].as_str().map(String::from),
        initial_margin: p["initialMargin"].as_str().map(String::from),
        unrealized_profit: p["unrealizedProfit"].as_str().map(String::from),
    })).collect()
}

/// Parses the answer with `serde_json::from_str` into a `serde_json::Value`
/// and moves the fields of each item of its `assets` array into an item.
/// The result depends on the text alone; the contract names it.
#[verifier::external_body]
fn parse_assets(text: &str) -> (r: Option<Vec<AssetItem>>)
    ensures
        match r {
            Some(v) => json_assets(text@) == Some(v@.map_values(|a: AssetItem| a@)),
            None => json_assets(text@) is None,
        },
{
    let v: serde_json::Value = serde_json::from_str(text).ok()?;
    v["assets"].as_array()?.iter().map(|a| Some(AssetItem {
        asset: a["asset"].as_str().map(String::from),
        wallet_balance: a["walletBalance"].as_str()?.into(),
        unrealized_profit: a["unrealizedProfit"].as_str().map(String::from),
        margin_balance: a["marginBalance"].as_str().map(String::from),
        available_balance: a["availableBalance"].as_str().map(String::from),
    })).collect()
}

/// The open-orders report of account `name` from the answer text: a row for
/// each order, in order. `None` when the text is not an open-orders answer or
/// an order's time cannot be represented.
pub fn open_orders_report(name: &str, text: &str) -> (r: Option<Vec<OpenOrderRow>>)
    ensures
        r is Some <==> (json_open_orders(text@) matches Some(os) && order_view_times_representable(os)),
        r matches Some(rows) ==> (json_open_orders(text@) matches Some(os) && rows@.len() == os.len() && forall|i: int|
            0 <= i < rows@.len() ==> order_row_shows(#[trigger] rows@[i], os[i], name@)),
{
    let records = match parse_open_orders(text) {
        Some(records) => records,
        None => return None,
    };
    let ghost os = records@.map_values(|o: OpenOrderRecord| o@);
    let r = checked_open_order_rows(name, &records);
    proof {
        assert forall|i: int| 0 <= i < records@.len() implies #[trigger] records@[i]@ == os[i] by {}
        if order_view_times_representable(os) {
            assert forall|i: int| 0 <= i < records@.len() implies (#[trigger] utc_time_text(
                records@[i].time as int,
            )) is Some by {
                assert(os[i].time == records@[i].time);
            }
        } else {
            let i = choose|i: int| 0 <= i < os.len() && !((#[trigger] utc_time_text(os[i].time as int)) is Some);
            assert(os[i].time == records@[i].time);
        }
    }
    r
}

/// The items read from an account answer's `positions` array, as the text
/// gives them.
pub fn decode_positions(text: &str) -> (r: Option<Vec<PositionItem>>)
    ensures
        match r {
            Some(v) => json_positions(text@) == Some(v@.map_values(|p: PositionItem| p@)),
            None => json_positions(text@) is None,
        },
{
    parse_positions(text)
}

/// The items read from an account answer's `assets` array, as the text gives
/// them.
pub fn decode_assets(text: &str) -> (r: Option<Vec<AssetItem>>)
    ensures
        match r {
            Some(v) => json_assets(text@) == Some(v@.map_values(|a: AssetItem| a@)),
            None => json_assets(text@) is None,
        },
{
    parse_assets(text)
}

/// The position item has every field that a report row shows.
pub open spec fn position_complete(i: PositionItemView) -> bool {
    &&& i.symbol is Some
    &&& i.update_time is Some
    &&& i.position_side is Some
    &&& i.entry_price is Some
    &&& i.leverage is Some
    &&& i.initial_margin is Some
    &&& i.unrealized_profit is Some
}

/// The fields of a complete position item.
pub open spec fn position_entry(i: PositionItemView) -> PositionEntryView {
    PositionEntryView {
        symbol: i.symbol.unwrap(),
        position_amt: i.position_amt,
        update_time: i.update_time.unwrap(),
        position_side: i.position_side.unwrap(),
        entry_price: i.entry_price.unwrap(),
        leverage: i.leverage.unwrap(),
        initial_margin: i.initial_margin.unwrap(),
        unrealized_profit: i.unrealized_profit.unwrap(),
    }
}

/// The fields of each position item.
pub open spec fn position_entries(items: Seq<PositionItemView>) -> Seq<PositionEntryView> {
    items.map_values(|i: PositionItemView| position_entry(i))
}

/// Every held position item is complete.
pub open spec fn held_positions_complete(items: Seq<PositionItemView>, held: Seq<bool>) -> bool {
    forall|i: int| 0 <= i < items.len() && held[i] ==> position_complete(#[trigger] items[i])
}

/// Every kept position has an update time that chrono can represent.
pub open spec fn kept_times_representable(es: Seq<PositionEntryView>, held: Seq<bool>) -> bool {
    forall|i: int| 0 <= i < es.len() && held[i] ==> (#[trigger] utc_time_text(es[i].update_time as int)) is Some
}

proof fn lemma_open_positions_kept(recs: Seq<PositionRecord>, es: Seq<PositionEntryView>, held: Seq<bool>)
    requires
        recs.len() == es.len(),
        held.len() == es.len(),
        forall|i: int| 0 <= i < recs.len() ==> (#[trigger] recs[i]).amount_nonzero == held[i],
        forall|i: int| 0 <= i < recs.len() && held[i] ==> entry_of(#[trigger] recs[i]) == es[i],
    ensures
        open_positions(recs).map_values(|r: PositionRecord| entry_of(r)) == kept(es, held),
    decreases recs.len(),
{
    if recs.len() > 0 {
        let n = recs.len() - 1;
        assert forall|i: int| 0 <= i < n implies (#[trigger] recs.drop_last()[i]).amount_nonzero
            == held.drop_last()[i] by {
            assert(recs.drop_last()[i] == recs[i]);
        }
        assert forall|i: int| 0 <= i < n && held.drop_last()[i] implies entry_of(#[trigger] recs.drop_last()[i])
            == es.drop_last()[i] by {
            assert(recs.drop_last()[i] == recs[i]);
        }
        lemma_open_positions_kept(recs.drop_last(), es.drop_last(), held.drop_last());
        assert(recs[n].amount_nonzero == held[n]);
        assert(open_positions(recs).map_values(|r: PositionRecord| entry_of(r)) =~= kept(es, held));
    } else {
        assert(open_positions(recs).map_values(|r: PositionRecord| entry_of(r)) =~= kept(es, held));
    }
}

/// The positions report of account `id` from the answer text, given for each
/// position whether its amount is non-zero (`held`, in the answer's order): a
/// row for each position that is held, in order. Only the held positions'
/// other fields are read. `None` when the text holds no positions array,
/// `held` does not have one flag per position, a held position lacks a field
/// or its time cannot be represented.
pub fn positions_report(text: &str, held: &Vec<bool>, id: u64) -> (r: Option<Vec<PositionRow>>)
    ensures
        r is Some <==> (json_positions(text@) matches Some(items) && items.len() == held@.len()
            && held_positions_complete(items, held@) && kept_times_representable(position_entries(items), held@)),
        r matches Some(rows) ==> (json_positions(text@) matches Some(items) && rows@.len() == kept(
            position_entries(items),
            held@,
        ).len() && forall|i: int|
            0 <= i < rows@.len() ==> position_row_shows(#[trigger] rows@[i], kept(position_entries(items), held@)[i], id)),
{
    let items = match parse_positions(text) {
        Some(items) => items,
        None => return None,
    };
    if items.len() != held.len() {
        return None;
    }
    let ghost vs = items@.map_values(|p: PositionItem| p@);
    let ghost es = position_entries(vs);
    let mut records: Vec<PositionRecord> = Vec::new();
    let mut i: usize = 0;
    while i < items.len()
        invariant
            i <= items@.len(),
            items@.len() == held@.len(),
            vs == items@.map_values(|p: PositionItem| p@),
            es == position_entries(vs),
            json_positions(text@) == Some(vs),
            records@.len() == i,
            forall|j: int| 0 <= j < i ==> (#[trigger] records@[j]).amount_nonzero == held@[j],
            forall|j: int| 0 <= j < i && held@[j] ==> entry_of(#[trigger] records@[j]) == es[j],
            forall|j: int| 0 <= j < i && held@[j] ==> position_complete(#[trigger] vs[j]),
        decreases items@.len() - i,
    {
        let it = &items[i];
        if held[i] {
            match (&it.symbol, &it.update_time, &it.position_side, &it.entry_price, &it.leverage, &it.initial_margin, &it.unrealized_profit) {
                (Some(symbol), Some(t), Some(side), Some(price), Some(leverage), Some(margin), Some(profit)) => {
                    records.push(PositionRecord {
                        symbol: symbol.clone(),
                        position_amt: it.position_amt.clone(),
                        amount_nonzero: true,
                        update_time: *t,
                        position_side: side.clone(),
                        entry_price: price.clone(),
                        leverage: leverage.clone(),
                        initial_margin: margin.clone(),
                        unrealized_profit: profit.clone(),
                    });
                    proof {
                        assert(vs[i as int] == items@[i as int]@);
                        assert(entry_of(records@[i as int]) == es[i as int]);
                    }
                },
                _ => {
                    proof {
                        assert(vs[i as int] == items@[i as int]@);
                        assert(!position_complete(vs[i as int]));
                        assert(!held_positions_complete(vs, held@));
                    }
                    return None;
                },
            }
        } else {
            records.push(PositionRecord {
                symbol: String::new(),
                position_amt: it.position_amt.clone(),
                amount_nonzero: false,
                update_time: 0,
                position_side: String::new(),
                entry_price: String::new(),
                leverage: String::new(),
                initial_margin: String::new(),
                unrealized_profit: String::new(),
            });
        }
        i = i + 1;
    }
    let r = checked_position_rows(&records, id);
    proof {
        lemma_open_positions_kept(records@, es, held@);
        let ks = kept(es, held@);
        let ops = open_positions(records@);
        assert(ops.len() == ks.len());
        assert forall|j: int| 0 <= j < ops.len() implies entry_of(#[trigger] ops[j]) == ks[j] by {
            assert(ops.map_values(|r: PositionRecord| entry_of(r))[j] == ks[j]);
        }
        if kept_times_representable(es, held@) {
            assert forall|j: int| 0 <= j < records@.len() && records@[j].amount_nonzero implies (#[trigger] utc_time_text(
                records@[j].update_time as int,
            )) is Some by {
                assert(entry_of(records@[j]).update_time == es[j].update_time);
            }
        } else {
            let j = choose|j: int| 0 <= j < es.len() && held@[j] && !((#[trigger] utc_time_text(es[j].update_time as int)) is Some);
            assert(entry_of(records@[j]).update_time == es[j].update_time);
        }
    }
    r
}

/// The asset item has every field that a report row shows.
pub open spec fn asset_complete(i: AssetItemView) -> bool {
    &&& i.asset is Some
    &&& i.unrealized_profit is Some
    &&& i.margin_balance is Some
    &&& i.available_balance is Some
}

/// The fields of a complete asset item.
pub open spec fn asset_entry(i: AssetItemView) -> AssetEntryView {
    AssetEntryView {
        asset: i.asset.unwrap(),
        wallet_balance: i.wallet_balance,
        unrealized_profit: i.unrealized_profit.unwrap(),
        margin_balance: i.margin_balance.unwrap(),
        available_balance: i.available_balance.unwrap(),
    }
}

/// The fields of each asset item.
pub open spec fn asset_entries(items: Seq<AssetItemView>) -> Seq<AssetEntryView> {
    items.map_values(|i: AssetItemView| asset_entry(i))
}

/// Every held asset item is complete.
pub open spec fn held_assets_complete(items: Seq<AssetItemView>, held: Seq<bool>) -> bool {
    forall|i: int| 0 <= i < items.len() && held[i] ==> asset_complete(#[trigger] items[i])
}

proof fn lemma_held_assets_kept(recs: Seq<AssetRecord>, es: Seq<AssetEntryView>, held: Seq<bool>)
    requires
        recs.len() == es.len(),
        held.len() == es.len(),
        forall|i: int| 0 <= i < recs.len() ==> (#[trigger] recs[i]).balance_nonzero == held[i],
        forall|i: int| 0 <= i < recs.len() && held[i] ==> asset_entry_of(#[trigger] recs[i]) == es[i],
    ensures
        held_assets(recs).map_values(|r: AssetRecord| asset_entry_of(r)) == kept(es, held),
    decreases recs.len(),
{
    if recs.len() > 0 {
        let n = recs.len() - 1;
        assert forall|i: int| 0 <= i < n implies (#[trigger] recs.drop_last()[i]).balance_nonzero
            == held.drop_last()[i] by {
            assert(recs.drop_last()[i] == recs[i]);
        }
        assert forall|i: int| 0 <= i < n && held.drop_last()[i] implies asset_entry_of(#[trigger] recs.drop_last()[i])
            == es.drop_last()[i] by {
            assert(recs.drop_last()[i] == recs[i]);
        }
        lemma_held_assets_kept(recs.drop_last(), es.drop_last(), held.drop_last());
        assert(recs[n].balance_nonzero == held[n]);
        assert(held_assets(recs).map_values(|r: AssetRecord| asset_entry_of(r)) =~= kept(es, held));
    } else {
        assert(held_assets(recs).map_values(|r: AssetRecord| asset_entry_of(r)) =~= kept(es, held));
    }
}

/// The assets report of account `id` from the answer text, given for each
/// asset whether its wallet balance is non-zero (`held`, in the answer's
/// order): a row for each asset that is held, in order. Only the held
/// assets' other fields are read. `None` when the text holds no assets
/// array, `held` does not have one flag per asset, or a held asset lacks a field.
pub fn assets_report(text: &str, held: &Vec<bool>, id: u64) -> (r: Option<Vec<AssetRow>>)
    ensures
        r is Some <==> (json_assets(text@) matches Some(items) && items.len() == held@.len()
            && held_assets_complete(items, held@)),
        r matches Some(rows) ==> (json_assets(text@) matches Some(items) && rows@.len() == kept(
            asset_entries(items),
            held@,
        ).len() && forall|i: int|
            0 <= i < rows@.len() ==> asset_row_shows(#[trigger] rows@[i], kept(asset_entries(items), held@)[i], id)),
{
    let items = match parse_assets(text) {
        Some(items) => items,
        None => return None,
    };
    if items.len() != held.len() {
        return None;
    }
    let ghost vs = items@.map_values(|a: AssetItem| a@);
    let ghost es = asset_entries(vs);
    let mut records: Vec<AssetRecord> = Vec::new();
    let mut i: usize = 0;
    while i < items.len()
        invariant
            i <= items@.len(),
            items@.len() == held@.len(),
            vs == items@.map_values(|a: AssetItem| a@),
            es == asset_entries(vs),
            json_assets(text@) == Some(vs),
            records@.len() == i,
            forall|j: int| 0 <= j < i ==> (#[trigger] records@[j]).balance_nonzero == held@[j],
            forall|j: int| 0 <= j < i && held@[j] ==> asset_entry_of(#[trigger] records@[j]) == es[j],
            forall|j: int| 0 <= j < i && held@[j] ==> asset_complete(#[trigger] vs[j]),
        decreases items@.len() - i,
    {
        let it = &items[i];
        if held[i] {
            match (&it.asset, &it.unrealized_profit, &it.margin_balance, &it.available_balance) {
                (Some(asset), Some(profit), Some(margin), Some(available)) => {
                    records.push(AssetRecord {
                        asset: asset.clone(),
                        wallet_balance: it.wallet_balance.clone(),
                        balance_nonzero: true,
                        unrealized_profit: profit.clone(),
                        margin_balance: margin.clone(),
                        available_balance: available.clone(),
                    });
                    proof {
                        assert(vs[i as int] == items@[i as int]@);
                        assert(asset_entry_of(records@[i as int]) == es[i as int]);
                    }
                },
                _ => {
                    proof {
                        assert(vs[i as int] == items@[i as int]@);
                        assert(!asset_complete(vs[i as int]));
                        assert(!held_assets_complete(vs, held@));
                    }
                    return None;
                },
            }
        } else {
            records.push(AssetRecord {
                asset: String::new(),
                wallet_balance: it.wallet_balance.clone(),
                balance_nonzero: false,
                unrealized_profit: String::new(),
                margin_balance: String::new(),
                available_balance: String::new(),
            });
        }
        i = i + 1;
    }
    let rows = asset_rows(&records, id);
    proof {
        lemma_held_assets_kept(records@, es, held@);
        let ks = kept(es, held@);
        let ha = held_assets(records@);
        assert(ha.len() == ks.len());
        assert forall|j: int| 0 <= j < ha.len() implies asset_entry_of(#[trigger] ha[j]) == ks[j] by {
            assert(ha.map_values(|r: AssetRecord| asset_entry_of(r))[j] == ks[j]);
        }
    }
    Some(rows)
}

/// A row of a transfer-history answer: its status, and the time, amount and
/// asset where the row has them.
pub struct IncomeItem {
    pub status: String,
    pub timestamp: Option<i64>,
    pub amount: Option<String>,
    pub asset: Option<String>,
}

/// The mathematical content of an [`IncomeItem`].
pub struct IncomeItemView {
    pub status: Seq<char>,
    pub timestamp: Option<i64>,
    pub amount: Option<Seq<char>>,
    pub asset: Option<Seq<char>>,
}

impl View for IncomeItem {
    type V = IncomeItemView;

    open spec fn view(&self) -> IncomeItemView {
        IncomeItemView {
            status: self.status@,
            timestamp: self.timestamp,
            amount: match self.amount {
                Some(a) => Some(a@),
                None => None,
            },
            asset: match self.asset {
                Some(a) => Some(a@),
                None => None,
            },
        }
    }
}

/// What `serde_json` reads from a transfer-history answer: whether its
/// `total` is the number 0, and its `rows` array (each row with a string
/// `status`, and `timestamp`, `amount` and `asset` where present with the
/// right type) if it has one; `None` when the text is not JSON.
pub uninterp spec fn json_incomes(text: Seq<char>) -> Option<(bool, Option<Seq<IncomeItemView>>)>;

/// Parses the answer with `serde_json::from_str` into a `serde_json::Value`,
/// compares its `total` with 0 (`Value == i32`) and moves the fields of each
/// row into an item. The result depends on the text alone; the contract names it.
#[verifier::external_body]
fn parse_incomes(text: &str) -> (r: Option<(bool, Option<Vec<IncomeItem>>)>)
    ensures
        match r {
            Some((zero, Some(v))) => json_incomes(text@) == Some((zero, Some(v@.map_values(|i: IncomeItem| i@)))),
            Some((zero, None)) => json_incomes(text@) == Some((zero, None::<Seq<IncomeItemView>>)),
            None => json_incomes(text@) is None,
        },
{
    let v: serde_json::Value = serde_json::from_str(text).ok()?;
    let rows = v["rows"].as_array().and_then(|a| a.iter().map(|o| Some(IncomeItem {
        status: o["status"].as_str()?.into(),
        timestamp: o["timestamp"].as_i64(),
        amount: o["amount"].as_str().map(String::from),
        asset: o["asset"].as_str().map(String::from),
    })).collect());
    Some((v["total"] == 0, rows))
}

/// The rows that an answer lists: none when its total is zero, else its rows array.
pub open spec fn listed_items(answer: (bool, Option<Seq<IncomeItemView>>)) -> Option<Seq<IncomeItemView>> {
    if answer.0 {
        Some(seq![])
    } else {
        answer.1
    }
}

/// A transfer that counts: its status is `CONFIRMED`.
pub open spec fn is_confirmed(i: IncomeItemView) -> bool {
    i.status == "CONFIRMED"@
}

/// The confirmed rows, in order.
pub open spec fn confirmed_items(items: Seq<IncomeItemView>) -> Seq<IncomeItemView>
    decreases items.len(),
{
    if items.len() == 0 {
        seq![]
    } else if is_confirmed(items.last()) {
        confirmed_items(items.drop_last()).push(items.last())
    } else {
        confirmed_items(items.drop_last())
    }
}

/// Every confirmed row has its time, amount and asset.
pub open spec fn items_complete(items: Seq<IncomeItemView>) -> bool {
    forall|i: int| 0 <= i < items.len() && is_confirmed(#[trigger] items[i]) ==> {
        &&& items[i].timestamp is Some
        &&& items[i].amount is Some
        &&& items[i].asset is Some
    }
}

/// The entry shows the row, and marks it as within the day when it is no
/// older than `day_start`.
pub open spec fn shows_item(e: IncomeEntry, i: IncomeItemView, day_start: i64) -> bool {
    &&& i.timestamp == Some(e.time)
    &&& i.amount == Some(e.amount@)
    &&& i.asset == Some(e.asset@)
    &&& e.within_day == (e.time >= day_start)
}

/// The entries show the confirmed rows in order, marked against `day_start`.
pub open spec fn reports_items(es: Seq<IncomeEntry>, items: Seq<IncomeItemView>, day_start: i64) -> bool {
    &&& es.len() == confirmed_items(items).len()
    &&& forall|j: int| 0 <= j < es.len() ==> shows_item(#[trigger] es[j], confirmed_items(items)[j], day_start)
}

fn mark_transfers(text: &str, day_start: i64, Ghost(day_end): Ghost<int>) -> (r: Option<Vec<IncomeEntry>>)
    ensures
        r is Some <==> (json_incomes(text@) matches Some(answer) && listed_items(answer) matches Some(items)
            && items_complete(items)),
        r matches Some(es) ==> (json_incomes(text@) matches Some(answer) && listed_items(answer) matches Some(items)
            && reports_items(es@, items, day_start)),
        r matches Some(es) ==> forall|j: int| 0 <= j < es@.len() ==> (#[trigger] es@[j]).day_end@ == day_end,
{
    let parsed = parse_incomes(text);
    let (zero, rows) = match parsed {
        Some(answer) => answer,
        None => return None,
    };
    if zero {
        let es: Vec<IncomeEntry> = Vec::new();
        assert(confirmed_items(Seq::<IncomeItemView>::empty()) =~= Seq::<IncomeItemView>::empty());
        return Some(es);
    }
    let items = match rows {
        Some(items) => items,
        None => return None,
    };
    let ghost vs = items@.map_values(|i: IncomeItem| i@);
    assert(json_incomes(text@) == Some((false, Some(vs))));
    let mut entries: Vec<IncomeEntry> = Vec::new();
    let mut k: usize = 0;
    assert(vs.subrange(0, 0) =~= Seq::<IncomeItemView>::empty());
    while k < items.len()
        invariant
            k <= items@.len(),
            vs == items@.map_values(|i: IncomeItem| i@),
            json_incomes(text@) == Some((false, Some(vs))),
            items_complete(vs.subrange(0, k as int)),
            reports_items(entries@, vs.subrange(0, k as int), day_start),
            forall|j: int| 0 <= j < entries@.len() ==> (#[trigger] entries@[j]).day_end@ == day_end,
        decreases items@.len() - k,
    {
        proof {
            assert(vs.subrange(0, k + 1).drop_last() =~= vs.subrange(0, k as int));
            assert(vs.subrange(0, k + 1).last() == vs[k as int]);
        }
        let item = &items[k];
        if same_text(item.status.as_str(), "CONFIRMED") {
            match (&item.timestamp, &item.amount, &item.asset) {
                (Some(t), Some(a), Some(s)) => {
                    let e = IncomeEntry { time: *t, amount: a.clone(), asset: s.clone(), within_day: *t >= day_start, day_end: Ghost(day_end) };
                    let ghost before = entries@;
                    entries.push(e);
                    proof {
                        let pre = vs.subrange(0, k + 1);
                        assert forall|j: int| 0 <= j < entries@.len() implies shows_item(#[trigger] entries@[j], confirmed_items(pre)[j], day_start) by {
                            if j < before.len() {
                                assert(entries@[j] == before[j]);
                            }
                        }
                        assert forall|j: int| 0 <= j < pre.len() && is_confirmed(#[trigger] pre[j]) implies {
                            &&& pre[j].timestamp is Some
                            &&& pre[j].amount is Some
                            &&& pre[j].asset is Some
                        } by {
                            if j < k {
                                assert(pre[j] == vs.subrange(0, k as int)[j]);
                            }
                        }
                    }
                },
                _ => {
                    proof {
                        let full = vs;
                        assert(is_confirmed(full[k as int]));
                        assert(!items_complete(full));
                        assert(listed_items(json_incomes(text@).unwrap()) == Some(full));
                    }
                    return None;
                },
            }
        } else {
            proof {
                let pre = vs.subrange(0, k + 1);
                assert forall|j: int| 0 <= j < pre.len() && is_confirmed(#[trigger] pre[j]) implies {
                    &&& pre[j].timestamp is Some
                    &&& pre[j].amount is Some
                    &&& pre[j].asset is Some
                } by {
                    assert(pre[j] == vs.subrange(0, k as int)[j]);
                }
            }
        }
        k = k + 1;
    }
    assert(vs.subrange(0, vs.len() as int) =~= vs);
    Some(entries)
}

/// The confirmed transfers of a transfer-history answer, each marked as
/// within the day from `day_start` or not. `None` when the text is not JSON,
/// lists no rows array while its total is not zero, or a confirmed row lacks
/// its time, amount or asset.
pub fn transfers_report(text: &str, day_start: i64) -> (r: Option<Vec<IncomeEntry>>)
    ensures
        r is Some <==> (json_incomes(text@) matches Some(answer) && listed_items(answer) matches Some(items)
            && items_complete(items)),
        r matches Some(es) ==> (json_incomes(text@) matches Some(answer) && listed_items(answer) matches Some(items)
            && reports_items(es@, items, day_start)),
        r matches Some(es) ==> forall|j: int| 0 <= j < es@.len() ==> (#[trigger] es@[j]).day_end@ == day_start + DAY_MILLIS,
{
    mark_transfers(text, day_start, Ghost(day_start + DAY_MILLIS))
}

/// The confirmed transfers of a transfer-history answer, marked against the
/// day that ends now by the local clock.
pub fn recent_transfers_report(text: &str) -> (r: Option<Vec<IncomeEntry>>)
    ensures
        r is Some <==> (json_incomes(text@) matches Some(answer) && listed_items(answer) matches Some(items)
            && items_complete(items)),
        r matches Some(es) ==> exists|now: int|
            -clock_bound() <= now <= clock_bound() && (json_incomes(text@) matches Some(answer) && listed_items(
                answer,
            ) matches Some(items) && reports_items(es@, items, #[trigger] day_before(now))),
        r matches Some(es) ==> forall|j: int| 0 <= j < es@.len() ==> {
            &&& -clock_bound() <= (#[trigger] es@[j]).day_end@ <= clock_bound()
            &&& es@[j].day_end@ == es@[0].day_end@
            &&& es@[j].within_day == (es@[j].time >= es@[j].day_end@ - DAY_MILLIS)
        },
{
    let now = local_now_millis();
    let day_start = now - DAY_MILLIS;
    let r = mark_transfers(text, day_start, Ghost(now as int));
    assert(day_before(now as int) == day_start);
    proof {
        if r is Some {
            let es = r.unwrap();
            let items = listed_items(json_incomes(text@).unwrap()).unwrap();
            assert forall|j: int| 0 <= j < es@.len() implies es@[j].within_day == (es@[j].time >= es@[j].day_end@
                - DAY_MILLIS) by {
                assert(shows_item(es@[j], confirmed_items(items)[j], day_start));
            }
        }
    }
    r
}

/// A transfer of the current day's report is marked as within the day
/// exactly when it is at most one day (86,400,000 ms) older than the clock
/// reading the day ends at.
pub proof fn law_transfer_day_is_one_day(e: IncomeEntry, item: IncomeItemView, now: int)
    requires
        -clock_bound() <= now <= clock_bound(),
        shows_item(e, item, day_before(now)),
    ensures
        e.within_day <==> e.time + 86_400_000 >= now,
        item.timestamp == Some(e.time),
{
}

} // verus!
