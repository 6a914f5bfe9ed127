//! Report rows built from the exchange's account data: positions, open
//! orders, assets and transfers, and the symbols that prices are asked for.

use vstd::prelude::*;
use crate::clock::{clock_bound, format_utc_millis, local_now_millis, utc_time_text};
use crate::params::same_text;
use crate::queries::concat2;
use crate::text::{decimal_digits, u64_to_decimal};
use vstd::string::StringSliceAdditionalSpecFns;

verus! {

/// A position as the account endpoints report it.
pub struct PositionRecord {
    pub symbol: String,
    pub position_amt: String,
    /// Whether the amount, read as a number, is not zero.
    pub amount_nonzero: bool,
    pub update_time: i64,
    pub position_side: String,
    pub entry_price: String,
    pub leverage: String,
    pub initial_margin: String,
    pub unrealized_profit: String,
}

/// A row of the positions report.
pub struct PositionRow {
    pub symbol: String,
    pub position_amt: String,
    pub time: String,
    pub position_side: String,
    pub entry_price: String,
    pub leverage: String,
    pub mark_price: String,
    pub unrealized_profit: String,
    pub id: String,
}

/// The positions that are reported: those with a non-zero amount, in order.
pub open spec fn open_positions(recs: Seq<PositionRecord>) -> Seq<PositionRecord>
    decreases recs.len(),
{
    if recs.len() == 0 {
        seq![]
    } else if recs.last().amount_nonzero {
        open_positions(recs.drop_last()).push(recs.last())
    } else {
        open_positions(recs.drop_last())
    }
}

/// The fields of a position that its report row shows.
pub struct PositionEntryView {
    pub symbol: Seq<char>,
    pub position_amt: Seq<char>,
    pub update_time: i64,
    pub position_side: Seq<char>,
    pub entry_price: Seq<char>,
    pub leverage: Seq<char>,
    pub initial_margin: Seq<char>,
    pub unrealized_profit: Seq<char>,
}

/// The fields of a position record other than its non-zero flag.
pub open spec fn entry_of(rec: PositionRecord) -> PositionEntryView {
    PositionEntryView {
        symbol: rec.symbol@,
        position_amt: rec.position_amt@,
        update_time: rec.update_time,
        position_side: rec.position_side@,
        entry_price: rec.entry_price@,
        leverage: rec.leverage@,
        initial_margin: rec.initial_margin@,
        unrealized_profit: rec.unrealized_profit@,
    }
}

/// The row shows the position: its fields, the update time as UTC calendar
/// text, the initial margin in the `mark_price` column, and the account id.
pub open spec fn position_row_shows(row: PositionRow, e: PositionEntryView, id: u64) -> bool {
    &&& row.symbol@ == e.symbol
    &&& row.position_amt@ == e.position_amt
    &&& Some(row.time@) == utc_time_text(e.update_time as int)
    &&& row.position_side@ == e.position_side
    &&& row.entry_price@ == e.entry_price
    &&& row.leverage@ == e.leverage
    &&& row.mark_price@ == e.initial_margin
    &&& row.unrealized_profit@ == e.unrealized_profit
    &&& row.id@ == decimal_digits(id as nat)
}

/// The row shows the position record.
pub open spec fn shows_position(row: PositionRow, rec: PositionRecord, id: u64) -> bool {
    position_row_shows(row, entry_of(rec), id)
}

/// The items of `s` whose flag in `keep` is set, in order.
pub open spec fn kept<T>(s: Seq<T>, keep: Seq<bool>) -> Seq<T>
    decreases s.len(),
{
    if s.len() == 0 {
        seq![]
    } else if keep[s.len() - 1] {
        kept(s.drop_last(), keep.drop_last()).push(s.last())
    } else {
        kept(s.drop_last(), keep.drop_last())
    }
}

/// Every reported position has an update time that chrono can represent.
pub open spec fn position_times_representable(recs: Seq<PositionRecord>) -> bool {
    forall|i: int| 0 <= i < recs.len() && recs[i].amount_nonzero ==> (#[trigger] utc_time_text(
        recs[i].update_time as int,
    )) is Some
}

proof fn lemma_open_positions_prefix(recs: Seq<PositionRecord>, i: int)
    requires
        0 <= i < recs.len(),
    ensures
        open_positions(recs.subrange(0, i + 1)) == if recs[i].amount_nonzero {
            open_positions(recs.subrange(0, i)).push(recs[i])
        } else {
            open_positions(recs.subrange(0, i))
        },
{
    assert(recs.subrange(0, i + 1).drop_last() =~= recs.subrange(0, i));
}

/// The positions report of account `id`: a row for each position with a
/// non-zero amount, in order.
pub fn position_rows(records: &Vec<PositionRecord>, id: u64) -> (rows: Vec<PositionRow>)
    requires
        position_times_representable(records@),
    ensures
        rows@.len() == open_positions(records@).len(),
        forall|i: int| 0 <= i < rows@.len() ==> shows_position(#[trigger] rows@[i], open_positions(records@)[i], id),
{
    let mut rows: Vec<PositionRow> = Vec::new();
    let mut i: usize = 0;
    assert(records@.subrange(0, 0) =~= Seq::<PositionRecord>::empty());
    while i < records.len()
        invariant
            i <= records@.len(),
            position_times_representable(records@),
            rows@.len() == open_positions(records@.subrange(0, i as int)).len(),
            forall|j: int| 0 <= j < rows@.len() ==> shows_position(#[trigger] rows@[j], open_positions(records@.subrange(0, i as int))[j], id),
        decreases records@.len() - i,
    {
        proof {
            lemma_open_positions_prefix(records@, i as int);
        }
        let rec = &records[i];
        if rec.amount_nonzero {
            proof {
                assert(utc_time_text(records@[i as int].update_time as int) is Some);
            }
            let time = format_utc_millis(rec.update_time).unwrap();
            let row = PositionRow {
                symbol: rec.symbol.clone(),
                position_amt: rec.position_amt.clone(),
                time,
                position_side: rec.position_side.clone(),
                entry_price: rec.entry_price.clone(),
                leverage: rec.leverage.clone(),
                mark_price: rec.initial_margin.clone(),
                unrealized_profit: rec.unrealized_profit.clone(),
                id: u64_to_decimal(id),
            };
            let ghost before = rows@;
            rows.push(row);
            proof {
                assert forall|j: int| 0 <= j < rows@.len() implies shows_position(#[trigger] rows@[j], open_positions(records@.subrange(0, i + 1))[j], id) by {
                    if j < before.len() {
                        assert(rows@[j] == before[j]);
                    }
                }
            }
        }
        i = i + 1;
    }
    assert(records@.subrange(0, records@.len() as int) =~= records@);
    rows
}

/// Checks that every reported position's time can be formatted, then builds
/// the report; `None` when one cannot (where the report cannot be made).
pub fn checked_position_rows(records: &Vec<PositionRecord>, id: u64) -> (r: Option<Vec<PositionRow>>)
    ensures
        r is Some <==> position_times_representable(records@),
        r matches Some(rows) ==> rows@.len() == open_positions(records@).len() && forall|i: int|
            0 <= i < rows@.len() ==> shows_position(#[trigger] rows@[i], open_positions(records@)[i], id),
{
    let mut i: usize = 0;
    while i < records.len()
        invariant
            i <= records@.len(),
            forall|j: int| 0 <= j < i && records@[j].amount_nonzero ==> (#[trigger] utc_time_text(
                records@[j].update_time as int,
            )) is Some,
        decreases records@.len() - i,
    {
        if records[i].amount_nonzero {
            if format_utc_millis(records[i].update_time).is_none() {
                return None;
            }
        }
        i = i + 1;
    }
    Some(position_rows(records, id))
}

/// An open order as the open-orders endpoint reports it.
pub struct OpenOrderRecord {
    pub time: i64,
    pub symbol: String,
    pub order_type: String,
    pub side: String,
    pub price: String,
    pub orig_qty: String,
    pub executed_qty: String,
    pub reduce_only: bool,
}

/// A row of the open-orders report.
pub struct OpenOrderRow {
    pub time: String,
    pub name: String,
    pub symbol: String,
    pub type_label: String,
    pub side: String,
    pub price: String,
    pub orig_qty: String,
    pub executed_qty: String,
    pub reduce_only: bool,
}

/// The label shown for an order type; unknown types get an empty label.
/// (`STOP_MARKET` is shown with the same label as `TAKE_PROFIT_MARKET`.)
pub open spec fn order_type_text(t: Seq<char>) -> Seq<char> {
    if t == "LIMIT"@ {
        "限价单"@
    } else if t == "MARKET"@ {
        "市价单"@
    } else if t == "STOP"@ {
        "止损限价单"@
    } else if t == "STOP_MARKET"@ {
        "止盈市价单"@
    } else if t == "TAKE_PROFIT"@ {
        "止盈限价单"@
    } else if t == "TAKE_PROFIT_MARKET"@ {
        "止盈市价单"@
    } else if t == "TRAILING_STOP_MARKET"@ {
        "跟踪止损单"@
    } else {
        ""@
    }
}

/// The label shown for an order type.
pub fn order_type_label(t: &str) -> (label: &'static str)
    ensures
        label@ == order_type_text(t@),
{
    if same_text(t, "LIMIT") {
        "限价单"
    } else if same_text(t, "MARKET") {
        "市价单"
    } else if same_text(t, "STOP") {
        "止损限价单"
    } else if same_text(t, "STOP_MARKET") {
        "止盈市价单"
    } else if same_text(t, "TAKE_PROFIT") {
        "止盈限价单"
    } else if same_text(t, "TAKE_PROFIT_MARKET") {
        "止盈市价单"
    } else if same_text(t, "TRAILING_STOP_MARKET") {
        "跟踪止损单"
    } else {
        ""
    }
}

/// The mathematical content of an [`OpenOrderRecord`].
pub struct OpenOrderView {
    pub time: i64,
    pub symbol: Seq<char>,
    pub order_type: Seq<char>,
    pub side: Seq<char>,
    pub price: Seq<char>,
    pub orig_qty: Seq<char>,
    pub executed_qty: Seq<char>,
    pub reduce_only: bool,
}

impl View for OpenOrderRecord {
    type V = OpenOrderView;

    open spec fn view(&self) -> OpenOrderView {
        OpenOrderView {
            time: self.time,
            symbol: self.symbol@,
            order_type: self.order_type@,
            side: self.side@,
            price: self.price@,
            orig_qty: self.orig_qty@,
            executed_qty: self.executed_qty@,
            reduce_only: self.reduce_only,
        }
    }
}

/// The row shows the order of account `name`: its time as UTC calendar
/// text, its type as a label, and its other fields as they are.
pub open spec fn order_row_shows(row: OpenOrderRow, o: OpenOrderView, name: Seq<char>) -> bool {
    &&& Some(row.time@) == utc_time_text(o.time as int)
    &&& row.name@ == name
    &&& row.symbol@ == o.symbol
    &&& row.type_label@ == order_type_text(o.order_type)
    &&& row.side@ == o.side
    &&& row.price@ == o.price
    &&& row.orig_qty@ == o.orig_qty
    &&& row.executed_qty@ == o.executed_qty
    &&& row.reduce_only == o.reduce_only
}

/// The row shows the order record of account `name`.
pub open spec fn shows_order(row: OpenOrderRow, rec: OpenOrderRecord, name: Seq<char>) -> bool {
    order_row_shows(row, rec@, name)
}

/// Every order's time can be represented by chrono.
pub open spec fn order_view_times_representable(os: Seq<OpenOrderView>) -> bool {
    forall|i: int| 0 <= i < os.len() ==> (#[trigger] utc_time_text(os[i].time as int)) is Some
}

/// Every order's time can be represented by chrono.
pub open spec fn order_times_representable(recs: Seq<OpenOrderRecord>) -> bool {
    forall|i: int| 0 <= i < recs.len() ==> (#[trigger] utc_time_text(recs[i].time as int)) is Some
}

/// The open-orders report of account `name`: a row for each order, in order.
pub fn open_order_rows(name: &str, records: &Vec<OpenOrderRecord>) -> (rows: Vec<OpenOrderRow>)
    requires
        order_times_representable(records@),
    ensures
        rows@.len() == records@.len(),
        forall|i: int| 0 <= i < rows@.len() ==> shows_order(#[trigger] rows@[i], records@[i], name@),
{
    let mut rows: Vec<OpenOrderRow> = Vec::new();
    let mut i: usize = 0;
    while i < records.len()
        invariant
            i <= records@.len(),
            order_times_representable(records@),
            rows@.len() == i,
            forall|j: int| 0 <= j < i ==> shows_order(#[trigger] rows@[j], records@[j], name@),
        decreases records@.len() - i,
    {
        let rec = &records[i];
        proof {
            assert(utc_time_text(records@[i as int].time as int) is Some);
        }
        let time = format_utc_millis(rec.time).unwrap();
        let row = OpenOrderRow {
            time,
            name: String::from_str(name),
            symbol: rec.symbol.clone(),
            type_label: String::from_str(order_type_label(rec.order_type.as_str())),
            side: rec.side.clone(),
            price: rec.price.clone(),
            orig_qty: rec.orig_qty.clone(),
            executed_qty: rec.executed_qty.clone(),
            reduce_only: rec.reduce_only,
        };
        let ghost before = rows@;
        rows.push(row);
        proof {
            assert forall|j: int| 0 <= j < i + 1 implies shows_order(#[trigger] rows@[j], records@[j], name@) by {
                if j < i {
                    assert(rows@[j] == before[j]);
                }
            }
        }
        i = i + 1;
    }
    rows
}

/// Checks that every order's time can be formatted, then builds the report;
/// `None` when one cannot.
pub fn checked_open_order_rows(name: &str, records: &Vec<OpenOrderRecord>) -> (r: Option<Vec<OpenOrderRow>>)
    ensures
        r is Some <==> order_times_representable(records@),
        r matches Some(rows) ==> rows@.len() == records@.len() && forall|i: int|
            0 <= i < rows@.len() ==> shows_order(#[trigger] rows@[i], records@[i], name@),
{
    let mut i: usize = 0;
    while i < records.len()
        invariant
            i <= records@.len(),
            forall|j: int| 0 <= j < i ==> (#[trigger] utc_time_text(records@[j].time as int)) is Some,
        decreases records@.len() - i,
    {
        if format_utc_millis(records[i].time).is_none() {
            return None;
        }
        i = i + 1;
    }
    Some(open_order_rows(name, records))
}

/// An asset balance as the account endpoint reports it.
pub struct AssetRecord {
    pub asset: String,
    pub wallet_balance: String,
    /// Whether the wallet balance, read as a number, is not zero.
    pub balance_nonzero: bool,
    pub unrealized_profit: String,
    pub margin_balance: String,
    pub available_balance: String,
}

/// A row of the assets report.
pub struct AssetRow {
    pub symbol: String,
    pub wallet_balance: String,
    pub unrealized_profit: String,
    pub margin_balance: String,
    pub available_balance: String,
    pub id: String,
}

/// The assets that are reported: those with a non-zero wallet balance, in order.
pub open spec fn held_assets(recs: Seq<AssetRecord>) -> Seq<AssetRecord>
    decreases recs.len(),
{
    if recs.len() == 0 {
        seq![]
    } else if recs.last().balance_nonzero {
        held_assets(recs.drop_last()).push(recs.last())
    } else {
        held_assets(recs.drop_last())
    }
}

/// The fields of an asset balance that its report row shows.
pub struct AssetEntryView {
    pub asset: Seq<char>,
    pub wallet_balance: Seq<char>,
    pub unrealized_profit: Seq<char>,
    pub margin_balance: Seq<char>,
    pub available_balance: Seq<char>,
}

/// The fields of an asset record other than its non-zero flag.
pub open spec fn asset_entry_of(rec: AssetRecord) -> AssetEntryView {
    AssetEntryView {
        asset: rec.asset@,
        wallet_balance: rec.wallet_balance@,
        unrealized_profit: rec.unrealized_profit@,
        margin_balance: rec.margin_balance@,
        available_balance: rec.available_balance@,
    }
}

/// The row shows the asset of account `id`.
pub open spec fn asset_row_shows(row: AssetRow, e: AssetEntryView, id: u64) -> bool {
    &&& row.symbol@ == e.asset
    &&& row.wallet_balance@ == e.wallet_balance
    &&& row.unrealized_profit@ == e.unrealized_profit
    &&& row.margin_balance@ == e.margin_balance
    &&& row.available_balance@ == e.available_balance
    &&& row.id@ == decimal_digits(id as nat)
}

/// The row shows the asset record of account `id`.
pub open spec fn shows_asset(row: AssetRow, rec: AssetRecord, id: u64) -> bool {
    asset_row_shows(row, asset_entry_of(rec), id)
}

/// The assets report of account `id`: a row for each asset with a non-zero
/// wallet balance, in order.
pub fn asset_rows(records: &Vec<AssetRecord>, id: u64) -> (rows: Vec<AssetRow>)
    ensures
        rows@.len() == held_assets(records@).len(),
        forall|i: int| 0 <= i < rows@.len() ==> shows_asset(#[trigger] rows@[i], held_assets(records@)[i], id),
{
    let mut rows: Vec<AssetRow> = Vec::new();
    let mut i: usize = 0;
    assert(records@.subrange(0, 0) =~= Seq::<AssetRecord>::empty());
    while i < records.len()
        invariant
            i <= records@.len(),
            rows@.len() == held_assets(records@.subrange(0, i as int)).len(),
            forall|j: int| 0 <= j < rows@.len() ==> shows_asset(#[trigger] rows@[j], held_assets(records@.subrange(0, i as int))[j], id),
        decreases records@.len() - i,
    {
        proof {
            assert(records@.subrange(0, i + 1).drop_last() =~= records@.subrange(0, i as int));
        }
        let rec = &records[i];
        if rec.balance_nonzero {
            let row = AssetRow {
                symbol: rec.asset.clone(),
                wallet_balance: rec.wallet_balance.clone(),
                unrealized_profit: rec.unrealized_profit.clone(),
                margin_balance: rec.margin_balance.clone(),
                available_balance: rec.available_balance.clone(),
                id: u64_to_decimal(id),
            };
            let ghost before = rows@;
            rows.push(row);
            proof {
                assert forall|j: int| 0 <= j < rows@.len() implies shows_asset(#[trigger] rows@[j], held_assets(records@.subrange(0, i + 1))[j], id) by {
                    if j < before.len() {
                        assert(rows@[j] == before[j]);
                    }
                }
            }
        }
        i = i + 1;
    }
    assert(records@.subrange(0, records@.len() as int) =~= records@);
    rows
}

/// A transfer as the transfer-history endpoint reports it.
pub struct IncomeRecord {
    pub status: String,
    pub timestamp: i64,
    pub amount: String,
    pub asset: String,
}

/// A confirmed transfer, and whether it falls within the last day.
pub struct IncomeEntry {
    pub time: i64,
    pub amount: String,
    pub asset: String,
    pub within_day: bool,
    /// The instant (milliseconds) at which the day that `within_day` refers
    /// to ends: the clock reading for a report of the current day.
    pub day_end: Ghost<int>,
}

/// The transfers that count: those whose status is `CONFIRMED`, in order.
pub open spec fn confirmed(recs: Seq<IncomeRecord>) -> Seq<IncomeRecord>
    decreases recs.len(),
{
    if recs.len() == 0 {
        seq![]
    } else if recs.last().status@ == "CONFIRMED"@ {
        confirmed(recs.drop_last()).push(recs.last())
    } else {
        confirmed(recs.drop_last())
    }
}

/// The entry shows the transfer, and marks it as within the day when it is
/// no older than `day_start`.
pub open spec fn shows_income(e: IncomeEntry, rec: IncomeRecord, day_start: i64) -> bool {
    &&& e.time == rec.timestamp
    &&& e.amount@ == rec.amount@
    &&& e.asset@ == rec.asset@
    &&& e.within_day == (rec.timestamp >= day_start)
}

/// The entries show the confirmed transfers in order, marked against `day_start`.
pub open spec fn reports_incomes(entries: Seq<IncomeEntry>, recs: Seq<IncomeRecord>, day_start: i64) -> bool {
    &&& entries.len() == confirmed(recs).len()
    &&& forall|i: int| 0 <= i < entries.len() ==> shows_income(#[trigger] entries[i], confirmed(recs)[i], day_start)
}

fn mark_incomes(records: &Vec<IncomeRecord>, day_start: i64, Ghost(day_end): Ghost<int>) -> (entries: Vec<IncomeEntry>)
    ensures
        reports_incomes(entries@, records@, day_start),
        forall|j: int| 0 <= j < entries@.len() ==> (#[trigger] entries@[j]).day_end@ == day_end,
{
    let mut entries: Vec<IncomeEntry> = Vec::new();
    let mut i: usize = 0;
    assert(records@.subrange(0, 0) =~= Seq::<IncomeRecord>::empty());
    while i < records.len()
        invariant
            i <= records@.len(),
            entries@.len() == confirmed(records@.subrange(0, i as int)).len(),
            forall|j: int| 0 <= j < entries@.len() ==> (#[trigger] entries@[j]).day_end@ == day_end,
            forall|j: int| 0 <= j < entries@.len() ==> shows_income(#[trigger] entries@[j], confirmed(records@.subrange(0, i as int))[j], day_start),
        decreases records@.len() - i,
    {
        proof {
            assert(records@.subrange(0, i + 1).drop_last() =~= records@.subrange(0, i as int));
        }
        let rec = &records[i];
        if same_text(rec.status.as_str(), "CONFIRMED") {
            let e = IncomeEntry {
                time: rec.timestamp,
                amount: rec.amount.clone(),
                asset: rec.asset.clone(),
                within_day: rec.timestamp >= day_start,
                day_end: Ghost(day_end),
            };
            let ghost before = entries@;
            entries.push(e);
            proof {
                assert forall|j: int| 0 <= j < entries@.len() implies shows_income(#[trigger] entries@[j], confirmed(records@.subrange(0, i + 1))[j], day_start) by {
                    if j < before.len() {
                        assert(entries@[j] == before[j]);
                    }
                }
            }
        }
        i = i + 1;
    }
    assert(records@.subrange(0, records@.len() as int) =~= records@);
    entries
}

/// The confirmed transfers, each marked as within the day from `day_start` or not.
pub fn confirmed_incomes(records: &Vec<IncomeRecord>, day_start: i64) -> (entries: Vec<IncomeEntry>)
    ensures
        reports_incomes(entries@, records@, day_start),
        forall|j: int| 0 <= j < entries@.len() ==> (#[trigger] entries@[j]).day_end@ == day_start + DAY_MILLIS,
{
    mark_incomes(records, day_start, Ghost(day_start + DAY_MILLIS))
}

/// One day in milliseconds.
pub const DAY_MILLIS: i64 = 86_400_000;

/// The start of the day that ends at `now`: one day earlier.
pub open spec fn day_before(now: int) -> i64 {
    (now - DAY_MILLIS) as i64
}

/// The confirmed transfers, marked against the day that ends now by the
/// local clock: within the day when no older than one day before the
/// clock's reading.
pub fn recent_income_entries(records: &Vec<IncomeRecord>) -> (entries: Vec<IncomeEntry>)
    ensures
        exists|now: int|
            -clock_bound() <= now <= clock_bound() && reports_incomes(entries@, records@, #[trigger] day_before(now)),
        forall|j: int| 0 <= j < entries@.len() ==> {
            &&& -clock_bound() <= (#[trigger] entries@[j]).day_end@ <= clock_bound()
            &&& entries@[j].day_end@ == entries@[0].day_end@
            &&& entries@[j].within_day == (entries@[j].time >= entries@[j].day_end@ - DAY_MILLIS)
        },
{
    let now = local_now_millis();
    let day_start = now - DAY_MILLIS;
    let entries = mark_incomes(records, day_start, Ghost(now as int));
    assert(day_before(now as int) == day_start);
    proof {
        assert forall|j: int| 0 <= j < entries@.len() implies entries@[j].within_day == (entries@[j].time
            >= entries@[j].day_end@ - DAY_MILLIS) by {
            assert(shows_income(entries@[j], confirmed(records@)[j], day_start));
        }
    }
    entries
}

/// The pair quoted in USDT for an asset: `assetUSDT`.
pub fn usdt_pair(asset: &str) -> (pair: String)
    ensures
        pair@ == asset@ + "USDT"@,
{
    concat2(asset, "USDT")
}

/// The pair quoted in USDT for the base of a contract symbol: the symbol
/// without its last four bytes, followed by `USDT`.
pub fn contract_usdt_pair(symbol: &str) -> (pair: String)
    requires
        4 <= symbol.spec_bytes().len() <= usize::MAX,
        vstd::utf8::is_char_boundary(symbol.spec_bytes(), symbol.spec_bytes().len() - 4),
    ensures
        exists|base: Seq<char>| {
            &&& pair@ == base + "USDT"@
            &&& vstd::utf8::encode_utf8(base) == symbol.spec_bytes().subrange(0, symbol.spec_bytes().len() - 4)
        },
{
    let cut = symbol.len() - 4;
    let (base, _) = symbol.split_at(cut);
    let pair = concat2(base, "USDT");
    proof {
        assert(base.spec_bytes() == vstd::utf8::encode_utf8(base@));
        assert(pair@ == base@ + "USDT"@);
    }
    pair
}

/// How an asset of a futures account enters the account summary.
#[derive(PartialEq, Eq, Structural, Clone, Copy, Debug)]
pub struct AssetRoles {
    /// Its price in USDT is fetched and its margin balance counted at that price.
    pub priced: bool,
    /// Its margin balance is also counted as it is (a dollar stablecoin).
    pub at_face_value: bool,
    /// Its balance and profit enter the wallet and equity totals.
    pub in_equity: bool,
}

/// The roles of an asset named `symbol` in the account summary. The price
/// test excludes no name (each name differs from one of the four
/// stablecoins), so every asset is priced.
pub open spec fn roles_of(symbol: Seq<char>) -> AssetRoles {
    AssetRoles {
        priced: symbol != "USDT"@ || symbol != "USDP"@ || symbol != "USDC"@ || symbol != "BUSD"@,
        at_face_value: symbol == "USDT"@ || symbol == "USDC"@ || symbol == "BUSD"@,
        in_equity: !(symbol == "BNB"@ || symbol == "ETH"@),
    }
}

/// The roles of an asset in the account summary.
pub fn asset_roles(symbol: &str) -> (r: AssetRoles)
    ensures
        r == roles_of(symbol@),
{
    let priced = !same_text(symbol, "USDT") || !same_text(symbol, "USDP") || !same_text(symbol, "USDC")
        || !same_text(symbol, "BUSD");
    let at_face_value = same_text(symbol, "USDT") || same_text(symbol, "USDC") || same_text(symbol, "BUSD");
    let in_equity = !(same_text(symbol, "BNB") || same_text(symbol, "ETH"));
    AssetRoles { priced, at_face_value, in_equity }
}

/// Every asset is priced, whatever its name.
pub proof fn law_every_asset_is_priced(symbol: Seq<char>)
    ensures
        roles_of(symbol).priced,
{
    reveal_strlit("USDT");
    reveal_strlit("USDP");
    if symbol == "USDT"@ {
        assert("USDT"@[3] != "USDP"@[3]);
    }
}

/// Whether an asset of a portfolio-margin account enters its equity: every asset but `BTC`.
pub fn in_portfolio_equity(asset: &str) -> (b: bool)
    ensures
        b == (asset@ != "BTC"@),
{
    !same_text(asset, "BTC")
}

/// A row of the open-orders report shows each field of its order in the
/// column of the same name: the order's side in the side column, its price,
/// original and executed quantities and reduce-only flag as they are, the
/// account's name, the label of its type, and its time as UTC calendar text.
pub proof fn law_order_row_columns(row: OpenOrderRow, o: OpenOrderView, name: Seq<char>)
    requires
        order_row_shows(row, o, name),
    ensures
        row.side@ == o.side,
        row.symbol@ == o.symbol,
        row.price@ == o.price,
        row.orig_qty@ == o.orig_qty,
        row.executed_qty@ == o.executed_qty,
        row.reduce_only == o.reduce_only,
        row.name@ == name,
        row.type_label@ == order_type_text(o.order_type),
        utc_time_text(o.time as int) == Some(row.time@),
{
}

/// A row of the positions report shows each field of its position in the
/// column of the same name (the entry price in the entry-price column), the
/// initial margin in the mark-price column, the update time as UTC calendar
/// text, and the account id in decimal.
pub proof fn law_position_row_columns(row: PositionRow, e: PositionEntryView, id: u64)
    requires
        position_row_shows(row, e, id),
    ensures
        row.symbol@ == e.symbol,
        row.position_amt@ == e.position_amt,
        row.position_side@ == e.position_side,
        row.entry_price@ == e.entry_price,
        row.leverage@ == e.leverage,
        row.mark_price@ == e.initial_margin,
        row.unrealized_profit@ == e.unrealized_profit,
        utc_time_text(e.update_time as int) == Some(row.time@),
        row.id@ == decimal_digits(id as nat),
{
}

/// A row of the assets report shows each field of its asset in the column of
/// the same name, and the account id in decimal.
pub proof fn law_asset_row_columns(row: AssetRow, e: AssetEntryView, id: u64)
    requires
        asset_row_shows(row, e, id),
    ensures
        row.symbol@ == e.asset,
        row.wallet_balance@ == e.wallet_balance,
        row.unrealized_profit@ == e.unrealized_profit,
        row.margin_balance@ == e.margin_balance,
        row.available_balance@ == e.available_balance,
        row.id@ == decimal_digits(id as nat),
{
}

/// An entry of the current day's transfers is marked as within the day
/// exactly when it is at most one day (86,400,000 ms) older than the
/// clock reading the day ends at.
pub proof fn law_day_is_one_day(e: IncomeEntry, rec: IncomeRecord, now: int)
    requires
        -clock_bound() <= now <= clock_bound(),
        shows_income(e, rec, day_before(now)),
    ensures
        e.within_day <==> e.time + 86_400_000 >= now,
{
}


/// The label of each order type: a limit order is 限价单, a market order
/// 市价单, a stop order 止损限价单, a stop-market and a take-profit-market
/// order 止盈市价单, a take-profit order 止盈限价单, a trailing-stop order
/// 跟踪止损单, and any other type has an empty label.
pub proof fn law_order_type_labels(t: Seq<char>)
    ensures
        order_type_text("LIMIT"@) == "限价单"@,
        order_type_text("MARKET"@) == "市价单"@,
        order_type_text("STOP"@) == "止损限价单"@,
        order_type_text("STOP_MARKET"@) == "止盈市价单"@,
        order_type_text("TAKE_PROFIT"@) == "止盈限价单"@,
        order_type_text("TAKE_PROFIT_MARKET"@) == "止盈市价单"@,
        order_type_text("TRAILING_STOP_MARKET"@) == "跟踪止损单"@,
        (t != "LIMIT"@ && t != "MARKET"@ && t != "STOP"@ && t != "STOP_MARKET"@ && t != "TAKE_PROFIT"@ && t != "TAKE_PROFIT_MARKET"@ && t != "TRAILING_STOP_MARKET"@) ==> order_type_text(t) == ""@,
{
    reveal_strlit("");
    reveal_strlit("LIMIT");
    reveal_strlit("MARKET");
    reveal_strlit("STOP");
    reveal_strlit("STOP_MARKET");
    reveal_strlit("TAKE_PROFIT");
    reveal_strlit("TAKE_PROFIT_MARKET");
    reveal_strlit("TRAILING_STOP_MARKET");
    reveal_strlit("市价单");
    reveal_strlit("止损限价单");
    reveal_strlit("止盈市价单");
    reveal_strlit("止盈限价单");
    reveal_strlit("跟踪止损单");
    reveal_strlit("限价单");
    assert("LIMIT"@.len() != "MARKET"@.len());
    assert("LIMIT"@.len() != "STOP"@.len());
    assert("LIMIT"@.len() != "STOP_MARKET"@.len());
    assert("LIMIT"@.len() != "TAKE_PROFIT"@.len());
    assert("LIMIT"@.len() != "TAKE_PROFIT_MARKET"@.len());
    assert("LIMIT"@.len() != "TRAILING_STOP_MARKET"@.len());
    assert("MARKET"@.len() != "STOP"@.len());
    assert("MARKET"@.len() != "STOP_MARKET"@.len());
    assert("MARKET"@.len() != "TAKE_PROFIT"@.len());
    assert("MARKET"@.len() != "TAKE_PROFIT_MARKET"@.len());
    assert("MARKET"@.len() != "TRAILING_STOP_MARKET"@.len());
    assert("STOP"@.len() != "STOP_MARKET"@.len());
    assert("STOP"@.len() != "TAKE_PROFIT"@.len());
    assert("STOP"@.len() != "TAKE_PROFIT_MARKET"@.len());
    assert("STOP"@.len() != "TRAILING_STOP_MARKET"@.len());
    assert("STOP_MARKET"@[0] != "TAKE_PROFIT"@[0]);
    assert("STOP_MARKET"@.len() != "TAKE_PROFIT_MARKET"@.len());
    assert("STOP_MARKET"@.len() != "TRAILING_STOP_MARKET"@.len());
    assert("TAKE_PROFIT"@.len() != "TAKE_PROFIT_MARKET"@.len());
    assert("TAKE_PROFIT"@.len() != "TRAILING_STOP_MARKET"@.len());
    assert("TAKE_PROFIT_MARKET"@.len() != "TRAILING_STOP_MARKET"@.len());
}

} // verus!
