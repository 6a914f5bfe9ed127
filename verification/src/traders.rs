//! Trading accounts as the handlers hand them out: indexed by name, and the
//! products a signed-in account may see.

use vstd::prelude::*;
use crate::entries::{distinct_keys, find_entry, keys_of, lemma_lookup_none, lookup_entry};
use crate::models::{Product, SignInProRes, Trader};
use crate::queries::concat2;
use crate::text::{decimal_digits, u64_to_decimal};

verus! {

/// Traders keyed by a string; a later insertion of a key does not replace an earlier one.
pub struct TraderIndex {
    entries: Vec<(String, Trader)>,
}

/// The map that a list of entries denotes when the first entry of a key counts.
pub open spec fn first_entries_map(s: Seq<(String, Trader)>) -> Map<Seq<char>, Trader> {
    Map::new(|k: Seq<char>| lookup_entry(s, k) is Some, |k: Seq<char>| lookup_entry(s, k).unwrap())
}

impl TraderIndex {
    #[verifier::type_invariant]
    spec fn keys_unique(self) -> bool {
        distinct_keys(self.entries@)
    }
}

impl View for TraderIndex {
    type V = Map<Seq<char>, Trader>;

    closed spec fn view(&self) -> Map<Seq<char>, Trader> {
        first_entries_map(self.entries@)
    }
}

/// Traders keyed by name, the last row of a name counting.
pub open spec fn index_by_name(rows: Seq<Trader>) -> Map<Seq<char>, Trader>
    decreases rows.len(),
{
    if rows.len() == 0 {
        Map::empty()
    } else {
        index_by_name(rows.drop_last()).insert(rows.last().name@, rows.last())
    }
}

proof fn lemma_lookup_push(s: Seq<(String, Trader)>, e: (String, Trader), k: Seq<char>)
    ensures
        lookup_entry(s.push(e), k) == if lookup_entry(s, k) is Some {
            lookup_entry(s, k)
        } else if e.0@ == k {
            Some(e.1)
        } else {
            None
        },
    decreases s.len(),
{
    if s.len() > 0 {
        assert(s.push(e).drop_first() =~= s.drop_first().push(e));
        assert(s.push(e)[0] == s[0]);
        lemma_lookup_push(s.drop_first(), e, k);
    } else {
        assert(s.push(e).drop_first() =~= Seq::<(String, Trader)>::empty());
        assert(s.push(e)[0] == e);
        assert(lookup_entry(s.push(e).drop_first(), k) is None);
    }
}

proof fn lemma_index_prepend(x: Trader, q: Seq<Trader>)
    ensures
        index_by_name(seq![x] + q) == if index_by_name(q).dom().contains(x.name@) {
            index_by_name(q)
        } else {
            index_by_name(q).insert(x.name@, x)
        },
    decreases q.len(),
{
    if q.len() == 0 {
        assert((seq![x] + q).drop_last() =~= Seq::<Trader>::empty());
        assert((seq![x] + q).last() == x);
        assert(index_by_name(Seq::<Trader>::empty()) =~= Map::<Seq<char>, Trader>::empty());
        assert(index_by_name(seq![x] + q) =~= Map::<Seq<char>, Trader>::empty().insert(x.name@, x));
    } else {
        let p = q.drop_last();
        assert((seq![x] + q).drop_last() =~= seq![x] + p);
        assert((seq![x] + q).last() == q.last());
        lemma_index_prepend(x, p);
        if index_by_name(q).dom().contains(x.name@) {
            assert(index_by_name(seq![x] + q) =~= index_by_name(q));
        } else {
            assert(index_by_name(seq![x] + q) =~= index_by_name(q).insert(x.name@, x));
        }
    }
}

impl TraderIndex {
    /// The trader stored under `key`.
    pub fn get(&self, key: &str) -> (r: Option<&Trader>)
        ensures
            match r {
                Some(t) => self@.dom().contains(key@) && self@[key@] == *t,
                None => !self@.dom().contains(key@),
            },
    {
        find_entry(&self.entries, key)
    }

    /// The keys and traders, one entry per key.
    pub fn into_entries(self) -> (v: Vec<(String, Trader)>)
        ensures
            first_entries_map(v@) == self@,
            distinct_keys(v@),
    {
        proof {
            use_type_invariant(&self);
        }
        self.entries
    }
}

/// Indexes traders by name; of several rows with one name the last counts,
/// as when they are inserted into a map in order.
pub fn traders_by_name(rows: Vec<Trader>) -> (index: TraderIndex)
    ensures
        index@ == index_by_name(rows@),
{
    let ghost all = rows@;
    let mut rest = rows;
    let mut entries: Vec<(String, Trader)> = Vec::new();
    assert(all.subrange(all.len() as int, all.len() as int) =~= Seq::<Trader>::empty());
    assert(first_entries_map(entries@) =~= Map::<Seq<char>, Trader>::empty());
    while rest.len() > 0
        invariant
            rest@ == all.subrange(0, rest@.len() as int),
            rest@.len() <= all.len(),
            first_entries_map(entries@) == index_by_name(all.subrange(rest@.len() as int, all.len() as int)),
            distinct_keys(entries@),
        decreases rest@.len(),
    {
        let ghost q = all.subrange(rest@.len() as int, all.len() as int);
        let row = rest.pop().unwrap();
        let ghost q2 = all.subrange(rest@.len() as int, all.len() as int);
        proof {
            assert(q2 =~= seq![row] + q);
            lemma_index_prepend(row, q);
        }
        let present = find_entry(&entries, row.name.as_str()).is_some();
        if !present {
            let key = row.name.clone();
            let ghost before = entries@;
            entries.push((key, row));
            proof {
                lemma_lookup_none(before, row.name@);
                assert(keys_of(entries@) =~= keys_of(before).push(row.name@));
                assert forall|k: Seq<char>| #[trigger] lookup_entry(entries@, k) == (if lookup_entry(before, k) is Some {
                    lookup_entry(before, k)
                } else if row.name@ == k {
                    Some(row)
                } else {
                    None
                }) by {
                    lemma_lookup_push(before, (key, row), k);
                }
                assert(first_entries_map(entries@) =~= index_by_name(q2));
            }
        } else {
            assert(first_entries_map(entries@) =~= index_by_name(q2));
        }
    }
    assert(all.subrange(0, all.len() as int) =~= all);
    TraderIndex { entries }
}

/// The key of a trader among position reports: `name_id`.
pub open spec fn position_key(t: Trader) -> Seq<char> {
    t.name@ + "_"@ + decimal_digits(t.tra_id as nat)
}

/// The key `name_id` under which a trader's positions are reported.
pub fn trader_position_key(trader: &Trader) -> (k: String)
    ensures
        k@ == position_key(*trader),
{
    let id = u64_to_decimal(trader.tra_id);
    let mut k = concat2(trader.name.as_str(), "_");
    k.append(id.as_str());
    k
}

/// The index for a trader looked up by id: empty when none was found, else
/// the trader under its name.
pub fn one_trader_index(found: Option<Trader>) -> (index: TraderIndex)
    ensures
        match found {
            Some(t) => index@ == Map::<Seq<char>, Trader>::empty().insert(t.name@, t),
            None => index@ == Map::<Seq<char>, Trader>::empty(),
        },
{
    let ghost f = found;
    let mut entries: Vec<(String, Trader)> = Vec::new();
    match found {
        Some(t) => {
            let key = t.name.clone();
            entries.push((key, t));
        },
        None => {},
    }
    let index = TraderIndex { entries };
    proof {
        match f {
            Some(t) => {
                assert forall|k: Seq<char>| #[trigger] lookup_entry(index.entries@, k) == (if k == t.name@ {
                    Some(t)
                } else {
                    None
                }) by {
                    assert(index.entries@.drop_first() =~= Seq::<(String, Trader)>::empty());
                    assert(lookup_entry(index.entries@.drop_first(), k) is None);
                }
                assert(index@ =~= Map::<Seq<char>, Trader>::empty().insert(t.name@, t));
            },
            None => {
                assert(index@ =~= Map::<Seq<char>, Trader>::empty());
            },
        }
    }
    index
}

/// The index for a trader whose positions are asked for: empty when none was
/// found, else the trader under `name_id`.
pub fn trader_positions_index(found: Option<Trader>) -> (index: TraderIndex)
    ensures
        match found {
            Some(t) => index@ == Map::<Seq<char>, Trader>::empty().insert(position_key(t), t),
            None => index@ == Map::<Seq<char>, Trader>::empty(),
        },
{
    let ghost f = found;
    let mut entries: Vec<(String, Trader)> = Vec::new();
    match found {
        Some(t) => {
            let key = trader_position_key(&t);
            entries.push((key, t));
        },
        None => {},
    }
    let index = TraderIndex { entries };
    proof {
        match f {
            Some(t) => {
                assert forall|k: Seq<char>| #[trigger] lookup_entry(index.entries@, k) == (if k == position_key(t) {
                    Some(t)
                } else {
                    None
                }) by {
                    assert(index.entries@.drop_first() =~= Seq::<(String, Trader)>::empty());
                    assert(lookup_entry(index.entries@.drop_first(), k) is None);
                }
                assert(index@ =~= Map::<Seq<char>, Trader>::empty().insert(position_key(t), t));
            },
            None => {
                assert(index@ =~= Map::<Seq<char>, Trader>::empty());
            },
        }
    }
    index
}

/// The product entry shown to a signed-in account: its name, and its id in decimal.
pub open spec fn shows_product(e: SignInProRes, p: Product) -> bool {
    e.name@ == p.prod_name@ && e.id@ == decimal_digits(p.prod_id as nat)
}

/// The products of a signed-in account, in the order they were found.
pub fn sign_in_products(products: &Vec<Product>) -> (r: Vec<SignInProRes>)
    ensures
        r@.len() == products@.len(),
        forall|i: int| 0 <= i < r@.len() ==> shows_product(#[trigger] r@[i], products@[i]),
{
    let mut r: Vec<SignInProRes> = Vec::new();
    let mut i: usize = 0;
    while i < products.len()
        invariant
            i <= products@.len(),
            r@.len() == i,
            forall|j: int| 0 <= j < i ==> shows_product(#[trigger] r@[j], products@[j]),
        decreases products@.len() - i,
    {
        let p = &products[i];
        let name = p.prod_name.clone();
        let id = u64_to_decimal(p.prod_id);
        let ghost before = r@;
        r.push(SignInProRes { name, id });
        proof {
            assert forall|j: int| 0 <= j < i + 1 implies shows_product(#[trigger] r@[j], products@[j]) by {
                if j < i {
                    assert(r@[j] == before[j]);
                } else {
                    assert(r@[j].name@ == products@[j].prod_name@);
                    assert(r@[j].id@ == decimal_digits(products@[j].prod_id as nat));
                }
            }
        }
        i = i + 1;
    }
    r
}

/// A trading account to be added, with the defaults that new accounts get.
pub struct NewTrader {
    pub tra_venue: String,
    pub ori_balance: String,
    pub tra_currency: String,
    pub api_key: String,
    pub secret_key: String,
    pub other_keys: String,
    pub kind: String,
    pub name: String,
    pub alarm: String,
    pub threshold: String,
}

/// A new account on Binance futures in USDT, with a starting balance (`ori_balance`) of 500
/// and no further keys.
pub fn new_trader_record(name: &str, api_key: &str, secret_key: &str, alarm: &str, threshold: &str) -> (t: NewTrader)
    ensures
        t.tra_venue@ == "Binance"@,
        t.ori_balance@ == "500"@,
        t.tra_currency@ == "USDT"@,
        t.api_key@ == api_key@,
        t.secret_key@ == secret_key@,
        t.other_keys@ == ""@,
        t.kind@ == "Futures"@,
        t.name@ == name@,
        t.alarm@ == alarm@,
        t.threshold@ == threshold@,
{
    NewTrader {
        tra_venue: String::from_str("Binance"),
        ori_balance: String::from_str("500"),
        tra_currency: String::from_str("USDT"),
        api_key: String::from_str(api_key),
        secret_key: String::from_str(secret_key),
        other_keys: String::from_str(""),
        kind: String::from_str("Futures"),
        name: String::from_str(name),
        alarm: String::from_str(alarm),
        threshold: String::from_str(threshold),
    }
}

/// In the index of traders by name, the trader stored under a row's name is
/// that row when no later row has the same name: of several rows with one
/// name, the last one counts.
pub proof fn law_last_row_wins(rows: Seq<Trader>, i: int)
    requires
        0 <= i < rows.len(),
        forall|j: int| i < j < rows.len() ==> #[trigger] rows[j].name@ != rows[i].name@,
    ensures
        index_by_name(rows).dom().contains(rows[i].name@),
        index_by_name(rows)[rows[i].name@] == rows[i],
    decreases rows.len(),
{
    if i < rows.len() - 1 {
        let p = rows.drop_last();
        assert forall|j: int| i < j < p.len() implies #[trigger] p[j].name@ != p[i].name@ by {
            assert(p[j] == rows[j]);
        }
        law_last_row_wins(p, i);
        assert(rows.last().name@ != rows[i].name@);
    }
}

/// Every name of the rows is a key of the index, and every key is the name of a row.
pub proof fn law_index_keys(rows: Seq<Trader>)
    ensures
        forall|i: int| 0 <= i < rows.len() ==> index_by_name(rows).dom().contains(#[trigger] rows[i].name@),
        forall|k: Seq<char>| index_by_name(rows).dom().contains(k) ==> exists|i: int| 0 <= i < rows.len() && #[trigger] rows[i].name@ == k,
    decreases rows.len(),
{
    if rows.len() > 0 {
        let p = rows.drop_last();
        law_index_keys(p);
        assert forall|i: int| 0 <= i < rows.len() implies index_by_name(rows).dom().contains(#[trigger] rows[i].name@) by {
            if i < p.len() {
                assert(rows[i] == p[i]);
            }
        }
        assert forall|k: Seq<char>| index_by_name(rows).dom().contains(k) implies exists|i: int| 0 <= i < rows.len() && #[trigger] rows[i].name@ == k by {
            if k != rows.last().name@ {
                assert(index_by_name(p).dom().contains(k));
                let i = choose|i: int| 0 <= i < p.len() && #[trigger] p[i].name@ == k;
                assert(rows[i] == p[i]);
                assert(0 <= i < rows.len() && rows[i].name@ == k);
            } else {
                assert(rows[rows.len() - 1].name@ == k);
            }
        }
    }
}

} // verus!
