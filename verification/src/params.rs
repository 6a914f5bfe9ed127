//! Request parameters: a string-keyed map of values, and the query string
//! that lists them sorted by key.

use vstd::prelude::*;
use vstd::relations::*;
use itertools::Itertools;
use std::collections::HashMap;
use crate::order::{key_le, key_order, lemma_key_order_total};
use crate::text::{chars_of, decimal_text, i64_to_decimal};
use crate::signing::hex_digit;

verus! {

broadcast use vstd::seq_lib::group_to_multiset_ensures;

/// A parameter value: the venue API only ever receives text and integers.
pub enum ParamValue {
    Text(String),
    Int(i64),
}

/// The mathematical content of a [`ParamValue`].
pub enum ParamView {
    Text(Seq<char>),
    Int(int),
}

impl View for ParamValue {
    type V = ParamView;

    open spec fn view(&self) -> ParamView {
        match self {
            ParamValue::Text(s) => ParamView::Text(s@),
            ParamValue::Int(n) => ParamView::Int(*n as int),
        }
    }
}

/// How a value appears in a query string: text as is, integers in decimal.
pub open spec fn render_param(v: ParamView) -> Seq<char> {
    match v {
        ParamView::Text(s) => s,
        ParamView::Int(n) => decimal_text(n),
    }
}

/// Renders one value for a query string.
pub fn render_value(v: &ParamValue) -> (s: String)
    ensures
        s@ == render_param(v@),
{
    match v {
        ParamValue::Text(t) => t.clone(),
        ParamValue::Int(n) => i64_to_decimal(*n),
    }
}

/// Parameters of a request, keyed by name; a key occurs at most once.
pub struct QueryParams {
    entries: Vec<(String, ParamValue)>,
}

/// The keys of a list of entries.
pub open spec fn entry_keys(s: Seq<(String, ParamValue)>) -> Seq<Seq<char>> {
    s.map_values(|e: (String, ParamValue)| e.0@)
}

/// The position of key `k` among the entries.
pub open spec fn index_of_key(s: Seq<(String, ParamValue)>, k: Seq<char>) -> int {
    choose|i: int| 0 <= i < s.len() && s[i].0@ == k
}

/// The map that a list of entries with distinct keys denotes.
pub open spec fn entries_map(s: Seq<(String, ParamValue)>) -> Map<Seq<char>, ParamView> {
    Map::new(|k: Seq<char>| entry_keys(s).contains(k), |k: Seq<char>| s[index_of_key(s, k)].1@)
}

impl QueryParams {
    #[verifier::type_invariant]
    spec fn distinct_keys(self) -> bool {
        entry_keys(self.entries@).no_duplicates()
    }
}

impl View for QueryParams {
    type V = Map<Seq<char>, ParamView>;

    closed spec fn view(&self) -> Map<Seq<char>, ParamView> {
        entries_map(self.entries@)
    }
}

proof fn lemma_index_of_key(s: Seq<(String, ParamValue)>, i: int)
    requires
        entry_keys(s).no_duplicates(),
        0 <= i < s.len(),
    ensures
        index_of_key(s, s[i].0@) == i,
        entry_keys(s).contains(s[i].0@),
{
    assert(entry_keys(s)[i] == s[i].0@);
    let j = index_of_key(s, s[i].0@);
    assert(0 <= j < s.len() && s[j].0@ == s[i].0@);
    assert(entry_keys(s)[j] == entry_keys(s)[i]);
}

impl QueryParams {
    /// An empty parameter set.
    pub fn new() -> (p: Self)
        ensures
            p@ == Map::<Seq<char>, ParamView>::empty(),
    {
        let p = QueryParams { entries: Vec::new() };
        assert(p@ =~= Map::<Seq<char>, ParamView>::empty());
        p
    }

    /// Whether no parameter is set.
    pub fn is_empty(&self) -> (b: bool)
        ensures
            b == (self@.dom() == Set::<Seq<char>>::empty()),
    {
        let b = self.entries.len() == 0;
        if !b {
            proof {
                assert(entry_keys(self.entries@)[0] == self.entries@[0].0@);
                assert(self@.dom().contains(self.entries@[0].0@));
            }
        } else {
            assert(self@.dom() =~= Set::<Seq<char>>::empty());
        }
        b
    }

    /// The position of `key`, if it is set.
    fn find(&self, key: &str) -> (r: Option<usize>)
        ensures
            match r {
                Some(i) => i < self.entries@.len() && self.entries@[i as int].0@ == key@,
                None => !self@.dom().contains(key@),
            },
    {
        let mut i: usize = 0;
        while i < self.entries.len()
            invariant
                i <= self.entries@.len(),
                forall|j: int| 0 <= j < i ==> self.entries@[j].0@ != key@,
            decreases self.entries@.len() - i,
        {
            if same_text(self.entries[i].0.as_str(), key) {
                return Some(i);
            }
            i = i + 1;
        }
        proof {
            if entry_keys(self.entries@).contains(key@) {
                let j = choose|j: int| 0 <= j < self.entries@.len() && entry_keys(self.entries@)[j] == key@;
                assert(self.entries@[j].0@ == key@);
            }
        }
        None
    }

    /// The value of `key`, if it is set.
    pub fn get(&self, key: &str) -> (r: Option<&ParamValue>)
        ensures
            match r {
                Some(v) => self@.dom().contains(key@) && self@[key@] == v@,
                None => !self@.dom().contains(key@),
            },
    {
        proof {
            use_type_invariant(self);
        }
        match self.find(key) {
            Some(i) => {
                proof {
                    lemma_index_of_key(self.entries@, i as int);
                }
                Some(&self.entries[i].1)
            },
            None => None,
        }
    }

    /// Sets `key` to `value`, replacing an earlier value of the same key.
    pub fn insert(&mut self, key: String, value: ParamValue)
        ensures
            final(self)@ == old(self)@.insert(key@, value@),
    {
        proof {
            use_type_invariant(&*self);
        }
        let found = self.find(key.as_str());
        let mut entries: Vec<(String, ParamValue)> = Vec::new();
        std::mem::swap(&mut entries, &mut self.entries);
        let ghost old_entries = entries@;
        let ghost k = key@;
        let ghost v = value@;
        match found {
            Some(i) => {
                entries.set(i, (key, value));
                proof {
                    assert(entry_keys(entries@) =~= entry_keys(old_entries));
                    assert forall|kk: Seq<char>| #[trigger] entries_map(entries@).dom().contains(kk)
                        == entries_map(old_entries).insert(k, v).dom().contains(kk) by {
                        if kk == k {
                            lemma_index_of_key(old_entries, i as int);
                        }
                    }
                    assert forall|kk: Seq<char>| entries_map(entries@).dom().contains(kk) implies
                        #[trigger] entries_map(entries@)[kk] == entries_map(old_entries).insert(k, v)[kk] by {
                        let j = choose|j: int| 0 <= j < entries@.len() && entry_keys(entries@)[j] == kk;
                        assert(entries@[j].0@ == kk);
                        lemma_index_of_key(entries@, j);
                        lemma_index_of_key(old_entries, j);
                        if j != i {
                            assert(entries@[j] == old_entries[j]);
                            assert(entry_keys(entries@)[j] != entry_keys(entries@)[i as int]);
                            assert(kk != k);
                        }
                    }
                    assert(entries_map(entries@) =~= entries_map(old_entries).insert(k, v));
                }
            },
            None => {
                entries.push((key, value));
                proof {
                    let n = old_entries.len();
                    assert(entry_keys(entries@) =~= entry_keys(old_entries).push(k));
                    assert(!entry_keys(old_entries).contains(k));
                    assert forall|a: int, b: int|
                        0 <= a < entries@.len() && 0 <= b < entries@.len() && a != b implies
                        entry_keys(entries@)[a] != entry_keys(entries@)[b] by {
                        if a == n {
                            assert(entry_keys(old_entries)[b] == entry_keys(entries@)[b]);
                        } else if b == n {
                            assert(entry_keys(old_entries)[a] == entry_keys(entries@)[a]);
                        }
                    }
                    assert forall|kk: Seq<char>| #[trigger] entries_map(entries@).dom().contains(kk)
                        == entries_map(old_entries).insert(k, v).dom().contains(kk) by {
                        if entry_keys(old_entries).contains(kk) {
                            let j = choose|j: int| 0 <= j < old_entries.len() && entry_keys(old_entries)[j] == kk;
                            assert(entry_keys(entries@)[j] == kk);
                        }
                        if kk == k {
                            assert(entry_keys(entries@)[n as int] == kk);
                        }
                        if entry_keys(entries@).contains(kk) {
                            let j = choose|j: int| 0 <= j < entries@.len() && entry_keys(entries@)[j] == kk;
                            if j < n {
                                assert(entry_keys(old_entries)[j] == kk);
                            }
                        }
                    }
                    assert forall|kk: Seq<char>| entries_map(entries@).dom().contains(kk) implies
                        #[trigger] entries_map(entries@)[kk] == entries_map(old_entries).insert(k, v)[kk] by {
                        let j = choose|j: int| 0 <= j < entries@.len() && entry_keys(entries@)[j] == kk;
                        assert(entries@[j].0@ == kk);
                        lemma_index_of_key(entries@, j);
                        if j < n {
                            lemma_index_of_key(old_entries, j);
                        }
                    }
                    assert(entries_map(entries@) =~= entries_map(old_entries).insert(k, v));
                }
            },
        }
        self.entries = entries;
    }

    /// The keys that are set, in no particular order.
    pub fn keys(&self) -> (ks: Vec<String>)
        ensures
            ks@.map_values(|s: String| s@).no_duplicates(),
            ks@.map_values(|s: String| s@).to_set() == self@.dom(),
    {
        proof {
            use_type_invariant(self);
        }
        let mut ks: Vec<String> = Vec::new();
        let mut i: usize = 0;
        while i < self.entries.len()
            invariant
                i <= self.entries@.len(),
                ks@.map_values(|s: String| s@) =~= entry_keys(self.entries@).subrange(0, i as int),
            decreases self.entries@.len() - i,
        {
            let c = self.entries[i].0.clone();
            let ghost before = ks@;
            ks.push(c);
            proof {
                assert(ks@ == before.push(c));
                assert(ks@.map_values(|s: String| s@) =~= before.map_values(|s: String| s@).push(c@));
                assert(entry_keys(self.entries@).subrange(0, i + 1) =~= entry_keys(self.entries@).subrange(0, i as int).push(self.entries@[i as int].0@));
            }
            i = i + 1;
        }
        proof {
            let ksv = ks@.map_values(|s: String| s@);
            assert(ksv =~= entry_keys(self.entries@));
            assert(ksv.to_set() =~= self@.dom());
        }
        ks
    }
}

/// Whether two strings are equal.
pub fn same_text(a: &str, b: &str) -> (r: bool)
    ensures
        r == (a@ == b@),
{
    let x = chars_of(a);
    let y = chars_of(b);
    if x.len() != y.len() {
        return false;
    }
    let mut i: usize = 0;
    while i < x.len()
        invariant
            x@ == a@,
            y@ == b@,
            x.len() == y.len(),
            i <= x.len(),
            forall|j: int| 0 <= j < i ==> x@[j] == y@[j],
        decreases x.len() - i,
    {
        if x[i] != y[i] {
            return false;
        }
        i = i + 1;
    }
    assert(a@ =~= b@);
    true
}

/// The keys of `m` in the order in which `String`s sort.
pub open spec fn sorted_keys_of(m: Map<Seq<char>, ParamView>) -> Seq<Seq<char>> {
    m.dom().to_sorted_seq(key_order())
}

/// One `key=value` item of a query string.
pub open spec fn pair_text(k: Seq<char>, v: ParamView) -> Seq<char> {
    k + seq!['='] + render_param(v)
}

/// Items joined with `&` between them.
pub open spec fn join_amp(items: Seq<Seq<char>>) -> Seq<char>
    decreases items.len(),
{
    if items.len() == 0 {
        seq![]
    } else if items.len() == 1 {
        items[0]
    } else {
        join_amp(items.drop_last()) + seq!['&'] + items.last()
    }
}

/// The query string of a parameter map: every parameter once, as `key=value`,
/// sorted by key and joined with `&`.
pub open spec fn query_string(m: Map<Seq<char>, ParamView>) -> Seq<char> {
    join_amp(sorted_keys_of(m).map_values(|k: Seq<char>| pair_text(k, m[k])))
}

/// Sorts strings in ascending order with `Itertools::sorted`.
///
/// `sorted` collects the items and calls `slice::sort`, which orders `String`s
/// by `Ord`: lexicographically by their bytes. The contract claims that the
/// result is a permutation of the input that is sorted in that order.
#[verifier::external_body]
fn sort_strings(items: Vec<String>) -> (r: Vec<String>)
    ensures
        r@.map_values(|s: String| s@).to_multiset() == items@.map_values(|s: String| s@).to_multiset(),
        sorted_by(r@.map_values(|s: String| s@), key_order()),
{
    items.into_iter().sorted().collect()
}

proof fn lemma_to_seq_no_duplicates<A>(s: Set<A>)
    requires
        s.finite(),
    ensures
        s.to_seq().no_duplicates(),
        s.to_seq().to_set() == s,
    decreases s.len(),
{
    s.lemma_to_seq_to_set_id();
    if s.len() > 0 {
        let x = s.choose();
        let rest = s.remove(x);
        lemma_to_seq_no_duplicates(rest);
        assert(s.to_seq() == Seq::<A>::empty().push(x) + rest.to_seq());
        assert(!rest.to_seq().to_set().contains(x));
        let q = s.to_seq();
        assert forall|i: int, j: int| 0 <= i < q.len() && 0 <= j < q.len() && i != j implies q[i] != q[j] by {
            if i == 0 {
                assert(q[j] == rest.to_seq()[j - 1]);
                assert(rest.to_seq().contains(q[j]));
            } else if j == 0 {
                assert(q[i] == rest.to_seq()[i - 1]);
                assert(rest.to_seq().contains(q[i]));
            } else {
                assert(q[i] == rest.to_seq()[i - 1]);
                assert(q[j] == rest.to_seq()[j - 1]);
            }
        }
    }
}

proof fn lemma_same_set_same_multiset<A>(a: Seq<A>, b: Seq<A>)
    requires
        a.no_duplicates(),
        b.no_duplicates(),
        a.to_set() == b.to_set(),
    ensures
        a.to_multiset() == b.to_multiset(),
{
    a.lemma_multiset_has_no_duplicates();
    b.lemma_multiset_has_no_duplicates();
    assert forall|x: A| a.to_multiset().count(x) == b.to_multiset().count(x) by {
        assert(a.contains(x) == a.to_set().contains(x));
        assert(b.contains(x) == b.to_set().contains(x));
        if a.contains(x) {
            assert(a.to_multiset().contains(x));
            assert(b.to_multiset().contains(x));
        }
    }
    assert(a.to_multiset() =~= b.to_multiset());
}

/// The query string of `params`: `key=value` items sorted by key, joined by `&`.
pub fn query_string_of(params: &QueryParams) -> (s: String)
    ensures
        s@ == query_string(params@),
{
    let keys = params.keys();
    let sorted = sort_strings(keys);
    let ghost m = params@;
    let ghost kv = keys@.map_values(|x: String| x@);
    let ghost rv = sorted@.map_values(|x: String| x@);
    proof {
        lemma_key_order_total();
        let dom = m.dom();
        assert(dom.finite()) by {
            vstd::seq_lib::seq_to_set_is_finite(kv);
        }
        lemma_to_seq_no_duplicates(dom);
        lemma_same_set_same_multiset(kv, dom.to_seq());
        dom.to_seq().lemma_sort_by_ensures(key_order());
        vstd::seq_lib::lemma_sorted_unique(rv, dom.to_seq().sort_by(key_order()), key_order());
        assert(rv == sorted_keys_of(m));
        assert forall|i: int| 0 <= i < rv.len() implies m.dom().contains(#[trigger] rv[i]) by {
            assert(rv.to_multiset().count(rv[i]) > 0);
            assert(kv.contains(rv[i]));
        }
    }
    let ghost items = rv.map_values(|k: Seq<char>| pair_text(k, m[k]));
    let mut strl: Vec<String> = Vec::new();
    let mut i: usize = 0;
    while i < sorted.len()
        invariant
            i <= sorted@.len(),
            rv == sorted@.map_values(|x: String| x@),
            items == rv.map_values(|k: Seq<char>| pair_text(k, m[k])),
            m == params@,
            forall|j: int| 0 <= j < rv.len() ==> m.dom().contains(#[trigger] rv[j]),
            strl@.len() == i,
            forall|j: int| 0 <= j < i ==> #[trigger] strl@[j]@ == items[j],
        decreases sorted@.len() - i,
    {
        let key = &sorted[i];
        assert(rv[i as int] == key@);
        let value = params.get(key.as_str());
        let v = value.unwrap();
        let rendered = render_value(v);
        let mut item = key.clone();
        proof {
            reveal_strlit("=");
        }
        item.append("=");
        item.append(rendered.as_str());
        strl.push(item);
        i = i + 1;
    }
    let mut data = String::new();
    let mut j: usize = 0;
    while j < strl.len()
        invariant
            j <= strl@.len(),
            strl@.len() == items.len(),
            forall|t: int| 0 <= t < strl@.len() ==> #[trigger] strl@[t]@ == items[t],
            data@ == join_amp(items.subrange(0, j as int)),
        decreases strl@.len() - j,
    {
        proof {
            assert(items.subrange(0, j + 1).drop_last() =~= items.subrange(0, j as int));
        }
        if j == 0 {
            data.append(strl[j].as_str());
            assert(data@ =~= join_amp(items.subrange(0, 1)));
        } else {
            proof {
                reveal_strlit("&");
            }
            data.append("&");
            data.append(strl[j].as_str());
        }
        j = j + 1;
    }
    assert(items.subrange(0, items.len() as int) =~= items);
    data
}

#[verifier::external_type_specification]
#[verifier::external_body]
pub struct ExJsonError(serde_json::Error);

/// How serde_json writes one character inside a JSON string: `"` and `\\`
/// behind a backslash, the control characters 8, 9, 10, 12 and 13 as `\\b`,
/// `\\t`, `\\n`, `\\f` and `\\r`, other control characters below 32 as
/// `\\u00` and two lower-case hex digits, and every other character as it is.
pub open spec fn json_escaped_char(c: char) -> Seq<char> {
    if c == '"' {
        seq!['\\', '"']
    } else if c == '\\' {
        seq!['\\', '\\']
    } else if c as int == 8 {
        seq!['\\', 'b']
    } else if c as int == 9 {
        seq!['\\', 't']
    } else if c as int == 10 {
        seq!['\\', 'n']
    } else if c as int == 12 {
        seq!['\\', 'f']
    } else if c as int == 13 {
        seq!['\\', 'r']
    } else if (c as int) < 32 {
        seq!['\\', 'u', '0', '0', hex_digit(c as int / 16), hex_digit(c as int % 16)]
    } else {
        seq![c]
    }
}

/// A JSON string literal holding `s`.
pub open spec fn json_string(s: Seq<char>) -> Seq<char> {
    seq!['"'] + s.map_values(|c: char| json_escaped_char(c)).flatten() + seq!['"']
}

/// A parameter value in JSON: text as a JSON string, an integer in decimal.
pub open spec fn json_value_text(v: ParamView) -> Seq<char> {
    match v {
        ParamView::Text(s) => json_string(s),
        ParamView::Int(n) => decimal_text(n),
    }
}

/// One member `"key":value` of a compact JSON object.
pub open spec fn json_member(k: Seq<char>, v: ParamView) -> Seq<char> {
    json_string(k) + seq![':'] + json_value_text(v)
}

/// Items joined with `,` between them.
pub open spec fn join_comma(items: Seq<Seq<char>>) -> Seq<char>
    decreases items.len(),
{
    if items.len() == 0 {
        seq![]
    } else if items.len() == 1 {
        items[0]
    } else {
        join_comma(items.drop_last()) + seq![','] + items.last()
    }
}

/// `order` lists each key of `m` exactly once.
pub open spec fn lists_keys(m: Map<Seq<char>, ParamView>, order: Seq<Seq<char>>) -> bool {
    order.no_duplicates() && order.to_set() == m.dom()
}

/// The compact JSON object of `m` with its members in the order `order`.
pub open spec fn json_object(m: Map<Seq<char>, ParamView>, order: Seq<Seq<char>>) -> Seq<char> {
    seq!['{'] + join_comma(order.map_values(|k: Seq<char>| json_member(k, m[k]))) + seq!['}']
}

/// `t` is the compact JSON object of `m`, its members in some order that
/// lists each key once.
pub open spec fn is_json_object_of(m: Map<Seq<char>, ParamView>, t: Seq<char>) -> bool {
    exists|order: Seq<Seq<char>>| lists_keys(m, order) && t == #[trigger] json_object(m, order)
}

/// `serde_json::to_string` on the `HashMap<String, serde_json::Value>` of the
/// entries; building that map converts each entry one for one (the key as
/// it is, text by `Value::from(String)`, an integer by `Value::from(i64)`).
///
/// From serde_json's source: the serializer writes into a `Vec<u8>`, which
/// never fails, the keys are strings and a `Value` has no failing path, so
/// the call succeeds. The compact formatter writes `{`, then each member as
/// the escaped key, `:` and the value (a string escaped as in
/// `format_escaped_str`, an integer in decimal by `itoa`), with `,` between
/// members, then `}`. The members come in the iteration order of the
/// `HashMap`, which is seeded per process; the contract leaves that order
/// open: some order listing every key once.
#[verifier::external_body]
fn json_object_text(entries: &Vec<(String, ParamValue)>) -> (r: Result<String, serde_json::Error>)
    requires
        entry_keys(entries@).no_duplicates(),
    ensures
        r is Ok,
        is_json_object_of(entries_map(entries@), r->Ok_0@),
{
    let map: HashMap<String, serde_json::Value> = entries
        .iter()
        .map(|(k, v)| (k.clone(), match v {
            ParamValue::Text(s) => serde_json::Value::from(s.clone()),
            ParamValue::Int(n) => serde_json::Value::from(*n),
        }))
        .collect();
    serde_json::to_string(&map)
}

impl QueryParams {
    /// The parameters as a compact JSON object, as a request body carries
    /// them: text as JSON strings, integers as JSON numbers. Serialization
    /// always succeeds; the members come in some order that lists each key
    /// once (the order of a `HashMap`, which is seeded per process).
    pub fn to_json_text(&self) -> (r: Option<String>)
        ensures
            r matches Some(t) && is_json_object_of(self@, t@),
    {
        proof {
            use_type_invariant(self);
        }
        match json_object_text(&self.entries) {
            Ok(text) => Some(text),
            Err(_) => None,
        }
    }
}

/// The JSON body of no parameters is `{}`, and that of one parameter is
/// `{` + its member + `}`: where there is at most one key, the order left
/// open by the serializer does not matter.
pub proof fn law_json_object_small(k: Seq<char>, v: ParamView, t: Seq<char>, u: Seq<char>)
    requires
        is_json_object_of(Map::<Seq<char>, ParamView>::empty(), t),
        is_json_object_of(Map::<Seq<char>, ParamView>::empty().insert(k, v), u),
    ensures
        t == seq!['{', '}'],
        u == seq!['{'] + json_member(k, v) + seq!['}'],
{
    let m0 = Map::<Seq<char>, ParamView>::empty();
    let o0 = choose|order: Seq<Seq<char>>| lists_keys(m0, order) && t == #[trigger] json_object(m0, order);
    o0.unique_seq_to_set();
    assert(o0.to_set() =~= Set::<Seq<char>>::empty());
    assert(o0.len() == 0);
    assert(o0.map_values(|key: Seq<char>| json_member(key, m0[key])) =~= Seq::<Seq<char>>::empty());
    assert(t =~= seq!['{', '}']);
    let m1 = m0.insert(k, v);
    let o1 = choose|order: Seq<Seq<char>>| lists_keys(m1, order) && u == #[trigger] json_object(m1, order);
    o1.unique_seq_to_set();
    assert(m1.dom() =~= Set::<Seq<char>>::empty().insert(k));
    assert(o1.len() == 1);
    assert(o1.to_set().contains(o1[0]));
    assert(o1[0] == k);
    let items = o1.map_values(|key: Seq<char>| json_member(key, m1[key]));
    assert(items.len() == 1 && items[0] == json_member(k, v));
    assert(u =~= seq!['{'] + json_member(k, v) + seq!['}']);
}

/// The query string depends on the parameters alone, not on the order in
/// which they were set: setting two different keys in either order gives the
/// same query string.
pub proof fn law_query_ignores_insertion_order(
    m: Map<Seq<char>, ParamView>,
    a: Seq<char>,
    x: ParamView,
    b: Seq<char>,
    y: ParamView,
)
    requires
        a != b,
    ensures
        query_string(m.insert(a, x).insert(b, y)) == query_string(m.insert(b, y).insert(a, x)),
{
    assert(m.insert(a, x).insert(b, y) =~= m.insert(b, y).insert(a, x));
}

/// Setting a key again replaces its value: the query string shows only the last value.
pub proof fn law_insert_overwrites(m: Map<Seq<char>, ParamView>, k: Seq<char>, x: ParamView, y: ParamView)
    ensures
        query_string(m.insert(k, x).insert(k, y)) == query_string(m.insert(k, y)),
{
    assert(m.insert(k, x).insert(k, y) =~= m.insert(k, y));
}

/// The query string of a single parameter is `key=value`.
pub proof fn law_single_param_query(k: Seq<char>, v: ParamView)
    ensures
        query_string(Map::<Seq<char>, ParamView>::empty().insert(k, v)) == k + seq!['='] + render_param(v),
{
    let m = Map::<Seq<char>, ParamView>::empty().insert(k, v);
    let dom = m.dom();
    assert(dom =~= Set::<Seq<char>>::empty().insert(k));
    assert(dom.finite());
    assert(dom.len() == 1);
    lemma_to_seq_no_duplicates(dom);
    let s = dom.to_seq();
    assert(s.to_set() == dom);
    lemma_key_order_total();
    s.lemma_sort_by_ensures(key_order());
    let sorted = s.sort_by(key_order());
    s.lemma_multiset_has_no_duplicates();
    assert(s.len() == 1) by {
        dom.lemma_to_seq_to_set_id();
        s.unique_seq_to_set();
    }
    assert(s[0] == k) by {
        assert(s.contains(s[0]));
        assert(dom.contains(s[0]));
    }
    assert(sorted.len() == 1) by {
        assert(sorted.to_multiset().len() == s.to_multiset().len());
    }
    assert(sorted[0] == k) by {
        assert(sorted.to_multiset().count(sorted[0]) > 0);
        assert(s.to_multiset().count(sorted[0]) > 0);
        assert(s.contains(sorted[0]));
    }
    let items = sorted.map_values(|kk: Seq<char>| pair_text(kk, m[kk]));
    assert(items.len() == 1);
    assert(items[0] == pair_text(k, v));
}

} // verus!
