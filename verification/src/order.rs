//! The order in which `String`s sort: lexicographic on their UTF-8 bytes.

use vstd::prelude::*;
use vstd::relations::*;
use vstd::utf8::*;

verus! {

/// Lexicographic comparison of byte sequences, as `Ord` for `[u8]` compares.
pub open spec fn bytes_le(a: Seq<u8>, b: Seq<u8>) -> bool
    decreases a.len(),
{
    if a.len() == 0 {
        true
    } else if b.len() == 0 {
        false
    } else if a[0] != b[0] {
        a[0] < b[0]
    } else {
        bytes_le(a.drop_first(), b.drop_first())
    }
}

/// `a` sorts no later than `b` as `String`s: compared by their UTF-8 bytes.
pub open spec fn key_le(a: Seq<char>, b: Seq<char>) -> bool {
    bytes_le(encode_utf8(a), encode_utf8(b))
}

/// The order of `String`s as a relation.
pub open spec fn key_order() -> spec_fn(Seq<char>, Seq<char>) -> bool {
    |a: Seq<char>, b: Seq<char>| key_le(a, b)
}

proof fn lemma_bytes_le_reflexive(a: Seq<u8>)
    ensures
        bytes_le(a, a),
    decreases a.len(),
{
    if a.len() > 0 {
        lemma_bytes_le_reflexive(a.drop_first());
    }
}

proof fn lemma_bytes_le_antisymmetric(a: Seq<u8>, b: Seq<u8>)
    requires
        bytes_le(a, b),
        bytes_le(b, a),
    ensures
        a == b,
    decreases a.len(),
{
    if a.len() == 0 {
        assert(b.len() == 0);
        assert(a =~= b);
    } else {
        assert(b.len() > 0);
        assert(a[0] == b[0]);
        lemma_bytes_le_antisymmetric(a.drop_first(), b.drop_first());
        assert(a =~= seq![a[0]] + a.drop_first());
        assert(b =~= seq![b[0]] + b.drop_first());
    }
}

proof fn lemma_bytes_le_transitive(a: Seq<u8>, b: Seq<u8>, c: Seq<u8>)
    requires
        bytes_le(a, b),
        bytes_le(b, c),
    ensures
        bytes_le(a, c),
    decreases a.len(),
{
    if a.len() > 0 && b.len() > 0 && c.len() > 0 {
        if a[0] == b[0] && b[0] == c[0] {
            lemma_bytes_le_transitive(a.drop_first(), b.drop_first(), c.drop_first());
        }
    }
}

proof fn lemma_bytes_le_total(a: Seq<u8>, b: Seq<u8>)
    ensures
        bytes_le(a, b) || bytes_le(b, a),
    decreases a.len(),
{
    if a.len() > 0 && b.len() > 0 && a[0] == b[0] {
        lemma_bytes_le_total(a.drop_first(), b.drop_first());
    }
}

/// The `String` order is a total order.
pub proof fn lemma_key_order_total()
    ensures
        total_ordering(key_order()),
{
    assert forall|x: Seq<char>| #[trigger] key_order()(x, x) by {
        lemma_bytes_le_reflexive(encode_utf8(x));
    }
    assert forall|x: Seq<char>, y: Seq<char>|
        #[trigger] key_order()(x, y) && #[trigger] key_order()(y, x) implies x == y by {
        lemma_bytes_le_antisymmetric(encode_utf8(x), encode_utf8(y));
        encode_utf8_decode_utf8(x);
        encode_utf8_decode_utf8(y);
    }
    assert forall|x: Seq<char>, y: Seq<char>, z: Seq<char>|
        #[trigger] key_order()(x, y) && #[trigger] key_order()(y, z) implies key_order()(x, z) by {
        lemma_bytes_le_transitive(encode_utf8(x), encode_utf8(y), encode_utf8(z));
    }
    assert forall|x: Seq<char>, y: Seq<char>|
        #[trigger] key_order()(x, y) || #[trigger] key_order()(y, x) by {
        lemma_bytes_le_total(encode_utf8(x), encode_utf8(y));
    }
}

} // verus!
