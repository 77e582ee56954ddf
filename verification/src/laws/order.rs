//! The order of texts, and of holdings by their tokens.
use vstd::prelude::*;
use vstd::utf8::{encode_utf8, encode_utf8_decode_utf8};

use crate::collateral::{inserted, sorted, Holding};
use crate::text::{bytes_before, text_before};

verus! {

proof fn lemma_bytes_order(a: Seq<u8>, b: Seq<u8>, c: Seq<u8>)
    ensures
        bytes_before(a, b) ==> !bytes_before(b, a),
        !bytes_before(a, b) && !bytes_before(b, a) ==> a == b,
        !bytes_before(b, a) && !bytes_before(c, b) ==> !bytes_before(c, a),
    decreases a.len() + b.len() + c.len(),
{
    if a.len() > 0 && b.len() > 0 && c.len() > 0 {
        lemma_bytes_order(a.drop_first(), b.drop_first(), c.drop_first());
    } else if a.len() > 0 && b.len() > 0 {
        lemma_bytes_order(a.drop_first(), b.drop_first(), c);
    }
    if a.len() > 0 && b.len() > 0 && a[0] == b[0] && a.drop_first() == b.drop_first() {
        assert(a =~= seq![a[0]] + a.drop_first());
        assert(b =~= seq![b[0]] + b.drop_first());
    }
    if a.len() == 0 && b.len() == 0 {
        assert(a =~= b);
    }
}

/// Texts are totally ordered: of two different texts exactly one comes before the other, and the
/// order is transitive.
pub proof fn texts_are_totally_ordered(a: Seq<char>, b: Seq<char>, c: Seq<char>)
    ensures
        text_before(a, b) ==> !text_before(b, a),
        a != b ==> text_before(a, b) || text_before(b, a),
        text_before(a, b) && text_before(b, c) ==> text_before(a, c),
        !text_before(b, a) && !text_before(c, b) ==> !text_before(c, a),
{
    let x = encode_utf8(a);
    let y = encode_utf8(b);
    let z = encode_utf8(c);
    lemma_bytes_order(x, y, z);
    lemma_bytes_order(y, z, x);
    lemma_bytes_order(z, x, y);
    lemma_bytes_order(y, x, z);
    lemma_bytes_order(z, y, x);
    lemma_bytes_order(x, z, y);
    encode_utf8_decode_utf8(a);
    encode_utf8_decode_utf8(b);
}

/// The first byte in which two texts differ decides their order: the text with the smaller byte
/// comes first. A text comes before every longer one that starts with it.
pub proof fn the_first_difference_decides(a: Seq<char>, b: Seq<char>, n: int)
    requires
        0 <= n <= encode_utf8(a).len(),
        n <= encode_utf8(b).len(),
        encode_utf8(a).take(n) == encode_utf8(b).take(n),
    ensures
        n == encode_utf8(a).len() ==> (text_before(a, b) <==> n < encode_utf8(b).len()),
        n == encode_utf8(b).len() ==> !text_before(a, b),
        n < encode_utf8(a).len() && n < encode_utf8(b).len() && encode_utf8(a)[n]
            != encode_utf8(b)[n] ==> (text_before(a, b) <==> encode_utf8(a)[n] < encode_utf8(
            b,
        )[n]),
{
    lemma_first_difference(encode_utf8(a), encode_utf8(b), n);
}

proof fn lemma_first_difference(a: Seq<u8>, b: Seq<u8>, n: int)
    requires
        0 <= n <= a.len(),
        n <= b.len(),
        a.take(n) == b.take(n),
    ensures
        n == a.len() ==> (bytes_before(a, b) <==> n < b.len()),
        n == b.len() ==> !bytes_before(a, b),
        n < a.len() && n < b.len() && a[n] != b[n] ==> (bytes_before(a, b) <==> a[n] < b[n]),
    decreases n,
{
    if n > 0 {
        assert(a.take(n)[0] == a[0] && b.take(n)[0] == b[0]);
        assert(a.drop_first().take(n - 1) =~= a.take(n).drop_first());
        assert(b.drop_first().take(n - 1) =~= b.take(n).drop_first());
        lemma_first_difference(a.drop_first(), b.drop_first(), n - 1);
    }
}

/// Whether no token comes before one that stands before it.
pub open spec fn in_order(holdings: Seq<Holding>) -> bool {
    forall|i: int, j: int|
        0 <= i < j < holdings.len() ==> !text_before(
            (#[trigger] holdings[j]).0,
            (#[trigger] holdings[i]).0,
        )
}

proof fn lemma_inserted(holdings: Seq<Holding>, added: Holding)
    ensures
        in_order(holdings) ==> in_order(inserted(holdings, added)),
        inserted(holdings, added).to_multiset() == holdings.to_multiset().insert(added),
    decreases holdings.len(),
{
    broadcast use vstd::seq_lib::group_to_multiset_ensures;

    if holdings.len() == 0 {
    } else if !text_before(added.0, holdings.last().0) {
        if in_order(holdings) {
            let result = holdings.push(added);
            assert forall|i: int, j: int| 0 <= i < j < result.len() implies !text_before(
                (#[trigger] result[j]).0,
                (#[trigger] result[i]).0,
            ) by {
                if j == holdings.len() {
                    if i < holdings.len() - 1 {
                        assert(!text_before(holdings.last().0, holdings[i].0));
                    }
                    texts_are_totally_ordered(holdings[i].0, holdings.last().0, added.0);
                } else {
                    assert(result[i] == holdings[i] && result[j] == holdings[j]);
                }
            }
        }
    } else {
        let shorter = holdings.drop_last();
        let rest = inserted(shorter, added);
        let result = rest.push(holdings.last());
        lemma_inserted(shorter, added);
        assert(holdings =~= shorter.push(holdings.last()));
        assert(result.to_multiset() =~= holdings.to_multiset().insert(added));
        if in_order(holdings) {
            assert(in_order(shorter)) by {
                assert forall|i: int, j: int| 0 <= i < j < shorter.len() implies !text_before(
                    (#[trigger] shorter[j]).0,
                    (#[trigger] shorter[i]).0,
                ) by {
                    assert(shorter[i] == holdings[i] && shorter[j] == holdings[j]);
                }
            }
            assert forall|i: int, j: int| 0 <= i < j < result.len() implies !text_before(
                (#[trigger] result[j]).0,
                (#[trigger] result[i]).0,
            ) by {
                if j == rest.len() {
                    assert(result[i] == rest[i]);
                    assert(rest.to_multiset().contains(rest[i]));
                    if rest[i] == added {
                        texts_are_totally_ordered(added.0, holdings.last().0, added.0);
                    } else {
                        assert(shorter.to_multiset().contains(rest[i]));
                        assert(shorter.contains(rest[i]));
                        let k = shorter.index_of(rest[i]);
                        assert(holdings[k] == rest[i]);
                        assert(!text_before(holdings.last().0, holdings[k].0));
                    }
                } else {
                    assert(result[i] == rest[i] && result[j] == rest[j]);
                }
            }
        }
    }
}

/// Sorting puts holdings in the order of their tokens, and neither adds nor drops one.
pub proof fn sorting_orders_and_keeps(holdings: Seq<Holding>)
    ensures
        in_order(sorted(holdings)),
        sorted(holdings).to_multiset() == holdings.to_multiset(),
    decreases holdings.len(),
{
    broadcast use vstd::seq_lib::group_to_multiset_ensures;

    if holdings.len() > 0 {
        sorting_orders_and_keeps(holdings.drop_last());
        lemma_inserted(sorted(holdings.drop_last()), holdings.last());
        assert(holdings =~= holdings.drop_last().push(holdings.last()));
    }
}

} // verus!
