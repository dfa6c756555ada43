//! Stable sorting by a key of two parts, with its definition and its laws.

use vstd::prelude::*;
use vstd::utf8::encode_utf8;

verus! {

/// Lexicographic order of byte strings: `a` stands before `b` or equals it.
pub open spec fn lex_le(a: Seq<u8>, b: Seq<u8>) -> bool
    decreases a.len(),
{
    if a.len() == 0 {
        true
    } else if b.len() == 0 {
        false
    } else if a[0] != b[0] {
        a[0] < b[0]
    } else {
        lex_le(a.skip(1), b.skip(1))
    }
}

/// Of two byte strings one stands before the other or equals it.
pub proof fn lemma_lex_le_total(a: Seq<u8>, b: Seq<u8>)
    ensures
        lex_le(a, b) || lex_le(b, a),
    decreases a.len(),
{
    if a.len() > 0 && b.len() > 0 && a[0] == b[0] {
        lemma_lex_le_total(a.skip(1), b.skip(1));
    }
}

/// The lexicographic order is transitive.
pub proof fn lemma_lex_le_transitive(a: Seq<u8>, b: Seq<u8>, c: Seq<u8>)
    requires
        lex_le(a, b),
        lex_le(b, c),
    ensures
        lex_le(a, c),
    decreases a.len(),
{
    if a.len() > 0 && b.len() > 0 && c.len() > 0 && a[0] == b[0] && b[0] == c[0] {
        lemma_lex_le_transitive(a.skip(1), b.skip(1), c.skip(1));
    }
}

/// Decides the lexicographic order of two byte strings.
pub fn bytes_le(a: &[u8], b: &[u8]) -> (le: bool)
    ensures
        le == lex_le(a@, b@),
{
    let mut i: usize = 0;
    assert(a@.skip(0) == a@ && b@.skip(0) == b@);
    while i < a.len() && i < b.len()
        invariant
            i <= a@.len(),
            i <= b@.len(),
            lex_le(a@, b@) == lex_le(a@.skip(i as int), b@.skip(i as int)),
        decreases a@.len() - i,
    {
        assert(a@.skip(i as int)[0] == a@[i as int]);
        assert(b@.skip(i as int)[0] == b@[i as int]);
        if a[i] != b[i] {
            return a[i] < b[i];
        }
        assert(a@.skip(i as int).skip(1) == a@.skip(i + 1));
        assert(b@.skip(i as int).skip(1) == b@.skip(i + 1));
        i += 1;
    }
    i >= a.len()
}

/// By what an entry is placed: whether it goes with the first group, and the bytes by
/// which it is ordered within its group.
pub type SortKey = (bool, Seq<u8>);

/// The order of entries: those of the first group before the others, and within a
/// group by their bytes. True where `a` may stand before `b`.
pub open spec fn key_le(a: SortKey, b: SortKey) -> bool {
    if a.0 != b.0 {
        a.0
    } else {
        lex_le(a.1, b.1)
    }
}

/// The place of the entry `x` in a sorted list of entries that came after it: before
/// the first entry that it may stand before.
pub open spec fn placed(x: int, order: Seq<int>, keys: Seq<SortKey>) -> Seq<int>
    decreases order.len(),
{
    if order.len() == 0 {
        seq![x]
    } else if key_le(keys[x], keys[order[0]]) {
        seq![x] + order
    } else {
        seq![order[0]] + placed(x, order.drop_first(), keys)
    }
}

/// The indices from `from` on, sorted by their keys; entries of equal rank keep their
/// order.
pub open spec fn order_from(keys: Seq<SortKey>, from: int) -> Seq<int>
    decreases keys.len() - from,
{
    if from >= keys.len() {
        seq![]
    } else {
        placed(from, order_from(keys, from + 1), keys)
    }
}

/// The indices of all entries, sorted by their keys; entries of equal rank keep their
/// order.
pub open spec fn sorted_order(keys: Seq<SortKey>) -> Seq<int> {
    order_from(keys, 0)
}

/// True where the indices of a list stand in the order of their keys, and of two
/// entries that may stand either way round the earlier one stands first.
pub open spec fn is_stably_sorted(order: Seq<int>, keys: Seq<SortKey>) -> bool {
    forall|i: int, j: int|
        0 <= i < j < order.len() ==> key_le(keys[#[trigger] order[i]], keys[#[trigger] order[j]])
            && (key_le(keys[order[j]], keys[order[i]]) ==> order[i] < order[j])
}

/// The order of keys is total and transitive.
pub proof fn lemma_key_le_order(a: SortKey, b: SortKey, c: SortKey)
    ensures
        key_le(a, b) || key_le(b, a),
        key_le(a, b) && key_le(b, c) ==> key_le(a, c),
{
    lemma_lex_le_total(a.1, b.1);
    if key_le(a, b) && key_le(b, c) && a.0 == b.0 && b.0 == c.0 {
        lemma_lex_le_transitive(a.1, b.1, c.1);
    }
}

/// Placing an index that is smaller than all of a sorted list gives a sorted list of
/// the same indices and the new one.
pub proof fn lemma_placed(x: int, order: Seq<int>, keys: Seq<SortKey>)
    requires
        0 <= x,
        forall|i: int| 0 <= i < order.len() ==> x < #[trigger] order[i] < keys.len(),
        order.no_duplicates(),
        is_stably_sorted(order, keys),
    ensures
        placed(x, order, keys).len() == order.len() + 1,
        placed(x, order, keys).no_duplicates(),
        is_stably_sorted(placed(x, order, keys), keys),
        forall|v: int| #[trigger]
            placed(x, order, keys).contains(v) <==> (v == x || order.contains(v)),
    decreases order.len(),
{
    let out = placed(x, order, keys);
    if order.len() == 0 {
        assert(out =~= seq![x] + order);
        lemma_prepended(x, order, out);
    } else if key_le(keys[x], keys[order[0]]) {
        assert(out =~= seq![x] + order);
        assert(!order.contains(x)) by {
            if order.contains(x) {
                let k = choose|k: int| 0 <= k < order.len() && order[k] == x;
                assert(x < order[k]);
            }
        }
        lemma_prepended(x, order, out);
        assert forall|i: int, j: int| 0 <= i < j < out.len() implies key_le(
            keys[#[trigger] out[i]],
            keys[#[trigger] out[j]],
        ) && (key_le(keys[out[j]], keys[out[i]]) ==> out[i] < out[j]) by {
            assert(out[j] == order[j - 1]);
            if i == 0 {
                if j > 1 {
                    assert(key_le(keys[order[0]], keys[order[j - 1]]));
                    lemma_key_le_order(keys[x], keys[order[0]], keys[order[j - 1]]);
                }
            } else {
                assert(out[i] == order[i - 1]);
            }
        }
    } else {
        let lead = order[0];
        let rest = order.drop_first();
        let tail = placed(x, rest, keys);
        assert(order =~= seq![lead] + rest);
        lemma_prepended(lead, rest, order);
        assert forall|i: int, j: int| 0 <= i < j < rest.len() implies key_le(
            keys[#[trigger] rest[i]],
            keys[#[trigger] rest[j]],
        ) && (key_le(keys[rest[j]], keys[rest[i]]) ==> rest[i] < rest[j]) by {
            assert(rest[i] == order[i + 1] && rest[j] == order[j + 1]);
        }
        assert(rest.no_duplicates()) by {
            assert forall|i: int, j: int|
                0 <= i < rest.len() && 0 <= j < rest.len() && i != j implies rest[i] != rest[j] by {
                assert(rest[i] == order[i + 1] && rest[j] == order[j + 1]);
            }
        }
        assert forall|i: int| 0 <= i < rest.len() implies x < #[trigger] rest[i] < keys.len() by {
            assert(rest[i] == order[i + 1]);
        }
        lemma_placed(x, rest, keys);
        assert(!tail.contains(lead)) by {
            if rest.contains(lead) {
                let k = choose|k: int| 0 <= k < rest.len() && rest[k] == lead;
                assert(order[k + 1] == lead);
            }
        }
        assert(out =~= seq![lead] + tail);
        lemma_prepended(lead, tail, out);
        assert forall|v: int| out.contains(v) <==> (v == x || order.contains(v)) by {
            assert(tail.contains(v) <==> (v == x || rest.contains(v)));
            assert(order.contains(v) <==> (v == lead || rest.contains(v)));
            assert(out.contains(v) <==> (v == lead || tail.contains(v)));
        }
        lemma_key_le_order(keys[x], keys[lead], keys[x]);
        assert forall|i: int, j: int| 0 <= i < j < out.len() implies key_le(
            keys[#[trigger] out[i]],
            keys[#[trigger] out[j]],
        ) && (key_le(keys[out[j]], keys[out[i]]) ==> out[i] < out[j]) by {
            assert(out[j] == tail[j - 1]);
            if i > 0 {
                assert(out[i] == tail[i - 1]);
            } else {
                assert(tail.contains(tail[j - 1]));
                if tail[j - 1] != x {
                    assert(rest.contains(tail[j - 1]));
                    let k = choose|k: int| 0 <= k < rest.len() && rest[k] == tail[j - 1];
                    assert(order[k + 1] == tail[j - 1]);
                }
            }
        }
    }
}

/// A list with one value put before it holds that value and those of the list; it
/// holds none twice where the list did not and did not hold the value.
pub proof fn lemma_prepended(x: int, list: Seq<int>, out: Seq<int>)
    requires
        out == seq![x] + list,
    ensures
        forall|v: int| #[trigger] out.contains(v) <==> (v == x || list.contains(v)),
        list.no_duplicates() && !list.contains(x) ==> out.no_duplicates(),
{
    assert(out[0] == x);
    assert forall|v: int| list.contains(v) implies out.contains(v) by {
        let k = choose|k: int| 0 <= k < list.len() && list[k] == v;
        assert(out[k + 1] == v);
    }
    assert forall|v: int| out.contains(v) implies v == x || list.contains(v) by {
        let k = choose|k: int| 0 <= k < out.len() && out[k] == v;
        if k > 0 {
            assert(list[k - 1] == v);
        }
    }
    if list.no_duplicates() && !list.contains(x) {
        assert forall|i: int, j: int|
            0 <= i < out.len() && 0 <= j < out.len() && i != j implies out[i] != out[j] by {
            if i > 0 {
                assert(out[i] == list[i - 1]);
            }
            if j > 0 {
                assert(out[j] == list[j - 1]);
            }
        }
    }
}

/// The sorted order of the indices from `from` on holds each of them once, in the
/// order of their keys, and entries of equal rank in their own order.
pub proof fn lemma_order_from(keys: Seq<SortKey>, from: int)
    requires
        0 <= from,
    ensures
        order_from(keys, from).len() == if from <= keys.len() {
            keys.len() - from
        } else {
            0
        },
        order_from(keys, from).no_duplicates(),
        is_stably_sorted(order_from(keys, from), keys),
        forall|v: int| #[trigger] order_from(keys, from).contains(v) <==> from <= v < keys.len(),
    decreases keys.len() - from,
{
    if from < keys.len() {
        lemma_order_from(keys, from + 1);
        let later = order_from(keys, from + 1);
        assert forall|i: int| 0 <= i < later.len() implies from < #[trigger] later[i]
            < keys.len() by {
            assert(later.contains(later[i]));
        }
        lemma_placed(from, later, keys);
        assert forall|v: int| order_from(keys, from).contains(v) <==> from <= v
            < keys.len() by {
            assert(later.contains(v) <==> from + 1 <= v < keys.len());
        }
    } else {
        assert(order_from(keys, from) =~= Seq::<int>::empty());
    }
}

/// Sorting arranges: the sorted order holds every index once.
pub proof fn lemma_sorted_order_is_arrangement(keys: Seq<SortKey>)
    ensures
        sorted_order(keys).len() == keys.len(),
        sorted_order(keys).no_duplicates(),
        forall|v: int| #[trigger] sorted_order(keys).contains(v) <==> 0 <= v < keys.len(),
        forall|i: int| 0 <= i < keys.len() ==> 0 <= #[trigger] sorted_order(keys)[i] < keys.len(),
{
    lemma_order_from(keys, 0);
    assert forall|i: int| 0 <= i < keys.len() implies 0 <= #[trigger] sorted_order(keys)[i]
        < keys.len() by {
        assert(sorted_order(keys).contains(sorted_order(keys)[i]));
    }
}

/// Sorting sorts and is stable: in the sorted order the keys ascend, and of two
/// entries of equal rank the one that came first stands first.
pub proof fn lemma_sorted_order_is_sorted(keys: Seq<SortKey>)
    ensures
        is_stably_sorted(sorted_order(keys), keys),
{
    lemma_order_from(keys, 0);
}

/// The key of an entry that goes with the first group or not and is ordered by a
/// string's UTF-8 bytes.
pub open spec fn key_view(key: (bool, String)) -> SortKey {
    (key.0, encode_utf8(key.1@))
}

/// The keys of a list of entries.
pub open spec fn keys_view(keys: Seq<(bool, String)>) -> Seq<SortKey> {
    keys.map_values(|k: (bool, String)| key_view(k))
}

/// A list of indices as integers.
pub open spec fn indices(order: Seq<usize>) -> Seq<int> {
    order.map_values(|i: usize| i as int)
}

/// Decides whether an entry may stand before another.
pub fn key_before(a: &(bool, String), b: &(bool, String)) -> (le: bool)
    ensures
        le == key_le(key_view(*a), key_view(*b)),
{
    if a.0 != b.0 {
        a.0
    } else {
        bytes_le(a.1.as_str().as_bytes(), b.1.as_str().as_bytes())
    }
}

/// An index is placed before the first entry that it may stand before.
pub proof fn lemma_placed_at(x: int, order: Seq<int>, keys: Seq<SortKey>, at: int)
    requires
        0 <= at <= order.len(),
        forall|i: int| 0 <= i < at ==> !key_le(keys[x], keys[#[trigger] order[i]]),
        at < order.len() ==> key_le(keys[x], keys[order[at]]),
    ensures
        placed(x, order, keys) == order.insert(at, x),
    decreases order.len(),
{
    if order.len() == 0 {
        assert(placed(x, order, keys) =~= order.insert(at, x));
    } else if at == 0 {
        assert(placed(x, order, keys) =~= order.insert(at, x));
    } else {
        assert(!key_le(keys[x], keys[order[0]]));
        let rest = order.drop_first();
        assert forall|i: int| 0 <= i < at - 1 implies !key_le(keys[x], keys[#[trigger] rest[i]]) by {
            assert(rest[i] == order[i + 1]);
        }
        lemma_placed_at(x, rest, keys, at - 1);
        assert(seq![order[0]] + rest.insert(at - 1, x) =~= order.insert(at, x));
    }
}

/// Sorts the indices of a list of entries by the entries' keys. Entries of equal rank
/// keep their order.
pub fn sort_order(keys: &Vec<(bool, String)>) -> (order: Vec<usize>)
    ensures
        indices(order@) == sorted_order(keys_view(keys@)),
        order@.len() == keys@.len(),
        forall|i: int| 0 <= i < order@.len() ==> (#[trigger] order@[i]) < keys@.len(),
{
    let ghost all = keys_view(keys@);
    let mut order: Vec<usize> = Vec::new();
    let mut from: usize = keys.len();
    assert(indices(order@) =~= order_from(all, from as int));
    while from > 0
        invariant
            from <= keys@.len(),
            all == keys_view(keys@),
            indices(order@) == order_from(all, from as int),
            order@.len() == keys@.len() - from,
            forall|i: int| 0 <= i < order@.len() ==> from <= (#[trigger] order@[i]) < keys@.len(),
        decreases from,
    {
        from -= 1;
        let ghost later = indices(order@);
        let mut at: usize = 0;
        while at < order.len() && !key_before(&keys[from], &keys[order[at]])
            invariant
                at <= order@.len(),
                from < keys@.len(),
                all == keys_view(keys@),
                later == indices(order@),
                forall|i: int| 0 <= i < order@.len() ==> (#[trigger] order@[i]) < keys@.len(),
                forall|i: int| 0 <= i < at ==> !key_le(all[from as int], all[#[trigger] later[i]]),
            decreases order@.len() - at,
        {
            at += 1;
        }
        proof {
            if at < order@.len() {
                assert(later[at as int] == order@[at as int]);
            }
            lemma_placed_at(from as int, later, all, at as int);
        }
        order.insert(at, from);
        proof {
            assert(indices(order@) =~= later.insert(at as int, from as int));
            assert forall|i: int| 0 <= i < order@.len() implies from <= (#[trigger] order@[i])
                < keys@.len() by {
                if i > at {
                    assert(order@[i] as int == later[i - 1]);
                } else if i < at {
                    assert(order@[i] as int == later[i]);
                }
            }
        }
    }
    order
}

} // verus!
