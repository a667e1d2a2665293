//! The order in which names are taken: by their characters, names that are
//! equal keeping the order they came in.

use vstd::prelude::*;
use crate::text::{
    comes_before, lemma_before_irreflexive, lemma_before_total, lemma_before_transitive, lines_of,
    strictly_before,
};

verus! {

/// `order`, a list of positions in `keys`, with position `x` put in behind
/// every position whose key does not come after the key at `x`.
pub open spec fn insert_index(keys: Seq<Seq<char>>, order: Seq<int>, x: int) -> Seq<int>
    decreases order.len(),
{
    if order.len() == 0 {
        seq![x]
    } else if strictly_before(keys[x], keys[order.last()]) {
        insert_index(keys, order.drop_last(), x).push(order.last())
    } else {
        order.push(x)
    }
}

/// The positions of the first `n` keys, ordered by key; positions with equal
/// keys stand in rising order.
pub open spec fn stable_order(keys: Seq<Seq<char>>, n: nat) -> Seq<int>
    decreases n,
{
    if n == 0 {
        Seq::empty()
    } else {
        insert_index(keys, stable_order(keys, (n - 1) as nat), n - 1)
    }
}

/// Putting `x` in at `pos` is right where every key from `pos` on comes
/// after the key at `x` and the key just before `pos` does not.
proof fn lemma_insert_at(keys: Seq<Seq<char>>, order: Seq<int>, x: int, pos: int)
    requires
        0 <= pos <= order.len(),
        forall|m: int| pos <= m < order.len() ==> strictly_before(keys[x], keys[#[trigger] order[m]]),
        pos > 0 ==> !strictly_before(keys[x], keys[order[pos - 1]]),
    ensures
        insert_index(keys, order, x) == order.insert(pos, x),
    decreases order.len(),
{
    if order.len() == 0 {
    } else if pos == order.len() {
    } else {
        lemma_insert_at(keys, order.drop_last(), x, pos);
    }
}

/// Computes the order in which `keys` are taken.
pub fn sort_order(keys: &Vec<String>) -> (order: Vec<usize>)
    ensures
        order@.len() == keys@.len(),
        forall|i: int|
            0 <= i < order@.len() ==> #[trigger] order@[i] as int == stable_order(
                lines_of(keys@),
                keys@.len(),
            )[i],
        forall|i: int| 0 <= i < order@.len() ==> (#[trigger] order@[i]) < keys@.len(),
{
    let ghost texts = lines_of(keys@);
    let mut order: Vec<usize> = Vec::new();
    let mut x: usize = 0;
    while x < keys.len()
        invariant
            x <= keys.len(),
            texts == lines_of(keys@),
            order@.len() == x,
            forall|i: int| 0 <= i < order@.len() ==> (#[trigger] order@[i]) < x,
            order@.map_values(|v: usize| v as int) =~= stable_order(texts, x as nat),
        decreases keys.len() - x,
    {
        let ghost before = order@.map_values(|v: usize| v as int);
        let mut pos: usize = order.len();
        while pos > 0 && comes_before(keys[x].as_str(), keys[order[pos - 1]].as_str())
            invariant
                pos <= order@.len(),
                x < keys.len(),
                texts == lines_of(keys@),
                before == order@.map_values(|v: usize| v as int),
                forall|i: int| 0 <= i < order@.len() ==> (#[trigger] order@[i]) < x,
                forall|m: int|
                    pos <= m < before.len() ==> strictly_before(
                        texts[x as int],
                        texts[#[trigger] before[m]],
                    ),
            decreases pos,
        {
            pos -= 1;
        }
        proof {
            lemma_insert_at(texts, before, x as int, pos as int);
        }
        order.insert(pos, x);
        x += 1;
    }
    order
}

/// `names` in the order in which they are taken.
pub open spec fn sorted_names(names: Seq<Seq<char>>) -> Seq<Seq<char>> {
    Seq::new(names.len(), |i: int| names[stable_order(names, names.len())[i]])
}

/// Puts `names` in order.
pub fn sort_names(names: &Vec<String>) -> (sorted: Vec<String>)
    ensures
        lines_of(sorted@) == sorted_names(lines_of(names@)),
{
    let order = sort_order(names);
    let mut sorted: Vec<String> = Vec::new();
    let mut i: usize = 0;
    while i < order.len()
        invariant
            i <= order.len(),
            order@.len() == names@.len(),
            sorted@.len() == i,
            forall|k: int|
                0 <= k < order@.len() ==> #[trigger] order@[k] as int == stable_order(
                    lines_of(names@),
                    names@.len(),
                )[k],
            forall|k: int| 0 <= k < order@.len() ==> (#[trigger] order@[k]) < names@.len(),
            forall|k: int|
                0 <= k < i ==> (#[trigger] sorted@[k])@ == sorted_names(lines_of(names@))[k],
        decreases order.len() - i,
    {
        sorted.push(names[order[i]].clone());
        i += 1;
    }
    sorted
}

/// Whether position `a` is taken before position `b`: its key comes first,
/// or the keys are equal and `a` is the smaller position.
pub open spec fn taken_before(keys: Seq<Seq<char>>, a: int, b: int) -> bool {
    strictly_before(keys[a], keys[b]) || (keys[a] == keys[b] && a < b)
}

/// Whether `order` lists positions below `n` so that each is taken before
/// all that follow it.
pub open spec fn in_order(keys: Seq<Seq<char>>, order: Seq<int>, n: int) -> bool {
    &&& forall|i: int| 0 <= i < order.len() ==> 0 <= #[trigger] order[i] < n
    &&& forall|i: int, j: int|
        0 <= i < j < order.len() ==> taken_before(keys, #[trigger] order[i], #[trigger] order[j])
}

proof fn lemma_taken_before_transitive(keys: Seq<Seq<char>>, a: int, b: int, c: int)
    requires
        taken_before(keys, a, b),
        taken_before(keys, b, c),
    ensures
        taken_before(keys, a, c),
{
    if strictly_before(keys[a], keys[b]) && strictly_before(keys[b], keys[c]) {
        lemma_before_transitive(keys[a], keys[b], keys[c]);
    }
}

proof fn lemma_insert_position(keys: Seq<Seq<char>>, order: Seq<int>, x: int) -> (pos: int)
    ensures
        0 <= pos <= order.len(),
        insert_index(keys, order, x) == order.insert(pos, x),
        forall|m: int| pos <= m < order.len() ==> strictly_before(keys[x], keys[#[trigger] order[m]]),
        pos > 0 ==> !strictly_before(keys[x], keys[order[pos - 1]]),
    decreases order.len(),
{
    if order.len() == 0 {
        0
    } else if strictly_before(keys[x], keys[order.last()]) {
        let pos = lemma_insert_position(keys, order.drop_last(), x);
        assert forall|m: int| pos <= m < order.len() implies strictly_before(
            keys[x],
            keys[#[trigger] order[m]],
        ) by {
            if m < order.len() - 1 {
                assert(order[m] == order.drop_last()[m]);
            }
        }
        pos
    } else {
        order.len() as int
    }
}

proof fn lemma_insert_keeps_order(keys: Seq<Seq<char>>, order: Seq<int>, x: int)
    requires
        in_order(keys, order, x),
        0 <= x,
    ensures
        in_order(keys, insert_index(keys, order, x), x + 1),
        insert_index(keys, order, x).len() == order.len() + 1,
{
    let pos = lemma_insert_position(keys, order, x);
    let result = order.insert(pos, x);
    assert forall|i: int, j: int| 0 <= i < j < result.len() implies taken_before(
        keys,
        #[trigger] result[i],
        #[trigger] result[j],
    ) by {
        if i == pos {
        } else if j == pos {
            lemma_before_total(keys[x], keys[order[pos - 1]]);
            if i < pos - 1 {
                lemma_taken_before_transitive(keys, order[i], order[pos - 1], x);
            }
        } else {
            let oi = if i < pos { i } else { i - 1 };
            let oj = if j < pos { j } else { j - 1 };
        }
    }
}

/// The order of `n` keys lists `n` positions below `n`, each taken before all
/// that follow it: the keys never fall, and equal keys keep their turn. No
/// position is listed twice.
pub proof fn lemma_stable_order_sorted(keys: Seq<Seq<char>>, n: nat)
    ensures
        stable_order(keys, n).len() == n,
        in_order(keys, stable_order(keys, n), n as int),
        forall|i: int, j: int|
            0 <= i < j < n ==> !strictly_before(
                keys[#[trigger] stable_order(keys, n)[j]],
                keys[#[trigger] stable_order(keys, n)[i]],
            ),
        forall|i: int, j: int|
            0 <= i < j < n ==> #[trigger] stable_order(keys, n)[i] != #[trigger] stable_order(
                keys,
                n,
            )[j],
    decreases n,
{
    if n > 0 {
        lemma_stable_order_sorted(keys, (n - 1) as nat);
        lemma_insert_keeps_order(keys, stable_order(keys, (n - 1) as nat), n - 1);
        let order = stable_order(keys, n);
        assert forall|i: int, j: int| 0 <= i < j < n implies !strictly_before(
            keys[#[trigger] order[j]],
            keys[#[trigger] order[i]],
        ) && order[i] != order[j] by {
            lemma_before_total(keys[order[i]], keys[order[j]]);
            lemma_before_irreflexive(keys[order[i]]);
        }
    }
}

/// Every position is listed: the order of `n` keys leaves none of the
/// positions below `n` out.
pub proof fn lemma_stable_order_covers(keys: Seq<Seq<char>>, n: nat, v: int) -> (at: int)
    requires
        0 <= v < n,
    ensures
        0 <= at < n,
        stable_order(keys, n).len() == n,
        stable_order(keys, n)[at] == v,
    decreases n,
{
    lemma_stable_order_sorted(keys, n);
    let shorter = stable_order(keys, (n - 1) as nat);
    lemma_stable_order_sorted(keys, (n - 1) as nat);
    let pos = lemma_insert_position(keys, shorter, n - 1);
    if v == n - 1 {
        pos
    } else {
        let before = lemma_stable_order_covers(keys, (n - 1) as nat, v);
        if before < pos {
            before
        } else {
            before + 1
        }
    }
}

/// Whether the keys of `items` rise strictly from each item to the next.
pub open spec fn rises<T>(items: Seq<T>, key: spec_fn(T) -> Seq<char>) -> bool {
    forall|i: int, j: int|
        0 <= i < j < items.len() ==> strictly_before(key(#[trigger] items[i]), key(#[trigger] items[j]))
}

/// Whether every item of `first` is among `second`.
pub open spec fn all_among<T>(first: Seq<T>, second: Seq<T>) -> bool {
    forall|i: int| 0 <= i < first.len() ==> second.contains(#[trigger] first[i])
}

/// There is one way only to put items in strictly rising order: two lists of
/// the same length that rise strictly and hold the same items are the same
/// list.
pub proof fn lemma_rising_order_is_unique<T>(
    first: Seq<T>,
    second: Seq<T>,
    key: spec_fn(T) -> Seq<char>,
)
    requires
        first.len() == second.len(),
        rises(first, key),
        rises(second, key),
        all_among(first, second),
        all_among(second, first),
    ensures
        first == second,
    decreases first.len(),
{
    if first.len() == 0 {
        assert(first =~= second);
    } else {
        let n = first.len() - 1;
        let a = first[n];
        let b = second[n];
        assert(second.contains(a));
        let j = choose|j: int| 0 <= j < second.len() && second[j] == a;
        assert(first.contains(b));
        let i = choose|i: int| 0 <= i < first.len() && first[i] == b;
        lemma_before_total(key(a), key(b));
        lemma_before_irreflexive(key(a));
        if j < n {
            assert(strictly_before(key(second[j]), key(second[n])));
            if i < n {
                assert(strictly_before(key(first[i]), key(first[n])));
            }
        }
        assert(j == n);
        assert(a == b);
        let shorter = first.drop_last();
        let other = second.drop_last();
        assert forall|k: int| 0 <= k < shorter.len() implies other.contains(
            #[trigger] shorter[k],
        ) by {
            assert(second.contains(first[k]));
            let m = choose|m: int| 0 <= m < second.len() && second[m] == first[k];
            if m == n {
                assert(strictly_before(key(first[k]), key(first[n])));
            }
            assert(other[m] == shorter[k]);
        }
        assert forall|k: int| 0 <= k < other.len() implies shorter.contains(
            #[trigger] other[k],
        ) by {
            assert(first.contains(second[k]));
            let m = choose|m: int| 0 <= m < first.len() && first[m] == second[k];
            if m == n {
                assert(strictly_before(key(second[k]), key(second[n])));
            }
            assert(shorter[m] == other[k]);
        }
        assert forall|x: int, y: int| 0 <= x < y < shorter.len() implies strictly_before(
            key(#[trigger] shorter[x]),
            key(#[trigger] shorter[y]),
        ) by {
            assert(strictly_before(key(first[x]), key(first[y])));
        }
        assert forall|x: int, y: int| 0 <= x < y < other.len() implies strictly_before(
            key(#[trigger] other[x]),
            key(#[trigger] other[y]),
        ) by {
            assert(strictly_before(key(second[x]), key(second[y])));
        }
        lemma_rising_order_is_unique(shorter, other, key);
        assert(first =~= shorter.push(a));
        assert(second =~= other.push(b));
    }
}

/// `items` put in the order of their keys.
pub open spec fn arranged<T>(items: Seq<T>, key: spec_fn(T) -> Seq<char>) -> Seq<T> {
    let keys = Seq::new(items.len(), |i: int| key(items[i]));
    Seq::new(items.len(), |i: int| items[stable_order(keys, items.len())[i]])
}

/// Whether no two of `items` have the same key.
pub open spec fn keys_differ<T>(items: Seq<T>, key: spec_fn(T) -> Seq<char>) -> bool {
    forall|i: int, j: int|
        0 <= i < j < items.len() ==> key(#[trigger] items[i]) != key(#[trigger] items[j])
}

/// Items with different keys, put in order, rise strictly and are the items
/// that were given, each of them and no other.
pub proof fn lemma_arranged_rises<T>(items: Seq<T>, key: spec_fn(T) -> Seq<char>)
    requires
        keys_differ(items, key),
    ensures
        arranged(items, key).len() == items.len(),
        rises(arranged(items, key), key),
        all_among(arranged(items, key), items),
        all_among(items, arranged(items, key)),
{
    let n = items.len();
    let keys = Seq::new(n, |i: int| key(items[i]));
    let order = stable_order(keys, n);
    let sorted = arranged(items, key);
    lemma_stable_order_sorted(keys, n);
    assert forall|i: int, j: int| 0 <= i < j < sorted.len() implies strictly_before(
        key(#[trigger] sorted[i]),
        key(#[trigger] sorted[j]),
    ) by {
        let a = order[i];
        let b = order[j];
        assert(taken_before(keys, a, b));
        assert(keys[a] == key(items[a]) && keys[b] == key(items[b]));
        if a < b {
            assert(key(items[a]) != key(items[b]));
        } else {
            assert(key(items[b]) != key(items[a]));
        }
    }
    assert forall|i: int| 0 <= i < sorted.len() implies items.contains(#[trigger] sorted[i]) by {
        assert(items[order[i]] == sorted[i]);
    }
    assert forall|v: int| 0 <= v < items.len() implies sorted.contains(#[trigger] items[v]) by {
        let at = lemma_stable_order_covers(keys, n, v);
        assert(sorted[at] == items[v]);
    }
}

/// The order in which items are given does not matter to the order they
/// are put in, as long as no two have the same key: two lists of the same
/// items are arranged the same.
pub proof fn lemma_arranged_is_order_free<T>(
    first: Seq<T>,
    second: Seq<T>,
    key: spec_fn(T) -> Seq<char>,
)
    requires
        all_among(first, second),
        all_among(second, first),
        keys_differ(first, key),
        keys_differ(second, key),
    ensures
        first.len() == second.len(),
        arranged(first, key) == arranged(second, key),
{
    assert(first.no_duplicates()) by {
        assert forall|i: int, j: int|
            0 <= i < first.len() && 0 <= j < first.len() && i != j implies first[i] != first[j] by {
            if i < j {
                assert(key(first[i]) != key(first[j]));
            } else {
                assert(key(first[j]) != key(first[i]));
            }
        }
    }
    assert(second.no_duplicates()) by {
        assert forall|i: int, j: int|
            0 <= i < second.len() && 0 <= j < second.len() && i != j implies second[i]
            != second[j] by {
            if i < j {
                assert(key(second[i]) != key(second[j]));
            } else {
                assert(key(second[j]) != key(second[i]));
            }
        }
    }
    first.unique_seq_to_set();
    second.unique_seq_to_set();
    assert(first.to_set() =~= second.to_set()) by {
        assert forall|x: T| first.contains(x) <==> second.contains(x) by {
            if first.contains(x) {
                let m = choose|m: int| 0 <= m < first.len() && first[m] == x;
                assert(second.contains(first[m]));
            }
            if second.contains(x) {
                let m = choose|m: int| 0 <= m < second.len() && second[m] == x;
                assert(first.contains(second[m]));
            }
        }
    }
    lemma_arranged_rises(first, key);
    lemma_arranged_rises(second, key);
    let a = arranged(first, key);
    let b = arranged(second, key);
    assert forall|i: int| 0 <= i < a.len() implies b.contains(#[trigger] a[i]) by {
        assert(first.contains(a[i]));
        let m = choose|m: int| 0 <= m < first.len() && first[m] == a[i];
        assert(second.contains(first[m]));
        let k = choose|k: int| 0 <= k < second.len() && second[k] == first[m];
        assert(b.contains(second[k]));
    }
    assert forall|i: int| 0 <= i < b.len() implies a.contains(#[trigger] b[i]) by {
        assert(second.contains(b[i]));
        let m = choose|m: int| 0 <= m < second.len() && second[m] == b[i];
        assert(first.contains(second[m]));
        let k = choose|k: int| 0 <= k < first.len() && first[k] == second[m];
        assert(a.contains(first[k]));
    }
    lemma_rising_order_is_unique(a, b, key);
}

/// The order in which names are listed does not matter to the order they
/// are sorted in: two lists of the same names, none of them twice, are
/// sorted the same.
pub proof fn lemma_sorted_names_order_free(first: Seq<Seq<char>>, second: Seq<Seq<char>>)
    requires
        all_among(first, second),
        all_among(second, first),
        first.no_duplicates(),
        second.no_duplicates(),
    ensures
        first.len() == second.len(),
        sorted_names(first) == sorted_names(second),
{
    let key = |name: Seq<char>| name;
    lemma_arranged_is_order_free(first, second, key);
    assert(Seq::new(first.len(), |i: int| key(first[i])) =~= first);
    assert(Seq::new(second.len(), |i: int| key(second[i])) =~= second);
    assert(sorted_names(first) =~= arranged(first, key));
    assert(sorted_names(second) =~= arranged(second, key));
}

} // verus!
