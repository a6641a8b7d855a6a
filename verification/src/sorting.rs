//! The order of texts, and lists of texts in that order.

use vstd::prelude::*;
use crate::text::texts;

verus! {

/// Whether `a` comes before `b` in the order of texts: at the first place
/// where the two differ `a` has the character with the lower code, or `a`
/// ends there and `b` goes on.
pub open spec fn precedes(a: Seq<char>, b: Seq<char>) -> bool
    decreases a.len(),
{
    if b.len() == 0 {
        false
    } else if a.len() == 0 {
        true
    } else if a.first() != b.first() {
        (a.first() as int) < (b.first() as int)
    } else {
        precedes(a.drop_first(), b.drop_first())
    }
}

/// The sorted list `sorted` with `x` put in: behind every text that does
/// not come after it.
pub open spec fn inserted(sorted: Seq<Seq<char>>, x: Seq<char>) -> Seq<Seq<char>>
    decreases sorted.len(),
{
    if sorted.len() > 0 && precedes(x, sorted.last()) {
        inserted(sorted.drop_last(), x).push(sorted.last())
    } else {
        sorted.push(x)
    }
}

/// The texts of `list` in sorted order; texts that are equal keep their
/// order.
pub open spec fn sorted_texts(list: Seq<Seq<char>>) -> Seq<Seq<char>>
    decreases list.len(),
{
    if list.len() == 0 {
        list
    } else {
        inserted(sorted_texts(list.drop_last()), list.last())
    }
}

/// Whether no text of `list` comes before a text that stands before it.
pub open spec fn in_order(list: Seq<Seq<char>>) -> bool {
    forall|i: int, j: int| 0 <= i < j < list.len() ==> !precedes(#[trigger] list[j], #[trigger] list[i])
}

/// Of two texts at most one comes before the other.
pub proof fn lemma_precedes_is_one_way(a: Seq<char>, b: Seq<char>)
    ensures
        !(precedes(a, b) && precedes(b, a)),
    decreases a.len(),
{
    if a.len() > 0 && b.len() > 0 && a.first() == b.first() {
        lemma_precedes_is_one_way(a.drop_first(), b.drop_first());
    }
}

/// Whatever comes before `c` comes before any third text `b` too, unless
/// `b` itself comes before `c`.
pub proof fn lemma_precedes_splits(a: Seq<char>, b: Seq<char>, c: Seq<char>)
    requires
        precedes(a, c),
    ensures
        precedes(a, b) || precedes(b, c),
    decreases a.len(),
{
    if b.len() == 0 {
        assert(precedes(b, c));
    } else if a.len() == 0 {
        assert(precedes(a, b));
    } else if a.first() != b.first() {
        if (a.first() as int) < (b.first() as int) {
            assert(precedes(a, b));
        } else {
            assert((b.first() as int) < (a.first() as int));
            assert((a.first() as int) <= (c.first() as int));
            assert(precedes(b, c));
        }
    } else if b.first() != c.first() {
        assert(precedes(b, c));
    } else {
        lemma_precedes_splits(a.drop_first(), b.drop_first(), c.drop_first());
    }
}

/// Putting a text into a list in order leaves the list in order, and adds
/// that text to it and nothing else.
pub proof fn lemma_inserted_is_in_order(sorted: Seq<Seq<char>>, x: Seq<char>)
    requires
        in_order(sorted),
    ensures
        in_order(inserted(sorted, x)),
        inserted(sorted, x).to_multiset() == sorted.to_multiset().insert(x),
        inserted(sorted, x).len() == sorted.len() + 1,
        forall|k: int|
            0 <= k < inserted(sorted, x).len() ==> (#[trigger] inserted(sorted, x)[k] == x || exists|
                i: int,
            |
                0 <= i < sorted.len() && sorted[i] == inserted(sorted, x)[k]),
    decreases sorted.len(),
{
    broadcast use vstd::seq_lib::group_to_multiset_ensures;

    let result = inserted(sorted, x);
    if sorted.len() > 0 && precedes(x, sorted.last()) {
        let front = sorted.drop_last();
        let last = sorted.last();
        assert(in_order(front)) by {
            assert forall|i: int, j: int| 0 <= i < j < front.len() implies !precedes(
                #[trigger] front[j],
                #[trigger] front[i],
            ) by {
                assert(front[j] == sorted[j] && front[i] == sorted[i]);
            }
        }
        lemma_inserted_is_in_order(front, x);
        let inner = inserted(front, x);
        assert(result == inner.push(last));
        assert(sorted =~= front.push(last));
        assert(result.to_multiset() =~= sorted.to_multiset().insert(x));
        assert forall|i: int, j: int| 0 <= i < j < result.len() implies !precedes(
            #[trigger] result[j],
            #[trigger] result[i],
        ) by {
            if j < inner.len() {
                assert(result[j] == inner[j] && result[i] == inner[i]);
            } else {
                assert(result[j] == last);
                assert(result[i] == inner[i]);
                if inner[i] == x {
                    lemma_precedes_is_one_way(x, last);
                } else {
                    let k = choose|k: int| 0 <= k < front.len() && front[k] == inner[i];
                    assert(sorted[k] == front[k]);
                    assert(sorted[sorted.len() - 1] == last);
                }
            }
        }
        assert forall|k: int| 0 <= k < result.len() implies (#[trigger] result[k] == x || exists|
            i: int,
        |
            0 <= i < sorted.len() && sorted[i] == result[k]) by {
            if k < inner.len() {
                assert(result[k] == inner[k]);
                if inner[k] != x {
                    let i = choose|i: int| 0 <= i < front.len() && front[i] == inner[k];
                    assert(sorted[i] == result[k]);
                }
            } else {
                assert(sorted[sorted.len() - 1] == result[k]);
            }
        }
    } else {
        assert(result == sorted.push(x));
        assert forall|i: int, j: int| 0 <= i < j < result.len() implies !precedes(
            #[trigger] result[j],
            #[trigger] result[i],
        ) by {
            if j < sorted.len() {
                assert(result[j] == sorted[j] && result[i] == sorted[i]);
            } else {
                assert(result[j] == x);
                assert(result[i] == sorted[i]);
                if i < sorted.len() - 1 {
                    // sorted[i] does not come after the last text, which does
                    // not come after x.
                    if precedes(x, sorted[i]) {
                        lemma_precedes_splits(x, sorted.last(), sorted[i]);
                        assert(sorted[sorted.len() - 1] == sorted.last());
                    }
                }
            }
        }
        assert forall|k: int| 0 <= k < result.len() implies (#[trigger] result[k] == x || exists|
            i: int,
        |
            0 <= i < sorted.len() && sorted[i] == result[k]) by {
            if k < sorted.len() {
                assert(sorted[k] == result[k]);
            }
        }
    }
}

/// Sorting gives the texts of the list, each as often as the list holds
/// it, and in order.
pub proof fn lemma_sorted_texts_are_in_order(list: Seq<Seq<char>>)
    ensures
        in_order(sorted_texts(list)),
        sorted_texts(list).to_multiset() == list.to_multiset(),
        sorted_texts(list).len() == list.len(),
    decreases list.len(),
{
    broadcast use vstd::seq_lib::group_to_multiset_ensures;

    if list.len() > 0 {
        lemma_sorted_texts_are_in_order(list.drop_last());
        lemma_inserted_is_in_order(sorted_texts(list.drop_last()), list.last());
        assert(list =~= list.drop_last().push(list.last()));
    }
}

/// Of two different texts one comes before the other.
pub proof fn lemma_precedes_decides(a: Seq<char>, b: Seq<char>)
    ensures
        a == b || precedes(a, b) || precedes(b, a),
    decreases a.len(),
{
    if a.len() == 0 || b.len() == 0 {
        if a.len() == 0 && b.len() == 0 {
            assert(a =~= b);
        }
    } else if a.first() == b.first() {
        lemma_precedes_decides(a.drop_first(), b.drop_first());
        if a.drop_first() == b.drop_first() {
            assert(a =~= seq![a.first()] + a.drop_first());
            assert(b =~= seq![b.first()] + b.drop_first());
        }
    }
}

/// Two lists in order that hold the same texts, each as often as the
/// other, are the same list.
pub proof fn lemma_order_is_unique(a: Seq<Seq<char>>, b: Seq<Seq<char>>)
    requires
        in_order(a),
        in_order(b),
        a.to_multiset() == b.to_multiset(),
    ensures
        a == b,
    decreases a.len(),
{
    broadcast use vstd::seq_lib::group_to_multiset_ensures;

    a.to_multiset_ensures();
    b.to_multiset_ensures();
    assert(a.len() == b.len());
    if a.len() == 0 {
        assert(a =~= b);
    } else {
        let x = a.last();
        let y = b.last();
        // Each list holds the other's last text, which is its own last or
        // stands before it.
        assert(a.contains(x)) by {
            assert(a[a.len() - 1] == x);
        }
        assert(b.contains(y)) by {
            assert(b[b.len() - 1] == y);
        }
        assert(b.contains(x)) by {
            assert(a.to_multiset().count(x) > 0);
            assert(b.to_multiset().count(x) > 0);
        }
        assert(a.contains(y)) by {
            assert(b.to_multiset().count(y) > 0);
            assert(a.to_multiset().count(y) > 0);
        }
        let i = choose|i: int| 0 <= i < b.len() && b[i] == x;
        let j = choose|j: int| 0 <= j < a.len() && a[j] == y;
        assert(!precedes(y, x)) by {
            if i < b.len() - 1 {
                assert(!precedes(b[b.len() - 1], b[i]));
            }
            lemma_precedes_is_one_way(x, x);
        }
        assert(!precedes(x, y)) by {
            if j < a.len() - 1 {
                assert(!precedes(a[a.len() - 1], a[j]));
            }
            lemma_precedes_is_one_way(y, y);
        }
        lemma_precedes_decides(x, y);
        assert(x == y);
        let a_front = a.drop_last();
        let b_front = b.drop_last();
        assert(a =~= a_front.push(x));
        assert(b =~= b_front.push(y));
        assert(a_front.to_multiset() =~= a.to_multiset().remove(x)) by {
            assert(a_front =~= a.remove(a.len() - 1));
        }
        assert(b_front.to_multiset() =~= b.to_multiset().remove(y)) by {
            assert(b_front =~= b.remove(b.len() - 1));
        }
        assert(in_order(a_front)) by {
            assert forall|i: int, j: int| 0 <= i < j < a_front.len() implies !precedes(
                #[trigger] a_front[j],
                #[trigger] a_front[i],
            ) by {
                assert(a_front[j] == a[j] && a_front[i] == a[i]);
            }
        }
        assert(in_order(b_front)) by {
            assert forall|i: int, j: int| 0 <= i < j < b_front.len() implies !precedes(
                #[trigger] b_front[j],
                #[trigger] b_front[i],
            ) by {
                assert(b_front[j] == b[j] && b_front[i] == b[i]);
            }
        }
        lemma_order_is_unique(a_front, b_front);
    }
}

/// Sorting does not depend on the order in which the texts stand in the
/// list.
pub proof fn lemma_sorting_forgets_the_order(a: Seq<Seq<char>>, b: Seq<Seq<char>>)
    requires
        a.to_multiset() == b.to_multiset(),
    ensures
        sorted_texts(a) == sorted_texts(b),
{
    lemma_sorted_texts_are_in_order(a);
    lemma_sorted_texts_are_in_order(b);
    lemma_order_is_unique(sorted_texts(a), sorted_texts(b));
}

/// Whether `a` comes before `b` in the order of texts.
pub fn str_precedes(a: &str, b: &str) -> (before: bool)
    ensures
        before == precedes(a@, b@),
{
    let a_len: usize = a.unicode_len();
    let b_len: usize = b.unicode_len();
    let mut i: usize = 0;
    assert(a@.skip(0) =~= a@);
    assert(b@.skip(0) =~= b@);
    while i < a_len && i < b_len
        invariant
            a_len == a@.len(),
            b_len == b@.len(),
            i <= a_len,
            i <= b_len,
            precedes(a@, b@) == precedes(a@.skip(i as int), b@.skip(i as int)),
        decreases a_len - i,
    {
        let ghost a_rest = a@.skip(i as int);
        let ghost b_rest = b@.skip(i as int);
        assert(a_rest.first() == a@[i as int]);
        assert(b_rest.first() == b@[i as int]);
        assert(a_rest.drop_first() =~= a@.skip(i + 1));
        assert(b_rest.drop_first() =~= b@.skip(i + 1));
        let x = a.get_char(i);
        let y = b.get_char(i);
        if x != y {
            return (x as u32) < (y as u32);
        }
        i += 1;
    }
    i < b_len
}

/// Puts `x` into the sorted list `sorted`: behind every text that does not
/// come after it.
pub fn insert_sorted(sorted: &mut Vec<String>, x: String)
    ensures
        texts(final(sorted)@) == inserted(texts(old(sorted)@), x@),
{
    let ghost all = texts(sorted@);
    let mut place: usize = sorted.len();
    let mut searching = true;
    assert(all.subrange(0, place as int) =~= all);
    assert(all.subrange(place as int, all.len() as int) =~= Seq::<Seq<char>>::empty());
    assert(inserted(all, x@) + Seq::<Seq<char>>::empty() =~= inserted(all, x@));
    while searching && place > 0
        invariant
            sorted@ == old(sorted)@,
            all == texts(sorted@),
            place <= all.len(),
            inserted(all, x@) == inserted(all.subrange(0, place as int), x@) + all.subrange(
                place as int,
                all.len() as int,
            ),
            !searching ==> place > 0 && !precedes(x@, all[place - 1]),
        decreases place + (if searching { 1int } else { 0int }),
    {
        let ghost front = all.subrange(0, place as int);
        assert(front.last() == all[place - 1]);
        assert(front.drop_last() =~= all.subrange(0, place - 1));
        if str_precedes(x.as_str(), sorted[place - 1].as_str()) {
            assert(inserted(front.drop_last(), x@).push(all[place - 1]) + all.subrange(
                place as int,
                all.len() as int,
            ) =~= inserted(front.drop_last(), x@) + all.subrange(place - 1, all.len() as int));
            place -= 1;
        } else {
            searching = false;
        }
    }
    let ghost front = all.subrange(0, place as int);
    assert(inserted(front, x@) == front.push(x@)) by {
        if place > 0 {
            assert(front.last() == all[place - 1]);
        }
    }
    sorted.insert(place, x);
    assert(texts(sorted@) =~= front.push(x@) + all.subrange(place as int, all.len() as int));
}

/// Sorts a list of texts; texts that are equal keep their order.
pub fn sort_texts(list: &Vec<String>) -> (sorted: Vec<String>)
    ensures
        texts(sorted@) == sorted_texts(texts(list@)),
{
    let mut sorted: Vec<String> = Vec::new();
    let mut i: usize = 0;
    assert(texts(list@).subrange(0, 0) =~= Seq::<Seq<char>>::empty());
    assert(texts(sorted@) =~= Seq::<Seq<char>>::empty());
    while i < list.len()
        invariant
            i <= list@.len(),
            texts(sorted@) == sorted_texts(texts(list@).subrange(0, i as int)),
        decreases list@.len() - i,
    {
        let ghost longer = texts(list@).subrange(0, i + 1);
        assert(longer.drop_last() =~= texts(list@).subrange(0, i as int));
        assert(longer.last() == list@[i as int]@);
        insert_sorted(&mut sorted, list[i].clone());
        i += 1;
    }
    assert(texts(list@).subrange(0, i as int) =~= texts(list@));
    sorted
}

} // verus!
