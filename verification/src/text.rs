//! Joining pieces of text with a separator.

use vstd::prelude::*;
use vstd::string::*;

verus! {

/// The items in order, with `sep` between each two neighbours and nowhere else.
pub open spec fn join(items: Seq<Seq<char>>, sep: Seq<char>) -> Seq<char>
    decreases items.len(),
{
    if items.len() == 0 {
        Seq::empty()
    } else if items.len() == 1 {
        items[0]
    } else {
        join(items.drop_last(), sep) + sep + items.last()
    }
}

/// What each string of `items` holds.
pub open spec fn texts(items: Seq<String>) -> Seq<Seq<char>> {
    items.map_values(|s: String| s@)
}

/// Joins owned strings with a separator.
pub fn join_strings(items: &Vec<String>, sep: &str) -> (r: String)
    ensures
        r@ == join(texts(items@), sep@),
{
    let mut out = String::new();
    let mut i: usize = 0;
    while i < items.len()
        invariant
            i <= items.len(),
            out@ == join(texts(items@).take(i as int), sep@),
        decreases items.len() - i,
    {
        if i > 0 {
            out.append(sep);
        }
        out.append(items[i].as_str());
        proof {
            let t = texts(items@);
            assert(t.take(i + 1).drop_last() =~= t.take(i as int));
            assert(t.take(i + 1).last() == items@[i as int]@);
            assert(Seq::<char>::empty() + items@[i as int]@ =~= items@[i as int]@);
        }
        i += 1;
    }
    proof {
        assert(texts(items@).take(items.len() as int) =~= texts(items@));
    }
    out
}

/// Where the item `i` starts in the joined text.
pub open spec fn item_start(items: Seq<Seq<char>>, sep: Seq<char>, i: int) -> int {
    if i <= 0 {
        0
    } else {
        (join(items.take(i), sep).len() + sep.len()) as int
    }
}

/// The joined text holds each item whole, at its start, and the next item
/// starts behind it and one separator.
pub proof fn lemma_join_holds_item(items: Seq<Seq<char>>, sep: Seq<char>, i: int)
    requires
        0 <= i < items.len(),
    ensures
        item_start(items, sep, i) + items[i].len() <= join(items, sep).len(),
        join(items, sep).subrange(
            item_start(items, sep, i),
            item_start(items, sep, i) + items[i].len(),
        ) == items[i],
        item_start(items, sep, i + 1) == item_start(items, sep, i) + items[i].len() + sep.len(),
        i == items.len() - 1 ==> item_start(items, sep, i) + items[i].len() == join(
            items,
            sep,
        ).len(),
    decreases items.len(),
{
    let n = items.len() as int;
    let front = items.drop_last();
    // the start of the next item
    assert(items.take(i + 1).last() == items[i]);
    assert(items.take(i + 1).drop_last() =~= items.take(i));
    if i == 0 {
        assert(join(items.take(1), sep) == items[0]);
    } else {
        assert(join(items.take(i + 1), sep) == join(items.take(i), sep) + sep + items[i]);
    }
    // the item itself
    if n == 1 {
        assert(join(items, sep).subrange(0, items[0].len() as int) =~= items[0]);
    } else if i == n - 1 {
        assert(items.take(i) =~= front);
        let j = join(front, sep);
        assert(join(items, sep) == j + sep + items[i]);
        assert((j + sep + items[i]).subrange(
            (j.len() + sep.len()) as int,
            (j.len() + sep.len() + items[i].len()) as int,
        ) =~= items[i]);
    } else {
        lemma_join_holds_item(front, sep, i);
        assert(front.take(i) =~= items.take(i));
        assert(front[i] == items[i]);
        let j = join(front, sep);
        let a = item_start(items, sep, i);
        assert((j + sep + items.last()).subrange(a, a + items[i].len()) =~= j.subrange(
            a,
            a + items[i].len(),
        ));
    }
}

} // verus!
