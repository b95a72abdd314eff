//! Items lying in the maze: money (`'m'`) and, once all money is picked up,
//! the bag (`'b'`). Items never move, and every spot they are placed on is a
//! whole number of tenths of a block, so a spot is kept as two integers.

use vstd::prelude::*;

verus! {

/// An item at `(x_tenths / 10, y_tenths / 10)` blocks, drawn with sprite `texture_key`.
#[derive(Clone, Copy, PartialEq, Eq, Structural, Debug)]
pub struct Collectable {
    pub x_tenths: u32,
    pub y_tenths: u32,
    pub texture_key: char,
}

impl Collectable {
    /// An item at `(x_tenths / 10, y_tenths / 10)` blocks.
    pub fn new(x_tenths: u32, y_tenths: u32, texture_key: char) -> (c: Collectable)
        ensures
            c == (Collectable { x_tenths, y_tenths, texture_key }),
    {
        Collectable { x_tenths, y_tenths, texture_key }
    }
}

/// The number of items in `items` drawn with sprite `key`.
pub open spec fn count_key(items: Seq<Collectable>, key: char) -> nat
    decreases items.len(),
{
    if items.len() == 0 {
        0
    } else {
        count_key(items.drop_last(), key) + if items.last().texture_key == key { 1nat } else { 0nat }
    }
}

/// The items of `items` whose flag in `near` is false, in their order.
pub open spec fn kept_items(items: Seq<Collectable>, near: Seq<bool>) -> Seq<Collectable>
    decreases items.len(),
{
    if items.len() == 0 || near.len() == 0 {
        seq![]
    } else {
        let k = kept_items(items.drop_last(), near.drop_last());
        if near.last() { k } else { k.push(items.last()) }
    }
}

/// The number of items whose flag in `near` is true and whose sprite is `key`.
pub open spec fn count_near_key(items: Seq<Collectable>, near: Seq<bool>, key: char) -> nat
    decreases items.len(),
{
    if items.len() == 0 || near.len() == 0 {
        0
    } else {
        count_near_key(items.drop_last(), near.drop_last(), key) + if near.last() && items.last().texture_key
            == key {
            1nat
        } else {
            0nat
        }
    }
}

/// The number of true flags in `near`.
pub open spec fn count_true(near: Seq<bool>) -> nat
    decreases near.len(),
{
    if near.len() == 0 {
        0
    } else {
        count_true(near.drop_last()) + if near.last() { 1nat } else { 0nat }
    }
}

/// Of the items with sprite `key`, those flagged in `near` and those kept add
/// up to all of them.
pub proof fn lemma_count_split(items: Seq<Collectable>, near: Seq<bool>, key: char)
    requires
        items.len() == near.len(),
    ensures
        count_key(kept_items(items, near), key) + count_near_key(items, near, key) == count_key(items, key),
    decreases items.len(),
{
    if items.len() > 0 {
        lemma_count_split(items.drop_last(), near.drop_last(), key);
        lemma_count_push(kept_items(items.drop_last(), near.drop_last()), items.last(), key);
    }
}

/// Appending an item adds one to the count of its sprite and nothing to the others.
pub proof fn lemma_count_push(items: Seq<Collectable>, c: Collectable, key: char)
    ensures
        count_key(items.push(c), key) == count_key(items, key) + if c.texture_key == key { 1nat } else { 0nat },
{
    assert(items.push(c).drop_last() =~= items);
}

/// No more items are kept than there were, and no more are flagged than there are flags.
pub proof fn lemma_kept_len(items: Seq<Collectable>, near: Seq<bool>)
    requires
        items.len() == near.len(),
    ensures
        kept_items(items, near).len() + count_true(near) == items.len(),
    decreases items.len(),
{
    if items.len() > 0 {
        lemma_kept_len(items.drop_last(), near.drop_last());
    }
}

/// When every item has sprite `key`, all of them count for `key` and none for any other sprite.
pub proof fn lemma_count_uniform(items: Seq<Collectable>, key: char, other: char)
    requires
        key != other,
        forall|i: int| 0 <= i < items.len() ==> #[trigger] items[i].texture_key == key,
    ensures
        count_key(items, key) == items.len(),
        count_key(items, other) == 0,
    decreases items.len(),
{
    if items.len() > 0 {
        let rest = items.drop_last();
        assert(forall|i: int| 0 <= i < rest.len() ==> #[trigger] rest[i].texture_key == items[i].texture_key);
        lemma_count_uniform(rest, key, other);
    }
}

/// Counting only the first `i` items and flags gives no more than counting all.
pub proof fn lemma_count_near_prefix(items: Seq<Collectable>, near: Seq<bool>, key: char, i: int)
    requires
        items.len() == near.len(),
        0 <= i <= items.len(),
    ensures
        count_near_key(items.take(i), near.take(i), key) <= count_near_key(items, near, key),
    decreases items.len(),
{
    if i == items.len() {
        assert(items.take(i) =~= items);
        assert(near.take(i) =~= near);
    } else {
        assert(items.drop_last().take(i) =~= items.take(i));
        assert(near.drop_last().take(i) =~= near.take(i));
        lemma_count_near_prefix(items.drop_last(), near.drop_last(), key, i);
    }
}

/// With no item flagged, every item is kept and none is counted as flagged.
pub proof fn lemma_nothing_near(items: Seq<Collectable>, near: Seq<bool>, key: char)
    requires
        items.len() == near.len(),
        count_true(near) == 0,
    ensures
        kept_items(items, near) == items,
        count_near_key(items, near, key) == 0,
    decreases items.len(),
{
    if items.len() > 0 {
        lemma_nothing_near(items.drop_last(), near.drop_last(), key);
        assert(kept_items(items, near) =~= items);
    }
}

} // verus!
