//! The blocks of an open document, in order, each known by its identifier.

use vstd::prelude::*;

verus! {

/// A block of a document: its 128-bit identifier and its view `E`.
pub struct ElementNode<E> {
    pub id: u128,
    pub element: E,
}

impl<E> ElementNode<E> {
    /// The block `element` under the identifier `id`.
    pub fn with_id(id: u128, element: E) -> (r: Self)
        ensures
            r.id == id,
            r.element == element,
    {
        ElementNode { id, element }
    }
}

/// The identifiers of the blocks, in order.
pub open spec fn block_ids<E>(blocks: Seq<ElementNode<E>>) -> Seq<u128> {
    blocks.map_values(|b: ElementNode<E>| b.id)
}

/// Whether `id` is the identifier of `blocks[i]` and of no block before it.
pub open spec fn is_first_with_id<E>(blocks: Seq<ElementNode<E>>, id: u128, i: int) -> bool {
    0 <= i < blocks.len() && blocks[i].id == id && forall|j: int| 0 <= j < i ==> blocks[j].id != id
}

/// Whether some block has identifier `id`.
pub open spec fn has_id<E>(blocks: Seq<ElementNode<E>>, id: u128) -> bool {
    exists|i: int| 0 <= i < blocks.len() && blocks[i].id == id
}

/// The position of the first block with identifier `id`.
pub fn position_of<E>(blocks: &Vec<ElementNode<E>>, id: u128) -> (r: Option<usize>)
    ensures
        r matches Some(i) ==> is_first_with_id(blocks@, id, i as int),
        r is None <==> !has_id(blocks@, id),
{
    let n = blocks.len();
    let mut i: usize = 0;
    while i < n
        invariant
            i <= n,
            n == blocks@.len(),
            forall|j: int| 0 <= j < i ==> blocks@[j].id != id,
        decreases n - i,
    {
        if blocks[i].id == id {
            return Some(i);
        }
        i = i + 1;
    }
    None
}

/// Where a block inserted after the block `id` goes: just after the first
/// block with that identifier, or at the front when there is none.
pub fn insertion_index_after<E>(blocks: &Vec<ElementNode<E>>, id: u128) -> (r: usize)
    ensures
        has_id(blocks@, id) ==> r >= 1 && is_first_with_id(blocks@, id, r - 1),
        !has_id(blocks@, id) ==> r == 0,
{
    let n = blocks.len();
    match position_of(blocks, id) {
        Some(i) => {
            proof {
                assert(i < n);
            }
            i + 1
        },
        None => 0,
    }
}

/// Removes the block at `index` and returns the position of the block that
/// takes the focus: the one before it, or the new first block when the
/// removed one was first; none when no block is left.
pub fn remove_and_previous<E>(blocks: &mut Vec<ElementNode<E>>, index: usize) -> (r: Option<usize>)
    requires
        index < old(blocks)@.len(),
    ensures
        final(blocks)@ == old(blocks)@.remove(index as int),
        r matches Some(p) ==> p < final(blocks)@.len() && p == if index > 0 {
            index - 1
        } else {
            0
        },
        r is None <==> final(blocks)@.len() == 0,
{
    blocks.remove(index);
    let p = if index > 0 {
        index - 1
    } else {
        0
    };
    if p < blocks.len() {
        Some(p)
    } else {
        None
    }
}

} // verus!
