//! The list of sprites shown on a line: at most ten, held in an `ArrayVec`.
use vstd::prelude::*;
use arrayvec::ArrayVec;

verus! {

/// A sprite as four bytes in screen coordinates: Y, X, tile number and
/// attributes.
pub type SpriteEntry = (u8, u8, u8, u8);

/// An `ArrayVec` with room for the ten sprites that a line can show.
#[verifier::external_body]
pub struct SpriteList {
    list: ArrayVec<[SpriteEntry; 10]>,
}

/// The sprites in a list, in order.
pub uninterp spec fn sprite_list_items(list: SpriteList) -> Seq<SpriteEntry>;

/// `ArrayVec::new`: an empty list.
#[verifier::external_body]
pub(crate) fn sprite_list_new() -> (r: SpriteList)
    ensures
        sprite_list_items(r) == Seq::<SpriteEntry>::empty(),
{
    SpriteList { list: ArrayVec::new() }
}

/// `ArrayVec::push`: appends a sprite; the list must have room, as `push`
/// panics on a full list.
#[verifier::external_body]
pub(crate) fn sprite_list_push(list: &mut SpriteList, entry: SpriteEntry)
    requires
        sprite_list_items(*old(list)).len() < 10,
    ensures
        sprite_list_items(*final(list)) == sprite_list_items(*old(list)).push(entry),
{
    list.list.push(entry)
}

/// `ArrayVec::len`: the number of sprites.
#[verifier::external_body]
pub(crate) fn sprite_list_len(list: &SpriteList) -> (r: usize)
    ensures
        r == sprite_list_items(*list).len(),
{
    list.list.len()
}

/// Indexing an `ArrayVec`: the sprite at `index`.
#[verifier::external_body]
pub(crate) fn sprite_list_get(list: &SpriteList, index: usize) -> (r: SpriteEntry)
    requires
        index < sprite_list_items(*list).len(),
    ensures
        r == sprite_list_items(*list)[index as int],
{
    list.list[index]
}

} // verus!
