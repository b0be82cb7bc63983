//! A record of what has been painted on the display, so that it can be
//! cleaned up later: the areas of the texts and pictures drawn, at most
//! thirty-two of them, kept without allocating.

use crate::bitmap::Bitmap;
use crate::decode::{decodable, decoded_as};
use crate::geometry::{Point, Rectangle};
use vstd::prelude::*;

verus! {

/// The bounded vector of the `heapless` crate.
#[verifier::external_type_specification]
#[verifier::external_body]
#[verifier::reject_recursive_types(T)]
pub struct ExBoundedVec<T, const N: usize>(heapless::Vec<T, N>);

/// How many areas the record holds at most.
pub const CLEANUP_CAPACITY: usize = 32;

/// The areas that a list holds, oldest first.
pub uninterp spec fn cleanup_areas(list: heapless::Vec<Rectangle, 32>) -> Seq<Rectangle>;

/// Calls `heapless::Vec::new`. Trusted: the new list holds nothing.
#[verifier::external_body]
fn cleanup_new() -> (list: heapless::Vec<Rectangle, 32>)
    ensures
        cleanup_areas(list) == Seq::<Rectangle>::empty(),
{
    heapless::Vec::new()
}

/// Calls `heapless::Vec::push`. Trusted: a list that holds fewer areas
/// than its capacity takes the area at its end and the call succeeds; a
/// full list stays as it is and the call fails.
#[verifier::external_body]
fn cleanup_push(list: &mut heapless::Vec<Rectangle, 32>, area: Rectangle) -> (taken: bool)
    ensures
        taken == (cleanup_areas(*old(list)).len() < CLEANUP_CAPACITY),
        taken ==> cleanup_areas(*final(list)) == cleanup_areas(*old(list)).push(area),
        !taken ==> cleanup_areas(*final(list)) == cleanup_areas(*old(list)),
{
    list.push(area).is_ok()
}

/// Calls `heapless::Vec::as_slice` and copies the areas out. Trusted: the
/// copy holds the areas of the list, oldest first.
#[verifier::external_body]
fn cleanup_copy(list: &heapless::Vec<Rectangle, 32>) -> (areas: Vec<Rectangle>)
    ensures
        areas@ == cleanup_areas(*list),
{
    list.as_slice().to_vec()
}

/// The record of the areas painted.
pub struct Draw {
    pub cleanup: heapless::Vec<Rectangle, 32>,
}

impl Draw {
    /// The areas recorded, oldest first.
    pub open spec fn areas(&self) -> Seq<Rectangle> {
        cleanup_areas(self.cleanup)
    }

    /// A record of nothing.
    pub fn new() -> (draw: Draw)
        ensures
            draw.areas() == Seq::<Rectangle>::empty(),
    {
        Draw { cleanup: cleanup_new() }
    }

    /// Records that `area` has been painted. Returns whether there was
    /// room for it; a full record stays as it is.
    pub fn record(&mut self, area: Rectangle) -> (recorded: bool)
        ensures
            recorded == (old(self).areas().len() < CLEANUP_CAPACITY),
            recorded ==> final(self).areas() == old(self).areas().push(area),
            !recorded ==> final(self).areas() == old(self).areas(),
    {
        cleanup_push(&mut self.cleanup, area)
    }

    /// The areas recorded, oldest first.
    pub fn recorded(&self) -> (areas: Vec<Rectangle>)
        ensures
            areas@ == self.areas(),
    {
        cleanup_copy(&self.cleanup)
    }

    /// Reads the picture in the bytes of a BMP file, to be painted with
    /// its top-left corner at `(x, y)`, and records its area. Returns
    /// `None`, and records nothing, where the file cannot be turned into a
    /// bitmap or the record is full.
    pub fn bmp(&mut self, bytes: &[u8], x: i32, y: i32) -> (picture: Option<Bitmap>)
        ensures
            picture is Some <==> decodable(bytes@) && old(self).areas().len() < CLEANUP_CAPACITY,
            picture matches Some(b) ==> decoded_as(bytes@, b) && final(self).areas() == old(
                self,
            ).areas().push(Rectangle { top_left: Point { x, y }, size: b.extent_of() }),
            picture is None ==> final(self).areas() == old(self).areas(),
    {
        match Bitmap::from_bmp(bytes) {
            Some(bitmap) => {
                let area: Rectangle = Rectangle { top_left: Point { x, y }, size: bitmap.size() };
                if self.record(area) {
                    Some(bitmap)
                } else {
                    None
                }
            },
            None => None,
        }
    }
}

} // verus!
