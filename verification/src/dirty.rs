//! Dirty rectangles: what to repaint with the background colour after a
//! sprite has moved, so that the whole display need not be redrawn.
//!
//! A move erases up to two strips. Both are laid out against the sprite's
//! new position: a strip of columns beside the new footprint on the side
//! the sprite came from, over the new footprint's rows, and a strip of rows
//! above or below it, over the new footprint's columns.

use crate::bitmap::Color;
use crate::geometry::{block, Point, Rectangle, Size};
use vstd::prelude::*;

verus! {

/// What a move repaints with the background colour.
#[derive(Clone, Copy, Debug, PartialEq, Eq, Structural)]
pub struct Erasure {
    /// The colour to fill with.
    pub background: Color,
    /// The strip of columns left behind by a horizontal move.
    pub columns: Option<Rectangle>,
    /// The strip of rows left behind by a vertical move.
    pub rows: Option<Rectangle>,
}

/// Where on one axis the strip starts, for a sprite of the given extent
/// that moves from `from` to `to`: at the old near edge when the coordinate
/// grows, else at the new far edge.
pub open spec fn strip_start(from: int, to: int, extent: int) -> int {
    if to > from {
        from
    } else {
        to + extent
    }
}

/// How far the strip reaches on that axis: the distance moved, but at most
/// the sprite's extent.
pub open spec fn strip_extent(from: int, to: int, extent: int) -> int {
    let moved = if to >= from {
        to - from
    } else {
        from - to
    };
    if moved < extent {
        moved
    } else {
        extent
    }
}

/// The pixels of the strip of columns for a move from `(ax, ay)` to
/// `(bx, by)` of a sprite `w` wide and `h` high.
pub open spec fn column_strip(ax: int, ay: int, bx: int, by: int, w: int, h: int) -> Set<
    (int, int),
> {
    if bx != ax {
        block(strip_start(ax, bx, w), by, strip_extent(ax, bx, w), h)
    } else {
        Set::empty()
    }
}

/// The pixels of the strip of rows for the same move.
pub open spec fn row_strip(ax: int, ay: int, bx: int, by: int, w: int, h: int) -> Set<(int, int)> {
    if by != ay {
        block(bx, strip_start(ay, by, h), w, strip_extent(ay, by, h))
    } else {
        Set::empty()
    }
}

/// Every pixel that the move repaints with the background colour.
pub open spec fn erased(ax: int, ay: int, bx: int, by: int, w: int, h: int) -> Set<(int, int)> {
    column_strip(ax, ay, bx, by, w, h).union(row_strip(ax, ay, bx, by, w, h))
}

/// The moves whose strips take in every pixel that the sprite leaves: the
/// sprite moves along one axis only, and if it moves left or up then by no
/// more than its own extent.
pub open spec fn erases_all_vacated(ax: int, ay: int, bx: int, by: int, w: int, h: int) -> bool {
    &&& bx == ax || by == ay
    &&& bx - ax >= -w
    &&& by - ay >= -h
}

impl Erasure {
    /// The pixels that the erasure fills.
    pub open spec fn region(&self) -> Set<(int, int)> {
        let columns = match self.columns {
            Some(r) => r.pixels(),
            None => Set::empty(),
        };
        let rows = match self.rows {
            Some(r) => r.pixels(),
            None => Set::empty(),
        };
        columns.union(rows)
    }
}

/// Whether the strips for a move to `to` can be given coordinates: on each
/// axis along which the sprite moves back, the far edge of its new
/// footprint is at most the greatest coordinate.
pub open spec fn strips_addressable(from: Point, to: Point, size: Size) -> bool {
    &&& to.x < from.x ==> to.x + size.width <= i32::MAX
    &&& to.y < from.y ==> to.y + size.height <= i32::MAX
}

/// The strips for a move from `from` to `to` of a sprite of the given
/// size, to be filled with `background`: a strip of columns if the sprite
/// moved sideways, a strip of rows if it moved up or down.
pub open spec fn erasure_plan(from: Point, to: Point, size: Size, background: Color) -> Erasure {
    Erasure {
        background,
        columns: if to.x != from.x {
            Some(
                Rectangle {
                    top_left: Point {
                        x: strip_start(from.x as int, to.x as int, size.width as int) as i32,
                        y: to.y,
                    },
                    size: Size {
                        width: strip_extent(from.x as int, to.x as int, size.width as int) as u32,
                        height: size.height,
                    },
                },
            )
        } else {
            None
        },
        rows: if to.y != from.y {
            Some(
                Rectangle {
                    top_left: Point {
                        x: to.x,
                        y: strip_start(from.y as int, to.y as int, size.height as int) as i32,
                    },
                    size: Size {
                        width: size.width,
                        height: strip_extent(from.y as int, to.y as int, size.height as int) as u32,
                    },
                },
            )
        } else {
            None
        },
    }
}

/// The strips to repaint with `background` after a sprite of the given
/// size has moved from `from` to `to`.
pub fn erasure_for(from: Point, to: Point, size: Size, background: Color) -> (erasure: Erasure)
    requires
        strips_addressable(from, to, size),
    ensures
        erasure == erasure_plan(from, to, size, background),
        erasure.region() == erased(
            from.x as int,
            from.y as int,
            to.x as int,
            to.y as int,
            size.width as int,
            size.height as int,
        ),
{
    let columns: Option<Rectangle> = if to.x != from.x {
        let start: i32 = strip_origin(from.x, to.x, size.width);
        let extent: u32 = strip_reach(from.x, to.x, size.width);
        Some(
            Rectangle {
                top_left: Point { x: start, y: to.y },
                size: Size { width: extent, height: size.height },
            },
        )
    } else {
        None
    };
    let rows: Option<Rectangle> = if to.y != from.y {
        let start: i32 = strip_origin(from.y, to.y, size.height);
        let extent: u32 = strip_reach(from.y, to.y, size.height);
        Some(
            Rectangle {
                top_left: Point { x: to.x, y: start },
                size: Size { width: size.width, height: extent },
            },
        )
    } else {
        None
    };
    Erasure { background, columns, rows }
}

/// The coordinate at which the strip starts on one axis.
pub fn strip_origin(from: i32, to: i32, extent: u32) -> (start: i32)
    requires
        to < from ==> to + extent <= i32::MAX,
        to != from,
    ensures
        start == strip_start(from as int, to as int, extent as int),
{
    if to > from {
        from
    } else {
        (to as i64 + extent as i64) as i32
    }
}

/// How many columns or rows the strip spans on one axis.
pub fn strip_reach(from: i32, to: i32, extent: u32) -> (reach: u32)
    ensures
        reach == strip_extent(from as int, to as int, extent as int),
{
    let moved: i64 = if to >= from {
        to as i64 - from as i64
    } else {
        from as i64 - to as i64
    };
    if moved < extent as i64 {
        moved as u32
    } else {
        extent
    }
}

/// After a move along one axis, and not further left or up than the
/// sprite's own extent, every pixel that the sprite covered before and
/// does not cover now is repainted.
pub proof fn lemma_erasure_covers_vacated(ax: int, ay: int, bx: int, by: int, w: int, h: int)
    requires
        w >= 0,
        h >= 0,
        erases_all_vacated(ax, ay, bx, by, w, h),
    ensures
        block(ax, ay, w, h).difference(block(bx, by, w, h)).subset_of(erased(ax, ay, bx, by, w, h)),
{
    assert forall|p: (int, int)|
        block(ax, ay, w, h).contains(p) && !block(bx, by, w, h).contains(p) implies erased(
        ax,
        ay,
        bx,
        by,
        w,
        h,
    ).contains(p) by {
        if bx != ax {
            assert(column_strip(ax, ay, bx, by, w, h).contains(p));
        } else {
            assert(row_strip(ax, ay, bx, by, w, h).contains(p));
        }
    }
}

/// After any other move of a sprite that has pixels, some pixel that the
/// sprite covered before and does not cover now stays as it was: the one
/// in the corner that a diagonal move leaves, or the far end of the old
/// footprint after a long move left or up.
pub proof fn lemma_erasure_misses_otherwise(ax: int, ay: int, bx: int, by: int, w: int, h: int)
    requires
        w > 0,
        h > 0,
        !erases_all_vacated(ax, ay, bx, by, w, h),
    ensures
        !block(ax, ay, w, h).difference(block(bx, by, w, h)).subset_of(
            erased(ax, ay, bx, by, w, h),
        ),
{
    let px: int = if bx > ax {
        ax
    } else {
        ax + w - 1
    };
    let py: int = if by > ay {
        ay
    } else {
        ay + h - 1
    };
    let p: (int, int) = (px, py);
    assert(block(ax, ay, w, h).contains(p));
    assert(!block(bx, by, w, h).contains(p));
    assert(!column_strip(ax, ay, bx, by, w, h).contains(p));
    assert(!row_strip(ax, ay, bx, by, w, h).contains(p));
    assert(block(ax, ay, w, h).difference(block(bx, by, w, h)).contains(p));
    assert(!erased(ax, ay, bx, by, w, h).contains(p));
}

/// No move repaints a pixel of the sprite's new footprint: the redraw that
/// follows has the footprint to itself.
pub proof fn lemma_erasure_spares_footprint(ax: int, ay: int, bx: int, by: int, w: int, h: int)
    requires
        w >= 0,
        h >= 0,
    ensures
        erased(ax, ay, bx, by, w, h).disjoint(block(bx, by, w, h)),
{
    assert forall|p: (int, int)| erased(ax, ay, bx, by, w, h).contains(p) implies !block(
        bx,
        by,
        w,
        h,
    ).contains(p) by {
        if column_strip(ax, ay, bx, by, w, h).contains(p) {
        } else {
            assert(row_strip(ax, ay, bx, by, w, h).contains(p));
        }
    }
}

} // verus!
