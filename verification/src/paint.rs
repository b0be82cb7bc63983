//! What a sprite asks the display to paint once it has moved.

use crate::bitmap::{
    dot_at, lemma_cell_in_range, lemma_cell_of_index, lemma_index_in_grid, scan, Bitmap, Color,
    Pixel,
};
use crate::dirty::{
    erased, erases_all_vacated, lemma_erasure_covers_vacated, lemma_erasure_spares_footprint,
    Erasure,
};
use crate::geometry::{block, Point};
use crate::rotate::{copied_dot, copied_image, rotated_image, Rotation};
use vstd::prelude::*;

verus! {

/// How to paint a sprite at its position.
pub enum Redraw {
    /// Copy the whole bitmap, unchanged, with its top-left corner at `at`.
    Blit { at: Point },
    /// Plot these dots, in this order, and nothing else.
    Dots { dots: Vec<Pixel> },
}

/// One step of a sprite on the display: first fill the strips, then paint
/// the sprite.
pub struct Repaint {
    pub erase: Erasure,
    pub redraw: Redraw,
}

impl Redraw {
    /// The dots that end up on the display when this is carried out for
    /// the bitmap `bmp`.
    pub open spec fn dots_of(&self, bmp: Bitmap) -> Seq<Pixel> {
        match self {
            Redraw::Blit { at } => copied_image(bmp, *at),
            Redraw::Dots { dots } => dots@,
        }
    }
}

/// A position from which every pixel of a footprint of the given width
/// and height has coordinates.
pub open spec fn addressable(pos: Point, width: int, height: int) -> bool {
    pos.x + width <= i32::MAX && pos.y + height <= i32::MAX
}

/// The dot that the pixel `(x, y)` of the bitmap gives when the colour
/// `key` stands for "see through": none if the pixel has that colour.
pub open spec fn keyed_dot(bmp: Bitmap, pos: Point, key: Color, x: int, y: int) -> Option<Pixel> {
    if bmp.color_at(x, y) != key {
        Some(dot_at(pos, x, y, bmp.color_at(x, y)))
    } else {
        None
    }
}

/// The dots of the bitmap with its top-left corner at `pos`, the pixels of
/// colour `key` left out.
pub open spec fn keyed_image(bmp: Bitmap, pos: Point, key: Color) -> Seq<Pixel> {
    scan(
        (bmp.width as int * bmp.height as int) as nat,
        bmp.width as int,
        |x: int, y: int| keyed_dot(bmp, pos, key, x, y),
    )
}

/// What painting a sprite comes to: an unchanged copy of the bitmap, its
/// rotation, or, where a see-through colour is set, the pixels of every
/// other colour (the angle then plays no part).
pub open spec fn painted(
    bmp: Bitmap,
    pos: Point,
    transparent_color: Option<Color>,
    rotation: Option<Rotation>,
) -> Seq<Pixel> {
    match transparent_color {
        Some(key) => keyed_image(bmp, pos, key),
        None => match rotation {
            Some(r) => rotated_image(bmp, pos, r),
            None => copied_image(bmp, pos),
        },
    }
}

/// Whether `redraw` is the way to paint a sprite at `pos`: a plain copy
/// where the bitmap is painted unchanged, else the dots, one by one.
pub open spec fn paints(
    redraw: Redraw,
    bmp: Bitmap,
    pos: Point,
    transparent_color: Option<Color>,
    rotation: Option<Rotation>,
) -> bool {
    &&& redraw.dots_of(bmp) == painted(bmp, pos, transparent_color, rotation)
    &&& transparent_color is None && rotation is None ==> redraw == (Redraw::Blit { at: pos })
    &&& transparent_color is Some || rotation is Some ==> redraw is Dots
}

/// Collects the pixels of `bmp` whose colour is not `key`, each at its
/// place on the display when the bitmap's top-left corner is at `pos`.
pub fn keyed_dots(bmp: &Bitmap, pos: Point, key: Color) -> (dots: Vec<Pixel>)
    requires
        bmp.wf(),
        addressable(pos, bmp.width as int, bmp.height as int),
        bmp.width <= i32::MAX,
        bmp.height <= i32::MAX,
    ensures
        dots@ == keyed_image(*bmp, pos, key),
{
    let w: u32 = bmp.width;
    let h: u32 = bmp.height;
    let ghost emit = |x: int, y: int| keyed_dot(*bmp, pos, key, x, y);
    let mut dots: Vec<Pixel> = Vec::new();
    let mut y: u32 = 0;
    while y < h
        invariant
            bmp.wf(),
            addressable(pos, bmp.width as int, bmp.height as int),
            w == bmp.width,
            h == bmp.height,
            w <= i32::MAX,
            h <= i32::MAX,
            y <= h,
            emit == |x: int, y: int| keyed_dot(*bmp, pos, key, x, y),
            dots@ == scan((y as int * w as int) as nat, w as int, emit),
        decreases h - y,
    {
        let mut x: u32 = 0;
        while x < w
            invariant
                bmp.wf(),
                addressable(pos, bmp.width as int, bmp.height as int),
                w == bmp.width,
                h == bmp.height,
                w <= i32::MAX,
                h <= i32::MAX,
                y < h,
                x <= w,
                emit == |x: int, y: int| keyed_dot(*bmp, pos, key, x, y),
                dots@ == scan((y as int * w as int + x as int) as nat, w as int, emit),
            decreases w - x,
        {
            proof {
                lemma_cell_of_index(x as int, y as int, w as int);
            }
            let color: Option<Color> = bmp.pixel(Point { x: x as i32, y: y as i32 });
            match color {
                Some(c) => {
                    if c != key {
                        let at: Point = Point { x: pos.x + x as i32, y: pos.y + y as i32 };
                        dots.push(Pixel { at, color: c });
                    }
                },
                None => {},
            }
            x = x + 1;
        }
        assert(y as int * w as int + w as int == (y as int + 1) * w as int) by (nonlinear_arith);
        y = y + 1;
    }
    assert(h as int * w as int == w as int * h as int) by (nonlinear_arith);
    dots
}

/// The display after `region` has been filled with `color`.
pub open spec fn after_fill(
    screen: spec_fn(int, int) -> Color,
    region: Set<(int, int)>,
    color: Color,
) -> spec_fn(int, int) -> Color {
    |x: int, y: int|
        if region.contains((x, y)) {
            color
        } else {
            screen(x, y)
        }
}

/// The display after the dots have been plotted one after the other.
pub open spec fn after_dots(screen: spec_fn(int, int) -> Color, dots: Seq<Pixel>) -> spec_fn(
    int,
    int,
) -> Color
    decreases dots.len(),
{
    if dots.len() == 0 {
        screen
    } else {
        let last = dots.last();
        let before = after_dots(screen, dots.drop_last());
        |x: int, y: int|
            if x == last.at.x && y == last.at.y {
                last.color
            } else {
                before(x, y)
            }
    }
}

/// Whether the display shows the bitmap with its top-left corner at `pos`
/// and the colour `background` everywhere else.
pub open spec fn shows(
    screen: spec_fn(int, int) -> Color,
    bmp: Bitmap,
    pos: Point,
    background: Color,
) -> bool {
    forall|x: int, y: int|
        #[trigger] screen(x, y) == if block(
            pos.x as int,
            pos.y as int,
            bmp.width as int,
            bmp.height as int,
        ).contains((x, y)) {
            bmp.color_at(x - pos.x, y - pos.y)
        } else {
            background
        }
}

impl Repaint {
    /// The display after the repaint has been carried out for the bitmap
    /// `bmp`: the strips filled first, the sprite painted after.
    pub open spec fn applied(&self, screen: spec_fn(int, int) -> Color, bmp: Bitmap) -> spec_fn(
        int,
        int,
    ) -> Color {
        after_dots(
            after_fill(screen, self.erase.region(), self.erase.background),
            self.redraw.dots_of(bmp),
        )
    }
}

/// Plotting the first `cells` pixels of an unchanged copy of the bitmap
/// changes the display at exactly those pixels, each to its colour in the
/// bitmap.
pub proof fn lemma_copy_plotted(
    screen: spec_fn(int, int) -> Color,
    bmp: Bitmap,
    pos: Point,
    cells: nat,
    x: int,
    y: int,
)
    requires
        bmp.wf(),
        addressable(pos, bmp.width as int, bmp.height as int),
        cells <= bmp.width as int * bmp.height as int,
    ensures
        after_dots(
            screen,
            scan(cells, bmp.width as int, |i: int, j: int| copied_dot(bmp, pos, i, j)),
        )(x, y) == if 0 <= x - pos.x < bmp.width && 0 <= y - pos.y && (y - pos.y) * bmp.width + (x
            - pos.x) < cells {
            bmp.color_at(x - pos.x, y - pos.y)
        } else {
            screen(x, y)
        },
    decreases cells,
{
    let w: int = bmp.width as int;
    let h: int = bmp.height as int;
    let emit = |i: int, j: int| copied_dot(bmp, pos, i, j);
    if cells > 0 {
        let n: int = cells - 1;
        lemma_copy_plotted(screen, bmp, pos, n as nat, x, y);
        lemma_index_in_grid(n, w, h);
        let column: int = n % w;
        let row: int = n / w;
        vstd::arithmetic::div_mod::lemma_fundamental_div_mod(n, w);
        assert(n == row * w + column) by (nonlinear_arith)
            requires
                n == w * row + column,
        ;
        let dot: Pixel = copied_dot(bmp, pos, column, row)->0;
        let rest: Seq<Pixel> = scan(n as nat, w, emit);
        assert(scan(cells, w, emit) == rest.push(dot));
        assert(rest.push(dot).drop_last() =~= rest);
        assert(rest.push(dot).last() == dot);
        let dx: int = x - pos.x;
        let dy: int = y - pos.y;
        if 0 <= dx < w && 0 <= dy {
            lemma_cell_of_index(dx, dy, w);
            if dy * w + dx == n {
                assert(dx == column && dy == row);
            }
        }
    }
}

/// After a move along one axis, and not further left or up than the
/// sprite's own extent, a display that showed the bitmap at the old
/// position on the background colour shows it at the new position on the
/// background colour, once the strips have been filled and the bitmap has
/// been copied to its new place.
pub proof fn lemma_move_keeps_display(
    screen: spec_fn(int, int) -> Color,
    bmp: Bitmap,
    from: Point,
    to: Point,
    background: Color,
    repaint: Repaint,
)
    requires
        bmp.wf(),
        addressable(from, bmp.width as int, bmp.height as int),
        addressable(to, bmp.width as int, bmp.height as int),
        shows(screen, bmp, from, background),
        erases_all_vacated(
            from.x as int,
            from.y as int,
            to.x as int,
            to.y as int,
            bmp.width as int,
            bmp.height as int,
        ),
        repaint.erase.background == background,
        repaint.erase.region() == erased(
            from.x as int,
            from.y as int,
            to.x as int,
            to.y as int,
            bmp.width as int,
            bmp.height as int,
        ),
        repaint.redraw.dots_of(bmp) == copied_image(bmp, to),
    ensures
        shows(repaint.applied(screen, bmp), bmp, to, background),
{
    let w: int = bmp.width as int;
    let h: int = bmp.height as int;
    let filled = after_fill(screen, repaint.erase.region(), background);
    let after = repaint.applied(screen, bmp);
    lemma_erasure_covers_vacated(from.x as int, from.y as int, to.x as int, to.y as int, w, h);
    lemma_erasure_spares_footprint(from.x as int, from.y as int, to.x as int, to.y as int, w, h);
    assert forall|x: int, y: int|
        #[trigger] after(x, y) == if block(to.x as int, to.y as int, w, h).contains((x, y)) {
            bmp.color_at(x - to.x, y - to.y)
        } else {
            background
        } by {
        lemma_copy_plotted(filled, bmp, to, (w * h) as nat, x, y);
        let dx: int = x - to.x;
        let dy: int = y - to.y;
        if 0 <= dx < w && 0 <= dy {
            if dy < h {
                lemma_cell_in_range(dx, dy, w, h);
            } else {
                assert(dy * w + dx >= w * h) by (nonlinear_arith)
                    requires
                        dy >= h,
                        dx >= 0,
                        w > 0,
                ;
            }
        }
        if !block(to.x as int, to.y as int, w, h).contains((x, y)) {
            assert(after(x, y) == filled(x, y));
            if block(from.x as int, from.y as int, w, h).contains((x, y)) {
                assert(block(from.x as int, from.y as int, w, h).difference(
                    block(to.x as int, to.y as int, w, h),
                ).contains((x, y)));
                assert(repaint.erase.region().contains((x, y)));
            }
        }
    }
}

} // verus!
