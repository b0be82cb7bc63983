//! A read-only grid of pixels in the display's native 16-bit colour format.

use crate::geometry::{Point, Size, TFT_DISPLAY_HEIGHT, TFT_DISPLAY_WIDTH};
use vstd::prelude::*;

verus! {

/// A colour as the display stores it: five bits of red, six of green and
/// five of blue.
pub type Color = u16;

/// The colour black.
pub const BLACK: Color = 0x0000;

/// The colour white.
pub const WHITE: Color = 0xffff;

/// An image held in memory, row by row from the top, each row from the left.
pub struct Bitmap {
    pub width: u32,
    pub height: u32,
    pub pixels: Vec<Color>,
}

/// One coloured dot on the display.
#[derive(Clone, Copy, Debug, PartialEq, Eq, Structural)]
pub struct Pixel {
    pub at: Point,
    pub color: Color,
}

/// The dot of the given colour for the pixel `(x, y)` of a picture whose
/// top-left corner is at `pos`.
pub open spec fn dot_at(pos: Point, x: int, y: int, color: Color) -> Pixel {
    Pixel { at: Point { x: (pos.x + x) as i32, y: (pos.y + y) as i32 }, color }
}

/// The dots that a pass over the first `cells` cells of a grid with `w`
/// columns leaves, row by row from the top and each row from the left,
/// where `emit` says for a column and a row which dot the cell gives, if
/// any.
pub open spec fn scan(cells: nat, w: int, emit: spec_fn(int, int) -> Option<Pixel>) -> Seq<Pixel>
    decreases cells,
{
    if cells == 0 {
        Seq::empty()
    } else {
        let i = (cells - 1) as nat;
        match emit(i as int % w, i as int / w) {
            Some(p) => scan(i, w, emit).push(p),
            None => scan(i, w, emit),
        }
    }
}

/// Cell `y * w + x` of a grid with `w` columns is the one in column `x` of
/// row `y`.
pub proof fn lemma_cell_of_index(x: int, y: int, w: int)
    requires
        0 <= x < w,
        0 <= y,
    ensures
        0 <= y * w + x,
        (y * w + x) % w == x,
        (y * w + x) / w == y,
{
    assert(0 <= y * w) by (nonlinear_arith)
        requires
            0 <= y,
            0 <= w,
    ;
    vstd::arithmetic::div_mod::lemma_fundamental_div_mod_converse(y * w + x, w, y, x);
}

/// Every dot of a pass comes from one of the cells passed over.
pub proof fn lemma_scan_members(
    cells: nat,
    w: int,
    emit: spec_fn(int, int) -> Option<Pixel>,
    k: int,
)
    requires
        0 <= k < scan(cells, w, emit).len(),
    ensures
        exists|i: int|
            0 <= i < cells && #[trigger] emit(i % w, i / w) == Some(scan(cells, w, emit)[k]),
    decreases cells,
{
    let i = (cells - 1) as nat;
    let rest = scan(i, w, emit);
    if k < rest.len() {
        lemma_scan_members(i, w, emit, k);
        let j = choose|j: int| 0 <= j < i && #[trigger] emit(j % w, j / w) == Some(rest[k]);
        assert(emit(j % w, j / w) == Some(scan(cells, w, emit)[k]));
    } else {
        assert(emit(i as int % w, i as int / w) == Some(scan(cells, w, emit)[k]));
    }
}

/// Two passes over the same cells whose cells give the same dots leave
/// the same dots.
pub proof fn lemma_scan_agree(
    cells: nat,
    w: int,
    first: spec_fn(int, int) -> Option<Pixel>,
    second: spec_fn(int, int) -> Option<Pixel>,
)
    requires
        forall|i: int|
            0 <= i < cells ==> #[trigger] first(i % w, i / w) == second(i % w, i / w),
    ensures
        scan(cells, w, first) == scan(cells, w, second),
    decreases cells,
{
    if cells > 0 {
        let i = (cells - 1) as nat;
        lemma_scan_agree(i, w, first, second);
        assert(first(i as int % w, i as int / w) == second(i as int % w, i as int / w));
    }
}

/// Cell `i` of a grid with `w` columns and `h` rows lies in a column below
/// `w` and a row below `h`.
pub proof fn lemma_index_in_grid(i: int, w: int, h: int)
    requires
        0 <= i < w * h,
        0 < w,
    ensures
        0 <= i % w < w,
        0 <= i / w < h,
{
    vstd::arithmetic::div_mod::lemma_fundamental_div_mod(i, w);
    vstd::arithmetic::div_mod::lemma_mod_pos_bound(i, w);
    let q: int = i / w;
    assert(q < h) by (nonlinear_arith)
        requires
            i == w * q + i % w,
            0 <= i % w,
            i < w * h,
            0 < w,
    ;
    assert(0 <= q) by (nonlinear_arith)
        requires
            i == w * q + i % w,
            i % w < w,
            0 <= i,
            0 < w,
    ;
}

/// The top-left corner at which an image of the given size sits in the
/// middle of the display.
pub open spec fn centered_on_screen(size: Size) -> Point {
    Point {
        x: (TFT_DISPLAY_WIDTH as int / 2 - size.width as int / 2) as i32,
        y: (TFT_DISPLAY_HEIGHT as int / 2 - size.height as int / 2) as i32,
    }
}

/// The top-left corner at which an image of the given size sits in the
/// bottom-right corner of the display.
pub open spec fn cornered_on_screen(size: Size) -> Point {
    Point {
        x: (TFT_DISPLAY_WIDTH as int - size.width as int) as i32,
        y: (TFT_DISPLAY_HEIGHT as int - size.height as int) as i32,
    }
}

/// Placement of an image relative to the display.
pub trait BmpExt {
    /// The extent of the image.
    spec fn extent(&self) -> Size;

    /// The top-left corner that centres the image on the display.
    fn screen_center(&self) -> (p: Point)
        ensures
            p == centered_on_screen(self.extent()),
    ;

    /// The top-left corner that puts the image in the bottom-right corner
    /// of the display.
    fn screen_bottom_right(&self) -> (p: Point)
        requires
            self.extent().width <= i32::MAX,
            self.extent().height <= i32::MAX,
        ensures
            p == cornered_on_screen(self.extent()),
    ;
}

impl Bitmap {
    /// A bitmap is well formed when it has at least one pixel and holds
    /// exactly one colour for each.
    pub open spec fn wf(&self) -> bool {
        &&& self.width > 0
        &&& self.height > 0
        &&& self.pixels@.len() == self.width as int * self.height as int
    }

    /// The extent of the image.
    pub open spec fn extent_of(&self) -> Size {
        Size { width: self.width, height: self.height }
    }

    /// Whether `(x, y)` names a pixel of the image.
    pub open spec fn in_bounds(&self, x: int, y: int) -> bool {
        0 <= x < self.width && 0 <= y < self.height
    }

    /// The colour stored for the pixel in column `x` of row `y`.
    pub open spec fn color_at(&self, x: int, y: int) -> Color
        recommends
            self.wf(),
            self.in_bounds(x, y),
    {
        self.pixels@[y * self.width as int + x]
    }

    /// Builds a bitmap from its rows. Returns `None` when a dimension is
    /// zero or the number of colours is not `width * height`.
    pub fn new(width: u32, height: u32, pixels: Vec<Color>) -> (bitmap: Option<Bitmap>)
        ensures
            bitmap is Some <==> width > 0 && height > 0 && pixels@.len() == width as int
                * height as int,
            bitmap matches Some(b) ==> b.wf() && b.width == width && b.height == height
                && b.pixels@ == pixels@,
    {
        if width == 0 || height == 0 {
            return None;
        }
        proof {
            lemma_product_bounded(width as int, height as int, 0xffff_ffff, 0xffff_ffff);
        }
        let count: u64 = width as u64 * height as u64;
        if pixels.len() as u64 != count {
            return None;
        }
        Some(Bitmap { width, height, pixels })
    }

    /// The extent of the image.
    pub fn size(&self) -> (s: Size)
        ensures
            s == self.extent_of(),
    {
        Size { width: self.width, height: self.height }
    }

    /// The colour at `p`, or `None` when `p` lies outside the image.
    pub fn pixel(&self, p: Point) -> (color: Option<Color>)
        requires
            self.wf(),
        ensures
            color is Some <==> self.in_bounds(p.x as int, p.y as int),
            color matches Some(c) ==> c == self.color_at(p.x as int, p.y as int),
    {
        if p.x < 0 || p.y < 0 {
            return None;
        }
        let x: u64 = p.x as u64;
        let y: u64 = p.y as u64;
        if x >= self.width as u64 || y >= self.height as u64 {
            return None;
        }
        proof {
            lemma_cell_in_range(x as int, y as int, self.width as int, self.height as int);
            lemma_product_bounded(y as int, self.width as int, 0xffff_ffff, 0xffff_ffff);
        }
        let index: u64 = y * self.width as u64 + x;
        let len: usize = self.pixels.len();
        assert(index < len);
        Some(self.pixels[index as usize])
    }
}

/// A product of two bounded natural numbers is bounded by the product of
/// the bounds.
pub proof fn lemma_product_bounded(a: int, b: int, a_max: int, b_max: int)
    by (nonlinear_arith)
    requires
        0 <= a <= a_max,
        0 <= b <= b_max,
    ensures
        0 <= a * b <= a_max * b_max,
{
}

/// The cell in column `x` of row `y` of a grid with `w` columns and `h`
/// rows has an index below `w * h`.
pub proof fn lemma_cell_in_range(x: int, y: int, w: int, h: int)
    requires
        0 <= x < w,
        0 <= y < h,
    ensures
        0 <= y * w + x < w * h,
        0 <= y * w,
{
    assert(y * w >= 0) by (nonlinear_arith)
        requires
            y >= 0,
            w >= 0,
    ;
    assert(y * w + w <= h * w) by (nonlinear_arith)
        requires
            y + 1 <= h,
            w >= 0,
    ;
    assert(h * w == w * h) by (nonlinear_arith);
}

impl BmpExt for Bitmap {
    open spec fn extent(&self) -> Size {
        self.extent_of()
    }

    fn screen_center(&self) -> (p: Point) {
        let x: i64 = TFT_DISPLAY_WIDTH as i64 / 2 - self.width as i64 / 2;
        let y: i64 = TFT_DISPLAY_HEIGHT as i64 / 2 - self.height as i64 / 2;
        Point { x: x as i32, y: y as i32 }
    }

    fn screen_bottom_right(&self) -> (p: Point) {
        let x: i64 = TFT_DISPLAY_WIDTH as i64 - self.width as i64;
        let y: i64 = TFT_DISPLAY_HEIGHT as i64 - self.height as i64;
        Point { x: x as i32, y: y as i32 }
    }
}

/// Whether the bitmap is well formed and no larger than the display.
pub fn bitmap_fits_display(bmp: &Bitmap) -> (fits: bool)
    ensures
        fits == (bmp.wf() && bmp.width <= TFT_DISPLAY_WIDTH && bmp.height <= TFT_DISPLAY_HEIGHT),
{
    if bmp.width == 0 || bmp.height == 0 || bmp.width > TFT_DISPLAY_WIDTH as u32 || bmp.height
        > TFT_DISPLAY_HEIGHT as u32 {
        return false;
    }
    proof {
        lemma_product_bounded(bmp.width as int, bmp.height as int, 320, 240);
    }
    let count: u64 = bmp.width as u64 * bmp.height as u64;
    bmp.pixels.len() as u64 == count
}

} // verus!
