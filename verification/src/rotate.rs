//! Rotation of a bitmap about its centre by inverse mapping: for every
//! pixel of the destination the source pixel that lands on it is looked up,
//! so the destination has no gaps at any angle.

use crate::bitmap::{
    dot_at, lemma_cell_of_index, lemma_index_in_grid, lemma_scan_agree, lemma_scan_members, scan,
    Bitmap, Pixel,
};
use crate::fixed_point::{round_half_away, Fixed, ONE_BITS};
use crate::geometry::Point;
use vstd::prelude::*;

verus! {

/// An angle, given by its sine and its cosine.
#[derive(Clone, Copy, Debug, PartialEq, Eq, Structural)]
pub struct Rotation {
    pub sin: Fixed,
    pub cos: Fixed,
}

/// The most that the width and the height of a bitmap may add up to for
/// its rotation to stay within the fixed-point range.
pub const MAX_ROTATED_EXTENT: u32 = 21844;

/// The greatest magnitude of a sine or cosine, in raw bits: two. A true
/// sine never exceeds one; the margin is for approximations that do.
pub const MAX_TURN_BITS: i32 = 131072;

/// Where the destination offset `(along, across)` from the centre comes
/// from on one axis, `center` being the centre's coordinate on that axis:
/// `cos * along + sin * across + center`, rounded to the nearest integer
/// with ties away from zero. `cos` and `sin` are raw fixed-point bits.
pub open spec fn source_coordinate(
    cos: int,
    sin: int,
    along: int,
    across: int,
    center: int,
) -> int {
    round_half_away(cos * along + sin * across + center * 65536)
}

/// The source pixel for the destination pixel `(x, y)` of an image with
/// the given width and height.
pub open spec fn source_of(rotation: Rotation, width: int, height: int, x: int, y: int) -> (
    int,
    int,
) {
    let cx = width / 2;
    let cy = height / 2;
    (
        source_coordinate(rotation.cos.bits as int, rotation.sin.bits as int, x - cx, y - cy, cx),
        source_coordinate(rotation.cos.bits as int, -rotation.sin.bits as int, y - cy, x - cx, cy),
    )
}

/// The dot that the destination pixel `(x, y)` gets: the colour of its
/// source pixel at `pos + (x, y)`, or nothing when the source lies outside
/// the bitmap.
pub open spec fn rotated_dot(bmp: Bitmap, pos: Point, rotation: Rotation, x: int, y: int) -> Option<
    Pixel,
> {
    let (sx, sy) = source_of(rotation, bmp.width as int, bmp.height as int, x, y);
    if bmp.in_bounds(sx, sy) {
        Some(dot_at(pos, x, y, bmp.color_at(sx, sy)))
    } else {
        None
    }
}

/// The dots of the whole rotated image, in destination order.
pub open spec fn rotated_image(bmp: Bitmap, pos: Point, rotation: Rotation) -> Seq<Pixel> {
    scan(
        (bmp.width as int * bmp.height as int) as nat,
        bmp.width as int,
        |x: int, y: int| rotated_dot(bmp, pos, rotation, x, y),
    )
}

/// The dot that the pixel `(x, y)` of the bitmap gives when it is copied
/// unchanged to `pos + (x, y)`.
pub open spec fn copied_dot(bmp: Bitmap, pos: Point, x: int, y: int) -> Option<Pixel> {
    Some(dot_at(pos, x, y, bmp.color_at(x, y)))
}

/// The dots of the bitmap copied unchanged with its top-left corner at
/// `pos`.
pub open spec fn copied_image(bmp: Bitmap, pos: Point) -> Seq<Pixel> {
    scan(
        (bmp.width as int * bmp.height as int) as nat,
        bmp.width as int,
        |x: int, y: int| copied_dot(bmp, pos, x, y),
    )
}

impl Rotation {
    /// Neither the sine nor the cosine exceeds `MAX_TURN_BITS` in
    /// magnitude.
    pub open spec fn wf(&self) -> bool {
        &&& -MAX_TURN_BITS <= self.sin.bits <= MAX_TURN_BITS
        &&& -MAX_TURN_BITS <= self.cos.bits <= MAX_TURN_BITS
    }

    /// The angle with the given sine and cosine, or `None` when one of
    /// them exceeds `MAX_TURN_BITS` in magnitude.
    pub fn new(sin: Fixed, cos: Fixed) -> (rotation: Option<Rotation>)
        ensures
            rotation is Some <==> (Rotation { sin, cos }).wf(),
            rotation matches Some(r) ==> r.sin == sin && r.cos == cos,
    {
        if sin.bits < -MAX_TURN_BITS || sin.bits > MAX_TURN_BITS || cos.bits < -MAX_TURN_BITS
            || cos.bits > MAX_TURN_BITS {
            None
        } else {
            Some(Rotation { sin, cos })
        }
    }

    /// The angle zero: sine zero, cosine one.
    pub fn identity() -> (rotation: Rotation)
        ensures
            rotation.wf(),
            rotation.sin.bits == 0,
            rotation.cos.bits == ONE_BITS,
    {
        Rotation { sin: Fixed { bits: 0 }, cos: Fixed { bits: ONE_BITS } }
    }

    /// The source pixel for the destination pixel `(x, y)` of an image of
    /// the given width and height.
    pub fn source(&self, width: u32, height: u32, x: u32, y: u32) -> (p: Point)
        requires
            self.wf(),
            width as int + height as int <= MAX_ROTATED_EXTENT,
            x < width,
            y < height,
        ensures
            (p.x as int, p.y as int) == source_of(
                *self,
                width as int,
                height as int,
                x as int,
                y as int,
            ),
    {
        let cx: i32 = (width / 2) as i32;
        let cy: i32 = (height / 2) as i32;
        let dx: Fixed = Fixed::from_int(x as i32 - cx);
        let dy: Fixed = Fixed::from_int(y as i32 - cy);
        let ghost c: int = self.cos.bits as int;
        let ghost s: int = self.sin.bits as int;
        let ghost ax: int = x as int - cx as int;
        let ghost ay: int = y as int - cy as int;
        proof {
            lemma_scaled_product(c, ax);
            lemma_scaled_product(s, ay);
            lemma_scaled_product(-s, ax);
            lemma_scaled_product(c, ay);
            lemma_unit_product(c, ax, width as int / 2);
            lemma_unit_product(s, ay, height as int / 2);
            lemma_unit_product(-s, ax, width as int / 2);
            lemma_unit_product(c, ay, height as int / 2);
        }
        let x_src: Fixed = self.cos.times(dx).plus(self.sin.times(dy)).plus(Fixed::from_int(cx));
        let y_src: Fixed = self.sin.negated().times(dx).plus(self.cos.times(dy)).plus(
            Fixed::from_int(cy),
        );
        assert(x_src.bits == c * ax + s * ay + cx * 65536);
        assert(y_src.bits == (-s) * ax + c * ay + cy * 65536);
        let x_round: Fixed = x_src.rounded();
        let y_round: Fixed = y_src.rounded();
        proof {
            lemma_whole_number(round_half_away(x_src.bits as int));
            lemma_whole_number(round_half_away(y_src.bits as int));
        }
        Point { x: x_round.to_int(), y: y_round.to_int() }
    }
}

/// Multiplying a number by a whole number, both in fixed point, gives the
/// exact product.
pub proof fn lemma_scaled_product(a: int, n: int)
    ensures
        (a * (n * 65536)) / 65536 == a * n,
{
    assert(a * (n * 65536) == (a * n) * 65536) by (nonlinear_arith);
    lemma_whole_number(a * n);
}

/// A whole number shifted into fixed point and back is unchanged.
pub proof fn lemma_whole_number(n: int)
    ensures
        (n * 65536) / 65536 == n,
        (n * 65536) % 65536 == 0,
{
    vstd::arithmetic::div_mod::lemma_fundamental_div_mod_converse(n * 65536, 65536, n, 0);
}

/// The product of a number of magnitude at most two, in raw bits, and an
/// integer of magnitude at most `bound` has magnitude at most twice
/// `bound` in raw bits.
pub proof fn lemma_unit_product(a: int, n: int, bound: int)
    by (nonlinear_arith)
    requires
        -131072 <= a <= 131072,
        -bound <= n <= bound,
    ensures
        -131072 * bound <= a * n <= 131072 * bound,
{
}

/// How far the sine is from zero or the cosine from one, whichever is
/// further, in raw bits.
pub open spec fn off_identity(rotation: Rotation) -> int {
    let s = if rotation.sin.bits < 0 {
        -rotation.sin.bits
    } else {
        rotation.sin.bits as int
    };
    let c = if rotation.cos.bits < ONE_BITS {
        ONE_BITS - rotation.cos.bits
    } else {
        rotation.cos.bits - ONE_BITS
    };
    if s < c {
        c
    } else {
        s
    }
}

/// At the angle zero every destination pixel of the image comes from the
/// source pixel with the same coordinates.
pub proof fn lemma_zero_angle_source(rotation: Rotation, width: int, height: int, x: int, y: int)
    requires
        rotation.sin.bits == 0,
        rotation.cos.bits == ONE_BITS,
    ensures
        source_of(rotation, width, height, x, y) == (x, y),
{
    let cx: int = width / 2;
    let cy: int = height / 2;
    assert(65536 * (x - cx) + 0 * (y - cy) + cx * 65536 == x * 65536);
    assert(65536 * (y - cy) + (-0) * (x - cx) + cy * 65536 == y * 65536);
    lemma_whole_number(x);
    lemma_whole_number(y);
}

/// Drawing at the angle zero paints exactly what copying the bitmap
/// unchanged paints: the same dots in the same order.
pub proof fn lemma_zero_angle_is_copy(bmp: Bitmap, pos: Point, rotation: Rotation)
    requires
        bmp.wf(),
        rotation.sin.bits == 0,
        rotation.cos.bits == ONE_BITS,
    ensures
        rotated_image(bmp, pos, rotation) == copied_image(bmp, pos),
{
    let w: int = bmp.width as int;
    let h: int = bmp.height as int;
    let turned = |x: int, y: int| rotated_dot(bmp, pos, rotation, x, y);
    let copied = |x: int, y: int| copied_dot(bmp, pos, x, y);
    assert forall|i: int| 0 <= i < w * h implies #[trigger] turned(i % w, i / w) == copied(
        i % w,
        i / w,
    ) by {
        lemma_index_in_grid(i, w, h);
        lemma_zero_angle_source(rotation, w, h, i % w, i / w);
    }
    lemma_scan_agree((w * h) as nat, w, turned, copied);
}

/// At an angle whose sine and cosine are within `off_identity` of those of
/// the angle zero, a destination pixel comes from the source pixel with
/// the same coordinates if `off_identity` times the pixel's distance from
/// the centre, taken along the axes, is less than half a pixel, and from
/// that pixel or one next to it on each axis if it is less than one and a
/// half.
pub proof fn lemma_small_angle_source(rotation: Rotation, width: int, height: int, x: int, y: int)
    requires
        0 <= x < width,
        0 <= y < height,
    ensures
        off_identity(rotation) * (width / 2 + height / 2) < 32768 ==> source_of(
            rotation,
            width,
            height,
            x,
            y,
        ) == (x, y),
        off_identity(rotation) * (width / 2 + height / 2) < 98304 ==> {
            let (sx, sy) = source_of(rotation, width, height, x, y);
            x - 1 <= sx <= x + 1 && y - 1 <= sy <= y + 1
        },
{
    let cx: int = width / 2;
    let cy: int = height / 2;
    let e: int = off_identity(rotation);
    let c: int = rotation.cos.bits as int;
    let s: int = rotation.sin.bits as int;
    let ax: int = x - cx;
    let ay: int = y - cy;
    let reach: int = cx + cy;
    let err_x: int = (c - 65536) * ax + s * ay;
    let err_y: int = (c - 65536) * ay + (-s) * ax;
    assert(c * ax + s * ay + cx * 65536 == x * 65536 + err_x) by (nonlinear_arith)
        requires
            ax == x - cx,
            err_x == (c - 65536) * ax + s * ay,
    ;
    assert(c * ay + (-s) * ax + cy * 65536 == y * 65536 + err_y) by (nonlinear_arith)
        requires
            ay == y - cy,
            err_y == (c - 65536) * ay + (-s) * ax,
    ;
    assert(-(e * reach) <= err_x <= e * reach && -(e * reach) <= err_y <= e * reach)
        by (nonlinear_arith)
        requires
            -e <= c - 65536 <= e,
            -e <= s <= e,
            -cx <= ax <= cx,
            -cy <= ay <= cy,
            reach == cx + cy,
            0 <= cx,
            0 <= cy,
            err_x == (c - 65536) * ax + s * ay,
            err_y == (c - 65536) * ay + (-s) * ax,
    ;
    lemma_round_near(x, err_x);
    lemma_round_near(y, err_y);
}

/// Rounding a whole number plus an error gives the whole number if the
/// error is less than a half, and the whole number or a neighbour if it is
/// less than one and a half. The error is in raw bits.
pub proof fn lemma_round_near(n: int, err: int)
    ensures
        -32768 < err < 32768 ==> round_half_away(n * 65536 + err) == n,
        -98304 < err < 98304 ==> n - 1 <= round_half_away(n * 65536 + err) <= n + 1,
{
    let bits: int = n * 65536 + err;
    if -98304 < err < 98304 {
        if err >= 65536 {
            vstd::arithmetic::div_mod::lemma_fundamental_div_mod_converse(
                bits,
                65536,
                n + 1,
                err - 65536,
            );
        } else if err >= 0 {
            vstd::arithmetic::div_mod::lemma_fundamental_div_mod_converse(bits, 65536, n, err);
        } else if err >= -65536 {
            vstd::arithmetic::div_mod::lemma_fundamental_div_mod_converse(
                bits,
                65536,
                n - 1,
                err + 65536,
            );
        } else {
            vstd::arithmetic::div_mod::lemma_fundamental_div_mod_converse(
                bits,
                65536,
                n - 2,
                err + 131072,
            );
        }
    }
}

/// Every dot of a rotated image has the colour of a pixel inside the
/// bitmap, the source of a destination pixel inside the image, and stands
/// at that destination pixel: no sample is taken outside the bitmap.
pub proof fn lemma_rotation_samples_inside(bmp: Bitmap, pos: Point, rotation: Rotation, k: int)
    requires
        bmp.wf(),
        0 <= k < rotated_image(bmp, pos, rotation).len(),
    ensures
        exists|x: int, y: int|
            {
                &&& bmp.in_bounds(x, y)
                &&& bmp.in_bounds(
                    source_of(rotation, bmp.width as int, bmp.height as int, x, y).0,
                    source_of(rotation, bmp.width as int, bmp.height as int, x, y).1,
                )
                &&& #[trigger] rotated_dot(bmp, pos, rotation, x, y) == Some(
                    rotated_image(bmp, pos, rotation)[k],
                )
            },
{
    let w: int = bmp.width as int;
    let h: int = bmp.height as int;
    let emit = |x: int, y: int| rotated_dot(bmp, pos, rotation, x, y);
    lemma_scan_members((w * h) as nat, w, emit, k);
    let i: int = choose|i: int|
        0 <= i < (w * h) as nat && #[trigger] emit(i % w, i / w) == Some(
            scan((w * h) as nat, w, emit)[k],
        );
    lemma_index_in_grid(i, w, h);
    assert(rotated_dot(bmp, pos, rotation, i % w, i / w) == Some(
        rotated_image(bmp, pos, rotation)[k],
    ));
}

/// A bitmap together with where and at which angle to draw it.
pub struct ImageRotate<'a> {
    pub bmp: &'a Bitmap,
    pub pos: Point,
    pub rotation: Rotation,
}

impl<'a> ImageRotate<'a> {
    /// What `draw` asks of the image: a well-formed bitmap that is small
    /// enough to rotate, an angle whose sine and cosine are within range,
    /// and a position from which every destination pixel has coordinates.
    pub open spec fn wf(&self) -> bool {
        &&& self.bmp.wf()
        &&& self.rotation.wf()
        &&& self.bmp.width as int + self.bmp.height as int <= MAX_ROTATED_EXTENT
        &&& self.pos.x as int + self.bmp.width as int <= i32::MAX
        &&& self.pos.y as int + self.bmp.height as int <= i32::MAX
    }

    /// The bitmap `bmp`, to be drawn at the angle `rotation` into the
    /// rectangle of its own size with its top-left corner at `pos`.
    pub fn new(bmp: &'a Bitmap, pos: Point, rotation: Rotation) -> (image: ImageRotate<'a>)
        ensures
            image.bmp == bmp,
            image.pos == pos,
            image.rotation == rotation,
    {
        ImageRotate { bmp, pos, rotation }
    }

    /// The dots of the rotated image. A destination pixel whose source
    /// falls outside the bitmap gets no dot.
    pub fn draw(&self) -> (dots: Vec<Pixel>)
        requires
            self.wf(),
        ensures
            dots@ == rotated_image(*self.bmp, self.pos, self.rotation),
    {
        let w: u32 = self.bmp.width;
        let h: u32 = self.bmp.height;
        let ghost emit = |x: int, y: int| rotated_dot(*self.bmp, self.pos, self.rotation, x, y);
        let mut dots: Vec<Pixel> = Vec::new();
        let mut y_out: u32 = 0;
        while y_out < h
            invariant
                self.wf(),
                w == self.bmp.width,
                h == self.bmp.height,
                y_out <= h,
                emit == |x: int, y: int| rotated_dot(*self.bmp, self.pos, self.rotation, x, y),
                dots@ == scan((y_out as int * w as int) as nat, w as int, emit),
            decreases h - y_out,
        {
            let mut x_out: u32 = 0;
            while x_out < w
                invariant
                    self.wf(),
                    w == self.bmp.width,
                    h == self.bmp.height,
                    y_out < h,
                    x_out <= w,
                    emit == |x: int, y: int| rotated_dot(*self.bmp, self.pos, self.rotation, x, y),
                    dots@ == scan((y_out as int * w as int + x_out as int) as nat, w as int, emit),
                decreases w - x_out,
            {
                proof {
                    lemma_cell_of_index(x_out as int, y_out as int, w as int);
                }
                let src: Point = self.rotation.source(w, h, x_out, y_out);
                match self.bmp.pixel(src) {
                    Some(color) => {
                        dots.push(
                            Pixel {
                                at: Point {
                                    x: self.pos.x + x_out as i32,
                                    y: self.pos.y + y_out as i32,
                                },
                                color,
                            },
                        );
                    },
                    None => {},
                }
                x_out = x_out + 1;
            }
            assert(y_out as int * w as int + w as int == (y_out as int + 1) * w as int)
                by (nonlinear_arith);
            y_out = y_out + 1;
        }
        assert(h as int * w as int == w as int * h as int) by (nonlinear_arith);
        dots
    }
}

} // verus!
