//! Reading a bitmap out of the bytes of a BMP file.
//!
//! The file format is read by the `tinybmp` crate; the functions that call
//! it are trusted. What is verified is how its answers are put together
//! into a `Bitmap`.

use crate::bitmap::{
    lemma_cell_in_range, lemma_cell_of_index, lemma_index_in_grid, Bitmap, Color,
};
use embedded_graphics::geometry::OriginDimensions;
use embedded_graphics::image::GetPixel;
use embedded_graphics::pixelcolor::{IntoStorage, Rgb565};
use tinybmp::Bmp;
use vstd::prelude::*;

verus! {

/// The width and height that `tinybmp` reads from the header of a BMP
/// file, or nothing where it cannot make sense of the bytes. It is asked
/// only of files whose colour count is in range.
pub uninterp spec fn bmp_extent(bytes: Seq<u8>) -> Option<(u32, u32)>;

/// The colour that `tinybmp` reads for the pixel in column `x` of row `y`
/// of a BMP file, in the display's format, or nothing where it reads none.
/// It is asked only of files whose colour count is in range and whose
/// width is at most `MAX_DECODED_SIDE`.
pub uninterp spec fn bmp_color(bytes: Seq<u8>, x: i32, y: i32) -> Option<Color>;

/// The widest and highest bitmap that is read from a file.
pub const MAX_DECODED_SIDE: u32 = 32767;

/// Where in a BMP file the number of colours in its table stands, as four
/// bytes with the lowest first.
pub const COLOR_COUNT_OFFSET: usize = 46;

/// The number of colours from which on a file is not read: each colour
/// takes four bytes in the table, and from this number on the length of
/// the table does not fit a 32-bit word.
pub const COLOR_COUNT_LIMIT: u32 = 0x4000_0000;

/// The number that the four bytes from `at` on stand for, the lowest byte
/// first.
pub open spec fn le_u32_at(bytes: Seq<u8>, at: int) -> int {
    bytes[at] as int + bytes[at + 1] as int * 0x100 + bytes[at + 2] as int * 0x1_0000 + bytes[at
        + 3] as int * 0x100_0000
}

/// Whether the colour count of a file is in range: the file is too short
/// to hold one, or the count is below `COLOR_COUNT_LIMIT`.
pub open spec fn color_count_in_range(bytes: Seq<u8>) -> bool {
    bytes.len() < COLOR_COUNT_OFFSET + 4 || le_u32_at(bytes, COLOR_COUNT_OFFSET as int)
        < COLOR_COUNT_LIMIT
}

/// Whether the colour count of the file is in range.
pub fn color_count_readable(bytes: &[u8]) -> (readable: bool)
    ensures
        readable == color_count_in_range(bytes@),
{
    if bytes.len() < COLOR_COUNT_OFFSET + 4 {
        return true;
    }
    let count: u64 = bytes[COLOR_COUNT_OFFSET] as u64 + bytes[COLOR_COUNT_OFFSET + 1] as u64
        * 0x100 + bytes[COLOR_COUNT_OFFSET + 2] as u64 * 0x1_0000 + bytes[COLOR_COUNT_OFFSET
        + 3] as u64 * 0x100_0000;
    count < COLOR_COUNT_LIMIT as u64
}

/// Parses the bytes with `Bmp::from_slice` and asks the result for its
/// `size`. Trusted: the answer depends on the bytes alone; it is nothing
/// where parsing fails. Files whose colour count is out of range are left
/// out: the parser multiplies the count by four in a machine word, which
/// on a 32-bit machine overflows for them.
#[verifier::external_body]
fn read_extent(bytes: &[u8]) -> (extent: Option<(u32, u32)>)
    requires
        color_count_in_range(bytes@),
    ensures
        extent == bmp_extent(bytes@),
{
    match Bmp::<Rgb565>::from_slice(bytes) {
        Ok(bmp) => {
            let size = bmp.size();
            Some((size.width, size.height))
        },
        Err(_) => None,
    }
}

/// Parses the bytes with `Bmp::from_slice` and asks the result for its
/// `pixel` at `(x, y)`, as the raw bits of an `Rgb565`. Trusted: the
/// answer depends on the bytes and the coordinates alone. Files whose
/// colour count is out of range are left out, as for the extent, and so
/// are files with a width above `MAX_DECODED_SIDE`: for those the length
/// of a row may not fit a 32-bit word.
#[verifier::external_body]
fn read_color(bytes: &[u8], x: i32, y: i32) -> (color: Option<Color>)
    requires
        color_count_in_range(bytes@),
        bmp_extent(bytes@) matches Some(extent) ==> extent.0 <= MAX_DECODED_SIDE,
    ensures
        color == bmp_color(bytes@, x, y),
{
    match Bmp::<Rgb565>::from_slice(bytes) {
        Ok(bmp) => match bmp.pixel(embedded_graphics::geometry::Point::new(x, y)) {
            Some(color) => Some(color.into_storage()),
            None => None,
        },
        Err(_) => None,
    }
}

/// Whether a file can be turned into a bitmap: its colour count is in
/// range, its header gives a width and a height from 1 to
/// `MAX_DECODED_SIDE`, and every pixel within them has a colour when it
/// is asked for by its coordinates.
///
/// The last condition leaves out files that a display could still show by
/// going through their pixels in file order: run-length-encoded files,
/// for which no pixel can be asked for by its coordinates, and files
/// whose image data is shorter than the header says.
pub open spec fn decodable(bytes: Seq<u8>) -> bool {
    &&& color_count_in_range(bytes)
    &&& bmp_extent(bytes) matches Some(extent)
    &&& 0 < extent.0 <= MAX_DECODED_SIDE
    &&& 0 < extent.1 <= MAX_DECODED_SIDE
    &&& forall|x: i32, y: i32|
        0 <= x < extent.0 && 0 <= y < extent.1 ==> (#[trigger] bmp_color(bytes, x, y)) is Some
}

/// Whether `bitmap` holds what the file holds: the same width and height,
/// and for every pixel the colour read from the file.
pub open spec fn decoded_as(bytes: Seq<u8>, bitmap: Bitmap) -> bool {
    &&& bitmap.wf()
    &&& bmp_extent(bytes) == Some((bitmap.width, bitmap.height))
    &&& forall|x: i32, y: i32|
        0 <= x < bitmap.width && 0 <= y < bitmap.height ==> (#[trigger] bmp_color(bytes, x, y))
            == Some(bitmap.color_at(x as int, y as int))
}

/// Assembles a bitmap from what was read from a file: the width and height
/// from its header and, for each pixel in turn, row by row, the colour
/// read or nothing. Returns `None` if a side is zero, if there is not one
/// reading for each pixel, or if a reading is nothing.
pub fn assemble(width: u32, height: u32, readings: &Vec<Option<Color>>) -> (bitmap: Option<Bitmap>)
    ensures
        bitmap is Some <==> {
            &&& width > 0
            &&& height > 0
            &&& readings@.len() == width as int * height as int
            &&& forall|i: int| 0 <= i < readings@.len() ==> (#[trigger] readings@[i]) is Some
        },
        bitmap matches Some(b) ==> {
            &&& b.wf()
            &&& b.width == width
            &&& b.height == height
            &&& forall|i: int|
                0 <= i < readings@.len() ==> #[trigger] readings@[i] == Some(b.pixels@[i])
        },
{
    let mut pixels: Vec<Color> = Vec::new();
    let mut i: usize = 0;
    while i < readings.len()
        invariant
            i <= readings@.len(),
            pixels@.len() == i,
            forall|k: int| 0 <= k < i ==> #[trigger] readings@[k] == Some(pixels@[k]),
        decreases readings@.len() - i,
    {
        match readings[i] {
            Some(color) => {
                pixels.push(color);
            },
            None => {
                return None;
            },
        }
        i = i + 1;
    }
    let bitmap: Option<Bitmap> = Bitmap::new(width, height, pixels);
    bitmap
}

/// Takes one reading for each pixel of a file with the given width and
/// height, row by row from the top and each row from the left.
pub fn read_pixels(bytes: &[u8], width: u32, height: u32) -> (readings: Vec<Option<Color>>)
    requires
        color_count_in_range(bytes@),
        bmp_extent(bytes@) == Some((width, height)),
        0 < width <= MAX_DECODED_SIDE,
        0 < height <= MAX_DECODED_SIDE,
    ensures
        readings@.len() == width as int * height as int,
        forall|i: int|
            0 <= i < readings@.len() ==> bmp_color(
                bytes@,
                (i % width as int) as i32,
                (i / width as int) as i32,
            ) == #[trigger] readings@[i],
{
    let mut readings: Vec<Option<Color>> = Vec::new();
    let mut y: u32 = 0;
    while y < height
        invariant
            color_count_in_range(bytes@),
            bmp_extent(bytes@) == Some((width, height)),
            0 < width <= MAX_DECODED_SIDE,
            0 < height <= MAX_DECODED_SIDE,
            y <= height,
            readings@.len() == y as int * width as int,
            forall|i: int|
                0 <= i < readings@.len() ==> bmp_color(
                    bytes@,
                    (i % width as int) as i32,
                    (i / width as int) as i32,
                ) == #[trigger] readings@[i],
        decreases height - y,
    {
        let mut x: u32 = 0;
        while x < width
            invariant
                color_count_in_range(bytes@),
                bmp_extent(bytes@) == Some((width, height)),
                0 < width <= MAX_DECODED_SIDE,
                0 < height <= MAX_DECODED_SIDE,
                y < height,
                x <= width,
                readings@.len() == y as int * width as int + x as int,
                forall|i: int|
                    0 <= i < readings@.len() ==> bmp_color(
                        bytes@,
                        (i % width as int) as i32,
                        (i / width as int) as i32,
                    ) == #[trigger] readings@[i],
            decreases width - x,
        {
            proof {
                lemma_cell_of_index(x as int, y as int, width as int);
            }
            readings.push(read_color(bytes, x as i32, y as i32));
            x = x + 1;
        }
        assert(y as int * width as int + width as int == (y as int + 1) * width as int)
            by (nonlinear_arith);
        y = y + 1;
    }
    assert(height as int * width as int == width as int * height as int) by (nonlinear_arith);
    readings
}

impl Bitmap {
    /// Reads a bitmap out of the bytes of a BMP file. Returns `None`
    /// where the colour count of the file is out of range, where the file
    /// cannot be read or is larger than `MAX_DECODED_SIDE` on a side, and
    /// where a pixel has no colour when asked for by its coordinates. So
    /// run-length-encoded files and files with too little image data are
    /// refused, though a display could show what there is of them by
    /// going through their pixels in file order.
    pub fn from_bmp(bytes: &[u8]) -> (bitmap: Option<Bitmap>)
        ensures
            bitmap is Some <==> decodable(bytes@),
            bitmap matches Some(b) ==> decoded_as(bytes@, b),
    {
        if !color_count_readable(bytes) {
            return None;
        }
        let (width, height): (u32, u32) = match read_extent(bytes) {
            Some(extent) => extent,
            None => {
                return None;
            },
        };
        if width == 0 || height == 0 || width > MAX_DECODED_SIDE || height > MAX_DECODED_SIDE {
            return None;
        }
        let readings: Vec<Option<Color>> = read_pixels(bytes, width, height);
        proof {
            lemma_readings_decide(bytes@, width, height, readings@);
        }
        let bitmap: Option<Bitmap> = assemble(width, height, &readings);
        proof {
            if bitmap is Some {
                let b = bitmap->0;
                assert forall|x: i32, y: i32|
                    0 <= x < b.width && 0 <= y < b.height implies (#[trigger] bmp_color(
                    bytes@,
                    x,
                    y,
                )) == Some(b.color_at(x as int, y as int)) by {
                    lemma_cell_in_range(x as int, y as int, width as int, height as int);
                    assert(readings@[y * width + x] == Some(b.pixels@[y * width + x]));
                }
            }
        }
        bitmap
    }
}

/// Where one reading was taken for each pixel of a file, row by row, the
/// file can be turned into a bitmap exactly if every reading is a colour,
/// and the reading for a pixel is found at its row times the width plus
/// its column.
pub proof fn lemma_readings_decide(
    bytes: Seq<u8>,
    width: u32,
    height: u32,
    readings: Seq<Option<Color>>,
)
    requires
        color_count_in_range(bytes),
        bmp_extent(bytes) == Some((width, height)),
        0 < width <= MAX_DECODED_SIDE,
        0 < height <= MAX_DECODED_SIDE,
        readings.len() == width as int * height as int,
        forall|i: int|
            0 <= i < readings.len() ==> bmp_color(
                bytes,
                (i % width as int) as i32,
                (i / width as int) as i32,
            ) == #[trigger] readings[i],
    ensures
        decodable(bytes) <==> forall|i: int|
            0 <= i < readings.len() ==> (#[trigger] readings[i]) is Some,
        forall|x: i32, y: i32|
            0 <= x < width && 0 <= y < height ==> (#[trigger] bmp_color(bytes, x, y)) == readings[y
                * width + x],
{
    let w: int = width as int;
    let h: int = height as int;
    assert forall|x: i32, y: i32| 0 <= x < width && 0 <= y < height implies (#[trigger] bmp_color(
        bytes,
        x,
        y,
    )) == readings[y * width + x] by {
        lemma_cell_of_index(x as int, y as int, w);
        lemma_cell_in_range(x as int, y as int, w, h);
        let i: int = y * w + x;
        assert(readings[i] == bmp_color(bytes, (i % w) as i32, (i / w) as i32));
    }
    if decodable(bytes) {
        assert forall|i: int| 0 <= i < readings.len() implies (#[trigger] readings[i]) is Some by {
            lemma_index_in_grid(i, w, h);
            assert(bmp_color(bytes, (i % w) as i32, (i / w) as i32) is Some);
        }
    }
    if forall|i: int| 0 <= i < readings.len() ==> (#[trigger] readings[i]) is Some {
        assert forall|x: i32, y: i32| 0 <= x < width && 0 <= y < height implies (
        #[trigger] bmp_color(bytes, x, y)) is Some by {
            lemma_cell_in_range(x as int, y as int, w, h);
            assert(readings[y * w + x] is Some);
        }
    }
}

} // verus!
