use fixed::types::I16F16;
use gopherbadge::bitmap::{Bitmap, Pixel};
use gopherbadge::fixed_point::{Fixed, DEG_TO_RAD_BITS, ONE_BITS, PI_BITS};
use gopherbadge::geometry::Point;
use gopherbadge::rotate::{ImageRotate, Rotation};
use micromath::F32Ext;

fn numbered(width: u32, height: u32) -> Bitmap {
    let pixels: Vec<u16> = (0..width * height).map(|i| i as u16).collect();
    Bitmap::new(width, height, pixels).unwrap()
}

fn rotation(sin: i32, cos: i32) -> Rotation {
    Rotation::new(Fixed::from_bits(sin), Fixed::from_bits(cos)).unwrap()
}

fn reference_source(sin: i32, cos: i32, w: i32, h: i32, x_out: i32, y_out: i32) -> (i32, i32) {
    let sin = I16F16::from_bits(sin);
    let cos = I16F16::from_bits(cos);
    let cx = w / 2;
    let cy = h / 2;
    let dx = I16F16::from_num(x_out - cx);
    let dy = I16F16::from_num(y_out - cy);
    let x_src = cos * dx + sin * dy + I16F16::from_num(cx);
    let y_src = -sin * dx + cos * dy + I16F16::from_num(cy);
    (x_src.round().to_num::<i32>(), y_src.round().to_num::<i32>())
}

#[test]
fn constants_match_fixed_point_arithmetic() {
    let pi = I16F16::from_num(core::f64::consts::PI);
    assert_eq!(pi.to_bits(), PI_BITS);
    assert_eq!((pi / I16F16::from_num(180)).to_bits(), DEG_TO_RAD_BITS);
    assert_eq!(I16F16::from_num(1).to_bits(), ONE_BITS);
}

#[test]
fn degrees_to_radians_multiplies_by_the_constant() {
    let half_turn = Fixed::from_bits(180 * 65536).degrees_to_radians();
    assert_eq!(half_turn.to_bits(), 180 * 1143);
    let factor = I16F16::from_num(core::f64::consts::PI) / I16F16::from_num(180);
    let expected = I16F16::from_num(180) * factor;
    assert_eq!(half_turn.to_bits(), expected.to_bits());
    // fractions are dropped towards minus infinity
    assert_eq!(Fixed::from_bits(1).degrees_to_radians().to_bits(), 0);
    assert_eq!(Fixed::from_bits(-1).degrees_to_radians().to_bits(), -1);
    assert_eq!(Fixed::from_bits(i32::MAX).degrees_to_radians().to_bits(), 37453823);
    assert_eq!(Fixed::from_bits(i32::MIN).degrees_to_radians().to_bits(), -37453824);
}

#[test]
fn rotation_rejects_values_beyond_two() {
    assert!(Rotation::new(Fixed::from_bits(65536), Fixed::from_bits(-65536)).is_some());
    assert!(Rotation::new(Fixed::from_bits(131072), Fixed::from_bits(-131072)).is_some());
    assert!(Rotation::new(Fixed::from_bits(131073), Fixed::from_bits(0)).is_none());
    assert!(Rotation::new(Fixed::from_bits(0), Fixed::from_bits(-131073)).is_none());
    assert!(Rotation::new(Fixed::from_bits(i32::MIN), Fixed::from_bits(i32::MAX)).is_none());
    let id = Rotation::identity();
    assert_eq!(id.sin.to_bits(), 0);
    assert_eq!(id.cos.to_bits(), 65536);
}

#[test]
fn identity_maps_every_pixel_to_itself() {
    let id = Rotation::identity();
    for y in 0..7 {
        for x in 0..9 {
            assert_eq!(id.source(9, 7, x, y), Point::new(x as i32, y as i32));
        }
    }
}

#[test]
fn quarter_turn_swaps_the_axes() {
    // sine one, cosine zero: x_src = dy + cx, y_src = -dx + cy
    let quarter = rotation(65536, 0);
    assert_eq!(quarter.source(5, 5, 2, 2), Point::new(2, 2));
    assert_eq!(quarter.source(5, 5, 4, 2), Point::new(2, 0));
    assert_eq!(quarter.source(5, 5, 2, 0), Point::new(0, 2));
    assert_eq!(quarter.source(5, 5, 0, 0), Point::new(0, 4));
    // out of the bitmap for a wide one
    assert_eq!(quarter.source(8, 2, 7, 1), Point::new(4, -2));
}

#[test]
fn ties_round_away_from_zero() {
    let half = rotation(32768, 32768);
    // 8 wide, 2 high: centre (4, 1)
    // x = 5, y = 1: x_src = 0.5 + 4 = 4.5 -> 5, y_src = -0.5 + 1 = 0.5 -> 1
    assert_eq!(half.source(8, 2, 5, 1), Point::new(5, 1));
    // x = 7, y = 1: x_src = 1.5 + 4 = 5.5 -> 6, y_src = -1.5 + 1 = -0.5 -> -1
    assert_eq!(half.source(8, 2, 7, 1), Point::new(6, -1));
    // x = 0, y = 0: x_src = -2 - 0.5 + 4 = 1.5 -> 2, y_src = 2 - 0.5 + 1 = 2.5 -> 3
    assert_eq!(half.source(8, 2, 0, 0), Point::new(2, 3));
}

#[test]
fn source_agrees_with_plain_fixed_point_code() {
    let angles = [
        (0, 65536),
        (65536, 0),
        (-65536, 0),
        (0, -65536),
        (46341, 46341),
        (-32768, 56756),
        (1, 65535),
        (11380, -64540),
        (65536, 65536),
        (-65536, -65536),
    ];
    for (sin, cos) in angles {
        let r = rotation(sin, cos);
        for (w, h) in [(1u32, 1u32), (2, 3), (17, 9), (64, 64), (320, 240)] {
            for y in [0, h / 3, h / 2, h - 1] {
                for x in [0, w / 3, w / 2, w - 1] {
                    let p = r.source(w, h, x, y);
                    assert_eq!(
                        (p.x, p.y),
                        reference_source(sin, cos, w as i32, h as i32, x as i32, y as i32)
                    );
                }
            }
        }
    }
}

#[test]
fn source_works_at_the_largest_extent() {
    let r = rotation(131072, 131072);
    let p = r.source(10922, 10922, 10921, 10921);
    assert_eq!((p.x, p.y), reference_source(131072, 131072, 10922, 10922, 10921, 10921));
    assert_eq!((p.x, p.y), (27301, 5461));
    let wide = rotation(-131072, -131072);
    let p = wide.source(21843, 1, 0, 0);
    assert_eq!((p.x, p.y), reference_source(-131072, -131072, 21843, 1, 0, 0));
    let p = wide.source(21843, 1, 21842, 0);
    assert_eq!((p.x, p.y), reference_source(-131072, -131072, 21843, 1, 21842, 0));
}

#[test]
fn zero_angle_draws_an_unchanged_copy() {
    let bmp = numbered(4, 3);
    let image = ImageRotate::new(&bmp, Point::new(10, 20), Rotation::identity());
    let dots = image.draw();
    assert_eq!(dots.len(), 12);
    for (i, dot) in dots.iter().enumerate() {
        let x = (i % 4) as i32;
        let y = (i / 4) as i32;
        assert_eq!(*dot, Pixel { at: Point::new(10 + x, 20 + y), color: i as u16 });
    }
}

#[test]
fn quarter_turn_of_a_square_keeps_every_pixel() {
    let bmp = numbered(3, 3);
    let image = ImageRotate::new(&bmp, Point::new(0, 0), rotation(65536, 0));
    let dots = image.draw();
    // x_src = dy + 1, y_src = -dx + 1
    let colors: Vec<u16> = dots.iter().map(|d| d.color).collect();
    assert_eq!(colors, vec![6, 3, 0, 7, 4, 1, 8, 5, 2]);
    assert_eq!(dots[0].at, Point::new(0, 0));
    assert_eq!(dots[8].at, Point::new(2, 2));
}

#[test]
fn samples_outside_the_bitmap_are_skipped() {
    let bmp = numbered(4, 1);
    let image = ImageRotate::new(&bmp, Point::new(5, 5), rotation(65536, 0));
    let dots = image.draw();
    // x_src = dy + 2 = 2, y_src = -dx + 0 = 2 - x: inside only for x = 2
    assert_eq!(dots, vec![Pixel { at: Point::new(7, 5), color: 2 }]);
}

#[test]
fn every_dot_comes_from_inside_the_bitmap() {
    let bmp = numbered(9, 5);
    for (sin, cos) in [(46341, 46341), (-20000, 62000), (65536, 0), (3000, -65000)] {
        let r = rotation(sin, cos);
        let dots = ImageRotate::new(&bmp, Point::new(-3, 4), r).draw();
        let mut next = 0;
        for y in 0..5u32 {
            for x in 0..9u32 {
                let src = r.source(9, 5, x, y);
                if let Some(color) = bmp.pixel(src) {
                    let at = Point::new(-3 + x as i32, 4 + y as i32);
                    assert_eq!(dots[next], Pixel { at, color });
                    assert!(0 <= src.x && src.x < 9 && 0 <= src.y && src.y < 5);
                    next += 1;
                }
            }
        }
        assert_eq!(next, dots.len());
    }
}

#[test]
fn small_angles_stay_within_one_pixel() {
    // a full turn as the badge computes it: the sine is a little off zero
    let r = rotation(-295, 65535);
    for y in 0..64 {
        for x in 0..64 {
            assert_eq!(r.source(64, 64, x, y), Point::new(x as i32, y as i32));
        }
    }
    let coarse = rotation(-1500, 65500);
    for y in 0..64 {
        for x in 0..64 {
            let p = coarse.source(64, 64, x, y);
            assert!((p.x - x as i32).abs() <= 1 && (p.y - y as i32).abs() <= 1);
        }
    }
}

/// The sine and cosine of an angle as the badge takes them: the angle in
/// fixed point, turned into radians by the library, the sine and cosine
/// approximated on floats and brought back into fixed point.
fn turn(angle_deg: f32) -> Rotation {
    let degrees = Fixed::from_bits(I16F16::from_num(angle_deg).to_bits());
    let theta = I16F16::from_bits(degrees.degrees_to_radians().to_bits()).to_num::<f32>();
    let sin = I16F16::from_num(F32Ext::sin(theta));
    let cos = I16F16::from_num(F32Ext::cos(theta));
    Rotation::new(Fixed::from_bits(sin.to_bits()), Fixed::from_bits(cos.to_bits())).unwrap()
}

#[test]
fn full_turn_stays_within_one_pixel_of_no_turn() {
    let full = turn(360.0);
    let none = Rotation::identity();
    for (w, h) in [(1u32, 1u32), (16, 16), (64, 48), (320, 240)] {
        for y in 0..h {
            for x in 0..w {
                let turned = full.source(w, h, x, y);
                let upright = none.source(w, h, x, y);
                assert_eq!(upright, Point::new(x as i32, y as i32));
                assert!((turned.x - upright.x).abs() <= 1, "{}x{} at {} {}", w, h, x, y);
                assert!((turned.y - upright.y).abs() <= 1, "{}x{} at {} {}", w, h, x, y);
            }
        }
    }
}

#[test]
fn full_turn_is_close_enough_for_the_whole_display() {
    // how far the sine is from zero and the cosine from one, in raw bits,
    // times half the width plus half the height, is below one and a half
    // pixels: the condition under which the sources are proved to stay
    // within one pixel
    let full = turn(360.0);
    let off = full.sin.to_bits().abs().max((full.cos.to_bits() - 65536).abs());
    assert!(off * (320 / 2 + 240 / 2) < 98304, "off by {}", off);
}
