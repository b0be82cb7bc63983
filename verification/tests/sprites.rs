use gopherbadge::bitmap::{Bitmap, Pixel};
use gopherbadge::fixed_point::Fixed;
use gopherbadge::geometry::{Point, Rectangle, Size};
use gopherbadge::movable_sprite::{hold_back, MovableSprite, MovableSpriteBuilder};
use gopherbadge::paint::{keyed_dots, Redraw};
use gopherbadge::rotate::Rotation;
use gopherbadge::sprite::{clamp_to, Sprite, SpriteBuilder};

fn numbered(width: u32, height: u32) -> Bitmap {
    let pixels: Vec<u16> = (0..width * height).map(|i| i as u16).collect();
    Bitmap::new(width, height, pixels).unwrap()
}

fn rect(x: i32, y: i32, w: u32, h: u32) -> Rectangle {
    Rectangle::new(Point::new(x, y), Size::new(w, h))
}

fn is_blit_at(redraw: &Redraw, at: Point) -> bool {
    matches!(redraw, Redraw::Blit { at: p } if *p == at)
}

fn dots_of(redraw: &Redraw) -> Vec<Pixel> {
    match redraw {
        Redraw::Dots { dots } => dots.clone(),
        Redraw::Blit { .. } => panic!("a copy was asked for, not dots"),
    }
}

#[test]
fn builder_defaults_to_the_origin() {
    let bmp = numbered(4, 3);
    let sprite = SpriteBuilder::builder(&bmp).build();
    assert_eq!(*sprite._pos(), Point::new(0, 0));
    assert_eq!(*sprite.size(), Size::new(4, 3));
    assert!(!sprite.screen_boundaries);
    assert_eq!(sprite.transparent_color, None);
}

#[test]
fn builder_keeps_every_setting() {
    let bmp = numbered(4, 3);
    let sprite = SpriteBuilder::builder(&bmp)
        .with_position(Point::new(7, -2))
        .with_transparency(5)
        .with_screen_boundaries()
        .build();
    assert_eq!(sprite.pos, Point::new(7, -2));
    assert!(sprite.screen_boundaries);
    assert_eq!(sprite.transparent_color, Some(5));
    let direct = Sprite::new(&bmp, Point::new(7, -2), true, Some(5));
    assert_eq!(direct.pos, sprite.pos);
    assert_eq!(direct.size, sprite.size);
}

#[test]
fn center_is_position_plus_half_the_size() {
    let bmp = numbered(5, 8);
    let sprite = Sprite::new(&bmp, Point::new(10, -20), false, None);
    assert_eq!(sprite.center(), Point::new(12, -16));
}

#[test]
fn clamp_holds_to_the_range() {
    assert_eq!(clamp_to(-1, 10), 0);
    assert_eq!(clamp_to(0, 10), 0);
    assert_eq!(clamp_to(10, 10), 10);
    assert_eq!(clamp_to(11, 10), 10);
    assert_eq!(clamp_to(i32::MIN, 0), 0);
    assert_eq!(clamp_to(i32::MAX, 0), 0);
}

#[test]
fn move_with_boundaries_stays_on_the_display() {
    let bmp = numbered(20, 10);
    let mut sprite = Sprite::new(&bmp, Point::new(100, 100), true, None);
    for target in [
        Point::new(-5, -5),
        Point::new(400, 300),
        Point::new(300, 230),
        Point::new(301, 231),
        Point::new(i32::MAX, i32::MIN),
        Point::new(150, 120),
    ] {
        let mut p = target;
        sprite.move_to(&mut p, 0, None);
        assert_eq!(p, sprite.pos);
        assert!(0 <= p.x && p.x <= 320 - 20);
        assert!(0 <= p.y && p.y <= 240 - 10);
        assert_eq!(p.x, target.x.clamp(0, 300));
        assert_eq!(p.y, target.y.clamp(0, 230));
    }
}

#[test]
fn move_without_boundaries_goes_anywhere() {
    let bmp = numbered(20, 10);
    let mut sprite = Sprite::new(&bmp, Point::new(100, 100), false, None);
    let mut p = Point::new(-50, 500);
    let repaint = sprite.move_to(&mut p, 9, None);
    assert_eq!(p, Point::new(-50, 500));
    assert_eq!(sprite.pos, Point::new(-50, 500));
    assert_eq!(repaint.erase.background, 9);
    assert_eq!(repaint.erase.columns, Some(rect(-30, 500, 20, 10)));
    assert_eq!(repaint.erase.rows, Some(rect(-50, 100, 20, 10)));
    assert!(is_blit_at(&repaint.redraw, Point::new(-50, 500)));
}

#[test]
fn move_erases_against_the_clamped_position() {
    let bmp = numbered(20, 10);
    let mut sprite = Sprite::new(&bmp, Point::new(298, 50), true, None);
    let mut p = Point::new(310, 50);
    let repaint = sprite.move_to(&mut p, 0, None);
    assert_eq!(p, Point::new(300, 50));
    assert_eq!(repaint.erase.columns, Some(rect(298, 50, 2, 10)));
    assert_eq!(repaint.erase.rows, None);
    // already at the edge: nothing moves, nothing is erased
    let mut again = Point::new(999, 50);
    let repaint = sprite.move_to(&mut again, 0, None);
    assert_eq!(repaint.erase.columns, None);
    assert_eq!(repaint.erase.rows, None);
    assert!(is_blit_at(&repaint.redraw, Point::new(300, 50)));
}

#[test]
fn draw_without_angle_is_a_copy() {
    let bmp = numbered(3, 2);
    let sprite = Sprite::new(&bmp, Point::new(4, 5), false, Some(1));
    assert!(is_blit_at(&sprite.draw(None), Point::new(4, 5)));
}

#[test]
fn draw_at_angle_zero_paints_what_a_copy_paints() {
    let bmp = numbered(3, 2);
    let sprite = Sprite::new(&bmp, Point::new(4, 5), false, None);
    let dots = dots_of(&sprite.draw(Some(Rotation::identity())));
    let expected: Vec<Pixel> = (0..6)
        .map(|i| Pixel { at: Point::new(4 + i % 3, 5 + i / 3), color: i as u16 })
        .collect();
    assert_eq!(dots, expected);
}

#[test]
fn move_with_angle_paints_the_rotated_bitmap() {
    let bmp = numbered(3, 3);
    let mut sprite = Sprite::new(&bmp, Point::new(0, 0), true, None);
    let quarter = Rotation::new(Fixed::from_bits(65536), Fixed::from_bits(0)).unwrap();
    let mut p = Point::new(10, 10);
    let repaint = sprite.move_to(&mut p, 0, Some(quarter));
    let dots = dots_of(&repaint.redraw);
    let colors: Vec<u16> = dots.iter().map(|d| d.color).collect();
    assert_eq!(colors, vec![6, 3, 0, 7, 4, 1, 8, 5, 2]);
    assert_eq!(dots[4].at, Point::new(11, 11));
}

#[test]
fn transparency_leaves_out_the_key_colour() {
    let bmp = Bitmap::new(3, 2, vec![7, 1, 7, 2, 7, 3]).unwrap();
    let sprite = Sprite::new(&bmp, Point::new(10, 20), false, Some(7));
    let dots = dots_of(&sprite.draw_with_transparency());
    assert_eq!(
        dots,
        vec![
            Pixel { at: Point::new(11, 20), color: 1 },
            Pixel { at: Point::new(10, 21), color: 2 },
            Pixel { at: Point::new(12, 21), color: 3 },
        ]
    );
    assert_eq!(keyed_dots(&bmp, Point::new(10, 20), 7), dots);
    assert_eq!(keyed_dots(&bmp, Point::new(0, 0), 9).len(), 6);
}

#[test]
fn move_with_transparency_ignores_the_angle_and_fills_whole_strips() {
    let bmp = Bitmap::new(2, 2, vec![7, 1, 7, 7]).unwrap();
    let mut sprite = Sprite::new(&bmp, Point::new(0, 0), false, Some(7));
    let quarter = Rotation::new(Fixed::from_bits(65536), Fixed::from_bits(0)).unwrap();
    let mut p = Point::new(1, 0);
    let repaint = sprite.move_to(&mut p, 3, Some(quarter));
    assert_eq!(repaint.erase.columns, Some(rect(0, 0, 1, 2)));
    assert_eq!(repaint.erase.background, 3);
    assert_eq!(dots_of(&repaint.redraw), vec![Pixel { at: Point::new(2, 0), color: 1 }]);
}

#[test]
fn clear_diff_leaves_the_target_alone() {
    let bmp = numbered(4, 4);
    let sprite = Sprite::new(&bmp, Point::new(0, 0), false, None);
    let mut target = Point::new(2, -3);
    let erasure = sprite.clear_diff(Point::new(0, 0), &mut target, 1);
    assert_eq!(target, Point::new(2, -3));
    assert_eq!(erasure.columns, Some(rect(0, -3, 2, 4)));
    assert_eq!(erasure.rows, Some(rect(2, 1, 4, 3)));
}

#[test]
fn movable_builder_keeps_every_setting() {
    let sprite = MovableSpriteBuilder::builder(numbered(4, 3)).build();
    assert_eq!(sprite.pos, Point::new(0, 0));
    assert_eq!(sprite.size, Size::new(4, 3));
    assert!(!sprite.screen_boundaries);
    let sprite = MovableSpriteBuilder::builder(numbered(4, 3))
        .with_position(Point::new(3, 4))
        .with_transparency(2)
        .with_screen_boundaries()
        .build();
    assert_eq!(sprite.pos, Point::new(3, 4));
    assert_eq!(sprite.transparent_color, Some(2));
    assert!(sprite.screen_boundaries);
}

#[test]
fn hold_back_sets_against_the_far_edge_first() {
    assert_eq!(hold_back(-3, 20, 320), 0);
    assert_eq!(hold_back(0, 20, 320), 0);
    assert_eq!(hold_back(299, 20, 320), 299);
    assert_eq!(hold_back(300, 20, 320), 300);
    assert_eq!(hold_back(301, 20, 320), 300);
    // a footprint wider than the display is set against the far edge
    assert_eq!(hold_back(-10, 400, 320), -80);
    assert_eq!(hold_back(-100, 400, 320), 0);
    assert_eq!(hold_back(i32::MAX, i32::MAX as u32, u16::MAX), 65535 - i32::MAX);
}

#[test]
fn movable_move_stays_on_the_display() {
    let mut sprite = MovableSprite::new(numbered(20, 10), Point::new(100, 100), true, None);
    for target in [
        Point::new(-5, -5),
        Point::new(400, 300),
        Point::new(150, 120),
        Point::new(300, 230),
    ] {
        let mut p = target;
        let repaint = sprite.move_to(&mut p, 0);
        assert_eq!(p, sprite.pos);
        assert_eq!(p.x, target.x.clamp(0, 300));
        assert_eq!(p.y, target.y.clamp(0, 230));
        assert!(is_blit_at(&repaint.redraw, p));
    }
}

#[test]
fn movable_move_erases_and_paints() {
    let mut sprite = MovableSprite::new(
        Bitmap::new(2, 2, vec![7, 1, 7, 7]).unwrap(),
        Point::new(5, 5),
        false,
        Some(7),
    );
    let mut p = Point::new(5, 4);
    let repaint = sprite.move_to(&mut p, 8);
    assert_eq!(repaint.erase.rows, Some(rect(5, 6, 2, 1)));
    assert_eq!(repaint.erase.columns, None);
    assert_eq!(dots_of(&repaint.redraw), vec![Pixel { at: Point::new(6, 4), color: 1 }]);
    assert!(is_blit_at(&sprite.draw(), Point::new(5, 4)));
    assert_eq!(dots_of(&sprite.draw_with_transparency()).len(), 1);
    let mut target = Point::new(9, 4);
    let erasure = sprite.clear_diff(Point::new(5, 4), &mut target, 0);
    assert_eq!(erasure.columns, Some(rect(5, 4, 2, 2)));
}
