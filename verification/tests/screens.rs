use gopherbadge::bitmap::Bitmap;
use gopherbadge::geometry::{saturate, Point};
use gopherbadge::paint::Redraw;
use gopherbadge::screens::{
    tilt, Accel, AccelDpad, Buttons, Dpad, Neopixel, Rgb, Steering, ToggleStep,
};
use smart_leds::hsv::{hsv2rgb, Hsv};

fn blank(width: u32, height: u32) -> Bitmap {
    Bitmap::new(width, height, vec![0; (width * height) as usize]).unwrap()
}

fn buttons(left: bool, right: bool, up: bool, down: bool) -> Buttons {
    Buttons { left, right, up, down }
}

fn none() -> Buttons {
    buttons(false, false, false, false)
}

#[test]
fn buttons_nudge_by_one_pixel() {
    let p = Point::new(10, 20);
    assert_eq!(none().nudge(p), p);
    assert_eq!(buttons(true, false, false, false).nudge(p), Point::new(9, 20));
    assert_eq!(buttons(false, true, false, false).nudge(p), Point::new(11, 20));
    assert_eq!(buttons(false, false, true, false).nudge(p), Point::new(10, 19));
    assert_eq!(buttons(false, false, false, true).nudge(p), Point::new(10, 21));
    assert_eq!(buttons(true, true, true, true).nudge(p), p);
    let far = Point::new(i32::MAX, i32::MAX);
    assert_eq!(buttons(false, true, false, true).nudge(far), far);
    let near = Point::new(i32::MIN, i32::MIN);
    assert_eq!(buttons(true, false, true, false).nudge(near), near);
    assert!(!none().any());
    assert!(buttons(false, false, true, false).any());
}

#[test]
fn tilt_takes_the_shift_off() {
    assert_eq!(tilt(Point::new(10, 20), Point::new(3, -4)), Point::new(7, 24));
    assert_eq!(
        tilt(Point::new(i32::MIN, 0), Point::new(1, i32::MIN)),
        Point::new(i32::MIN, i32::MAX)
    );
    assert_eq!(saturate(i64::MAX), i32::MAX);
    assert_eq!(saturate(i64::MIN), i32::MIN);
    assert_eq!(saturate(-7), -7);
}

#[test]
fn dpad_paints_first_and_then_only_on_a_button() {
    let mut screen = Dpad::new(blank(20, 10)).unwrap();
    assert_eq!(screen.position, Point::new(150, 115));
    let step = screen.tick(none());
    let repaint = step.repaint.unwrap();
    assert!(matches!(repaint.redraw, Redraw::Blit { at } if at == Point::new(150, 115)));
    assert_eq!(repaint.erase.columns, None);
    assert_eq!(step.wait_ms, 0);
    assert!(screen.tick(none()).repaint.is_none());
    let step = screen.tick(buttons(false, true, false, false));
    let repaint = step.repaint.unwrap();
    assert!(matches!(repaint.redraw, Redraw::Blit { at } if at == Point::new(151, 115)));
    assert!(repaint.erase.columns.is_some());
    assert_eq!(screen.sprite.pos, Point::new(151, 115));
}

#[test]
fn dpad_stops_at_the_edges() {
    let mut screen = Dpad::new(blank(20, 10)).unwrap();
    for _ in 0..400 {
        screen.tick(buttons(false, true, false, true));
    }
    assert_eq!(screen.sprite.pos, Point::new(300, 230));
    assert_eq!(screen.position, Point::new(300, 230));
    for _ in 0..400 {
        screen.tick(buttons(true, false, true, false));
    }
    assert_eq!(screen.sprite.pos, Point::new(0, 0));
    assert!(Dpad::new(blank(321, 10)).is_none());
}

#[test]
fn accel_moves_against_the_shift_every_round() {
    let mut screen = Accel::new(blank(20, 10)).unwrap();
    let step = screen.tick(Point::new(5, -3));
    assert_eq!(screen.sprite.pos, Point::new(145, 118));
    assert_eq!(screen.position, Point::new(145, 118));
    assert!(step.repaint.is_some());
    let step = screen.tick(Point::new(0, 0));
    let redraw = step.repaint.unwrap().redraw;
    assert!(matches!(redraw, Redraw::Blit { at } if at == Point::new(145, 118)));
    screen.tick(Point::new(1000, -1000));
    assert_eq!(screen.sprite.pos, Point::new(0, 230));
    assert!(Accel::new(blank(10, 241)).is_none());
}

#[test]
fn accel_dpad_switches_between_the_two() {
    let bmp = blank(20, 10);
    let mut screen = AccelDpad::new(&bmp).unwrap();
    assert!(screen.dpad);
    let step = screen.tick(Steering::Buttons { buttons: none() });
    assert!(step.repaint.is_some());
    assert_eq!(step.wait_ms, 1);
    assert_eq!(screen.toggle(false), ToggleStep { clear: false, wait_ms: 0 });
    let step = screen.tick(Steering::Buttons { buttons: none() });
    assert!(step.repaint.is_none());
    assert_eq!(step.wait_ms, 0);
    let left = Steering::Buttons { buttons: buttons(true, false, false, false) };
    let step = screen.tick(left);
    assert_eq!(screen.sprite.pos, Point::new(149, 115));
    assert_eq!(step.wait_ms, 1);
    assert!(!screen.draw);
    assert_eq!(screen.toggle(true), ToggleStep { clear: true, wait_ms: 200 });
    assert!(!screen.dpad);
    assert!(screen.draw);
    let step = screen.tick(Steering::Tilt { shift: Point::new(-10, 10) });
    assert_eq!(screen.sprite.pos, Point::new(159, 105));
    let redraw = step.repaint.unwrap().redraw;
    assert!(matches!(redraw, Redraw::Blit { at } if at == Point::new(159, 105)));
    assert_eq!(screen.toggle(true), ToggleStep { clear: true, wait_ms: 200 });
    assert!(screen.dpad);
    // the picture is painted anew after the display was cleared
    let step = screen.tick(Steering::Buttons { buttons: none() });
    assert!(step.repaint.is_some());
}

#[test]
fn neopixel_lights_run_in_opposite_directions() {
    let mut screen = Neopixel::new(blank(20, 10)).unwrap();
    for round in 0..600u32 {
        let hue = (round % 256) as u8;
        assert_eq!(screen.hue, hue);
        let step = screen.tick(none());
        let first = hsv2rgb(Hsv { hue, sat: 255, val: 32 });
        let second = hsv2rgb(Hsv { hue: 255 - hue, sat: 255, val: 32 });
        assert_eq!(step.leds[0], Rgb { r: first.r, g: first.g, b: first.b });
        assert_eq!(step.leds[1], Rgb { r: second.r, g: second.g, b: second.b });
        assert_eq!(step.screen.repaint.is_some(), round == 0);
        assert_eq!(step.screen.wait_ms, if round == 0 { 0 } else { 20 });
    }
    assert_eq!(Neopixel::lights_out(), [Rgb { r: 0, g: 0, b: 0 }; 2]);
}

#[test]
fn neopixel_first_light_starts_red() {
    let mut screen = Neopixel::new(blank(20, 10)).unwrap();
    let step = screen.tick(buttons(false, false, false, true));
    assert_eq!(step.leds[0], Rgb { r: 32, g: 0, b: 0 });
    assert!(step.screen.repaint.is_some());
    assert_eq!(screen.pad.sprite.pos, Point::new(150, 116));
}
