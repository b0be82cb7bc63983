use gopherbadge::bitmap::{bitmap_fits_display, Bitmap, BmpExt, BLACK};
use gopherbadge::geometry::Point;
use gopherbadge::hunt::{Awaits, GameState, Hunt, RunningInput};
use gopherbadge::paint::Redraw;
use gopherbadge::pursuit::{run_away_from, ChaseRng};
use gopherbadge::sprite::Sprite;

fn blank(width: u32, height: u32) -> Bitmap {
    Bitmap::new(width, height, vec![0; (width * height) as usize]).unwrap()
}

fn quiet() -> RunningInput {
    RunningInput { shift: Point::new(0, 0), rotation: None }
}

fn shifted(x: i32, y: i32) -> RunningInput {
    RunningInput { shift: Point::new(x, y), rotation: None }
}

fn caught<'a>(crab: &'a Bitmap, gopher: &'a Bitmap) -> Hunt<'a> {
    let mut hunt = Hunt::new(crab, gopher).unwrap();
    hunt.dead = true;
    hunt.draw = true;
    hunt.next = Awaits::CaughtScreen;
    hunt
}

#[test]
fn new_game_starts_running() {
    let crab = blank(32, 32);
    let gopher = blank(24, 30);
    let hunt = Hunt::new(&crab, &gopher).unwrap();
    assert_eq!(hunt.state(), GameState::Running);
    assert_eq!(hunt.awaits(), Awaits::Tilt);
    assert_eq!(hunt.player.pos, crab.screen_center());
    assert_eq!(hunt.player.pos, Point::new(144, 104));
    assert_eq!(hunt.gopher.pos, Point::new(100, 100));
    assert!(hunt.player.screen_boundaries && hunt.gopher.screen_boundaries);
    assert_eq!(hunt.rng, ChaseRng::seed_from_u64(0x12345678));
    assert!(matches!(hunt.opening(), Redraw::Blit { at } if at == Point::new(100, 100)));
}

#[test]
fn new_game_needs_bitmaps_that_fit() {
    let crab = blank(32, 32);
    let wide = blank(321, 10);
    let tall = blank(10, 241);
    let full = blank(320, 240);
    assert!(Hunt::new(&crab, &wide).is_none());
    assert!(Hunt::new(&tall, &crab).is_none());
    assert!(Hunt::new(&full, &full).is_some());
    assert!(bitmap_fits_display(&full));
    assert!(!bitmap_fits_display(&wide));
    let broken = Bitmap { width: 4, height: 4, pixels: vec![0; 15] };
    assert!(!bitmap_fits_display(&broken));
    assert!(Hunt::new(&broken, &crab).is_none());
}

#[test]
fn shift_is_taken_off_the_player_position() {
    let crab = blank(32, 32);
    let gopher = blank(24, 30);
    let mut hunt = Hunt::new(&crab, &gopher).unwrap();
    hunt.gopher.pos = Point::new(0, 0);
    let step = hunt.tick_running(shifted(10, -5));
    assert_eq!(hunt.player.pos, Point::new(134, 109));
    assert_eq!(step.wait_ms, 1);
    assert_eq!(hunt.awaits(), Awaits::ExitButton);
    assert_eq!(step.player.erase.background, BLACK);
    assert!(matches!(step.player.redraw, Redraw::Blit { at } if at == Point::new(134, 109)));
    assert!(!hunt.poll_exit(false));
    assert_eq!(hunt.awaits(), Awaits::Tilt);
    hunt.gopher.pos = Point::new(0, 0);
    let step = hunt.tick_running(shifted(i32::MIN, i32::MAX));
    assert_eq!(hunt.player.pos, Point::new(288, 0));
    assert!(matches!(step.player.redraw, Redraw::Blit { at } if at == Point::new(288, 0)));
}

#[test]
fn gopher_takes_the_step_of_its_policy() {
    let crab = blank(32, 32);
    let gopher = blank(24, 30);
    let mut hunt = Hunt::new(&crab, &gopher).unwrap();
    let mut rng = ChaseRng::seed_from_u64(0x12345678);
    let mut shadow = Sprite::new(&gopher, Point::new(100, 100), true, None);
    for round in 0..200 {
        if hunt.state() == GameState::Caught {
            break;
        }
        let before = hunt.gopher.pos;
        let step = hunt.tick_running(quiet());
        assert!(!hunt.poll_exit(false));
        let mut expected = run_away_from(&shadow, &hunt.player, &mut rng, 6, 70);
        shadow.move_to(&mut expected, 0, None);
        assert_eq!(hunt.gopher.pos, expected, "round {}", round);
        assert_eq!(hunt.rng, rng);
        assert!(hunt.gopher.pos.x <= 320 - 24 && hunt.gopher.pos.y <= 240 - 30);
        assert!(matches!(step.gopher.redraw, Redraw::Blit { at } if at == expected));
        assert_eq!(step.gopher.erase.columns.is_some(), before.x != expected.x);
        assert_eq!(step.gopher.erase.rows.is_some(), before.y != expected.y);
    }
}

#[test]
fn exit_is_read_at_the_end_of_every_running_round() {
    let crab = blank(32, 32);
    let gopher = blank(24, 30);
    let mut hunt = Hunt::new(&crab, &gopher).unwrap();
    hunt.gopher.pos = Point::new(0, 0);
    for _ in 0..3 {
        assert_eq!(hunt.awaits(), Awaits::Tilt);
        hunt.tick_running(quiet());
        assert_eq!(hunt.awaits(), Awaits::ExitButton);
        assert!(!hunt.poll_exit(false));
        hunt.gopher.pos = Point::new(0, 0);
    }
    hunt.tick_running(quiet());
    assert!(hunt.poll_exit(true));
}

#[test]
fn exit_is_read_even_when_the_gopher_was_caught() {
    let crab = blank(32, 32);
    let gopher = blank(32, 32);
    let mut hunt = Hunt::new(&crab, &gopher).unwrap();
    loop {
        hunt.gopher.pos = Point::new(hunt.player.pos.x + 1, hunt.player.pos.y);
        let step = hunt.tick_running(quiet());
        assert_eq!(hunt.awaits(), Awaits::ExitButton);
        if step.caught {
            break;
        }
        assert!(!hunt.poll_exit(false));
    }
    assert_eq!(hunt.state(), GameState::Caught);
    assert!(!hunt.poll_exit(false));
    assert_eq!(hunt.awaits(), Awaits::CaughtScreen);
    assert_eq!(hunt.state(), GameState::Caught);
}

#[test]
fn catching_the_gopher_ends_the_round() {
    let crab = blank(32, 32);
    let gopher = blank(32, 32);
    let mut hunt = Hunt::new(&crab, &gopher).unwrap();
    // the gopher moves at most twelve pixels: with the centres one apart
    // it may still be within fifteen afterwards, or not
    let mut caught = false;
    for _ in 0..50 {
        hunt.gopher.pos = Point::new(hunt.player.pos.x + 1, hunt.player.pos.y);
        let step = hunt.tick_running(quiet());
        let gap_x = (hunt.gopher.center().x - hunt.player.center().x).abs();
        let gap_y = (hunt.gopher.center().y - hunt.player.center().y).abs();
        assert_eq!(step.caught, gap_x < 15 && gap_y < 15);
        if step.caught {
            caught = true;
            break;
        }
        assert!(!hunt.poll_exit(false));
    }
    assert!(caught);
    assert_eq!(hunt.state(), GameState::Caught);
    assert!(hunt.draw && hunt.dead);
}

#[test]
fn caught_screen_is_shown_once() {
    let crab = blank(32, 32);
    let gopher = blank(32, 32);
    let mut hunt = caught(&crab, &gopher);
    let player = hunt.player.pos;
    let place = hunt.gopher.pos;
    let rng = hunt.rng;
    let step = hunt.tick_caught();
    assert!(step.show_caught);
    assert_eq!(step.wait_ms, 100);
    assert_eq!(hunt.awaits(), Awaits::RestartButton);
    assert!(hunt.poll_restart(false).is_none());
    assert_eq!(hunt.awaits(), Awaits::CaughtScreen);
    assert_eq!(hunt.state(), GameState::Caught);
    let step = hunt.tick_caught();
    assert!(!step.show_caught);
    assert!(hunt.poll_restart(false).is_none());
    assert_eq!(hunt.gopher.pos, place);
    assert_eq!(hunt.player.pos, player);
    assert_eq!(hunt.rng, rng);
}

#[test]
fn restart_puts_the_gopher_back() {
    let crab = blank(32, 32);
    let gopher = blank(32, 32);
    let mut hunt = caught(&crab, &gopher);
    hunt.gopher.pos = Point::new(200, 150);
    let step = hunt.tick_caught();
    assert!(step.show_caught);
    let repaint = hunt.poll_restart(true).unwrap();
    assert_eq!(hunt.state(), GameState::Running);
    assert_eq!(hunt.awaits(), Awaits::Tilt);
    assert_eq!(hunt.gopher.pos, Point::new(100, 100));
    assert_eq!(repaint.erase.background, BLACK);
    assert!(repaint.erase.columns.is_some() && repaint.erase.rows.is_some());
    assert!(matches!(repaint.redraw, Redraw::Blit { at } if at == Point::new(100, 100)));
    assert!(!hunt.draw && !hunt.dead);
}
