//! The chase game: a player sprite steered by tilting the device hunts a
//! gopher that runs away. The game is a state machine. It says what the
//! loop has to read next; handed the reading, it says what to paint.

use crate::bitmap::{bitmap_fits_display, Bitmap, BLACK};
use crate::dirty::erasure_plan;
use crate::geometry::{Point, TFT_DISPLAY_HEIGHT, TFT_DISPLAY_WIDTH};
use crate::paint::{paints, Redraw, Repaint};
use crate::pursuit::{
    colliding, draws_at, fled_to, is_colliding, panics, run_away_from, words_drawn, ChaseRng,
    COLLISION_THRESHOLD,
};
use crate::rotate::Rotation;
use crate::screens::{tilt, tilted};
use crate::sprite::{settled, Sprite, SpriteBuilder};
use vstd::prelude::*;

verus! {

/// Where the gopher starts, and where it is put back for a new round:
/// the column of its top-left corner.
pub const GOPHER_START_X: i32 = 100;

/// The row of the top-left corner at which the gopher starts.
pub const GOPHER_START_Y: i32 = 100;

/// The seed of the gopher's wandering.
pub const HUNT_SEED: u64 = 0x12345678;

/// The greatest number of pixels that the gopher moves in a round, before
/// jitter doubles it at most.
pub const GOPHER_MAX_SPEED: i32 = 6;

/// The distance below which the gopher flees from the player.
pub const GOPHER_PANIC_DISTANCE: i32 = 70;

/// How long to wait after the player has been painted, in milliseconds.
pub const RUNNING_WAIT_MS: u32 = 1;

/// How long to wait in a round after the gopher was caught.
pub const CAUGHT_WAIT_MS: u32 = 100;

/// The two states of the game.
#[derive(Clone, Copy, Debug, PartialEq, Eq, Structural)]
pub enum GameState {
    Running,
    Caught,
}

/// What the loop that runs the game has to do next.
#[derive(Clone, Copy, Debug, PartialEq, Eq, Structural)]
pub enum Awaits {
    /// Read the tilt and hand it to `tick_running`.
    Tilt,
    /// Read the button that ends the game and hand it to `poll_exit`.
    ExitButton,
    /// Call `tick_caught`, which says whether to show the picture of the
    /// caught gopher and how long to wait.
    CaughtScreen,
    /// Read the button that starts a new round and hand it to
    /// `poll_restart`.
    RestartButton,
}

/// The game between two calls.
pub struct Hunt<'a> {
    pub player: Sprite<'a>,
    pub gopher: Sprite<'a>,
    pub rng: ChaseRng,
    /// Whether the picture for a caught gopher is still to be painted.
    pub draw: bool,
    /// Whether the gopher has been caught.
    pub dead: bool,
    /// What the loop has to do next.
    pub next: Awaits,
}

/// What was read at the start of a round while the game is running.
#[derive(Clone, Copy, Debug, PartialEq, Eq, Structural)]
pub struct RunningInput {
    /// How far the tilt pushes the player; it is taken off the position.
    pub shift: Point,
    /// The angle at which the player is drawn; none to draw it upright.
    pub rotation: Option<Rotation>,
}

/// What to do in a round while the game is running, in this order.
pub struct RunningStep {
    /// Repaint the player.
    pub player: Repaint,
    /// Then wait this long, in milliseconds.
    pub wait_ms: u32,
    /// Then repaint the gopher.
    pub gopher: Repaint,
    /// Whether the player has caught the gopher in this round.
    pub caught: bool,
}

/// What to do in a round once the gopher is caught, in this order.
#[derive(Clone, Copy, Debug, PartialEq, Eq, Structural)]
pub struct CaughtStep {
    /// Whether to clear the display to white and show the picture of
    /// the caught gopher. This is asked for once after each catch.
    pub show_caught: bool,
    /// Then wait this long, in milliseconds.
    pub wait_ms: u32,
}

impl<'a> Hunt<'a> {
    /// The game is well formed when both sprites are, both keep to the
    /// display and fit on it, the stream is at a proper place, and what
    /// the loop has to do next goes with the state: the tilt is read only
    /// while the game is running, the caught screen and the restart
    /// button come up only once the gopher is caught.
    pub open spec fn wf(&self) -> bool {
        &&& self.next is Tilt ==> !self.dead
        &&& self.next is CaughtScreen || self.next is RestartButton ==> self.dead
        &&& self.player.wf()
        &&& self.gopher.wf()
        &&& self.player.screen_boundaries
        &&& self.gopher.screen_boundaries
        &&& self.player.size.width <= TFT_DISPLAY_WIDTH
        &&& self.player.size.height <= TFT_DISPLAY_HEIGHT
        &&& self.gopher.size.width <= TFT_DISPLAY_WIDTH
        &&& self.gopher.size.height <= TFT_DISPLAY_HEIGHT
        &&& self.rng.wf()
    }

    /// The state of the game.
    pub open spec fn state_of(&self) -> GameState {
        if self.dead {
            GameState::Caught
        } else {
            GameState::Running
        }
    }

    /// Sets up a game: the player in the middle of the display, the
    /// gopher at its start, the stream at the start for `HUNT_SEED`.
    /// Returns `None` if a bitmap is not well formed or larger than the
    /// display.
    pub fn new(player_bmp: &'a Bitmap, gopher_bmp: &'a Bitmap) -> (hunt: Option<Hunt<'a>>)
        ensures
            hunt is Some <==> {
                &&& player_bmp.wf()
                &&& gopher_bmp.wf()
                &&& player_bmp.width <= TFT_DISPLAY_WIDTH
                &&& player_bmp.height <= TFT_DISPLAY_HEIGHT
                &&& gopher_bmp.width <= TFT_DISPLAY_WIDTH
                &&& gopher_bmp.height <= TFT_DISPLAY_HEIGHT
            },
            hunt matches Some(h) ==> {
                &&& h.wf()
                &&& h.player.bmp == player_bmp
                &&& h.gopher.bmp == gopher_bmp
                &&& h.player.pos == crate::bitmap::centered_on_screen(player_bmp.extent_of())
                &&& h.gopher.pos == (Point { x: GOPHER_START_X, y: GOPHER_START_Y })
                &&& h.player.transparent_color is None
                &&& h.gopher.transparent_color is None
                &&& h.rng == (ChaseRng { seed: HUNT_SEED, word_pos: 0 })
                &&& !h.draw
                &&& !h.dead
                &&& h.next == Awaits::Tilt
            },
    {
        if !bitmap_fits_display(player_bmp) || !bitmap_fits_display(gopher_bmp) {
            return None;
        }
        let player_position: Point = crate::bitmap::BmpExt::screen_center(player_bmp);
        let player: Sprite<'a> = SpriteBuilder::builder(player_bmp).with_position(
            player_position,
        ).with_screen_boundaries().build();
        let gopher: Sprite<'a> = SpriteBuilder::builder(gopher_bmp).with_position(
            Point { x: GOPHER_START_X, y: GOPHER_START_Y },
        ).with_screen_boundaries().build();
        Some(
            Hunt {
                player,
                gopher,
                rng: ChaseRng::seed_from_u64(HUNT_SEED),
                draw: false,
                dead: false,
                next: Awaits::Tilt,
            },
        )
    }

    /// The state of the game.
    pub fn state(&self) -> (state: GameState)
        ensures
            state == self.state_of(),
    {
        if self.dead {
            GameState::Caught
        } else {
            GameState::Running
        }
    }

    /// What the loop has to do next.
    pub fn awaits(&self) -> (next: Awaits)
        ensures
            next == self.next,
    {
        self.next
    }

    /// What to paint when the game opens, after the display has been
    /// cleared to `BLACK`: the gopher, upright, where it stands.
    pub fn opening(&self) -> (redraw: Redraw)
        requires
            self.wf(),
        ensures
            redraw == (Redraw::Blit { at: self.gopher.pos }),
    {
        self.gopher.draw(None)
    }

    /// The start of a round while the game is running. The player moves
    /// against the shift and is held on the display; then the gopher
    /// takes a step of its policy, away from the player's new position;
    /// then the two are tested for a collision, which ends the running
    /// state. Once all this is painted the exit button is to be read.
    pub fn tick_running(&mut self, input: RunningInput) -> (step: RunningStep)
        requires
            old(self).wf(),
            old(self).next is Tilt,
            input.rotation matches Some(r) ==> r.wf(),
        ensures
            final(self).wf(),
            final(self).next == Awaits::ExitButton,
            final(self).player.bmp == old(self).player.bmp,
            final(self).gopher.bmp == old(self).gopher.bmp,
            final(self).player.size == old(self).player.size,
            final(self).gopher.size == old(self).gopher.size,
            final(self).player.transparent_color == old(self).player.transparent_color,
            final(self).gopher.transparent_color == old(self).gopher.transparent_color,
            final(self).player.pos == settled(
                tilted(old(self).player.pos, input.shift),
                old(self).player.size,
                true,
            ),
            final(self).gopher.pos == settled(
                fled_to(
                    old(self).gopher.center_of(),
                    old(self).gopher.size,
                    final(self).player.center_of(),
                    draws_at(
                        old(self).rng,
                        panics(
                            old(self).gopher.center_of(),
                            final(self).player.center_of(),
                            GOPHER_PANIC_DISTANCE as int,
                        ),
                    ),
                    GOPHER_MAX_SPEED as int,
                    GOPHER_PANIC_DISTANCE as int,
                ),
                old(self).gopher.size,
                true,
            ),
            final(self).rng == old(self).rng.advanced(
                words_drawn(
                    panics(
                        old(self).gopher.center_of(),
                        final(self).player.center_of(),
                        GOPHER_PANIC_DISTANCE as int,
                    ),
                ),
            ),
            step.caught == colliding(
                final(self).gopher.center_of(),
                final(self).player.center_of(),
                COLLISION_THRESHOLD as int,
            ),
            final(self).dead == step.caught,
            final(self).draw == (step.caught || old(self).draw),
            step.wait_ms == RUNNING_WAIT_MS,
            step.player.erase == erasure_plan(
                old(self).player.pos,
                final(self).player.pos,
                old(self).player.size,
                BLACK,
            ),
            paints(
                step.player.redraw,
                *old(self).player.bmp,
                final(self).player.pos,
                old(self).player.transparent_color,
                input.rotation,
            ),
            step.gopher.erase == erasure_plan(
                old(self).gopher.pos,
                final(self).gopher.pos,
                old(self).gopher.size,
                BLACK,
            ),
            paints(
                step.gopher.redraw,
                *old(self).gopher.bmp,
                final(self).gopher.pos,
                old(self).gopher.transparent_color,
                None,
            ),
    {
        let mut player_position: Point = tilt(self.player.pos, input.shift);
        let player: Repaint = self.player.move_to(&mut player_position, BLACK, input.rotation);
        let mut new_pos: Point = run_away_from(
            &self.gopher,
            &self.player,
            &mut self.rng,
            GOPHER_MAX_SPEED,
            GOPHER_PANIC_DISTANCE,
        );
        let gopher: Repaint = self.gopher.move_to(&mut new_pos, BLACK, None);
        let caught: bool = is_colliding(&self.gopher, &self.player);
        if caught {
            self.draw = true;
            self.dead = true;
        }
        self.next = Awaits::ExitButton;
        RunningStep { player, wait_ms: RUNNING_WAIT_MS, gopher, caught }
    }

    /// The end of a round in which the game was running: the exit button
    /// has been read. Pressed, it ends the game, whether or not the gopher
    /// was caught in the round. Otherwise the next round reads the tilt,
    /// or shows the caught screen if the gopher was caught.
    pub fn poll_exit(&mut self, pressed: bool) -> (leave: bool)
        requires
            old(self).wf(),
            old(self).next is ExitButton,
        ensures
            leave == pressed,
            final(self).wf(),
            final(self).next == (if old(self).dead {
                Awaits::CaughtScreen
            } else {
                Awaits::Tilt
            }),
            final(self).player == old(self).player,
            final(self).gopher == old(self).gopher,
            final(self).rng == old(self).rng,
            final(self).draw == old(self).draw,
            final(self).dead == old(self).dead,
    {
        self.next = if self.dead {
            Awaits::CaughtScreen
        } else {
            Awaits::Tilt
        };
        pressed
    }

    /// The start of a round once the gopher is caught. The picture of the
    /// caught gopher is asked for if it has not been shown since the
    /// catch. After the wait the restart button is to be read.
    pub fn tick_caught(&mut self) -> (step: CaughtStep)
        requires
            old(self).wf(),
            old(self).next is CaughtScreen,
        ensures
            final(self).wf(),
            final(self).next == Awaits::RestartButton,
            final(self).player == old(self).player,
            final(self).gopher == old(self).gopher,
            final(self).rng == old(self).rng,
            final(self).dead,
            !final(self).draw,
            step == (CaughtStep { show_caught: old(self).draw, wait_ms: CAUGHT_WAIT_MS }),
    {
        let show_caught: bool = self.draw;
        self.draw = false;
        self.next = Awaits::RestartButton;
        CaughtStep { show_caught, wait_ms: CAUGHT_WAIT_MS }
    }

    /// The end of a round once the gopher is caught: the restart button
    /// has been read. Pressed, it puts the gopher back at its start and
    /// the game runs again; the repaint of the gopher is returned, and
    /// after it the display is to be cleared to `BLACK`. Otherwise
    /// nothing changes and the next round is another caught round.
    pub fn poll_restart(&mut self, pressed: bool) -> (restart: Option<Repaint>)
        requires
            old(self).wf(),
            old(self).next is RestartButton,
        ensures
            final(self).wf(),
            final(self).player == old(self).player,
            final(self).rng == old(self).rng,
            final(self).draw == old(self).draw,
            final(self).gopher.bmp == old(self).gopher.bmp,
            final(self).gopher.size == old(self).gopher.size,
            final(self).gopher.screen_boundaries == old(self).gopher.screen_boundaries,
            final(self).gopher.transparent_color == old(self).gopher.transparent_color,
            final(self).dead == !pressed,
            final(self).next == (if pressed {
                Awaits::Tilt
            } else {
                Awaits::CaughtScreen
            }),
            restart is Some <==> pressed,
            !pressed ==> final(self).gopher == old(self).gopher,
            pressed ==> final(self).gopher.pos == settled(
                Point { x: GOPHER_START_X, y: GOPHER_START_Y },
                old(self).gopher.size,
                true,
            ),
            restart matches Some(repaint) ==> {
                &&& repaint.erase == erasure_plan(
                    old(self).gopher.pos,
                    final(self).gopher.pos,
                    old(self).gopher.size,
                    BLACK,
                )
                &&& paints(
                    repaint.redraw,
                    *old(self).gopher.bmp,
                    final(self).gopher.pos,
                    old(self).gopher.transparent_color,
                    None,
                )
            },
    {
        if pressed {
            self.dead = false;
            self.next = Awaits::Tilt;
            let mut home: Point = Point { x: GOPHER_START_X, y: GOPHER_START_Y };
            Some(self.gopher.move_to(&mut home, BLACK, None))
        } else {
            self.next = Awaits::CaughtScreen;
            None
        }
    }
}

} // verus!
