//! The demo screens that move one sprite about: by the direction buttons,
//! by tilting the device, or by either. Each screen is a state machine:
//! handed what was read at the start of a round, it says what to paint.
//! The button that leaves a screen is read by the loop at the end of each
//! round.

use crate::bitmap::{bitmap_fits_display, Bitmap, BmpExt, BLACK};
use crate::dirty::erasure_plan;
use crate::geometry::{saturate, saturated, Point, TFT_DISPLAY_HEIGHT, TFT_DISPLAY_WIDTH};
use crate::movable_sprite::{settled_movable, MovableSprite, MovableSpriteBuilder};
use crate::paint::{paints, Repaint};
use crate::sprite::{settled, Sprite, SpriteBuilder};
use smart_leds::hsv::{hsv2rgb, Hsv};
use vstd::prelude::*;

verus! {

/// Which of the four direction buttons are pressed.
#[derive(Clone, Copy, Debug, PartialEq, Eq, Structural)]
pub struct Buttons {
    pub left: bool,
    pub right: bool,
    pub up: bool,
    pub down: bool,
}

/// What a round of a screen asks for. Once it is done the loop reads the
/// button that leaves the screen.
pub struct ScreenStep {
    /// What to repaint, if the sprite is to be painted in this round.
    pub repaint: Option<Repaint>,
    /// How long to wait afterwards, in milliseconds.
    pub wait_ms: u32,
}

/// One if the button is pressed, else zero.
pub open spec fn pressed(button: bool) -> int {
    if button {
        1
    } else {
        0
    }
}

/// The position one pixel further to the right for the right button, to
/// the left for the left one, up for the up one and down for the down one,
/// each coordinate held to what can be represented.
pub open spec fn nudged(position: Point, buttons: Buttons) -> Point {
    Point {
        x: saturated(position.x + pressed(buttons.right) - pressed(buttons.left)) as i32,
        y: saturated(position.y + pressed(buttons.down) - pressed(buttons.up)) as i32,
    }
}

/// The position less the shift, each coordinate held to what can be
/// represented.
pub open spec fn tilted(position: Point, shift: Point) -> Point {
    Point {
        x: saturated(position.x - shift.x) as i32,
        y: saturated(position.y - shift.y) as i32,
    }
}

impl Buttons {
    /// Whether any button is pressed.
    pub open spec fn any_pressed(self) -> bool {
        self.left || self.right || self.up || self.down
    }

    /// Whether any button is pressed.
    pub fn any(&self) -> (any: bool)
        ensures
            any == self.any_pressed(),
    {
        self.left || self.right || self.up || self.down
    }

    /// The position that the buttons push `position` to.
    pub fn nudge(&self, position: Point) -> (p: Point)
        ensures
            p == nudged(position, *self),
    {
        let mut x: i64 = position.x as i64;
        let mut y: i64 = position.y as i64;
        if self.right {
            x = x + 1;
        }
        if self.left {
            x = x - 1;
        }
        if self.up {
            y = y - 1;
        }
        if self.down {
            y = y + 1;
        }
        Point { x: saturate(x), y: saturate(y) }
    }
}

/// The position that a tilt pushes `position` to.
pub fn tilt(position: Point, shift: Point) -> (p: Point)
    ensures
        p == tilted(position, shift),
{
    Point {
        x: saturate(position.x as i64 - shift.x as i64),
        y: saturate(position.y as i64 - shift.y as i64),
    }
}

/// The screen on which the direction buttons move a picture.
pub struct Dpad {
    pub sprite: MovableSprite,
    /// Where the picture is asked to be.
    pub position: Point,
    /// Whether the picture is to be painted in the next round.
    pub draw: bool,
}

impl Dpad {
    /// The sprite is well formed, is held back at the display's edges
    /// and fits on the display.
    pub open spec fn wf(&self) -> bool {
        &&& self.sprite.wf()
        &&& self.sprite.screen_boundaries
        &&& self.sprite.size.width <= TFT_DISPLAY_WIDTH
        &&& self.sprite.size.height <= TFT_DISPLAY_HEIGHT
    }

    /// Sets up the screen with the picture in the middle of the display,
    /// to be painted in the first round. Returns `None` if the bitmap is
    /// not well formed or larger than the display.
    pub fn new(bmp: Bitmap) -> (screen: Option<Dpad>)
        ensures
            screen is Some <==> bmp.wf() && bmp.width <= TFT_DISPLAY_WIDTH && bmp.height
                <= TFT_DISPLAY_HEIGHT,
            screen matches Some(s) ==> {
                &&& s.wf()
                &&& s.sprite.bmp == bmp
                &&& s.sprite.pos == crate::bitmap::centered_on_screen(bmp.extent_of())
                &&& s.sprite.transparent_color is None
                &&& s.position == s.sprite.pos
                &&& s.draw
            },
    {
        if !bitmap_fits_display(&bmp) {
            return None;
        }
        let position: Point = bmp.screen_center();
        let sprite: MovableSprite = MovableSpriteBuilder::builder(bmp).with_position(
            position,
        ).with_screen_boundaries().build();
        Some(Dpad { sprite, position, draw: true })
    }

    /// One round: the buttons push the position; if one was pressed, or
    /// the picture is still to be painted, the sprite moves there and is
    /// painted, and the position becomes where the sprite came to rest.
    pub fn tick(&mut self, buttons: Buttons) -> (step: ScreenStep)
        requires
            old(self).wf(),
        ensures
            final(self).wf(),
            final(self).sprite.bmp == old(self).sprite.bmp,
            final(self).sprite.size == old(self).sprite.size,
            final(self).sprite.transparent_color == old(self).sprite.transparent_color,
            !final(self).draw,
            step.wait_ms == 0,
            step.repaint is Some <==> old(self).draw || buttons.any_pressed(),
            step.repaint is None ==> final(self).sprite.pos == old(self).sprite.pos
                && final(self).position == old(self).position,
            step.repaint matches Some(repaint) ==> {
                &&& final(self).sprite.pos == settled_movable(
                    nudged(old(self).position, buttons),
                    old(self).sprite.size,
                    true,
                )
                &&& final(self).position == final(self).sprite.pos
                &&& repaint.erase == erasure_plan(
                    old(self).sprite.pos,
                    final(self).sprite.pos,
                    old(self).sprite.size,
                    BLACK,
                )
                &&& paints(
                    repaint.redraw,
                    old(self).sprite.bmp,
                    final(self).sprite.pos,
                    old(self).sprite.transparent_color,
                    None,
                )
            },
    {
        if buttons.any() {
            self.position = buttons.nudge(self.position);
            self.draw = true;
        }
        let repaint: Option<Repaint> = if self.draw {
            let mut target: Point = self.position;
            let repaint: Repaint = self.sprite.move_to(&mut target, BLACK);
            self.position = target;
            self.draw = false;
            Some(repaint)
        } else {
            None
        };
        ScreenStep { repaint, wait_ms: 0 }
    }
}

/// The screen on which tilting the device moves a picture.
pub struct Accel {
    pub sprite: MovableSprite,
    /// Where the picture is asked to be.
    pub position: Point,
}

impl Accel {
    /// The sprite is well formed, is held back at the display's edges
    /// and fits on the display.
    pub open spec fn wf(&self) -> bool {
        &&& self.sprite.wf()
        &&& self.sprite.screen_boundaries
        &&& self.sprite.size.width <= TFT_DISPLAY_WIDTH
        &&& self.sprite.size.height <= TFT_DISPLAY_HEIGHT
    }

    /// Sets up the screen with the picture in the middle of the display.
    /// Returns `None` if the bitmap is not well formed or larger than the
    /// display.
    pub fn new(bmp: Bitmap) -> (screen: Option<Accel>)
        ensures
            screen is Some <==> bmp.wf() && bmp.width <= TFT_DISPLAY_WIDTH && bmp.height
                <= TFT_DISPLAY_HEIGHT,
            screen matches Some(s) ==> {
                &&& s.wf()
                &&& s.sprite.bmp == bmp
                &&& s.sprite.pos == crate::bitmap::centered_on_screen(bmp.extent_of())
                &&& s.sprite.transparent_color is None
                &&& s.position == s.sprite.pos
            },
    {
        if !bitmap_fits_display(&bmp) {
            return None;
        }
        let position: Point = bmp.screen_center();
        let sprite: MovableSprite = MovableSpriteBuilder::builder(bmp).with_position(
            position,
        ).with_screen_boundaries().build();
        Some(Accel { sprite, position })
    }

    /// One round: the shift is taken off the position, the sprite moves
    /// there and is painted, and the position becomes where the sprite
    /// came to rest.
    pub fn tick(&mut self, shift: Point) -> (step: ScreenStep)
        requires
            old(self).wf(),
        ensures
            final(self).wf(),
            final(self).sprite.bmp == old(self).sprite.bmp,
            final(self).sprite.size == old(self).sprite.size,
            final(self).sprite.transparent_color == old(self).sprite.transparent_color,
            step.wait_ms == 0,
            final(self).sprite.pos == settled_movable(
                tilted(old(self).position, shift),
                old(self).sprite.size,
                true,
            ),
            final(self).position == final(self).sprite.pos,
            step.repaint matches Some(repaint) && repaint.erase == erasure_plan(
                old(self).sprite.pos,
                final(self).sprite.pos,
                old(self).sprite.size,
                BLACK,
            ) && paints(
                repaint.redraw,
                old(self).sprite.bmp,
                final(self).sprite.pos,
                old(self).sprite.transparent_color,
                None,
            ),
    {
        let mut target: Point = tilt(self.position, shift);
        let repaint: Repaint = self.sprite.move_to(&mut target, BLACK);
        self.position = target;
        ScreenStep { repaint: Some(repaint), wait_ms: 0 }
    }
}

/// How long to wait after the picture has been painted on the screen for
/// both ways of steering, in milliseconds.
pub const STEERED_WAIT_MS: u32 = 1;

/// How long to wait after the way of steering has changed.
pub const TOGGLE_WAIT_MS: u32 = 200;

/// What was read in a round of the screen for both ways of steering:
/// the direction buttons while they steer, else the tilt.
#[derive(Clone, Copy, Debug, PartialEq, Eq, Structural)]
pub enum Steering {
    Buttons { buttons: Buttons },
    Tilt { shift: Point },
}

/// The screen on which the direction buttons or the tilt move a picture,
/// as chosen with a button.
pub struct AccelDpad<'a> {
    pub sprite: Sprite<'a>,
    /// Where the picture is asked to be.
    pub position: Point,
    /// Whether the picture is to be painted in the next round.
    pub draw: bool,
    /// Whether the direction buttons steer, rather than the tilt.
    pub dpad: bool,
}

/// What to do once the button that changes the way of steering has been
/// read, in this order.
#[derive(Clone, Copy, Debug, PartialEq, Eq, Structural)]
pub struct ToggleStep {
    /// Whether to clear the display to `BLACK`.
    pub clear: bool,
    /// How long to wait afterwards, in milliseconds.
    pub wait_ms: u32,
}

impl<'a> AccelDpad<'a> {
    /// The sprite is well formed, keeps to the display and fits on it.
    pub open spec fn wf(&self) -> bool {
        &&& self.sprite.wf()
        &&& self.sprite.screen_boundaries
        &&& self.sprite.size.width <= TFT_DISPLAY_WIDTH
        &&& self.sprite.size.height <= TFT_DISPLAY_HEIGHT
    }

    /// What the reading has to be: the buttons while they steer, else the
    /// tilt.
    pub open spec fn expects(&self, steering: Steering) -> bool {
        self.dpad <==> steering is Buttons
    }

    /// Where the reading pushes the position.
    pub open spec fn pushed(position: Point, steering: Steering) -> Point {
        match steering {
            Steering::Buttons { buttons } => nudged(position, buttons),
            Steering::Tilt { shift } => tilted(position, shift),
        }
    }

    /// Whether the reading asks for the picture to be painted: a tilt
    /// always does, the buttons do if one is pressed.
    pub open spec fn moves(steering: Steering) -> bool {
        match steering {
            Steering::Buttons { buttons } => buttons.any_pressed(),
            Steering::Tilt { shift } => true,
        }
    }

    /// Sets up the screen with the picture in the middle of the display,
    /// to be painted in the first round, the buttons steering. Returns
    /// `None` if the bitmap is not well formed or larger than the display.
    pub fn new(bmp: &'a Bitmap) -> (screen: Option<AccelDpad<'a>>)
        ensures
            screen is Some <==> bmp.wf() && bmp.width <= TFT_DISPLAY_WIDTH && bmp.height
                <= TFT_DISPLAY_HEIGHT,
            screen matches Some(s) ==> {
                &&& s.wf()
                &&& s.sprite.bmp == bmp
                &&& s.sprite.pos == crate::bitmap::centered_on_screen(bmp.extent_of())
                &&& s.sprite.transparent_color is None
                &&& s.position == s.sprite.pos
                &&& s.draw
                &&& s.dpad
            },
    {
        if !bitmap_fits_display(bmp) {
            return None;
        }
        let position: Point = bmp.screen_center();
        let sprite: Sprite<'a> = SpriteBuilder::builder(bmp).with_position(
            position,
        ).with_screen_boundaries().build();
        Some(AccelDpad { sprite, position, draw: true, dpad: true })
    }

    /// The start of a round: the reading pushes the position; if it asks
    /// for it, or the picture is still to be painted, the sprite moves
    /// there and is painted upright. Once this is done the loop reads the
    /// button that changes the way of steering.
    pub fn tick(&mut self, steering: Steering) -> (step: ScreenStep)
        requires
            old(self).wf(),
            old(self).expects(steering),
        ensures
            final(self).wf(),
            final(self).sprite.bmp == old(self).sprite.bmp,
            final(self).sprite.size == old(self).sprite.size,
            final(self).sprite.transparent_color == old(self).sprite.transparent_color,
            final(self).dpad == old(self).dpad,
            !final(self).draw,
            step.repaint is Some <==> old(self).draw || Self::moves(steering),
            step.wait_ms == (if step.repaint is Some {
                STEERED_WAIT_MS
            } else {
                0u32
            }),
            step.repaint is None ==> final(self).sprite.pos == old(self).sprite.pos
                && final(self).position == old(self).position,
            step.repaint matches Some(repaint) ==> {
                &&& final(self).sprite.pos == settled(
                    Self::pushed(old(self).position, steering),
                    old(self).sprite.size,
                    true,
                )
                &&& final(self).position == final(self).sprite.pos
                &&& repaint.erase == erasure_plan(
                    old(self).sprite.pos,
                    final(self).sprite.pos,
                    old(self).sprite.size,
                    BLACK,
                )
                &&& paints(
                    repaint.redraw,
                    *old(self).sprite.bmp,
                    final(self).sprite.pos,
                    old(self).sprite.transparent_color,
                    None,
                )
            },
    {
        match steering {
            Steering::Tilt { shift } => {
                self.position = tilt(self.position, shift);
                self.draw = true;
            },
            Steering::Buttons { buttons } => {
                if buttons.any() {
                    self.position = buttons.nudge(self.position);
                    self.draw = true;
                }
            },
        }
        if self.draw {
            let mut target: Point = self.position;
            let repaint: Repaint = self.sprite.move_to(&mut target, BLACK, None);
            self.position = target;
            self.draw = false;
            ScreenStep { repaint: Some(repaint), wait_ms: STEERED_WAIT_MS }
        } else {
            ScreenStep { repaint: None, wait_ms: 0 }
        }
    }

    /// The middle of a round: the button that changes the way of steering
    /// has been read. Pressed, it hands the steering over to the other
    /// way, asks for the display to be cleared and has the picture
    /// painted in the next round. Once this is done the loop reads the
    /// button that leaves the screen.
    pub fn toggle(&mut self, pressed: bool) -> (step: ToggleStep)
        ensures
            final(self).sprite == old(self).sprite,
            final(self).position == old(self).position,
            final(self).dpad == (old(self).dpad != pressed),
            final(self).draw == (old(self).draw || pressed),
            step == (ToggleStep {
                clear: pressed,
                wait_ms: if pressed {
                    TOGGLE_WAIT_MS
                } else {
                    0u32
                },
            }),
    {
        if pressed {
            self.dpad = !self.dpad;
            self.draw = true;
            ToggleStep { clear: true, wait_ms: TOGGLE_WAIT_MS }
        } else {
            ToggleStep { clear: false, wait_ms: 0 }
        }
    }
}

/// A colour for a light: red, green and blue.
#[derive(Clone, Copy, Debug, PartialEq, Eq, Structural)]
pub struct Rgb {
    pub r: u8,
    pub g: u8,
    pub b: u8,
}

/// The red, green and blue that `smart_leds::hsv::hsv2rgb` gives for a
/// hue, a saturation and a value.
pub uninterp spec fn hsv2rgb_value(hue: u8, sat: u8, val: u8) -> (u8, u8, u8);

/// Calls `smart_leds::hsv::hsv2rgb`. Trusted: the colour returned depends
/// on the hue, the saturation and the value alone. Nothing is claimed of
/// which colour it is.
#[verifier::external_body]
fn hsv_to_rgb(hue: u8, sat: u8, val: u8) -> (rgb: Rgb)
    ensures
        (rgb.r, rgb.g, rgb.b) == hsv2rgb_value(hue, sat, val),
{
    let color = hsv2rgb(Hsv { hue, sat, val });
    Rgb { r: color.r, g: color.g, b: color.b }
}

/// The saturation of the two lights.
pub const LED_SATURATION: u8 = 255;

/// The brightness of the two lights.
pub const LED_VALUE: u8 = 32;

/// How long to wait in a round in which nothing is painted, in
/// milliseconds.
pub const NEOPIXEL_IDLE_WAIT_MS: u32 = 20;

/// The light of the given hue, as red, green and blue.
pub open spec fn led_of(hue: u8) -> Rgb {
    let rgb = hsv2rgb_value(hue, LED_SATURATION, LED_VALUE);
    Rgb { r: rgb.0, g: rgb.1, b: rgb.2 }
}

/// The screen on which the direction buttons move a picture while two
/// lights run through the colours in opposite directions.
pub struct Neopixel {
    pub pad: Dpad,
    /// The hue of the first light; the second has the opposite one.
    pub hue: u8,
}

/// What a round of that screen asks for, in this order.
pub struct NeopixelStep {
    /// The colours to send to the two lights.
    pub leds: [Rgb; 2],
    /// Then what the picture needs; where it is not painted, the wait is
    /// `NEOPIXEL_IDLE_WAIT_MS`.
    pub screen: ScreenStep,
}

impl Neopixel {
    /// Sets up the screen with the picture in the middle of the display
    /// and the first light at hue zero. Returns `None` if the bitmap is
    /// not well formed or larger than the display.
    pub fn new(bmp: Bitmap) -> (screen: Option<Neopixel>)
        ensures
            screen is Some <==> bmp.wf() && bmp.width <= TFT_DISPLAY_WIDTH && bmp.height
                <= TFT_DISPLAY_HEIGHT,
            screen matches Some(s) ==> {
                &&& s.pad.wf()
                &&& s.pad.sprite.bmp == bmp
                &&& s.pad.sprite.pos == crate::bitmap::centered_on_screen(bmp.extent_of())
                &&& s.pad.position == s.pad.sprite.pos
                &&& s.pad.draw
                &&& s.hue == 0
            },
    {
        match Dpad::new(bmp) {
            Some(pad) => Some(Neopixel { pad, hue: 0 }),
            None => None,
        }
    }

    /// The colours to send to the lights when the screen is left: both
    /// dark.
    pub fn lights_out() -> (leds: [Rgb; 2])
        ensures
            leds[0] == (Rgb { r: 0, g: 0, b: 0 }),
            leds[1] == (Rgb { r: 0, g: 0, b: 0 }),
    {
        [Rgb { r: 0, g: 0, b: 0 }, Rgb { r: 0, g: 0, b: 0 }]
    }

    /// One round: the lights get the colours of the hue and of its
    /// opposite, the hue moves on by one, going round after 255, and the
    /// picture follows the buttons as on the screen for the buttons alone.
    pub fn tick(&mut self, buttons: Buttons) -> (step: NeopixelStep)
        requires
            old(self).pad.wf(),
        ensures
            final(self).pad.wf(),
            step.leds[0] == led_of(old(self).hue),
            step.leds[1] == led_of((255 - old(self).hue) as u8),
            final(self).hue == (old(self).hue + 1) % 256,
            final(self).pad.sprite.bmp == old(self).pad.sprite.bmp,
            final(self).pad.sprite.size == old(self).pad.sprite.size,
            !final(self).pad.draw,
            step.screen.repaint is Some <==> old(self).pad.draw || buttons.any_pressed(),
            step.screen.wait_ms == (if step.screen.repaint is Some {
                0u32
            } else {
                NEOPIXEL_IDLE_WAIT_MS
            }),
            step.screen.repaint is None ==> final(self).pad.sprite.pos == old(self).pad.sprite.pos
                && final(self).pad.position == old(self).pad.position,
            step.screen.repaint matches Some(repaint) ==> {
                &&& final(self).pad.sprite.pos == settled_movable(
                    nudged(old(self).pad.position, buttons),
                    old(self).pad.sprite.size,
                    true,
                )
                &&& final(self).pad.position == final(self).pad.sprite.pos
                &&& repaint.erase == erasure_plan(
                    old(self).pad.sprite.pos,
                    final(self).pad.sprite.pos,
                    old(self).pad.sprite.size,
                    BLACK,
                )
                &&& paints(
                    repaint.redraw,
                    old(self).pad.sprite.bmp,
                    final(self).pad.sprite.pos,
                    old(self).pad.sprite.transparent_color,
                    None,
                )
            },
    {
        let first: Rgb = hsv_to_rgb(self.hue, LED_SATURATION, LED_VALUE);
        let second: Rgb = hsv_to_rgb(255 - self.hue, LED_SATURATION, LED_VALUE);
        self.hue = if self.hue == 255 {
            0
        } else {
            self.hue + 1
        };
        let inner: ScreenStep = self.pad.tick(buttons);
        let wait_ms: u32 = if inner.repaint.is_some() {
            0
        } else {
            NEOPIXEL_IDLE_WAIT_MS
        };
        NeopixelStep {
            leds: [first, second],
            screen: ScreenStep { repaint: inner.repaint, wait_ms },
        }
    }
}

} // verus!
