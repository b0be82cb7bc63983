//! A sprite that borrows its bitmap and may be drawn rotated.

use crate::bitmap::{Bitmap, Color};
use crate::dirty::{erased, erasure_for, erasure_plan, strips_addressable, Erasure};
use crate::geometry::{Point, Size, TFT_DISPLAY_HEIGHT, TFT_DISPLAY_WIDTH};
use crate::paint::{addressable, keyed_dots, keyed_image, paints, Redraw, Repaint};
use crate::rotate::{ImageRotate, Rotation, MAX_ROTATED_EXTENT};
use vstd::prelude::*;

verus! {

/// Collects the settings of a sprite before it is built.
pub struct SpriteBuilder<'a> {
    pub bmp: &'a Bitmap,
    pub pos: Option<Point>,
    pub transparent_color: Option<Color>,
    pub screen_boundaries: bool,
}

/// A bitmap with a position on the display.
pub struct Sprite<'a> {
    pub bmp: &'a Bitmap,
    /// The top-left corner of the footprint.
    pub pos: Point,
    /// The extent of the bitmap, kept at hand.
    pub size: Size,
    /// Whether a move keeps the whole footprint on the display.
    pub screen_boundaries: bool,
    /// The colour that is not painted, if any.
    pub transparent_color: Option<Color>,
}

/// A coordinate held to the range from zero to `limit`.
pub open spec fn clamped(v: int, limit: int) -> int {
    if v < 0 {
        0
    } else if v > limit {
        limit
    } else {
        v
    }
}

/// The position that a sprite of the given size takes when asked to move
/// to `target`: `target` itself, or, where the sprite keeps to the display,
/// the nearest position at which its whole footprint is on the display.
pub open spec fn settled(target: Point, size: Size, screen_boundaries: bool) -> Point {
    if screen_boundaries {
        Point {
            x: clamped(target.x as int, TFT_DISPLAY_WIDTH as int - size.width as int) as i32,
            y: clamped(target.y as int, TFT_DISPLAY_HEIGHT as int - size.height as int) as i32,
        }
    } else {
        target
    }
}

/// Whether a footprint of the given size at `pos` lies on the display.
pub open spec fn on_screen(pos: Point, size: Size) -> bool {
    &&& 0 <= pos.x <= TFT_DISPLAY_WIDTH as int - size.width as int
    &&& 0 <= pos.y <= TFT_DISPLAY_HEIGHT as int - size.height as int
}

impl<'a> SpriteBuilder<'a> {
    /// Starts from a sprite at the origin that paints every colour and may
    /// leave the display.
    pub fn builder(bmp: &'a Bitmap) -> (b: SpriteBuilder<'a>)
        ensures
            b.bmp == bmp,
            b.pos is None,
            b.transparent_color is None,
            !b.screen_boundaries,
    {
        SpriteBuilder { bmp, pos: None, transparent_color: None, screen_boundaries: false }
    }

    /// The sprite with the settings collected; it stands at the origin
    /// where no position was given.
    pub fn build(self) -> (sprite: Sprite<'a>)
        ensures
            sprite.bmp == self.bmp,
            sprite.pos == (match self.pos {
                Some(p) => p,
                None => Point { x: 0, y: 0 },
            }),
            sprite.size == self.bmp.extent_of(),
            sprite.screen_boundaries == self.screen_boundaries,
            sprite.transparent_color == self.transparent_color,
    {
        let pos: Point = match self.pos {
            Some(p) => p,
            None => Point { x: 0, y: 0 },
        };
        Sprite::new(self.bmp, pos, self.screen_boundaries, self.transparent_color)
    }

    /// Puts the sprite at `pos`.
    pub fn with_position(self, pos: Point) -> (b: SpriteBuilder<'a>)
        ensures
            b.bmp == self.bmp,
            b.pos == Some(pos),
            b.transparent_color == self.transparent_color,
            b.screen_boundaries == self.screen_boundaries,
    {
        SpriteBuilder {
            bmp: self.bmp,
            pos: Some(pos),
            transparent_color: self.transparent_color,
            screen_boundaries: self.screen_boundaries,
        }
    }

    /// Leaves the pixels of `transparent_color` unpainted.
    pub fn with_transparency(self, transparent_color: Color) -> (b: SpriteBuilder<'a>)
        ensures
            b.bmp == self.bmp,
            b.pos == self.pos,
            b.transparent_color == Some(transparent_color),
            b.screen_boundaries == self.screen_boundaries,
    {
        SpriteBuilder {
            bmp: self.bmp,
            pos: self.pos,
            transparent_color: Some(transparent_color),
            screen_boundaries: self.screen_boundaries,
        }
    }

    /// Keeps the sprite on the display when it moves.
    pub fn with_screen_boundaries(self) -> (b: SpriteBuilder<'a>)
        ensures
            b.bmp == self.bmp,
            b.pos == self.pos,
            b.transparent_color == self.transparent_color,
            b.screen_boundaries,
    {
        SpriteBuilder {
            bmp: self.bmp,
            pos: self.pos,
            transparent_color: self.transparent_color,
            screen_boundaries: true,
        }
    }
}

impl<'a> Sprite<'a> {
    /// A sprite is well formed when its bitmap is, its size is the
    /// bitmap's and fits a signed coordinate, and every pixel of its
    /// footprint has coordinates.
    pub open spec fn wf(&self) -> bool {
        &&& self.bmp.wf()
        &&& self.size == self.bmp.extent_of()
        &&& self.size.width <= i32::MAX
        &&& self.size.height <= i32::MAX
        &&& addressable(self.pos, self.size.width as int, self.size.height as int)
    }

    /// The middle of the footprint: the position plus half the size, each
    /// half rounded down.
    pub open spec fn center_of(&self) -> Point {
        Point {
            x: (self.pos.x + self.size.width / 2) as i32,
            y: (self.pos.y + self.size.height / 2) as i32,
        }
    }

    /// What a move to `target` needs: a well-formed sprite; where it keeps
    /// to the display, a bitmap no larger than the display; where it does
    /// not, a target from which the footprint has coordinates; and, where
    /// it is to be drawn rotated, what drawing at that angle needs.
    pub open spec fn can_move_to(&self, target: Point, rotation: Option<Rotation>) -> bool {
        &&& self.wf()
        &&& self.screen_boundaries ==> self.size.width <= TFT_DISPLAY_WIDTH && self.size.height
            <= TFT_DISPLAY_HEIGHT
        &&& !self.screen_boundaries ==> addressable(
            target,
            self.size.width as int,
            self.size.height as int,
        )
        &&& self.transparent_color is None ==> self.can_draw(rotation)
    }

    /// What drawing at the angle `rotation` needs beyond a well-formed
    /// sprite.
    pub open spec fn can_draw(&self, rotation: Option<Rotation>) -> bool {
        rotation matches Some(r) ==> r.wf() && self.size.width as int + self.size.height as int
            <= MAX_ROTATED_EXTENT
    }

    /// A sprite for `bmp` with its top-left corner at `pos`.
    pub fn new(
        bmp: &'a Bitmap,
        pos: Point,
        screen_boundaries: bool,
        transparent_color: Option<Color>,
    ) -> (sprite: Sprite<'a>)
        ensures
            sprite.bmp == bmp,
            sprite.pos == pos,
            sprite.size == bmp.extent_of(),
            sprite.screen_boundaries == screen_boundaries,
            sprite.transparent_color == transparent_color,
    {
        let size: Size = bmp.size();
        Sprite { bmp, pos, size, screen_boundaries, transparent_color }
    }

    /// The top-left corner of the footprint.
    pub fn _pos(&self) -> (pos: &Point)
        ensures
            *pos == self.pos,
    {
        &self.pos
    }

    /// The extent of the footprint.
    pub fn size(&self) -> (size: &Size)
        ensures
            *size == self.size,
    {
        &self.size
    }

    /// The middle of the footprint.
    pub fn center(&self) -> (c: Point)
        requires
            self.wf(),
        ensures
            c == self.center_of(),
    {
        Point {
            x: self.pos.x + (self.size.width / 2) as i32,
            y: self.pos.y + (self.size.height / 2) as i32,
        }
    }

    /// How to paint the sprite where it stands, turned by `rotation`, or
    /// copied as it is where no angle is given. The see-through colour is
    /// not looked at.
    pub fn draw(&self, rotation: Option<Rotation>) -> (redraw: Redraw)
        requires
            self.wf(),
            self.can_draw(rotation),
        ensures
            paints(redraw, *self.bmp, self.pos, None, rotation),
    {
        match rotation {
            None => Redraw::Blit { at: self.pos },
            Some(r) => {
                let image: ImageRotate<'a> = ImageRotate::new(self.bmp, self.pos, r);
                Redraw::Dots { dots: image.draw() }
            },
        }
    }

    /// How to paint the sprite where it stands, leaving out every pixel of
    /// the see-through colour.
    pub fn draw_with_transparency(&self) -> (redraw: Redraw)
        requires
            self.wf(),
            self.transparent_color is Some,
        ensures
            paints(redraw, *self.bmp, self.pos, self.transparent_color, None),
            redraw.dots_of(*self.bmp) == keyed_image(
                *self.bmp,
                self.pos,
                self.transparent_color->0,
            ),
    {
        match self.transparent_color {
            Some(key) => Redraw::Dots { dots: keyed_dots(self.bmp, self.pos, key) },
            None => Redraw::Blit { at: self.pos },
        }
    }

    /// The strips to fill with `bg` after the sprite has gone from
    /// `old_pos` to `new_pos`. The strips are always filled whole: the
    /// see-through colour plays no part.
    pub fn clear_diff(&self, old_pos: Point, new_pos: &mut Point, bg: Color) -> (erasure: Erasure)
        requires
            strips_addressable(old_pos, *old(new_pos), self.size),
        ensures
            *final(new_pos) == *old(new_pos),
            erasure == erasure_plan(old_pos, *old(new_pos), self.size, bg),
            erasure.region() == erased(
                old_pos.x as int,
                old_pos.y as int,
                old(new_pos).x as int,
                old(new_pos).y as int,
                self.size.width as int,
                self.size.height as int,
            ),
    {
        erasure_for(old_pos, *new_pos, self.size, bg)
    }

    /// Moves the sprite to `new_pos`, which is first brought onto the
    /// display where the sprite keeps to it, and says what to repaint: the
    /// strips that the move leaves behind, in the colour `bg`, and then
    /// the sprite at its new position.
    pub fn move_to(
        &mut self,
        new_pos: &mut Point,
        bg: Color,
        rotation: Option<Rotation>,
    ) -> (repaint: Repaint)
        requires
            old(self).can_move_to(*old(new_pos), rotation),
        ensures
            *final(new_pos) == settled(*old(new_pos), old(self).size, old(self).screen_boundaries),
            final(self).pos == *final(new_pos),
            final(self).bmp == old(self).bmp,
            final(self).size == old(self).size,
            final(self).screen_boundaries == old(self).screen_boundaries,
            final(self).transparent_color == old(self).transparent_color,
            final(self).wf(),
            final(self).screen_boundaries ==> on_screen(final(self).pos, final(self).size),
            repaint.erase == erasure_plan(old(self).pos, *final(new_pos), old(self).size, bg),
            repaint.erase.region() == erased(
                old(self).pos.x as int,
                old(self).pos.y as int,
                final(new_pos).x as int,
                final(new_pos).y as int,
                old(self).size.width as int,
                old(self).size.height as int,
            ),
            paints(
                repaint.redraw,
                *old(self).bmp,
                *final(new_pos),
                old(self).transparent_color,
                rotation,
            ),
    {
        if self.screen_boundaries {
            new_pos.x = clamp_to(new_pos.x, TFT_DISPLAY_WIDTH as i32 - self.size.width as i32);
            new_pos.y = clamp_to(new_pos.y, TFT_DISPLAY_HEIGHT as i32 - self.size.height as i32);
        }
        let old_pos: Point = self.pos;
        let erase: Erasure = self.clear_diff(old_pos, new_pos, bg);
        self.pos = *new_pos;
        let redraw: Redraw = if self.transparent_color.is_none() {
            self.draw(rotation)
        } else {
            self.draw_with_transparency()
        };
        Repaint { erase, redraw }
    }
}

/// `v` held to the range from zero to `limit`.
pub fn clamp_to(v: i32, limit: i32) -> (r: i32)
    requires
        0 <= limit,
    ensures
        r == clamped(v as int, limit as int),
{
    if v < 0 {
        0
    } else if v > limit {
        limit
    } else {
        v
    }
}

} // verus!
