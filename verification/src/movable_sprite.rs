//! A sprite that owns its bitmap and is always drawn upright.

use crate::bitmap::{Bitmap, Color};
use crate::dirty::{erased, erasure_for, erasure_plan, strips_addressable, Erasure};
use crate::geometry::{Point, Size, TFT_DISPLAY_HEIGHT, TFT_DISPLAY_WIDTH};
use crate::paint::{addressable, keyed_dots, keyed_image, paints, Redraw, Repaint};
use crate::sprite::on_screen;
use vstd::prelude::*;

verus! {

/// Collects the settings of a sprite before it is built.
pub struct MovableSpriteBuilder {
    pub bmp: Bitmap,
    pub pos: Option<Point>,
    pub transparent_color: Option<Color>,
    pub screen_boundaries: bool,
}

/// A bitmap with a position on the display.
pub struct MovableSprite {
    pub bmp: Bitmap,
    /// The top-left corner of the footprint.
    pub pos: Point,
    /// The extent of the bitmap, kept at hand.
    pub size: Size,
    /// Whether a move holds the footprint back at the display's edges.
    pub screen_boundaries: bool,
    /// The colour that is not painted, if any.
    pub transparent_color: Option<Color>,
}

/// A coordinate held back at the edges of a display `screen` pixels across,
/// for a footprint `extent` pixels across: where the footprint would reach
/// the far edge or beyond, it is set against that edge; else, where the
/// coordinate is negative, it becomes zero.
pub open spec fn held_back(v: int, extent: int, screen: int) -> int {
    if v + extent >= screen {
        screen - extent
    } else if v < 0 {
        0
    } else {
        v
    }
}

/// The position that a sprite of the given size takes when asked to move
/// to `target`.
pub open spec fn settled_movable(target: Point, size: Size, screen_boundaries: bool) -> Point {
    if screen_boundaries {
        Point {
            x: held_back(target.x as int, size.width as int, TFT_DISPLAY_WIDTH as int) as i32,
            y: held_back(target.y as int, size.height as int, TFT_DISPLAY_HEIGHT as int) as i32,
        }
    } else {
        target
    }
}

impl MovableSpriteBuilder {
    /// Starts from a sprite at the origin that paints every colour and may
    /// leave the display.
    pub fn builder(bmp: Bitmap) -> (b: MovableSpriteBuilder)
        ensures
            b.bmp == bmp,
            b.pos is None,
            b.transparent_color is None,
            !b.screen_boundaries,
    {
        MovableSpriteBuilder { bmp, pos: None, transparent_color: None, screen_boundaries: false }
    }

    /// The sprite with the settings collected; it stands at the origin
    /// where no position was given.
    pub fn build(self) -> (sprite: MovableSprite)
        ensures
            sprite.bmp == self.bmp,
            sprite.pos == (match self.pos {
                Some(p) => p,
                None => Point { x: 0, y: 0 },
            }),
            sprite.size == self.bmp.extent_of(),
            sprite.screen_boundaries == self.screen_boundaries,
            sprite.transparent_color == self.transparent_color,
    {
        let pos: Point = match self.pos {
            Some(p) => p,
            None => Point { x: 0, y: 0 },
        };
        MovableSprite::new(self.bmp, pos, self.screen_boundaries, self.transparent_color)
    }

    /// Puts the sprite at `pos`.
    pub fn with_position(self, pos: Point) -> (b: MovableSpriteBuilder)
        ensures
            b.bmp == self.bmp,
            b.pos == Some(pos),
            b.transparent_color == self.transparent_color,
            b.screen_boundaries == self.screen_boundaries,
    {
        MovableSpriteBuilder {
            bmp: self.bmp,
            pos: Some(pos),
            transparent_color: self.transparent_color,
            screen_boundaries: self.screen_boundaries,
        }
    }

    /// Leaves the pixels of `transparent_color` unpainted.
    pub fn with_transparency(self, transparent_color: Color) -> (b: MovableSpriteBuilder)
        ensures
            b.bmp == self.bmp,
            b.pos == self.pos,
            b.transparent_color == Some(transparent_color),
            b.screen_boundaries == self.screen_boundaries,
    {
        MovableSpriteBuilder {
            bmp: self.bmp,
            pos: self.pos,
            transparent_color: Some(transparent_color),
            screen_boundaries: self.screen_boundaries,
        }
    }

    /// Keeps the sprite on the display when it moves.
    pub fn with_screen_boundaries(self) -> (b: MovableSpriteBuilder)
        ensures
            b.bmp == self.bmp,
            b.pos == self.pos,
            b.transparent_color == self.transparent_color,
            b.screen_boundaries,
    {
        MovableSpriteBuilder {
            bmp: self.bmp,
            pos: self.pos,
            transparent_color: self.transparent_color,
            screen_boundaries: true,
        }
    }
}

impl MovableSprite {
    /// A sprite is well formed when its bitmap is, its size is the
    /// bitmap's and fits a signed coordinate, and every pixel of its
    /// footprint has coordinates.
    pub open spec fn wf(&self) -> bool {
        &&& self.bmp.wf()
        &&& self.size == self.bmp.extent_of()
        &&& self.size.width <= i32::MAX
        &&& self.size.height <= i32::MAX
        &&& addressable(self.pos, self.size.width as int, self.size.height as int)
    }

    /// What a move to `target` needs: a well-formed sprite and, where it
    /// is not held back at the display's edges, a target from which the
    /// footprint has coordinates.
    pub open spec fn can_move_to(&self, target: Point) -> bool {
        &&& self.wf()
        &&& !self.screen_boundaries ==> addressable(
            target,
            self.size.width as int,
            self.size.height as int,
        )
    }

    /// A sprite for `bmp` with its top-left corner at `pos`.
    pub fn new(
        bmp: Bitmap,
        pos: Point,
        screen_boundaries: bool,
        transparent_color: Option<Color>,
    ) -> (sprite: MovableSprite)
        ensures
            sprite.bmp == bmp,
            sprite.pos == pos,
            sprite.size == bmp.extent_of(),
            sprite.screen_boundaries == screen_boundaries,
            sprite.transparent_color == transparent_color,
    {
        let size: Size = bmp.size();
        MovableSprite { bmp, pos, size, screen_boundaries, transparent_color }
    }

    /// How to paint the sprite where it stands: copy the bitmap as it is.
    /// The see-through colour is not looked at.
    pub fn draw(&self) -> (redraw: Redraw)
        ensures
            paints(redraw, self.bmp, self.pos, None, None),
    {
        Redraw::Blit { at: self.pos }
    }

    /// How to paint the sprite where it stands, leaving out every pixel of
    /// the see-through colour.
    pub fn draw_with_transparency(&self) -> (redraw: Redraw)
        requires
            self.wf(),
            self.transparent_color is Some,
        ensures
            paints(redraw, self.bmp, self.pos, self.transparent_color, None),
            redraw.dots_of(self.bmp) == keyed_image(self.bmp, self.pos, self.transparent_color->0),
    {
        match self.transparent_color {
            Some(key) => Redraw::Dots { dots: keyed_dots(&self.bmp, self.pos, key) },
            None => Redraw::Blit { at: self.pos },
        }
    }

    /// The strips to fill with `bg` after the sprite has gone from
    /// `old_pos` to `new_pos`. The strips are always filled whole: the
    /// see-through colour plays no part.
    pub fn clear_diff(&self, old_pos: Point, new_pos: &mut Point, bg: Color) -> (erasure: Erasure)
        requires
            strips_addressable(old_pos, *old(new_pos), self.size),
        ensures
            *final(new_pos) == *old(new_pos),
            erasure == erasure_plan(old_pos, *old(new_pos), self.size, bg),
            erasure.region() == erased(
                old_pos.x as int,
                old_pos.y as int,
                old(new_pos).x as int,
                old(new_pos).y as int,
                self.size.width as int,
                self.size.height as int,
            ),
    {
        erasure_for(old_pos, *new_pos, self.size, bg)
    }

    /// Moves the sprite to `new_pos`, which is first held back at the
    /// display's edges where the sprite is set to, and says what to
    /// repaint: the strips that the move leaves behind, in the colour
    /// `bg`, and then the sprite at its new position.
    pub fn move_to(&mut self, new_pos: &mut Point, bg: Color) -> (repaint: Repaint)
        requires
            old(self).can_move_to(*old(new_pos)),
        ensures
            *final(new_pos) == settled_movable(
                *old(new_pos),
                old(self).size,
                old(self).screen_boundaries,
            ),
            final(self).pos == *final(new_pos),
            final(self).bmp == old(self).bmp,
            final(self).size == old(self).size,
            final(self).screen_boundaries == old(self).screen_boundaries,
            final(self).transparent_color == old(self).transparent_color,
            final(self).wf(),
            final(self).screen_boundaries && final(self).size.width <= TFT_DISPLAY_WIDTH
                && final(self).size.height <= TFT_DISPLAY_HEIGHT ==> on_screen(
                final(self).pos,
                final(self).size,
            ),
            repaint.erase == erasure_plan(old(self).pos, *final(new_pos), old(self).size, bg),
            repaint.erase.region() == erased(
                old(self).pos.x as int,
                old(self).pos.y as int,
                final(new_pos).x as int,
                final(new_pos).y as int,
                old(self).size.width as int,
                old(self).size.height as int,
            ),
            paints(
                repaint.redraw,
                old(self).bmp,
                *final(new_pos),
                old(self).transparent_color,
                None,
            ),
    {
        if self.screen_boundaries {
            new_pos.x = hold_back(new_pos.x, self.size.width, TFT_DISPLAY_WIDTH);
            new_pos.y = hold_back(new_pos.y, self.size.height, TFT_DISPLAY_HEIGHT);
        }
        let old_pos: Point = self.pos;
        let erase: Erasure = self.clear_diff(old_pos, new_pos, bg);
        self.pos = *new_pos;
        let redraw: Redraw = if self.transparent_color.is_none() {
            self.draw()
        } else {
            self.draw_with_transparency()
        };
        Repaint { erase, redraw }
    }
}

/// `v` held back at the edges of a display `screen` pixels across, for a
/// footprint `extent` pixels across.
pub fn hold_back(v: i32, extent: u32, screen: u16) -> (r: i32)
    requires
        extent <= i32::MAX,
    ensures
        r == held_back(v as int, extent as int, screen as int),
{
    if v as i64 + extent as i64 >= screen as i64 {
        (screen as i64 - extent as i64) as i32
    } else if v < 0 {
        0
    } else {
        v
    }
}

} // verus!
