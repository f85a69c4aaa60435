//! An entity of the game: what it looks like, where it is, how it moves.

use vstd::prelude::*;
use crate::field::{EDGE_MARGIN, FIELD_HEIGHT, PADDLE_SPEED, UNITS_PER_PIXEL};
use crate::geometry::{Rect, Vec2};

verus! {

/// A handle to an image that the host has loaded, with the image's size in
/// pixels. The library never looks at the image itself.
#[derive(Clone, Copy, Debug, PartialEq, Eq, Structural)]
pub struct Texture {
    pub id: u32,
    pub width: i32,
    pub height: i32,
}

impl Texture {
    /// The handle `id` for an image of `width` by `height` pixels.
    pub fn new(id: u32, width: i32, height: i32) -> (t: Texture)
        ensures
            t == (Texture { id, width, height }),
    {
        Texture { id, width, height }
    }

    /// Width of the image in pixels.
    pub fn width(&self) -> (w: i32)
        ensures
            w == self.width,
    {
        self.width
    }

    /// Height of the image in pixels.
    pub fn height(&self) -> (h: i32)
        ensures
            h == self.height,
    {
        self.height
    }
}

/// Something on the play-field: a paddle or the ball.
///
/// `position` is the top-left corner of the entity's image; `velocity` is
/// what a frame adds to it. Both are in half pixels.
#[derive(Clone, Copy, Debug, PartialEq, Eq, Structural)]
pub struct Entity {
    pub texture: Texture,
    pub position: Vec2,
    pub velocity: Vec2,
}

impl Entity {
    /// Width of the entity in half pixels.
    pub open spec fn extent_x(self) -> int {
        UNITS_PER_PIXEL * self.texture.width
    }

    /// Height of the entity in half pixels.
    pub open spec fn extent_y(self) -> int {
        UNITS_PER_PIXEL * self.texture.height
    }

    /// The entity touches the top edge: its top is within the margin.
    pub open spec fn at_top(self) -> bool {
        self.position.y <= EDGE_MARGIN
    }

    /// The entity touches the bottom edge: its bottom is within the margin.
    pub open spec fn at_bottom(self) -> bool {
        self.position.y + self.extent_y() >= FIELD_HEIGHT - EDGE_MARGIN
    }

    /// The rectangle that the entity's image fills.
    pub open spec fn rect(self) -> Rect {
        Rect {
            x: self.position.x,
            y: self.position.y,
            width: self.extent_x() as i64,
            height: self.extent_y() as i64,
        }
    }

    /// The y-coordinate of a paddle one frame later, given which of its two
    /// keys are held. "Up" acts first, and only while the paddle is clear of
    /// the top edge; "down" then acts on the result, and only while that is
    /// clear of the bottom edge.
    pub open spec fn paddle_step(self, up: bool, down: bool) -> int {
        let raised = if up && !self.at_top() {
            self.position.y - PADDLE_SPEED
        } else {
            self.position.y as int
        };
        if down && raised + self.extent_y() < FIELD_HEIGHT - EDGE_MARGIN {
            raised + PADDLE_SPEED
        } else {
            raised
        }
    }

    /// The paddle one frame later: only its y-coordinate can differ.
    pub open spec fn moved(self, up: bool, down: bool) -> Entity {
        Entity {
            texture: self.texture,
            position: Vec2 { x: self.position.x, y: self.paddle_step(up, down) as i64 },
            velocity: self.velocity,
        }
    }

    /// An entity at rest.
    pub fn new(texture: Texture, position: Vec2) -> (e: Entity)
        ensures
            e == (Entity { texture, position, velocity: Vec2 { x: 0, y: 0 } }),
    {
        Entity::with_velocity(texture, position, Vec2::zero())
    }

    /// An entity that moves by `velocity` each frame.
    pub fn with_velocity(texture: Texture, position: Vec2, velocity: Vec2) -> (e: Entity)
        ensures
            e == (Entity { texture, position, velocity }),
    {
        Entity { texture, position, velocity }
    }

    /// Whether the entity touches the top edge of the play-field: whether
    /// its top is at most four pixels down.
    pub fn hits_top(&self) -> (b: bool)
        ensures
            b == (self.position.y <= EDGE_MARGIN),
    {
        self.position.y <= EDGE_MARGIN
    }

    /// Whether the entity touches the bottom edge of the play-field:
    /// whether its bottom is at most four pixels up from it.
    pub fn hits_bottom(&self) -> (b: bool)
        ensures
            b == (self.position.y + 2 * self.texture.height >= FIELD_HEIGHT - EDGE_MARGIN),
    {
        self.position.y as i128 + self.height() as i128 >= (FIELD_HEIGHT - EDGE_MARGIN) as i128
    }

    /// Width of the entity in half pixels.
    pub fn width(&self) -> (w: i64)
        ensures
            w == 2 * self.texture.width,
    {
        UNITS_PER_PIXEL * (self.texture.width() as i64)
    }

    /// Height of the entity in half pixels.
    pub fn height(&self) -> (h: i64)
        ensures
            h == 2 * self.texture.height,
    {
        UNITS_PER_PIXEL * (self.texture.height() as i64)
    }

    /// The rectangle at the entity's position with the size of its image.
    pub fn bounds(&self) -> (r: Rect)
        ensures
            r == (Rect {
                x: self.position.x,
                y: self.position.y,
                width: (2 * self.texture.width) as i64,
                height: (2 * self.texture.height) as i64,
            }),
    {
        Rect::new(self.position.x, self.position.y, self.width(), self.height())
    }

    /// Moves a paddle by one frame: up by the paddle speed if `up` is held
    /// and the paddle is clear of the top edge, then down by as much if
    /// `down` is held and the paddle is clear of the bottom edge.
    pub fn steer(&mut self, up: bool, down: bool)
        ensures
            *final(self) == old(self).moved(up, down),
            final(self).position.y == old(self).paddle_step(up, down),
    {
        if up && !self.hits_top() {
            self.position.y -= PADDLE_SPEED;
        }
        if down && !self.hits_bottom() {
            self.position.y += PADDLE_SPEED;
        }
    }
}

/// A paddle's step is a y-coordinate like any other: it can be stored.
pub proof fn lemma_paddle_step_fits(paddle: Entity, up: bool, down: bool)
    ensures
        i64::MIN <= paddle.paddle_step(up, down) <= i64::MAX,
        paddle.moved(up, down).position.y == paddle.paddle_step(up, down),
{
}

/// A paddle that touches the top edge moves no further up, and one that
/// touches the bottom edge no further down, whichever keys are held.
pub proof fn lemma_paddle_stops_at_edges(paddle: Entity, up: bool, down: bool)
    ensures
        paddle.at_top() ==> paddle.paddle_step(up, down) >= paddle.position.y,
        paddle.at_bottom() ==> paddle.paddle_step(up, down) <= paddle.position.y,
{
}

/// A paddle never travels a full step beyond the point where it starts to
/// touch an edge: one whose top is above `EDGE_MARGIN - PADDLE_SPEED`
/// stays above it, and one whose bottom is short of
/// `FIELD_HEIGHT - EDGE_MARGIN + PADDLE_SPEED` stays short of it.
pub proof fn lemma_paddle_stays_in_field(paddle: Entity, up: bool, down: bool)
    ensures
        paddle.position.y > EDGE_MARGIN - PADDLE_SPEED ==> paddle.paddle_step(up, down)
            > EDGE_MARGIN - PADDLE_SPEED,
        paddle.position.y + paddle.extent_y() < FIELD_HEIGHT - EDGE_MARGIN + PADDLE_SPEED
            ==> paddle.paddle_step(up, down) + paddle.extent_y() < FIELD_HEIGHT - EDGE_MARGIN
            + PADDLE_SPEED,
{
}

/// With only "up" held a paddle moves up by the paddle speed unless it
/// touches the top edge, and with only "down" held down by as much unless
/// it touches the bottom edge; with neither held it stays.
pub proof fn lemma_paddle_follows_keys(paddle: Entity)
    ensures
        paddle.paddle_step(false, false) == paddle.position.y,
        paddle.paddle_step(true, false) == if paddle.at_top() {
            paddle.position.y as int
        } else {
            paddle.position.y - PADDLE_SPEED
        },
        paddle.paddle_step(false, true) == if paddle.at_bottom() {
            paddle.position.y as int
        } else {
            paddle.position.y + PADDLE_SPEED
        },
{
}

} // verus!
