//! The game: two paddles, a ball, and the rule that advances them by a frame.

use vstd::prelude::*;
use crate::entity::{Entity, Texture};
use crate::field::{BALL_SPEED, FIELD_HEIGHT, FIELD_WIDTH, PADDLE_INSET};
use crate::geometry::Vec2;

verus! {

/// The keys that steer the paddles, each `true` while it is held.
///
/// `w` and `s` move the first player's paddle up and down, `up` and `down`
/// the second player's.
#[derive(Clone, Copy, Debug, PartialEq, Eq, Structural)]
pub struct HeldKeys {
    pub w: bool,
    pub s: bool,
    pub up: bool,
    pub down: bool,
}

impl HeldKeys {
    /// No key held.
    pub fn none() -> (keys: HeldKeys)
        ensures
            keys == (HeldKeys { w: false, s: false, up: false, down: false }),
    {
        HeldKeys { w: false, s: false, up: false, down: false }
    }
}

/// One of the two paddles.
#[derive(Clone, Copy, Debug, PartialEq, Eq, Structural)]
pub enum Paddle {
    Player1,
    Player2,
}

/// An opaque colour, eight bits to the channel.
#[derive(Clone, Copy, Debug, PartialEq, Eq, Structural)]
pub struct Color {
    pub r: u8,
    pub g: u8,
    pub b: u8,
}

/// One image to paint, with the place of its top-left corner in half
/// pixels.
#[derive(Clone, Copy, Debug, PartialEq, Eq, Structural)]
pub struct Sprite {
    pub texture: Texture,
    pub position: Vec2,
}

/// What the host paints for one frame: it clears the window to `clear`,
/// then paints `sprites` from first to last.
#[derive(Debug)]
pub struct Frame {
    pub clear: Color,
    pub sprites: Vec<Sprite>,
}

/// The colour behind the paddles and the ball.
pub open spec fn background() -> Color {
    Color { r: 100, g: 149, b: 237 }
}

/// The sprite that shows `entity`.
pub open spec fn sprite_of(entity: Entity) -> Sprite {
    Sprite { texture: entity.texture, position: entity.position }
}

/// The whole state of a game.
#[derive(Clone, Copy, Debug, PartialEq, Eq, Structural)]
pub struct GameState {
    pub player1: Entity,
    pub player2: Entity,
    pub ball: Entity,
}

impl GameState {
    /// The state in which a game with these three images begins.
    ///
    /// Each paddle stands `PADDLE_INSET` from its side wall, the first on
    /// the left and the second on the right, with its middle at mid-height;
    /// the ball starts with its middle on the centre of the field and
    /// flies to the left. An image that is `n` pixels across reaches `n`
    /// half pixels to either side of its middle.
    pub open spec fn opening(player1: Texture, player2: Texture, ball: Texture) -> GameState {
        GameState {
            player1: Entity {
                texture: player1,
                position: Vec2 {
                    x: PADDLE_INSET,
                    y: (FIELD_HEIGHT / 2 - player1.height) as i64,
                },
                velocity: Vec2 { x: 0, y: 0 },
            },
            player2: Entity {
                texture: player2,
                position: Vec2 {
                    x: (FIELD_WIDTH - 2 * player2.width - PADDLE_INSET) as i64,
                    y: (FIELD_HEIGHT / 2 - player2.height) as i64,
                },
                velocity: Vec2 { x: 0, y: 0 },
            },
            ball: Entity {
                texture: ball,
                position: Vec2 {
                    x: (FIELD_WIDTH / 2 - ball.width) as i64,
                    y: (FIELD_HEIGHT / 2 - ball.height) as i64,
                },
                velocity: Vec2 { x: (-BALL_SPEED) as i64, y: 0 },
            },
        }
    }

    /// The paddle that the ball is in contact with, if any. The first
    /// player's paddle is asked first: where the ball overlaps both, the
    /// answer is `Player1`.
    pub open spec fn contact(self) -> Option<Paddle> {
        if self.ball.rect().overlaps(self.player1.rect()) {
            Some(Paddle::Player1)
        } else if self.ball.rect().overlaps(self.player2.rect()) {
            Some(Paddle::Player2)
        } else {
            None
        }
    }

    /// The state once the paddles have moved for this frame and the ball
    /// has not yet.
    pub open spec fn steered(self, keys: HeldKeys) -> GameState {
        GameState {
            player1: self.player1.moved(keys.w, keys.s),
            player2: self.player2.moved(keys.up, keys.down),
            ball: self.ball,
        }
    }

    /// Whether the ball bounces in this frame: it is in contact with a
    /// paddle once the paddles have moved.
    pub open spec fn bounces(self, keys: HeldKeys) -> bool {
        self.steered(keys).contact().is_some()
    }

    /// The ball's horizontal velocity after this frame: reversed if the
    /// ball bounces, else as it was.
    pub open spec fn next_velocity_x(self, keys: HeldKeys) -> int {
        if self.bounces(keys) {
            -self.ball.velocity.x
        } else {
            self.ball.velocity.x as int
        }
    }

    /// The ball's x-coordinate after this frame: a bounce is applied before
    /// the ball moves.
    pub open spec fn next_ball_x(self, keys: HeldKeys) -> int {
        self.ball.position.x + self.next_velocity_x(keys)
    }

    /// The ball's y-coordinate after this frame.
    pub open spec fn next_ball_y(self, keys: HeldKeys) -> int {
        self.ball.position.y + self.ball.velocity.y
    }

    /// Whether the ball's velocity and position after this frame are
    /// numbers that the state can hold.
    pub open spec fn step_fits(self, keys: HeldKeys) -> bool {
        &&& i64::MIN <= self.next_velocity_x(keys) <= i64::MAX
        &&& i64::MIN <= self.next_ball_x(keys) <= i64::MAX
        &&& i64::MIN <= self.next_ball_y(keys) <= i64::MAX
    }

    /// The state one frame later, with `keys` held. Where the ball's next
    /// velocity or position cannot be stored, the frame is not computed
    /// and the state stays as it is.
    pub open spec fn next(self, keys: HeldKeys) -> GameState {
        if self.step_fits(keys) {
            GameState {
                player1: self.player1.moved(keys.w, keys.s),
                player2: self.player2.moved(keys.up, keys.down),
                ball: Entity {
                    texture: self.ball.texture,
                    position: Vec2 {
                        x: self.next_ball_x(keys) as i64,
                        y: self.next_ball_y(keys) as i64,
                    },
                    velocity: Vec2 {
                        x: self.next_velocity_x(keys) as i64,
                        y: self.ball.velocity.y,
                    },
                },
            }
        } else {
            self
        }
    }

    /// The state after one frame for each entry of `keys`, in order.
    pub open spec fn after(self, keys: Seq<HeldKeys>) -> GameState
        decreases keys.len(),
    {
        if keys.len() == 0 {
            self
        } else {
            self.after(keys.drop_last()).next(keys.last())
        }
    }

    /// Frame `i` of the run `keys` can be computed, and the ball does not
    /// bounce in it.
    pub open spec fn flies_free_at(self, keys: Seq<HeldKeys>, i: int) -> bool {
        let state = self.after(keys.take(i));
        state.step_fits(keys[i]) && !state.bounces(keys[i])
    }

    /// Every frame of the run `keys` can be computed, and the ball bounces
    /// in none of them.
    pub open spec fn flies_free(self, keys: Seq<HeldKeys>) -> bool {
        forall|i: int| 0 <= i < keys.len() ==> #[trigger] self.flies_free_at(keys, i)
    }

    /// Whether `self` is what one frame with `keys` held makes of `before`.
    /// At most one state is.
    pub open spec fn follows(self, before: GameState, keys: HeldKeys) -> bool {
        &&& self.player1 == before.player1.moved(keys.w, keys.s)
        &&& self.player2 == before.player2.moved(keys.up, keys.down)
        &&& self.ball.texture == before.ball.texture
        &&& self.ball.velocity.x == before.next_velocity_x(keys)
        &&& self.ball.velocity.y == before.ball.velocity.y
        &&& self.ball.position.x == before.next_ball_x(keys)
        &&& self.ball.position.y == before.next_ball_y(keys)
    }

    /// The state is one that play leads to: the paddles are at rest and
    /// the ball flies level at the ball speed, to the left or to the right.
    pub open spec fn well_formed(self) -> bool {
        &&& self.player1.velocity == (Vec2 { x: 0, y: 0 })
        &&& self.player2.velocity == (Vec2 { x: 0, y: 0 })
        &&& self.ball.velocity.y == 0
        &&& (self.ball.velocity.x == BALL_SPEED || self.ball.velocity.x == -BALL_SPEED)
    }

    /// Sets up a game from the three images that the host has loaded.
    pub fn new(player1: Texture, player2: Texture, ball: Texture) -> (state: GameState)
        ensures
            state == GameState::opening(player1, player2, ball),
            state.player1.position.x == PADDLE_INSET,
            state.player1.position.y == FIELD_HEIGHT / 2 - player1.height,
            state.player2.position.x == FIELD_WIDTH - 2 * player2.width - PADDLE_INSET,
            state.player2.position.y == FIELD_HEIGHT / 2 - player2.height,
            state.ball.position.x == FIELD_WIDTH / 2 - ball.width,
            state.ball.position.y == FIELD_HEIGHT / 2 - ball.height,
            state.ball.velocity.x == -BALL_SPEED,
            state.well_formed(),
    {
        let player1_position = Vec2::new(PADDLE_INSET, FIELD_HEIGHT / 2 - player1.height() as i64);
        let player2_position = Vec2::new(
            FIELD_WIDTH - 2 * (player2.width() as i64) - PADDLE_INSET,
            FIELD_HEIGHT / 2 - player2.height() as i64,
        );
        let ball_position = Vec2::new(
            FIELD_WIDTH / 2 - ball.width() as i64,
            FIELD_HEIGHT / 2 - ball.height() as i64,
        );
        let ball_velocity = Vec2::new(-BALL_SPEED, 0);
        GameState {
            player1: Entity::new(player1, player1_position),
            player2: Entity::new(player2, player2_position),
            ball: Entity::with_velocity(ball, ball_position, ball_velocity),
        }
    }

    /// The paddle that the ball overlaps where everything stands now, the
    /// first player's paddle taking precedence.
    pub fn paddle_hit(&self) -> (hit: Option<Paddle>)
        ensures
            hit == self.contact(),
    {
        let player1_bounds = self.player1.bounds();
        let player2_bounds = self.player2.bounds();
        let ball_bounds = self.ball.bounds();
        if ball_bounds.intersects(&player1_bounds) {
            Some(Paddle::Player1)
        } else if ball_bounds.intersects(&player2_bounds) {
            Some(Paddle::Player2)
        } else {
            None
        }
    }

    /// Whether [`GameState::update`] may be called with these keys: whether
    /// the ball's next velocity and position can be stored.
    pub fn can_update(&self, keys: HeldKeys) -> (b: bool)
        ensures
            b == self.step_fits(keys),
    {
        let mut next = *self;
        next.player1.steer(keys.w, keys.s);
        next.player2.steer(keys.up, keys.down);
        let velocity_x: i128 = if next.paddle_hit().is_some() {
            -(self.ball.velocity.x as i128)
        } else {
            self.ball.velocity.x as i128
        };
        let x: i128 = self.ball.position.x as i128 + velocity_x;
        let y: i128 = self.ball.position.y as i128 + self.ball.velocity.y as i128;
        i64::MIN as i128 <= velocity_x && velocity_x <= i64::MAX as i128 && i64::MIN as i128 <= x
            && x <= i64::MAX as i128 && i64::MIN as i128 <= y && y <= i64::MAX as i128
    }

    /// Advances the game by one frame.
    ///
    /// First the paddles move as their keys say. Then, if the ball
    /// overlaps a paddle where the paddles now stand, its horizontal
    /// velocity is reversed. Last the ball moves by its velocity, whether
    /// it bounced or not. Nothing keeps the ball on the play-field.
    pub fn update(&mut self, keys: HeldKeys)
        requires
            old(self).step_fits(keys),
        ensures
            *final(self) == old(self).next(keys),
            final(self).follows(*old(self), keys),
            final(self).player1.position.y == old(self).player1.paddle_step(keys.w, keys.s),
            final(self).player2.position.y == old(self).player2.paddle_step(keys.up, keys.down),
            final(self).ball.velocity.x == if old(self).bounces(keys) {
                -old(self).ball.velocity.x
            } else {
                old(self).ball.velocity.x as int
            },
            final(self).ball.position.x == old(self).ball.position.x + final(self).ball.velocity.x,
            final(self).ball.position.y == old(self).ball.position.y + final(self).ball.velocity.y,
            old(self).well_formed() ==> final(self).well_formed(),
    {
        self.player1.steer(keys.w, keys.s);
        self.player2.steer(keys.up, keys.down);
        let paddle_hit = self.paddle_hit();
        if paddle_hit.is_some() {
            self.ball.velocity.x = -self.ball.velocity.x;
        }
        self.ball.position.x += self.ball.velocity.x;
        self.ball.position.y += self.ball.velocity.y;
    }

    /// Advances the game by one frame where that can be done, and says
    /// whether it was: where the ball's next velocity or position cannot be
    /// stored, nothing changes.
    pub fn try_update(&mut self, keys: HeldKeys) -> (done: bool)
        ensures
            done == old(self).step_fits(keys),
            *final(self) == old(self).next(keys),
            done ==> final(self).follows(*old(self), keys),
            !done ==> *final(self) == *old(self),
            old(self).well_formed() ==> final(self).well_formed(),
    {
        if self.can_update(keys) {
            self.update(keys);
            true
        } else {
            false
        }
    }

    /// What to paint for the state as it is: the background, then the first
    /// player's paddle, the second player's paddle and the ball, each where
    /// it stands.
    pub fn draw(&self) -> (frame: Frame)
        ensures
            frame.clear == background(),
            frame.sprites@ == seq![
                sprite_of(self.player1),
                sprite_of(self.player2),
                sprite_of(self.ball),
            ],
    {
        let mut sprites: Vec<Sprite> = Vec::new();
        sprites.push(Sprite { texture: self.player1.texture, position: self.player1.position });
        sprites.push(Sprite { texture: self.player2.texture, position: self.player2.position });
        sprites.push(Sprite { texture: self.ball.texture, position: self.ball.position });
        let frame = Frame { clear: Color { r: 100, g: 149, b: 237 }, sprites };
        assert(frame.sprites@ =~= seq![
            sprite_of(self.player1),
            sprite_of(self.player2),
            sprite_of(self.ball),
        ]);
        frame
    }
}

/// In the opening each image is centred: the paddles' middles are at
/// mid-height, the ball's middle is the centre of the field, and the two
/// paddles are equally far from their side walls.
pub proof fn lemma_opening_is_centred(player1: Texture, player2: Texture, ball: Texture)
    ensures
        ({
            let state = GameState::opening(player1, player2, ball);
            &&& 2 * state.player1.position.y + state.player1.extent_y() == FIELD_HEIGHT
            &&& 2 * state.player2.position.y + state.player2.extent_y() == FIELD_HEIGHT
            &&& 2 * state.ball.position.x + state.ball.extent_x() == FIELD_WIDTH
            &&& 2 * state.ball.position.y + state.ball.extent_y() == FIELD_HEIGHT
            &&& state.player1.position.x == PADDLE_INSET
            &&& FIELD_WIDTH - (state.player2.position.x + state.player2.extent_x())
                == PADDLE_INSET
        }),
{
}

/// In the opening a paddle touches neither edge exactly when its image is
/// less than 472 pixels high.
pub proof fn lemma_opening_paddles_are_free(player1: Texture, player2: Texture, ball: Texture)
    ensures
        ({
            let state = GameState::opening(player1, player2, ball);
            &&& player1.height < 472 <==> !state.player1.at_top() && !state.player1.at_bottom()
            &&& player2.height < 472 <==> !state.player2.at_top() && !state.player2.at_bottom()
        }),
{
}

/// Where a frame can be computed, the next state is the one that follows.
pub proof fn lemma_next_follows(state: GameState, keys: HeldKeys)
    ensures
        state.step_fits(keys) ==> state.next(keys).follows(state, keys),
        !state.step_fits(keys) ==> state.next(keys) == state,
{
}

/// A ball that meets no paddle for a run of frames flies straight: after
/// the run it has moved by its velocity once for each frame, and its
/// velocity is what it was, however far from the play-field that takes it.
pub proof fn lemma_free_ball_flies_straight(state: GameState, keys: Seq<HeldKeys>)
    requires
        state.flies_free(keys),
    ensures
        state.after(keys).ball.velocity == state.ball.velocity,
        state.after(keys).ball.position.x == state.ball.position.x + keys.len()
            * state.ball.velocity.x,
        state.after(keys).ball.position.y == state.ball.position.y + keys.len()
            * state.ball.velocity.y,
    decreases keys.len(),
{
    if keys.len() > 0 {
        let front = keys.drop_last();
        let n = front.len() as int;
        assert forall|i: int| 0 <= i < front.len() implies #[trigger] state.flies_free_at(
            front,
            i,
        ) by {
            assert(front.take(i) =~= keys.take(i));
            assert(state.flies_free_at(keys, i));
        }
        lemma_free_ball_flies_straight(state, front);
        assert(keys.take(n) =~= front);
        assert(state.flies_free_at(keys, n));
        let vx = state.ball.velocity.x as int;
        let vy = state.ball.velocity.y as int;
        assert(n * vx + vx == (n + 1) * vx) by (nonlinear_arith);
        assert(n * vy + vy == (n + 1) * vy) by (nonlinear_arith);
    }
}

/// A frame has one outcome: two states that both follow from the same
/// state under the same keys are equal.
pub proof fn lemma_follows_is_unique(
    before: GameState,
    keys: HeldKeys,
    first: GameState,
    second: GameState,
)
    requires
        first.follows(before, keys),
        second.follows(before, keys),
    ensures
        first == second,
{
}

/// The ball bounces exactly when, once the paddles have moved, its
/// rectangle overlaps that of either paddle.
pub proof fn lemma_bounces_iff_overlap(state: GameState, keys: HeldKeys)
    ensures
        state.bounces(keys) <==> (state.ball.rect().overlaps(
            state.player1.moved(keys.w, keys.s).rect(),
        ) || state.ball.rect().overlaps(state.player2.moved(keys.up, keys.down).rect())),
{
}

/// In a well-formed state the frame can be computed whenever the ball is
/// at least the ball speed away from the ends of the x-axis.
pub proof fn lemma_step_fits_in_play(state: GameState, keys: HeldKeys)
    requires
        state.well_formed(),
        i64::MIN + BALL_SPEED <= state.ball.position.x <= i64::MAX - BALL_SPEED,
    ensures
        state.step_fits(keys),
{
}

/// In every frame the bounce comes before the move: the ball's horizontal
/// velocity is reversed exactly when the ball bounces, and the ball then
/// moves by the velocity that it has after that, bounce or not.
pub proof fn lemma_bounce_then_move(state: GameState, keys: HeldKeys)
    ensures
        state.bounces(keys) ==> state.next_velocity_x(keys) == -state.ball.velocity.x,
        !state.bounces(keys) ==> state.next_velocity_x(keys) == state.ball.velocity.x,
        state.next_ball_x(keys) == state.ball.position.x + state.next_velocity_x(keys),
        state.next_ball_y(keys) == state.ball.position.y + state.ball.velocity.y,
{
}

/// A ball that touches no paddle moves by exactly its velocity, wherever
/// it is: nothing holds it on the play-field.
pub proof fn lemma_free_ball_moves_by_velocity(state: GameState, keys: HeldKeys)
    requires
        !state.bounces(keys),
    ensures
        state.next_velocity_x(keys) == state.ball.velocity.x,
        state.next_ball_x(keys) == state.ball.position.x + state.ball.velocity.x,
        state.next_ball_y(keys) == state.ball.position.y + state.ball.velocity.y,
{
}

} // verus!
