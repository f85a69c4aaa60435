//! The rules of a two-paddle ball game on a fixed play-field, counted in
//! half pixels.
//!
//! The library holds the state of one game and advances it frame by frame
//! from the keys that are held. It neither opens a window nor reads a
//! keyboard: a host polls the keys, calls [`GameState::update`], and paints
//! what [`GameState::draw`] hands back.

pub mod entity;
pub mod field;
pub mod game;
pub mod geometry;

pub use entity::{Entity, Texture};
pub use game::{Color, Frame, GameState, HeldKeys, Paddle, Sprite};
pub use geometry::{Rect, Vec2};
