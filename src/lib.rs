//! Recolouring of the local player's name: the decisions behind an inline
//! hook on the game's name-display routine, and the parsing of its setting.

pub mod color;
pub mod intercept;
pub mod lifecycle;
pub mod setting;
pub mod text;

pub use color::Color;
