//! Conway's Game of Life on a torus.
//!
//! The crate is a simulation engine and nothing else: a fixed-size grid of
//! two-state cells, the wrap-around neighbour count and the step from one
//! generation to the next. Every executable function carries a contract
//! over the mathematical model in [`grid`], and the behaviour of a few
//! well-known patterns is proved in [`patterns`].

pub mod cell;
pub mod error;
pub mod grid;
pub mod layout;
pub mod patterns;
mod random;
pub mod universe;

pub use cell::Cell;
pub use error::GridError;
pub use universe::Universe;
