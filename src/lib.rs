//! Positions in source text and the spans between them.
//!
//! A [`Pos`] is a line and a column; a [`Loc`] is a pair of positions, `from`
//! and `to`. Both are plain values, built by constructors or by conversions
//! from compact forms (tuples, arrays, single values and ranges), ordered
//! lexicographically, and rendered as text.

pub mod decimal;
pub mod lemmas;
mod location;
mod position;

pub use location::{loc, Loc};
pub use position::{pos, Pos};
