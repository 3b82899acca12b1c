//! Join patterns by arity: the partial patterns that collect channels, and
//! the full patterns that pair the collected channels with a reaction.

pub mod binary;
pub mod ternary;
pub mod unary;
