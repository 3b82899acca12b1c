//! Join-calculus coordination.
//!
//! A junction owns channels. A join pattern names some of them and carries
//! a reaction; it fires when a message is pending on each of its channels,
//! takes one message from each, and hands them to the reaction.
//!
//! - `channels` and `ids`: what a channel is, and how it is told apart.
//! - `patterns`: the typed builders that collect channels one by one and
//!   end in a full pattern.
//! - `message`: messages as they reach the junction, with the reply slots
//!   of callers who wait.
//! - `matching`: when a pattern can fire and what it takes.
//! - `junction`: the engine that queues arrivals and decides what fires.
//! - `laws`: what holds of the engine whatever arrives.
//!
//! The junction decides and keeps books. Threads, blocking and the
//! transport of events belong to the program that drives it.

pub mod channels;
pub mod ids;
pub mod junction;
pub mod laws;
pub mod matching;
pub mod message;
pub mod patterns;
