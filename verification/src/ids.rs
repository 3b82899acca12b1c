//! Identifiers of junctions and of the channels they own.

use vstd::prelude::*;

verus! {

/// Names one junction. Two live junctions never carry the same identifier.
#[derive(Clone, Copy, Debug, PartialEq, Eq, Structural, Hash)]
pub struct JunctionId(pub usize);

/// Names one channel of a junction: the position at which the junction keeps
/// the channel's pending messages.
#[derive(Clone, Copy, Debug, PartialEq, Eq, Structural, Hash)]
pub struct ChannelId(pub usize);

} // verus!
