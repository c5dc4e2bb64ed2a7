//! Client side of an LSPS1 channel purchase carried over a node's custom messages.
use vstd::prelude::*;

pub mod hexcodec;
pub mod wire;
pub mod messages;
pub mod decimal;
pub mod settlement;
pub mod tracker;
pub mod builders;
pub mod cli;

verus! {

} // verus!
