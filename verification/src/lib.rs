//! A minimal multiplayer game backend core: a world generator that produces
//! randomized occupancy grids with a valid spawn point, and a registry of
//! live game instances with monotonically assigned identifiers.
//!
//! The RPC transport, request framing and process bootstrap are external
//! collaborators; they drive the functions of this crate with plain values.

use vstd::prelude::*;

pub mod registry;
pub mod rng;
pub mod service;
pub mod world;

verus! {

/// Every failure the backend core can report.
///
/// `InvalidArgument`: no world size was supplied at all.
/// `InvalidSize`: a size was supplied but lies outside the configured bounds.
/// `NotFound`: a game identifier does not refer to a live instance.
/// `DegenerateMap`: wall generation left no empty cell to spawn on.
#[derive(Clone, Copy, Debug, PartialEq, Eq, Structural)]
pub enum GameError {
    InvalidArgument,
    InvalidSize,
    NotFound,
    DegenerateMap,
}

} // verus!
