//! Rules of a two-player arcade fighting game: the roster, the move list
//! with its frame data, fighters' combat state, input latching, and the
//! round and match flow.

use vstd::prelude::*;

pub mod animation;
pub mod fighter;
pub mod game;
pub mod input;
pub mod laws;
pub mod moves;
pub mod roster;
pub mod sheets;

verus! {

} // verus!
