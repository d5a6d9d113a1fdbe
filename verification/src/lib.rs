//! Client core for a JSON message-batch multiplayer item-randomization
//! protocol: a buffering protocol client with request/reply correlation, a
//! monotonic bitmask state engine with an unlock-dependency resolver, a
//! data-package name/id index, and a fixed-width persistence codec.

pub mod assoc;
pub mod bits;
pub mod data;
pub mod datapackage;
pub mod expr;
pub mod filler;
pub mod items;
pub mod client;
pub mod locations;
pub mod message;
pub mod logic;
pub mod persist;
pub mod registry;
pub mod session;
pub mod state;

use vstd::prelude::*;

verus! {

} // verus!
