//! Non-player characters that talk with the player: the items they trade,
//! the chat plumbing and the characters themselves.

pub mod agent;
pub mod characters;
pub mod tools;

use vstd::prelude::*;

verus! {

/// An item a character can carry and trade.
///
/// `W` is the type the game measures weight in.
#[derive(Clone, Debug)]
pub struct Item<W> {
    pub name: String,
    pub price: u32,
    pub weight: W,
}

} // verus!
