//! Game-side logic of a small role-playing chat sandbox: the actors of the
//! world, the index of map objects that the game looks things up in, and the
//! rules by which non-player characters react to what the player says and does.

pub mod actor;
pub mod text;
pub mod npc;
pub mod game;
