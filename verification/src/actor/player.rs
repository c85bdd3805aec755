//! The player's character: stats, belongings, quests and standing.
//!
//! As for other actors, the position is an opaque value of type `P`.

use vstd::prelude::*;

verus! {

/// The player's level and vital figures.
#[derive(Debug, Clone, PartialEq, Eq, Structural)]
pub struct PlayerStats {
    pub level: u32,
    pub health: u32,
    pub max_health: u32,
    pub stamina: u32,
    pub max_stamina: u32,
}

impl Default for PlayerStats {
    /// Level 1 with full health and stamina of 100.
    fn default() -> (r: Self)
        ensures
            r == (PlayerStats { level: 1, health: 100, max_health: 100, stamina: 100, max_stamina: 100 }),
    {
        PlayerStats { level: 1, health: 100, max_health: 100, stamina: 100, max_stamina: 100 }
    }
}

/// The player's character.
#[derive(Debug, Clone, PartialEq)]
pub struct PlayerData<P> {
    pub id: String,
    pub display_name: String,
    pub stats: PlayerStats,
    pub inventory: Vec<String>,
    pub gold: u32,
    pub can_move: bool,
    pub is_in_dialogue: bool,
    pub active_quest_ids: Vec<String>,
    pub completed_quest_ids: Vec<String>,
    pub spawn_point_id: Option<String>,
    pub faction_reputation: i32,
    pub position: P,
}

impl<P> PlayerData<P> {
    /// This is a fresh player named `display_name` with id `id` at `position`:
    /// default stats, empty pockets, free to move, not talking to anyone, no
    /// quests, no spawn point, neutral reputation.
    pub open spec fn is_new(&self, id: Seq<char>, display_name: Seq<char>, position: P) -> bool {
        &&& self.id@ == id
        &&& self.display_name@ == display_name
        &&& self.stats == (PlayerStats { level: 1, health: 100, max_health: 100, stamina: 100, max_stamina: 100 })
        &&& self.inventory@ == Seq::<String>::empty()
        &&& self.gold == 0
        &&& self.can_move
        &&& !self.is_in_dialogue
        &&& self.active_quest_ids@ == Seq::<String>::empty()
        &&& self.completed_quest_ids@ == Seq::<String>::empty()
        &&& self.spawn_point_id is None
        &&& self.faction_reputation == 0
        &&& self.position == position
    }

    /// A fresh player at `position`.
    pub fn new(id: String, display_name: String, position: P) -> (r: Self)
        ensures
            r.is_new(id@, display_name@, position),
    {
        PlayerData {
            id,
            display_name,
            stats: PlayerStats::default(),
            inventory: Vec::new(),
            gold: 0,
            can_move: true,
            is_in_dialogue: false,
            active_quest_ids: Vec::new(),
            completed_quest_ids: Vec::new(),
            spawn_point_id: None,
            faction_reputation: 0,
            position,
        }
    }
}

} // verus!
