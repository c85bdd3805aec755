//! Non-player characters: who they are, how they stand towards the player,
//! their combat and dialogue state.
//!
//! Positions are held as an opaque value of type `P`: the game measures them
//! in floating point, and nothing here computes with them.

use vstd::prelude::*;

verus! {

/// How a character stands towards the player.
#[derive(Debug, Clone, Copy, PartialEq, Eq, Structural)]
pub enum NpcAttitude {
    Friendly,
    Neutral,
    Hostile,
}

/// The part a character plays in the world.
#[derive(Debug, Clone, Copy, PartialEq, Eq, Structural)]
pub enum NpcRole {
    Merchant,
    QuestGiver,
    Guard,
    Villager,
    Crafter,
    Enemy,
}

/// Combat figures of a character.
#[derive(Debug, Clone, PartialEq, Eq, Structural)]
pub struct NpcCombatStats {
    pub health: u32,
    pub max_health: u32,
    pub attack: u32,
    pub defense: u32,
}

impl Default for NpcCombatStats {
    /// Full health of 100, attack 10, defense 5.
    fn default() -> (r: Self)
        ensures
            r == (NpcCombatStats { health: 100, max_health: 100, attack: 10, defense: 5 }),
    {
        NpcCombatStats { health: 100, max_health: 100, attack: 10, defense: 5 }
    }
}

/// What a character remembers of its conversations with the player.
#[derive(Debug, Clone, PartialEq, Eq)]
pub struct NpcDialogueState {
    pub opinion_of_player: i32,
    pub has_met_player: bool,
    pub dialogue_memory: Vec<String>,
}

impl Default for NpcDialogueState {
    /// A neutral opinion, not yet met, nothing remembered.
    fn default() -> (r: Self)
        ensures
            r.opinion_of_player == 0,
            !r.has_met_player,
            r.dialogue_memory@ == Seq::<String>::empty(),
    {
        NpcDialogueState { opinion_of_player: 0, has_met_player: false, dialogue_memory: Vec::new() }
    }
}

/// A non-player character of the world.
#[derive(Debug, Clone, PartialEq)]
pub struct NpcData<P> {
    pub id: String,
    pub display_name: String,
    pub role: NpcRole,
    pub attitude: NpcAttitude,
    pub combat: NpcCombatStats,
    pub dialogue: NpcDialogueState,
    pub position: P,
    pub patrol_point_ids: Vec<String>,
    pub shop_item_ids: Vec<String>,
    pub quest_ids: Vec<String>,
    pub is_active: bool,
}

impl<P> NpcData<P> {
    /// This is a fresh, active character with the given id, name, role and
    /// attitude at `position`: default combat figures and dialogue state, no
    /// patrol points, shop items or quests.
    pub open spec fn is_new(&self, id: Seq<char>, display_name: Seq<char>, role: NpcRole, attitude: NpcAttitude, position: P) -> bool {
        &&& self.id@ == id
        &&& self.display_name@ == display_name
        &&& self.role == role
        &&& self.attitude == attitude
        &&& self.combat == (NpcCombatStats { health: 100, max_health: 100, attack: 10, defense: 5 })
        &&& self.dialogue.opinion_of_player == 0
        &&& !self.dialogue.has_met_player
        &&& self.dialogue.dialogue_memory@ == Seq::<String>::empty()
        &&& self.position == position
        &&& self.patrol_point_ids@ == Seq::<String>::empty()
        &&& self.shop_item_ids@ == Seq::<String>::empty()
        &&& self.quest_ids@ == Seq::<String>::empty()
        &&& self.is_active
    }

    /// A fresh, active character at `position`.
    pub fn new(id: String, display_name: String, role: NpcRole, attitude: NpcAttitude, position: P) -> (r: Self)
        ensures
            r.is_new(id@, display_name@, role, attitude, position),
    {
        NpcData {
            id,
            display_name,
            role,
            attitude,
            combat: NpcCombatStats::default(),
            dialogue: NpcDialogueState::default(),
            position,
            patrol_point_ids: Vec::new(),
            shop_item_ids: Vec::new(),
            quest_ids: Vec::new(),
            is_active: true,
        }
    }
}

} // verus!
