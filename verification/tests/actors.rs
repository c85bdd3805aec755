use rpg_chat_sandbox::actor::npc::{NpcAttitude, NpcCombatStats, NpcData, NpcDialogueState, NpcRole};
use rpg_chat_sandbox::actor::player::{PlayerData, PlayerStats};

#[test]
fn npc_defaults() {
    let c = NpcCombatStats::default();
    assert_eq!(c, NpcCombatStats { health: 100, max_health: 100, attack: 10, defense: 5 });
    let d = NpcDialogueState::default();
    assert_eq!(d.opinion_of_player, 0);
    assert!(!d.has_met_player);
    assert!(d.dialogue_memory.is_empty());
}

#[test]
fn new_npc_is_active_with_defaults() {
    let n = NpcData::new("blacksmith_01".to_string(), "Blacksmith".to_string(), NpcRole::Merchant, NpcAttitude::Friendly, (3.5f32, 4.0f32));
    assert_eq!(n.id, "blacksmith_01");
    assert_eq!(n.display_name, "Blacksmith");
    assert_eq!(n.role, NpcRole::Merchant);
    assert_eq!(n.attitude, NpcAttitude::Friendly);
    assert_eq!(n.combat, NpcCombatStats::default());
    assert_eq!(n.dialogue, NpcDialogueState::default());
    assert_eq!(n.position, (3.5f32, 4.0f32));
    assert!(n.patrol_point_ids.is_empty() && n.shop_item_ids.is_empty() && n.quest_ids.is_empty());
    assert!(n.is_active);
}

#[test]
fn player_defaults() {
    assert_eq!(PlayerStats::default(), PlayerStats { level: 1, health: 100, max_health: 100, stamina: 100, max_stamina: 100 });
    let p = PlayerData::new("player_01".to_string(), "Player".to_string(), (1.0f32, 2.0f32));
    assert_eq!(p.id, "player_01");
    assert_eq!(p.display_name, "Player");
    assert_eq!(p.stats, PlayerStats::default());
    assert!(p.inventory.is_empty());
    assert_eq!(p.gold, 0);
    assert!(p.can_move);
    assert!(!p.is_in_dialogue);
    assert!(p.active_quest_ids.is_empty() && p.completed_quest_ids.is_empty());
    assert_eq!(p.spawn_point_id, None);
    assert_eq!(p.faction_reputation, 0);
    assert_eq!(p.position, (1.0f32, 2.0f32));
}
