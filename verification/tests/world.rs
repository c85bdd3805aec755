use rpg_chat_sandbox::game::{find_actor_position, GameState, MapObject, ObjectHandle, ObjectLayer, SetupError, TiledMap, WorldTruthIndex};

fn obj(class: &str, x: f32, y: f32, entity: Option<&str>, spawn: Option<&str>, collider: Option<bool>) -> MapObject<(f32, f32)> {
    MapObject {
        class_name: class.to_string(),
        position: (x, y),
        entity_id: entity.map(|s| s.to_string()),
        spawn_id: spawn.map(|s| s.to_string()),
        collider,
    }
}

fn sample_map() -> TiledMap<(f32, f32)> {
    TiledMap {
        object_layers: vec![
            ObjectLayer {
                objects: vec![
                    obj("Wall", 0.0, 0.0, None, None, Some(true)),
                    obj("player", 10.0, 20.0, Some("hero"), Some("start"), None),
                    obj("Door", 5.0, 5.0, Some("door_1"), None, Some(false)),
                ],
            },
            ObjectLayer { objects: vec![] },
            ObjectLayer {
                objects: vec![
                    obj("BLACKSMITH", 300.0, 400.0, Some("smith"), None, Some(true)),
                    obj("Player", 99.0, 99.0, Some("hero"), Some("start"), None),
                    obj("Blacksmith", 1.0, 1.0, None, None, None),
                ],
            },
        ],
    }
}

#[test]
fn index_counts() {
    let map = sample_map();
    let index = WorldTruthIndex::from_map(&map);
    assert_eq!(index.collider_count(), 2);
    assert_eq!(index.entity_count(), 3);
    assert_eq!(index.spawn_count(), 1);
}

#[test]
fn later_objects_win_an_id() {
    let map = sample_map();
    let index = WorldTruthIndex::from_map(&map);
    let hero = index.get_entity(&map, "hero").unwrap();
    assert_eq!(hero.position, (99.0, 99.0));
    let start = index.get_spawn(&map, "start").unwrap();
    assert_eq!(start.position, (99.0, 99.0));
    assert!(index.get_entity(&map, "nobody").is_none());
    assert!(index.get_spawn(&map, "hero").is_none());
}

#[test]
fn object_from_handle_checks_bounds() {
    let map = sample_map();
    let o = map.object_from_handle(ObjectHandle { layer_index: 2, object_index: 0 }).unwrap();
    assert_eq!(o.class_name, "BLACKSMITH");
    assert!(map.object_from_handle(ObjectHandle { layer_index: 1, object_index: 0 }).is_none());
    assert!(map.object_from_handle(ObjectHandle { layer_index: 3, object_index: 0 }).is_none());
    assert!(map.object_from_handle(ObjectHandle { layer_index: 0, object_index: 3 }).is_none());
}

#[test]
fn entity_positions_follow_moves_and_disabling() {
    let map = sample_map();
    let mut index = WorldTruthIndex::from_map(&map);
    assert_eq!(index.entity_world_pos(&map, "smith"), Some((300.0, 400.0)));
    assert_eq!(index.entity_world_pos(&map, "ghost"), None);

    index.set_entity_world_pos("smith".to_string(), (7.0, 8.0));
    assert_eq!(index.entity_world_pos(&map, "smith"), Some((7.0, 8.0)));
    assert_eq!(index.entity_world_pos(&map, "door_1"), Some((5.0, 5.0)));

    index.set_entity_enabled("smith".to_string(), false);
    assert_eq!(index.entity_world_pos(&map, "smith"), None);
    assert_eq!(index.entity_world_pos(&map, "hero"), Some((99.0, 99.0)));

    index.set_entity_enabled("smith".to_string(), true);
    assert_eq!(index.entity_world_pos(&map, "smith"), Some((7.0, 8.0)));

    index.set_entity_world_pos("ghost".to_string(), (1.5, 2.5));
    assert_eq!(index.entity_world_pos(&map, "ghost"), Some((1.5, 2.5)));
}

#[test]
fn actors_found_first_ignoring_ascii_case() {
    let map = sample_map();
    assert_eq!(find_actor_position(&map, "Player"), Some((10.0, 20.0)));
    assert_eq!(find_actor_position(&map, "blacksmith"), Some((300.0, 400.0)));
    assert_eq!(find_actor_position(&map, "Dragon"), None);
}

#[test]
fn game_setup_places_the_actors() {
    let g = GameState::new(sample_map()).ok().unwrap();
    assert_eq!(g.player.id, "player_01");
    assert_eq!(g.player.display_name, "Player");
    assert_eq!(g.player.position, (10.0, 20.0));
    assert_eq!(g.blacksmith.id, "blacksmith_01");
    assert_eq!(g.blacksmith.display_name, "Blacksmith");
    assert_eq!(g.blacksmith.position, (300.0, 400.0));
    assert_eq!(g.world_truth.collider_count(), 2);
}

#[test]
fn game_setup_needs_both_actors() {
    let no_player = TiledMap { object_layers: vec![ObjectLayer { objects: vec![obj("Blacksmith", 0.0, 0.0, None, None, None)] }] };
    assert!(matches!(GameState::new(no_player), Err(SetupError::MissingPlayer)));
    let no_smith = TiledMap { object_layers: vec![ObjectLayer { objects: vec![obj("Player", 0.0, 0.0, None, None, None)] }] };
    assert!(matches!(GameState::new(no_smith), Err(SetupError::MissingBlacksmith)));
    let empty: TiledMap<(f32, f32)> = TiledMap { object_layers: vec![] };
    assert!(matches!(GameState::new(empty), Err(SetupError::MissingPlayer)));
}
