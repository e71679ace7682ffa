use meter_core::encounter_entity::EncounterEntity;
use meter_core::entity::EntityType;

#[test]
fn should_return_true_valid_npc() {
    let mut entity = EncounterEntity::default();
    entity.entity_type = EntityType::Boss;
    entity.damage_stats.damage_dealt = 1;

    assert!(entity.is_valid());
}

#[test]
fn no_damage_is_never_valid() {
    let types = [
        EntityType::Unknown,
        EntityType::Monster,
        EntityType::Boss,
        EntityType::Guardian,
        EntityType::Player,
        EntityType::Npc,
        EntityType::Esther,
        EntityType::Projectile,
        EntityType::Summon,
    ];
    for t in types {
        let mut entity = EncounterEntity::default();
        entity.entity_type = t;
        entity.class_id = 102;
        entity.damage_stats.damage_dealt = 0;
        assert!(!entity.is_valid());
    }
}

#[test]
fn validity_table() {
    let mut entity = EncounterEntity::default();
    entity.damage_stats.damage_dealt = 500;
    entity.entity_type = EntityType::Unknown;
    assert!(!entity.is_valid());
    entity.entity_type = EntityType::Player;
    entity.class_id = 0;
    assert!(!entity.is_valid());
    entity.class_id = 502;
    assert!(entity.is_valid());
    entity.entity_type = EntityType::Esther;
    assert!(entity.is_valid());
    entity.entity_type = EntityType::Monster;
    assert!(!entity.is_valid());
}

fn player(name: &str) -> EncounterEntity {
    let mut entity = EncounterEntity::default();
    entity.entity_type = EntityType::Player;
    entity.character_id = 77;
    entity.class_id = 102;
    entity.gear_score = 162_000;
    entity.name = name.to_string();
    entity
}

#[test]
fn valid_player_needs_capitalized_resolved_name() {
    assert!(player("Alice").is_valid_player());
    assert!(!player("alice").is_valid_player());
    assert!(!player("You").is_valid_player());
    assert!(!player("").is_valid_player());
    assert!(player("Émile").is_valid_player());
    let mut p = player("Alice");
    p.gear_score = -1;
    assert!(!p.is_valid_player());
    let mut p = player("Alice");
    p.character_id = 0;
    assert!(!p.is_valid_player());
}

#[test]
fn valid_player_given_first_letter() {
    assert!(player("alice").is_valid_player_given(true));
    assert!(!player("Alice").is_valid_player_given(false));
    assert!(!player("You").is_valid_player_given(true));
}

#[test]
fn active_player_and_relevant_entity() {
    let mut p = player("Bob");
    p.max_hp = 1000;
    assert!(!p.is_active_player("Me"));
    p.damage_stats.damage_dealt = 10;
    assert!(p.is_active_player("Me"));

    let mut me = EncounterEntity::default();
    me.name = "Me".to_string();
    me.damage_stats.damage_dealt = 5;
    assert!(me.is_active_player("Me"));
    assert!(me.is_relevant_combat_entity("Me"));

    let mut esther = EncounterEntity::default();
    esther.entity_type = EntityType::Esther;
    assert!(esther.is_relevant_combat_entity("Me"));

    let mut boss = EncounterEntity::default();
    boss.entity_type = EntityType::Boss;
    boss.max_hp = 100;
    assert!(!boss.is_relevant_combat_entity("Me"));
    boss.damage_stats.damage_dealt = 1;
    assert!(boss.is_relevant_combat_entity("Me"));
    boss.max_hp = 0;
    assert!(!boss.is_relevant_combat_entity("Me"));
}
