use space_station::environment_resources::EnvResource;
use space_station::world::{World, WorldSize};
use space_station::{GameWarning, GetResourceLevels, ResourceKind, Storage};

#[test]
fn env_resource_randomize_fields() {
    let area = WorldSize::new(100);
    for _ in 0..20 {
        let e = EnvResource::randomize(50, 7, area).unwrap();
        assert_eq!(e.get_id(), 7);
        let amt = e.get_kind().get_amount();
        assert!((5..=50).contains(&amt));
        assert!(e.get_coordinates().max_bounds());
    }
}

#[test]
fn env_resource_randomize_invalid_range() {
    let area = WorldSize::new(100);
    assert!(matches!(
        EnvResource::randomize(4, 0, area),
        Err(GameWarning::InvalidRange)
    ));
}

#[test]
fn world_resources_off_by_one_population() {
    let area = WorldSize::new(100);
    let v = EnvResource::randomize_world_resources(10, 50, area).unwrap();
    // The generator iterates an inclusive range: ten requested, eleven spawned.
    assert_eq!(v.len(), 11);
    for (i, e) in v.iter().enumerate() {
        assert_eq!(e.get_id(), i as i32);
        let amt = e.get_kind().get_amount();
        assert!((5..=50).contains(&amt));
        assert!(e.get_coordinates().max_bounds());
    }
}

#[test]
fn world_resources_invalid_range() {
    let area = WorldSize::new(100);
    assert!(matches!(
        EnvResource::randomize_world_resources(10, 2, area),
        Err(GameWarning::InvalidRange)
    ));
}

#[test]
fn world_new_configuration() {
    let w = World::new(100, 5, 50, 2, 3, 4, 250).unwrap();
    assert_eq!(w.play_area.get_values(), (100, 100));
    assert_eq!(w.spawned_resources.len(), 6);
    assert_eq!(w.consumption_rate, 2);
    assert_eq!(w.game_tick, 3);
    assert_eq!(w.recharge_rate, 4);
    assert_eq!(w.recharge_interval, 250);
}

#[test]
fn world_new_rejects_empty_spawn_range() {
    assert!(matches!(
        World::new(100, 5, 4, 1, 1, 1, 100),
        Err(GameWarning::InvalidRange)
    ));
}

#[test]
fn world_randomize_configuration() {
    let w = World::randomize();
    let (lo, hi) = w.play_area.get_values();
    assert!(100 <= lo && lo <= hi && hi <= 200);
    assert_eq!(w.spawned_resources.len(), 101);
    assert_eq!(w.consumption_rate, 1);
    assert_eq!(w.recharge_rate, 1);
    assert!((1..=4).contains(&w.game_tick));
    assert!((100..=499).contains(&w.recharge_interval));
}

#[test]
fn mine_first_world_resource_into_storage() {
    // Spawn a world with play area 100, five requested resources capped at
    // 50, then mine the pickup with id 0 into a storage started at 10.
    let mut w = World::new(100, 5, 50, 1, 1, 1, 100).unwrap();
    let mut storage = Storage::new(10);
    let env = w
        .spawned_resources
        .iter_mut()
        .find(|e| e.get_id() == 0)
        .unwrap();
    let kind = env.get_kind();
    let mined = kind.get_amount();
    let warning = storage.get_env_resources(env);
    assert_eq!(warning, GameWarning::Nominal);
    assert_eq!(env.get_kind().get_amount(), 0);
    let counter = storage.get_resource_amount(kind);
    assert_eq!(counter, 10 + mined);
    assert!(counter <= 100);
}

#[test]
fn mined_deposit_clamps_at_ceiling() {
    let mut w = World::new(100, 5, 50, 1, 1, 1, 100).unwrap();
    let mut storage = Storage::new(98);
    let env = &mut w.spawned_resources[0];
    let kind = env.get_kind();
    // Every spawned amount is at least 5, so a storage at 98 must clamp.
    let warning = storage.get_env_resources(env);
    assert_eq!(warning, GameWarning::Nominal);
    assert_eq!(storage.get_resource_amount(kind), 100);
}
