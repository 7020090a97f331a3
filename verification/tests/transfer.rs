use space_station::environment_resources::EnvResource;
use space_station::world::WorldSize;
use space_station::{
    Coordinates, GameWarning, GetResourceLevels, ResourceKind, Storage, TransferResources,
};

fn pickup(kind: ResourceKind, id: i32) -> EnvResource {
    let area = WorldSize::new(100);
    EnvResource {
        kind,
        coordinates: Coordinates::new(1, 1, area),
        id,
    }
}

#[test]
fn give_matching_kind_subtracts() {
    let mut e = pickup(ResourceKind::FoodWater(10), 0);
    let ok = e.give_resources(ResourceKind::FoodWater(3), 0);
    assert!(ok);
    assert_eq!(e.get_kind(), ResourceKind::FoodWater(7));
}

#[test]
fn give_sentinel_remainder_fails_unchanged() {
    let mut e = pickup(ResourceKind::Oxygen(2), 0);
    let ok = e.give_resources(ResourceKind::Oxygen(3), 0);
    assert!(!ok);
    assert_eq!(e.get_kind(), ResourceKind::Oxygen(2));
}

#[test]
fn give_allows_other_negative_remainders() {
    // Only the remainder of exactly -1 counts as insufficient.
    let mut e = pickup(ResourceKind::Fuel(2), 0);
    let ok = e.give_resources(ResourceKind::Fuel(4), 0);
    assert!(ok);
    assert_eq!(e.get_kind(), ResourceKind::Fuel(-2));
}

#[test]
fn give_mismatched_kind_reports_success_unchanged() {
    let mut e = pickup(ResourceKind::Oxygen(9), 0);
    let ok = e.give_resources(ResourceKind::Fuel(4), 0);
    assert!(ok);
    assert_eq!(e.get_kind(), ResourceKind::Oxygen(9));
    let ok = e.give_resources(ResourceKind::FoodWater(100), 0);
    assert!(ok);
    assert_eq!(e.get_kind(), ResourceKind::Oxygen(9));
}

#[test]
fn pickup_stores_nothing() {
    let mut e = pickup(ResourceKind::Oxygen(9), 0);
    let ok = e.receive_to_storage(ResourceKind::Oxygen(5));
    assert!(!ok);
    assert_eq!(e.get_kind(), ResourceKind::Oxygen(9));
}

#[test]
fn deposit_adds_to_matching_counter() {
    let mut s = Storage::new(10);
    let ok = s.receive_to_storage(ResourceKind::Oxygen(15));
    assert!(ok);
    assert_eq!(s.get_resource_amount(ResourceKind::Oxygen(0)), 25);
    assert_eq!(s.get_resource_amount(ResourceKind::FoodWater(0)), 10);
    assert_eq!(s.get_resource_amount(ResourceKind::Fuel(0)), 10);
}

#[test]
fn deposit_clamps_at_ceiling() {
    let mut s = Storage::new(95);
    let ok = s.receive_to_storage(ResourceKind::FoodWater(10));
    assert!(ok);
    assert_eq!(s.get_resource_amount(ResourceKind::FoodWater(0)), 100);
}

#[test]
fn deposit_into_full_counter_reports_no_change() {
    let mut s = Storage::new(100);
    let ok = s.receive_to_storage(ResourceKind::Fuel(5));
    assert!(!ok);
    assert_eq!(s.get_resource_amount(ResourceKind::Fuel(0)), 100);
}

#[test]
fn receive_resources_composes_give_and_deposit() {
    let mut s = Storage::new(10);
    let mut e = pickup(ResourceKind::Fuel(30), 0);
    let ok = s.receive_resources(ResourceKind::Fuel(20), &mut e);
    assert!(ok);
    assert_eq!(e.get_kind(), ResourceKind::Fuel(10));
    assert_eq!(s.get_resource_amount(ResourceKind::Fuel(0)), 30);
}

#[test]
fn receive_resources_failed_give_leaves_receiver() {
    let mut s = Storage::new(10);
    let mut e = pickup(ResourceKind::Fuel(4), 0);
    let ok = s.receive_resources(ResourceKind::Fuel(5), &mut e);
    assert!(!ok);
    assert_eq!(e.get_kind(), ResourceKind::Fuel(4));
    assert_eq!(s.get_resource_amount(ResourceKind::Fuel(0)), 10);
}

#[test]
fn mining_drains_pickup_into_storage() {
    let mut s = Storage::new(10);
    let mut e = pickup(ResourceKind::Oxygen(33), 0);
    let w = s.get_env_resources(&mut e);
    assert_eq!(w, GameWarning::Nominal);
    assert_eq!(e.get_kind(), ResourceKind::Oxygen(0));
    assert_eq!(s.get_resource_amount(ResourceKind::Oxygen(0)), 43);
}

#[test]
fn mining_exhausted_pickup() {
    let mut s = Storage::new(10);
    let mut e = pickup(ResourceKind::Oxygen(0), 0);
    let w = s.get_env_resources(&mut e);
    assert_eq!(w, GameWarning::ResourceExhausted);
    assert_eq!(e.get_kind(), ResourceKind::Oxygen(0));
    assert_eq!(s.get_resource_amount(ResourceKind::Oxygen(0)), 10);
}

#[test]
fn mining_into_full_storage() {
    let mut s = Storage::new(100);
    let mut e = pickup(ResourceKind::FoodWater(7), 0);
    let w = s.get_env_resources(&mut e);
    assert_eq!(w, GameWarning::ShipStorageFull);
    assert_eq!(e.get_kind(), ResourceKind::FoodWater(0));
    assert_eq!(s.get_resource_amount(ResourceKind::FoodWater(0)), 100);
}

#[test]
fn storage_give_is_permissive_no_op() {
    let mut s = Storage::new(40);
    let ok = s.give_resources(ResourceKind::Oxygen(10), 0);
    assert!(ok);
    assert_eq!(s.get_resource_amount(ResourceKind::Oxygen(0)), 40);
}
