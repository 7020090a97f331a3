use space_station::{
    FoodWater, Fuel, GameWarning, GetResourceLevels, LevelCap, Oxygen, ResourceKind, Storage,
};

#[test]
fn adjust_max_level_caps_at_ceiling() {
    let mut k = ResourceKind::FoodWater(150);
    k.adjust_max_level();
    assert_eq!(k, ResourceKind::FoodWater(100));
    let mut k = ResourceKind::Oxygen(101);
    k.adjust_max_level();
    assert_eq!(k, ResourceKind::Oxygen(100));
    let mut k = ResourceKind::Fuel(99);
    k.adjust_max_level();
    assert_eq!(k, ResourceKind::Fuel(99));
}

#[test]
fn adjust_min_level_raises_to_floor() {
    let mut k = ResourceKind::FoodWater(-5);
    k.adjust_min_level();
    assert_eq!(k, ResourceKind::FoodWater(0));
    let mut k = ResourceKind::Oxygen(-1);
    k.adjust_min_level();
    assert_eq!(k, ResourceKind::Oxygen(0));
    let mut k = ResourceKind::Fuel(1);
    k.adjust_min_level();
    assert_eq!(k, ResourceKind::Fuel(1));
}

#[test]
fn adjustments_idempotent_in_range() {
    let mut k = ResourceKind::Oxygen(42);
    k.adjust_max_level();
    k.adjust_min_level();
    assert_eq!(k, ResourceKind::Oxygen(42));
    k.adjust_max_level();
    k.adjust_min_level();
    assert_eq!(k, ResourceKind::Oxygen(42));
}

#[test]
fn resource_kind_get_amount() {
    assert_eq!(ResourceKind::FoodWater(7).get_amount(), 7);
    assert_eq!(ResourceKind::Oxygen(-3).get_amount(), -3);
    assert_eq!(ResourceKind::Fuel(0).get_amount(), 0);
}

#[test]
fn resource_kind_randomize_range() {
    for _ in 0..50 {
        let k = ResourceKind::randomize(50).unwrap();
        let amt = k.get_amount();
        assert!((5..=50).contains(&amt));
    }
}

#[test]
fn resource_kind_randomize_degenerate_range() {
    // With the bound at the spawn floor the only possible amount is the floor
    // itself: a generator that ignored its bounds would fail this.
    for _ in 0..10 {
        let k = ResourceKind::randomize(5).unwrap();
        assert_eq!(k.get_amount(), 5);
    }
}

#[test]
fn resource_kind_randomize_invalid_range() {
    assert_eq!(ResourceKind::randomize(4), Err(GameWarning::InvalidRange));
    assert_eq!(ResourceKind::randomize(-10), Err(GameWarning::InvalidRange));
}

#[test]
fn stock_constructors_and_getters() {
    assert_eq!(Oxygen::new(30).get_amount(), 30);
    assert_eq!(FoodWater::new(-2).get_amount(), -2);
    assert_eq!(Fuel::new(105).get_amount(), 105);
}

#[test]
fn stock_randomize_ranges() {
    for _ in 0..10 {
        assert_eq!(Oxygen::randomize(5).unwrap().get_amount(), 5);
        assert_eq!(FoodWater::randomize(5).unwrap().get_amount(), 5);
        assert_eq!(Fuel::randomize(5).unwrap().get_amount(), 5);
        let v = Oxygen::randomize(9).unwrap().get_amount();
        assert!((5..=9).contains(&v));
    }
    assert_eq!(Oxygen::randomize(4), Err(GameWarning::InvalidRange));
    assert_eq!(FoodWater::randomize(0), Err(GameWarning::InvalidRange));
    assert_eq!(Fuel::randomize(-1), Err(GameWarning::InvalidRange));
}

#[test]
fn stock_level_caps() {
    let mut o = Oxygen::new(130);
    o.adjust_max_level();
    assert_eq!(o.get_amount(), 100);
    let mut f = FoodWater::new(-7);
    f.adjust_min_level();
    assert_eq!(f.get_amount(), 0);
    let mut fl = Fuel::new(50);
    fl.adjust_max_level();
    fl.adjust_min_level();
    assert_eq!(fl.get_amount(), 50);
}

#[test]
fn storage_new_and_counters() {
    let s = Storage::new(25);
    assert_eq!(s.get_resource_amount(ResourceKind::FoodWater(0)), 25);
    assert_eq!(s.get_resource_amount(ResourceKind::Oxygen(0)), 25);
    assert_eq!(s.get_resource_amount(ResourceKind::Fuel(0)), 25);
}

#[test]
fn storage_level_caps() {
    let mut s = Storage::new(-5);
    s.adjust_min_level();
    assert_eq!(s.get_resource_amount(ResourceKind::FoodWater(0)), 0);
    assert_eq!(s.get_resource_amount(ResourceKind::Oxygen(0)), 0);
    assert_eq!(s.get_resource_amount(ResourceKind::Fuel(0)), 0);
    let mut s = Storage::new(150);
    s.adjust_max_level();
    assert_eq!(s.get_resource_amount(ResourceKind::FoodWater(0)), 100);
    assert_eq!(s.get_resource_amount(ResourceKind::Oxygen(0)), 100);
    assert_eq!(s.get_resource_amount(ResourceKind::Fuel(0)), 100);
}
