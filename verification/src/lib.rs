//! A small resource economy for spacecraft in a bounded 2D world.
//!
//! Three resource kinds (consumables, breathable gas, propellant) are spawned
//! by the environment, mined and transferred between holders, and clamped to
//! the canonical level range `[0, 100]`. This crate holds the core of that
//! economy: the tagged resource representation, the level-capping policy, the
//! transfer protocol, environment-resource spawning, and bounded 2D
//! coordinate, quadrant and distance computation. Display and command-loop
//! shells around the core live outside the library.

use vstd::prelude::*;

pub mod environment_resources;
pub mod world;

verus! {

use crate::world::WorldSize;

/// Lowest level a clamped resource quantity can hold.
pub const LEVEL_FLOOR: i32 = 0;
/// Highest level a clamped resource quantity can hold.
pub const LEVEL_CEILING: i32 = 100;
/// Smallest amount a randomized resource can be spawned with.
pub const SPAWN_FLOOR: i32 = 5;

/// Relies on `rand::Rng::gen_range` over an inclusive `i32` range: for a
/// nonempty range it returns a value inside the range (it panics only on an
/// empty one). Which value comes back depends on the thread-local generator,
/// so nothing more is stated.
#[verifier::external_body]
pub(crate) fn random_in_range(lo: i32, hi: i32) -> (r: i32)
    requires
        lo <= hi,
    ensures
        lo <= r <= hi,
{
    rand::Rng::gen_range(&mut rand::thread_rng(), lo..=hi)
}

/// Unified warning/error conditions reported by the core.
#[derive(Debug, Clone, Copy, PartialEq, Eq, Structural)]
pub enum GameWarning {
    /// A ship's storage cannot take any more of a resource.
    ShipStorageFull,
    /// A coordinate lies outside the playable area.
    OutOfBounds,
    /// A destination cannot be reached.
    Unreachable,
    /// An environment resource holds nothing worth mining.
    ResourceExhausted,
    /// A randomization range is empty or inverted.
    InvalidRange,
    /// Nothing is wrong.
    Nominal,
}

/// The main resources of the game.
#[derive(Debug, Clone, Copy, PartialEq, Eq, Structural)]
pub enum ResourceKind {
    /// Consumables.
    FoodWater(i32),
    /// Breathable air.
    Oxygen(i32),
    /// Rocket fuel.
    Fuel(i32),
}

impl ResourceKind {
    /// The quantity carried by the active variant.
    pub open spec fn spec_amount(self) -> int {
        match self {
            ResourceKind::FoodWater(v) => v as int,
            ResourceKind::Oxygen(v) => v as int,
            ResourceKind::Fuel(v) => v as int,
        }
    }

    /// The same variant, carrying `v` instead.
    pub open spec fn with_amount(self, v: i32) -> ResourceKind {
        match self {
            ResourceKind::FoodWater(_) => ResourceKind::FoodWater(v),
            ResourceKind::Oxygen(_) => ResourceKind::Oxygen(v),
            ResourceKind::Fuel(_) => ResourceKind::Fuel(v),
        }
    }

    /// Whether two tagged quantities carry the same variant.
    pub open spec fn same_variant(self, other: ResourceKind) -> bool {
        match (self, other) {
            (ResourceKind::FoodWater(_), ResourceKind::FoodWater(_)) => true,
            (ResourceKind::Oxygen(_), ResourceKind::Oxygen(_)) => true,
            (ResourceKind::Fuel(_), ResourceKind::Fuel(_)) => true,
            _ => false,
        }
    }

    /// The value after the upper clamp: the variant kept, the amount capped
    /// at [`LEVEL_CEILING`].
    pub open spec fn clamped_high(self) -> ResourceKind {
        if self.spec_amount() > LEVEL_CEILING as int {
            self.with_amount(LEVEL_CEILING)
        } else {
            self
        }
    }

    /// The value after the lower clamp: the variant kept, the amount raised
    /// to [`LEVEL_FLOOR`].
    pub open spec fn clamped_low(self) -> ResourceKind {
        if self.spec_amount() < LEVEL_FLOOR as int {
            self.with_amount(LEVEL_FLOOR)
        } else {
            self
        }
    }

    /// Returns the quantity carried by the active variant.
    pub fn get_amount(&self) -> (r: i32)
        ensures
            r as int == self.spec_amount(),
    {
        match self {
            ResourceKind::FoodWater(v) => *v,
            ResourceKind::Oxygen(v) => *v,
            ResourceKind::Fuel(v) => *v,
        }
    }

    /// Generate a resource with randomized variant and amount.
    ///
    /// The variant is drawn uniformly from the three kinds and the amount
    /// from `[SPAWN_FLOOR, max]`; an upper bound below [`SPAWN_FLOOR`] makes
    /// that range empty, which is rejected explicitly.
    pub fn randomize(max: i32) -> (r: Result<ResourceKind, GameWarning>)
        ensures
            r is Ok <==> max >= SPAWN_FLOOR,
            r matches Ok(k) ==> SPAWN_FLOOR as int <= k.spec_amount() <= max as int,
            r matches Err(w) ==> w == GameWarning::InvalidRange,
    {
        if max < SPAWN_FLOOR {
            return Err(GameWarning::InvalidRange);
        }
        let variant = random_in_range(0, 2);
        let amount = random_in_range(SPAWN_FLOOR, max);
        match variant {
            0 => Ok(ResourceKind::FoodWater(amount)),
            1 => Ok(ResourceKind::Oxygen(amount)),
            _ => Ok(ResourceKind::Fuel(amount)),
        }
    }
}

/// A stock of breathable air.
#[derive(Debug, Clone, Copy, PartialEq, Eq, Structural)]
pub struct Oxygen(pub i32);

impl Oxygen {
    /// The stock's quantity.
    pub open spec fn spec_amount(self) -> int {
        self.0 as int
    }

    /// Creates a stock holding `amount`.
    pub fn new(amount: i32) -> (r: Oxygen)
        ensures
            r.spec_amount() == amount as int,
    {
        Oxygen(amount)
    }

    /// Returns the stock's quantity.
    pub fn get_amount(&self) -> (r: i32)
        ensures
            r as int == self.spec_amount(),
    {
        self.0
    }

    /// Draws a stock uniformly from `[SPAWN_FLOOR, max]`; an upper bound
    /// below [`SPAWN_FLOOR`] is rejected explicitly.
    pub fn randomize(max: i32) -> (r: Result<Oxygen, GameWarning>)
        ensures
            r is Ok <==> max >= SPAWN_FLOOR,
            r matches Ok(s) ==> SPAWN_FLOOR as int <= s.spec_amount() <= max as int,
            r matches Err(w) ==> w == GameWarning::InvalidRange,
    {
        if max < SPAWN_FLOOR {
            return Err(GameWarning::InvalidRange);
        }
        Ok(Oxygen(random_in_range(SPAWN_FLOOR, max)))
    }
}

/// A stock of consumables.
#[derive(Debug, Clone, Copy, PartialEq, Eq, Structural)]
pub struct FoodWater(pub i32);

impl FoodWater {
    /// The stock's quantity.
    pub open spec fn spec_amount(self) -> int {
        self.0 as int
    }

    /// Creates a stock holding `amount`.
    pub fn new(amount: i32) -> (r: FoodWater)
        ensures
            r.spec_amount() == amount as int,
    {
        FoodWater(amount)
    }

    /// Returns the stock's quantity.
    pub fn get_amount(&self) -> (r: i32)
        ensures
            r as int == self.spec_amount(),
    {
        self.0
    }

    /// Draws a stock uniformly from `[SPAWN_FLOOR, max]`; an upper bound
    /// below [`SPAWN_FLOOR`] is rejected explicitly.
    pub fn randomize(max: i32) -> (r: Result<FoodWater, GameWarning>)
        ensures
            r is Ok <==> max >= SPAWN_FLOOR,
            r matches Ok(s) ==> SPAWN_FLOOR as int <= s.spec_amount() <= max as int,
            r matches Err(w) ==> w == GameWarning::InvalidRange,
    {
        if max < SPAWN_FLOOR {
            return Err(GameWarning::InvalidRange);
        }
        Ok(FoodWater(random_in_range(SPAWN_FLOOR, max)))
    }
}

/// A stock of rocket fuel.
#[derive(Debug, Clone, Copy, PartialEq, Eq, Structural)]
pub struct Fuel(pub i32);

impl Fuel {
    /// The stock's quantity.
    pub open spec fn spec_amount(self) -> int {
        self.0 as int
    }

    /// Creates a stock holding `amount`.
    pub fn new(amount: i32) -> (r: Fuel)
        ensures
            r.spec_amount() == amount as int,
    {
        Fuel(amount)
    }

    /// Returns the stock's quantity.
    pub fn get_amount(&self) -> (r: i32)
        ensures
            r as int == self.spec_amount(),
    {
        self.0
    }

    /// Draws a stock uniformly from `[SPAWN_FLOOR, max]`; an upper bound
    /// below [`SPAWN_FLOOR`] is rejected explicitly.
    pub fn randomize(max: i32) -> (r: Result<Fuel, GameWarning>)
        ensures
            r is Ok <==> max >= SPAWN_FLOOR,
            r matches Ok(s) ==> SPAWN_FLOOR as int <= s.spec_amount() <= max as int,
            r matches Err(w) ==> w == GameWarning::InvalidRange,
    {
        if max < SPAWN_FLOOR {
            return Err(GameWarning::InvalidRange);
        }
        Ok(Fuel(random_in_range(SPAWN_FLOOR, max)))
    }
}

/// Level-capping policy: clamping a quantity into the canonical range
/// `[LEVEL_FLOOR, LEVEL_CEILING]`.
pub trait LevelCap: Sized {
    /// How a value looks once its quantities are raised to the lower cap.
    spec fn spec_min_adjusted(self) -> Self;

    /// How a value looks once its quantities are lowered to the upper cap.
    spec fn spec_max_adjusted(self) -> Self;

    /// Raise every quantity below the floor up to it.
    fn adjust_min_level(&mut self)
        ensures
            *final(self) == old(self).spec_min_adjusted(),
    ;

    /// Lower every quantity above the ceiling down to it.
    fn adjust_max_level(&mut self)
        ensures
            *final(self) == old(self).spec_max_adjusted(),
    ;
}

impl LevelCap for ResourceKind {
    open spec fn spec_min_adjusted(self) -> ResourceKind {
        self.clamped_low()
    }

    open spec fn spec_max_adjusted(self) -> ResourceKind {
        self.clamped_high()
    }

    fn adjust_min_level(&mut self) {
        match self {
            ResourceKind::FoodWater(val) => {
                if *val < LEVEL_FLOOR {
                    *val = LEVEL_FLOOR;
                }
            },
            ResourceKind::Oxygen(val) => {
                if *val < LEVEL_FLOOR {
                    *val = LEVEL_FLOOR;
                }
            },
            ResourceKind::Fuel(val) => {
                if *val < LEVEL_FLOOR {
                    *val = LEVEL_FLOOR;
                }
            },
        }
    }

    fn adjust_max_level(&mut self) {
        match self {
            ResourceKind::FoodWater(val) => {
                if *val > LEVEL_CEILING {
                    *val = LEVEL_CEILING;
                }
            },
            ResourceKind::Oxygen(val) => {
                if *val > LEVEL_CEILING {
                    *val = LEVEL_CEILING;
                }
            },
            ResourceKind::Fuel(val) => {
                if *val > LEVEL_CEILING {
                    *val = LEVEL_CEILING;
                }
            },
        }
    }
}

/// Law: the upper clamp leaves the amount at most [`LEVEL_CEILING`], the
/// lower clamp leaves it at least [`LEVEL_FLOOR`], neither changes the
/// variant, and on an amount already inside `[LEVEL_FLOOR, LEVEL_CEILING]`
/// both clamps are identities, so applying them again changes nothing.
pub proof fn lemma_level_cap(k: ResourceKind)
    ensures
        k.clamped_high().spec_amount() <= LEVEL_CEILING as int,
        k.clamped_low().spec_amount() >= LEVEL_FLOOR as int,
        k.clamped_high().same_variant(k),
        k.clamped_low().same_variant(k),
        LEVEL_FLOOR as int <= k.spec_amount() <= LEVEL_CEILING as int ==> k.clamped_high()
            == k && k.clamped_low() == k,
{
}

impl LevelCap for Oxygen {
    open spec fn spec_min_adjusted(self) -> Oxygen {
        if self.spec_amount() < LEVEL_FLOOR as int {
            Oxygen(LEVEL_FLOOR)
        } else {
            self
        }
    }

    open spec fn spec_max_adjusted(self) -> Oxygen {
        if self.spec_amount() > LEVEL_CEILING as int {
            Oxygen(LEVEL_CEILING)
        } else {
            self
        }
    }

    fn adjust_min_level(&mut self) {
        if self.0 < LEVEL_FLOOR {
            self.0 = LEVEL_FLOOR;
        }
    }

    fn adjust_max_level(&mut self) {
        if self.0 > LEVEL_CEILING {
            self.0 = LEVEL_CEILING;
        }
    }
}

impl LevelCap for FoodWater {
    open spec fn spec_min_adjusted(self) -> FoodWater {
        if self.spec_amount() < LEVEL_FLOOR as int {
            FoodWater(LEVEL_FLOOR)
        } else {
            self
        }
    }

    open spec fn spec_max_adjusted(self) -> FoodWater {
        if self.spec_amount() > LEVEL_CEILING as int {
            FoodWater(LEVEL_CEILING)
        } else {
            self
        }
    }

    fn adjust_min_level(&mut self) {
        if self.0 < LEVEL_FLOOR {
            self.0 = LEVEL_FLOOR;
        }
    }

    fn adjust_max_level(&mut self) {
        if self.0 > LEVEL_CEILING {
            self.0 = LEVEL_CEILING;
        }
    }
}

impl LevelCap for Fuel {
    open spec fn spec_min_adjusted(self) -> Fuel {
        if self.spec_amount() < LEVEL_FLOOR as int {
            Fuel(LEVEL_FLOOR)
        } else {
            self
        }
    }

    open spec fn spec_max_adjusted(self) -> Fuel {
        if self.spec_amount() > LEVEL_CEILING as int {
            Fuel(LEVEL_CEILING)
        } else {
            self
        }
    }

    fn adjust_min_level(&mut self) {
        if self.0 < LEVEL_FLOOR {
            self.0 = LEVEL_FLOOR;
        }
    }

    fn adjust_max_level(&mut self) {
        if self.0 > LEVEL_CEILING {
            self.0 = LEVEL_CEILING;
        }
    }
}

/// Uniform access to the quantity a holder keeps of each resource kind.
pub trait GetResourceLevels {
    /// The quantity held of `rsc`'s variant.
    spec fn spec_resource_amount(&self, rsc: ResourceKind) -> int;

    /// Returns the amount of resources available for `rsc`'s variant.
    fn get_resource_amount(&self, rsc: ResourceKind) -> (r: i32)
        ensures
            r as int == self.spec_resource_amount(rsc),
    ;
}

/// A way for ships to store resources mined from the environment: one
/// independently clamped counter per resource kind.
#[derive(Debug, Clone, Copy, PartialEq, Eq, Structural)]
pub struct Storage {
    pub consumable: FoodWater,
    pub oxygen: Oxygen,
    pub fuel: Fuel,
}

impl Storage {
    /// The consumables counter.
    pub open spec fn spec_consumable(self) -> int {
        self.consumable.spec_amount()
    }

    /// The breathable-air counter.
    pub open spec fn spec_oxygen(self) -> int {
        self.oxygen.spec_amount()
    }

    /// The fuel counter.
    pub open spec fn spec_fuel(self) -> int {
        self.fuel.spec_amount()
    }

    /// The counter matching `rsc`'s variant.
    pub open spec fn spec_counter(self, rsc: ResourceKind) -> int {
        match rsc {
            ResourceKind::FoodWater(_) => self.spec_consumable(),
            ResourceKind::Oxygen(_) => self.spec_oxygen(),
            ResourceKind::Fuel(_) => self.spec_fuel(),
        }
    }

    /// Creates a new Storage with the same starting value in all three
    /// counters.
    pub fn new(amount: i32) -> (s: Storage)
        ensures
            s.spec_consumable() == amount as int,
            s.spec_oxygen() == amount as int,
            s.spec_fuel() == amount as int,
    {
        Storage { consumable: FoodWater::new(amount), oxygen: Oxygen(amount), fuel: Fuel(amount) }
    }
}

impl GetResourceLevels for Storage {
    open spec fn spec_resource_amount(&self, rsc: ResourceKind) -> int {
        self.spec_counter(rsc)
    }

    fn get_resource_amount(&self, rsc: ResourceKind) -> (r: i32) {
        match rsc {
            ResourceKind::Fuel(_) => self.fuel.0,
            ResourceKind::Oxygen(_) => self.oxygen.0,
            ResourceKind::FoodWater(_) => self.consumable.0,
        }
    }
}

impl LevelCap for Storage {
    open spec fn spec_min_adjusted(self) -> Storage {
        Storage {
            consumable: self.consumable.spec_min_adjusted(),
            oxygen: self.oxygen.spec_min_adjusted(),
            fuel: self.fuel.spec_min_adjusted(),
        }
    }

    open spec fn spec_max_adjusted(self) -> Storage {
        Storage {
            consumable: self.consumable.spec_max_adjusted(),
            oxygen: self.oxygen.spec_max_adjusted(),
            fuel: self.fuel.spec_max_adjusted(),
        }
    }

    fn adjust_min_level(&mut self) {
        self.consumable.adjust_min_level();
        self.oxygen.adjust_min_level();
        self.fuel.adjust_min_level();
    }

    fn adjust_max_level(&mut self) {
        self.consumable.adjust_max_level();
        self.oxygen.adjust_max_level();
        self.fuel.adjust_max_level();
    }
}

/// Command enums for user input; a command shell dispatches each of them to
/// one or more core calls.
#[derive(Debug, Clone, Copy, PartialEq, Eq, Structural)]
pub enum Commands {
    /// Move command.
    MoveTo,
    /// Mine environmental resources.
    Mine,
    /// Recharge a ship by teleporting to a mothership.
    Recharge,
    /// Show a space ship's info.
    SpaceShipInfo,
    /// Show a mother ship's info.
    MotherShipInfo,
    /// Show resources within a certain distance of the ship.
    Ping,
    /// Offload storage to a mothership.
    Offload,
    /// Default variant if no commands are given. Should do nothing.
    Empty,
}

/// Spaceship docking states.
#[derive(Debug, Clone, Copy, PartialEq, Eq, Structural)]
pub enum SpaceShipDockStatus {
    /// Spaceship is docked.
    Docked,
    /// Spaceship is undocked.
    Undocked,
}

/// Mothership recharge states.
#[derive(Debug, Clone, Copy, PartialEq, Eq, Structural)]
pub enum MotherShipRechargeStatus {
    /// Mothership is recharging a spaceship.
    Charging,
    /// Charging port is vacant.
    Idle,
}

/// Mothership docking states.
#[derive(Debug, Clone, Copy, PartialEq, Eq, Structural)]
pub enum MotherShipDockStatus {
    /// A spaceship is currently docked on the mothership.
    Populated,
    /// Mothership docking area is empty.
    Empty,
}

/// Displays information of an object. Rendering is a caller concern, so the
/// methods carry no contract; display shells implement them for their own
/// ship types.
pub trait GenericInfo {
    /// Displays a ship's general information.
    fn display_info(&self);

    /// Displays a ship's current resources.
    fn display_resources(&self);

    /// Display a ship's current storage.
    fn display_storage(&self);
}

/// Shared trait for ships that can move. Movement policy (fuel spent per
/// distance) belongs to the implementing ship, so the methods carry no
/// contract.
pub trait Move {
    /// Move a ship to a location, taking into account its fuel levels and
    /// distance.
    fn to_location(&mut self, to: Coordinates) -> bool;

    /// Teleports a ship to another, consuming no fuel in the process.
    fn teleport<T>(&mut self, mtr_ship: &T);
}

/// Protocol for holders that can transfer resources, be it receiving or
/// giving. Each implementor pins down what a transfer does to it through the
/// protocol's spec functions.
pub trait TransferResources: Sized {
    /// When a holder accepts a `give_resources` call.
    spec fn spec_give_req(self, rsc: ResourceKind) -> bool;

    /// How giving `rsc` away changes the holder and what the call reports.
    spec fn spec_gave(pre: Self, post: Self, rsc: ResourceKind, ok: bool) -> bool;

    /// How storing `rsc` changes the holder and what the call reports.
    spec fn spec_stored(pre: Self, post: Self, rsc: ResourceKind, ok: bool) -> bool;

    /// Spend resources currently available on a holder.
    fn give_resources(&mut self, rsc: ResourceKind, current_level: i32) -> (ok: bool)
        requires
            old(self).spec_give_req(rsc),
        ensures
            Self::spec_gave(*old(self), *final(self), rsc, ok),
    ;

    /// Store a resource inside the holder's own stock.
    fn receive_to_storage(&mut self, rsc: ResourceKind) -> (ok: bool)
        ensures
            Self::spec_stored(*old(self), *final(self), rsc, ok),
    ;
}

impl Storage {
    /// How the storage looks after a deposit of `rsc`: the matching counter
    /// takes the sum, clamped into `[LEVEL_FLOOR, LEVEL_CEILING]`; the other
    /// two counters keep their values.
    pub open spec fn spec_deposited(self, rsc: ResourceKind) -> Storage {
        let v = clamp_level(self.spec_counter(rsc) + rsc.spec_amount()) as i32;
        match rsc {
            ResourceKind::FoodWater(_) => Storage { consumable: FoodWater(v), ..self },
            ResourceKind::Oxygen(_) => Storage { oxygen: Oxygen(v), ..self },
            ResourceKind::Fuel(_) => Storage { fuel: Fuel(v), ..self },
        }
    }

    /// Receive a resource from a holder that can give one: the source gives
    /// `rsc` away and, when it reports success, the matching counter here
    /// takes the deposit. The two halves are not atomic: a source that
    /// reports failure leaves this storage untouched, and nothing is rolled
    /// back on the source's side.
    pub fn receive_resources<T: TransferResources>(
        &mut self,
        rsc: ResourceKind,
        source: &mut T,
    ) -> (ok: bool)
        requires
            old(source).spec_give_req(rsc),
        ensures
            T::spec_gave(*old(source), *final(source), rsc, ok),
            ok ==> *final(self) == old(self).spec_deposited(rsc),
            !ok ==> *final(self) == *old(self),
    {
        let gave = source.give_resources(rsc, 0);
        if gave {
            self.receive_to_storage(rsc);
        }
        gave
    }

    /// Mine an environment resource: take everything the pickup carries into
    /// the matching counter, clamped at the level cap.
    ///
    /// An empty or negative pickup is reported as exhausted and nothing
    /// changes. Otherwise the pickup is drained to zero; the call reports
    /// whether the deposit moved the counter, a full one being reported as
    /// full storage.
    pub fn get_env_resources(&mut self, env: &mut crate::environment_resources::EnvResource) -> (w:
        GameWarning)
        ensures
            old(env).spec_kind().spec_amount() <= 0 ==> {
                &&& w == GameWarning::ResourceExhausted
                &&& *final(env) == *old(env)
                &&& *final(self) == *old(self)
            },
            old(env).spec_kind().spec_amount() > 0 ==> {
                &&& final(env).spec_kind() == old(env).spec_kind().with_amount(0)
                &&& final(env).spec_coordinates() == old(env).spec_coordinates()
                &&& final(env).spec_id() == old(env).spec_id()
                &&& *final(self) == old(self).spec_deposited(old(env).spec_kind())
                &&& (w == GameWarning::Nominal <==> *final(self) != *old(self))
                &&& (w == GameWarning::ShipStorageFull <==> *final(self) == *old(self))
            },
    {
        let kind = env.get_kind();
        if kind.get_amount() <= 0 {
            return GameWarning::ResourceExhausted;
        }
        let gave = env.give_resources(kind, 0);
        let stored = self.receive_to_storage(kind);
        if stored {
            GameWarning::Nominal
        } else {
            GameWarning::ShipStorageFull
        }
    }
}

/// A quantity clamped into the canonical range `[LEVEL_FLOOR, LEVEL_CEILING]`.
pub open spec fn clamp_level(v: int) -> int {
    if v > LEVEL_CEILING as int {
        LEVEL_CEILING as int
    } else if v < LEVEL_FLOOR as int {
        LEVEL_FLOOR as int
    } else {
        v
    }
}

impl TransferResources for Storage {
    /// A storage accepts any give request: the call is the protocol's
    /// permissive default and touches nothing.
    open spec fn spec_give_req(self, rsc: ResourceKind) -> bool {
        true
    }

    /// A storage hands nothing out: the holder is left untouched, yet the
    /// call reports success.
    open spec fn spec_gave(pre: Self, post: Self, rsc: ResourceKind, ok: bool) -> bool {
        post == pre && ok
    }

    /// A deposit clamps the matching counter and reports whether it moved.
    open spec fn spec_stored(pre: Self, post: Self, rsc: ResourceKind, ok: bool) -> bool {
        post == pre.spec_deposited(rsc) && (ok <==> post != pre)
    }

    fn give_resources(&mut self, rsc: ResourceKind, current_level: i32) -> (ok: bool) {
        true
    }

    fn receive_to_storage(&mut self, rsc: ResourceKind) -> (ok: bool) {
        let amt = rsc.get_amount();
        match rsc {
            ResourceKind::FoodWater(_) => {
                let before = self.consumable.0;
                let sum = (before as i64) + (amt as i64);
                let v: i32 = if sum > (LEVEL_CEILING as i64) {
                    LEVEL_CEILING
                } else if sum < (LEVEL_FLOOR as i64) {
                    LEVEL_FLOOR
                } else {
                    sum as i32
                };
                self.consumable.0 = v;
                v != before
            },
            ResourceKind::Oxygen(_) => {
                let before = self.oxygen.0;
                let sum = (before as i64) + (amt as i64);
                let v: i32 = if sum > (LEVEL_CEILING as i64) {
                    LEVEL_CEILING
                } else if sum < (LEVEL_FLOOR as i64) {
                    LEVEL_FLOOR
                } else {
                    sum as i32
                };
                self.oxygen.0 = v;
                v != before
            },
            ResourceKind::Fuel(_) => {
                let before = self.fuel.0;
                let sum = (before as i64) + (amt as i64);
                let v: i32 = if sum > (LEVEL_CEILING as i64) {
                    LEVEL_CEILING
                } else if sum < (LEVEL_FLOOR as i64) {
                    LEVEL_FLOOR
                } else {
                    sum as i32
                };
                self.fuel.0 = v;
                v != before
            },
        }
    }
}

/// Variants for quadrants, considering the coordinates of an object in the
/// game.
#[derive(Debug, Clone, Copy, PartialEq, Eq, Structural)]
pub enum Quadrants {
    /// Both axes positive.
    First,
    /// Negative x, positive y.
    Second,
    /// Both axes negative.
    Third,
    /// Everything else, zeroes on either axis included.
    Fourth,
}

/// Coordinates of an object in the game, tied to the play area they were
/// generated against.
#[derive(Debug, Clone, Copy, PartialEq, Eq, Structural)]
pub struct Coordinates {
    pub x: i32,
    pub y: i32,
    pub world_size: WorldSize,
}

/// The square of an integer.
pub open spec fn sq(v: int) -> int {
    v * v
}

/// The squared Euclidean distance between two coordinates.
pub open spec fn dist_sq(a: Coordinates, b: Coordinates) -> int {
    sq(a.x as int - b.x as int) + sq(a.y as int - b.y as int)
}

/// The integer square root: the largest `r` with `r * r <= n`, which equals
/// the floor of the real square root of `n`.
pub open spec fn spec_isqrt(n: nat) -> nat
    decreases n,
{
    if n == 0 {
        0
    } else {
        let r = spec_isqrt((n - 1) as nat);
        if (r + 1) * (r + 1) <= n {
            r + 1
        } else {
            r
        }
    }
}

/// The integer square root sits between the two neighbouring perfect squares.
pub proof fn lemma_isqrt_bracket(n: nat)
    ensures
        spec_isqrt(n) * spec_isqrt(n) <= n,
        n < (spec_isqrt(n) + 1) * (spec_isqrt(n) + 1),
    decreases n,
{
    if n == 0 {
        assert(n < (spec_isqrt(n) + 1) * (spec_isqrt(n) + 1)) by (nonlinear_arith)
            requires
                n == 0 && spec_isqrt(n) == 0,
        ;
    } else {
        let m = (n - 1) as nat;
        lemma_isqrt_bracket(m);
        let r = spec_isqrt(m);
        if (r + 1) * (r + 1) <= n {
            assert(spec_isqrt(n) == r + 1);
            assert((r + 1) * (r + 1) < (r + 2) * (r + 2)) by (nonlinear_arith);
        } else {
            assert(spec_isqrt(n) == r);
        }
    }
}

/// Any value bracketed by the neighbouring perfect squares of `n` is the
/// integer square root of `n`.
pub proof fn lemma_isqrt_unique(n: nat, r: nat)
    requires
        r * r <= n,
        n < (r + 1) * (r + 1),
    ensures
        r == spec_isqrt(n),
{
    lemma_isqrt_bracket(n);
    let s = spec_isqrt(n);
    if r < s {
        assert((r + 1) * (r + 1) <= s * s) by (nonlinear_arith)
            requires
                r + 1 <= s,
        ;
    }
    if s < r {
        assert((s + 1) * (s + 1) <= r * r) by (nonlinear_arith)
            requires
                s + 1 <= r,
        ;
    }
}

/// Computes the integer square root of `n` by binary search.
fn isqrt(n: u128) -> (r: u64)
    requires
        n < 0x1000000000000000000,
    ensures
        r as nat == spec_isqrt(n as nat),
{
    let mut lo: u128 = 0;
    let mut hi: u128 = 0x1000000000;
    proof {
        assert((hi as int) * (hi as int) > n as int);
    }
    while lo + 1 < hi
        invariant
            lo < hi <= 0x1000000000,
            (lo as int) * (lo as int) <= n as int,
            (hi as int) * (hi as int) > n as int,
        decreases hi - lo,
    {
        let mid = lo + (hi - lo) / 2;
        proof {
            assert((mid as int) * (mid as int) <= 0x1000000000 * 0x1000000000) by (nonlinear_arith)
                requires
                    0 <= mid as int <= 0x1000000000,
            ;
        }
        if mid * mid <= n {
            lo = mid;
        } else {
            hi = mid;
        }
    }
    proof {
        lemma_isqrt_unique(n as nat, lo as nat);
    }
    lo as u64
}

/// The squared distance is never negative and does not depend on the order of
/// its endpoints.
pub proof fn lemma_dist_sq(a: Coordinates, b: Coordinates)
    ensures
        dist_sq(a, b) >= 0,
        dist_sq(a, b) == dist_sq(b, a),
{
    let px = a.x as int - b.x as int;
    let py = a.y as int - b.y as int;
    assert(px * px >= 0 && px * px == (-px) * (-px)) by (nonlinear_arith);
    assert(py * py >= 0 && py * py == (-py) * (-py)) by (nonlinear_arith);
}

/// The integer-floored Euclidean distance between two coordinates.
pub open spec fn spec_distance(a: Coordinates, b: Coordinates) -> nat {
    spec_isqrt(dist_sq(a, b) as nat)
}

/// Law: the distance from a point to itself is zero, and the distance between
/// two points is the same measured from either end.
pub proof fn lemma_distance(a: Coordinates, b: Coordinates)
    ensures
        spec_distance(a, a) == 0,
        spec_distance(a, b) == spec_distance(b, a),
{
    lemma_dist_sq(a, b);
}

impl Coordinates {
    /// Whether the coordinate lies inside its play area on both axes.
    pub open spec fn spec_in_bounds(self) -> bool {
        &&& self.world_size.low() <= self.x as int <= self.world_size.high()
        &&& self.world_size.low() <= self.y as int <= self.world_size.high()
    }

    /// The quadrant of the plane the coordinate falls in: the first three
    /// quadrants keep their strict sign conditions, and everything else,
    /// zeroes on either axis included, counts as the fourth.
    pub open spec fn spec_quadrant(self) -> Quadrants {
        if self.x > 0 && self.y > 0 {
            Quadrants::First
        } else if self.x < 0 && self.y > 0 {
            Quadrants::Second
        } else if self.x < 0 && self.y < 0 {
            Quadrants::Third
        } else {
            Quadrants::Fourth
        }
    }

    /// Creates a new coordinate. Boundary validity is a separate, explicit
    /// check ([`Coordinates::max_bounds`]), not a constructor guarantee.
    pub fn new(get_x: i32, get_y: i32, w_size: WorldSize) -> (c: Coordinates)
        ensures
            c == (Coordinates { x: get_x, y: get_y, world_size: w_size }),
    {
        Coordinates { x: get_x, y: get_y, world_size: w_size }
    }

    /// Randomly generates a coordinate within bounds of the playable game
    /// area.
    pub fn randomize(w_size: WorldSize) -> (c: Coordinates)
        requires
            w_size.wf(),
        ensures
            c.spec_in_bounds(),
            c.world_size == w_size,
    {
        let (min_v, max_v) = w_size.get_values();
        Coordinates { x: random_in_range(min_v, max_v), y: random_in_range(min_v, max_v), world_size: w_size }
    }

    /// Returns the `(x, y)` pair.
    pub fn get_values(&self) -> (r: (i32, i32))
        ensures
            r == (self.x, self.y),
    {
        (self.x, self.y)
    }

    /// Checks both axes against the play area's bounds; the caller decides
    /// what to report when an axis lies outside.
    pub fn max_bounds(&self) -> (ok: bool)
        ensures
            ok <==> self.spec_in_bounds(),
    {
        let (min_v, max_v) = self.world_size.get_values();
        let x_ok = min_v <= self.x && self.x <= max_v;
        let y_ok = min_v <= self.y && self.y <= max_v;
        x_ok && y_ok
    }

    /// Returns the quadrant the coordinate falls in.
    pub fn get_quadrants(&self) -> (q: Quadrants)
        ensures
            q == self.spec_quadrant(),
    {
        if self.x > 0 && self.y > 0 {
            Quadrants::First
        } else if self.x < 0 && self.y > 0 {
            Quadrants::Second
        } else if self.x < 0 && self.y < 0 {
            Quadrants::Third
        } else {
            Quadrants::Fourth
        }
    }

    /// Returns the Euclidean distance to `from`, floored to an integer.
    pub fn get_distance(&self, from: Coordinates) -> (d: u64)
        ensures
            d as nat == spec_distance(*self, from),
    {
        let dx = (from.x as i64) - (self.x as i64);
        let dy = (from.y as i64) - (self.y as i64);
        proof {
            assert(0 <= (dx as int) * (dx as int) <= 0x10000000000000000) by (nonlinear_arith)
                requires
                    -0x100000000 <= dx as int <= 0x100000000,
            ;
            assert(0 <= (dy as int) * (dy as int) <= 0x10000000000000000) by (nonlinear_arith)
                requires
                    -0x100000000 <= dy as int <= 0x100000000,
            ;
        }
        let dx2 = (dx as i128) * (dx as i128);
        let dy2 = (dy as i128) * (dy as i128);
        let s = (dx2 + dy2) as u128;
        proof {
            lemma_dist_sq(from, *self);
            assert(s as int == dist_sq(from, *self));
        }
        isqrt(s)
    }
}

/// Law: a coordinate with a non-positive axis falls in the fourth quadrant
/// unless it meets the strict second- or third-quadrant sign conditions, and
/// it falls in the first quadrant exactly when both axes are positive.
pub proof fn lemma_quadrant_catch_all(c: Coordinates)
    ensures
        (c.x as int <= 0 || c.y as int <= 0) && !(c.x < 0 && c.y > 0) && !(c.x < 0 && c.y < 0)
            ==> c.spec_quadrant() == Quadrants::Fourth,
        c.spec_quadrant() == Quadrants::First <==> c.x > 0 && c.y > 0,
        c.spec_quadrant() == Quadrants::Second <==> c.x < 0 && c.y > 0,
        c.spec_quadrant() == Quadrants::Third <==> c.x < 0 && c.y < 0,
{
}

} // verus!

