//! The bounded play area and the world configuration.

use vstd::prelude::*;

verus! {

use crate::environment_resources::{spawned_resources_ok, EnvResource};
use crate::GameWarning;

/// The game world: the bounded play area, the population of spawned
/// environment resources it owns, and the scalar configuration of the
/// simulation.
#[derive(Debug)]
pub struct World {
    pub spawned_resources: Vec<EnvResource>,
    pub consumption_rate: i32,
    pub recharge_interval: i32,
    pub recharge_rate: i32,
    pub game_tick: u8,
    pub play_area: WorldSize,
}

impl World {
    /// Creates a world with a square play area of side bound `play_area` and
    /// a freshly spawned resource population.
    ///
    /// The population generator yields `spawn_amount_of_resources + 1`
    /// pickups (its range is inclusive); a resource cap below
    /// [`crate::SPAWN_FLOOR`] makes the spawn range empty and is rejected,
    /// and an amount beyond the identifier space falls back to an empty
    /// population.
    pub fn new(
        play_area: i32,
        spawn_amount_of_resources: usize,
        resource_max_cap: i32,
        world_consumption_rate: i32,
        tick: u8,
        world_recharge_rate: i32,
        world_recharge_interval: i32,
    ) -> (r: Result<World, GameWarning>)
        ensures
            spawn_amount_of_resources > 0x7fffffff ==> (r matches Ok(w)
                && w.spawned_resources@.len() == 0),
            spawn_amount_of_resources <= 0x7fffffff ==> {
                &&& (r is Ok <==> resource_max_cap >= crate::SPAWN_FLOOR)
                &&& (r matches Err(w) ==> w == GameWarning::InvalidRange)
                &&& (r matches Ok(w) ==> spawned_resources_ok(
                    w.spawned_resources@,
                    spawn_amount_of_resources as int,
                    resource_max_cap as int,
                    w.play_area,
                ))
            },
            r matches Ok(w) ==> {
                &&& w.play_area.low() == play_area as int
                &&& w.play_area.high() == play_area as int
                &&& w.consumption_rate == world_consumption_rate
                &&& w.game_tick == tick
                &&& w.recharge_rate == world_recharge_rate
                &&& w.recharge_interval == world_recharge_interval
            },
    {
        let area = WorldSize::new(play_area);
        match EnvResource::randomize_world_resources(
            spawn_amount_of_resources,
            resource_max_cap,
            area,
        ) {
            Ok(v) => Ok(
                World {
                    spawned_resources: v,
                    consumption_rate: world_consumption_rate,
                    game_tick: tick,
                    recharge_rate: world_recharge_rate,
                    play_area: area,
                    recharge_interval: world_recharge_interval,
                },
            ),
            Err(w) => Err(w),
        }
    }

    /// Creates a world with every parameter randomized: a play area drawn
    /// from `[100, 200]`, a population of one hundred and one pickups capped
    /// at the level ceiling, a tick drawn from `[1, 4]` and a recharge
    /// interval from `[100, 499]`.
    pub fn randomize() -> (w: World)
        ensures
            100 <= w.play_area.low() <= w.play_area.high() <= 200,
            spawned_resources_ok(w.spawned_resources@, 100, 100, w.play_area),
            w.consumption_rate == 1,
            w.recharge_rate == 1,
            1 <= w.game_tick <= 4,
            100 <= w.recharge_interval <= 499,
    {
        let area = WorldSize::randomize(100, 200);
        let spawned = match EnvResource::randomize_world_resources(100, 100, area) {
            Ok(v) => v,
            Err(_) => unreached(),
        };
        World {
            spawned_resources: spawned,
            consumption_rate: 1,
            recharge_rate: 1,
            game_tick: crate::random_in_range(1, 4) as u8,
            play_area: area,
            recharge_interval: crate::random_in_range(100, 499),
        }
    }
}

/// The bounded play area: an inclusive range `[low, high]` of valid values,
/// reused for both axes.
#[derive(Debug, Clone, Copy, PartialEq, Eq, Structural)]
pub struct WorldSize(pub i32, pub i32);

impl WorldSize {
    /// The lower bound of the play area.
    pub open spec fn low(self) -> int {
        self.0 as int
    }

    /// The upper bound of the play area.
    pub open spec fn high(self) -> int {
        self.1 as int
    }

    /// Well-formedness: the bounds are ordered, so the play area is nonempty.
    pub open spec fn wf(self) -> bool {
        self.low() <= self.high()
    }

    /// Creates a square play area whose two bounds are both `size`.
    pub fn new(size: i32) -> (w: WorldSize)
        ensures
            w.low() == size as int,
            w.high() == size as int,
            w.wf(),
    {
        WorldSize(size, size)
    }

    /// Draws an ordered pair of bounds, each from `[min, max]`.
    ///
    /// Two values are sampled and then ordered, so the call always
    /// terminates; in particular `randomize(s, s)` returns `(s, s)` at once.
    pub fn randomize(min: i32, max: i32) -> (w: WorldSize)
        requires
            min <= max,
        ensures
            min as int <= w.low() <= w.high() <= max as int,
            w.wf(),
    {
        let a = crate::random_in_range(min, max);
        let b = crate::random_in_range(min, max);
        if a <= b {
            WorldSize(a, b)
        } else {
            WorldSize(b, a)
        }
    }

    /// Returns the `(low, high)` bounds of the play area.
    pub fn get_values(&self) -> (r: (i32, i32))
        ensures
            r.0 as int == self.low(),
            r.1 as int == self.high(),
    {
        (self.0, self.1)
    }
}

} // verus!
