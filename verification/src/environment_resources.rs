//! Environment-spawned resource pickups and the transfer protocol they obey.

use vstd::prelude::*;

verus! {

use crate::world::WorldSize;
use crate::{Coordinates, GameWarning, ResourceKind, TransferResources, SPAWN_FLOOR};

/// A resource available in the environment: a tagged quantity at a fixed
/// location, under a stable identifier. Only the quantity is ever mutated
/// after spawning (by a transfer).
#[derive(Debug, Clone, Copy, PartialEq, Eq, Structural)]
pub struct EnvResource {
    pub kind: ResourceKind,
    pub coordinates: Coordinates,
    pub id: i32,
}

/// What a freshly spawned population of pickups looks like: one more entry
/// than `amount` (the generator iterates an inclusive range), sequential
/// identifiers from zero, every quantity drawn from `[SPAWN_FLOOR, at_most]`,
/// and every location inside `play_area`.
pub open spec fn spawned_resources_ok(
    v: Seq<EnvResource>,
    amount: int,
    at_most: int,
    play_area: WorldSize,
) -> bool {
    &&& v.len() == amount + 1
    &&& forall|i: int| 0 <= i < v.len() ==> (#[trigger] v[i]).spec_id() == i
    &&& forall|i: int|
        0 <= i < v.len() ==> SPAWN_FLOOR as int <= (#[trigger] v[i]).spec_kind().spec_amount()
            <= at_most
    &&& forall|i: int|
        0 <= i < v.len() ==> (#[trigger] v[i]).coordinates.world_size == play_area
            && v[i].coordinates.spec_in_bounds()
}

impl EnvResource {
    /// The tagged quantity the pickup carries.
    pub open spec fn spec_kind(self) -> ResourceKind {
        self.kind
    }

    /// The pickup's location.
    pub open spec fn spec_coordinates(self) -> Coordinates {
        self.coordinates
    }

    /// The pickup's identifier.
    pub open spec fn spec_id(self) -> int {
        self.id as int
    }

    /// Spawn one pickup with a randomized kind and a randomized location
    /// inside `play_area`, under the identifier `id_num`.
    pub fn randomize(at_most: i32, id_num: i32, play_area: WorldSize) -> (r: Result<
        EnvResource,
        GameWarning,
    >)
        requires
            play_area.wf(),
        ensures
            r is Ok <==> at_most >= SPAWN_FLOOR,
            r matches Err(w) ==> w == GameWarning::InvalidRange,
            r matches Ok(e) ==> {
                &&& SPAWN_FLOOR as int <= e.spec_kind().spec_amount() <= at_most as int
                &&& e.coordinates.world_size == play_area
                &&& e.coordinates.spec_in_bounds()
                &&& e.spec_id() == id_num as int
            },
    {
        let kind = match ResourceKind::randomize(at_most) {
            Ok(k) => k,
            Err(w) => {
                return Err(w);
            },
        };
        Ok(EnvResource { kind, coordinates: Coordinates::randomize(play_area), id: id_num })
    }

    /// Returns the resource's kind.
    pub fn get_kind(&self) -> (r: ResourceKind)
        ensures
            r == self.spec_kind(),
    {
        self.kind
    }

    /// Returns the resource's coordinates.
    pub fn get_coordinates(&self) -> (r: Coordinates)
        ensures
            r == self.spec_coordinates(),
    {
        self.coordinates
    }

    /// Returns the id of an environment resource.
    pub fn get_id(&self) -> (r: i32)
        ensures
            r as int == self.spec_id(),
    {
        self.id
    }

    /// Spawn a population of pickups for the game world.
    ///
    /// The generator iterates the inclusive range from zero to `amount`, so
    /// it yields `amount + 1` entries. An `amount` that does not fit the
    /// platform's signed 32-bit identifier space is reported by falling back
    /// to an empty population rather than aborting.
    pub fn randomize_world_resources(amount: usize, at_most: i32, play_area: WorldSize) -> (r:
        Result<Vec<EnvResource>, GameWarning>)
        requires
            play_area.wf(),
        ensures
            amount > 0x7fffffff ==> (r matches Ok(v) && v@.len() == 0),
            amount <= 0x7fffffff ==> {
                &&& (r is Ok <==> at_most >= SPAWN_FLOOR)
                &&& (r matches Err(w) ==> w == GameWarning::InvalidRange)
                &&& (r matches Ok(v) ==> spawned_resources_ok(
                    v@,
                    amount as int,
                    at_most as int,
                    play_area,
                ))
            },
    {
        let mut rsc_vec: Vec<EnvResource> = Vec::new();
        if amount > 0x7fffffff {
            return Ok(rsc_vec);
        }
        let mut num: usize = 0;
        while num <= amount
            invariant
                amount <= 0x7fffffff,
                play_area.wf(),
                num <= amount + 1,
                rsc_vec@.len() == num as int,
                num > 0 ==> at_most >= SPAWN_FLOOR,
                forall|i: int| 0 <= i < num as int ==> (#[trigger] rsc_vec@[i]).spec_id() == i,
                forall|i: int|
                    0 <= i < num as int ==> SPAWN_FLOOR as int <= (
                    #[trigger] rsc_vec@[i]).spec_kind().spec_amount() <= at_most as int,
                forall|i: int|
                    0 <= i < num as int ==> (#[trigger] rsc_vec@[i]).coordinates.world_size
                        == play_area && rsc_vec@[i].coordinates.spec_in_bounds(),
            decreases amount + 1 - num,
        {
            match EnvResource::randomize(at_most, num as i32, play_area) {
                Ok(e) => {
                    rsc_vec.push(e);
                },
                Err(w) => {
                    return Err(w);
                },
            }
            num = num + 1;
        }
        Ok(rsc_vec)
    }
}

impl TransferResources for EnvResource {
    /// Giving is accepted whenever a matching variant's remainder fits the
    /// quantity's machine range.
    open spec fn spec_give_req(self, rsc: ResourceKind) -> bool {
        self.kind.same_variant(rsc) ==> -0x80000000 <= self.kind.spec_amount()
            - rsc.spec_amount() <= 0x7fffffff
    }

    open spec fn spec_gave(pre: Self, post: Self, rsc: ResourceKind, ok: bool) -> bool {
        if !pre.kind.same_variant(rsc) {
            // A mismatched variant is left untouched, yet the call still
            // reports success.
            post == pre && ok
        } else if pre.kind.spec_amount() - rsc.spec_amount() == -1 {
            // The one sentinel remainder that counts as insufficient.
            post == pre && !ok
        } else {
            post == (EnvResource {
                kind: pre.kind.with_amount((pre.kind.spec_amount() - rsc.spec_amount()) as i32),
                ..pre
            }) && ok
        }
    }

    /// A pickup stores nothing: the holder is left untouched and the call
    /// reports failure.
    open spec fn spec_stored(pre: Self, post: Self, rsc: ResourceKind, ok: bool) -> bool {
        post == pre && !ok
    }

    fn give_resources(&mut self, rsc: ResourceKind, current_level: i32) -> (ok: bool) {
        match self.kind {
            ResourceKind::FoodWater(val) => {
                match rsc {
                    ResourceKind::FoodWater(rate) => {
                        if val - rate != -1 {
                            self.kind = ResourceKind::FoodWater(val - rate);
                            true
                        } else {
                            false
                        }
                    },
                    _ => true,
                }
            },
            ResourceKind::Oxygen(val) => {
                match rsc {
                    ResourceKind::Oxygen(rate) => {
                        if val - rate != -1 {
                            self.kind = ResourceKind::Oxygen(val - rate);
                            true
                        } else {
                            false
                        }
                    },
                    _ => true,
                }
            },
            ResourceKind::Fuel(val) => {
                match rsc {
                    ResourceKind::Fuel(rate) => {
                        if val - rate != -1 {
                            self.kind = ResourceKind::Fuel(val - rate);
                            true
                        } else {
                            false
                        }
                    },
                    _ => true,
                }
            },
        }
    }

    fn receive_to_storage(&mut self, rsc: ResourceKind) -> (ok: bool) {
        false
    }
}

/// Law: giving a matching kind away from a pickup at level `L` succeeds and
/// leaves `L` minus the requested amount exactly when that remainder is not
/// the sentinel `-1`; on the sentinel the call fails and the pickup is
/// unchanged.
pub proof fn lemma_give_matching(pre: EnvResource, post: EnvResource, rsc: ResourceKind, ok: bool)
    requires
        EnvResource::spec_gave(pre, post, rsc, ok),
        pre.spec_give_req(rsc),
        pre.spec_kind().same_variant(rsc),
    ensures
        ok <==> pre.spec_kind().spec_amount() - rsc.spec_amount() != -1,
        ok ==> post.spec_kind().spec_amount() == pre.spec_kind().spec_amount()
            - rsc.spec_amount() && post.spec_kind().same_variant(pre.spec_kind())
            && post.spec_coordinates() == pre.spec_coordinates() && post.spec_id() == pre.spec_id(),
        !ok ==> post == pre,
{
}

/// Law: giving a mismatched kind is a no-op on the pickup, yet the call still
/// reports success.
pub proof fn lemma_give_mismatched(
    pre: EnvResource,
    post: EnvResource,
    rsc: ResourceKind,
    ok: bool,
)
    requires
        EnvResource::spec_gave(pre, post, rsc, ok),
        !pre.spec_kind().same_variant(rsc),
    ensures
        ok,
        post == pre,
{
}

} // verus!
