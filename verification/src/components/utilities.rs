//! Utility networks, repair workflow states, depots and the tunnel clip map.
use vstd::prelude::*;

verus! {

/// Which network a building belongs to.
#[derive(Debug, Clone, Copy)]
pub struct NetworkMember {
    pub network_id: u32,
    pub network_type: NetworkType,
}

/// Kind of utility network.
#[derive(Debug, Clone, Copy, PartialEq, Eq, Structural)]
pub enum NetworkType {
    Power,
    Water,
}

/// State of a repair site. Phase one (redirection, draining) still lets
/// emergency vehicles through; phase two (active repair) does not.
#[derive(Debug, Clone, Copy, PartialEq, Eq, Structural)]
pub enum RepairState {
    Stable,
    PendingRedirection,
    DrainingTraffic,
    RepairActive,
    Reopening,
}

impl RepairState {
    /// Redirection pending or traffic draining.
    pub fn is_phase1(&self) -> (p: bool)
        ensures
            p == (*self == RepairState::PendingRedirection || *self
                == RepairState::DrainingTraffic),
    {
        match self {
            RepairState::PendingRedirection | RepairState::DrainingTraffic => true,
            _ => false,
        }
    }

    /// Repair under way.
    pub fn is_phase2(&self) -> (p: bool)
        ensures
            p == (*self == RepairState::RepairActive),
    {
        match self {
            RepairState::RepairActive => true,
            _ => false,
        }
    }

    /// Emergency vehicles may pass during phase one only.
    pub fn allows_emergency(&self) -> (a: bool)
        ensures
            a == (*self == RepairState::PendingRedirection || *self
                == RepairState::DrainingTraffic),
    {
        self.is_phase1()
    }
}

/// Kind of depot.
#[derive(Debug, Clone, Copy, PartialEq, Eq, Structural)]
pub enum UtilityDepotType {
    BusDepot,
    TrainYard,
}

/// Vehicles of a depot: how many are in, out of how many it owns.
#[derive(Debug, Clone, Copy)]
pub struct VehiclePool {
    pub available_vehicles: u16,
    pub total_vehicles: u16,
}

/// Sends one vehicle of the pool out.
pub fn take_vehicle(pool: &mut VehiclePool)
    requires
        old(pool).available_vehicles > 0,
    ensures
        final(pool).available_vehicles == old(pool).available_vehicles - 1,
        final(pool).total_vehicles == old(pool).total_vehicles,
{
    pool.available_vehicles = pool.available_vehicles - 1;
}

/// Brings one vehicle back, unless every vehicle of the pool is already in.
pub fn return_vehicle(pool: &mut VehiclePool)
    ensures
        final(pool).available_vehicles == if old(pool).available_vehicles < old(pool).total_vehicles {
            old(pool).available_vehicles + 1
        } else {
            old(pool).available_vehicles as int
        },
        final(pool).total_vehicles == old(pool).total_vehicles,
        // A pool never holds more vehicles than it owns.
        old(pool).available_vehicles <= old(pool).total_vehicles ==> final(pool).available_vehicles
            <= final(pool).total_vehicles,
{
    if pool.available_vehicles < pool.total_vehicles {
        pool.available_vehicles = pool.available_vehicles + 1;
    }
}

/// Clip map for tunnel entrances: one flag per cell, row by row.
#[derive(Debug, Clone)]
pub struct ClipMap {
    pub holes: Vec<bool>,
    pub width: usize,
    pub height: usize,
}

impl ClipMap {
    /// Flat index of `(x, y)`.
    pub open spec fn flat_index(&self, x: int, y: int) -> int {
        y * self.width + x
    }

    /// Whether the flat index of `(x, y)` fits in a `usize`.
    pub open spec fn index_fits(&self, x: usize, y: usize) -> bool {
        y * self.width + x <= usize::MAX
    }

    /// The flag of `(x, y)`, false past the end of the map.
    pub open spec fn hole_at(&self, x: int, y: int) -> bool {
        let i = self.flat_index(x, y);
        if 0 <= i < self.holes@.len() {
            self.holes@[i]
        } else {
            false
        }
    }

    /// A `width` by `height` map without holes.
    pub fn new(width: usize, height: usize) -> (m: Self)
        requires
            width * height <= usize::MAX,
        ensures
            m.width == width,
            m.height == height,
            m.holes@.len() == width * height,
            forall|i: int| 0 <= i < m.holes@.len() ==> !#[trigger] m.holes@[i],
    {
        let holes: Vec<bool> = vec![false; width * height];
        proof {
            assert forall|i: int| 0 <= i < holes@.len() implies !#[trigger] holes@[i] by {
                assert(cloned(false, holes@[i]));
            }
        }
        ClipMap { holes, width, height }
    }

    /// Whether `(x, y)` has a hole; false past the end of the map.
    pub fn has_hole(&self, x: usize, y: usize) -> (h: bool)
        requires
            self.index_fits(x, y),
        ensures
            h == self.hole_at(x as int, y as int),
    {
        let idx = y * self.width + x;
        if idx < self.holes.len() {
            self.holes[idx]
        } else {
            false
        }
    }

    /// Sets the flag of `(x, y)`; does nothing past the end of the map.
    pub fn set_hole(&mut self, x: usize, y: usize, has_hole: bool)
        requires
            old(self).index_fits(x, y),
        ensures
            final(self).width == old(self).width,
            final(self).height == old(self).height,
            old(self).flat_index(x as int, y as int) < old(self).holes@.len() ==> final(self).holes@ == old(self).holes@.update(
                old(self).flat_index(x as int, y as int),
                has_hole,
            ),
            old(self).flat_index(x as int, y as int) >= old(self).holes@.len() ==> final(self).holes@ == old(self).holes@,
            // Reading the cell back gives what was written, when it exists.
            final(self).hole_at(x as int, y as int) == (has_hole && old(self).flat_index(
                x as int,
                y as int,
            ) < old(self).holes@.len()),
    {
        let idx = y * self.width + x;
        if idx < self.holes.len() {
            self.holes.set(idx, has_hole);
        }
    }
}

} // verus!
