//! Roads: auto-tiling masks, lane accounting, connectivity records.
use vstd::prelude::*;
use vstd::arithmetic::power2::pow2;
use vstd::bits::{lemma_u8_shl_is_mul, lemma_u8_pow2_no_overflow};
use bevy_ecs::entity::Entity;
use glam::Vec3;

verus! {

/// Road type determining visuals and behaviour.
#[derive(Debug, Clone, Copy, PartialEq, Eq, Structural)]
pub enum RoadType {
    Surface,
    Embankment,
    Bridge,
    Tunnel,
}

impl Default for RoadType {
    fn default() -> (t: Self)
        ensures
            t == RoadType::Surface,
    {
        RoadType::Surface
    }
}

/// 4-bit road mask for auto-tiling: one bit per neighbouring road.
pub struct RoadMask;

impl RoadMask {
    /// Mask bit of a road to the north.
    pub const NORTH: u8 = 1;
    /// Mask bit of a road to the east.
    pub const EAST: u8 = 2;
    /// Mask bit of a road to the south.
    pub const SOUTH: u8 = 4;
    /// Mask bit of a road to the west.
    pub const WEST: u8 = 8;

    /// The mask of a cell from which of its four neighbours are roads: north
    /// counts 1, east 2, south 4 and west 8.
    pub fn from_neighbors(n: bool, e: bool, s: bool, w: bool) -> (m: u8)
        ensures
            m == (if n { 1int } else { 0 }) + (if e { 2int } else { 0 }) + (if s {
                4int
            } else {
                0
            }) + (if w { 8int } else { 0 }),
    {
        let a: u8 = if n { Self::NORTH } else { 0 };
        let b: u8 = if e { Self::EAST } else { 0 };
        let c: u8 = if s { Self::SOUTH } else { 0 };
        let d: u8 = if w { Self::WEST } else { 0 };
        assert(a | b | c | d == a + b + c + d) by (bit_vector)
            requires
                a == 0 || a == 1,
                b == 0 || b == 2,
                c == 0 || c == 4,
                d == 0 || d == 8,
        ;
        a | b | c | d
    }
}

/// Number of open lanes: the lanes that are not closed.
pub fn passable_lane_count(total_lanes: u8, closed_lanes: u8) -> (n: u8)
    ensures
        n == if closed_lanes <= total_lanes {
            total_lanes - closed_lanes
        } else {
            0
        },
{
    total_lanes.saturating_sub(closed_lanes)
}

/// Whether a road with `closed_lanes` of its `total_lanes` closed still has
/// an open lane.
pub fn has_open_lane(total_lanes: u8, closed_lanes: u8) -> (open: bool)
    requires
        closed_lanes <= total_lanes,
    ensures
        open == (closed_lanes < total_lanes),
{
    (total_lanes - closed_lanes) > 0
}

/// Bit mask with one low bit per open lane.
pub fn open_lane_bitmask(total_lanes: u8, closed_lanes: u8) -> (mask: u8)
    requires
        (if closed_lanes <= total_lanes {
            total_lanes - closed_lanes
        } else {
            0
        }) < 8,
    ensures
        mask + 1 == pow2(
            (if closed_lanes <= total_lanes {
                total_lanes - closed_lanes
            } else {
                0
            }) as nat,
        ),
{
    let open = passable_lane_count(total_lanes, closed_lanes);
    proof {
        lemma_u8_pow2_no_overflow(open as nat);
        lemma_u8_shl_is_mul(1, open);
        vstd::arithmetic::power2::lemma_pow2_pos(open as nat);
    }
    (1u8 << open).wrapping_sub(1)
}

/// Start and end nodes of a road segment in the road graph.
#[derive(Debug, Clone, Copy)]
pub struct RoadConnection {
    pub start_node: Entity,
    pub end_node: Entity,
}

/// Node of the road graph.
#[derive(Debug, Clone, Copy)]
pub struct RoadNode {
    pub position: Vec3,
    pub is_intersection: bool,
}

impl RoadNode {
    /// A plain node at `pos`.
    pub fn new(pos: Vec3) -> (node: Self)
        ensures
            node.position == pos,
            !node.is_intersection,
    {
        RoadNode { position: pos, is_intersection: false }
    }

    /// An intersection at `pos`.
    pub fn intersection(pos: Vec3) -> (node: Self)
        ensures
            node.position == pos,
            node.is_intersection,
    {
        RoadNode { position: pos, is_intersection: true }
    }
}

/// Number of agents on a road.
#[derive(Debug, Clone, Copy)]
pub struct TrafficCounter {
    pub count: u32,
}

impl Default for TrafficCounter {
    fn default() -> (c: Self)
        ensures
            c.count == 0,
    {
        TrafficCounter { count: 0 }
    }
}

/// Visual feedback after a repair, fading over a number of ticks.
#[derive(Debug, Clone, Copy)]
pub struct RepairTint {
    pub duration_ticks: u32,
    pub max_duration: u32,
}

impl RepairTint {
    /// A tint lasting `duration` ticks.
    pub fn new(duration: u32) -> (t: Self)
        ensures
            t.duration_ticks == duration,
            t.max_duration == duration,
    {
        RepairTint { duration_ticks: duration, max_duration: duration }
    }
}

} // verus!
