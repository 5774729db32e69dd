//! Decisions of the road systems: the two-phase repair workflow.
use vstd::prelude::*;
use bevy_ecs::entity::Entity;
use glam::Vec3;
use crate::components::agent::AgentType;
use crate::components::utilities::RepairState;

verus! {

/// What to do with the construction zone of a road after a repair step.
#[derive(Debug, Clone, Copy, PartialEq, Eq, Structural)]
pub enum ZoneAction {
    Keep,
    Open,
    Close,
}

/// One step of the repair workflow of a road. A pending site moves to
/// draining once a crew was dispatched to it (opening a construction zone);
/// a draining site becomes active once no traffic is left; a reopening site
/// becomes stable (closing the zone). Other states stay.
pub fn repair_step(state: RepairState, traffic_count: u32, crew_dispatched: bool) -> (next: (
    RepairState,
    ZoneAction,
))
    ensures
        next == repair_step_spec(state, traffic_count, crew_dispatched),
        state == RepairState::DrainingTraffic && traffic_count > 0 ==> next == (
            RepairState::DrainingTraffic,
            ZoneAction::Keep,
        ),
        next.0 == RepairState::RepairActive && state != RepairState::RepairActive ==> state
            == RepairState::DrainingTraffic && traffic_count == 0,
{
    match state {
        RepairState::PendingRedirection => {
            if crew_dispatched {
                (RepairState::DrainingTraffic, ZoneAction::Open)
            } else {
                (RepairState::PendingRedirection, ZoneAction::Keep)
            }
        },
        RepairState::DrainingTraffic => {
            if traffic_count == 0 {
                (RepairState::RepairActive, ZoneAction::Keep)
            } else {
                (RepairState::DrainingTraffic, ZoneAction::Keep)
            }
        },
        RepairState::RepairActive => (RepairState::RepairActive, ZoneAction::Keep),
        RepairState::Reopening => (RepairState::Stable, ZoneAction::Close),
        RepairState::Stable => (RepairState::Stable, ZoneAction::Keep),
    }
}

/// Position of a state along the repair workflow.
pub open spec fn repair_order(s: RepairState) -> int {
    match s {
        RepairState::Stable => 0,
        RepairState::PendingRedirection => 1,
        RepairState::DrainingTraffic => 2,
        RepairState::RepairActive => 3,
        RepairState::Reopening => 4,
    }
}

/// A repair step never skips a state: it stays, moves to the next state of
/// the workflow, or goes from reopening back to stable. A construction zone
/// is opened only when entering the draining state and closed only when the
/// road becomes stable again.
pub proof fn lemma_repair_step_is_gradual(state: RepairState, traffic_count: u32, crew_dispatched: bool)
    ensures
        ({
            let (next, action) = repair_step_spec(state, traffic_count, crew_dispatched);
            &&& next == state || repair_order(next) == repair_order(state) + 1 || (state
                == RepairState::Reopening && next == RepairState::Stable)
            &&& action == ZoneAction::Open ==> next == RepairState::DrainingTraffic
            &&& action == ZoneAction::Close ==> next == RepairState::Stable
        }),
{
}

/// A draining site keeps draining while any vehicle is still on the road,
/// whatever the crew flag, and starts its repair as soon as none is left.
/// No other state enters the active repair.
pub proof fn lemma_repair_waits_for_empty_road(
    state: RepairState,
    traffic_count: u32,
    crew_dispatched: bool,
)
    ensures
        traffic_count > 0 ==> repair_step_spec(
            RepairState::DrainingTraffic,
            traffic_count,
            crew_dispatched,
        ) == (RepairState::DrainingTraffic, ZoneAction::Keep),
        repair_step_spec(RepairState::DrainingTraffic, 0, crew_dispatched) == (
            RepairState::RepairActive,
            ZoneAction::Keep,
        ),
        repair_step_spec(state, traffic_count, crew_dispatched).0 == RepairState::RepairActive
            && state != RepairState::RepairActive ==> state == RepairState::DrainingTraffic
            && traffic_count == 0,
{
}

/// The result of `repair_step`, as a spec function.
pub open spec fn repair_step_spec(state: RepairState, traffic_count: u32, crew_dispatched: bool) -> (
    RepairState,
    ZoneAction,
) {
    match state {
        RepairState::PendingRedirection => if crew_dispatched {
            (RepairState::DrainingTraffic, ZoneAction::Open)
        } else {
            (RepairState::PendingRedirection, ZoneAction::Keep)
        },
        RepairState::DrainingTraffic => if traffic_count == 0 {
            (RepairState::RepairActive, ZoneAction::Keep)
        } else {
            (RepairState::DrainingTraffic, ZoneAction::Keep)
        },
        RepairState::Reopening => (RepairState::Stable, ZoneAction::Close),
        _ => (state, ZoneAction::Keep),
    }
}

/// Current tick counter of the road systems.
pub struct CurrentTick(pub u64);

impl Default for CurrentTick {
    fn default() -> (t: Self)
        ensures
            t.0 == 0,
    {
        CurrentTick(0)
    }
}

/// Pending path requests.
pub struct PathRequestQueue {
    pub requests: Vec<PathRequest>,
}

impl Default for PathRequestQueue {
    fn default() -> (q: Self)
        ensures
            q.requests@.len() == 0,
    {
        PathRequestQueue { requests: Vec::new() }
    }
}

/// A request for a path from `start` to `destination`.
#[derive(Debug, Clone, Copy)]
pub struct PathRequest {
    pub entity: Entity,
    pub start: Vec3,
    pub destination: Vec3,
    pub agent_type: AgentType,
}

} // verus!
