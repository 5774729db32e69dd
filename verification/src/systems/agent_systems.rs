//! Decisions of the agent systems: dispatching and boarding transit.
use vstd::prelude::*;
use bevy_ecs::entity::Entity;
use crate::components::agent::AgentType;
use crate::components::transport::{TransitMode, WaitingQueue};
use crate::components::utilities::UtilityDepotType;

verus! {

/// Free seats of a vehicle: capacity minus passengers, or zero when full.
pub fn seats_available(max_passengers: u16, current_passengers: u16) -> (seats: u16)
    ensures
        seats == if current_passengers <= max_passengers {
            max_passengers - current_passengers
        } else {
            0
        },
{
    max_passengers.saturating_sub(current_passengers)
}

/// Whether a depot of the given type dispatches vehicles for lines of the
/// given mode: bus depots serve bus lines, train yards train lines.
pub fn depot_serves(mode: TransitMode, depot_type: UtilityDepotType) -> (serves: bool)
    ensures
        serves == match mode {
            TransitMode::Bus => depot_type == UtilityDepotType::BusDepot,
            TransitMode::Train => depot_type == UtilityDepotType::TrainYard,
        },
{
    match mode {
        TransitMode::Bus => depot_type == UtilityDepotType::BusDepot,
        TransitMode::Train => depot_type == UtilityDepotType::TrainYard,
    }
}

/// The kind of vehicle a line of the given mode runs.
pub fn transit_agent_type(mode: TransitMode) -> (t: AgentType)
    ensures
        t == match mode {
            TransitMode::Bus => AgentType::Bus,
            TransitMode::Train => AgentType::Train,
        },
{
    match mode {
        TransitMode::Bus => AgentType::Bus,
        TransitMode::Train => AgentType::Train,
    }
}

/// Boards waiting agents onto a vehicle at a stop: as many as there are
/// free seats, first come first served. Returns the agents that boarded.
pub fn board_waiting(max_passengers: u16, current_passengers: &mut u16, queue: &mut WaitingQueue) -> (boarded: Vec<Entity>)
    ensures
        ({
            let seats = if *old(current_passengers) <= max_passengers {
                max_passengers - *old(current_passengers)
            } else {
                0
            };
            let k = if seats < old(queue).agents@.len() {
                seats as int
            } else {
                old(queue).agents@.len() as int
            };
            &&& boarded@ == old(queue).agents@.take(k)
            &&& final(queue).agents@ == old(queue).agents@.skip(k)
            &&& final(queue).max_capacity == old(queue).max_capacity
            &&& *final(current_passengers) == *old(current_passengers) + k
        }),
        // A vehicle within its capacity stays within it.
        *old(current_passengers) <= max_passengers ==> *final(current_passengers) <= max_passengers,
{
    let seats = seats_available(max_passengers, *current_passengers);
    let to_board = if (seats as usize) < queue.agents.len() {
        seats as usize
    } else {
        queue.agents.len()
    };
    let boarded = queue.remove_agent(to_board);
    *current_passengers = *current_passengers + to_board as u16;
    boarded
}

} // verus!
