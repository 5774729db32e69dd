//! Decision logic of the simulation systems.

pub mod agent_systems;
pub mod maintenance_systems;
pub mod nature_systems;
pub mod road_systems;
pub mod utility_systems;
