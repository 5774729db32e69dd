//! Components of the simulation: the data attached to entities.

pub mod agent;
pub mod building;
pub mod grid;
pub mod maintenance;
pub mod nature;
pub mod road;
pub mod transport;
pub mod utilities;
