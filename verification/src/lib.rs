//! City simulation core: grid encoding, utility networks, transit and
//! maintenance rules, verified with Verus.

pub mod components;
pub mod external;
pub mod resources;
pub mod systems;
pub mod utils;
