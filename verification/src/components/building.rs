//! Buildings, their kinds and their links to utility networks.
use vstd::prelude::*;

verus! {

/// Building type classification.
#[derive(Debug, Clone, Copy, PartialEq, Eq, Structural)]
pub enum BuildingType {
    Residential,
    Commercial,
    Industrial,
    Service,
    Utility,
    Abandoned,
    Ruin,
}

/// Population capacity of a level-1 building of each type.
pub open spec fn max_population_for(building_type: BuildingType) -> u32 {
    match building_type {
        BuildingType::Residential => 50,
        BuildingType::Commercial => 30,
        BuildingType::Industrial => 100,
        BuildingType::Service => 20,
        BuildingType::Utility => 10,
        BuildingType::Abandoned | BuildingType::Ruin => 0,
    }
}

impl BuildingType {
    /// Residential, commercial and industrial buildings are zoned.
    pub fn is_zoned(&self) -> (z: bool)
        ensures
            z == (*self == BuildingType::Residential || *self == BuildingType::Commercial || *self
                == BuildingType::Industrial),
    {
        match self {
            BuildingType::Residential | BuildingType::Commercial | BuildingType::Industrial => true,
            _ => false,
        }
    }

    /// Every building but abandoned ones and ruins needs power.
    pub fn requires_power(&self) -> (p: bool)
        ensures
            p == !(*self == BuildingType::Abandoned || *self == BuildingType::Ruin),
    {
        match self {
            BuildingType::Abandoned | BuildingType::Ruin => false,
            _ => true,
        }
    }

    /// Every building but abandoned ones and ruins needs water.
    pub fn requires_water(&self) -> (w: bool)
        ensures
            w == !(*self == BuildingType::Abandoned || *self == BuildingType::Ruin),
    {
        match self {
            BuildingType::Abandoned | BuildingType::Ruin => false,
            _ => true,
        }
    }
}

/// The building type of a numeric code from the web front end: 0
/// residential, 1 commercial, 2 industrial, anything else residential.
pub fn building_type_from_code(code: u32) -> (t: BuildingType)
    ensures
        t == if code == 1 {
            BuildingType::Commercial
        } else if code == 2 {
            BuildingType::Industrial
        } else {
            BuildingType::Residential
        },
{
    match code {
        0 => BuildingType::Residential,
        1 => BuildingType::Commercial,
        2 => BuildingType::Industrial,
        _ => BuildingType::Residential,
    }
}

/// A building: its type, level and population.
#[derive(Debug, Clone, Copy)]
pub struct Building {
    pub building_type: BuildingType,
    pub level: u8,
    pub population: u32,
    pub max_population: u32,
}

impl Building {
    /// An empty level-1 building of the given type.
    pub fn new(building_type: BuildingType) -> (b: Self)
        ensures
            b.building_type == building_type,
            b.level == 1,
            b.population == 0,
            b.max_population == max_population_for(building_type),
    {
        Building {
            building_type,
            level: 1,
            population: 0,
            max_population: Self::get_max_pop_for_type(building_type),
        }
    }

    /// An empty residential building of the given level, housing 50 per
    /// level.
    pub fn residential(level: u8) -> (b: Self)
        ensures
            b.building_type == BuildingType::Residential,
            b.level == level,
            b.population == 0,
            b.max_population == level * 50,
    {
        let mut b = Self::new(BuildingType::Residential);
        b.level = level;
        b.max_population = level as u32 * 50;
        b
    }

    /// An empty commercial building of the given level, employing 30 per
    /// level.
    pub fn commercial(level: u8) -> (b: Self)
        ensures
            b.building_type == BuildingType::Commercial,
            b.level == level,
            b.population == 0,
            b.max_population == level * 30,
    {
        let mut b = Self::new(BuildingType::Commercial);
        b.level = level;
        b.max_population = level as u32 * 30;
        b
    }

    fn get_max_pop_for_type(building_type: BuildingType) -> (m: u32)
        ensures
            m == max_population_for(building_type),
    {
        match building_type {
            BuildingType::Residential => 50,
            BuildingType::Commercial => 30,
            BuildingType::Industrial => 100,
            BuildingType::Service => 20,
            BuildingType::Utility => 10,
            BuildingType::Abandoned | BuildingType::Ruin => 0,
        }
    }
}

/// Link from a building to a utility network, if any.
#[derive(Debug, Clone, Copy)]
pub struct GridConnection {
    pub network_id: Option<u32>,
}

impl Default for GridConnection {
    fn default() -> (c: Self)
        ensures
            c.network_id is None,
    {
        GridConnection { network_id: None }
    }
}

/// Service access for hospitals, police and schools.
#[derive(Debug, Clone, Copy)]
pub struct ServiceAccess {
    pub health: u8,
    pub safety: u8,
    pub education: u8,
}

impl Default for ServiceAccess {
    fn default() -> (s: Self)
        ensures
            s.health == 0,
            s.safety == 0,
            s.education == 0,
    {
        ServiceAccess { health: 0, safety: 0, education: 0 }
    }
}

/// Building abandonment state.
#[derive(Debug, Clone, Copy)]
pub struct Abandoned {
    pub ticks_abandoned: u32,
    pub reason: AbandonmentReason,
}

/// Why a building was abandoned.
#[derive(Debug, Clone, Copy, PartialEq, Eq, Structural)]
pub enum AbandonmentReason {
    NoPower,
    NoWater,
    NoFood,
    LowMaintenance,
    Disaster,
}

} // verus!
