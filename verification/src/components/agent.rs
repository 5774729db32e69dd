//! Agents: vehicle kinds, journey plans and commuters.
use vstd::prelude::*;
use bevy_ecs::entity::Entity;
use glam::Vec3;

verus! {

/// Agent type classification.
#[derive(Debug, Clone, Copy, PartialEq, Eq, Structural)]
pub enum AgentType {
    Car,
    Bus,
    Train,
    Emergency,
    Pedestrian,
    FireTruck,
    PoliceCar,
    Ambulance,
    MaintenanceTruck,
}

impl AgentType {
    /// Emergency vehicles: the generic one, fire trucks, police cars and
    /// ambulances.
    pub fn is_emergency(&self) -> (e: bool)
        ensures
            e == (*self == AgentType::Emergency || *self == AgentType::FireTruck || *self
                == AgentType::PoliceCar || *self == AgentType::Ambulance),
    {
        match self {
            AgentType::Emergency | AgentType::FireTruck | AgentType::PoliceCar
            | AgentType::Ambulance => true,
            _ => false,
        }
    }

    /// Public transit vehicles: buses and trains.
    pub fn is_public_transit(&self) -> (t: bool)
        ensures
            t == (*self == AgentType::Bus || *self == AgentType::Train),
    {
        match self {
            AgentType::Bus | AgentType::Train => true,
            _ => false,
        }
    }
}

/// A journey as a list of legs, walked through in order.
pub struct Itinerary {
    pub current_leg: usize,
    pub legs: Vec<JourneyLeg>,
    pub last_validated_version: u64,
}

impl Itinerary {
    /// An itinerary at its first leg, never validated.
    pub fn new(legs: Vec<JourneyLeg>) -> (it: Self)
        ensures
            it.current_leg == 0,
            it.legs@ == legs@,
            it.last_validated_version == 0,
    {
        Itinerary { current_leg: 0, legs, last_validated_version: 0 }
    }

    /// The leg under way, or `None` once all legs are done.
    pub fn current_leg(&self) -> (l: Option<&JourneyLeg>)
        ensures
            l == if self.current_leg < self.legs@.len() {
                Some(&self.legs@[self.current_leg as int])
            } else {
                None
            },
    {
        if self.current_leg < self.legs.len() {
            Some(&self.legs[self.current_leg])
        } else {
            None
        }
    }

    /// Moves on to the next leg.
    pub fn advance_leg(&mut self)
        requires
            old(self).current_leg < usize::MAX,
        ensures
            final(self).current_leg == old(self).current_leg + 1,
            final(self).legs@ == old(self).legs@,
            final(self).last_validated_version == old(self).last_validated_version,
    {
        self.current_leg = self.current_leg + 1;
    }

    /// Whether every leg has been walked through.
    pub fn is_complete(&self) -> (c: bool)
        ensures
            c == (self.current_leg >= self.legs@.len()),
    {
        self.current_leg >= self.legs.len()
    }

    /// Forgets the transit version the itinerary was checked against.
    pub fn invalidate(&mut self)
        ensures
            final(self).last_validated_version == 0,
            final(self).current_leg == old(self).current_leg,
            final(self).legs@ == old(self).legs@,
    {
        self.last_validated_version = 0;
    }
}

/// A single segment of a journey.
#[derive(Debug, Clone, Copy)]
pub enum JourneyLeg {
    Walk { from: Vec3, to: Vec3 },
    Drive { road_segments: Entity },
    Transit { line_id: u32, get_on_stop: Entity, get_off_stop: Entity },
}

/// Pathfinding priority; emergency vehicles have a level of 200 or more.
#[derive(Debug, Clone, Copy)]
pub struct Priority {
    pub level: u8,
}

impl Default for Priority {
    fn default() -> (p: Self)
        ensures
            p.level == 0,
    {
        Priority { level: 0 }
    }
}

impl Priority {
    /// The highest priority.
    pub fn emergency() -> (p: Self)
        ensures
            p.level == 255,
    {
        Priority { level: 255 }
    }

    /// Whether the level is 200 or more.
    pub fn is_emergency(&self) -> (e: bool)
        ensures
            e == (self.level >= 200),
    {
        self.level >= 200
    }
}

/// Commuter stats for citizen agents.
#[derive(Debug, Clone, Copy)]
pub struct Commuter {
    pub home: Entity,
    pub work: Option<Entity>,
    pub current_activity: Activity,
}

/// What a citizen is doing.
#[derive(Debug, Clone, Copy, PartialEq, Eq, Structural)]
pub enum Activity {
    AtHome,
    Commuting,
    AtWork,
    Shopping,
    Emergency,
}

/// Kind of maintenance crew.
#[derive(Debug, Clone, Copy, PartialEq, Eq, Structural)]
pub enum CrewType {
    TrafficWarden,
    ConstructionCrew,
    TowTruck,
}

} // verus!
