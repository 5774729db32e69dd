use bevy_ecs::entity::Entity;
use city_simulator::components::agent::{AgentType, Itinerary, JourneyLeg, Priority};
use city_simulator::components::building::{building_type_from_code, Building, BuildingType, GridConnection, ServiceAccess};

#[test]
fn agent_type_classes() {
    assert!(AgentType::FireTruck.is_emergency());
    assert!(AgentType::Emergency.is_emergency());
    assert!(AgentType::PoliceCar.is_emergency());
    assert!(AgentType::Ambulance.is_emergency());
    assert!(!AgentType::Car.is_emergency());
    assert!(AgentType::Bus.is_public_transit());
    assert!(AgentType::Train.is_public_transit());
    assert!(!AgentType::Pedestrian.is_public_transit());
}

#[test]
fn priority_levels() {
    assert!(!Priority::default().is_emergency());
    assert_eq!(Priority::emergency().level, 255);
    assert!(Priority::emergency().is_emergency());
    assert!(Priority { level: 200 }.is_emergency());
    assert!(!Priority { level: 199 }.is_emergency());
}

#[test]
fn itinerary_walks_its_legs() {
    let stop = Entity::from_raw_u32(1).unwrap();
    let legs = vec![
        JourneyLeg::Drive { road_segments: stop },
        JourneyLeg::Transit { line_id: 4, get_on_stop: stop, get_off_stop: stop },
    ];
    let mut it = Itinerary::new(legs);
    assert!(!it.is_complete());
    assert!(matches!(it.current_leg(), Some(JourneyLeg::Drive { .. })));
    it.advance_leg();
    assert!(matches!(it.current_leg(), Some(JourneyLeg::Transit { line_id: 4, .. })));
    it.advance_leg();
    assert!(it.is_complete());
    assert!(it.current_leg().is_none());
    it.last_validated_version = 9;
    it.invalidate();
    assert_eq!(it.last_validated_version, 0);
}

#[test]
fn building_types() {
    assert!(BuildingType::Residential.is_zoned());
    assert!(BuildingType::Industrial.is_zoned());
    assert!(!BuildingType::Service.is_zoned());
    assert!(BuildingType::Utility.requires_power());
    assert!(!BuildingType::Ruin.requires_power());
    assert!(!BuildingType::Abandoned.requires_water());
    assert!(BuildingType::Commercial.requires_water());
}

#[test]
fn building_capacities() {
    assert_eq!(Building::new(BuildingType::Residential).max_population, 50);
    assert_eq!(Building::new(BuildingType::Commercial).max_population, 30);
    assert_eq!(Building::new(BuildingType::Industrial).max_population, 100);
    assert_eq!(Building::new(BuildingType::Service).max_population, 20);
    assert_eq!(Building::new(BuildingType::Utility).max_population, 10);
    assert_eq!(Building::new(BuildingType::Ruin).max_population, 0);
    let b = Building::new(BuildingType::Industrial);
    assert_eq!(b.level, 1);
    assert_eq!(b.population, 0);
}

#[test]
fn leveled_buildings() {
    let r = Building::residential(3);
    assert_eq!(r.level, 3);
    assert_eq!(r.max_population, 150);
    assert_eq!(r.building_type, BuildingType::Residential);
    let c = Building::commercial(255);
    assert_eq!(c.max_population, 7650);
    assert_eq!(c.building_type, BuildingType::Commercial);
}

#[test]
fn building_codes() {
    assert_eq!(building_type_from_code(0), BuildingType::Residential);
    assert_eq!(building_type_from_code(1), BuildingType::Commercial);
    assert_eq!(building_type_from_code(2), BuildingType::Industrial);
    assert_eq!(building_type_from_code(7), BuildingType::Residential);
}

#[test]
fn building_defaults() {
    assert!(GridConnection::default().network_id.is_none());
    let s = ServiceAccess::default();
    assert_eq!((s.health, s.safety, s.education), (0, 0, 0));
}
