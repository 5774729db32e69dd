use bevy_ecs::entity::Entity;
use city_simulator::components::agent::AgentType;
use city_simulator::components::maintenance::UnderConstruction;
use city_simulator::components::nature::DisasterType;
use city_simulator::components::transport::{TransitMode, WaitingQueue};
use city_simulator::components::utilities::{RepairState, UtilityDepotType};
use city_simulator::systems::agent_systems::{board_waiting, depot_serves, seats_available, transit_agent_type};
use city_simulator::systems::maintenance_systems::{construction_countdown, disaster_type_for};
use city_simulator::systems::road_systems::{repair_step, ZoneAction};

fn e(i: u32) -> Entity {
    Entity::from_raw_u32(i).unwrap()
}

#[test]
fn repair_workflow() {
    assert_eq!(
        repair_step(RepairState::PendingRedirection, 5, false),
        (RepairState::PendingRedirection, ZoneAction::Keep)
    );
    assert_eq!(
        repair_step(RepairState::PendingRedirection, 5, true),
        (RepairState::DrainingTraffic, ZoneAction::Open)
    );
    assert_eq!(repair_step(RepairState::DrainingTraffic, 2, false), (RepairState::DrainingTraffic, ZoneAction::Keep));
    assert_eq!(repair_step(RepairState::DrainingTraffic, 0, false), (RepairState::RepairActive, ZoneAction::Keep));
    assert_eq!(repair_step(RepairState::RepairActive, 0, true), (RepairState::RepairActive, ZoneAction::Keep));
    assert_eq!(repair_step(RepairState::Reopening, 3, false), (RepairState::Stable, ZoneAction::Close));
    assert_eq!(repair_step(RepairState::Stable, 0, true), (RepairState::Stable, ZoneAction::Keep));
}

#[test]
fn seats() {
    assert_eq!(seats_available(50, 20), 30);
    assert_eq!(seats_available(50, 60), 0);
}

#[test]
fn boarding_fills_free_seats_in_order() {
    let mut queue = WaitingQueue::new(10);
    for i in 1..=5 {
        queue.add_agent(e(i));
    }
    let mut current = 47u16;
    let boarded = board_waiting(50, &mut current, &mut queue);
    assert_eq!(boarded, vec![e(1), e(2), e(3)]);
    assert_eq!(current, 50);
    assert_eq!(queue.agents, vec![e(4), e(5)]);
    let none = board_waiting(50, &mut current, &mut queue);
    assert!(none.is_empty());
    assert_eq!(current, 50);
}

#[test]
fn depots_serve_their_mode() {
    assert!(depot_serves(TransitMode::Bus, UtilityDepotType::BusDepot));
    assert!(!depot_serves(TransitMode::Bus, UtilityDepotType::TrainYard));
    assert!(depot_serves(TransitMode::Train, UtilityDepotType::TrainYard));
    assert_eq!(transit_agent_type(TransitMode::Bus), AgentType::Bus);
    assert_eq!(transit_agent_type(TransitMode::Train), AgentType::Train);
}

#[test]
fn construction_counts_down() {
    let mut site = UnderConstruction { remaining_ticks: 60 };
    assert!(!construction_countdown(&mut site, 1));
    assert_eq!(site.remaining_ticks, 59);
    assert!(construction_countdown(&mut site, 59));
    assert_eq!(site.remaining_ticks, 59);
}

#[test]
fn disaster_kinds() {
    assert_eq!(disaster_type_for(0), DisasterType::Fire);
    assert_eq!(disaster_type_for(5), DisasterType::Tornado);
    assert_eq!(disaster_type_for(10), DisasterType::Earthquake);
    assert_eq!(disaster_type_for(u32::MAX), DisasterType::Flood);
}
