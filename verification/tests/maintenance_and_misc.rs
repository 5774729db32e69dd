use bevy_ecs::entity::Entity;
use city_simulator::components::maintenance::{
    push_bounded, CommandBuffer, DirtySector, EntityCommand, EntityType, EventType, EntityVersion, FreeList, RequestQueue,
    ToolMode, UnderConstruction,
};
use city_simulator::components::road::{
    has_open_lane, open_lane_bitmask, passable_lane_count, RepairTint, RoadMask, RoadNode, RoadType,
    TrafficCounter,
};
use city_simulator::components::utilities::{return_vehicle, take_vehicle, ClipMap, RepairState, VehiclePool};
use city_simulator::resources::{ActiveFires, CurrentTick, NatureSystem, OverlayMode, TransitVersion};
use city_simulator::utils::math::spatial_hash;
use glam::Vec3;

#[test]
fn dirty_sector_flags() {
    let mut s = DirtySector::new(2, 3);
    assert!(!s.is_dirty);
    s.mark_dirty();
    assert!(s.is_dirty);
    s.clear();
    assert!(!s.is_dirty);
    assert_eq!((s.sector_x, s.sector_y), (2, 3));
}

#[test]
fn free_list_is_last_in_first_out() {
    let mut f = FreeList::new();
    assert!(!f.has_available());
    assert_eq!(f.acquire(), None);
    f.release(4);
    f.release(9);
    assert!(f.has_available());
    assert_eq!(f.acquire(), Some(9));
    assert_eq!(f.acquire(), Some(4));
    assert_eq!(f.acquire(), None);
}

#[test]
fn entity_versions() {
    let v = EntityVersion::new(3);
    assert_eq!(v.generation, 1);
    let mut w = v;
    assert!(v.matches(&w));
    w.recycle();
    assert_eq!(w.generation, 2);
    assert!(!v.matches(&w));
    assert!(!EntityVersion::new(4).matches(&v));
}

#[test]
fn request_queue_drains_in_order() {
    let mut q: RequestQueue<u32> = RequestQueue::new();
    assert!(q.is_empty());
    q.push(1);
    q.push(2);
    assert!(!q.is_empty());
    assert_eq!(q.drain(), vec![1, 2]);
    assert!(q.is_empty());
}

#[test]
fn command_buffer() {
    let mut b = CommandBuffer::new();
    b.push(EntityCommand::Spawn { entity_type: EntityType::Road, position: (1, 2) });
    b.push(EntityCommand::Despawn { entity: Entity::from_raw_u32(5).unwrap() });
    assert_eq!(b.commands.len(), 2);
    b.clear();
    assert!(b.commands.is_empty());
}

#[test]
fn bounded_log_drops_oldest() {
    let mut log: Vec<u32> = Vec::new();
    for i in 0..5 {
        push_bounded(&mut log, 3, i);
    }
    assert_eq!(log, vec![2, 3, 4]);
}

#[test]
fn defaults() {
    assert_eq!(ToolMode::default(), ToolMode::NoTool);
    assert_eq!(RoadType::default(), RoadType::Surface);
    assert_eq!(TrafficCounter::default().count, 0);
    assert_eq!(CurrentTick::default().0, 0);
    assert_eq!(TransitVersion::default().0, 0);
    assert!(ActiveFires::default().fires.is_empty());
    assert!(matches!(OverlayMode::default(), OverlayMode::Normal));
    let n = NatureSystem::default();
    assert_eq!((n.tick_rate, n.base_growth, n.random_tick_count), (500, 1, 500));
    let u = UnderConstruction { remaining_ticks: 3 };
    assert_eq!(u.remaining_ticks, 3);
}

#[test]
fn road_masks() {
    assert_eq!(RoadMask::from_neighbors(false, false, false, false), 0);
    assert_eq!(RoadMask::from_neighbors(true, true, false, false), 3);
    assert_eq!(RoadMask::from_neighbors(false, true, true, false), 6);
    assert_eq!(RoadMask::from_neighbors(true, true, true, true), 15);
    assert_eq!(RoadMask::from_neighbors(true, false, false, true), RoadMask::NORTH | RoadMask::WEST);
}

#[test]
fn lanes() {
    assert_eq!(passable_lane_count(4, 1), 3);
    assert_eq!(passable_lane_count(1, 3), 0);
    assert!(has_open_lane(2, 1));
    assert!(!has_open_lane(2, 2));
    assert_eq!(open_lane_bitmask(4, 1), 0b111);
    assert_eq!(open_lane_bitmask(2, 2), 0);
    assert_eq!(open_lane_bitmask(7, 0), 0b111_1111);
}

#[test]
fn road_nodes_and_tints() {
    let p = Vec3::new(1.0, 2.0, 3.0);
    assert!(!RoadNode::new(p).is_intersection);
    assert!(RoadNode::intersection(p).is_intersection);
    assert_eq!(RoadNode::new(p).position, p);
    let t = RepairTint::new(30);
    assert_eq!((t.duration_ticks, t.max_duration), (30, 30));
}

#[test]
fn repair_phases() {
    assert!(RepairState::PendingRedirection.is_phase1());
    assert!(RepairState::DrainingTraffic.is_phase1());
    assert!(!RepairState::RepairActive.is_phase1());
    assert!(RepairState::RepairActive.is_phase2());
    assert!(!RepairState::Stable.is_phase2());
    assert!(RepairState::DrainingTraffic.allows_emergency());
    assert!(!RepairState::Reopening.allows_emergency());
}

#[test]
fn vehicle_pool() {
    let mut pool = VehiclePool { available_vehicles: 2, total_vehicles: 2 };
    take_vehicle(&mut pool);
    assert_eq!(pool.available_vehicles, 1);
    return_vehicle(&mut pool);
    return_vehicle(&mut pool);
    assert_eq!(pool.available_vehicles, 2);
}

#[test]
fn clip_map_holes() {
    let mut m = ClipMap::new(3, 2);
    assert!(!m.has_hole(1, 1));
    m.set_hole(1, 1, true);
    assert!(m.has_hole(1, 1));
    assert!(!m.has_hole(0, 1));
    m.set_hole(0, 9, true);
    assert!(!m.has_hole(0, 9));
    m.set_hole(1, 1, false);
    assert!(!m.has_hole(1, 1));
}

#[test]
fn spatial_hash_values() {
    assert_eq!(spatial_hash(0, 0, 0), 0);
    assert_eq!(spatial_hash(1, 2, 3), 2039816926);
    assert_eq!(spatial_hash(-1, -1, -1), 187139757);
    assert_eq!(spatial_hash(5, 0, 0), 1893205621);
    assert_eq!(spatial_hash(0, 1, 0), 2654435769);
}

#[test]
fn event_log_keeps_latest_event_types() {
    let mut log: Vec<EventType> = Vec::new();
    push_bounded(&mut log, 2, EventType::BuildingPlaced);
    push_bounded(&mut log, 2, EventType::FireStarted);
    push_bounded(&mut log, 2, EventType::FireExtinguished);
    assert_eq!(log, vec![EventType::FireStarted, EventType::FireExtinguished]);
    assert_ne!(EventType::Disaster, EventType::BudgetUpdated);
}
