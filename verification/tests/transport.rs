use bevy_ecs::entity::Entity;
use city_simulator::components::transport::{
    stop_add_line, stop_has_line, BlockSignal, FixedPath, WaitingQueue,
};

fn e(i: u32) -> Entity {
    Entity::from_raw_u32(i).unwrap()
}

#[test]
fn stop_lines_hold_at_most_four() {
    let mut ids = [0u32; 4];
    let mut count = 0u8;
    for line in [10u32, 20, 30, 40] {
        assert!(stop_add_line(&mut ids, &mut count, line));
    }
    assert!(!stop_add_line(&mut ids, &mut count, 50));
    assert_eq!(count, 4);
    assert_eq!(ids, [10, 20, 30, 40]);
    assert!(stop_has_line(&ids, count, 30));
    assert!(!stop_has_line(&ids, count, 50));
}

#[test]
fn stop_has_line_ignores_unused_slots() {
    let ids = [7u32, 0, 0, 0];
    assert!(stop_has_line(&ids, 1, 7));
    assert!(!stop_has_line(&ids, 1, 0));
    assert!(!stop_has_line(&ids, 0, 7));
}

#[test]
fn fixed_path_ping_pongs() {
    let mut p = FixedPath::new(3);
    assert_eq!(p.current_stop(), 0);
    p.advance_stop(3);
    assert_eq!(p.current_stop(), 1);
    p.advance_stop(3);
    assert_eq!(p.current_stop(), 2);
    p.advance_stop(3);
    // Past the end: turn back, two stops before the end.
    assert_eq!(p.current_stop(), 1);
    assert_eq!(p.direction, -1);
    p.advance_stop(3);
    assert_eq!(p.current_stop(), 0);
    p.advance_stop(3);
    // Before the start: turn forward at the first stop.
    assert_eq!(p.current_stop(), 0);
    assert_eq!(p.direction, 1);
    assert_eq!(p.line_id, 3);
}

#[test]
fn fixed_path_single_stop_route() {
    let mut p = FixedPath::new(1);
    p.advance_stop(1);
    assert_eq!(p.current_stop(), 0);
    assert_eq!(p.direction, -1);
}

#[test]
fn waiting_queue_respects_capacity() {
    let mut q = WaitingQueue::new(2);
    assert!(q.add_agent(e(1)));
    assert!(q.add_agent(e(2)));
    assert!(q.is_full());
    assert!(!q.add_agent(e(3)));
    assert_eq!(q.agents, vec![e(1), e(2)]);
}

#[test]
fn waiting_queue_removes_in_arrival_order() {
    let mut q = WaitingQueue::new(10);
    for i in 1..=4 {
        q.add_agent(e(i));
    }
    let taken = q.remove_agent(3);
    assert_eq!(taken, vec![e(1), e(2), e(3)]);
    assert_eq!(q.agents, vec![e(4)]);
    let rest = q.remove_agent(10);
    assert_eq!(rest, vec![e(4)]);
    assert!(q.agents.is_empty());
}

#[test]
fn block_signal_occupy_and_clear() {
    let mut s = BlockSignal::new(9);
    assert!(s.is_clear());
    s.occupy();
    assert!(!s.is_clear());
    s.clear();
    assert!(s.is_clear());
    assert_eq!(s.block_id, 9);
    assert!(s.next_signal.is_none());
}
