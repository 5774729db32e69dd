//! Transit lines, stops, queues and signals.
use vstd::prelude::*;
use bevy_ecs::entity::Entity;

verus! {

/// Transit mode classification.
#[derive(Debug, Clone, Copy, PartialEq, Eq, Structural)]
pub enum TransitMode {
    Bus,
    Train,
}

/// Number of lines a stop can serve.
pub const MAX_STOP_LINES: u8 = 4;

/// Registers `line_id` in the line table of a stop (`line_ids` holding
/// `line_count` entries). Returns false, changing nothing, when the table is
/// already full.
pub fn stop_add_line(line_ids: &mut [u32; 4], line_count: &mut u8, line_id: u32) -> (added: bool)
    ensures
        added == (*old(line_count) < 4),
        added ==> *final(line_count) == *old(line_count) + 1,
        added ==> final(line_ids)@ == old(line_ids)@.update(*old(line_count) as int, line_id),
        !added ==> *final(line_count) == *old(line_count),
        !added ==> final(line_ids)@ == old(line_ids)@,
{
    if *line_count >= MAX_STOP_LINES {
        return false;
    }
    line_ids[*line_count as usize] = line_id;
    *line_count = *line_count + 1;
    true
}

/// Whether `line_id` is among the first `line_count` entries of the line
/// table of a stop.
pub fn stop_has_line(line_ids: &[u32; 4], line_count: u8, line_id: u32) -> (found: bool)
    ensures
        found == exists|i: int| 0 <= i < line_count && i < 4 && line_ids@[i] == line_id,
{
    let n: usize = if line_count < 4 { line_count as usize } else { 4 };
    let mut i: usize = 0;
    while i < n
        invariant
            n <= 4,
            n == if line_count < 4 { line_count as int } else { 4 },
            i <= n,
            forall|j: int| 0 <= j < i ==> line_ids@[j] != line_id,
        decreases n - i,
    {
        if line_ids[i] == line_id {
            return true;
        }
        i = i + 1;
    }
    false
}

/// A line registered in a stop with room left is found there afterwards.
pub proof fn lemma_added_line_is_found(line_ids: Seq<u32>, line_count: u8, line_id: u32)
    requires
        line_ids.len() == 4,
        line_count < 4,
    ensures
        exists|i: int|
            0 <= i < line_count + 1 && i < 4 && #[trigger] line_ids.update(line_count as int, line_id)[i]
                == line_id,
{
    assert(line_ids.update(line_count as int, line_id)[line_count as int] == line_id);
}

/// Fixed path script for transit vehicles: a vehicle walks the stops of its
/// line forth and back.
pub struct FixedPath {
    pub line_id: u32,
    pub current_stop_index: usize,
    pub direction: i8,
    pub route_complete: bool,
}

impl FixedPath {
    /// A path on line `line_id`, at its first stop, heading forward.
    pub fn new(line_id: u32) -> (p: Self)
        ensures
            p.line_id == line_id,
            p.current_stop_index == 0,
            p.direction == 1,
            !p.route_complete,
    {
        FixedPath { line_id, current_stop_index: 0, direction: 1, route_complete: false }
    }

    /// Moves to the next stop of a route of `num_stops` stops. The index is
    /// stepped as an `i8` by the direction; on leaving the route the vehicle
    /// turns: forward it restarts two stops before the end, backward at the
    /// first stop.
    pub fn advance_stop(&mut self, num_stops: usize)
        requires
            i8::MIN <= (old(self).current_stop_index as i8) + old(self).direction <= i8::MAX,
        ensures
            final(self).line_id == old(self).line_id,
            final(self).route_complete == old(self).route_complete,
            ({
                let stepped = ((old(self).current_stop_index as i8) + old(self).direction) as usize;
                if stepped < num_stops {
                    final(self).current_stop_index == stepped && final(self).direction == old(
                        self,
                    ).direction
                } else if old(self).direction > 0 {
                    &&& final(self).direction == -1
                    &&& final(self).current_stop_index == if num_stops >= 2 {
                        num_stops - 2
                    } else {
                        0
                    }
                } else {
                    final(self).current_stop_index == 0 && final(self).direction == 1
                }
            }),
            // A negative step wraps past the end of any route shorter than 2^31.
            (old(self).current_stop_index as i8) + old(self).direction < 0 ==> ((old(
                self,
            ).current_stop_index as i8) + old(self).direction) as usize >= 0x8000_0000,
            // On routes of at most 127 stops, a vehicle at a stop of the route
            // stepping by one stays on the route.
            1 <= num_stops <= 127 && old(self).current_stop_index < num_stops && (old(
                self,
            ).direction == 1 || old(self).direction == -1) ==> {
                &&& final(self).current_stop_index < num_stops
                &&& (final(self).direction == 1 || final(self).direction == -1)
            },
    {
        let stepped: i8 = self.current_stop_index as i8 + self.direction;
        assert(stepped < 0 ==> stepped as usize >= 0x8000_0000usize) by (bit_vector);
        self.current_stop_index = stepped as usize;
        if self.current_stop_index >= num_stops {
            if self.direction > 0 {
                self.direction = -1;
                self.current_stop_index = num_stops.saturating_sub(2);
            } else {
                self.current_stop_index = 0;
                self.direction = 1;
            }
        }
    }

    /// Index of the current stop.
    pub fn current_stop(&self) -> (i: usize)
        ensures
            i == self.current_stop_index,
    {
        self.current_stop_index
    }
}

/// Waiting queue of a bus or train stop, first come first served.
pub struct WaitingQueue {
    pub agents: Vec<Entity>,
    pub max_capacity: u16,
}

impl WaitingQueue {
    /// An empty queue holding at most `max_capacity` agents.
    pub fn new(max_capacity: u16) -> (q: Self)
        ensures
            q.agents@.len() == 0,
            q.max_capacity == max_capacity,
    {
        WaitingQueue { agents: Vec::new(), max_capacity }
    }

    /// Appends `agent` unless the queue is full; returns whether it did.
    pub fn add_agent(&mut self, agent: Entity) -> (added: bool)
        ensures
            final(self).max_capacity == old(self).max_capacity,
            added == (old(self).agents@.len() < old(self).max_capacity),
            added ==> final(self).agents@ == old(self).agents@.push(agent),
            !added ==> final(self).agents@ == old(self).agents@,
            // A queue within its capacity stays within it.
            old(self).agents@.len() <= old(self).max_capacity ==> final(self).agents@.len()
                <= final(self).max_capacity,
    {
        if self.agents.len() >= self.max_capacity as usize {
            return false;
        }
        self.agents.push(agent);
        true
    }

    /// Takes the first `count` agents (all of them if fewer wait) out of the
    /// queue and returns them in order.
    pub fn remove_agent(&mut self, count: usize) -> (taken: Vec<Entity>)
        ensures
            final(self).max_capacity == old(self).max_capacity,
            ({
                let k = if count < old(self).agents@.len() {
                    count as int
                } else {
                    old(self).agents@.len() as int
                };
                &&& taken@ == old(self).agents@.take(k)
                &&& final(self).agents@ == old(self).agents@.skip(k)
            }),
    {
        let to_remove = if count < self.agents.len() {
            count
        } else {
            self.agents.len()
        };
        let mut rest = self.agents.split_off(to_remove);
        std::mem::swap(&mut self.agents, &mut rest);
        rest
    }

    /// Whether the queue holds `max_capacity` agents or more.
    pub fn is_full(&self) -> (full: bool)
        ensures
            full == (self.agents@.len() >= self.max_capacity),
    {
        self.agents.len() >= self.max_capacity as usize
    }
}

/// Rail segment component.
pub struct RailSegment {
    pub is_tunnel: bool,
    pub is_bridge: bool,
}

/// Block signal of a train line: a block holds at most one train.
pub struct BlockSignal {
    pub block_id: u32,
    pub is_occupied: bool,
    pub next_signal: Option<Entity>,
}

impl BlockSignal {
    /// A free block with no next signal.
    pub fn new(block_id: u32) -> (s: Self)
        ensures
            s.block_id == block_id,
            !s.is_occupied,
            s.next_signal is None,
    {
        BlockSignal { block_id, is_occupied: false, next_signal: None }
    }

    /// Whether no train occupies the block.
    pub fn is_clear(&self) -> (c: bool)
        ensures
            c == !self.is_occupied,
    {
        !self.is_occupied
    }

    /// Marks the block occupied.
    pub fn occupy(&mut self)
        ensures
            final(self).is_occupied,
            final(self).block_id == old(self).block_id,
            final(self).next_signal == old(self).next_signal,
    {
        self.is_occupied = true;
    }

    /// Marks the block free.
    pub fn clear(&mut self)
        ensures
            !final(self).is_occupied,
            final(self).block_id == old(self).block_id,
            final(self).next_signal == old(self).next_signal,
    {
        self.is_occupied = false;
    }
}

/// Transfer node marker for multi-modal connections.
pub struct TransferNode {
    pub connects_walking: bool,
    pub connects_transit: bool,
    pub connects_driving: bool,
}

/// Kind of service a station offers.
#[derive(Debug, Clone, Copy, PartialEq, Eq, Structural)]
pub enum ServiceType {
    Bus,
    Train,
    Mixed,
}

} // verus!
