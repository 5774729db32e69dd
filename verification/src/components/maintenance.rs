//! Bookkeeping components: dirty sectors, id recycling, request and command
//! queues, tools.
use vstd::prelude::*;
use bevy_ecs::entity::Entity;

verus! {

/// A sector of the grid that may need re-uploading.
#[derive(Debug, Clone, Copy)]
pub struct DirtySector {
    pub sector_x: usize,
    pub sector_y: usize,
    pub is_dirty: bool,
}

impl DirtySector {
    /// A clean sector.
    pub fn new(sector_x: usize, sector_y: usize) -> (s: Self)
        ensures
            s.sector_x == sector_x,
            s.sector_y == sector_y,
            !s.is_dirty,
    {
        DirtySector { sector_x, sector_y, is_dirty: false }
    }

    /// Marks the sector dirty.
    pub fn mark_dirty(&mut self)
        ensures
            final(self).is_dirty,
            final(self).sector_x == old(self).sector_x,
            final(self).sector_y == old(self).sector_y,
    {
        self.is_dirty = true;
    }

    /// Marks the sector clean.
    pub fn clear(&mut self)
        ensures
            !final(self).is_dirty,
            final(self).sector_x == old(self).sector_x,
            final(self).sector_y == old(self).sector_y,
    {
        self.is_dirty = false;
    }
}

/// Free list of ids for recycling; the last id released is the first one
/// handed out again.
pub struct FreeList {
    pub available_ids: Vec<u32>,
}

impl FreeList {
    /// An empty free list.
    pub fn new() -> (f: Self)
        ensures
            f.available_ids@.len() == 0,
    {
        FreeList { available_ids: Vec::new() }
    }

    /// Takes the most recently released id, if any.
    pub fn acquire(&mut self) -> (id: Option<u32>)
        ensures
            old(self).available_ids@.len() == 0 ==> id is None && final(self).available_ids@
                == old(self).available_ids@,
            old(self).available_ids@.len() > 0 ==> id == Some(old(self).available_ids@.last())
                && final(self).available_ids@ == old(self).available_ids@.drop_last(),
    {
        self.available_ids.pop()
    }

    /// Gives `id` back for reuse.
    pub fn release(&mut self, id: u32)
        ensures
            final(self).available_ids@ == old(self).available_ids@.push(id),
    {
        self.available_ids.push(id);
    }

    /// Whether an id can be acquired.
    pub fn has_available(&self) -> (a: bool)
        ensures
            a == (self.available_ids@.len() > 0),
    {
        !self.available_ids.is_empty()
    }
}

/// The id released last is the one acquired next, and acquiring it gives
/// back the list as it was before the release.
pub proof fn lemma_free_list_last_in_first_out(ids: Seq<u32>, id: u32)
    ensures
        ids.push(id).len() > 0,
        ids.push(id).last() == id,
        ids.push(id).drop_last() == ids,
{
    assert(ids.push(id).drop_last() =~= ids);
}

/// A versioned entity handle: a handle is stale once its slot is recycled.
#[derive(Debug, Clone, Copy)]
pub struct EntityVersion {
    pub index: u32,
    pub generation: u32,
}

/// Two handles name the same live entity when index and generation agree.
pub open spec fn versions_match(a: EntityVersion, b: EntityVersion) -> bool {
    a.index == b.index && a.generation == b.generation
}

impl EntityVersion {
    /// The first generation of slot `index`.
    pub fn new(index: u32) -> (v: Self)
        ensures
            v.index == index,
            v.generation == 1,
    {
        EntityVersion { index, generation: 1 }
    }

    /// Moves the slot to its next generation.
    pub fn recycle(&mut self)
        requires
            old(self).generation < u32::MAX,
        ensures
            final(self).index == old(self).index,
            final(self).generation == old(self).generation + 1,
    {
        self.generation = self.generation + 1;
    }

    /// Whether both handles name the same slot in the same generation.
    pub fn matches(&self, other: &EntityVersion) -> (m: bool)
        ensures
            m == versions_match(*self, *other),
            m == (self.index == other.index && self.generation == other.generation),
    {
        self.index == other.index && self.generation == other.generation
    }
}

/// Two handles match exactly when they name the same slot in the same
/// generation; so a handle whose slot has moved to any later generation,
/// after any number of recycles, is stale.
pub proof fn lemma_match_needs_same_generation(a: EntityVersion, b: EntityVersion)
    ensures
        versions_match(a, b) ==> a.index == b.index && a.generation == b.generation,
        a.index == b.index && a.generation == b.generation ==> versions_match(a, b),
        a.generation < b.generation ==> !versions_match(a, b) && !versions_match(b, a),
{
}

/// A handle taken before its slot was recycled no longer matches it.
pub proof fn lemma_recycled_handle_is_stale(before: EntityVersion, after: EntityVersion)
    requires
        after.index == before.index,
        after.generation == before.generation + 1,
    ensures
        !versions_match(before, after),
        !versions_match(after, before),
{
}

/// Appends `event` to a log holding at most `max_events` entries, dropping
/// the oldest entry first when the log is full.
pub fn push_bounded<T>(events: &mut Vec<T>, max_events: usize, event: T)
    requires
        old(events)@.len() >= max_events ==> old(events)@.len() > 0,
    ensures
        final(events)@ == if old(events)@.len() >= max_events {
            old(events)@.drop_first().push(event)
        } else {
            old(events)@.push(event)
        },
        // A log within its bound stays within it.
        1 <= max_events && old(events)@.len() <= max_events ==> final(events)@.len() <= max_events,
{
    if events.len() >= max_events {
        events.remove(0);
    }
    events.push(event);
}

/// Queue of requests to be handled later, in arrival order.
#[derive(Debug, Clone)]
pub struct RequestQueue<T> {
    pub requests: Vec<T>,
}

impl<T> RequestQueue<T> {
    /// An empty queue.
    pub fn new() -> (q: Self)
        ensures
            q.requests@.len() == 0,
    {
        RequestQueue { requests: Vec::new() }
    }

    /// Appends a request.
    pub fn push(&mut self, request: T)
        ensures
            final(self).requests@ == old(self).requests@.push(request),
    {
        self.requests.push(request);
    }

    /// Takes every pending request, in arrival order, leaving the queue
    /// empty.
    pub fn drain(&mut self) -> (taken: Vec<T>)
        ensures
            taken@ == old(self).requests@,
            final(self).requests@.len() == 0,
    {
        let mut taken: Vec<T> = Vec::new();
        std::mem::swap(&mut taken, &mut self.requests);
        taken
    }

    /// Whether no request is pending.
    pub fn is_empty(&self) -> (e: bool)
        ensures
            e == (self.requests@.len() == 0),
    {
        self.requests.is_empty()
    }
}

/// Command buffer for deferred entity operations.
#[derive(Debug, Clone)]
pub struct CommandBuffer {
    pub commands: Vec<EntityCommand>,
}

impl CommandBuffer {
    /// An empty buffer.
    pub fn new() -> (b: Self)
        ensures
            b.commands@.len() == 0,
    {
        CommandBuffer { commands: Vec::new() }
    }

    /// Appends a command.
    pub fn push(&mut self, command: EntityCommand)
        ensures
            final(self).commands@ == old(self).commands@.push(command),
    {
        self.commands.push(command);
    }

    /// Drops every buffered command.
    pub fn clear(&mut self)
        ensures
            final(self).commands@.len() == 0,
    {
        self.commands.clear();
    }
}

/// A deferred operation on an entity.
#[derive(Debug, Clone, Copy)]
pub enum EntityCommand {
    Spawn { entity_type: EntityType, position: (usize, usize) },
    Despawn { entity: Entity },
    UpdateComponent { entity: Entity },
}

/// Kind of entity the player can place.
#[derive(Debug, Clone, Copy, PartialEq, Eq, Structural)]
pub enum EntityType {
    Residential,
    Commercial,
    Industrial,
    Road,
    PowerPlant,
    WaterStation,
    FireStation,
    PoliceStation,
    BusStop,
    TrainStation,
}

/// Kind of event recorded in a city's history.
#[derive(Debug, Clone, Copy, PartialEq, Eq, Structural)]
pub enum EventType {
    BuildingPlaced,
    RoadPlaced,
    BuildingDestroyed,
    FireStarted,
    FireExtinguished,
    Disaster,
    BudgetUpdated,
}

/// Tool mode for player interaction.
#[derive(Debug, Clone, Copy, PartialEq, Eq, Structural)]
pub enum ToolMode {
    NoTool,
    BuildResidential,
    BuildCommercial,
    BuildIndustrial,
    BuildRoad,
    BuildPowerPlant,
    BuildWaterStation,
    Bulldozer,
    LevelTerrain,
    Repair,
    PlaceBusStop,
    PlaceTrainStation,
}

impl Default for ToolMode {
    fn default() -> (m: Self)
        ensures
            m == ToolMode::NoTool,
    {
        ToolMode::NoTool
    }
}

/// Under construction marker: ticks left before the site opens.
#[derive(Debug, Clone, Copy)]
pub struct UnderConstruction {
    pub remaining_ticks: u32,
}

} // verus!
