//! Global simulation state: the bit-packed city grid and small counters.
use vstd::prelude::*;
use bevy_ecs::entity::Entity;

verus! {

/// Bit 0 of a grid cell: the cell is occupied.
pub const OCCUPIED_BIT: u32 = 0x01;
/// Bit 1 of a grid cell: the cell conducts power.
pub const CONDUCTS_POWER_BIT: u32 = 0x02;
/// Bit 2 of a grid cell: the cell conducts water.
pub const CONDUCTS_WATER_BIT: u32 = 0x04;
/// Bit 3 of a grid cell: the cell has water (a hydrant for fire fighting).
pub const HAS_WATER_BIT: u32 = 0x08;
/// Bit 4 of a grid cell: the cell has power.
pub const HAS_POWER_BIT: u32 = 0x10;
/// Bit 5 of a grid cell: the cell is a road.
pub const IS_ROAD_BIT: u32 = 0x20;
/// Bit 6 of a grid cell: the cell is a building.
pub const IS_BUILDING_BIT: u32 = 0x40;
/// Bit 7 of a grid cell: the cell is transit.
pub const IS_TRANSIT_BIT: u32 = 0x80;
/// Bits 8 to 31 of a grid cell: the entity id plus one (zero for none).
pub const ENTITY_ID_MASK: u32 = 0xFFFF_FF00;
/// Position of the entity id field in a grid cell.
pub const ENTITY_ID_SHIFT: u32 = 8;

/// The city grid: one bit-packed `u32` per cell, row by row.
///
/// Layout of a cell: bits 0 to 7 are the flags above; bits 8 to 31 hold the
/// entity id plus one, or zero when no entity is recorded.
pub struct CityGrid {
    pub cells: Vec<u32>,
    pub width: usize,
    pub height: usize,
}

/// The entity id recorded in a cell value, if any.
pub open spec fn cell_entity_id(c: u32) -> Option<u32> {
    if c / 256 == 0 {
        None
    } else {
        Some((c / 256 - 1) as u32)
    }
}

/// The cell value after recording `id` in it: flags kept, the id field
/// holding `id + 1` modulo 2^24 (or zero for `None`).
pub open spec fn cell_with_entity_id(c: u32, id: Option<u32>) -> u32 {
    match id {
        Some(i) => (c % 256 + ((i + 1) % 0x100_0000) * 256) as u32,
        None => (c % 256) as u32,
    }
}

/// Recording an id below 2^24 - 1 in a cell and reading it back gives the
/// id, and the eight flag bits are kept.
pub proof fn lemma_entity_id_roundtrip(c: u32, id: u32)
    requires
        id < 0xFF_FFFF,
    ensures
        cell_entity_id(cell_with_entity_id(c, Some(id))) == Some(id),
        cell_with_entity_id(c, Some(id)) % 256 == c % 256,
{
    let v = cell_with_entity_id(c, Some(id));
    assert(v == c % 256 + (id + 1) * 256);
    assert((c % 256 + (id + 1) * 256) / 256 == id + 1) by (nonlinear_arith)
        requires
            0 <= c % 256 < 256,
    ;
    assert((c % 256 + (id + 1) * 256) % 256 == c % 256) by (nonlinear_arith)
        requires
            0 <= c % 256 < 256,
    ;
}

/// Clearing the id of a cell leaves no id and keeps the eight flag bits.
pub proof fn lemma_entity_id_cleared(c: u32)
    ensures
        cell_entity_id(cell_with_entity_id(c, None)) == None::<u32>,
        cell_with_entity_id(c, None) % 256 == c % 256,
{
}

impl CityGrid {
    /// Flat index of `(x, y)`: the row `y` times the width, plus `x`.
    pub open spec fn flat_index(&self, x: int, y: int) -> int {
        y * self.width + x
    }

    /// Whether the flat index of `(x, y)` fits in a `usize`.
    pub open spec fn index_fits(&self, x: usize, y: usize) -> bool {
        y * self.width + x <= usize::MAX
    }

    /// The value stored for `(x, y)`, or zero past the end of the cells.
    pub open spec fn cell(&self, x: int, y: int) -> u32 {
        let i = self.flat_index(x, y);
        if 0 <= i < self.cells@.len() {
            self.cells@[i]
        } else {
            0
        }
    }

    /// A grid of `width` by `height` empty cells.
    pub fn new(width: usize, height: usize) -> (g: Self)
        requires
            width * height <= usize::MAX,
        ensures
            g.width == width,
            g.height == height,
            g.cells@.len() == width * height,
            forall|i: int| 0 <= i < g.cells@.len() ==> #[trigger] g.cells@[i] == 0,
    {
        let n = width * height;
        let cells: Vec<u32> = vec![0; n];
        proof {
            assert forall|i: int| 0 <= i < cells@.len() implies #[trigger] cells@[i] == 0 by {
                assert(cloned(0u32, cells@[i]));
            }
        }
        CityGrid { cells, width, height }
    }

    /// The value of cell `(x, y)`, zero when the flat index is past the end.
    pub fn get(&self, x: usize, y: usize) -> (c: u32)
        requires
            self.index_fits(x, y),
        ensures
            c == self.cell(x as int, y as int),
    {
        let idx = y * self.width + x;
        if idx < self.cells.len() {
            self.cells[idx]
        } else {
            0
        }
    }

    /// A mutable reference to cell `(x, y)`, or `None` when the flat index
    /// is past the end.
    pub fn get_mut(&mut self, x: usize, y: usize) -> (r: Option<&mut u32>)
        requires
            old(self).index_fits(x, y),
        ensures
            final(self).width == old(self).width,
            final(self).height == old(self).height,
            r is None <==> !(old(self).flat_index(x as int, y as int) < old(self).cells@.len()),
            r is None ==> final(self).cells@ == old(self).cells@,
            r matches Some(e) ==> {
                &&& *e == old(self).cells@[old(self).flat_index(x as int, y as int)]
                &&& final(self).cells@ == old(self).cells@.update(
                    old(self).flat_index(x as int, y as int),
                    *final(e),
                )
            },
    {
        let idx = y * self.width + x;
        if idx < self.cells.len() {
            Some(&mut self.cells[idx])
        } else {
            None
        }
    }

    /// Whether cell `(x, y)` has its occupied flag (bit 0) set.
    pub fn is_occupied(&self, x: usize, y: usize) -> (b: bool)
        requires
            self.index_fits(x, y),
        ensures
            b == (self.cell(x as int, y as int) % 2 == 1),
    {
        let c = self.get(x, y);
        assert((c & OCCUPIED_BIT != 0) == (c % 2 == 1)) by (bit_vector);
        (c & OCCUPIED_BIT) != 0
    }

    /// Whether cell `(x, y)` has its conducts-power flag (bit 1) set.
    pub fn conducts_power(&self, x: usize, y: usize) -> (b: bool)
        requires
            self.index_fits(x, y),
        ensures
            b == ((self.cell(x as int, y as int) / 2) % 2 == 1),
    {
        let c = self.get(x, y);
        assert((c & CONDUCTS_POWER_BIT != 0) == ((c / 2) % 2 == 1)) by (bit_vector);
        (c & CONDUCTS_POWER_BIT) != 0
    }

    /// The entity id recorded in cell `(x, y)`, if any.
    pub fn get_entity_id(&self, x: usize, y: usize) -> (r: Option<u32>)
        requires
            self.index_fits(x, y),
        ensures
            r == cell_entity_id(self.cell(x as int, y as int)),
    {
        let c = self.get(x, y);
        assert((c & ENTITY_ID_MASK) >> ENTITY_ID_SHIFT == c / 256) by (bit_vector);
        let id = (c & ENTITY_ID_MASK) >> ENTITY_ID_SHIFT;
        if id == 0 {
            None
        } else {
            Some(id - 1)
        }
    }

    /// Records `id` in cell `(x, y)`, keeping its flags; does nothing when
    /// the flat index is past the end.
    pub fn set_entity_id(&mut self, x: usize, y: usize, id: Option<u32>)
        requires
            old(self).index_fits(x, y),
            id matches Some(i) ==> i < u32::MAX,
        ensures
            final(self).width == old(self).width,
            final(self).height == old(self).height,
            ({
                let i = old(self).flat_index(x as int, y as int);
                if i < old(self).cells@.len() {
                    final(self).cells@ == old(self).cells@.update(
                        i,
                        cell_with_entity_id(old(self).cells@[i], id),
                    )
                } else {
                    final(self).cells@ == old(self).cells@
                }
            }),
            // Reading the id back gives what was written, when the cell
            // exists and the id fits in the 24 bits of the field.
            old(self).flat_index(x as int, y as int) < old(self).cells@.len() ==> (id matches Some(
                i,
            ) && i < 0xFF_FFFF ==> cell_entity_id(final(self).cell(x as int, y as int)) == id),
            old(self).flat_index(x as int, y as int) < old(self).cells@.len() ==> (id is None
                ==> cell_entity_id(final(self).cell(x as int, y as int)) is None),
            // The flag bits of the cell are kept.
            final(self).cell(x as int, y as int) % 256 == old(self).cell(x as int, y as int) % 256,
    {
        proof {
            let i = old(self).flat_index(x as int, y as int);
            if i < old(self).cells@.len() {
                let c = old(self).cells@[i];
                lemma_entity_id_cleared(c);
                if let Some(v) = id {
                    if v < 0xFF_FFFF {
                        lemma_entity_id_roundtrip(c, v);
                    }
                    assert(cell_with_entity_id(c, id) % 256 == c % 256) by {
                        assert((c % 256 + ((v + 1) % 0x100_0000) * 256) % 256 == c % 256) by (nonlinear_arith)
                            requires
                                0 <= c % 256 < 256,
                                0 <= (v + 1) % 0x100_0000,
                        ;
                    }
                }
            }
        }
        if let Some(cell) = self.get_mut(x, y) {
            let c = *cell;
            assert(c & !ENTITY_ID_MASK == c % 256) by (bit_vector);
            *cell &= !ENTITY_ID_MASK;
            if let Some(id) = id {
                let v: u32 = id + 1;
                assert(c % 256 | (v << ENTITY_ID_SHIFT) == c % 256 + (v % 0x100_0000) * 256)
                    by (bit_vector);
                *cell |= ((id + 1) << ENTITY_ID_SHIFT) as u32;
            }
        }
    }

    /// Regroups connected cells into networks; the grid itself is unchanged.
    pub fn rebuild_networks(&mut self)
        ensures
            *final(self) == *old(self),
    {
    }

    /// Signals that the utility networks need a rebuild; the grid itself is
    /// unchanged.
    pub fn mark_dirty(&mut self)
        ensures
            *final(self) == *old(self),
    {
    }
}

impl Default for CityGrid {
    fn default() -> (g: Self)
        ensures
            g.width == 256,
            g.height == 256,
            g.cells@.len() == 256 * 256,
            forall|i: int| 0 <= i < g.cells@.len() ==> #[trigger] g.cells@[i] == 0,
    {
        Self::new(256, 256)
    }
}

/// Current tick counter.
pub struct CurrentTick(pub u64);

impl Default for CurrentTick {
    fn default() -> (t: Self)
        ensures
            t.0 == 0,
    {
        CurrentTick(0)
    }
}

/// Transit network version, used to invalidate itineraries.
pub struct TransitVersion(pub u64);

impl Default for TransitVersion {
    fn default() -> (v: Self)
        ensures
            v.0 == 0,
    {
        TransitVersion(0)
    }
}

/// Active fires list.
pub struct ActiveFires {
    pub fires: Vec<Entity>,
}

impl Default for ActiveFires {
    fn default() -> (a: Self)
        ensures
            a.fires@.len() == 0,
    {
        ActiveFires { fires: Vec::new() }
    }
}

/// Global overlay mode.
pub enum OverlayMode {
    Normal,
    Power,
    Water,
    Maintenance,
    Nature,
}

impl Default for OverlayMode {
    fn default() -> (m: Self)
        ensures
            m == OverlayMode::Normal,
    {
        OverlayMode::Normal
    }
}

/// Parameters of the ecological succession system.
pub struct NatureSystem {
    pub tick_rate: u32,
    pub base_growth: u8,
    pub random_tick_count: usize,
}

impl Default for NatureSystem {
    fn default() -> (n: Self)
        ensures
            n.tick_rate == 500,
            n.base_growth == 1,
            n.random_tick_count == 500,
    {
        NatureSystem { tick_rate: 500, base_growth: 1, random_tick_count: 500 }
    }
}

} // verus!
