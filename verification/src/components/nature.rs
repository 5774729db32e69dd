//! Vegetation succession and disaster kinds.
use vstd::prelude::*;

verus! {

/// Stage of ecological succession, by vegetation level.
#[derive(Debug, Clone, Copy, PartialEq, Eq, Structural)]
pub enum VegetationStage {
    Dead,
    Pioneer,
    Grass,
    Shrubs,
    Forest,
}

/// The stage of a vegetation level: 0 dead, 1 to 10 pioneer, 11 to 100
/// grass, 101 to 200 shrubs, above that forest.
pub open spec fn stage_of(level: u8) -> VegetationStage {
    if level == 0 {
        VegetationStage::Dead
    } else if level <= 10 {
        VegetationStage::Pioneer
    } else if level <= 100 {
        VegetationStage::Grass
    } else if level <= 200 {
        VegetationStage::Shrubs
    } else {
        VegetationStage::Forest
    }
}

/// Rank of a stage along the succession.
pub open spec fn stage_rank(s: VegetationStage) -> int {
    match s {
        VegetationStage::Dead => 0,
        VegetationStage::Pioneer => 1,
        VegetationStage::Grass => 2,
        VegetationStage::Shrubs => 3,
        VegetationStage::Forest => 4,
    }
}

/// Succession only moves forward as the level grows, and a mature level
/// (200 or more) is at least at the shrub stage.
pub proof fn lemma_stage_monotone(a: u8, b: u8)
    requires
        a <= b,
    ensures
        stage_rank(stage_of(a)) <= stage_rank(stage_of(b)),
        b >= 200 ==> stage_rank(stage_of(b)) >= 3,
{
}

/// Sum of a sequence of levels.
pub open spec fn level_sum(levels: Seq<u8>) -> int
    decreases levels.len(),
{
    if levels.len() == 0 {
        0
    } else {
        level_sum(levels.drop_last()) + levels.last()
    }
}

/// The growth bonus from the levels of the neighbours: a tenth of their
/// average, where the average divides the sum by the count taken modulo 256.
pub open spec fn growth_bonus(levels: Seq<u8>) -> u8 {
    if levels.len() == 0 {
        0
    } else {
        ((level_sum(levels) / (levels.len() % 256) as int) / 10) as u8
    }
}

/// Whether the bonus can be computed: the sum of the levels fits in a `u8`
/// and a non-empty list does not have a multiple of 256 entries.
pub open spec fn growth_bonus_defined(levels: Seq<u8>) -> bool {
    level_sum(levels) <= 255 && (levels.len() > 0 ==> levels.len() % 256 != 0)
}

/// Vegetation level of a cell, from 0 (bare) to 255 (forest).
#[derive(Debug, Clone, Copy)]
pub struct VegetationState {
    pub level: u8,
}

impl Default for VegetationState {
    fn default() -> (v: Self)
        ensures
            v.level == 0,
    {
        VegetationState { level: 0 }
    }
}

impl VegetationState {
    /// Bare ground.
    pub fn new() -> (v: Self)
        ensures
            v.level == 0,
    {
        VegetationState { level: 0 }
    }

    /// Fully grown forest.
    pub fn fully_naturalized() -> (v: Self)
        ensures
            v.level == 255,
    {
        VegetationState { level: 255 }
    }

    /// The succession stage of this level.
    pub fn stage(&self) -> (s: VegetationStage)
        ensures
            s == stage_of(self.level),
    {
        if self.level == 0 {
            VegetationStage::Dead
        } else if self.level <= 10 {
            VegetationStage::Pioneer
        } else if self.level <= 100 {
            VegetationStage::Grass
        } else if self.level <= 200 {
            VegetationStage::Shrubs
        } else {
            VegetationStage::Forest
        }
    }

    /// Whether the level has reached 200.
    pub fn is_mature(&self) -> (m: bool)
        ensures
            m == (self.level >= 200),
    {
        self.level >= 200
    }

    /// Raises the level by `amount`, saturating at 255.
    pub fn grow(&mut self, amount: u8)
        ensures
            final(self).level == if old(self).level + amount > 255 {
                255
            } else {
                old(self).level + amount
            },
    {
        self.level = self.level.saturating_add(amount);
    }

    /// Clears the vegetation.
    pub fn clear(&mut self)
        ensures
            final(self).level == 0,
    {
        self.level = 0;
    }

    /// Lowers the level by `amount`, saturating at 0.
    pub fn decay(&mut self, amount: u8)
        ensures
            final(self).level == if old(self).level < amount {
                0
            } else {
                old(self).level - amount
            },
    {
        self.level = self.level.saturating_sub(amount);
    }

    /// A tenth of the average level of the neighbours (zero without any).
    pub fn calculate_growth_bonus(&self, neighbor_levels: &[u8]) -> (b: u8)
        requires
            growth_bonus_defined(neighbor_levels@),
        ensures
            b == growth_bonus(neighbor_levels@),
    {
        let n = neighbor_levels.len();
        let avg_neighbor: u8 = if n == 0 {
            0
        } else {
            let mut sum: u8 = 0;
            let mut i: usize = 0;
            while i < n
                invariant
                    n == neighbor_levels@.len(),
                    i <= n,
                    level_sum(neighbor_levels@) <= 255,
                    sum == level_sum(neighbor_levels@.take(i as int)),
                decreases n - i,
            {
                proof {
                    lemma_level_sum_prefix(neighbor_levels@, i as int + 1);
                    assert(neighbor_levels@.take(i as int + 1).drop_last() =~= neighbor_levels@.take(
                        i as int,
                    ));
                }
                sum = sum + neighbor_levels[i];
                i = i + 1;
            }
            proof {
                assert(neighbor_levels@.take(n as int) =~= neighbor_levels@);
            }
            let count = n as u8;
            assert(count == n % 256) by (bit_vector)
                requires
                    count == n as u8,
            ;
            let avg = sum / count;
            if avg < 255 {
                avg
            } else {
                255
            }
        };
        avg_neighbor / 10
    }
}

/// A prefix of a sequence of levels sums to no more than the whole.
proof fn lemma_level_sum_prefix(levels: Seq<u8>, k: int)
    requires
        0 <= k <= levels.len(),
    ensures
        level_sum(levels.take(k)) <= level_sum(levels),
        level_sum(levels.take(k)) >= 0,
    decreases levels.len() - k,
{
    if k < levels.len() {
        lemma_level_sum_prefix(levels, k + 1);
        assert(levels.take(k + 1).drop_last() =~= levels.take(k));
    } else {
        assert(levels.take(k) =~= levels);
    }
    lemma_level_sum_nonneg(levels.take(k));
}

proof fn lemma_level_sum_nonneg(levels: Seq<u8>)
    ensures
        level_sum(levels) >= 0,
    decreases levels.len(),
{
    if levels.len() > 0 {
        lemma_level_sum_nonneg(levels.drop_last());
    }
}

/// Kind of disaster.
#[derive(Debug, Clone, Copy, PartialEq, Eq, Structural)]
pub enum DisasterType {
    Fire,
    Tornado,
    Earthquake,
    Flood,
}

/// Visual marker for mature vegetation.
#[derive(Debug, Clone, Copy)]
pub struct VegetationMature {
    pub tree_type: u32,
}

} // verus!
