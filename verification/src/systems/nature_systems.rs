//! Decisions of the ecological succession system.
use vstd::prelude::*;
use crate::components::nature::{VegetationState, growth_bonus, growth_bonus_defined};
use crate::resources::CityGrid;
use rand::Rng;
use rand::rngs::ThreadRng;

verus! {

/// Levels of the vegetation around `(x, y)`; the grid records none, so the
/// list is empty.
pub fn neighbor_levels(grid: &CityGrid, x: usize, y: usize) -> (levels: Vec<u8>)
    ensures
        levels@.len() == 0,
{
    Vec::new()
}

/// One random tick of succession on a cell. A well-maintained structure
/// (`well_maintained`) pushes the vegetation back by 50; otherwise it grows
/// by `base_growth` plus the neighbour bonus. Returns whether the cell just
/// crossed level 200, becoming mature.
pub fn succession_step(
    vegetation: &mut VegetationState,
    well_maintained: bool,
    base_growth: u8,
    neighbor_levels: &[u8],
) -> (matured: bool)
    requires
        growth_bonus_defined(neighbor_levels@),
        base_growth + growth_bonus(neighbor_levels@) <= 255,
    ensures
        well_maintained ==> {
            &&& final(vegetation).level == if old(vegetation).level < 50 {
                0
            } else {
                old(vegetation).level - 50
            }
            &&& !matured
        },
        !well_maintained ==> {
            let g = base_growth + growth_bonus(neighbor_levels@);
            let grown = if old(vegetation).level + g > 255 {
                255
            } else {
                old(vegetation).level + g
            };
            &&& final(vegetation).level == grown
            &&& matured == (grown >= 200 && grown - g < 200)
        },
{
    if well_maintained {
        vegetation.level = vegetation.level.saturating_sub(50);
        return false;
    }
    let bonus = vegetation.calculate_growth_bonus(neighbor_levels);
    let growth_amount = base_growth + bonus;
    vegetation.grow(growth_amount);
    vegetation.level >= 200 && vegetation.level - growth_amount < 200
}

/// A number drawn uniformly from `0..upper` by the random crate's
/// `Rng::gen_range` on the thread-local generator. Only the range of the
/// result is promised; the generator's state after the call is left free.
#[verifier::external_body]
fn random_below(rng: &mut ThreadRng, upper: usize) -> (r: usize)
    requires
        upper > 0,
    ensures
        r < upper,
{
    rng.gen_range(0..upper)
}

/// The level of a cell after one random tick, when the neighbours add no
/// bonus: pushed back by 50 next to a well-maintained structure, otherwise
/// grown by `base_growth`, saturating at 0 and 255.
pub open spec fn tick_level(level: u8, maintained: bool, base_growth: u8) -> u8 {
    if maintained {
        if level < 50 {
            0
        } else {
            (level - 50) as u8
        }
    } else if level + base_growth > 255 {
        255
    } else {
        (level + base_growth) as u8
    }
}

/// Whether one random tick makes a cell mature: it grows and crosses level
/// 200 on that tick.
pub open spec fn tick_matures(level: u8, maintained: bool, base_growth: u8) -> bool {
    let grown = tick_level(level, maintained, base_growth);
    !maintained && grown >= 200 && grown - base_growth < 200
}

/// The cells after one tick on each of the cells `picks`, in order.
pub open spec fn succession_levels(
    cells: Seq<VegetationState>,
    maintained: Seq<bool>,
    base_growth: u8,
    picks: Seq<int>,
) -> Seq<VegetationState>
    decreases picks.len(),
{
    if picks.len() == 0 {
        cells
    } else {
        let prev = succession_levels(cells, maintained, base_growth, picks.drop_last());
        let i = picks.last();
        prev.update(
            i,
            VegetationState { level: tick_level(prev[i].level, maintained[i], base_growth) },
        )
    }
}

/// The cells, in the order of the ticks, that became mature when the ticks
/// fell on `picks`.
pub open spec fn matured_picks(
    cells: Seq<VegetationState>,
    maintained: Seq<bool>,
    base_growth: u8,
    picks: Seq<int>,
) -> Seq<int>
    decreases picks.len(),
{
    if picks.len() == 0 {
        Seq::empty()
    } else {
        let prev = succession_levels(cells, maintained, base_growth, picks.drop_last());
        let i = picks.last();
        let rest = matured_picks(cells, maintained, base_growth, picks.drop_last());
        if tick_matures(prev[i].level, maintained[i], base_growth) {
            rest.push(i)
        } else {
            rest
        }
    }
}

/// Ticking cells of the grid never changes how many cells there are.
pub proof fn lemma_succession_keeps_cell_count(
    cells: Seq<VegetationState>,
    maintained: Seq<bool>,
    base_growth: u8,
    picks: Seq<int>,
)
    requires
        forall|j: int| 0 <= j < picks.len() ==> 0 <= #[trigger] picks[j] < cells.len(),
    ensures
        succession_levels(cells, maintained, base_growth, picks).len() == cells.len(),
    decreases picks.len(),
{
    if picks.len() > 0 {
        assert(picks.drop_last().len() == picks.len() - 1);
        assert forall|j: int| 0 <= j < picks.drop_last().len() implies 0 <= #[trigger] picks.drop_last()[j]
            < cells.len() by {
            assert(picks.drop_last()[j] == picks[j]);
        }
        assert(0 <= picks[picks.len() - 1] < cells.len());
        lemma_succession_keeps_cell_count(cells, maintained, base_growth, picks.drop_last());
    }
}

/// One more tick on cell `i`: next to a well-maintained structure its level
/// drops by 50, stopping at 0, and it never matures; otherwise it grows by
/// `base_growth`, stopping at 255, and is reported exactly when it ends at
/// 200 or above with less than 200 before the growth was added. No other
/// cell changes.
pub proof fn lemma_one_more_tick(
    cells: Seq<VegetationState>,
    maintained: Seq<bool>,
    base_growth: u8,
    picks: Seq<int>,
    i: int,
)
    requires
        0 <= i < cells.len(),
        forall|j: int| 0 <= j < picks.len() ==> 0 <= #[trigger] picks[j] < cells.len(),
    ensures
        ({
            let before = succession_levels(cells, maintained, base_growth, picks);
            let after = succession_levels(cells, maintained, base_growth, picks.push(i));
            let l = before[i].level;
            let reported = matured_picks(cells, maintained, base_growth, picks.push(i))
                != matured_picks(cells, maintained, base_growth, picks);
            &&& after.len() == before.len()
            &&& maintained[i] ==> after[i].level == if l >= 50 {
                l - 50
            } else {
                0
            }
            &&& maintained[i] ==> !reported
            &&& !maintained[i] ==> after[i].level == if l + base_growth <= 255 {
                l + base_growth
            } else {
                255
            }
            &&& !maintained[i] ==> (reported <==> (after[i].level >= 200 && after[i].level
                - base_growth < 200))
            &&& forall|j: int| 0 <= j < before.len() && j != i ==> #[trigger] after[j] == before[j]
        }),
{
    lemma_succession_keeps_cell_count(cells, maintained, base_growth, picks);
    let p2 = picks.push(i);
    assert(p2.drop_last() =~= picks);
    let rest = matured_picks(cells, maintained, base_growth, picks);
    assert(rest.push(i).len() == rest.len() + 1);
}

/// Runs the random ticks of ecological succession over the cells of
/// `vegetation` (at grid positions `positions`): up to `random_tick_count`
/// ticks, each on a cell drawn at random, as `succession_step` does.
/// Returns, for each cell that became mature, its index and a tree type
/// drawn from `0..3`.
///
/// Whatever the draws: exactly `min(random_tick_count, cells)` ticks are
/// run, each on some cell; the cells end as those ticks leave them and the
/// reported cells are exactly those that became mature, in tick order.
/// Cells next to a well-maintained structure never
/// grow, the others never shrink, and every reported cell is mature, not
/// maintained, and in range.
pub fn run_succession_ticks(
    rng: &mut ThreadRng,
    grid: &CityGrid,
    positions: &Vec<(usize, usize)>,
    vegetation: &mut Vec<VegetationState>,
    well_maintained: &Vec<bool>,
    base_growth: u8,
    random_tick_count: usize,
) -> (matured: Vec<(usize, u32)>)
    requires
        positions@.len() == old(vegetation)@.len(),
        well_maintained@.len() == old(vegetation)@.len(),
    ensures
        final(vegetation)@.len() == old(vegetation)@.len(),
        matured@.len() <= random_tick_count,
        matured@.len() <= old(vegetation)@.len(),
        forall|i: int|
            0 <= i < old(vegetation)@.len() ==> if well_maintained@[i] {
                #[trigger] final(vegetation)@[i].level <= old(vegetation)@[i].level
            } else {
                final(vegetation)@[i].level >= old(vegetation)@[i].level
            },
        forall|k: int|
            0 <= k < matured@.len() ==> {
                let (i, tree) = #[trigger] matured@[k];
                &&& i < old(vegetation)@.len()
                &&& tree < 3
                &&& !well_maintained@[i as int]
                &&& final(vegetation)@[i as int].level >= 200
            },
        exists|picks: Seq<int>|
            {
                &&& picks.len() == if random_tick_count < old(vegetation)@.len() {
                    random_tick_count as int
                } else {
                    old(vegetation)@.len() as int
                }
                &&& forall|j: int|
                    0 <= j < picks.len() ==> 0 <= #[trigger] picks[j] < old(vegetation)@.len()
                &&& final(vegetation)@ == succession_levels(
                    old(vegetation)@,
                    well_maintained@,
                    base_growth,
                    picks,
                )
                &&& matured@.map_values(|m: (usize, u32)| m.0 as int) == matured_picks(
                    old(vegetation)@,
                    well_maintained@,
                    base_growth,
                    picks,
                )
            },
{
    let count = vegetation.len();
    let tick_count = if random_tick_count < count {
        random_tick_count
    } else {
        count
    };
    let mut matured: Vec<(usize, u32)> = Vec::new();
    let mut t: usize = 0;
    let ghost mut picks: Seq<int> = Seq::empty();
    proof {
        assert(matured@.map_values(|m: (usize, u32)| m.0 as int) =~= Seq::<int>::empty());
    }
    while t < tick_count
        invariant
            count == old(vegetation)@.len(),
            vegetation@.len() == count,
            positions@.len() == count,
            well_maintained@.len() == count,
            tick_count <= random_tick_count,
            tick_count <= count,
            t <= tick_count,
            matured@.len() <= t,
            picks.len() == t,
            forall|j: int| 0 <= j < picks.len() ==> 0 <= #[trigger] picks[j] < count,
            vegetation@ == succession_levels(old(vegetation)@, well_maintained@, base_growth, picks),
            matured@.map_values(|m: (usize, u32)| m.0 as int) == matured_picks(
                old(vegetation)@,
                well_maintained@,
                base_growth,
                picks,
            ),
            forall|i: int|
                0 <= i < count ==> if well_maintained@[i] {
                    #[trigger] vegetation@[i].level <= old(vegetation)@[i].level
                } else {
                    vegetation@[i].level >= old(vegetation)@[i].level
                },
            forall|k: int|
                0 <= k < matured@.len() ==> {
                    let (i, tree) = #[trigger] matured@[k];
                    &&& i < count
                    &&& tree < 3
                    &&& !well_maintained@[i as int]
                    &&& vegetation@[i as int].level >= 200
                },
        decreases tick_count - t,
    {
        let index = random_below(rng, count);
        let (x, y) = positions[index];
        let neighbors = neighbor_levels(grid, x, y);
        let mut cell = vegetation[index];
        let ghost before = vegetation@;
        let ghost before_matured = matured@;
        let just_matured = succession_step(
            &mut cell,
            well_maintained[index],
            base_growth,
            neighbors.as_slice(),
        );
        vegetation.set(index, cell);
        if just_matured {
            let tree_type = random_below(rng, 3) as u32;
            matured.push((index, tree_type));
        }
        proof {
            let ghost new_picks = picks.push(index as int);
            assert(new_picks.drop_last() =~= picks);
            assert(vegetation@ =~= succession_levels(
                old(vegetation)@,
                well_maintained@,
                base_growth,
                new_picks,
            ));
            assert(matured@.map_values(|m: (usize, u32)| m.0 as int) =~= matured_picks(
                old(vegetation)@,
                well_maintained@,
                base_growth,
                new_picks,
            )) by {
                if just_matured {
                    assert(matured@ == before_matured.push(matured@.last()));
                    assert(matured@.map_values(|m: (usize, u32)| m.0 as int)
                        =~= before_matured.map_values(|m: (usize, u32)| m.0 as int).push(
                        index as int,
                    ));
                }
            }
            picks = new_picks;
            assert forall|k: int| 0 <= k < matured@.len() implies {
                let (i, tree) = #[trigger] matured@[k];
                &&& i < count
                &&& tree < 3
                &&& !well_maintained@[i as int]
                &&& vegetation@[i as int].level >= 200
            } by {
                let (i, tree) = matured@[k];
                if i != index {
                    assert(vegetation@[i as int] == before[i as int]);
                }
            }
        }
        t = t + 1;
    }
    proof {
        assert(picks.len() == tick_count);
    }
    matured
}

} // verus!
