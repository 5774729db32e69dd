//! Grid geometry: city dimensions, flat cell indices and footprints.
use vstd::prelude::*;
use vstd::arithmetic::div_mod::lemma_fundamental_div_mod_converse;
use bevy_ecs::entity::Entity;
use crate::utils::spatial::{square_rows, square_row, append_all};

verus! {

/// Maximum number of entities in a city.
pub const MAX_ENTITIES: usize = 30_000;

/// Grid width in cells.
pub const GRID_WIDTH: usize = 256;

/// Grid height in cells.
pub const GRID_HEIGHT: usize = 256;

/// Flat index of cell `(x, y)` in a grid stored row by row with `width`
/// cells per row.
pub fn index_from_xy(x: usize, y: usize, width: usize) -> (i: usize)
    requires
        y * width + x <= usize::MAX,
    ensures
        i == y * width + x,
{
    y * width + x
}

/// The cells a building or road occupies.
#[derive(Debug, Clone)]
pub struct GridFootprint {
    pub cells: Vec<(usize, usize)>,
}

/// The `i`-th cell of the `width`-wide rectangle with corner `(x, y)`,
/// listed row by row.
pub open spec fn rect_cell(x: usize, y: usize, width: usize, i: int) -> (usize, usize) {
    ((x + i % width as int) as usize, (y + i / width as int) as usize)
}

impl GridFootprint {
    /// An empty footprint.
    pub fn new() -> (f: Self)
        ensures
            f.cells@.len() == 0,
    {
        GridFootprint { cells: Vec::new() }
    }

    /// The `width` by `height` rectangle with corner `(x, y)`, row by row.
    pub fn from_rect(x: usize, y: usize, width: usize, height: usize) -> (f: Self)
        requires
            width * height <= usize::MAX,
            width > 0 && height > 0 ==> x + width - 1 <= usize::MAX && y + height - 1
                <= usize::MAX,
        ensures
            f.cells@.len() == width * height,
            forall|i: int|
                0 <= i < width * height ==> #[trigger] f.cells@[i] == rect_cell(x, y, width, i),
    {
        let mut cells: Vec<(usize, usize)> = Vec::with_capacity(width * height);
        let mut dy: usize = 0;
        while dy < height
            invariant
                dy <= height,
                width * height <= usize::MAX,
                width > 0 && height > 0 ==> x + width - 1 <= usize::MAX && y + height - 1
                    <= usize::MAX,
                cells@.len() == dy * width,
                forall|i: int| 0 <= i < dy * width ==> #[trigger] cells@[i] == rect_cell(x, y, width, i),
            decreases height - dy,
        {
            let mut dx: usize = 0;
            while dx < width
                invariant
                    dy < height,
                    dx <= width,
                    width * height <= usize::MAX,
                    width > 0 && height > 0 ==> x + width - 1 <= usize::MAX && y + height - 1
                        <= usize::MAX,
                    cells@.len() == dy * width + dx,
                    forall|i: int|
                        0 <= i < dy * width + dx ==> #[trigger] cells@[i] == rect_cell(x, y, width, i),
                decreases width - dx,
            {
                proof {
                    lemma_fundamental_div_mod_converse(
                        dy * width + dx,
                        width as int,
                        dy as int,
                        dx as int,
                    );
                }
                cells.push((x + dx, y + dy));
                dx = dx + 1;
            }
            proof {
                assert((dy + 1) * width == dy * width + width) by (nonlinear_arith);
            }
            dy = dy + 1;
        }
        proof {
            assert(dy * width == width * height) by (nonlinear_arith)
                requires
                    dy == height,
            ;
        }
        GridFootprint { cells }
    }
}

/// The entities of the cell at offset `(dx, dy)` from cell `(cx, cy)` of a
/// spatial hash whose rows are `stride` cells long: empty when the cell lies
/// left of or above the grid, or past the end of the cell list.
pub open spec fn hash_bucket(
    cells: Seq<Vec<Entity>>,
    cx: int,
    cy: int,
    dx: int,
    dy: int,
    stride: int,
) -> Seq<Entity> {
    let nx = cx + dx;
    let ny = cy + dy;
    if nx >= 0 && ny >= 0 && ny * stride + nx < cells.len() {
        cells[ny * stride + nx]@
    } else {
        Seq::empty()
    }
}

/// Collects the entities of the cells within `r` cells of `(cx, cy)` in a
/// spatial hash whose rows are `stride` cells long: row by row, from offset
/// `-r` to `r` in both directions, skipping cells left of or above the grid
/// and past the end of the cell list.
pub fn gather_cells(cells: &Vec<Vec<Entity>>, cx: isize, cy: isize, r: isize, stride: usize) -> (result: Vec<Entity>)
    requires
        isize::MIN < r < isize::MAX,
        r >= 0 ==> isize::MIN <= cx - r && cx + r <= isize::MAX && isize::MIN <= cy - r && cy + r
            <= isize::MAX,
        r >= 0 && cx + r >= 0 && cy + r >= 0 ==> (cy + r) * stride + cx + r <= usize::MAX,
    ensures
        result@ == if r >= 0 {
            square_rows(
                |dx: int, dy: int| hash_bucket(cells@, cx as int, cy as int, dx, dy, stride as int),
                -r,
                2 * r + 1,
                2 * r + 1,
            )
        } else {
            Seq::empty()
        },
{
    let mut result: Vec<Entity> = Vec::new();
    if r < 0 {
        return result;
    }
    let ghost g = cells@;
    let ghost bucket = |dx: int, dy: int| hash_bucket(g, cx as int, cy as int, dx, dy, stride as int);
    let ghost n = 2 * r + 1;
    let mut dy: isize = -r;
    while dy <= r
        invariant
            0 <= r < isize::MAX,
            -r <= dy <= r + 1,
            isize::MIN <= cx - r && cx + r <= isize::MAX && isize::MIN <= cy - r && cy + r
                <= isize::MAX,
            cx + r >= 0 && cy + r >= 0 ==> (cy + r) * stride + cx + r <= usize::MAX,
            g == cells@,
            bucket == (|dx: int, dy: int| hash_bucket(g, cx as int, cy as int, dx, dy, stride as int)),
            n == 2 * r + 1,
            result@ == square_rows(bucket, -r, n, dy + r),
        decreases r + 1 - dy,
    {
        let mut dx: isize = -r;
        while dx <= r
            invariant
                0 <= r < isize::MAX,
                -r <= dy <= r,
                -r <= dx <= r + 1,
                isize::MIN <= cx - r && cx + r <= isize::MAX && isize::MIN <= cy - r && cy + r
                    <= isize::MAX,
                cx + r >= 0 && cy + r >= 0 ==> (cy + r) * stride + cx + r <= usize::MAX,
                g == cells@,
                bucket == (|dx: int, dy: int| hash_bucket(g, cx as int, cy as int, dx, dy, stride as int)),
                n == 2 * r + 1,
                result@ == square_rows(bucket, -r, n, dy + r) + square_row(bucket, -r, dy as int, dx + r),
            decreases r + 1 - dx,
        {
            let nx = cx + dx;
            let ny = cy + dy;
            let ghost before = result@;
            if nx >= 0 && ny >= 0 {
                proof {
                    assert((ny as int) * (stride as int) <= (cy + r) * (stride as int))
                        by (nonlinear_arith)
                        requires
                            0 <= ny <= cy + r,
                            stride >= 0,
                    ;
                }
                let idx = (ny as usize) * stride + (nx as usize);
                if idx < cells.len() {
                    append_all(&mut result, &cells[idx]);
                }
            }
            proof {
                assert(result@ == before + bucket(dx as int, dy as int));
                assert(square_rows(bucket, -r, n, dy + r) + square_row(bucket, -r, dy as int, dx + r + 1)
                    =~= before + bucket(dx as int, dy as int));
            }
            dx = dx + 1;
        }
        proof {
            assert(square_rows(bucket, -r, n, dy + r + 1) =~= square_rows(bucket, -r, n, dy + r)
                + square_row(bucket, -r, dy as int, n));
        }
        dy = dy + 1;
    }
    result
}

/// Adds `entity` to cell `idx` of a spatial hash; does nothing past the end
/// of the cell list.
pub fn insert_into_cell<T>(cells: &mut Vec<Vec<T>>, idx: usize, entity: T)
    ensures
        final(cells)@.len() == old(cells)@.len(),
        forall|i: int|
            0 <= i < old(cells)@.len() ==> #[trigger] final(cells)@[i]@ == if i == idx {
                old(cells)@[i]@.push(entity)
            } else {
                old(cells)@[i]@
            },
{
    if idx < cells.len() {
        cells[idx].push(entity);
    }
}

/// Empties every cell of a spatial hash, keeping the cells.
pub fn clear_cells<T>(cells: &mut Vec<Vec<T>>)
    ensures
        final(cells)@.len() == old(cells)@.len(),
        forall|i: int| 0 <= i < final(cells)@.len() ==> #[trigger] final(cells)@[i]@.len() == 0,
{
    let mut i: usize = 0;
    while i < cells.len()
        invariant
            i <= cells@.len(),
            cells@.len() == old(cells)@.len(),
            forall|j: int| 0 <= j < i ==> #[trigger] cells@[j]@.len() == 0,
        decreases cells@.len() - i,
    {
        cells[i].clear();
        i = i + 1;
    }
}

} // verus!
