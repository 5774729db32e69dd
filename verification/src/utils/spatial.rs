//! Square neighbourhood scans shared by the spatial structures.
use vstd::prelude::*;

verus! {

/// The concatenation of `bucket(lo + k, dy)` for `k` below `j`: the first
/// `j` cells of row offset `dy` of a square scan starting at offset `lo`.
pub open spec fn square_row<T>(bucket: spec_fn(int, int) -> Seq<T>, lo: int, dy: int, j: int) -> Seq<T>
    decreases j,
{
    if j <= 0 {
        Seq::empty()
    } else {
        square_row(bucket, lo, dy, j - 1) + bucket(lo + j - 1, dy)
    }
}

/// The concatenation of the first `i` rows, each `n` cells long, of a
/// square scan starting at offset `lo` in both directions.
pub open spec fn square_rows<T>(bucket: spec_fn(int, int) -> Seq<T>, lo: int, n: int, i: int) -> Seq<T>
    decreases i,
{
    if i <= 0 {
        Seq::empty()
    } else {
        square_rows(bucket, lo, n, i - 1) + square_row(bucket, lo, lo + i - 1, n)
    }
}

/// Every item of the first `j` cells of row `dy` comes from one of them.
pub proof fn lemma_square_row_member<T>(
    bucket: spec_fn(int, int) -> Seq<T>,
    lo: int,
    dy: int,
    j: int,
    k: int,
)
    requires
        0 <= k < square_row(bucket, lo, dy, j).len(),
    ensures
        exists|dx: int|
            lo <= dx < lo + j && #[trigger] bucket(dx, dy).contains(
                square_row(bucket, lo, dy, j)[k],
            ),
    decreases j,
{
    if j > 0 {
        let prev = square_row(bucket, lo, dy, j - 1);
        if k < prev.len() {
            lemma_square_row_member(bucket, lo, dy, j - 1, k);
            let dx = choose|dx: int| lo <= dx < lo + j - 1 && #[trigger] bucket(dx, dy).contains(
                prev[k],
            );
            assert(bucket(dx, dy).contains(square_row(bucket, lo, dy, j)[k]));
        } else {
            let d = lo + j - 1;
            let idx = k - prev.len();
            assert(bucket(d, dy)[idx] == square_row(bucket, lo, dy, j)[k]);
            assert(bucket(d, dy).contains(square_row(bucket, lo, dy, j)[k]));
        }
    }
}

/// Every item of the first `i` rows of a square scan comes from one of
/// its cells.
pub proof fn lemma_square_rows_member<T>(
    bucket: spec_fn(int, int) -> Seq<T>,
    lo: int,
    n: int,
    i: int,
    k: int,
)
    requires
        0 <= k < square_rows(bucket, lo, n, i).len(),
    ensures
        exists|dx: int, dy: int|
            lo <= dx < lo + n && lo <= dy < lo + i && #[trigger] bucket(dx, dy).contains(
                square_rows(bucket, lo, n, i)[k],
            ),
    decreases i,
{
    if i > 0 {
        let prev = square_rows(bucket, lo, n, i - 1);
        let x = square_rows(bucket, lo, n, i)[k];
        if k < prev.len() {
            lemma_square_rows_member(bucket, lo, n, i - 1, k);
            let (dx, dy) = choose|dx: int, dy: int|
                lo <= dx < lo + n && lo <= dy < lo + i - 1 && #[trigger] bucket(dx, dy).contains(
                    prev[k],
                );
            assert(bucket(dx, dy).contains(x));
        } else {
            let row = square_row(bucket, lo, lo + i - 1, n);
            assert(row[k - prev.len()] == x);
            lemma_square_row_member(bucket, lo, lo + i - 1, n, k - prev.len());
            let dx = choose|dx: int| lo <= dx < lo + n && #[trigger] bucket(dx, lo + i - 1).contains(
                row[k - prev.len()],
            );
            assert(bucket(dx, lo + i - 1).contains(x));
        }
    }
}

/// Appends the items of `bucket` to `result`, in order.
pub fn append_all<T: Copy>(result: &mut Vec<T>, bucket: &Vec<T>)
    ensures
        final(result)@ == old(result)@ + bucket@,
{
    let mut j: usize = 0;
    while j < bucket.len()
        invariant
            j <= bucket@.len(),
            result@ == old(result)@ + bucket@.take(j as int),
        decreases bucket@.len() - j,
    {
        proof {
            assert(bucket@.take(j as int + 1) =~= bucket@.take(j as int).push(bucket@[j as int]));
        }
        result.push(bucket[j]);
        j = j + 1;
    }
    proof {
        assert(bucket@.take(bucket@.len() as int) =~= bucket@);
    }
}

/// Clamps cell coordinates to the last column and row of a grid.
pub fn clamp_cell(cx: usize, cy: usize, width: usize, height: usize) -> (c: (usize, usize))
    requires
        width > 0,
        height > 0,
    ensures
        c.0 == if cx < width { cx as int } else { width - 1 },
        c.1 == if cy < height { cy as int } else { height - 1 },
{
    let x = if cx < width - 1 { cx } else { width - 1 };
    let y = if cy < height - 1 { cy } else { height - 1 };
    (x, y)
}

/// The ids of the cell at offset `(dx, dy)` from cell `(bx, by)` of a
/// `width` by `height` grid, each coordinate first raised to zero if
/// negative: empty when the cell lies right of or below the grid.
pub open spec fn clamped_bucket(
    cells: Seq<Vec<u32>>,
    width: int,
    height: int,
    bx: int,
    by: int,
    dx: int,
    dy: int,
) -> Seq<u32> {
    let cx = if bx + dx < 0 { 0 } else { bx + dx };
    let cy = if by + dy < 0 { 0 } else { by + dy };
    if cx < width && cy < height {
        cells[cy * width + cx]@
    } else {
        Seq::empty()
    }
}

/// A cell right of or below the grid contributes nothing to a radius
/// query, and a cell inside it contributes its ids, where a negative
/// coordinate is first raised to zero.
pub proof fn lemma_clamped_bucket_inside_only(
    cells: Seq<Vec<u32>>,
    width: int,
    height: int,
    bx: int,
    by: int,
    dx: int,
    dy: int,
)
    requires
        width >= 0,
        height >= 0,
    ensures
        bx + dx >= width || by + dy >= height ==> clamped_bucket(
            cells,
            width,
            height,
            bx,
            by,
            dx,
            dy,
        ).len() == 0,
        ({
            let cx = if bx + dx < 0 { 0 } else { bx + dx };
            let cy = if by + dy < 0 { 0 } else { by + dy };
            cx < width && cy < height ==> clamped_bucket(cells, width, height, bx, by, dx, dy)
                == cells[cy * width + cx]@
        }),
{
}

/// `v`, or zero when negative.
pub open spec fn raised(v: int) -> int {
    if v < 0 {
        0
    } else {
        v
    }
}

/// The ids held by cell `(cx, cy)` of a grid `width` cells wide.
pub open spec fn cell_ids(cells: Seq<Vec<u32>>, width: int, cx: int, cy: int) -> Seq<u32> {
    cells[cy * width + cx]@
}

/// Whether `id` lies in a cell inside the `width` by `height` grid and
/// within `r` cells of `(bx, by)` in each direction, coordinates below zero
/// being raised to zero.
pub open spec fn id_in_window(
    cells: Seq<Vec<u32>>,
    width: int,
    height: int,
    bx: int,
    by: int,
    r: int,
    id: u32,
) -> bool {
    exists|cx: int, cy: int|
        0 <= cx < width && 0 <= cy < height && raised(bx - r) <= cx <= raised(bx + r) && raised(
            by - r,
        ) <= cy <= raised(by + r) && #[trigger] cell_ids(cells, width, cx, cy).contains(id)
}

/// Every id gathered by a radius query lies in a cell inside the grid and
/// within `r` cells of the centre in each direction (coordinates below zero
/// being raised to zero).
pub proof fn lemma_gathered_ids_from_cells_inside(
    cells: Seq<Vec<u32>>,
    width: int,
    height: int,
    bx: int,
    by: int,
    r: int,
    id: u32,
)
    requires
        r >= 0,
        square_rows(
            |dx: int, dy: int| clamped_bucket(cells, width, height, bx, by, dx, dy),
            -r,
            2 * r + 1,
            2 * r + 1,
        ).contains(id),
    ensures
        id_in_window(cells, width, height, bx, by, r, id),
{
    let bucket = |dx: int, dy: int| clamped_bucket(cells, width, height, bx, by, dx, dy);
    let all = square_rows(bucket, -r, 2 * r + 1, 2 * r + 1);
    let k = choose|k: int| 0 <= k < all.len() && all[k] == id;
    lemma_square_rows_member(bucket, -r, 2 * r + 1, 2 * r + 1, k);
    let (dx, dy) = choose|dx: int, dy: int|
        -r <= dx < -r + 2 * r + 1 && -r <= dy < -r + 2 * r + 1 && #[trigger] bucket(dx, dy).contains(
            all[k],
        );
    let cx = raised(bx + dx);
    let cy = raised(by + dy);
    assert(cx < width && cy < height);
    assert(cell_ids(cells, width, cx, cy).contains(id));
}

/// Collects the ids of the cells within `r` cells of `(center_cx,
/// center_cy)` in a `width` by `height` grid, row by row from offset `-r` to
/// `r`. The centre is taken as an `i32`; offsets that would go negative are
/// raised to zero (so the first column or row can be visited more than
/// once); cells right of or below the grid are skipped.
pub fn gather_clamped(
    cells: &Vec<Vec<u32>>,
    width: usize,
    height: usize,
    center_cx: usize,
    center_cy: usize,
    r: i32,
) -> (result: Vec<u32>)
    requires
        width * height <= cells@.len(),
        i32::MIN < r < i32::MAX,
        r >= 0 ==> i32::MIN <= (center_cx as i32) - r && (center_cx as i32) + r <= i32::MAX
            && i32::MIN <= (center_cy as i32) - r && (center_cy as i32) + r <= i32::MAX,
    ensures
        result@ == if r >= 0 {
            square_rows(
                |dx: int, dy: int|
                    clamped_bucket(
                        cells@,
                        width as int,
                        height as int,
                        (center_cx as i32) as int,
                        (center_cy as i32) as int,
                        dx,
                        dy,
                    ),
                -r,
                2 * r + 1,
                2 * r + 1,
            )
        } else {
            Seq::empty()
        },
        forall|k: int|
            0 <= k < result@.len() ==> id_in_window(
                cells@,
                width as int,
                height as int,
                (center_cx as i32) as int,
                (center_cy as i32) as int,
                r as int,
                #[trigger] result@[k],
            ),
{
    let mut result: Vec<u32> = Vec::new();
    if r < 0 {
        return result;
    }
    let total = cells.len();
    let bx = center_cx as i32;
    let by = center_cy as i32;
    let ghost g = cells@;
    let ghost bucket = |dx: int, dy: int|
        clamped_bucket(g, width as int, height as int, bx as int, by as int, dx, dy);
    let ghost n = 2 * r + 1;
    let mut dy: i32 = -r;
    while dy <= r
        invariant
            0 <= r < i32::MAX,
            -r <= dy <= r + 1,
            i32::MIN <= bx - r && bx + r <= i32::MAX && i32::MIN <= by - r && by + r <= i32::MAX,
            width * height <= g.len(),
            total == g.len(),
            g == cells@,
            bucket == (|dx: int, dy: int|
                clamped_bucket(g, width as int, height as int, bx as int, by as int, dx, dy)),
            n == 2 * r + 1,
            result@ == square_rows(bucket, -r, n, dy + r),
        decreases r + 1 - dy,
    {
        let mut dx: i32 = -r;
        while dx <= r
            invariant
                0 <= r < i32::MAX,
                -r <= dy <= r,
                -r <= dx <= r + 1,
                i32::MIN <= bx - r && bx + r <= i32::MAX && i32::MIN <= by - r && by + r
                    <= i32::MAX,
                width * height <= g.len(),
                total == g.len(),
                g == cells@,
                bucket == (|dx: int, dy: int|
                    clamped_bucket(g, width as int, height as int, bx as int, by as int, dx, dy)),
                n == 2 * r + 1,
                result@ == square_rows(bucket, -r, n, dy + r) + square_row(bucket, -r, dy as int, dx + r),
            decreases r + 1 - dx,
        {
            let sx = bx + dx;
            let sy = by + dy;
            let cx: usize = if sx < 0 { 0 } else { sx as usize };
            let cy: usize = if sy < 0 { 0 } else { sy as usize };
            let ghost before = result@;
            if cx < width && cy < height {
                proof {
                    assert(cy * width + cx < width * height) by (nonlinear_arith)
                        requires
                            cx < width,
                            cy < height,
                    ;
                    assert(width * height <= total);
                }
                let idx = cy * width + cx;
                append_all(&mut result, &cells[idx]);
            }
            proof {
                assert(result@ == before + bucket(dx as int, dy as int));
                assert(square_rows(bucket, -r, n, dy + r) + square_row(bucket, -r, dy as int, dx + r + 1)
                    =~= before + bucket(dx as int, dy as int));
            }
            dx = dx + 1;
        }
        proof {
            assert(square_rows(bucket, -r, n, dy + r + 1) =~= square_rows(bucket, -r, n, dy + r)
                + square_row(bucket, -r, dy as int, n));
        }
        dy = dy + 1;
    }
    proof {
        assert forall|k: int| 0 <= k < result@.len() implies id_in_window(
            g,
            width as int,
            height as int,
            bx as int,
            by as int,
            r as int,
            #[trigger] result@[k],
        ) by {
            assert(result@.contains(result@[k]));
            lemma_gathered_ids_from_cells_inside(
                g,
                width as int,
                height as int,
                bx as int,
                by as int,
                r as int,
                result@[k],
            );
        }
    }
    result
}

/// `a + b`, or `usize::MAX` past it.
pub open spec fn usize_saturating_add(a: int, b: int) -> int {
    if a + b > usize::MAX {
        usize::MAX as int
    } else {
        a + b
    }
}

/// `a - b`, or zero below it.
pub open spec fn usize_saturating_sub(a: int, b: int) -> int {
    if a < b {
        0
    } else {
        a - b
    }
}

/// The cell visited at offset `(dx, dy)` by the smoothing window around
/// `(x, y)`: `x + dx - radius` (saturating both ways), likewise for `y`,
/// kept only inside the `width` by `height` grid.
pub open spec fn window_bucket(
    x: int,
    y: int,
    radius: int,
    width: int,
    height: int,
    dx: int,
    dy: int,
) -> Seq<(usize, usize)> {
    let nx = usize_saturating_sub(usize_saturating_add(x, dx), radius);
    let ny = usize_saturating_sub(usize_saturating_add(y, dy), radius);
    if nx < width && ny < height {
        seq![(nx as usize, ny as usize)]
    } else {
        Seq::empty()
    }
}

/// Every cell that smoothing averages lies inside the grid.
pub proof fn lemma_smoothing_cells_inside_grid(
    x: int,
    y: int,
    radius: int,
    width: int,
    height: int,
    k: int,
)
    requires
        0 <= k < square_rows(
            |dx: int, dy: int| window_bucket(x, y, radius, width, height, dx, dy),
            0,
            2 * radius + 1,
            2 * radius + 1,
        ).len(),
    ensures
        ({
            let c = square_rows(
                |dx: int, dy: int| window_bucket(x, y, radius, width, height, dx, dy),
                0,
                2 * radius + 1,
                2 * radius + 1,
            )[k];
            c.0 < width && c.1 < height
        }),
{
    let bucket = |dx: int, dy: int| window_bucket(x, y, radius, width, height, dx, dy);
    lemma_square_rows_member(bucket, 0, 2 * radius + 1, 2 * radius + 1, k);
    let c = square_rows(bucket, 0, 2 * radius + 1, 2 * radius + 1)[k];
    let (dx, dy) = choose|dx: int, dy: int|
        0 <= dx < 2 * radius + 1 && 0 <= dy < 2 * radius + 1 && #[trigger] bucket(dx, dy).contains(c);
    let w = bucket(dx, dy);
    let j = choose|j: int| 0 <= j < w.len() && w[j] == c;
}

/// The cells that smoothing `(x, y)` with the given radius averages: the
/// square of side `2 * radius + 1` around it, row by row, clipped to the
/// `width` by `height` grid (offsets saturate at the grid's first row and
/// column, which may then appear more than once).
pub fn smoothing_window(x: usize, y: usize, radius: usize, width: usize, height: usize) -> (cells: Vec<(usize, usize)>)
    requires
        radius * 2 <= usize::MAX,
    ensures
        cells@ == square_rows(
            |dx: int, dy: int|
                window_bucket(x as int, y as int, radius as int, width as int, height as int, dx, dy),
            0,
            2 * radius + 1,
            2 * radius + 1,
        ),
        forall|k: int| 0 <= k < cells@.len() ==> #[trigger] cells@[k].0 < width && cells@[k].1 < height,
{
    let mut cells: Vec<(usize, usize)> = Vec::new();
    let side = radius * 2;
    let ghost bucket = |dx: int, dy: int|
        window_bucket(x as int, y as int, radius as int, width as int, height as int, dx, dy);
    let ghost n = 2 * radius + 1;
    let mut dy: usize = 0;
    while dy <= side
        invariant
            side == radius * 2,
            dy <= side + 1,
            bucket == (|dx: int, dy: int|
                window_bucket(x as int, y as int, radius as int, width as int, height as int, dx, dy)),
            n == 2 * radius + 1,
            cells@ == square_rows(bucket, 0, n, dy as int),
            forall|k: int| 0 <= k < cells@.len() ==> #[trigger] cells@[k].0 < width && cells@[k].1 < height,
        decreases side + 1 - dy,
    {
        let mut dx: usize = 0;
        while dx <= side
            invariant
                side == radius * 2,
                dy <= side,
                dx <= side + 1,
                bucket == (|dx: int, dy: int|
                    window_bucket(x as int, y as int, radius as int, width as int, height as int, dx, dy)),
                n == 2 * radius + 1,
                cells@ == square_rows(bucket, 0, n, dy as int) + square_row(bucket, 0, dy as int, dx as int),
                forall|k: int| 0 <= k < cells@.len() ==> #[trigger] cells@[k].0 < width && cells@[k].1 < height,
            decreases side + 1 - dx,
        {
            let nx = x.saturating_add(dx).saturating_sub(radius);
            let ny = y.saturating_add(dy).saturating_sub(radius);
            let ghost before = cells@;
            if nx < width && ny < height {
                cells.push((nx, ny));
            }
            proof {
                assert(cells@ =~= before + bucket(dx as int, dy as int));
                assert(square_rows(bucket, 0, n, dy as int) + square_row(bucket, 0, dy as int, dx + 1)
                    =~= before + bucket(dx as int, dy as int));
            }
            dx = dx + 1;
        }
        proof {
            assert(square_rows(bucket, 0, n, dy + 1) =~= square_rows(bucket, 0, n, dy as int)
                + square_row(bucket, 0, dy as int, n));
        }
        dy = dy + 1;
    }
    cells
}

} // verus!
