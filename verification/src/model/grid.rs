//! A flat row-major 2D container with bounds-checked access, neighbor
//! queries, outline drawing, and grid/world coordinate transforms.

use vstd::prelude::*;

use crate::model::Coordinates;
use crate::model::GridSize;
use crate::model::WorldPosition;

verus! {

/// Column of flat index `i` in a row-major grid of width `w`.
pub open spec fn col_of(i: int, w: int) -> int {
    i % w
}

/// Row of flat index `i` in a row-major grid of width `w`.
pub open spec fn row_of(i: int, w: int) -> int {
    i / w
}

/// World milliunit coordinate of grid line `grid` on an axis `dim` tiles
/// long: one tile per unit, the whole grid centered on the world origin.
pub open spec fn spec_axis_to_world(grid: int, dim: int) -> int {
    grid * 1000 - (dim * 500 - 500)
}

/// Whether `(x, y)` lies on the border of the axis-aligned rectangle with
/// inclusive corners `p0` (low) and `p1` (high).
pub open spec fn on_outline(p0: Coordinates, p1: Coordinates, x: int, y: int) -> bool {
    ||| (y == p0.y || y == p1.y) && p0.x <= x <= p1.x
    ||| (x == p0.x || x == p1.x) && p0.y <= y <= p1.y
}

/// A fixed-size 2D grid stored row-major: index `y * width + x`.
///
/// The grid never resizes; a new one must be constructed instead. Its view is
/// the flat cell sequence, always exactly `width * height` long.
#[derive(Debug, Clone)]
pub struct SquareGrid<T> {
    size: GridSize,
    cells: Vec<T>,
}

impl<T> View for SquareGrid<T> {
    type V = Seq<T>;

    closed spec fn view(&self) -> Seq<T> {
        self.cells@
    }
}

impl<T> SquareGrid<T> {
    /// The grid's size in tiles.
    pub closed spec fn spec_size(&self) -> GridSize {
        self.size
    }

    pub open spec fn spec_width(&self) -> int {
        self.spec_size().width as int
    }

    pub open spec fn spec_height(&self) -> int {
        self.spec_size().height as int
    }

    /// The cell sequence is exactly as long as the grid's area.
    pub open spec fn wf(&self) -> bool {
        self@.len() == self.spec_width() * self.spec_height()
    }

    /// Whether `p` addresses a cell of this grid.
    pub open spec fn spec_in_bounds(&self, p: Coordinates) -> bool {
        0 <= p.x < self.spec_width() && 0 <= p.y < self.spec_height()
    }

    /// The flat index of cell `p`: row-major, `y * width + x`.
    pub open spec fn spec_index_of(&self, p: Coordinates) -> int {
        p.y * self.spec_width() + p.x
    }

    pub fn size(&self) -> (r: GridSize)
        ensures
            r == self.spec_size(),
    {
        self.size
    }

    pub fn new(size: GridSize, cells: Vec<T>) -> (r: Self)
        requires
            cells@.len() == size.spec_area(),
        ensures
            r.wf(),
            r.spec_size() == size,
            r@ == cells@,
    {
        Self { size, cells }
    }

    /// Number of cells.
    pub fn len_cells(&self) -> (r: usize)
        ensures
            r == self@.len(),
    {
        self.cells.len()
    }

    /// The cell at flat index `i`.
    pub fn cell_at(&self, i: usize) -> (r: &T)
        requires
            i < self@.len(),
        ensures
            *r == self@[i as int],
    {
        &self.cells[i]
    }

    pub fn into_cells(self) -> (r: Vec<T>)
        ensures
            r@ == self@,
    {
        self.cells
    }

    /// The flat index of `p`, or `None` when `p` lies outside the grid.
    fn coordinates_to_index(&self, p: Coordinates) -> (r: Option<usize>)
        requires
            self.wf(),
        ensures
            r is Some <==> self.spec_in_bounds(p),
            r matches Some(i) ==> i == self.spec_index_of(p) && i < self@.len(),
    {
        if p.x < 0 || p.y < 0 {
            return None;
        }
        let x = p.x as u32;
        let y = p.y as u32;
        if x >= self.size.width || y >= self.size.height {
            return None;
        }
        let n = self.cells.len();
        proof {
            let w = self.spec_width();
            assert((y as int) * w + w == (y as int + 1) * w) by (nonlinear_arith);
            let h = self.spec_height();
            vstd::arithmetic::mul::lemma_mul_inequality(y as int + 1, h, w);
            assert(h * w == w * h) by (nonlinear_arith);
            assert((y as int) * w + (x as int) < n);
        }
        Some((y as usize) * (self.size.width as usize) + (x as usize))
    }

    /// Overwrites the cell at `p`; addressing a cell outside the grid is a
    /// caller error, ruled out by the precondition.
    pub fn set(&mut self, p: Coordinates, value: T)
        requires
            old(self).wf(),
            old(self).spec_in_bounds(p),
        ensures
            final(self).wf(),
            final(self).spec_size() == old(self).spec_size(),
            final(self)@ == old(self)@.update(old(self).spec_index_of(p), value),
    {
        let index = match self.coordinates_to_index(p) {
            Some(index) => index,
            None => {
                proof {
                    assert(false);
                }
                0
            },
        };
        self.cells.set(index, value);
    }

    /// Bounds-checked read: `None` for any `p` outside the grid.
    pub fn get(&self, p: Coordinates) -> (r: Option<&T>)
        requires
            self.wf(),
        ensures
            r is Some <==> self.spec_in_bounds(p),
            r matches Some(v) ==> *v == self@[self.spec_index_of(p)],
    {
        match self.coordinates_to_index(p) {
            Some(index) => Some(&self.cells[index]),
            None => None,
        }
    }
}

/// Ties the flat row-major index `y * w + x` back to its row and column, and
/// bounds it by the grid's area.
pub proof fn lemma_row_major_index(w: int, h: int, x: int, y: int)
    requires
        0 <= x < w,
        0 <= y < h,
    ensures
        0 <= y * w + x < w * h,
        col_of(y * w + x, w) == x,
        row_of(y * w + x, w) == y,
{
    assert(y * w + w == (y + 1) * w) by (nonlinear_arith);
    vstd::arithmetic::mul::lemma_mul_inequality(y + 1, h, w);
    assert(h * w == w * h) by (nonlinear_arith);
    assert(y * w >= 0) by (nonlinear_arith)
        requires
            y >= 0,
            w >= 0,
    ;
    vstd::arithmetic::div_mod::lemma_fundamental_div_mod_converse(y * w + x, w, y, x);
}

impl<T> SquareGrid<T> {
    /// Offset from a cell's world position back to grid-local space: half the
    /// grid's extent less half a tile, on each horizontal axis.
    pub fn world_to_local(&self) -> (r: WorldPosition)
        ensures
            r.x == self.spec_width() * 500 - 500,
            r.y == 0,
            r.z == self.spec_height() * 500 - 500,
    {
        WorldPosition {
            x: (self.size.width as i64) * 500 - 500,
            y: 0,
            z: (self.size.height as i64) * 500 - 500,
        }
    }

    /// Offset from grid-local space to world space: the negation of
    /// `world_to_local`.
    pub fn local_to_world(&self) -> (r: WorldPosition)
        ensures
            r.x == -(self.spec_width() * 500 - 500),
            r.y == 0,
            r.z == -(self.spec_height() * 500 - 500),
    {
        WorldPosition {
            x: 500 - (self.size.width as i64) * 500,
            y: 0,
            z: 500 - (self.size.height as i64) * 500,
        }
    }

    /// World position of cell `grid`: one tile per unit, the whole grid
    /// centered on the world origin, at height zero.
    pub fn grid_to_world(&self, grid: Coordinates) -> (r: WorldPosition)
        ensures
            r.x == spec_axis_to_world(grid.x as int, self.spec_width()),
            r.y == 0,
            r.z == spec_axis_to_world(grid.y as int, self.spec_height()),
    {
        let local = self.local_to_world();
        WorldPosition {
            x: (grid.x as i64) * 1000 + local.x,
            y: 0,
            z: (grid.y as i64) * 1000 + local.z,
        }
    }
}

impl<T: Copy> SquareGrid<T> {
    /// Writes `value` along the border of the rectangle with inclusive
    /// corners `p0` and `p1`; every other cell keeps its prior value. The
    /// caller must order the corners and keep them inside the grid.
    pub fn outline(&mut self, p0: Coordinates, p1: Coordinates, value: T)
        requires
            old(self).wf(),
            old(self).spec_in_bounds(p0),
            old(self).spec_in_bounds(p1),
            p0.x <= p1.x,
            p0.y <= p1.y,
        ensures
            final(self).wf(),
            final(self).spec_size() == old(self).spec_size(),
            forall|i: int|
                0 <= i < old(self)@.len() ==> #[trigger] final(self)@[i] == (if on_outline(
                    p0,
                    p1,
                    col_of(i, old(self).spec_width()),
                    row_of(i, old(self).spec_width()),
                ) {
                    value
                } else {
                    old(self)@[i]
                }),
    {
        let ghost orig = *self;
        let ghost w = self.spec_width();
        let ghost h = self.spec_height();
        let mut x: i64 = p0.x as i64;
        while x <= p1.x as i64
            invariant
                self.wf(),
                self.spec_size() == orig.spec_size(),
                w == orig.spec_width(),
                h == orig.spec_height(),
                orig.wf(),
                orig.spec_in_bounds(p0),
                orig.spec_in_bounds(p1),
                p0.x <= p1.x,
                p0.y <= p1.y,
                p0.x <= x <= p1.x + 1,
                forall|i: int|
                    0 <= i < orig@.len() ==> #[trigger] self@[i] == (if (row_of(i, w) == p0.y
                        || row_of(i, w) == p1.y) && p0.x <= col_of(i, w) < x {
                        value
                    } else {
                        orig@[i]
                    }),
            decreases p1.x + 1 - x,
        {
            proof {
                lemma_row_major_index(w, h, x as int, p0.y as int);
                lemma_row_major_index(w, h, x as int, p1.y as int);
            }
            self.set(Coordinates { x: x as i32, y: p0.y }, value);
            self.set(Coordinates { x: x as i32, y: p1.y }, value);
            proof {
                assert forall|i: int| 0 <= i < orig@.len() implies #[trigger] self@[i] == (if (
                row_of(i, w) == p0.y || row_of(i, w) == p1.y) && p0.x <= col_of(i, w) < x + 1 {
                    value
                } else {
                    orig@[i]
                }) by {
                    vstd::arithmetic::div_mod::lemma_fundamental_div_mod(i, w);
                    vstd::arithmetic::mul::lemma_mul_is_commutative(w, row_of(i, w));
                }
            }
            x = x + 1;
        }
        let mut y: i64 = (p0.y as i64) + 1;
        while y < p1.y as i64
            invariant
                self.wf(),
                self.spec_size() == orig.spec_size(),
                w == orig.spec_width(),
                h == orig.spec_height(),
                orig.wf(),
                orig.spec_in_bounds(p0),
                orig.spec_in_bounds(p1),
                p0.x <= p1.x,
                p0.y <= p1.y,
                p0.y < y,
                y <= p1.y || y == p0.y + 1,
                forall|i: int|
                    0 <= i < orig@.len() ==> #[trigger] self@[i] == (if ((row_of(i, w) == p0.y
                        || row_of(i, w) == p1.y) && p0.x <= col_of(i, w) <= p1.x) || ((col_of(i, w)
                        == p0.x || col_of(i, w) == p1.x) && p0.y < row_of(i, w) < y) {
                        value
                    } else {
                        orig@[i]
                    }),
            decreases p1.y - y,
        {
            proof {
                lemma_row_major_index(w, h, p0.x as int, y as int);
                lemma_row_major_index(w, h, p1.x as int, y as int);
            }
            self.set(Coordinates { x: p0.x, y: y as i32 }, value);
            self.set(Coordinates { x: p1.x, y: y as i32 }, value);
            proof {
                assert forall|i: int| 0 <= i < orig@.len() implies #[trigger] self@[i] == (if ((
                row_of(i, w) == p0.y || row_of(i, w) == p1.y) && p0.x <= col_of(i, w) <= p1.x) || ((
                col_of(i, w) == p0.x || col_of(i, w) == p1.x) && p0.y < row_of(i, w) < y + 1) {
                    value
                } else {
                    orig@[i]
                }) by {
                    vstd::arithmetic::div_mod::lemma_fundamental_div_mod(i, w);
                    vstd::arithmetic::mul::lemma_mul_is_commutative(w, row_of(i, w));
                }
            }
            y = y + 1;
        }
        proof {
            assert forall|i: int| 0 <= i < orig@.len() implies #[trigger] self@[i] == (if
            on_outline(p0, p1, col_of(i, w), row_of(i, w)) {
                value
            } else {
                orig@[i]
            }) by {
                vstd::arithmetic::div_mod::lemma_fundamental_div_mod(i, w);
                vstd::arithmetic::mul::lemma_mul_is_commutative(w, row_of(i, w));
            }
        }
    }

    /// A grid of the given size with every cell holding `value`.
    pub fn new_flat(size: GridSize, value: T) -> (r: Self)
        requires
            size.spec_area() <= usize::MAX,
        ensures
            r.wf(),
            r.spec_size() == size,
            forall|i: int| 0 <= i < r@.len() ==> r@[i] == value,
    {
        let total = (size.width as usize) * (size.height as usize);
        let mut cells: Vec<T> = Vec::new();
        let mut i: usize = 0;
        while i < total
            invariant
                i <= total,
                total == size.spec_area(),
                cells@.len() == i,
                forall|j: int| 0 <= j < i ==> cells@[j] == value,
            decreases total - i,
        {
            cells.push(value);
            i = i + 1;
        }
        Self::new(size, cells)
    }
}

/// Bounds the row and column of any flat index `i` of a `w` by `h` grid, and
/// recomposes `i` from them.
pub proof fn lemma_flat_index_coords(w: int, h: int, i: int)
    requires
        1 <= w,
        0 <= i < w * h,
    ensures
        0 <= col_of(i, w) < w,
        0 <= row_of(i, w) < h,
        i == row_of(i, w) * w + col_of(i, w),
{
    vstd::arithmetic::div_mod::lemma_fundamental_div_mod(i, w);
    vstd::arithmetic::mul::lemma_mul_is_commutative(w, i / w);
    vstd::arithmetic::div_mod::lemma_mod_bound(i, w);
    vstd::arithmetic::div_mod::lemma_div_pos_is_pos(i, w);
    if row_of(i, w) >= h {
        vstd::arithmetic::mul::lemma_mul_inequality(h, i / w, w);
        assert(h * w == w * h) by (nonlinear_arith);
        assert(false);
    }
}

/// A quotient stays under `b` when the dividend stays under `b * d`.
pub proof fn lemma_div_bound(a: int, b: int, d: int)
    requires
        0 <= a,
        0 < d,
        a < b * d,
    ensures
        0 <= a / d < b,
{
    vstd::arithmetic::div_mod::lemma_fundamental_div_mod(a, d);
    vstd::arithmetic::div_mod::lemma_mod_bound(a, d);
    vstd::arithmetic::div_mod::lemma_div_pos_is_pos(a, d);
    if a / d >= b {
        vstd::arithmetic::mul::lemma_mul_inequality(b, a / d, d);
        vstd::arithmetic::mul::lemma_mul_is_commutative(d, a / d);
        assert(false);
    }
}

/// `lemma_row_major_index`, guarded: says nothing when `(x, y)` is outside
/// the `w` by `h` grid.
pub proof fn lemma_cell_index(w: int, h: int, x: int, y: int)
    ensures
        0 <= x < w && 0 <= y < h ==> 0 <= y * w + x < w * h && col_of(y * w + x, w) == x && row_of(
            y * w + x,
            w,
        ) == y,
{
    if 0 <= x < w && 0 <= y < h {
        lemma_row_major_index(w, h, x, y);
    }
}

impl<T> SquareGrid<T> {
    /// Grid coordinates of the cell at flat index `i`.
    pub open spec fn spec_cell_coords(self, i: int) -> Coordinates {
        Coordinates {
            x: col_of(i, self.spec_width()) as i32,
            y: row_of(i, self.spec_width()) as i32,
        }
    }
}

impl<T: Copy> SquareGrid<T> {
    /// One entry per cell in row-major order: its grid coordinates, its world
    /// position, and its value.
    pub fn layout(&self) -> (r: Vec<(Coordinates, WorldPosition, T)>)
        requires
            self.wf(),
            self.spec_width() <= i32::MAX,
            self.spec_height() <= i32::MAX,
        ensures
            r@.len() == self@.len(),
            forall|i: int|
                0 <= i < self@.len() ==> {
                    let entry = #[trigger] r@[i];
                    &&& entry.0 == self.spec_cell_coords(i)
                    &&& entry.1.x == spec_axis_to_world(col_of(i, self.spec_width()),
                        self.spec_width())
                    &&& entry.1.y == 0
                    &&& entry.1.z == spec_axis_to_world(row_of(i, self.spec_width()),
                        self.spec_height())
                    &&& entry.2 == self@[i]
                },
    {
        let ghost w = self.spec_width();
        let ghost h = self.spec_height();
        let mut r: Vec<(Coordinates, WorldPosition, T)> = Vec::new();
        if self.size.width == 0 || self.size.height == 0 {
            proof {
                assert(w * h == 0) by (nonlinear_arith)
                    requires
                        w == 0 || h == 0,
                ;
            }
            return r;
        }
        let total = self.cells.len();
        let width = self.size.width as usize;
        let mut i: usize = 0;
        while i < total
            invariant
                self.wf(),
                w == self.spec_width(),
                h == self.spec_height(),
                1 <= w <= i32::MAX,
                1 <= h <= i32::MAX,
                width == w,
                total == self@.len(),
                i <= total,
                r@.len() == i,
                forall|j: int|
                    0 <= j < i ==> {
                        let entry = #[trigger] r@[j];
                        &&& entry.0 == self.spec_cell_coords(j)
                        &&& entry.1.x == spec_axis_to_world(col_of(j, w), w)
                        &&& entry.1.y == 0
                        &&& entry.1.z == spec_axis_to_world(row_of(j, w), h)
                        &&& entry.2 == self@[j]
                    },
            decreases total - i,
        {
            proof {
                lemma_flat_index_coords(w, h, i as int);
            }
            let x = (i % width) as i32;
            let y = (i / width) as i32;
            let grid = Coordinates { x, y };
            let world = self.grid_to_world(grid);
            r.push((grid, world, self.cells[i]));
            i = i + 1;
        }
        r
    }

    /// A grid of the same size whose every cell is `f` applied to the cell's
    /// coordinates and value, visited in row-major order.
    pub fn apply<V, F: Fn(Coordinates, T) -> V>(&self, f: F) -> (r: SquareGrid<V>)
        requires
            self.wf(),
            self.spec_width() <= i32::MAX,
            self.spec_height() <= i32::MAX,
            forall|i: int|
                0 <= i < self@.len() ==> call_requires(f, (self.spec_cell_coords(i), self@[i])),
        ensures
            r.wf(),
            r.spec_size() == self.spec_size(),
            r@.len() == self@.len(),
            forall|i: int|
                0 <= i < self@.len() ==> call_ensures(
                    f,
                    (self.spec_cell_coords(i), self@[i]),
                    #[trigger] r@[i],
                ),
    {
        let ghost w = self.spec_width();
        let ghost h = self.spec_height();
        let mut cells: Vec<V> = Vec::new();
        if self.size.width == 0 || self.size.height == 0 {
            proof {
                assert(w * h == 0) by (nonlinear_arith)
                    requires
                        w == 0 || h == 0,
                ;
            }
            return SquareGrid::new(self.size, cells);
        }
        let total = self.cells.len();
        let width = self.size.width as usize;
        let mut i: usize = 0;
        while i < total
            invariant
                self.wf(),
                w == self.spec_width(),
                h == self.spec_height(),
                1 <= w <= i32::MAX,
                1 <= h <= i32::MAX,
                width == w,
                total == self@.len(),
                i <= total,
                cells@.len() == i,
                forall|j: int|
                    0 <= j < total ==> call_requires(f, (self.spec_cell_coords(j), self@[j])),
                forall|j: int|
                    0 <= j < i ==> call_ensures(
                        f,
                        (self.spec_cell_coords(j), self@[j]),
                        #[trigger] cells@[j],
                    ),
            decreases total - i,
        {
            proof {
                lemma_flat_index_coords(w, h, i as int);
            }
            let x = (i % width) as i32;
            let y = (i / width) as i32;
            proof {
                assert(Coordinates { x, y } == self.spec_cell_coords(i as int));
                assert(call_requires(f, (self.spec_cell_coords(i as int), self@[i as int])));
            }
            cells.push(f(Coordinates { x, y }, self.cells[i]));
            i = i + 1;
        }
        SquareGrid::new(self.size, cells)
    }

    /// Consuming form of `apply`.
    pub fn map<V, F: Fn(Coordinates, T) -> V>(self, f: F) -> (r: SquareGrid<V>)
        requires
            self.wf(),
            self.spec_width() <= i32::MAX,
            self.spec_height() <= i32::MAX,
            forall|i: int|
                0 <= i < self@.len() ==> call_requires(f, (self.spec_cell_coords(i), self@[i])),
        ensures
            r.wf(),
            r.spec_size() == self.spec_size(),
            r@.len() == self@.len(),
            forall|i: int|
                0 <= i < self@.len() ==> call_ensures(
                    f,
                    (self.spec_cell_coords(i), self@[i]),
                    #[trigger] r@[i],
                ),
    {
        self.apply(f)
    }
}

/// A 3x3 window of values around a focal cell, one row per tuple:
/// `(NW, N, NE)`, `(W, center, E)`, `(SW, S, SE)`.
#[derive(Debug, PartialEq, Eq)]
pub struct Around<T>(pub (T, T, T), pub (T, T, T), pub (T, T, T));

impl<T> Around<T> {
    pub fn new(value: ((T, T, T), (T, T, T), (T, T, T))) -> (r: Self)
        ensures
            r.0 == value.0,
            r.1 == value.1,
            r.2 == value.2,
    {
        Self(value.0, value.1, value.2)
    }

    /// Applies `f` to each of the nine entries, keeping their places.
    pub fn map<R, F: Fn(T) -> R>(self, f: F) -> (r: Around<R>)
        requires
            call_requires(f, (self.0.0,)),
            call_requires(f, (self.0.1,)),
            call_requires(f, (self.0.2,)),
            call_requires(f, (self.1.0,)),
            call_requires(f, (self.1.1,)),
            call_requires(f, (self.1.2,)),
            call_requires(f, (self.2.0,)),
            call_requires(f, (self.2.1,)),
            call_requires(f, (self.2.2,)),
        ensures
            call_ensures(f, (self.0.0,), r.0.0),
            call_ensures(f, (self.0.1,), r.0.1),
            call_ensures(f, (self.0.2,), r.0.2),
            call_ensures(f, (self.1.0,), r.1.0),
            call_ensures(f, (self.1.1,), r.1.1),
            call_ensures(f, (self.1.2,), r.1.2),
            call_ensures(f, (self.2.0,), r.2.0),
            call_ensures(f, (self.2.1,), r.2.1),
            call_ensures(f, (self.2.2,), r.2.2),
    {
        Around(
            (f(self.0.0), f(self.0.1), f(self.0.2)),
            (f(self.1.0), f(self.1.1), f(self.1.2)),
            (f(self.2.0), f(self.2.1), f(self.2.2)),
        )
    }

    /// The nine entries in row-major order; always exactly nine.
    pub fn to_vec(self) -> (r: Vec<T>)
        ensures
            r@.len() == 9,
            r@ == seq![
                self.0.0,
                self.0.1,
                self.0.2,
                self.1.0,
                self.1.1,
                self.1.2,
                self.2.0,
                self.2.1,
                self.2.2,
            ],
    {
        let Around((nw, n, ne), (w, c, e), (sw, s, se)) = self;
        let mut r = Vec::new();
        r.push(nw);
        r.push(n);
        r.push(ne);
        r.push(w);
        r.push(c);
        r.push(e);
        r.push(sw);
        r.push(s);
        r.push(se);
        proof {
            assert(r@ =~= seq![
                self.0.0,
                self.0.1,
                self.0.2,
                self.1.0,
                self.1.1,
                self.1.2,
                self.2.0,
                self.2.1,
                self.2.2,
            ]);
        }
        r
    }

    /// The focal cell's own entry.
    pub fn center(&self) -> (r: &T)
        ensures
            *r == self.1.1,
    {
        &self.1.1
    }
}

/// The coordinate `c` moved by `(dx, dy)`.
pub open spec fn coord_plus(c: Coordinates, dx: int, dy: int) -> Coordinates {
    Coordinates { x: (c.x + dx) as i32, y: (c.y + dy) as i32 }
}

impl Around<Coordinates> {
    /// The nine coordinates of the 3x3 window centered on `c`.
    pub fn centered(c: Coordinates) -> (r: Self)
        requires
            i32::MIN < c.x < i32::MAX,
            i32::MIN < c.y < i32::MAX,
        ensures
            r.0.0 == coord_plus(c, -1, -1),
            r.0.1 == coord_plus(c, 0, -1),
            r.0.2 == coord_plus(c, 1, -1),
            r.1.0 == coord_plus(c, -1, 0),
            r.1.1 == c,
            r.1.2 == coord_plus(c, 1, 0),
            r.2.0 == coord_plus(c, -1, 1),
            r.2.1 == coord_plus(c, 0, 1),
            r.2.2 == coord_plus(c, 1, 1),
    {
        Self(
            (
                Coordinates { x: c.x - 1, y: c.y - 1 },
                Coordinates { x: c.x, y: c.y - 1 },
                Coordinates { x: c.x + 1, y: c.y - 1 },
            ),
            (
                Coordinates { x: c.x - 1, y: c.y },
                Coordinates { x: c.x, y: c.y },
                Coordinates { x: c.x + 1, y: c.y },
            ),
            (
                Coordinates { x: c.x - 1, y: c.y + 1 },
                Coordinates { x: c.x, y: c.y + 1 },
                Coordinates { x: c.x + 1, y: c.y + 1 },
            ),
        )
    }
}

/// A container addressable by grid coordinates.
pub trait XyIndex<T> {
    /// Validity of the container, assumed by `get_xy`.
    spec fn xy_wf(&self) -> bool;

    /// The value at `(x, y)`, or `None` where the container has none.
    spec fn spec_xy(&self, x: int, y: int) -> Option<T>;

    /// Bounds-checked coordinate lookup.
    fn get_xy(&self, p: Coordinates) -> (r: Option<&T>)
        requires
            self.xy_wf(),
        ensures
            r is Some <==> self.spec_xy(p.x as int, p.y as int) is Some,
            r matches Some(v) ==> self.spec_xy(p.x as int, p.y as int) == Some(*v),
    ;
}

impl<T> XyIndex<T> for SquareGrid<T> {
    open spec fn xy_wf(&self) -> bool {
        self.wf()
    }

    open spec fn spec_xy(&self, x: int, y: int) -> Option<T> {
        if 0 <= x < self.spec_width() && 0 <= y < self.spec_height() {
            Some(self@[y * self.spec_width() + x])
        } else {
            None
        }
    }

    fn get_xy(&self, p: Coordinates) -> (r: Option<&T>) {
        self.get(p)
    }
}

/// A container that can capture the 3x3 neighborhood of a cell.
pub trait AroundCenter<T> {
    /// Validity of the container, assumed by `around`.
    spec fn around_wf(&self) -> bool;

    /// The occupant at `(x, y)`, or `None` where there is none.
    spec fn spec_occupant(&self, x: int, y: int) -> Option<T>;

    /// The 3x3 window centered on `center`: each entry is the occupant of the
    /// corresponding cell, `None` for cells outside the container.
    fn around(&self, center: Coordinates) -> (r: Around<Option<T>>)
        requires
            self.around_wf(),
            i32::MIN < center.x < i32::MAX,
            i32::MIN < center.y < i32::MAX,
        ensures
            r.0.0 == self.spec_occupant(center.x - 1, center.y - 1),
            r.0.1 == self.spec_occupant(center.x as int, center.y - 1),
            r.0.2 == self.spec_occupant(center.x + 1, center.y - 1),
            r.1.0 == self.spec_occupant(center.x - 1, center.y as int),
            r.1.1 == self.spec_occupant(center.x as int, center.y as int),
            r.1.2 == self.spec_occupant(center.x + 1, center.y as int),
            r.2.0 == self.spec_occupant(center.x - 1, center.y + 1),
            r.2.1 == self.spec_occupant(center.x as int, center.y + 1),
            r.2.2 == self.spec_occupant(center.x + 1, center.y + 1),
    ;
}

/// `c`'s occupant at `p`, copied out of the container.
fn copied_xy<T: Copy, C: XyIndex<T>>(c: &C, p: Coordinates) -> (r: Option<T>)
    requires
        c.xy_wf(),
    ensures
        r == c.spec_xy(p.x as int, p.y as int),
{
    match c.get_xy(p) {
        Some(v) => Some(*v),
        None => None,
    }
}

impl<T: Copy, C: XyIndex<T>> AroundCenter<T> for C {
    open spec fn around_wf(&self) -> bool {
        self.xy_wf()
    }

    open spec fn spec_occupant(&self, x: int, y: int) -> Option<T> {
        self.spec_xy(x, y)
    }

    fn around(&self, center: Coordinates) -> (r: Around<Option<T>>) {
        let coords = Around::centered(center);
        Around(
            (
                copied_xy(self, coords.0.0),
                copied_xy(self, coords.0.1),
                copied_xy(self, coords.0.2),
            ),
            (
                copied_xy(self, coords.1.0),
                copied_xy(self, coords.1.1),
                copied_xy(self, coords.1.2),
            ),
            (
                copied_xy(self, coords.2.0),
                copied_xy(self, coords.2.1),
                copied_xy(self, coords.2.2),
            ),
        )
    }
}

} // verus!
