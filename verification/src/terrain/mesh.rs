//! Per-tile corner heights, the corner-interpolation upsampling that gives
//! each tile four corner heights from one height sample per tile, and the
//! emission of a merged triangle mesh from a grid of such tiles.

use vstd::prelude::*;

use crate::model::grid::col_of;
use crate::model::grid::lemma_flat_index_coords;
use crate::model::grid::row_of;
use crate::model::grid::spec_axis_to_world;
use crate::model::grid::SquareGrid;
use crate::model::Coordinates;
use crate::model::WorldPosition;

verus! {

/// Largest height magnitude, in milliunits, the interpolation contracts
/// admit; raw terraced noise stays within one tile of height, far below it.
pub const HEIGHT_LIMIT_MILLIS: i64 = 1048576;

/// Largest per-tile texture resolution the interpolation contracts admit.
pub const TILE_RESOLUTION_LIMIT: u32 = 65536;

/// The four corner heights of one tile, in milliunits: top-left, top-right,
/// bottom-left, bottom-right.
#[derive(Debug, Clone, Copy, PartialEq, Eq, Structural)]
pub struct HeightOnlyCell {
    pub top_left: i64,
    pub top_right: i64,
    pub bottom_left: i64,
    pub bottom_right: i64,
}

/// The greater of two heights.
pub open spec fn spec_max2(a: int, b: int) -> int {
    if a >= b {
        a
    } else {
        b
    }
}

impl HeightOnlyCell {
    /// The cell's highest corner.
    pub open spec fn spec_max_height(self) -> int {
        spec_max2(
            spec_max2(self.top_left as int, self.top_right as int),
            spec_max2(self.bottom_left as int, self.bottom_right as int),
        )
    }

    /// All four corners lie within the admissible height range.
    pub open spec fn spec_bounded(self) -> bool {
        &&& -HEIGHT_LIMIT_MILLIS <= self.top_left <= HEIGHT_LIMIT_MILLIS
        &&& -HEIGHT_LIMIT_MILLIS <= self.top_right <= HEIGHT_LIMIT_MILLIS
        &&& -HEIGHT_LIMIT_MILLIS <= self.bottom_left <= HEIGHT_LIMIT_MILLIS
        &&& -HEIGHT_LIMIT_MILLIS <= self.bottom_right <= HEIGHT_LIMIT_MILLIS
    }

    /// Builds a cell from `(top-left, top-right, bottom-left, bottom-right)`.
    pub fn new(value: (i64, i64, i64, i64)) -> (r: Self)
        ensures
            r.top_left == value.0,
            r.top_right == value.1,
            r.bottom_left == value.2,
            r.bottom_right == value.3,
    {
        Self { top_left: value.0, top_right: value.1, bottom_left: value.2, bottom_right: value.3 }
    }

    /// The four corner heights in declaration order, for callers that walk
    /// them: top-left, top-right, bottom-left, bottom-right.
    pub fn iter(&self) -> (r: Vec<i64>)
        ensures
            r@ == seq![self.top_left, self.top_right, self.bottom_left, self.bottom_right],
    {
        let mut r = Vec::new();
        r.push(self.top_left);
        r.push(self.top_right);
        r.push(self.bottom_left);
        r.push(self.bottom_right);
        proof {
            assert(r@ =~= seq![self.top_left, self.top_right, self.bottom_left, self.bottom_right]);
        }
        r
    }

    /// A vertical offset that puts a marker on top of this cell's terrain:
    /// its highest corner, straight up.
    pub fn world_y(&self) -> (r: WorldPosition)
        ensures
            r.x == 0,
            r.y == self.spec_max_height(),
            r.z == 0,
    {
        let mut max = self.top_left;
        if self.top_right > max {
            max = self.top_right;
        }
        if self.bottom_left > max {
            max = self.bottom_left;
        }
        if self.bottom_right > max {
            max = self.bottom_right;
        }
        WorldPosition { x: 0, y: max, z: 0 }
    }
}

/// Numerator of the bilinear interpolation of `cell`'s corners at the local
/// pixel `(tx, ty)` of a tile subdivided `nx` by `ny`; the denominator is
/// `nx * ny`.
pub open spec fn spec_bilinear_numerator(
    cell: HeightOnlyCell,
    tx: int,
    ty: int,
    nx: int,
    ny: int,
) -> int {
    (ny - ty) * ((nx - tx) * cell.top_left + tx * cell.top_right) + ty * ((nx - tx)
        * cell.bottom_left + tx * cell.bottom_right)
}

/// Bounds a product of a factor in `[0, amax]` and one in `[-bmax, bmax]`.
pub proof fn lemma_mul_bound(a: int, b: int, amax: int, bmax: int)
    requires
        0 <= a <= amax,
        -bmax <= b <= bmax,
        0 <= bmax,
    ensures
        -(amax * bmax) <= a * b <= amax * bmax,
{
    assert(-(amax * bmax) <= a * b <= amax * bmax) by (nonlinear_arith)
        requires
            0 <= a <= amax,
            -bmax <= b <= bmax,
            0 <= bmax,
    ;
}

impl HeightOnlyCell {
    /// Bilinear interpolation of the four corners over a tile subdivided
    /// `size.0` by `size.1`, at local pixel `idx`; returns the exact
    /// numerator over the denominator `size.0 * size.1`.
    pub fn interpolate(&self, idx: (u32, u32), size: (u32, u32)) -> (r: i64)
        requires
            self.spec_bounded(),
            0 < size.0 <= TILE_RESOLUTION_LIMIT,
            0 < size.1 <= TILE_RESOLUTION_LIMIT,
            idx.0 <= size.0,
            idx.1 <= size.1,
        ensures
            r == spec_bilinear_numerator(
                *self,
                idx.0 as int,
                idx.1 as int,
                size.0 as int,
                size.1 as int,
            ),
    {
        proof {
            lemma_mul_bound(
                size.0 - idx.0,
                self.top_left as int,
                TILE_RESOLUTION_LIMIT as int,
                HEIGHT_LIMIT_MILLIS as int,
            );
            lemma_mul_bound(
                idx.0 as int,
                self.top_right as int,
                TILE_RESOLUTION_LIMIT as int,
                HEIGHT_LIMIT_MILLIS as int,
            );
            lemma_mul_bound(
                size.0 - idx.0,
                self.bottom_left as int,
                TILE_RESOLUTION_LIMIT as int,
                HEIGHT_LIMIT_MILLIS as int,
            );
            lemma_mul_bound(
                idx.0 as int,
                self.bottom_right as int,
                TILE_RESOLUTION_LIMIT as int,
                HEIGHT_LIMIT_MILLIS as int,
            );
        }
        let r1: i64 = ((size.0 - idx.0) as i64) * self.top_left + (idx.0 as i64) * self.top_right;
        let r2: i64 = ((size.0 - idx.0) as i64) * self.bottom_left + (idx.0 as i64)
            * self.bottom_right;
        proof {
            lemma_mul_bound(
                size.1 - idx.1,
                r1 as int,
                TILE_RESOLUTION_LIMIT as int,
                2 * TILE_RESOLUTION_LIMIT * HEIGHT_LIMIT_MILLIS,
            );
            lemma_mul_bound(
                idx.1 as int,
                r2 as int,
                TILE_RESOLUTION_LIMIT as int,
                2 * TILE_RESOLUTION_LIMIT * HEIGHT_LIMIT_MILLIS,
            );
        }
        ((size.1 - idx.1) as i64) * r1 + (idx.1 as i64) * r2
    }
}

/// The four source coordinates `(top-left, top-right, bottom-left,
/// bottom-right)` that the cell at `(x, y)` of the doubled-resolution grid
/// samples, as `(column, row)` pairs into the source grid.
///
/// Even coordinates sample one source cell; odd ones straddle the two
/// neighboring source cells on that axis.
pub open spec fn spec_mapped_coordinates(x: int, y: int) -> (
    (int, int),
    (int, int),
    (int, int),
    (int, int),
) {
    if x % 2 == 0 && y % 2 == 0 {
        ((x / 2, y / 2), (x / 2, y / 2), (x / 2, y / 2), (x / 2, y / 2))
    } else if x % 2 != 0 && y % 2 == 0 {
        (
            ((x - 1) / 2, y / 2),
            ((x - 1) / 2 + 1, y / 2),
            ((x - 1) / 2, y / 2),
            ((x - 1) / 2 + 1, y / 2),
        )
    } else if x % 2 == 0 && y % 2 != 0 {
        (
            (x / 2, (y - 1) / 2),
            (x / 2, (y - 1) / 2),
            (x / 2, (y - 1) / 2 + 1),
            (x / 2, (y - 1) / 2 + 1),
        )
    } else {
        (
            ((x - 1) / 2, (y - 1) / 2),
            ((x - 1) / 2 + 1, (y - 1) / 2),
            ((x - 1) / 2, (y - 1) / 2 + 1),
            ((x - 1) / 2 + 1, (y - 1) / 2 + 1),
        )
    }
}

/// Maps coordinates of a conceptually 2x-scaled grid down to the four
/// surrounding cells of a source 2D structure, so each scaled cell gets the
/// four corner values it shares with its neighbors.
pub struct RectangularMapping<T> {
    map: T,
}

impl<T> RectangularMapping<T> {
    /// The wrapped source structure.
    pub closed spec fn spec_map(&self) -> T {
        self.map
    }

    pub fn new(map: T) -> (r: Self)
        ensures
            r.spec_map() == map,
    {
        Self { map }
    }

    /// The four source coordinates the cell at `p` samples, in the order
    /// top-left, top-right, bottom-left, bottom-right.
    pub fn map_coordinates(&self, p: (u32, u32)) -> (r: (
        (u32, u32),
        (u32, u32),
        (u32, u32),
        (u32, u32),
    ))
        ensures
            ({
                let m = spec_mapped_coordinates(p.0 as int, p.1 as int);
                &&& r.0.0 == m.0.0 && r.0.1 == m.0.1
                &&& r.1.0 == m.1.0 && r.1.1 == m.1.1
                &&& r.2.0 == m.2.0 && r.2.1 == m.2.1
                &&& r.3.0 == m.3.0 && r.3.1 == m.3.1
            }),
    {
        let x = p.0;
        let y = p.1;
        match (x % 2 == 0, y % 2 == 0) {
            (true, false) => (
                (x / 2, (y - 1) / 2),
                (x / 2, (y - 1) / 2),
                (x / 2, (y - 1) / 2 + 1),
                (x / 2, (y - 1) / 2 + 1),
            ),
            (false, true) => (
                ((x - 1) / 2, y / 2),
                ((x - 1) / 2 + 1, y / 2),
                ((x - 1) / 2, y / 2),
                ((x - 1) / 2 + 1, y / 2),
            ),
            (false, false) => (
                ((x - 1) / 2, (y - 1) / 2),
                ((x - 1) / 2 + 1, (y - 1) / 2),
                ((x - 1) / 2, (y - 1) / 2 + 1),
                ((x - 1) / 2 + 1, (y - 1) / 2 + 1),
            ),
            (true, true) => ((x / 2, y / 2), (x / 2, y / 2), (x / 2, y / 2), (x / 2, y / 2)),
        }
    }
}

/// The rows of a two-level vector, as a sequence of sequences.
pub open spec fn spec_rows<T>(map: Vec<Vec<T>>) -> Seq<Seq<T>> {
    map@.map_values(|row: Vec<T>| row@)
}

/// Whether `(c, r)` (column, row) indexes into `rows`.
pub open spec fn spec_row_col_in<T>(rows: Seq<Seq<T>>, c: int, r: int) -> bool {
    0 <= r < rows.len() && 0 <= c < rows[r].len()
}

impl<T: Copy> RectangularMapping<Vec<Vec<T>>> {
    /// The four corner values of the cell at `p`, in the order top-left,
    /// top-right, bottom-left, bottom-right; the caller keeps `p` small
    /// enough that all four sampled coordinates land inside the source.
    pub fn get(&self, p: (u32, u32)) -> (r: (T, T, T, T))
        requires
            ({
                let m = spec_mapped_coordinates(p.0 as int, p.1 as int);
                let rows = spec_rows(self.spec_map());
                &&& spec_row_col_in(rows, m.0.0, m.0.1)
                &&& spec_row_col_in(rows, m.1.0, m.1.1)
                &&& spec_row_col_in(rows, m.2.0, m.2.1)
                &&& spec_row_col_in(rows, m.3.0, m.3.1)
            }),
        ensures
            ({
                let m = spec_mapped_coordinates(p.0 as int, p.1 as int);
                let rows = spec_rows(self.spec_map());
                &&& r.0 == rows[m.0.1][m.0.0]
                &&& r.1 == rows[m.1.1][m.1.0]
                &&& r.2 == rows[m.2.1][m.2.0]
                &&& r.3 == rows[m.3.1][m.3.0]
            }),
    {
        let (c0, c1, c2, c3) = self.map_coordinates(p);
        (
            self.map[c0.1 as usize][c0.0 as usize],
            self.map[c1.1 as usize][c1.0 as usize],
            self.map[c2.1 as usize][c2.0 as usize],
            self.map[c3.1 as usize][c3.0 as usize],
        )
    }
}

/// One vertex of the merged terrain mesh: a world position in milliunits and
/// texture coordinates given as numerators over the grid's width and height.
#[derive(Debug, PartialEq, Eq)]
pub struct MeshVertex {
    pub position: WorldPosition,
    pub uv: (u32, u32),
}

/// The merged terrain surface: two triangles per tile over shared corner
/// heights, all normals world-up. `triangles` lists vertex indices, three per
/// triangle; a vertex's texture coordinates are its `uv` numerators over
/// `uv_denominator`.
#[derive(Debug, PartialEq, Eq)]
pub struct TerrainMesh {
    pub vertices: Vec<MeshVertex>,
    pub triangles: Vec<u32>,
    pub uv_denominator: (u32, u32),
}

/// Corner `k` of the tile at `(x, y)` of a `w` by `h` grid with corner
/// heights `cell`: the corners come in the order top-right, top-left,
/// bottom-left, bottom-right, so two triangles `0,1,2` and `0,2,3` cover the
/// tile.
pub open spec fn spec_tile_vertex(k: int, x: int, y: int, w: int, h: int, cell: HeightOnlyCell) -> MeshVertex {
    let ox = spec_axis_to_world(x, w);
    let oz = spec_axis_to_world(y, h);
    if k == 0 {
        MeshVertex {
            position: WorldPosition { x: (ox + 500) as i64, y: cell.top_right, z: (oz - 500) as i64 },
            uv: ((x + 1) as u32, y as u32),
        }
    } else if k == 1 {
        MeshVertex {
            position: WorldPosition { x: (ox - 500) as i64, y: cell.top_left, z: (oz - 500) as i64 },
            uv: (x as u32, y as u32),
        }
    } else if k == 2 {
        MeshVertex {
            position: WorldPosition { x: (ox - 500) as i64, y: cell.bottom_left, z: (oz + 500) as i64 },
            uv: (x as u32, (y + 1) as u32),
        }
    } else {
        MeshVertex {
            position: WorldPosition { x: (ox + 500) as i64, y: cell.bottom_right, z: (oz + 500) as i64 },
            uv: ((x + 1) as u32, (y + 1) as u32),
        }
    }
}

/// Vertex `v` of the merged mesh of `g`: tile `v / 4`, corner `v % 4`.
pub open spec fn spec_mesh_vertex(g: SquareGrid<HeightOnlyCell>, v: int) -> MeshVertex {
    let t = v / 4;
    let k = v % 4;
    spec_tile_vertex(
        k,
        col_of(t, g.spec_width()),
        row_of(t, g.spec_width()),
        g.spec_width(),
        g.spec_height(),
        g@[t],
    )
}

/// Entry `j` of the merged triangle list: tile `j / 6`, and within the tile
/// the corner pattern `0, 1, 2, 0, 2, 3` over its four vertices.
pub open spec fn spec_mesh_index(j: int) -> int {
    let t = j / 6;
    let k = j % 6;
    if k == 0 {
        4 * t
    } else if k == 1 {
        4 * t + 1
    } else if k == 2 {
        4 * t + 2
    } else if k == 3 {
        4 * t
    } else if k == 4 {
        4 * t + 2
    } else {
        4 * t + 3
    }
}

impl HeightOnlyCell {
    /// One tile on its own as a quad of two triangles: corners at half a
    /// tile from the tile's center, each at its corner height, with texture
    /// coordinates spanning the tile.
    pub fn mesh(&self) -> (r: TerrainMesh)
        ensures
            r.vertices@.len() == 4,
            r.vertices@[0] == (MeshVertex {
                position: WorldPosition { x: 500i64, y: self.top_right, z: -500i64 },
                uv: (1u32, 0u32),
            }),
            r.vertices@[1] == (MeshVertex {
                position: WorldPosition { x: -500i64, y: self.top_left, z: -500i64 },
                uv: (0u32, 0u32),
            }),
            r.vertices@[2] == (MeshVertex {
                position: WorldPosition { x: -500i64, y: self.bottom_left, z: 500i64 },
                uv: (0u32, 1u32),
            }),
            r.vertices@[3] == (MeshVertex {
                position: WorldPosition { x: 500i64, y: self.bottom_right, z: 500i64 },
                uv: (1u32, 1u32),
            }),
            r.triangles@ == seq![0u32, 1u32, 2u32, 0u32, 2u32, 3u32],
            r.uv_denominator == (1u32, 1u32),
    {
        let mut vertices: Vec<MeshVertex> = Vec::new();
        vertices.push(
            MeshVertex { position: WorldPosition { x: 500, y: self.top_right, z: -500 }, uv: (1, 0) },
        );
        vertices.push(
            MeshVertex { position: WorldPosition { x: -500, y: self.top_left, z: -500 }, uv: (0, 0) },
        );
        vertices.push(
            MeshVertex {
                position: WorldPosition { x: -500, y: self.bottom_left, z: 500 },
                uv: (0, 1),
            },
        );
        vertices.push(
            MeshVertex {
                position: WorldPosition { x: 500, y: self.bottom_right, z: 500 },
                uv: (1, 1),
            },
        );
        let mut triangles: Vec<u32> = Vec::new();
        triangles.push(0);
        triangles.push(1);
        triangles.push(2);
        triangles.push(0);
        triangles.push(2);
        triangles.push(3);
        proof {
            assert(triangles@ =~= seq![0u32, 1u32, 2u32, 0u32, 2u32, 3u32]);
        }
        TerrainMesh { vertices, triangles, uv_denominator: (1, 1) }
    }
}

impl SquareGrid<HeightOnlyCell> {
    /// Emits the whole terrain as one merged mesh: four vertices and six
    /// triangle-list entries per tile, tiles in row-major order, neighbors
    /// sharing corner heights so the surface is seamless.
    pub fn mesh(&self) -> (r: TerrainMesh)
        requires
            self.wf(),
            self.spec_width() <= i32::MAX,
            self.spec_height() <= i32::MAX,
            4 * self.spec_width() * self.spec_height() <= u32::MAX,
        ensures
            r.vertices@.len() == 4 * self@.len(),
            r.triangles@.len() == 6 * self@.len(),
            forall|v: int|
                0 <= v < r.vertices@.len() ==> #[trigger] r.vertices@[v] == spec_mesh_vertex(
                    *self,
                    v,
                ),
            forall|j: int|
                0 <= j < r.triangles@.len() ==> #[trigger] r.triangles@[j] == spec_mesh_index(j),
            r.uv_denominator.0 == self.spec_width(),
            r.uv_denominator.1 == self.spec_height(),
    {
        let ghost w = self.spec_width();
        let ghost h = self.spec_height();
        let size = self.size();
        let mut vertices: Vec<MeshVertex> = Vec::new();
        let mut triangles: Vec<u32> = Vec::new();
        if size.width == 0 || size.height == 0 {
            proof {
                assert(w * h == 0) by (nonlinear_arith)
                    requires
                        w == 0 || h == 0,
                ;
            }
            return TerrainMesh { vertices, triangles, uv_denominator: (size.width, size.height) };
        }
        let total = self.len_cells();
        let width = size.width as usize;
        proof {
            assert(4 * (w * h) <= u32::MAX && 6 * (w * h) <= 2 * u32::MAX) by (nonlinear_arith)
                requires
                    4 * w * h <= u32::MAX,
                    w * h >= 0,
            ;
        }
        let mut t: usize = 0;
        while t < total
            invariant
                self.wf(),
                w == self.spec_width(),
                h == self.spec_height(),
                1 <= w <= i32::MAX,
                1 <= h <= i32::MAX,
                width == w,
                total == self@.len(),
                4 * total <= u32::MAX,
                t <= total,
                vertices@.len() == 4 * t,
                triangles@.len() == 6 * t,
                forall|v: int|
                    0 <= v < vertices@.len() ==> #[trigger] vertices@[v] == spec_mesh_vertex(
                        *self,
                        v,
                    ),
                forall|j: int|
                    0 <= j < triangles@.len() ==> #[trigger] triangles@[j] == spec_mesh_index(j),
            decreases total - t,
        {
            proof {
                lemma_flat_index_coords(w, h, t as int);
            }
            let x = (t % width) as u32;
            let y = (t / width) as u32;
            let cell = *self.cell_at(t);
            let grid = Coordinates { x: x as i32, y: y as i32 };
            let world = self.grid_to_world(grid);
            let ox = world.x;
            let oz = world.z;
            vertices.push(
                MeshVertex {
                    position: WorldPosition { x: ox + 500, y: cell.top_right, z: oz - 500 },
                    uv: (x + 1, y),
                },
            );
            vertices.push(
                MeshVertex {
                    position: WorldPosition { x: ox - 500, y: cell.top_left, z: oz - 500 },
                    uv: (x, y),
                },
            );
            vertices.push(
                MeshVertex {
                    position: WorldPosition { x: ox - 500, y: cell.bottom_left, z: oz + 500 },
                    uv: (x, y + 1),
                },
            );
            vertices.push(
                MeshVertex {
                    position: WorldPosition { x: ox + 500, y: cell.bottom_right, z: oz + 500 },
                    uv: (x + 1, y + 1),
                },
            );
            let base = (4 * t) as u32;
            triangles.push(base);
            triangles.push(base + 1);
            triangles.push(base + 2);
            triangles.push(base);
            triangles.push(base + 2);
            triangles.push(base + 3);
            proof {
                let ti = t as int;
                vstd::arithmetic::div_mod::lemma_fundamental_div_mod_converse(4 * ti, 4, ti, 0);
                vstd::arithmetic::div_mod::lemma_fundamental_div_mod_converse(4 * ti + 1, 4, ti, 1);
                vstd::arithmetic::div_mod::lemma_fundamental_div_mod_converse(4 * ti + 2, 4, ti, 2);
                vstd::arithmetic::div_mod::lemma_fundamental_div_mod_converse(4 * ti + 3, 4, ti, 3);
                vstd::arithmetic::div_mod::lemma_fundamental_div_mod_converse(6 * ti, 6, ti, 0);
                vstd::arithmetic::div_mod::lemma_fundamental_div_mod_converse(6 * ti + 1, 6, ti, 1);
                vstd::arithmetic::div_mod::lemma_fundamental_div_mod_converse(6 * ti + 2, 6, ti, 2);
                vstd::arithmetic::div_mod::lemma_fundamental_div_mod_converse(6 * ti + 3, 6, ti, 3);
                vstd::arithmetic::div_mod::lemma_fundamental_div_mod_converse(6 * ti + 4, 6, ti, 4);
                vstd::arithmetic::div_mod::lemma_fundamental_div_mod_converse(6 * ti + 5, 6, ti, 5);
            }
            t = t + 1;
        }
        TerrainMesh { vertices, triangles, uv_denominator: (size.width, size.height) }
    }
}

/// Every coordinate the doubled-resolution cell `(x, y)` samples lies inside
/// a source grid of the same `w` by `h` footprint.
pub proof fn lemma_mapped_in_bounds(x: int, y: int, w: int, h: int)
    requires
        0 <= x < w,
        0 <= y < h,
    ensures
        ({
            let m = spec_mapped_coordinates(x, y);
            &&& 0 <= m.0.0 < w && 0 <= m.0.1 < h
            &&& 0 <= m.1.0 < w && 0 <= m.1.1 < h
            &&& 0 <= m.2.0 < w && 0 <= m.2.1 < h
            &&& 0 <= m.3.0 < w && 0 <= m.3.1 < h
        }),
{
    crate::model::grid::lemma_div_bound(x, w, 2);
    crate::model::grid::lemma_div_bound(y, h, 2);
    if x % 2 != 0 {
        crate::model::grid::lemma_div_bound(x - 1, w - 1, 2);
    }
    if y % 2 != 0 {
        crate::model::grid::lemma_div_bound(y - 1, h - 1, 2);
    }
}

/// The flat per-vertex green ramp for unmeshed tiles, by height magnitude in
/// milliunits; heights past one tile are a table bug the caller rules out.
pub open spec fn spec_vertex_color(val: int) -> crate::terrain::textures::Rgba {
    let magnitude = if val < 0 {
        -val
    } else {
        val
    };
    if magnitude < 100 {
        crate::terrain::textures::Rgba { red: 0x0a, green: 0x7e, blue: 0x0a, alpha: 255 }
    } else if magnitude < 200 {
        crate::terrain::textures::Rgba { red: 0x0d, green: 0xa5, blue: 0x0d, alpha: 255 }
    } else if magnitude < 300 {
        crate::terrain::textures::Rgba { red: 0x10, green: 0xcb, blue: 0x10, alpha: 255 }
    } else {
        crate::terrain::textures::Rgba { red: 0x18, green: 0xed, blue: 0x18, alpha: 255 }
    }
}

/// A per-vertex color for a corner height, greener the flatter the land.
pub fn get_color(val: i64) -> (r: crate::terrain::textures::Rgba)
    requires
        -1000 <= val <= 1000,
    ensures
        r == spec_vertex_color(val as int),
{
    let magnitude = if val < 0 {
        -val
    } else {
        val
    };
    if magnitude < 100 {
        crate::terrain::textures::Rgba { red: 0x0a, green: 0x7e, blue: 0x0a, alpha: 255 }
    } else if magnitude < 200 {
        crate::terrain::textures::Rgba { red: 0x0d, green: 0xa5, blue: 0x0d, alpha: 255 }
    } else if magnitude < 300 {
        crate::terrain::textures::Rgba { red: 0x10, green: 0xcb, blue: 0x10, alpha: 255 }
    } else {
        crate::terrain::textures::Rgba { red: 0x18, green: 0xed, blue: 0x18, alpha: 255 }
    }
}

} // verus!
