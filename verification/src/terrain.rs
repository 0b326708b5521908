//! Terrain: a height field synthesized from upsampled noise samples, with
//! projection of world points back onto the grid and terrain classification.

pub mod mesh;
pub mod textures;

use vstd::prelude::*;

use crate::model::grid::col_of;
use crate::model::grid::lemma_div_bound;
use crate::model::grid::lemma_flat_index_coords;
use crate::model::grid::row_of;
use crate::model::grid::spec_axis_to_world;
use crate::model::grid::SquareGrid;
use crate::model::Coordinates;
use crate::model::GridSize;
use crate::model::Seed;
use crate::model::WorldPosition;
use crate::terrain::mesh::lemma_mapped_in_bounds;
use crate::terrain::mesh::spec_mapped_coordinates;
use crate::terrain::mesh::spec_rows;
use crate::terrain::mesh::HeightOnlyCell;
use crate::terrain::mesh::RectangularMapping;
use crate::terrain::mesh::TerrainMesh;

verus! {

/// The seed the terrain is generated from.
#[derive(Debug, Clone, Copy, PartialEq, Eq)]
pub struct TerrainSeed {
    seed: Seed<u32>,
}

impl TerrainSeed {
    /// The wrapped seed.
    pub closed spec fn spec_seed(self) -> Seed<u32> {
        self.seed
    }

    pub fn new(seed: Seed<u32>) -> (r: Self)
        ensures
            r.spec_seed() == seed,
    {
        Self { seed }
    }

    /// The raw seed value, as the noise generator takes it.
    pub fn into(self) -> (r: u32)
        ensures
            r == self.spec_seed().spec_value(),
    {
        self.seed.value()
    }
}

/// What the terrain is generated from: its seed and its size in tiles.
#[derive(Debug, Clone, Copy, PartialEq, Eq)]
pub struct TerrainOptions {
    pub seed: TerrainSeed,
    pub size: GridSize,
}

impl TerrainOptions {
    pub fn new(seed: TerrainSeed, size: GridSize) -> (r: Self)
        ensures
            r.seed == seed,
            r.size == size,
    {
        Self { seed, size }
    }
}

/// The corner heights the tile at `(x, y)` takes from the height samples
/// `rows`: its four corners, each the raw sample of the source cell the
/// rectangular corner mapping picks.
pub open spec fn spec_sampled_cell(rows: Seq<Seq<i64>>, x: int, y: int) -> HeightOnlyCell {
    let m = spec_mapped_coordinates(x, y);
    HeightOnlyCell {
        top_left: rows[m.0.1][m.0.0],
        top_right: rows[m.1.1][m.1.0],
        bottom_left: rows[m.2.1][m.2.0],
        bottom_right: rows[m.3.1][m.3.0],
    }
}

/// Whether the world milliunit coordinate `p` lands on an axis `dim` tiles
/// long, once the grid-centering offset is added back.
pub open spec fn spec_world_in_range(p: int, dim: int) -> bool {
    0 <= p + dim * 500 < dim * 1000
}

/// The cell index the world milliunit coordinate `p` lands in, on an axis
/// `dim` tiles long.
pub open spec fn spec_world_axis_cell(p: int, dim: int) -> int {
    (p + dim * 500) / 1000
}

/// The generated height field: one `HeightOnlyCell` of four corner heights
/// per tile, built from one height sample per tile by the rectangular corner
/// mapping.
pub struct Terrain {
    options: TerrainOptions,
    grid: SquareGrid<HeightOnlyCell>,
}

impl Terrain {
    /// The options the terrain was built from.
    pub closed spec fn spec_options(&self) -> TerrainOptions {
        self.options
    }

    /// The grid of corner heights.
    pub closed spec fn spec_grid(&self) -> SquareGrid<HeightOnlyCell> {
        self.grid
    }

    pub open spec fn wf(&self) -> bool {
        &&& self.spec_grid().wf()
        &&& self.spec_grid().spec_size() == self.spec_options().size
        &&& self.spec_grid().spec_width() <= i32::MAX
        &&& self.spec_grid().spec_height() <= i32::MAX
    }

    /// Builds the height field for `options` from one height sample per
    /// tile, row-major rows of `options.size` extent: each tile's four
    /// corners take the samples the rectangular corner mapping picks, so
    /// neighboring tiles share corner heights.
    pub fn new(options: TerrainOptions, noise: Vec<Vec<i64>>) -> (r: Terrain)
        requires
            options.size.spec_area() <= usize::MAX,
            options.size.width <= i32::MAX,
            options.size.height <= i32::MAX,
            spec_rows(noise).len() == options.size.height,
            forall|j: int|
                0 <= j < options.size.height ==> #[trigger] spec_rows(noise)[j].len()
                    == options.size.width,
        ensures
            r.wf(),
            r.spec_options() == options,
            forall|i: int|
                0 <= i < r.spec_grid()@.len() ==> #[trigger] r.spec_grid()@[i] == spec_sampled_cell(
                    spec_rows(noise),
                    col_of(i, options.size.width as int),
                    row_of(i, options.size.width as int),
                ),
    {
        let ghost w = options.size.width as int;
        let ghost h = options.size.height as int;
        let ghost rows = spec_rows(noise);
        let mapping = RectangularMapping::new(noise);
        let mut cells: Vec<HeightOnlyCell> = Vec::new();
        if options.size.width == 0 || options.size.height == 0 {
            proof {
                assert(w * h == 0) by (nonlinear_arith)
                    requires
                        w == 0 || h == 0,
                ;
            }
            let grid = SquareGrid::new(options.size, cells);
            return Terrain { options, grid };
        }
        let total = (options.size.width as usize) * (options.size.height as usize);
        let width = options.size.width as usize;
        let mut i: usize = 0;
        while i < total
            invariant
                1 <= w <= i32::MAX,
                1 <= h <= i32::MAX,
                width == w,
                total == w * h,
                total <= usize::MAX,
                rows == spec_rows(mapping.spec_map()),
                rows.len() == h,
                forall|j: int| 0 <= j < h ==> #[trigger] rows[j].len() == w,
                i <= total,
                cells@.len() == i,
                forall|j: int|
                    0 <= j < i ==> #[trigger] cells@[j] == spec_sampled_cell(
                        rows,
                        col_of(j, w),
                        row_of(j, w),
                    ),
            decreases total - i,
        {
            proof {
                lemma_flat_index_coords(w, h, i as int);
                lemma_mapped_in_bounds(col_of(i as int, w), row_of(i as int, w), w, h);
            }
            let x = (i % width) as u32;
            let y = (i / width) as u32;
            let sampled = mapping.get((x, y));
            cells.push(HeightOnlyCell::new(sampled));
            i = i + 1;
        }
        let grid = SquareGrid::new(options.size, cells);
        Terrain { options, grid }
    }

    /// The grid of corner heights, for meshing and texturing.
    pub fn grid(&self) -> (r: &SquareGrid<HeightOnlyCell>)
        ensures
            *r == self.spec_grid(),
    {
        &self.grid
    }

    /// The terrain's size in tiles.
    pub fn size(&self) -> (r: GridSize)
        ensures
            r == self.spec_options().size,
    {
        self.options.size
    }

    /// The terrain's world-space footprint in milliunits, for the water
    /// plane that covers it.
    pub fn bounds(&self) -> (r: (i64, i64))
        ensures
            r.0 == self.spec_options().size.width * 1000,
            r.1 == self.spec_options().size.height * 1000,
    {
        ((self.options.size.width as i64) * 1000, (self.options.size.height as i64) * 1000)
    }

    /// The whole terrain as one merged mesh.
    pub fn mesh(&self) -> (r: TerrainMesh)
        requires
            self.wf(),
            4 * self.spec_grid().spec_width() * self.spec_grid().spec_height() <= u32::MAX,
        ensures
            r.vertices@.len() == 4 * self.spec_grid()@.len(),
            r.triangles@.len() == 6 * self.spec_grid()@.len(),
            forall|v: int|
                0 <= v < r.vertices@.len() ==> #[trigger] r.vertices@[v]
                    == crate::terrain::mesh::spec_mesh_vertex(self.spec_grid(), v),
            forall|j: int|
                0 <= j < r.triangles@.len() ==> #[trigger] r.triangles@[j]
                    == crate::terrain::mesh::spec_mesh_index(j),
            r.uv_denominator.0 == self.spec_grid().spec_width(),
            r.uv_denominator.1 == self.spec_grid().spec_height(),
    {
        self.grid.mesh()
    }

    /// Projects a world point down onto the grid: the cell whose footprint
    /// the point is over, or `None` when the point lies outside the grid.
    pub fn world_to_grid(&self, position: WorldPosition) -> (r: Option<Coordinates>)
        requires
            self.wf(),
            -0x1000000000000000 <= position.x <= 0x1000000000000000,
            -0x1000000000000000 <= position.z <= 0x1000000000000000,
        ensures
            r is Some <==> spec_world_in_range(position.x as int, self.spec_grid().spec_width())
                && spec_world_in_range(position.z as int, self.spec_grid().spec_height()),
            r matches Some(c) ==> {
                &&& c.x == spec_world_axis_cell(position.x as int, self.spec_grid().spec_width())
                &&& c.y == spec_world_axis_cell(position.z as int, self.spec_grid().spec_height())
                &&& self.spec_grid().spec_in_bounds(c)
            },
    {
        let w = self.options.size.width as i64;
        let h = self.options.size.height as i64;
        let lx = position.x + w * 500;
        let lz = position.z + h * 500;
        if lx < 0 || lz < 0 || lx >= w * 1000 || lz >= h * 1000 {
            return None;
        }
        proof {
            lemma_div_bound(lx as int, w as int, 1000);
            lemma_div_bound(lz as int, h as int, 1000);
        }
        let cx = ((lx as u64) / 1000) as u32;
        let cy = ((lz as u64) / 1000) as u32;
        Some(Coordinates { x: cx as i32, y: cy as i32 })
    }

    /// Projects a world point onto the grid and classifies the terrain under
    /// it; the reported world position is the cell's, lifted to its highest
    /// corner so a marker there sits on top of the terrain.
    pub fn survey(&self, position: WorldPosition) -> (r: Option<Survey>)
        requires
            self.wf(),
            -0x1000000000000000 <= position.x <= 0x1000000000000000,
            -0x1000000000000000 <= position.z <= 0x1000000000000000,
        ensures
            r is Some <==> spec_world_in_range(position.x as int, self.spec_grid().spec_width())
                && spec_world_in_range(position.z as int, self.spec_grid().spec_height()),
            r matches Some(s) ==> {
                let g = self.spec_grid();
                let cell = g@[g.spec_index_of(s.location)];
                &&& s.location.x == spec_world_axis_cell(position.x as int, g.spec_width())
                &&& s.location.y == spec_world_axis_cell(position.z as int, g.spec_height())
                &&& g.spec_in_bounds(s.location)
                &&& s.world.x == spec_axis_to_world(s.location.x as int, g.spec_width())
                &&& s.world.y == cell.spec_max_height()
                &&& s.world.z == spec_axis_to_world(s.location.y as int, g.spec_height())
                &&& s.cell == spec_surveyed(cell)
            },
    {
        match self.world_to_grid(position) {
            Some(index) => {
                let cell = match self.grid.get(index) {
                    Some(cell) => *cell,
                    None => {
                        proof {
                            assert(false);
                        }
                        return None;
                    },
                };
                let ground = self.grid.grid_to_world(index);
                let lift = cell.world_y();
                Some(
                    Survey {
                        world: WorldPosition { x: ground.x, y: lift.y, z: ground.z },
                        location: index,
                        cell: SurveyedCell::from(cell),
                    },
                )
            },
            None => None,
        }
    }
}

/// What a survey found: the cell's world position lifted onto the terrain,
/// its grid location, and its terrain classification.
#[derive(Debug, Clone, Copy, PartialEq, Eq, Structural)]
pub struct Survey {
    pub world: WorldPosition,
    pub location: Coordinates,
    pub cell: SurveyedCell,
}

impl Survey {
    pub fn world(&self) -> (r: WorldPosition)
        ensures
            r == self.world,
    {
        self.world
    }

    pub fn location(&self) -> (r: Coordinates)
        ensures
            r == self.location,
    {
        self.location
    }

    pub fn cell(&self) -> (r: &SurveyedCell)
        ensures
            *r == self.cell,
    {
        &self.cell
    }
}

/// A surveyed cell's terrain class; buildable ground keeps its corner
/// heights.
#[derive(Debug, Clone, Copy, PartialEq, Eq, Structural)]
pub enum SurveyedCell {
    Ground(HeightOnlyCell),
    Beach,
    Water,
}

/// Classification of a cell by its four corner heights: under water when all
/// four corners lie below zero, beach when only some do, ground when none
/// do.
pub open spec fn spec_surveyed(value: HeightOnlyCell) -> SurveyedCell {
    let all_below = value.top_left < 0 && value.top_right < 0 && value.bottom_left < 0
        && value.bottom_right < 0;
    let any_below = value.top_left < 0 || value.top_right < 0 || value.bottom_left < 0
        || value.bottom_right < 0;
    if all_below {
        SurveyedCell::Water
    } else if any_below {
        SurveyedCell::Beach
    } else {
        SurveyedCell::Ground(value)
    }
}

impl From<HeightOnlyCell> for SurveyedCell {
    /// Applies the water/beach/ground rule to the four corner heights.
    fn from(value: HeightOnlyCell) -> (r: Self) {
        let all_below = value.top_left < 0 && value.top_right < 0 && value.bottom_left < 0
            && value.bottom_right < 0;
        let any_below = value.top_left < 0 || value.top_right < 0 || value.bottom_left < 0
            || value.bottom_right < 0;
        if all_below {
            SurveyedCell::Water
        } else if any_below {
            SurveyedCell::Beach
        } else {
            SurveyedCell::Ground(value)
        }
    }
}

impl vstd::std_specs::convert::FromSpecImpl<HeightOnlyCell> for SurveyedCell {
    open spec fn obeys_from_spec() -> bool {
        true
    }

    open spec fn from_spec(v: HeightOnlyCell) -> Self {
        spec_surveyed(v)
    }
}

/// Projecting a cell's world position back onto the grid returns the very
/// same cell, on either axis: the half-grid centering offset that
/// `grid_to_world` subtracts is exactly what `world_to_grid` adds back, so
/// the round trip is the identity on every in-bounds coordinate.
pub proof fn lemma_world_round_trip(w: int, h: int, c: Coordinates)
    requires
        0 <= c.x < w,
        0 <= c.y < h,
    ensures
        spec_world_in_range(spec_axis_to_world(c.x as int, w), w),
        spec_world_in_range(spec_axis_to_world(c.y as int, h), h),
        spec_world_axis_cell(spec_axis_to_world(c.x as int, w), w) == c.x,
        spec_world_axis_cell(spec_axis_to_world(c.y as int, h), h) == c.y,
{
    vstd::arithmetic::div_mod::lemma_fundamental_div_mod_converse(
        1000 * (c.x as int) + 500,
        1000,
        c.x as int,
        500,
    );
    vstd::arithmetic::div_mod::lemma_fundamental_div_mod_converse(
        1000 * (c.y as int) + 500,
        1000,
        c.y as int,
        500,
    );
}

} // verus!
