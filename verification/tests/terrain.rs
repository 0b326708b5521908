use castle::model::Coordinates;
use castle::model::GridSize;
use castle::model::Seed;
use castle::model::WorldPosition;
use castle::terrain::mesh::HeightOnlyCell;
use castle::terrain::mesh::RectangularMapping;
use castle::terrain::SurveyedCell;
use castle::terrain::Terrain;
use castle::terrain::TerrainOptions;
use castle::terrain::TerrainSeed;

use noise::utils::NoiseMapBuilder;
use noise::utils::PlaneMapBuilder;

fn six_by_six() -> Vec<Vec<i64>> {
    // [ 0,  1,  2,  3,  4,  5]
    // [ 6,  7,  8,  9, 10, 11]
    // [12, 13, 14, 15, 16, 17]
    // [18, 19, 20, 21, 22, 23]
    // [24, 25, 26, 27, 28, 29]
    // [30, 31, 32, 33, 34, 35]
    (0..6)
        .map(|row| ((row * 6)..((row + 1) * 6)).collect::<Vec<_>>())
        .collect::<Vec<_>>()
}

#[test]
fn test_rectangular_mapping_map_coordinates() {
    let map = RectangularMapping::new(six_by_six());
    assert_eq!(map.map_coordinates((0, 0)), ((0, 0), (0, 0), (0, 0), (0, 0)));
    assert_eq!(map.map_coordinates((1, 1)), ((0, 0), (1, 0), (0, 1), (1, 1)));
    assert_eq!(map.map_coordinates((0, 2)), ((0, 1), (0, 1), (0, 1), (0, 1)));
    assert_eq!(map.map_coordinates((5, 5)), ((2, 2), (3, 2), (2, 3), (3, 3)));
}

#[test]
fn test_rectangular_mapping_map_vec_vec() {
    let map = RectangularMapping::new(six_by_six());
    assert_eq!(map.get((0, 0)), (0, 0, 0, 0));
    assert_eq!(map.get((1, 1)), (0, 1, 6, 7));
    assert_eq!(map.get((1, 0)), (0, 1, 0, 1));
    assert_eq!(map.get((2, 0)), (1, 1, 1, 1));
    assert_eq!(map.get((3, 0)), (1, 2, 1, 2));
    assert_eq!(map.get((4, 0)), (2, 2, 2, 2));
    assert_eq!(map.get((5, 0)), (2, 3, 2, 3));
    assert_eq!(map.get((0, 1)), (0, 0, 6, 6));
    assert_eq!(map.get((0, 2)), (6, 6, 6, 6));
    assert_eq!(map.get((0, 3)), (6, 6, 12, 12));
    assert_eq!(map.get((0, 4)), (12, 12, 12, 12));
    assert_eq!(map.get((0, 5)), (12, 12, 18, 18));
    assert_eq!(map.get((5, 5)), (14, 15, 20, 21));
}

#[test]
fn surveyed_cell_water_beach_ground_boundaries() {
    // -0.1 everywhere, in milliunits: all corners below zero is water.
    let water = HeightOnlyCell::new((-100, -100, -100, -100));
    assert_eq!(SurveyedCell::from(water), SurveyedCell::Water);
    // Mixed signs classify as beach.
    let beach = HeightOnlyCell::new((-100, 200, 300, 400));
    assert_eq!(SurveyedCell::from(beach), SurveyedCell::Beach);
    // All corners at or above zero classify as ground.
    let ground = HeightOnlyCell::new((100, 200, 300, 400));
    assert_eq!(SurveyedCell::from(ground), SurveyedCell::Ground(ground));
    // Zero is not below zero: a flat shoreline cell is still ground.
    let shoreline = HeightOnlyCell::new((0, 0, 0, 0));
    assert_eq!(SurveyedCell::from(shoreline), SurveyedCell::Ground(shoreline));
}

fn flat_terrain(width: u32, height: u32, height_milli: i64) -> Terrain {
    let options = TerrainOptions::new(
        TerrainSeed::new(Seed::new(1)),
        GridSize::new(width, height),
    );
    let rows = vec![vec![height_milli; width as usize]; height as usize];
    Terrain::new(options, rows)
}

#[test]
fn world_to_grid_round_trips_every_cell() {
    let terrain = flat_terrain(8, 6, 100);
    for y in 0..6i32 {
        for x in 0..8i32 {
            let c = Coordinates::new(x, y);
            let world = terrain.grid().grid_to_world(c);
            assert_eq!(terrain.world_to_grid(world), Some(c), "cell ({x},{y})");
        }
    }
}

#[test]
fn world_to_grid_rejects_points_off_the_grid() {
    let terrain = flat_terrain(4, 4, 0);
    // The grid spans [-2000, 2000) milliunits once the half-tile shift is
    // applied; just outside on either axis projects to no cell.
    assert_eq!(terrain.world_to_grid(WorldPosition::new(2_000, 0, 0)), None);
    assert_eq!(terrain.world_to_grid(WorldPosition::new(-2_001, 0, 0)), None);
    assert_eq!(terrain.world_to_grid(WorldPosition::new(0, 0, 2_000)), None);
    assert_eq!(terrain.world_to_grid(WorldPosition::new(0, 0, -2_001)), None);
    assert_eq!(
        terrain.world_to_grid(WorldPosition::new(0, 0, 0)),
        Some(Coordinates::new(2, 2))
    );
}

#[test]
fn survey_reports_location_class_and_lifted_world() {
    let terrain = flat_terrain(4, 4, 250);
    let survey = terrain
        .survey(WorldPosition::new(-1_500, 0, -1_500))
        .expect("point over the grid");
    assert_eq!(survey.location(), Coordinates::new(0, 0));
    assert_eq!(survey.world(), WorldPosition::new(-1_500, 250, -1_500));
    match survey.cell() {
        SurveyedCell::Ground(cell) => assert_eq!(*cell, HeightOnlyCell::new((250, 250, 250, 250))),
        other => panic!("expected ground, got {other:?}"),
    }
    let under_water = flat_terrain(4, 4, -400);
    let survey = under_water
        .survey(WorldPosition::new(0, 0, 0))
        .expect("point over the grid");
    assert_eq!(*survey.cell(), SurveyedCell::Water);
    assert_eq!(under_water.survey(WorldPosition::new(9_000, 0, 0)), None);
}

#[test]
fn terrain_cells_share_corners_with_neighbors() {
    let options = TerrainOptions::new(TerrainSeed::new(Seed::new(7)), GridSize::new(6, 6));
    let rows = six_by_six();
    let terrain = Terrain::new(options, rows);
    let first = *terrain
        .grid()
        .get(Coordinates::new(0, 0))
        .expect("cell on the grid");
    assert_eq!(first, HeightOnlyCell::new((0, 0, 0, 0)));
    let odd = *terrain
        .grid()
        .get(Coordinates::new(1, 1))
        .expect("cell on the grid");
    assert_eq!(odd, HeightOnlyCell::new((0, 1, 6, 7)));
    let last = *terrain
        .grid()
        .get(Coordinates::new(5, 5))
        .expect("cell on the grid");
    assert_eq!(last, HeightOnlyCell::new((14, 15, 20, 21)));
}

#[test]
fn interpolate_returns_exact_numerators() {
    let cell = HeightOnlyCell::new((0, 1000, 2000, 3000));
    let n = 4u32;
    // At the top-left pixel the numerator is n*n times the top-left corner.
    assert_eq!(cell.interpolate((0, 0), (n, n)), 0);
    // Half way across the top edge: average of top-left and top-right.
    assert_eq!(cell.interpolate((2, 0), (n, n)), 4 * (2 * 0 + 2 * 1000));
    // Center of the tile: average of all four corners, times n*n.
    assert_eq!(cell.interpolate((2, 2), (n, n)), 24_000);
    // Bottom-right pixel of the tile: the bottom-right corner.
    assert_eq!(cell.interpolate((4, 4), (n, n)), 16 * 3000);
}

#[test]
fn mesh_emits_two_triangles_per_tile() {
    let terrain = flat_terrain(2, 1, 700);
    let mesh = terrain.mesh();
    assert_eq!(mesh.vertices.len(), 8);
    assert_eq!(mesh.triangles.len(), 12);
    assert_eq!(mesh.uv_denominator, (2, 1));
    // Tile (0,0) of a 2x1 grid is centered at (-0.5, 0) tiles.
    let v0 = &mesh.vertices[0];
    assert_eq!(v0.position, WorldPosition::new(0, 700, -500));
    assert_eq!(v0.uv, (1, 0));
    let v1 = &mesh.vertices[1];
    assert_eq!(v1.position, WorldPosition::new(-1_000, 700, -500));
    assert_eq!(v1.uv, (0, 0));
    assert_eq!(&mesh.triangles[0..6], &[0, 1, 2, 0, 2, 3]);
    assert_eq!(&mesh.triangles[6..12], &[4, 5, 6, 4, 6, 7]);
}

#[test]
fn generated_noise_feeds_a_survey() {
    // The same pipeline the host runs: terraced Perlin noise, scaled to
    // milliunits, upsampled into corner heights, then surveyed.
    let seed = TerrainSeed::new(Seed::new(42));
    let size = GridSize::new(16, 16);
    let perlin = noise::Perlin::new(seed.into());
    let terraced: noise::Terrace<f64, _, 3> = noise::Terrace::new(perlin)
        .add_control_point(-1.0)
        .add_control_point(-0.5)
        .add_control_point(0.1)
        .add_control_point(1.0)
        .invert_terraces(true);
    let map = PlaneMapBuilder::new(terraced)
        .set_size(size.width as usize, size.height as usize)
        .build();
    let mut rows = Vec::new();
    for y in 0..size.height as usize {
        let mut row = Vec::new();
        for x in 0..size.width as usize {
            let value = map.get_value(x, y).clamp(-2.0, 2.0);
            row.push((value * 1000.0) as i64);
        }
        rows.push(row);
    }
    let options = TerrainOptions::new(seed, size);
    let terrain = Terrain::new(options, rows);
    for y in 0..16i32 {
        for x in 0..16i32 {
            let world = terrain.grid().grid_to_world(Coordinates::new(x, y));
            let survey = terrain.survey(world).expect("cell under its own center");
            assert_eq!(survey.location(), Coordinates::new(x, y));
        }
    }
}

#[test]
fn single_tile_mesh_spans_half_a_tile_each_way() {
    let cell = HeightOnlyCell::new((10, 20, 30, 40));
    let mesh = cell.mesh();
    assert_eq!(mesh.vertices.len(), 4);
    assert_eq!(mesh.triangles, vec![0, 1, 2, 0, 2, 3]);
    assert_eq!(mesh.uv_denominator, (1, 1));
    assert_eq!(mesh.vertices[0].position, WorldPosition::new(500, 20, -500));
    assert_eq!(mesh.vertices[1].position, WorldPosition::new(-500, 10, -500));
    assert_eq!(mesh.vertices[2].position, WorldPosition::new(-500, 30, 500));
    assert_eq!(mesh.vertices[3].position, WorldPosition::new(500, 40, 500));
    assert_eq!(cell.iter(), vec![10, 20, 30, 40]);
}
