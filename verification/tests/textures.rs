use castle::model::GridSize;
use castle::terrain::mesh::get_color;
use castle::terrain::mesh::HeightOnlyCell;
use castle::terrain::textures::square;
use castle::terrain::textures::Layers;
use castle::terrain::textures::Rgba;
use castle::terrain::textures::TerrainTextureBuilder;
use castle::model::grid::SquareGrid;

fn rgba(red: u8, green: u8, blue: u8) -> Rgba {
    Rgba { red, green, blue, alpha: 255 }
}

#[test]
fn layer_bands_pick_the_first_covering_threshold() {
    let layers = Layers::default();
    // -0.6 is covered by the first water band.
    assert_eq!(layers.get(-600, 1), rgba(51, 100, 197));
    // -0.97 is also caught by the first band: the table lists the deeper
    // water band second, so the first one shadows it.
    assert_eq!(layers.get(-970, 1), rgba(51, 100, 197));
}

#[test]
fn layer_bands_cover_sand_grass_and_fall_back_to_red() {
    let layers = Layers::default();
    assert_eq!(layers.get(0, 1), rgba(210, 208, 125));
    assert_eq!(layers.get(500, 1), rgba(86, 152, 23));
    assert_eq!(layers.get(800, 1), rgba(62, 107, 18));
    assert_eq!(layers.get(1000, 1), rgba(0x1b, 0x37, 0x20));
    // Past every threshold: the loud sentinel, a configuration defect.
    assert_eq!(layers.get(2000, 1), rgba(255, 0, 0));
    // Fractional heights scale through the denominator.
    assert_eq!(layers.get(2000, 4), rgba(86, 152, 23));
}

#[test]
fn texture_paints_tiles_from_interpolated_heights() {
    let flat: SquareGrid<HeightOnlyCell> =
        SquareGrid::new_flat(GridSize::new(1, 1), HeightOnlyCell::new((0, 1000, 0, 1000)));
    let data = TerrainTextureBuilder::new(&flat, (2, 2)).build();
    assert_eq!(data.len(), 16);
    // Pixel (0,0) sits on the zero-height corner: sand.
    assert_eq!(&data[0..4], &[210, 208, 125, 255]);
    // Pixel (1,0) leans toward the raised right corner: first grass band.
    assert_eq!(&data[4..8], &[86, 152, 23, 255]);
}

#[test]
fn deep_water_tiles_paint_blue() {
    let flat: SquareGrid<HeightOnlyCell> =
        SquareGrid::new_flat(GridSize::new(2, 1), HeightOnlyCell::new((-600, -600, -600, -600)));
    let data = TerrainTextureBuilder::new(&flat, (2, 2)).build();
    assert_eq!(data.len(), 2 * 2 * 2 * 4);
    for pixel in data.chunks(4) {
        assert_eq!(pixel, &[51, 100, 197, 255]);
    }
}

#[test]
fn square_texture_draws_a_white_border() {
    let data = square();
    assert_eq!(data.len(), 32 * 32 * 4);
    let pixel = |x: usize, y: usize| &data[(y * 32 + x) * 4..(y * 32 + x) * 4 + 4];
    assert_eq!(pixel(0, 0), &[255, 255, 255, 255]);
    assert_eq!(pixel(31, 0), &[255, 255, 255, 255]);
    assert_eq!(pixel(0, 31), &[255, 255, 255, 255]);
    assert_eq!(pixel(31, 31), &[255, 255, 255, 255]);
    assert_eq!(pixel(15, 0), &[255, 255, 255, 255]);
    assert_eq!(pixel(0, 15), &[255, 255, 255, 255]);
    assert_eq!(pixel(1, 1), &[0, 0, 0, 0]);
    assert_eq!(pixel(16, 16), &[0, 0, 0, 0]);
    assert_eq!(pixel(30, 30), &[0, 0, 0, 0]);
}

#[test]
fn vertex_colors_step_with_height_magnitude() {
    assert_eq!(get_color(50), rgba(0x0a, 0x7e, 0x0a));
    assert_eq!(get_color(-250), rgba(0x10, 0xcb, 0x10));
    assert_eq!(get_color(350), rgba(0x18, 0xed, 0x18));
    assert_eq!(get_color(999), rgba(0x18, 0xed, 0x18));
}
