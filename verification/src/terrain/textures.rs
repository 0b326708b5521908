//! Baked terrain coloring: elevation-banded color layers and the texture
//! builder that paints every tile's pixels from its interpolated heights.

use vstd::prelude::*;

use crate::model::grid::lemma_div_bound;
use crate::model::grid::lemma_row_major_index;
use crate::model::grid::SquareGrid;
use crate::terrain::mesh::spec_bilinear_numerator;
use crate::terrain::mesh::HeightOnlyCell;
use crate::terrain::mesh::HEIGHT_LIMIT_MILLIS;
use crate::terrain::mesh::TILE_RESOLUTION_LIMIT;

verus! {

/// One texture pixel's color.
#[derive(Debug, Clone, Copy, PartialEq, Eq, Structural)]
pub struct Rgba {
    pub red: u8,
    pub green: u8,
    pub blue: u8,
    pub alpha: u8,
}

/// The sentinel color an uncovered height falls back to: loud red, so a gap
/// in the layer table is visible, as that is a table bug and not a runtime
/// condition.
pub open spec fn spec_sentinel_color() -> Rgba {
    Rgba { red: 255, green: 0, blue: 0, alpha: 255 }
}

/// One color band: heights up to the threshold (in milliunits) take the
/// color.
#[derive(Debug, Clone, Copy, PartialEq, Eq, Structural)]
pub struct Layer(pub i64, pub Rgba);

/// An ordered list of color bands; the first whose threshold covers a height
/// wins.
#[derive(Debug)]
pub struct Layers(pub Vec<Layer>);

/// The color the band list gives the height `num / den`: the first layer
/// whose threshold is at least the height, or the sentinel when none covers
/// it.
pub open spec fn spec_layer_color(layers: Seq<Layer>, num: int, den: int) -> Rgba
    decreases layers.len(),
{
    if layers.len() == 0 {
        spec_sentinel_color()
    } else if num <= layers[0].0 * den {
        layers[0].1
    } else {
        spec_layer_color(layers.drop_first(), num, den)
    }
}

/// All thresholds lie within the admissible height range.
pub open spec fn spec_layers_bounded(layers: Seq<Layer>) -> bool {
    forall|i: int|
        0 <= i < layers.len() ==> -HEIGHT_LIMIT_MILLIS <= (#[trigger] layers[i]).0
            <= HEIGHT_LIMIT_MILLIS
}

/// The default terrain bands: deep and shallow water blues, sand, and three
/// greens of rising elevation.
pub open spec fn spec_default_layers() -> Seq<Layer> {
    seq![
        Layer(-500i64, Rgba { red: 51, green: 100, blue: 197, alpha: 255 }),
        Layer(-950i64, Rgba { red: 57, green: 106, blue: 203, alpha: 255 }),
        Layer(40, Rgba { red: 210, green: 208, blue: 125, alpha: 255 }),
        Layer(550, Rgba { red: 86, green: 152, blue: 23, alpha: 255 }),
        Layer(850, Rgba { red: 62, green: 107, blue: 18, alpha: 255 }),
        Layer(1000, Rgba { red: 0x1b, green: 0x37, blue: 0x20, alpha: 255 }),
    ]
}

impl Default for Layers {
    /// The default band table.
    fn default() -> (r: Self)
        ensures
            r.0@ == spec_default_layers(),
            spec_layers_bounded(r.0@),
    {
        let mut v: Vec<Layer> = Vec::new();
        v.push(Layer(-500, Rgba { red: 51, green: 100, blue: 197, alpha: 255 }));
        v.push(Layer(-950, Rgba { red: 57, green: 106, blue: 203, alpha: 255 }));
        v.push(Layer(40, Rgba { red: 210, green: 208, blue: 125, alpha: 255 }));
        v.push(Layer(550, Rgba { red: 86, green: 152, blue: 23, alpha: 255 }));
        v.push(Layer(850, Rgba { red: 62, green: 107, blue: 18, alpha: 255 }));
        v.push(Layer(1000, Rgba { red: 0x1b, green: 0x37, blue: 0x20, alpha: 255 }));
        proof {
            assert(v@ =~= spec_default_layers());
        }
        Layers(v)
    }
}

impl Layers {
    /// The color for the height `num / den`, `den` positive: first covering
    /// band wins, the sentinel when none does.
    pub fn get(&self, num: i64, den: i64) -> (r: Rgba)
        requires
            spec_layers_bounded(self.0@),
            1 <= den <= 0x100000000,
        ensures
            r == spec_layer_color(self.0@, num as int, den as int),
    {
        let ghost full = self.0@;
        proof {
            assert(self.0@.skip(0) =~= self.0@);
        }
        let mut i: usize = 0;
        while i < self.0.len()
            invariant
                spec_layers_bounded(self.0@),
                1 <= den <= 0x100000000,
                full == self.0@,
                i <= self.0@.len(),
                spec_layer_color(full, num as int, den as int) == spec_layer_color(
                    self.0@.skip(i as int),
                    num as int,
                    den as int,
                ),
            decreases self.0@.len() - i,
        {
            let layer = self.0[i];
            proof {
                crate::terrain::mesh::lemma_mul_bound(
                    den as int,
                    layer.0 as int,
                    0x100000000,
                    HEIGHT_LIMIT_MILLIS as int,
                );
                assert(layer.0 * den == den * layer.0) by (nonlinear_arith);
                assert(self.0@.skip(i as int)[0] == layer);
            }
            if num <= layer.0 * den {
                return layer.1;
            }
            proof {
                assert(self.0@.skip(i as int).drop_first() =~= self.0@.skip(i as int + 1));
            }
            i = i + 1;
        }
        proof {
            assert(self.0@.skip(i as int).len() == 0);
        }
        Rgba { red: 255, green: 0, blue: 0, alpha: 255 }
    }
}

/// All of a grid's cells keep their corners within the admissible height
/// range.
pub open spec fn spec_all_cells_bounded(g: SquareGrid<HeightOnlyCell>) -> bool {
    forall|i: int| 0 <= i < g@.len() ==> (#[trigger] g@[i]).spec_bounded()
}

/// The color of the texture pixel `(px, py)` over grid `g` with each tile
/// painted as a `tsx` by `tsy` pixel block: the default bands applied to the
/// bilinear height at that pixel of the tile under it.
pub open spec fn spec_pixel_color(
    g: SquareGrid<HeightOnlyCell>,
    tsx: int,
    tsy: int,
    px: int,
    py: int,
) -> Rgba {
    let cell = g@[(py / tsy) * g.spec_width() + (px / tsx)];
    spec_layer_color(
        spec_default_layers(),
        spec_bilinear_numerator(cell, px % tsx, py % tsy, tsx, tsy),
        tsx * tsy,
    )
}

/// Byte `b` of the baked texture: pixels in row-major order, four bytes
/// (red, green, blue, alpha) per pixel.
pub open spec fn spec_texture_byte(
    g: SquareGrid<HeightOnlyCell>,
    tsx: int,
    tsy: int,
    b: int,
) -> u8 {
    let pixel = b / 4;
    let width = g.spec_width() * tsx;
    let px = pixel % width;
    let py = pixel / width;
    let c = spec_pixel_color(g, tsx, tsy, px, py);
    let k = b % 4;
    if k == 0 {
        c.red
    } else if k == 1 {
        c.green
    } else if k == 2 {
        c.blue
    } else {
        c.alpha
    }
}

/// Bakes a whole terrain into one color texture, one `tile_size` pixel block
/// per tile.
pub struct TerrainTextureBuilder<'g> {
    grid: &'g SquareGrid<HeightOnlyCell>,
    tile_size: (u32, u32),
}

impl<'g> TerrainTextureBuilder<'g> {
    /// The grid being baked.
    pub closed spec fn spec_grid(&self) -> SquareGrid<HeightOnlyCell> {
        *self.grid
    }

    /// Pixels per tile, horizontally and vertically.
    pub closed spec fn spec_tile_size(&self) -> (u32, u32) {
        self.tile_size
    }

    pub fn new(grid: &'g SquareGrid<HeightOnlyCell>, tile_size: (u32, u32)) -> (r: Self)
        ensures
            r.spec_grid() == *grid,
            r.spec_tile_size() == tile_size,
    {
        Self { grid, tile_size }
    }

    /// Paints every pixel of every tile: RGBA bytes, pixels in row-major
    /// order over the whole image, each colored by the default bands at the
    /// pixel's bilinearly interpolated height.
    pub fn build(self) -> (r: Vec<u8>)
        requires
            self.spec_grid().wf(),
            spec_all_cells_bounded(self.spec_grid()),
            0 < self.spec_tile_size().0 <= TILE_RESOLUTION_LIMIT,
            0 < self.spec_tile_size().1 <= TILE_RESOLUTION_LIMIT,
            self.spec_grid().spec_width() <= i32::MAX,
            self.spec_grid().spec_height() <= i32::MAX,
            (self.spec_grid().spec_width() * self.spec_tile_size().0) * (
            self.spec_grid().spec_height() * self.spec_tile_size().1) * 4 <= usize::MAX,
        ensures
            r@.len() == (self.spec_grid().spec_width() * self.spec_tile_size().0) * (
            self.spec_grid().spec_height() * self.spec_tile_size().1) * 4,
            forall|b: int|
                0 <= b < r@.len() ==> #[trigger] r@[b] == spec_texture_byte(
                    self.spec_grid(),
                    self.spec_tile_size().0 as int,
                    self.spec_tile_size().1 as int,
                    b,
                ),
    {
        let ghost g = self.spec_grid();
        let ghost w = g.spec_width();
        let ghost h = g.spec_height();
        let ghost tsx = self.tile_size.0 as int;
        let ghost tsy = self.tile_size.1 as int;
        let layers = Layers::default();
        let mut data: Vec<u8> = Vec::new();
        let grid_size = self.grid.size();
        if grid_size.width == 0 || grid_size.height == 0 {
            proof {
                assert((w * tsx) * (h * tsy) * 4 == 0) by (nonlinear_arith)
                    requires
                        w == 0 || h == 0,
                ;
            }
            return data;
        }
        proof {
            assert((w * tsx <= (w * tsx) * (h * tsy)) && (h * tsy <= (w * tsx) * (h * tsy)) && (w
                * h <= (w * tsx) * (h * tsy)) && ((w * tsx) * (h * tsy)) <= ((w * tsx) * (h * tsy))
                * 4) by (nonlinear_arith)
                requires
                    1 <= w,
                    1 <= h,
                    1 <= tsx,
                    1 <= tsy,
            ;
        }
        let image_w = (grid_size.width as usize) * (self.tile_size.0 as usize);
        let image_h = (grid_size.height as usize) * (self.tile_size.1 as usize);
        let tsx_us = self.tile_size.0 as usize;
        let tsy_us = self.tile_size.1 as usize;
        let width_us = grid_size.width as usize;
        let mut py: usize = 0;
        while py < image_h
            invariant
                g.wf(),
                g == self.spec_grid(),
                spec_all_cells_bounded(g),
                w == g.spec_width(),
                h == g.spec_height(),
                tsx == self.spec_tile_size().0 as int,
                tsy == self.spec_tile_size().1 as int,
                0 < tsx <= TILE_RESOLUTION_LIMIT,
                0 < tsy <= TILE_RESOLUTION_LIMIT,
                1 <= w <= i32::MAX,
                1 <= h <= i32::MAX,
                tsx_us == tsx,
                tsy_us == tsy,
                width_us == w,
                image_w == w * tsx,
                image_h == h * tsy,
                (w * tsx) * (h * tsy) * 4 <= usize::MAX,
                w * h <= usize::MAX,
                layers.0@ == spec_default_layers(),
                spec_layers_bounded(layers.0@),
                py <= image_h,
                data@.len() == py * image_w * 4,
                forall|b: int|
                    0 <= b < data@.len() ==> #[trigger] data@[b] == spec_texture_byte(
                        g,
                        tsx,
                        tsy,
                        b,
                    ),
            decreases image_h - py,
        {
            let mut px: usize = 0;
            proof {
                assert(py * image_w * 4 + image_w * 4 <= (w * tsx) * (h * tsy) * 4) by (
                nonlinear_arith)
                    requires
                        image_w == w * tsx,
                        image_h == h * tsy,
                        0 <= py < image_h,
                        image_w >= 0,
                ;
            }
            while px < image_w
                invariant
                    g.wf(),
                    g == self.spec_grid(),
                    spec_all_cells_bounded(g),
                    w == g.spec_width(),
                    h == g.spec_height(),
                    tsx == self.spec_tile_size().0 as int,
                    tsy == self.spec_tile_size().1 as int,
                    0 < tsx <= TILE_RESOLUTION_LIMIT,
                    0 < tsy <= TILE_RESOLUTION_LIMIT,
                    1 <= w <= i32::MAX,
                    1 <= h <= i32::MAX,
                    tsx_us == tsx,
                    tsy_us == tsy,
                    width_us == w,
                    image_w == w * tsx,
                    image_h == h * tsy,
                    (w * tsx) * (h * tsy) * 4 <= usize::MAX,
                    w * h <= usize::MAX,
                    py * image_w * 4 + image_w * 4 <= (w * tsx) * (h * tsy) * 4,
                    layers.0@ == spec_default_layers(),
                    spec_layers_bounded(layers.0@),
                    py < image_h,
                    px <= image_w,
                    data@.len() == py * image_w * 4 + px * 4,
                    forall|b: int|
                        0 <= b < data@.len() ==> #[trigger] data@[b] == spec_texture_byte(
                            g,
                            tsx,
                            tsy,
                            b,
                        ),
                decreases image_w - px,
            {
                proof {
                    lemma_div_bound(px as int, w, tsx);
                    lemma_div_bound(py as int, h, tsy);
                    vstd::arithmetic::div_mod::lemma_mod_bound(px as int, tsx);
                    vstd::arithmetic::div_mod::lemma_mod_bound(py as int, tsy);
                    lemma_row_major_index(w, h, px as int / tsx, py as int / tsy);
                }
                let cx = px / tsx_us;
                let cy = py / tsy_us;
                let tx = (px % tsx_us) as u32;
                let ty = (py % tsy_us) as u32;
                let cell = *self.grid.cell_at(cy * width_us + cx);
                let num = cell.interpolate((tx, ty), self.tile_size);
                proof {
                    assert(1 <= tsx * tsy <= 0x100000000) by (nonlinear_arith)
                        requires
                            1 <= tsx <= 65536,
                            1 <= tsy <= 65536,
                    ;
                }
                let den = (self.tile_size.0 as i64) * (self.tile_size.1 as i64);
                let color = layers.get(num, den);
                let ghost pixel = py * image_w + px;
                proof {
                    lemma_row_major_index(image_w as int, image_h as int, px as int, py as int);
                    let base = pixel * 4;
                    vstd::arithmetic::div_mod::lemma_fundamental_div_mod_converse(
                        base,
                        4,
                        pixel as int,
                        0,
                    );
                    vstd::arithmetic::div_mod::lemma_fundamental_div_mod_converse(
                        base + 1,
                        4,
                        pixel as int,
                        1,
                    );
                    vstd::arithmetic::div_mod::lemma_fundamental_div_mod_converse(
                        base + 2,
                        4,
                        pixel as int,
                        2,
                    );
                    vstd::arithmetic::div_mod::lemma_fundamental_div_mod_converse(
                        base + 3,
                        4,
                        pixel as int,
                        3,
                    );
                    assert(pixel * 4 == py * image_w * 4 + px * 4) by (nonlinear_arith)
                        requires
                            pixel == py * image_w + px,
                    ;
                }
                data.push(color.red);
                data.push(color.green);
                data.push(color.blue);
                data.push(color.alpha);
                px = px + 1;
            }
            proof {
                assert(py * image_w * 4 + image_w * 4 == (py + 1) * image_w * 4) by (
                nonlinear_arith);
            }
            py = py + 1;
        }
        proof {
            assert(image_h * image_w * 4 == (w * tsx) * (h * tsy) * 4) by (nonlinear_arith)
                requires
                    image_w == w * tsx,
                    image_h == h * tsy,
            ;
        }
        data
    }
}

/// Byte `b` of the marker texture `square` produces: a 32 by 32 RGBA image,
/// opaque white along its one-pixel border and fully transparent black
/// inside.
pub open spec fn spec_square_byte(b: int) -> u8 {
    let pixel = b / 4;
    let px = pixel % 32;
    let py = pixel / 32;
    if px == 0 || px == 31 || py == 0 || py == 31 {
        255
    } else {
        0
    }
}

/// A small white-bordered square texture, used to mark a selected tile.
pub fn square() -> (r: Vec<u8>)
    ensures
        r@.len() == 32 * 32 * 4,
        forall|b: int| 0 <= b < r@.len() ==> #[trigger] r@[b] == spec_square_byte(b),
{
    let mut data: Vec<u8> = Vec::new();
    let mut py: usize = 0;
    while py < 32
        invariant
            py <= 32,
            data@.len() == py * 32 * 4,
            forall|b: int| 0 <= b < data@.len() ==> #[trigger] data@[b] == spec_square_byte(b),
        decreases 32 - py,
    {
        let mut px: usize = 0;
        while px < 32
            invariant
                py < 32,
                px <= 32,
                data@.len() == py * 32 * 4 + px * 4,
                forall|b: int| 0 <= b < data@.len() ==> #[trigger] data@[b] == spec_square_byte(b),
            decreases 32 - px,
        {
            let value: u8 = if px == 0 || px == 31 || py == 0 || py == 31 {
                255
            } else {
                0
            };
            proof {
                let pixel = py * 32 + px;
                vstd::arithmetic::div_mod::lemma_fundamental_div_mod_converse(
                    pixel as int,
                    32,
                    py as int,
                    px as int,
                );
                vstd::arithmetic::div_mod::lemma_fundamental_div_mod_converse(
                    pixel * 4,
                    4,
                    pixel as int,
                    0,
                );
                vstd::arithmetic::div_mod::lemma_fundamental_div_mod_converse(
                    pixel * 4 + 1,
                    4,
                    pixel as int,
                    1,
                );
                vstd::arithmetic::div_mod::lemma_fundamental_div_mod_converse(
                    pixel * 4 + 2,
                    4,
                    pixel as int,
                    2,
                );
                vstd::arithmetic::div_mod::lemma_fundamental_div_mod_converse(
                    pixel * 4 + 3,
                    4,
                    pixel as int,
                    3,
                );
            }
            data.push(value);
            data.push(value);
            data.push(value);
            data.push(value);
            px = px + 1;
        }
        py = py + 1;
    }
    data
}

} // verus!
