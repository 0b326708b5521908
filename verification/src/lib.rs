//! Spatial grid and terrain-synthesis core of a tower-defense prototype.
//!
//! The library owns the data structures and algorithms that decide what the
//! surrounding game shows: a generic row-major 2D grid with neighbor queries
//! and world/grid coordinate transforms, a 3x3 neighborhood classifier that
//! picks wall-connector geometry, a corner-interpolation upsampler that turns
//! one height sample per tile into four corner heights, mesh and texture
//! emission from those corner heights, and a survey that projects a world
//! point back onto the grid and classifies the terrain under it.
//!
//! All world-space lengths and heights are carried as fixed-point integers in
//! milliunits (one tile is `MILLIS_PER_TILE` units), so every transform and
//! classification here is exact integer arithmetic. The hosting application
//! converts to and from its own floating-point formats at the boundary.

pub mod building;
pub mod model;
pub mod terrain;
