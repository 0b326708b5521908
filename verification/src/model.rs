//! Core data model: seeds, players, game phases, and the fixed-point
//! coordinate types shared by the grid and terrain modules.

pub mod grid;

use vstd::prelude::*;

verus! {

/// World-space length of one grid tile, in milliunits.
pub const MILLIS_PER_TILE: i64 = 1000;

/// A seed for procedural generation, wrapping the raw value.
#[derive(Debug, Clone, Copy, PartialEq, Eq)]
pub struct Seed<T>(T);

impl<T> Seed<T> {
    /// The wrapped seed value.
    pub closed spec fn spec_value(self) -> T {
        self.0
    }

    pub fn new(value: T) -> (r: Self)
        ensures
            r.spec_value() == value,
    {
        Self(value)
    }
}

impl<T: Copy> Seed<T> {
    /// The raw value the seed was built from.
    pub fn value(self) -> (r: T)
        ensures
            r == self.spec_value(),
    {
        self.0
    }
}

impl Seed<u32> {
    /// Relies on std::time::SystemTime::now and duration_since: seconds of the
    /// system clock since the Unix epoch, truncated to 32 bits. Nothing is
    /// promised of the clock's reading; it panics if the clock reads before
    /// the epoch.
    #[verifier::external_body]
    pub fn system_time() -> Seed<u32> {
        Seed(
            std::time::SystemTime::now()
                .duration_since(std::time::UNIX_EPOCH)
                .expect("time drift detected, aborting")
                .as_secs() as u32,
        )
    }
}

/// A grid-space cell address: integer column `x` and row `y`.
#[derive(Debug, Clone, Copy, PartialEq, Eq, Hash, Structural)]
pub struct Coordinates {
    pub x: i32,
    pub y: i32,
}

impl Coordinates {
    pub fn new(x: i32, y: i32) -> (r: Self)
        ensures
            r.x == x,
            r.y == y,
    {
        Self { x, y }
    }
}

/// Width and height of a grid, in tiles.
#[derive(Debug, Clone, Copy, PartialEq, Eq, Hash, Structural)]
pub struct GridSize {
    pub width: u32,
    pub height: u32,
}

impl GridSize {
    pub fn new(width: u32, height: u32) -> (r: Self)
        ensures
            r.width == width,
            r.height == height,
    {
        Self { width, height }
    }

    /// Number of cells a grid of this size holds.
    pub open spec fn spec_area(self) -> int {
        self.width * self.height
    }
}

/// A world-space point in milliunits (`MILLIS_PER_TILE` to a tile); `y` is up.
#[derive(Debug, Clone, Copy, PartialEq, Eq, Hash, Structural)]
pub struct WorldPosition {
    pub x: i64,
    pub y: i64,
    pub z: i64,
}

impl WorldPosition {
    pub fn new(x: i64, y: i64, z: i64) -> (r: Self)
        ensures
            r.x == x,
            r.y == y,
            r.z == z,
    {
        Self { x, y, z }
    }
}

/// One of the two competing players.
#[derive(Debug, Clone, Copy, PartialEq, Eq, Hash, Structural)]
pub enum Player {
    One,
    Two,
}

impl Player {
    /// The opponent of this player.
    pub open spec fn spec_next(self) -> Player {
        match self {
            Player::One => Player::Two,
            Player::Two => Player::One,
        }
    }

    pub fn next(&self) -> (r: Self)
        ensures
            r == self.spec_next(),
    {
        match self {
            Player::One => Player::Two,
            Player::Two => Player::One,
        }
    }
}

impl Default for Player {
    fn default() -> (r: Self)
        ensures
            r == Player::One,
    {
        Player::One
    }
}

/// What the local player is currently doing.
#[derive(Debug, Clone, Copy, PartialEq, Eq, Hash, Structural)]
pub enum Activity {
    Observing,
    Building,
    Firing,
}

impl Default for Activity {
    fn default() -> (r: Self)
        ensures
            r == Activity::Observing,
    {
        Activity::Observing
    }
}

/// The turn cycle: each player fortifies, then arms, then both target.
#[derive(Debug, Clone, Copy, PartialEq, Eq, Hash, Structural)]
pub enum Phase {
    Fortify(Player),
    Arm(Player),
    Target(Player),
}

impl Default for Phase {
    fn default() -> (r: Self)
        ensures
            r == Phase::Fortify(Player::One),
    {
        Phase::Fortify(Player::One)
    }
}

impl Phase {
    /// The phase that follows this one in the turn cycle.
    pub open spec fn spec_next(self) -> Phase {
        match self {
            Phase::Fortify(Player::One) => Phase::Arm(Player::One),
            Phase::Arm(Player::One) => Phase::Fortify(Player::Two),
            Phase::Fortify(Player::Two) => Phase::Arm(Player::Two),
            Phase::Arm(Player::Two) => Phase::Target(Player::One),
            Phase::Target(Player::One) => Phase::Target(Player::Two),
            Phase::Target(Player::Two) => Phase::Fortify(Player::One),
        }
    }

    pub fn next(&self) -> (r: Self)
        ensures
            r == self.spec_next(),
    {
        match self {
            Self::Fortify(Player::One) => Self::Arm(Player::One),
            Self::Arm(Player::One) => Self::Fortify(Player::Two),
            Self::Fortify(Player::Two) => Self::Arm(Player::Two),
            Self::Arm(Player::Two) => Self::Target(Player::One),
            Self::Target(Player::One) => Self::Target(Player::Two),
            Self::Target(Player::Two) => Self::Fortify(Player::One),
        }
    }

    /// The player whose turn the phase belongs to.
    pub open spec fn spec_player(self) -> Player {
        match self {
            Phase::Fortify(player) => player,
            Phase::Arm(player) => player,
            Phase::Target(player) => player,
        }
    }

    pub fn player(&self) -> (r: Player)
        ensures
            r == self.spec_player(),
    {
        match self {
            Self::Fortify(player) => *player,
            Self::Arm(player) => *player,
            Self::Target(player) => *player,
        }
    }
}

/// Whether the application is at the menu or in a game.
#[derive(Debug, Clone, Copy, PartialEq, Eq, Hash, Structural)]
pub enum AppState {
    Menu,
    Game,
}

impl Default for AppState {
    fn default() -> (r: Self)
        ensures
            r == AppState::Menu,
    {
        AppState::Menu
    }
}

/// Configuration a game is started from: grid size and terrain seed.
#[derive(Debug, Clone, Copy)]
pub struct Settings {
    pub size: GridSize,
    pub seed: Seed<u32>,
}

impl Default for Settings {
    /// The default settings: a 64x64 grid, seeded from the system clock.
    fn default() -> (r: Self)
        ensures
            r.size == (GridSize { width: 64, height: 64 }),
    {
        Self { seed: Seed::system_time(), size: GridSize { width: 64, height: 64 } }
    }
}

impl Settings {
    pub fn seed(&self) -> (r: Seed<u32>)
        ensures
            r == self.seed,
    {
        self.seed
    }

    pub fn size(&self) -> (r: GridSize)
        ensures
            r == self.size,
    {
        self.size
    }
}

} // verus!
