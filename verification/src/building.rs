//! Structures placed on the grid and the adjacency classification that picks
//! wall-connector geometry from a cell's 3x3 neighborhood.

use vstd::prelude::*;

use crate::model::grid::lemma_cell_index;
use crate::model::grid::lemma_flat_index_coords;
use crate::model::grid::on_outline;
use crate::model::grid::spec_axis_to_world;
use crate::model::grid::col_of;
use crate::model::grid::row_of;
use crate::model::grid::Around;
use crate::model::grid::AroundCenter;
use crate::model::grid::SquareGrid;
use crate::model::grid::XyIndex;
use crate::model::Coordinates;
use crate::model::GridSize;
use crate::model::Player;
use crate::model::WorldPosition;

verus! {

/// A wall segment owned by a player.
#[derive(Debug, Clone, Copy, PartialEq, Eq, Structural)]
pub struct Wall {
    pub player: Player,
}

/// A cannon owned by a player.
#[derive(Debug, Clone, Copy, PartialEq, Eq, Structural)]
pub struct Cannon {
    pub player: Player,
}

/// Anything that can occupy a structure-layer cell.
#[derive(Debug, Clone, Copy, PartialEq, Eq, Structural)]
pub enum Structure {
    Wall(Wall),
    Cannon(Cannon),
}

/// `s` itself when it is a wall, `None` for anything else.
pub open spec fn spec_as_wall(s: Structure) -> Option<Structure> {
    match s {
        Structure::Wall(_) => Some(s),
        Structure::Cannon(_) => None,
    }
}

impl Structure {
    /// Keeps only wall structures; used to decide wall connectivity.
    pub fn as_wall(self) -> (r: Option<Structure>)
        ensures
            r == spec_as_wall(self),
    {
        match self {
            Structure::Wall(w) => Some(Structure::Wall(w)),
            Structure::Cannon(_) => None,
        }
    }
}

/// A request to place `structure` at a grid cell.
#[derive(Debug, Clone, Copy, PartialEq, Eq, Structural)]
pub struct ConstructionEvent(pub Coordinates, pub Structure);

impl ConstructionEvent {
    pub fn new(coordinates: Coordinates, structure: Structure) -> (r: Self)
        ensures
            r.0 == coordinates,
            r.1 == structure,
    {
        Self(coordinates, structure)
    }

    pub fn coordinates(&self) -> (r: &Coordinates)
        ensures
            *r == self.0,
    {
        &self.0
    }

    pub fn structure(&self) -> (r: &Structure)
        ensures
            *r == self.1,
    {
        &self.1
    }
}

/// The wall-connector geometry a cell's neighborhood calls for.
///
/// `Corner` carries the rotation angle in degrees. `Unknown` deliberately
/// covers every configuration outside the six expected ones (junctions among
/// them); the renderer shows it as a plain placeholder block.
#[derive(Debug, Clone, Copy, PartialEq, Eq, Structural)]
pub enum ConnectingWall {
    Isolated,
    NorthSouth,
    EastWest,
    Corner(u32),
    Unknown,
}

/// Classification of a 3x3 neighborhood of wall occupancy: a pure function of
/// the four orthogonal entries; diagonal entries are ignored.
pub open spec fn spec_connecting_wall(a: Around<Option<Structure>>) -> ConnectingWall {
    let n = a.0.1 is Some;
    let w = a.1.0 is Some;
    let e = a.1.2 is Some;
    let s = a.2.1 is Some;
    if s && e && !n && !w {
        ConnectingWall::Corner(0)
    } else if s && w && !n && !e {
        ConnectingWall::Corner(90)
    } else if n && w && !s && !e {
        ConnectingWall::Corner(180)
    } else if n && e && !s && !w {
        ConnectingWall::Corner(270)
    } else if e && w && !n && !s {
        ConnectingWall::EastWest
    } else if n && s && !e && !w {
        ConnectingWall::NorthSouth
    } else if !n && !s && !e && !w {
        ConnectingWall::Isolated
    } else {
        ConnectingWall::Unknown
    }
}

impl From<Around<Option<Structure>>> for ConnectingWall {
    /// Reads the four orthogonal neighbors and picks one of the recognized
    /// connector shapes; anything else is `Unknown`.
    fn from(value: Around<Option<Structure>>) -> (r: Self) {
        let n = value.0.1.is_some();
        let w = value.1.0.is_some();
        let e = value.1.2.is_some();
        let s = value.2.1.is_some();
        if s && e && !n && !w {
            Self::Corner(0)
        } else if s && w && !n && !e {
            Self::Corner(90)
        } else if n && w && !s && !e {
            Self::Corner(180)
        } else if n && e && !s && !w {
            Self::Corner(270)
        } else if e && w && !n && !s {
            Self::EastWest
        } else if n && s && !e && !w {
            Self::NorthSouth
        } else if !n && !s && !e && !w {
            Self::Isolated
        } else {
            Self::Unknown
        }
    }
}

impl vstd::std_specs::convert::FromSpecImpl<Around<Option<Structure>>> for ConnectingWall {
    open spec fn obeys_from_spec() -> bool {
        true
    }

    open spec fn from_spec(v: Around<Option<Structure>>) -> Self {
        spec_connecting_wall(v)
    }
}

/// The classification reads nothing but the current orthogonal occupancy:
/// two neighborhoods that agree on which of the four orthogonal entries are
/// occupied classify identically, whatever else they hold and however often
/// they are classified.
pub proof fn lemma_classification_depends_on_occupancy(
    a: Around<Option<Structure>>,
    b: Around<Option<Structure>>,
)
    requires
        (a.0.1 is Some) == (b.0.1 is Some),
        (a.1.0 is Some) == (b.1.0 is Some),
        (a.1.2 is Some) == (b.1.2 is Some),
        (a.2.1 is Some) == (b.2.1 is Some),
    ensures
        spec_connecting_wall(a) == spec_connecting_wall(b),
{
}

/// The structure a cell holds, together with the life-cycle state of its
/// spawned visual entity (identified by a plain id the host assigns).
#[derive(Debug, Clone, Copy, PartialEq, Eq, Structural)]
pub enum StructureEntity {
    Empty,
    New(Structure),
    Affected(Structure, u64),
    Current(Structure, u64),
}

/// Marks an entity as needing a refresh, keeping its structure and id.
pub open spec fn spec_affected(e: StructureEntity) -> StructureEntity {
    match e {
        StructureEntity::Empty => StructureEntity::Empty,
        StructureEntity::New(s) => StructureEntity::New(s),
        StructureEntity::Affected(s, id) => StructureEntity::Affected(s, id),
        StructureEntity::Current(s, id) => StructureEntity::Affected(s, id),
    }
}

/// The structure a cell holds, if any.
pub open spec fn spec_structure_of(e: StructureEntity) -> Option<Structure> {
    match e {
        StructureEntity::Empty => None,
        StructureEntity::New(s) => Some(s),
        StructureEntity::Affected(s, _) => Some(s),
        StructureEntity::Current(s, _) => Some(s),
    }
}

impl StructureEntity {
    fn affected(&self) -> (r: Self)
        ensures
            r == spec_affected(*self),
    {
        match self {
            StructureEntity::Empty => StructureEntity::Empty,
            StructureEntity::New(s) => StructureEntity::New(*s),
            StructureEntity::Affected(s, e) => StructureEntity::Affected(*s, *e),
            StructureEntity::Current(s, e) => StructureEntity::Affected(*s, *e),
        }
    }

    fn structure(self) -> (r: Option<Structure>)
        ensures
            r == spec_structure_of(self),
    {
        match self {
            StructureEntity::Empty => None,
            StructureEntity::New(s) => Some(s),
            StructureEntity::Affected(s, _) => Some(s),
            StructureEntity::Current(s, _) => Some(s),
        }
    }
}

/// A cell's wall, if the cell holds a wall: diagonal and cannon occupants do
/// not connect to walls.
pub open spec fn spec_simplify(v: Option<StructureEntity>) -> Option<Structure> {
    match v {
        None => None,
        Some(e) => match spec_structure_of(e) {
            None => None,
            Some(s) => spec_as_wall(s),
        },
    }
}

/// Reduces a neighborhood entry to the wall it holds, if any.
pub fn simplify(v: Option<StructureEntity>) -> (r: Option<Structure>)
    ensures
        r == spec_simplify(v),
{
    match v {
        None => None,
        Some(e) => match e.structure() {
            None => None,
            Some(s) => s.as_wall(),
        },
    }
}

/// One step the host must take to bring spawned entities back in line with
/// the layer: spawn a new entity, replace an existing one (despawning the old
/// id first), or keep an existing one as it is.
#[derive(Debug, Clone, Copy, PartialEq, Eq, Structural)]
pub enum RefreshAction {
    Create(Structure),
    Recreate(u64, Structure),
    Retain(u64, Structure),
}

/// The refresh step a cell calls for, if any: new cells are spawned, affected
/// walls are respawned (their connector shape may have changed), affected
/// cannons are kept, and current or empty cells need nothing.
pub open spec fn spec_action_for(e: StructureEntity) -> Option<RefreshAction> {
    match e {
        StructureEntity::Empty => None,
        StructureEntity::New(s) => Some(RefreshAction::Create(s)),
        StructureEntity::Affected(s, id) => match s {
            Structure::Wall(_) => Some(RefreshAction::Recreate(id, s)),
            Structure::Cannon(_) => Some(RefreshAction::Retain(id, s)),
        },
        StructureEntity::Current(_, _) => None,
    }
}

/// World position of the cell at flat index `i` of a `w` by `h` grid.
pub open spec fn spec_cell_world(i: int, w: int, h: int) -> WorldPosition {
    WorldPosition {
        x: spec_axis_to_world(col_of(i, w), w) as i64,
        y: 0,
        z: spec_axis_to_world(row_of(i, w), h) as i64,
    }
}

/// The refresh plan of the first `n` cells of `g`, in row-major order: one
/// entry, with the cell's coordinates and world position, per cell that calls
/// for a step.
pub open spec fn spec_plan(
    g: SquareGrid<StructureEntity>,
    n: int,
) -> Seq<(Coordinates, WorldPosition, RefreshAction)>
    decreases n,
{
    if n <= 0 {
        Seq::empty()
    } else {
        let rest = spec_plan(g, n - 1);
        match spec_action_for(g@[n - 1]) {
            None => rest,
            Some(a) => rest.push(
                (g.spec_cell_coords(n - 1), spec_cell_world(n - 1, g.spec_width(), g.spec_height()), a),
            ),
        }
    }
}

/// The grid of structures placed in a game, with the life-cycle state of each
/// cell's spawned entity. All writes go through this layer, so the host's
/// entities can be refreshed from the plan it exposes.
pub struct StructureLayers {
    entities: SquareGrid<StructureEntity>,
}

impl StructureLayers {
    /// The underlying entity grid.
    pub closed spec fn spec_entities(&self) -> SquareGrid<StructureEntity> {
        self.entities
    }

    pub open spec fn wf(&self) -> bool {
        &&& self.spec_entities().wf()
        &&& self.spec_entities().spec_width() <= i32::MAX
        &&& self.spec_entities().spec_height() <= i32::MAX
    }

    /// An empty layer of the given size.
    pub fn new(size: GridSize) -> (r: Self)
        requires
            size.spec_area() <= usize::MAX,
            size.width <= i32::MAX,
            size.height <= i32::MAX,
        ensures
            r.wf(),
            r.spec_entities().spec_size() == size,
            forall|i: int|
                0 <= i < r.spec_entities()@.len() ==> r.spec_entities()@[i]
                    == StructureEntity::Empty,
    {
        Self { entities: SquareGrid::new_flat(size, StructureEntity::Empty) }
    }

    /// Bounds-checked read of a cell's entity state.
    pub fn get(&self, p: Coordinates) -> (r: Option<&StructureEntity>)
        requires
            self.wf(),
        ensures
            r is Some <==> self.spec_entities().spec_in_bounds(p),
            r matches Some(v) ==> *v == self.spec_entities()@[self.spec_entities().spec_index_of(
                p,
            )],
    {
        self.entities.get(p)
    }

    /// Marks the cell at `v` as affected, where `v` is on the grid; does
    /// nothing otherwise.
    fn touch(&mut self, v: Coordinates)
        requires
            old(self).wf(),
        ensures
            final(self).wf(),
            final(self).spec_entities().spec_size() == old(self).spec_entities().spec_size(),
            old(self).spec_entities().spec_in_bounds(v) ==> final(self).spec_entities()@ == old(
                self,
            ).spec_entities()@.update(
                old(self).spec_entities().spec_index_of(v),
                spec_affected(old(self).spec_entities()@[old(self).spec_entities().spec_index_of(v)]),
            ),
            !old(self).spec_entities().spec_in_bounds(v) ==> final(self).spec_entities()@ == old(
                self,
            ).spec_entities()@,
    {
        let state = match self.entities.get(v) {
            Some(e) => *e,
            None => {
                return ;
            },
        };
        self.entities.set(v, state.affected());
    }

    /// Places `structure` at `grid` as a new entity and marks the eight
    /// neighboring cells (those on the grid) as affected, so their wall
    /// connectors are recomputed.
    pub fn set(&mut self, grid: Coordinates, structure: Structure)
        requires
            old(self).wf(),
            old(self).spec_entities().spec_in_bounds(grid),
        ensures
            final(self).wf(),
            final(self).spec_entities().spec_size() == old(self).spec_entities().spec_size(),
            forall|i: int|
                0 <= i < old(self).spec_entities()@.len() ==> {
                    let w = old(self).spec_entities().spec_width();
                    let c = col_of(i, w);
                    let r = row_of(i, w);
                    #[trigger] final(self).spec_entities()@[i] == (if c == grid.x && r == grid.y {
                        StructureEntity::New(structure)
                    } else if grid.x - 1 <= c <= grid.x + 1 && grid.y - 1 <= r <= grid.y + 1 {
                        spec_affected(old(self).spec_entities()@[i])
                    } else {
                        old(self).spec_entities()@[i]
                    })
                },
    {
        let ghost orig = *self;
        let ghost w = self.spec_entities().spec_width();
        let ghost h = self.spec_entities().spec_height();
        self.entities.set(grid, StructureEntity::New(structure));
        let coords = Around::centered(grid);
        let Around((c00, c01, c02), (c10, c11, c12), (c20, c21, c22)) = coords;
        self.touch(c00);
        self.touch(c01);
        self.touch(c02);
        self.touch(c10);
        self.touch(c11);
        self.touch(c12);
        self.touch(c20);
        self.touch(c21);
        self.touch(c22);
        proof {
            assert forall|i: int| 0 <= i < orig.spec_entities()@.len() implies {
                let c = col_of(i, w);
                let r = row_of(i, w);
                #[trigger] self.spec_entities()@[i] == (if c == grid.x && r == grid.y {
                    StructureEntity::New(structure)
                } else if grid.x - 1 <= c <= grid.x + 1 && grid.y - 1 <= r <= grid.y + 1 {
                    spec_affected(orig.spec_entities()@[i])
                } else {
                    orig.spec_entities()@[i]
                })
            } by {
                lemma_flat_index_coords(w, h, i);
                lemma_cell_index(w, h, grid.x - 1, grid.y - 1);
                lemma_cell_index(w, h, grid.x as int, grid.y - 1);
                lemma_cell_index(w, h, grid.x + 1, grid.y - 1);
                lemma_cell_index(w, h, grid.x - 1, grid.y as int);
                lemma_cell_index(w, h, grid.x as int, grid.y as int);
                lemma_cell_index(w, h, grid.x + 1, grid.y as int);
                lemma_cell_index(w, h, grid.x - 1, grid.y + 1);
                lemma_cell_index(w, h, grid.x as int, grid.y + 1);
                lemma_cell_index(w, h, grid.x + 1, grid.y + 1);
            }
        }
    }

    /// Draws a castle for `player`: a rectangular outline of new walls of the
    /// given half-extents around `center`, with a new cannon at its middle.
    pub fn create_castle(&mut self, center: Coordinates, size: Coordinates, player: Player)
        requires
            old(self).wf(),
            0 <= size.x,
            0 <= size.y,
            0 <= center.x - size.x / 2,
            0 <= center.y - size.y / 2,
            center.x + size.x / 2 < old(self).spec_entities().spec_width(),
            center.y + size.y / 2 < old(self).spec_entities().spec_height(),
        ensures
            final(self).wf(),
            final(self).spec_entities().spec_size() == old(self).spec_entities().spec_size(),
            forall|i: int|
                0 <= i < old(self).spec_entities()@.len() ==> {
                    let w = old(self).spec_entities().spec_width();
                    let c = col_of(i, w);
                    let r = row_of(i, w);
                    #[trigger] final(self).spec_entities()@[i] == (if c == center.x && r
                        == center.y {
                        StructureEntity::New(Structure::Cannon(Cannon { player }))
                    } else if on_outline(
                        Coordinates { x: (center.x - size.x / 2) as i32, y: (center.y - size.y / 2) as i32 },
                        Coordinates { x: (center.x + size.x / 2) as i32, y: (center.y + size.y / 2) as i32 },
                        c,
                        r,
                    ) {
                        StructureEntity::New(Structure::Wall(Wall { player }))
                    } else {
                        old(self).spec_entities()@[i]
                    })
                },
    {
        let hx = ((size.x as u32) / 2) as i32;
        let hy = ((size.y as u32) / 2) as i32;
        let p0 = Coordinates { x: center.x - hx, y: center.y - hy };
        let p1 = Coordinates { x: center.x + hx, y: center.y + hy };
        let ghost w = self.spec_entities().spec_width();
        let ghost h = self.spec_entities().spec_height();
        self.entities.outline(p0, p1, StructureEntity::New(Structure::Wall(Wall { player })));
        self.entities.set(center, StructureEntity::New(Structure::Cannon(Cannon { player })));
        proof {
            assert forall|i: int| 0 <= i < old(self).spec_entities()@.len() implies {
                let c = col_of(i, w);
                let r = row_of(i, w);
                #[trigger] self.spec_entities()@[i] == (if c == center.x && r == center.y {
                    StructureEntity::New(Structure::Cannon(Cannon { player }))
                } else if on_outline(p0, p1, c, r) {
                    StructureEntity::New(Structure::Wall(Wall { player }))
                } else {
                    old(self).spec_entities()@[i]
                })
            } by {
                lemma_flat_index_coords(w, h, i);
                lemma_cell_index(w, h, center.x as int, center.y as int);
            }
        }
    }

    /// The wall a neighborhood entry contributes at `(x, y)`, if any.
    pub open spec fn spec_wall_at(&self, x: int, y: int) -> Option<Structure> {
        spec_simplify(self.spec_entities().spec_xy(x, y))
    }

    /// The connector shape the cell at `p` calls for, from its four
    /// orthogonal neighbors' walls.
    pub open spec fn spec_wall_connection(&self, p: Coordinates) -> ConnectingWall {
        spec_connecting_wall(
            Around(
                (
                    self.spec_wall_at(p.x - 1, p.y - 1),
                    self.spec_wall_at(p.x as int, p.y - 1),
                    self.spec_wall_at(p.x + 1, p.y - 1),
                ),
                (
                    self.spec_wall_at(p.x - 1, p.y as int),
                    self.spec_wall_at(p.x as int, p.y as int),
                    self.spec_wall_at(p.x + 1, p.y as int),
                ),
                (
                    self.spec_wall_at(p.x - 1, p.y + 1),
                    self.spec_wall_at(p.x as int, p.y + 1),
                    self.spec_wall_at(p.x + 1, p.y + 1),
                ),
            ),
        )
    }

    /// Classifies the neighborhood of `p` into the wall-connector shape its
    /// wall should be drawn with.
    pub fn wall_connection(&self, p: Coordinates) -> (r: ConnectingWall)
        requires
            self.wf(),
            i32::MIN < p.x < i32::MAX,
            i32::MIN < p.y < i32::MAX,
        ensures
            r == self.spec_wall_connection(p),
    {
        let around = self.entities.around(p);
        let simplified = around.map(simplify);
        ConnectingWall::from(simplified)
    }

    /// The refresh steps the host must take, in row-major cell order.
    pub fn refresh_plan(&self) -> (r: Vec<(Coordinates, WorldPosition, RefreshAction)>)
        requires
            self.wf(),
        ensures
            r@ == spec_plan(self.spec_entities(), self.spec_entities()@.len() as int),
    {
        let layout = self.entities.layout();
        let mut r: Vec<(Coordinates, WorldPosition, RefreshAction)> = Vec::new();
        let mut i: usize = 0;
        while i < layout.len()
            invariant
                self.wf(),
                layout@.len() == self.spec_entities()@.len(),
                forall|j: int|
                    0 <= j < layout@.len() ==> {
                        let entry = #[trigger] layout@[j];
                        &&& entry.0 == self.spec_entities().spec_cell_coords(j)
                        &&& entry.1 == spec_cell_world(
                            j,
                            self.spec_entities().spec_width(),
                            self.spec_entities().spec_height(),
                        )
                        &&& entry.2 == self.spec_entities()@[j]
                    },
                i <= layout@.len(),
                r@ == spec_plan(self.spec_entities(), i as int),
            decreases layout@.len() - i,
        {
            let (grid, position, item) = layout[i];
            match item {
                StructureEntity::New(s) => {
                    r.push((grid, position, RefreshAction::Create(s)));
                },
                StructureEntity::Affected(s, id) => match s {
                    Structure::Wall(_) => {
                        r.push((grid, position, RefreshAction::Recreate(id, s)));
                    },
                    Structure::Cannon(_) => {
                        r.push((grid, position, RefreshAction::Retain(id, s)));
                    },
                },
                StructureEntity::Current(_, _) => {},
                StructureEntity::Empty => {},
            }
            i = i + 1;
        }
        r
    }

    /// Records that the host now shows entity `id` for the cell at `p`,
    /// completing that cell's refresh step.
    pub fn record_refresh(&mut self, p: Coordinates, id: u64)
        requires
            old(self).wf(),
            old(self).spec_entities().spec_in_bounds(p),
            spec_action_for(
                old(self).spec_entities()@[old(self).spec_entities().spec_index_of(p)],
            ) is Some,
        ensures
            final(self).wf(),
            final(self).spec_entities().spec_size() == old(self).spec_entities().spec_size(),
            spec_structure_of(
                old(self).spec_entities()@[old(self).spec_entities().spec_index_of(p)],
            ) matches Some(s) ==> final(self).spec_entities()@ == old(
                self,
            ).spec_entities()@.update(
                old(self).spec_entities().spec_index_of(p),
                StructureEntity::Current(s, id),
            ),
    {
        let state = match self.entities.get(p) {
            Some(e) => *e,
            None => {
                proof {
                    assert(false);
                }
                StructureEntity::Empty
            },
        };
        let s = match state.structure() {
            Some(s) => s,
            None => {
                proof {
                    assert(false);
                }
                return ;
            },
        };
        self.entities.set(p, StructureEntity::Current(s, id));
    }
}

} // verus!
