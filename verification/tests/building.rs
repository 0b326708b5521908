use castle::building::simplify;
use castle::building::Cannon;
use castle::building::ConnectingWall;
use castle::building::ConstructionEvent;
use castle::building::RefreshAction;
use castle::building::Structure;
use castle::building::StructureEntity;
use castle::building::StructureLayers;
use castle::building::Wall;
use castle::model::grid::Around;
use castle::model::Coordinates;
use castle::model::GridSize;
use castle::model::Player;

fn wall() -> Option<Structure> {
    Some(Structure::Wall(Wall { player: Player::One }))
}

fn no_wall() -> Option<Structure> {
    None
}

fn window(
    n: Option<Structure>,
    w: Option<Structure>,
    e: Option<Structure>,
    s: Option<Structure>,
) -> Around<Option<Structure>> {
    Around::new(((no_wall(), n, no_wall()), (w, no_wall(), e), (no_wall(), s, no_wall())))
}

#[test]
fn classification_covers_the_recognized_shapes() {
    let n = wall();
    let o = no_wall();
    assert_eq!(
        ConnectingWall::from(window(o, o, wall(), wall())),
        ConnectingWall::Corner(0)
    );
    assert_eq!(
        ConnectingWall::from(window(o, wall(), o, wall())),
        ConnectingWall::Corner(90)
    );
    assert_eq!(
        ConnectingWall::from(window(n, wall(), o, o)),
        ConnectingWall::Corner(180)
    );
    assert_eq!(
        ConnectingWall::from(window(n, o, wall(), o)),
        ConnectingWall::Corner(270)
    );
    assert_eq!(
        ConnectingWall::from(window(o, wall(), wall(), o)),
        ConnectingWall::EastWest
    );
    assert_eq!(
        ConnectingWall::from(window(n, o, o, wall())),
        ConnectingWall::NorthSouth
    );
    assert_eq!(ConnectingWall::from(window(o, o, o, o)), ConnectingWall::Isolated);
    // Junctions fall back to the placeholder class.
    assert_eq!(
        ConnectingWall::from(window(n, wall(), wall(), o)),
        ConnectingWall::Unknown
    );
    assert_eq!(
        ConnectingWall::from(window(n, wall(), wall(), wall())),
        ConnectingWall::Unknown
    );
}

#[test]
fn classification_ignores_diagonals_and_repeats() {
    let diagonal_noise = Around::new((
        (wall(), no_wall(), wall()),
        (wall(), no_wall(), wall()),
        (wall(), no_wall(), no_wall()),
    ));
    let clean = window(no_wall(), wall(), wall(), no_wall());
    // Same orthogonal occupancy, different diagonals: same class.
    assert_eq!(ConnectingWall::from(diagonal_noise), ConnectingWall::from(clean));
    // Classifying an unchanged neighborhood twice yields the same answer.
    let again = window(no_wall(), wall(), wall(), no_wall());
    assert_eq!(
        ConnectingWall::from(window(no_wall(), wall(), wall(), no_wall())),
        ConnectingWall::from(again)
    );
}

#[test]
fn simplify_keeps_only_walls() {
    let wall_entity = StructureEntity::New(Structure::Wall(Wall { player: Player::Two }));
    let cannon_entity = StructureEntity::Current(
        Structure::Cannon(Cannon { player: Player::One }),
        4,
    );
    assert_eq!(
        simplify(Some(wall_entity)),
        Some(Structure::Wall(Wall { player: Player::Two }))
    );
    assert_eq!(simplify(Some(cannon_entity)), None);
    assert_eq!(simplify(Some(StructureEntity::Empty)), None);
    assert_eq!(simplify(None), None);
}

#[test]
fn construction_event_exposes_its_parts() {
    let event = ConstructionEvent::new(
        Coordinates::new(3, 4),
        Structure::Wall(Wall { player: Player::One }),
    );
    assert_eq!(*event.coordinates(), Coordinates::new(3, 4));
    assert_eq!(
        *event.structure(),
        Structure::Wall(Wall { player: Player::One })
    );
}

#[test]
fn castle_outline_classifies_as_corners_and_runs() {
    let mut layers = StructureLayers::new(GridSize::new(16, 16));
    layers.create_castle(Coordinates::new(4, 4), Coordinates::new(4, 4), Player::One);
    // The walls form the outline of [2,6]x[2,6] with a cannon at (4,4).
    assert_eq!(
        layers.wall_connection(Coordinates::new(2, 2)),
        ConnectingWall::Corner(0)
    );
    assert_eq!(
        layers.wall_connection(Coordinates::new(6, 2)),
        ConnectingWall::Corner(90)
    );
    assert_eq!(
        layers.wall_connection(Coordinates::new(6, 6)),
        ConnectingWall::Corner(180)
    );
    assert_eq!(
        layers.wall_connection(Coordinates::new(2, 6)),
        ConnectingWall::Corner(270)
    );
    assert_eq!(
        layers.wall_connection(Coordinates::new(4, 2)),
        ConnectingWall::EastWest
    );
    assert_eq!(
        layers.wall_connection(Coordinates::new(2, 4)),
        ConnectingWall::NorthSouth
    );
    // The cannon does not connect to the walls around it.
    assert_eq!(
        layers.wall_connection(Coordinates::new(4, 4)),
        ConnectingWall::Isolated
    );
}

#[test]
fn refresh_plan_spawns_new_cells_then_rests() {
    let mut layers = StructureLayers::new(GridSize::new(8, 8));
    layers.create_castle(Coordinates::new(3, 3), Coordinates::new(2, 2), Player::Two);
    let plan = layers.refresh_plan();
    // An outline of [2,4]x[2,4] has 8 wall cells, plus the cannon.
    assert_eq!(plan.len(), 9);
    for (coordinates, _world, action) in &plan {
        match action {
            RefreshAction::Create(Structure::Wall(w)) => assert_eq!(w.player, Player::Two),
            RefreshAction::Create(Structure::Cannon(c)) => {
                assert_eq!(*coordinates, Coordinates::new(3, 3));
                assert_eq!(c.player, Player::Two);
            }
            other => panic!("unexpected action {other:?}"),
        }
    }
    // Record each step: the layer settles and the next plan is empty.
    let mut next_id = 1u64;
    for (coordinates, _world, _action) in &plan {
        layers.record_refresh(*coordinates, next_id);
        next_id += 1;
    }
    assert_eq!(layers.refresh_plan().len(), 0);
}

#[test]
fn placing_a_wall_marks_neighbors_affected() {
    let mut layers = StructureLayers::new(GridSize::new(8, 8));
    layers.create_castle(Coordinates::new(3, 3), Coordinates::new(2, 2), Player::One);
    let plan = layers.refresh_plan();
    let mut next_id = 1u64;
    for (coordinates, _world, _action) in &plan {
        layers.record_refresh(*coordinates, next_id);
        next_id += 1;
    }
    // A new wall next to the outline invalidates its settled neighbors.
    layers.set(
        Coordinates::new(5, 3),
        Structure::Wall(Wall { player: Player::One }),
    );
    let plan = layers.refresh_plan();
    // The new wall itself spawns; the three settled outline walls beside it,
    // at (4,2), (4,3) and (4,4), are respawned with fresh connectors.
    let mut creates = 0;
    let mut recreates = 0;
    let mut retains = 0;
    for (_coordinates, _world, action) in &plan {
        match action {
            RefreshAction::Create(_) => creates += 1,
            RefreshAction::Recreate(_, _) => recreates += 1,
            RefreshAction::Retain(_, _) => retains += 1,
        }
    }
    assert_eq!(creates, 1);
    assert_eq!(recreates, 3);
    assert_eq!(retains, 0);
}
