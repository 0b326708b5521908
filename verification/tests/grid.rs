use castle::model::grid::Around;
use castle::model::grid::AroundCenter;
use castle::model::grid::SquareGrid;
use castle::model::grid::XyIndex;
use castle::model::Coordinates;
use castle::model::GridSize;

#[test]
fn test_around_square_grid() {
    let grid: SquareGrid<u32> = SquareGrid::new_flat(GridSize::new(64, 64), 0);
    assert_eq!(grid.get_xy(Coordinates::new(63, 63)), Some(&0));
    assert_eq!(grid.get_xy(Coordinates::new(64, 64)), None);
    assert_eq!(grid.get_xy(Coordinates::new(-1, -1)), None);
    assert_eq!(
        grid.around(Coordinates::new(0, 0)),
        Around::new((
            (None, None, None),
            (None, Some(0), Some(0)),
            (None, Some(0), Some(0))
        ))
    );
    assert_eq!(
        grid.around(Coordinates::new(63, 63)),
        Around::new((
            (Some(0), Some(0), None),
            (Some(0), Some(0), None),
            (None, None, None),
        ))
    );
}

#[test]
fn get_is_none_outside_every_edge() {
    let grid: SquareGrid<u8> = SquareGrid::new_flat(GridSize::new(3, 2), 7);
    assert_eq!(grid.get(Coordinates::new(-1, 0)), None);
    assert_eq!(grid.get(Coordinates::new(0, -1)), None);
    assert_eq!(grid.get(Coordinates::new(3, 0)), None);
    assert_eq!(grid.get(Coordinates::new(0, 2)), None);
    assert_eq!(grid.get(Coordinates::new(2, 1)), Some(&7));
}

#[test]
fn set_then_get_round_trips() {
    let mut grid: SquareGrid<u8> = SquareGrid::new_flat(GridSize::new(4, 4), 0);
    grid.set(Coordinates::new(2, 3), 9);
    assert_eq!(grid.get(Coordinates::new(2, 3)), Some(&9));
    assert_eq!(grid.get(Coordinates::new(3, 2)), Some(&0));
}

#[test]
fn around_at_corner_has_exactly_nine_entries() {
    let grid: SquareGrid<u8> = SquareGrid::new_flat(GridSize::new(2, 2), 1);
    let window = grid.around(Coordinates::new(0, 0));
    let entries = window.to_vec();
    assert_eq!(entries.len(), 9);
    let absent = entries.iter().filter(|e| e.is_none()).count();
    assert_eq!(absent, 5);
    let window = grid.around(Coordinates::new(1, 1));
    let entries = window.to_vec();
    assert_eq!(entries.len(), 9);
    let absent = entries.iter().filter(|e| e.is_none()).count();
    assert_eq!(absent, 5);
}

#[test]
fn outline_paints_exactly_the_perimeter() {
    let mut grid: SquareGrid<u8> = SquareGrid::new_flat(GridSize::new(6, 6), 0);
    let before = {
        let mut copies = Vec::new();
        for y in 0..6 {
            for x in 0..6 {
                copies.push(*grid.get(Coordinates::new(x, y)).unwrap());
            }
        }
        copies
    };
    grid.outline(Coordinates::new(0, 0), Coordinates::new(4, 4), 5);
    let mut painted = 0;
    for y in 0..6i32 {
        for x in 0..6i32 {
            let value = *grid.get(Coordinates::new(x, y)).unwrap();
            let on_border = (x <= 4 && y <= 4) && (x == 0 || x == 4 || y == 0 || y == 4);
            if on_border {
                assert_eq!(value, 5, "perimeter cell ({x},{y})");
                painted += 1;
            } else {
                assert_eq!(value, before[(y * 6 + x) as usize], "interior cell ({x},{y})");
            }
        }
    }
    assert_eq!(painted, 16);
}

#[test]
fn layout_walks_cells_in_row_major_order() {
    let grid: SquareGrid<u8> = SquareGrid::new_flat(GridSize::new(2, 2), 3);
    let layout = grid.layout();
    assert_eq!(layout.len(), 4);
    assert_eq!(layout[0].0, Coordinates::new(0, 0));
    assert_eq!(layout[1].0, Coordinates::new(1, 0));
    assert_eq!(layout[2].0, Coordinates::new(0, 1));
    assert_eq!(layout[3].0, Coordinates::new(1, 1));
    // A 2x2 grid centered on the origin: cell (0,0) sits at -0.5 tiles.
    assert_eq!(layout[0].1.x, -500);
    assert_eq!(layout[0].1.z, -500);
    assert_eq!(layout[3].1.x, 500);
    assert_eq!(layout[3].1.z, 500);
    assert!(layout.iter().all(|entry| entry.2 == 3));
}

#[test]
fn apply_maps_every_cell_with_its_coordinates() {
    let grid: SquareGrid<u8> = SquareGrid::new_flat(GridSize::new(3, 2), 1);
    let doubled = grid.apply(|c: Coordinates, v: u8| (v as i32) + c.x + 10 * c.y);
    let cells = doubled.into_cells();
    assert_eq!(cells, vec![1, 2, 3, 11, 12, 13]);
}

#[test]
fn map_consumes_and_transforms() {
    let grid: SquareGrid<u8> = SquareGrid::new_flat(GridSize::new(2, 1), 4);
    let summed = grid.map(|c: Coordinates, v: u8| v as u64 + c.x as u64);
    assert_eq!(summed.into_cells(), vec![4, 5]);
}

#[test]
fn world_transforms_center_the_grid() {
    let grid: SquareGrid<u8> = SquareGrid::new_flat(GridSize::new(64, 64), 0);
    let to_local = grid.world_to_local();
    assert_eq!((to_local.x, to_local.y, to_local.z), (31_500, 0, 31_500));
    let to_world = grid.local_to_world();
    assert_eq!((to_world.x, to_world.y, to_world.z), (-31_500, 0, -31_500));
    let origin = grid.grid_to_world(Coordinates::new(0, 0));
    assert_eq!((origin.x, origin.z), (-31_500, -31_500));
    let far = grid.grid_to_world(Coordinates::new(63, 63));
    assert_eq!((far.x, far.z), (31_500, 31_500));
}
