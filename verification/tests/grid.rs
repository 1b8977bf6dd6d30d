// Cell resolution against a grid of 8 x 8 cells, each 8.0 world units on a
// side, anchored at the world origin, expressed in thousandths of a world
// unit (cell size 8000, origin 0).

use grid_hover::grid::CellCoord;
use grid_hover::grid::GridConfigError;
use grid_hover::grid::GridSpec;
use grid_hover::grid::WorldPoint;

fn demo_grid() -> GridSpec {
    GridSpec::new(8000, 8000, 8, 8, 0, 0).unwrap()
}

#[test]
fn boundary_exact_inside_top_corner() {
    // A world point at (63.999, 63.999) lies just inside the last cell.
    let g = demo_grid();
    let r = g.resolve_cell(WorldPoint { x: 63999, y: 63999 });
    assert_eq!(r, Some(CellCoord { x: 7, y: 7 }));
}

#[test]
fn boundary_exact_outside_edge() {
    // A world point at (64.0, 0.0) is out of bounds on x: 64.0 / 8.0 = 8,
    // one past the last cell index.
    let g = demo_grid();
    let r = g.resolve_cell(WorldPoint { x: 64000, y: 0 });
    assert_eq!(r, None);
}

#[test]
fn negative_rejected_never_wraps() {
    // A world point at (-0.001, 5.0) is invalid: the negative component is
    // rejected before truncation, so it cannot wrap to a large cell index.
    let g = demo_grid();
    let r = g.resolve_cell(WorldPoint { x: -1, y: 5000 });
    assert_eq!(r, None);
}

#[test]
fn cell_zero_corner_is_inclusive() {
    let g = demo_grid();
    let r = g.resolve_cell(WorldPoint { x: 0, y: 0 });
    assert_eq!(r, Some(CellCoord { x: 0, y: 0 }));
}

#[test]
fn origin_offsets_the_grid() {
    let g = GridSpec::new(8000, 8000, 8, 8, 1000, 2000).unwrap();
    assert_eq!(
        g.resolve_cell(WorldPoint { x: 1000, y: 2000 }),
        Some(CellCoord { x: 0, y: 0 })
    );
    assert_eq!(g.resolve_cell(WorldPoint { x: 999, y: 2000 }), None);
    assert_eq!(
        g.resolve_cell(WorldPoint { x: 9000, y: 10000 }),
        Some(CellCoord { x: 1, y: 1 })
    );
}

#[test]
fn zero_cell_size_rejected() {
    assert_eq!(
        GridSpec::new(0, 8000, 8, 8, 0, 0).unwrap_err(),
        GridConfigError::NonPositiveCellSize
    );
}

#[test]
fn negative_cell_size_rejected() {
    assert_eq!(
        GridSpec::new(8000, -8000, 8, 8, 0, 0).unwrap_err(),
        GridConfigError::NonPositiveCellSize
    );
}

#[test]
fn zero_dims_rejected() {
    assert_eq!(
        GridSpec::new(8000, 8000, 0, 8, 0, 0).unwrap_err(),
        GridConfigError::ZeroGridDims
    );
    assert_eq!(
        GridSpec::new(8000, 8000, 8, 0, 0, 0).unwrap_err(),
        GridConfigError::ZeroGridDims
    );
}

#[test]
fn valid_config_accepted() {
    let g = GridSpec::new(8000, 8000, 8, 8, 0, 0).unwrap();
    assert_eq!(g.dims_x(), 8);
    assert_eq!(g.dims_y(), 8);
}

#[test]
fn far_point_does_not_overflow() {
    // Extreme coordinates and origins must resolve (to invalid or valid)
    // without any arithmetic overflow.
    let g = GridSpec::new(1, 1, 8, 8, i64::MAX, i64::MAX).unwrap();
    assert_eq!(g.resolve_cell(WorldPoint { x: i64::MIN, y: i64::MIN }), None);
    assert_eq!(
        g.resolve_cell(WorldPoint { x: i64::MAX, y: i64::MAX }),
        Some(CellCoord { x: 0, y: 0 })
    );
}

#[test]
fn marker_position_is_cell_corner() {
    let g = GridSpec::new(8000, 8000, 8, 8, 1000, 2000).unwrap();
    let p = g.cell_world_position(CellCoord { x: 2, y: 3 }).unwrap();
    assert_eq!(p, WorldPoint { x: 17000, y: 26000 });
}

#[test]
fn marker_position_resolves_back_to_its_cell() {
    // The corner the marker is placed at lies inside the cell it marks.
    let g = GridSpec::new(8000, 8000, 8, 8, 1000, 2000).unwrap();
    for x in 0..8u32 {
        for y in 0..8u32 {
            let c = CellCoord { x, y };
            let p = g.cell_world_position(c).unwrap();
            assert_eq!(g.resolve_cell(p), Some(c));
        }
    }
}

#[test]
fn marker_position_out_of_range_is_none() {
    let g = GridSpec::new(8000, 8000, 8, 8, i64::MAX, 0).unwrap();
    assert_eq!(g.cell_world_position(CellCoord { x: 1, y: 0 }), None);
}
